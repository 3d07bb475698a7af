//! Response-classification strategies and the factory capability that
//! produces one classifier per request.

use crate::describe::Describe;
use vstd::prelude::*;
use vstd::string::StringExecFns;

verus! {

/// A factory that produces one fresh classifier value per request.
///
/// The classifier judges, from response data of the protocol at hand or
/// from an in-flight error of type `E`, whether the exchange counts as a
/// success or a failure.  The judgement itself is out of scope here; the
/// configuration only carries the factory.
pub trait MakeClassifier<E> {
    /// The classifier values this factory produces.
    type Classifier;

    /// Which classifier values this factory may hand a request.
    spec fn produces(&self, classifier: Self::Classifier) -> bool;

    /// Produce a classifier for one request.
    fn make_classifier(&self) -> (r: Self::Classifier)
        ensures
            self.produces(r),
    ;
}

/// A classification policy that treats server-error status codes of
/// plain HTTP responses as failures.
pub struct ServerErrorsAsFailures {}

impl ServerErrorsAsFailures {
    /// Create the status-code-based policy.
    pub fn new() -> (r: Self)
        ensures
            r == (ServerErrorsAsFailures {}),
    {
        ServerErrorsAsFailures {}
    }
}

impl Default for ServerErrorsAsFailures {
    fn default() -> (r: Self)
        ensures
            r == (ServerErrorsAsFailures {}),
    {
        ServerErrorsAsFailures {}
    }
}

impl Clone for ServerErrorsAsFailures {
    fn clone(&self) -> (r: Self)
        ensures
            r == *self,
    {
        ServerErrorsAsFailures {}
    }
}

impl Describe for ServerErrorsAsFailures {
    open spec fn describe_spec(&self) -> Seq<char> {
        "ServerErrorsAsFailures"@
    }

    fn describe(&self) -> (r: String) {
        String::from_str("ServerErrorsAsFailures")
    }
}

/// A classification policy that reads the status trailer of RPC-style
/// responses, for protocols that signal failure via a trailer rather
/// than a numeric status code.
pub struct GrpcErrorsAsFailures {}

impl GrpcErrorsAsFailures {
    /// Create the status-trailer-based policy.
    pub fn new() -> (r: Self)
        ensures
            r == (GrpcErrorsAsFailures {}),
    {
        GrpcErrorsAsFailures {}
    }
}

impl Default for GrpcErrorsAsFailures {
    fn default() -> (r: Self)
        ensures
            r == (GrpcErrorsAsFailures {}),
    {
        GrpcErrorsAsFailures {}
    }
}

impl Clone for GrpcErrorsAsFailures {
    fn clone(&self) -> (r: Self)
        ensures
            r == *self,
    {
        GrpcErrorsAsFailures {}
    }
}

impl Describe for GrpcErrorsAsFailures {
    open spec fn describe_spec(&self) -> Seq<char> {
        "GrpcErrorsAsFailures"@
    }

    fn describe(&self) -> (r: String) {
        String::from_str("GrpcErrorsAsFailures")
    }
}

/// A classifier factory that hands every request a duplicate of one
/// shared classifier value.
pub struct SharedClassifier<C> {
    /// The classifier duplicated for each request.
    pub classifier: C,
}

impl<C> SharedClassifier<C> {
    /// Share `classifier` among all requests.
    pub fn new(classifier: C) -> (r: Self)
        ensures
            r == (SharedClassifier { classifier: classifier }),
    {
        SharedClassifier { classifier }
    }
}

impl<C: Clone, E> MakeClassifier<E> for SharedClassifier<C> {
    type Classifier = C;

    open spec fn produces(&self, classifier: C) -> bool {
        cloned::<C>(self.classifier, classifier)
    }

    fn make_classifier(&self) -> (r: C) {
        self.classifier.clone()
    }
}

impl<C: Clone> Clone for SharedClassifier<C> {
    fn clone(&self) -> (r: Self)
        ensures
            cloned::<C>(self.classifier, r.classifier),
    {
        SharedClassifier { classifier: self.classifier.clone() }
    }
}

impl<C: Describe> Describe for SharedClassifier<C> {
    open spec fn describe_spec(&self) -> Seq<char> {
        "SharedClassifier("@ + self.classifier.describe_spec() + ")"@
    }

    fn describe(&self) -> (r: String) {
        let mut s = String::from_str("SharedClassifier(");
        let inner = self.classifier.describe();
        s.append(inner.as_str());
        s.append(")");
        proof {
            assert(s@ =~= self.describe_spec());
        }
        s
    }
}

} // verus!
