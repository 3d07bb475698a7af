//! Diagnostic labels for configuration slots.

use vstd::prelude::*;
use vstd::string::StringExecFns;

verus! {

/// A capability that can render itself as a stable diagnostic label.
///
/// Every slot type of a configuration carries one fixed textual
/// description; a configuration's diagnostic output is assembled from
/// these labels in a fixed field order.  The label is purely for
/// diagnostics and equality-style testing, never for parsing or
/// persistence.
pub trait Describe {
    /// The mathematical value of this capability's diagnostic label.
    spec fn describe_spec(&self) -> Seq<char>;

    /// Render the diagnostic label.
    fn describe(&self) -> (r: String)
        ensures
            r@ == self.describe_spec(),
    ;
}

/// The mathematical value of the diagnostic line for one full set of
/// slot values: the configuration's name, then all seven slots in a
/// fixed, stable field order.
pub open spec fn slots_description_spec<
    M: Describe,
    MakeSpan: Describe,
    OnRequest: Describe,
    OnResponse: Describe,
    OnBodyChunk: Describe,
    OnEos: Describe,
    OnFailure: Describe,
>(
    make_classifier: &M,
    make_span: &MakeSpan,
    on_request: &OnRequest,
    on_response: &OnResponse,
    on_body_chunk: &OnBodyChunk,
    on_eos: &OnEos,
    on_failure: &OnFailure,
) -> Seq<char> {
    "TraceLayer { make_classifier: "@ + make_classifier.describe_spec() + ", make_span: "@
        + make_span.describe_spec() + ", on_request: "@ + on_request.describe_spec()
        + ", on_response: "@ + on_response.describe_spec() + ", on_body_chunk: "@
        + on_body_chunk.describe_spec() + ", on_eos: "@ + on_eos.describe_spec()
        + ", on_failure: "@ + on_failure.describe_spec() + " }"@
}

/// Render the diagnostic line for one full set of slot values.
///
/// A configuration and a decorator both render their slots through this
/// one function, so their diagnostic lines can be compared textually.
pub fn slots_description<
    M: Describe,
    MakeSpan: Describe,
    OnRequest: Describe,
    OnResponse: Describe,
    OnBodyChunk: Describe,
    OnEos: Describe,
    OnFailure: Describe,
>(
    make_classifier: &M,
    make_span: &MakeSpan,
    on_request: &OnRequest,
    on_response: &OnResponse,
    on_body_chunk: &OnBodyChunk,
    on_eos: &OnEos,
    on_failure: &OnFailure,
) -> (r: String)
    ensures
        r@ == slots_description_spec(
            make_classifier,
            make_span,
            on_request,
            on_response,
            on_body_chunk,
            on_eos,
            on_failure,
        ),
{
    let mut s = String::from_str("TraceLayer { make_classifier: ");
    let part = make_classifier.describe();
    s.append(part.as_str());
    s.append(", make_span: ");
    let part = make_span.describe();
    s.append(part.as_str());
    s.append(", on_request: ");
    let part = on_request.describe();
    s.append(part.as_str());
    s.append(", on_response: ");
    let part = on_response.describe();
    s.append(part.as_str());
    s.append(", on_body_chunk: ");
    let part = on_body_chunk.describe();
    s.append(part.as_str());
    s.append(", on_eos: ");
    let part = on_eos.describe();
    s.append(part.as_str());
    s.append(", on_failure: ");
    let part = on_failure.describe();
    s.append(part.as_str());
    s.append(" }");
    proof {
        assert(s@ =~= slots_description_spec(
            make_classifier,
            make_span,
            on_request,
            on_response,
            on_body_chunk,
            on_eos,
            on_failure,
        ));
    }
    s
}

} // verus!
