//! The configuration object and its fluent, type-changing mutators.

use crate::classify::GrpcErrorsAsFailures;
use crate::classify::MakeClassifier;
use crate::classify::ServerErrorsAsFailures;
use crate::classify::SharedClassifier;
use crate::defaults::DefaultMakeSpan;
use crate::defaults::DefaultOnBodyChunk;
use crate::defaults::DefaultOnEos;
use crate::defaults::DefaultOnFailure;
use crate::defaults::DefaultOnRequest;
use crate::defaults::DefaultOnResponse;
use crate::describe::Describe;
use crate::describe::slots_description;
use crate::describe::slots_description_spec;
use crate::service::Trace;
use core::marker::PhantomData;
use vstd::prelude::*;

verus! {

/// An immutable middleware configuration: one classifier-factory slot
/// plus six independently typed lifecycle hook slots.
///
/// Every slot is filled at all times; construction defaults the hooks
/// and each fluent mutator replaces exactly one slot, carrying the
/// other six over unchanged.  The `E` parameter only pins the error
/// type the classifier and hooks handle; it carries no runtime value.
pub struct TraceLayer<
    M,
    E,
    MakeSpan = DefaultMakeSpan,
    OnRequest = DefaultOnRequest,
    OnResponse = DefaultOnResponse,
    OnBodyChunk = DefaultOnBodyChunk,
    OnEos = DefaultOnEos,
    OnFailure = DefaultOnFailure,
> {
    /// The classifier-factory slot.
    pub make_classifier: M,
    /// The span-creation slot.
    pub make_span: MakeSpan,
    /// The request-hook slot.
    pub on_request: OnRequest,
    /// The response-hook slot.
    pub on_response: OnResponse,
    /// The body-chunk-hook slot.
    pub on_body_chunk: OnBodyChunk,
    /// The end-of-stream-hook slot.
    pub on_eos: OnEos,
    /// The failure-hook slot.
    pub on_failure: OnFailure,
    /// Marker pinning the error type the classifier and hooks handle.
    pub _error: PhantomData<E>,
}

/// The value of `c` with only the span-creation slot replaced by
/// `new_make_span`.
pub open spec fn with_make_span<
    M,
    E,
    MakeSpan,
    OnRequest,
    OnResponse,
    OnBodyChunk,
    OnEos,
    OnFailure,
    NewMakeSpan,
>(
    c: TraceLayer<M, E, MakeSpan, OnRequest, OnResponse, OnBodyChunk, OnEos, OnFailure>,
    new_make_span: NewMakeSpan,
) -> TraceLayer<M, E, NewMakeSpan, OnRequest, OnResponse, OnBodyChunk, OnEos, OnFailure> {
    TraceLayer {
        make_classifier: c.make_classifier,
        make_span: new_make_span,
        on_request: c.on_request,
        on_response: c.on_response,
        on_body_chunk: c.on_body_chunk,
        on_eos: c.on_eos,
        on_failure: c.on_failure,
        _error: c._error,
    }
}

/// The value of `c` with only the request-hook slot replaced by
/// `new_on_request`.
pub open spec fn with_on_request<
    M,
    E,
    MakeSpan,
    OnRequest,
    OnResponse,
    OnBodyChunk,
    OnEos,
    OnFailure,
    NewOnRequest,
>(
    c: TraceLayer<M, E, MakeSpan, OnRequest, OnResponse, OnBodyChunk, OnEos, OnFailure>,
    new_on_request: NewOnRequest,
) -> TraceLayer<M, E, MakeSpan, NewOnRequest, OnResponse, OnBodyChunk, OnEos, OnFailure> {
    TraceLayer {
        make_classifier: c.make_classifier,
        make_span: c.make_span,
        on_request: new_on_request,
        on_response: c.on_response,
        on_body_chunk: c.on_body_chunk,
        on_eos: c.on_eos,
        on_failure: c.on_failure,
        _error: c._error,
    }
}

/// The value of `c` with only the response-hook slot replaced by
/// `new_on_response`.
pub open spec fn with_on_response<
    M,
    E,
    MakeSpan,
    OnRequest,
    OnResponse,
    OnBodyChunk,
    OnEos,
    OnFailure,
    NewOnResponse,
>(
    c: TraceLayer<M, E, MakeSpan, OnRequest, OnResponse, OnBodyChunk, OnEos, OnFailure>,
    new_on_response: NewOnResponse,
) -> TraceLayer<M, E, MakeSpan, OnRequest, NewOnResponse, OnBodyChunk, OnEos, OnFailure> {
    TraceLayer {
        make_classifier: c.make_classifier,
        make_span: c.make_span,
        on_request: c.on_request,
        on_response: new_on_response,
        on_body_chunk: c.on_body_chunk,
        on_eos: c.on_eos,
        on_failure: c.on_failure,
        _error: c._error,
    }
}

/// The value of `c` with only the body-chunk-hook slot replaced by
/// `new_on_body_chunk`.
pub open spec fn with_on_body_chunk<
    M,
    E,
    MakeSpan,
    OnRequest,
    OnResponse,
    OnBodyChunk,
    OnEos,
    OnFailure,
    NewOnBodyChunk,
>(
    c: TraceLayer<M, E, MakeSpan, OnRequest, OnResponse, OnBodyChunk, OnEos, OnFailure>,
    new_on_body_chunk: NewOnBodyChunk,
) -> TraceLayer<M, E, MakeSpan, OnRequest, OnResponse, NewOnBodyChunk, OnEos, OnFailure> {
    TraceLayer {
        make_classifier: c.make_classifier,
        make_span: c.make_span,
        on_request: c.on_request,
        on_response: c.on_response,
        on_body_chunk: new_on_body_chunk,
        on_eos: c.on_eos,
        on_failure: c.on_failure,
        _error: c._error,
    }
}

/// The value of `c` with only the end-of-stream-hook slot replaced by
/// `new_on_eos`.
pub open spec fn with_on_eos<
    M,
    E,
    MakeSpan,
    OnRequest,
    OnResponse,
    OnBodyChunk,
    OnEos,
    OnFailure,
    NewOnEos,
>(
    c: TraceLayer<M, E, MakeSpan, OnRequest, OnResponse, OnBodyChunk, OnEos, OnFailure>,
    new_on_eos: NewOnEos,
) -> TraceLayer<M, E, MakeSpan, OnRequest, OnResponse, OnBodyChunk, NewOnEos, OnFailure> {
    TraceLayer {
        make_classifier: c.make_classifier,
        make_span: c.make_span,
        on_request: c.on_request,
        on_response: c.on_response,
        on_body_chunk: c.on_body_chunk,
        on_eos: new_on_eos,
        on_failure: c.on_failure,
        _error: c._error,
    }
}

/// The value of `c` with only the failure-hook slot replaced by
/// `new_on_failure`.
pub open spec fn with_on_failure<
    M,
    E,
    MakeSpan,
    OnRequest,
    OnResponse,
    OnBodyChunk,
    OnEos,
    OnFailure,
    NewOnFailure,
>(
    c: TraceLayer<M, E, MakeSpan, OnRequest, OnResponse, OnBodyChunk, OnEos, OnFailure>,
    new_on_failure: NewOnFailure,
) -> TraceLayer<M, E, MakeSpan, OnRequest, OnResponse, OnBodyChunk, OnEos, NewOnFailure> {
    TraceLayer {
        make_classifier: c.make_classifier,
        make_span: c.make_span,
        on_request: c.on_request,
        on_response: c.on_response,
        on_body_chunk: c.on_body_chunk,
        on_eos: c.on_eos,
        on_failure: new_on_failure,
        _error: c._error,
    }
}

/// Every slot of `r` is a clone of the corresponding slot of `c`.
///
/// What a clone of a slot is is fixed by that slot type's own `Clone`
/// contract; for a slot type whose `clone` returns a value equal to its
/// input, this pins the slot of `r` to the slot of `c` exactly.
pub open spec fn cloned_config<
    M: Clone,
    E,
    MakeSpan: Clone,
    OnRequest: Clone,
    OnResponse: Clone,
    OnBodyChunk: Clone,
    OnEos: Clone,
    OnFailure: Clone,
>(
    c: TraceLayer<M, E, MakeSpan, OnRequest, OnResponse, OnBodyChunk, OnEos, OnFailure>,
    r: TraceLayer<M, E, MakeSpan, OnRequest, OnResponse, OnBodyChunk, OnEos, OnFailure>,
) -> bool {
    &&& cloned::<M>(c.make_classifier, r.make_classifier)
    &&& cloned::<MakeSpan>(c.make_span, r.make_span)
    &&& cloned::<OnRequest>(c.on_request, r.on_request)
    &&& cloned::<OnResponse>(c.on_response, r.on_response)
    &&& cloned::<OnBodyChunk>(c.on_body_chunk, r.on_body_chunk)
    &&& cloned::<OnEos>(c.on_eos, r.on_eos)
    &&& cloned::<OnFailure>(c.on_failure, r.on_failure)
}

impl<M, E> TraceLayer<M, E> {
    /// Create a configuration from the given classifier factory, with
    /// every hook slot filled by its documented built-in default.
    pub fn new(make_classifier: M) -> (r: Self) where M: MakeClassifier<E>
        ensures
            r.make_classifier == make_classifier,
            r.make_span == (DefaultMakeSpan {}),
            r.on_request == (DefaultOnRequest {}),
            r.on_response == (DefaultOnResponse {}),
            r.on_body_chunk == (DefaultOnBodyChunk {}),
            r.on_eos == (DefaultOnEos {}),
            r.on_failure == (DefaultOnFailure {}),
    {
        Self {
            make_classifier,
            make_span: DefaultMakeSpan::new(),
            on_failure: DefaultOnFailure::default(),
            on_request: DefaultOnRequest::default(),
            on_eos: DefaultOnEos::default(),
            on_body_chunk: DefaultOnBodyChunk::default(),
            on_response: DefaultOnResponse::default(),
            _error: PhantomData,
        }
    }
}

impl<E> TraceLayer<SharedClassifier<ServerErrorsAsFailures>, E> {
    /// Create a configuration whose classifier factory is fixed to the
    /// shared status-code-based policy; every hook slot is filled by its
    /// documented built-in default.
    pub fn new_for_http() -> (r: Self)
        ensures
            r.make_classifier == (SharedClassifier { classifier: ServerErrorsAsFailures {} }),
            r.make_span == (DefaultMakeSpan {}),
            r.on_request == (DefaultOnRequest {}),
            r.on_response == (DefaultOnResponse {}),
            r.on_body_chunk == (DefaultOnBodyChunk {}),
            r.on_eos == (DefaultOnEos {}),
            r.on_failure == (DefaultOnFailure {}),
    {
        Self {
            make_classifier: SharedClassifier::new(ServerErrorsAsFailures::default()),
            make_span: DefaultMakeSpan::new(),
            on_response: DefaultOnResponse::default(),
            on_request: DefaultOnRequest::default(),
            on_body_chunk: DefaultOnBodyChunk::default(),
            on_eos: DefaultOnEos::default(),
            on_failure: DefaultOnFailure::default(),
            _error: PhantomData,
        }
    }
}

impl<E> TraceLayer<SharedClassifier<GrpcErrorsAsFailures>, E> {
    /// Create a configuration whose classifier factory is fixed to the
    /// shared status-trailer-based policy; every hook slot is filled by
    /// its documented built-in default.
    pub fn new_for_grpc() -> (r: Self)
        ensures
            r.make_classifier == (SharedClassifier { classifier: GrpcErrorsAsFailures {} }),
            r.make_span == (DefaultMakeSpan {}),
            r.on_request == (DefaultOnRequest {}),
            r.on_response == (DefaultOnResponse {}),
            r.on_body_chunk == (DefaultOnBodyChunk {}),
            r.on_eos == (DefaultOnEos {}),
            r.on_failure == (DefaultOnFailure {}),
    {
        Self {
            make_classifier: SharedClassifier::new(GrpcErrorsAsFailures::default()),
            make_span: DefaultMakeSpan::new(),
            on_response: DefaultOnResponse::default(),
            on_request: DefaultOnRequest::default(),
            on_body_chunk: DefaultOnBodyChunk::default(),
            on_eos: DefaultOnEos::default(),
            on_failure: DefaultOnFailure::default(),
            _error: PhantomData,
        }
    }
}

impl<M, E, MakeSpan, OnRequest, OnResponse, OnBodyChunk, OnEos, OnFailure> TraceLayer<
    M,
    E,
    MakeSpan,
    OnRequest,
    OnResponse,
    OnBodyChunk,
    OnEos,
    OnFailure,
> {
    /// Replace only the request-hook slot; the classifier factory and
    /// the five other hooks are carried over unchanged.
    pub fn on_request<NewOnRequest>(self, new_on_request: NewOnRequest) -> (r: TraceLayer<
        M,
        E,
        MakeSpan,
        NewOnRequest,
        OnResponse,
        OnBodyChunk,
        OnEos,
        OnFailure,
    >)
        ensures
            r == with_on_request(self, new_on_request),
    {
        TraceLayer {
            on_request: new_on_request,
            on_failure: self.on_failure,
            on_eos: self.on_eos,
            on_body_chunk: self.on_body_chunk,
            make_span: self.make_span,
            on_response: self.on_response,
            make_classifier: self.make_classifier,
            _error: self._error,
        }
    }

    /// Replace only the response-hook slot; the classifier factory and
    /// the five other hooks are carried over unchanged.
    pub fn on_response<NewOnResponse>(self, new_on_response: NewOnResponse) -> (r: TraceLayer<
        M,
        E,
        MakeSpan,
        OnRequest,
        NewOnResponse,
        OnBodyChunk,
        OnEos,
        OnFailure,
    >)
        ensures
            r == with_on_response(self, new_on_response),
    {
        TraceLayer {
            on_response: new_on_response,
            on_request: self.on_request,
            on_eos: self.on_eos,
            on_body_chunk: self.on_body_chunk,
            on_failure: self.on_failure,
            make_span: self.make_span,
            make_classifier: self.make_classifier,
            _error: self._error,
        }
    }

    /// Replace only the body-chunk-hook slot; the classifier factory and
    /// the five other hooks are carried over unchanged.
    pub fn on_body_chunk<NewOnBodyChunk>(self, new_on_body_chunk: NewOnBodyChunk) -> (r: TraceLayer<
        M,
        E,
        MakeSpan,
        OnRequest,
        OnResponse,
        NewOnBodyChunk,
        OnEos,
        OnFailure,
    >)
        ensures
            r == with_on_body_chunk(self, new_on_body_chunk),
    {
        TraceLayer {
            on_body_chunk: new_on_body_chunk,
            on_eos: self.on_eos,
            on_failure: self.on_failure,
            on_request: self.on_request,
            make_span: self.make_span,
            on_response: self.on_response,
            make_classifier: self.make_classifier,
            _error: self._error,
        }
    }

    /// Replace only the end-of-stream-hook slot; the classifier factory
    /// and the five other hooks are carried over unchanged.
    pub fn on_eos<NewOnEos>(self, new_on_eos: NewOnEos) -> (r: TraceLayer<
        M,
        E,
        MakeSpan,
        OnRequest,
        OnResponse,
        OnBodyChunk,
        NewOnEos,
        OnFailure,
    >)
        ensures
            r == with_on_eos(self, new_on_eos),
    {
        TraceLayer {
            on_eos: new_on_eos,
            on_body_chunk: self.on_body_chunk,
            on_failure: self.on_failure,
            on_request: self.on_request,
            make_span: self.make_span,
            on_response: self.on_response,
            make_classifier: self.make_classifier,
            _error: self._error,
        }
    }

    /// Replace only the failure-hook slot; the classifier factory and
    /// the five other hooks are carried over unchanged.
    pub fn on_failure<NewOnFailure>(self, new_on_failure: NewOnFailure) -> (r: TraceLayer<
        M,
        E,
        MakeSpan,
        OnRequest,
        OnResponse,
        OnBodyChunk,
        OnEos,
        NewOnFailure,
    >)
        ensures
            r == with_on_failure(self, new_on_failure),
    {
        TraceLayer {
            on_failure: new_on_failure,
            on_request: self.on_request,
            on_eos: self.on_eos,
            on_body_chunk: self.on_body_chunk,
            make_span: self.make_span,
            on_response: self.on_response,
            make_classifier: self.make_classifier,
            _error: self._error,
        }
    }

    /// Replace only the span-creation slot; the classifier factory and
    /// the five other hooks are carried over unchanged.
    pub fn make_span_with<NewMakeSpan>(self, new_make_span: NewMakeSpan) -> (r: TraceLayer<
        M,
        E,
        NewMakeSpan,
        OnRequest,
        OnResponse,
        OnBodyChunk,
        OnEos,
        OnFailure,
    >)
        ensures
            r == with_make_span(self, new_make_span),
    {
        TraceLayer {
            make_span: new_make_span,
            on_request: self.on_request,
            on_failure: self.on_failure,
            on_body_chunk: self.on_body_chunk,
            on_eos: self.on_eos,
            on_response: self.on_response,
            make_classifier: self.make_classifier,
            _error: self._error,
        }
    }
}

impl<
    M: Clone,
    E,
    MakeSpan: Clone,
    OnRequest: Clone,
    OnResponse: Clone,
    OnBodyChunk: Clone,
    OnEos: Clone,
    OnFailure: Clone,
> TraceLayer<M, E, MakeSpan, OnRequest, OnResponse, OnBodyChunk, OnEos, OnFailure> {
    /// The terminal construction operation: wrap `inner`, pairing it
    /// with a clone of every slot of this configuration.
    ///
    /// The configuration is only read, never consumed, so it can build
    /// any number of decorators, each holding its own independent slot
    /// copies.
    pub fn layer<S>(&self, inner: S) -> (r: Trace<
        S,
        M,
        E,
        MakeSpan,
        OnRequest,
        OnResponse,
        OnBodyChunk,
        OnEos,
        OnFailure,
    >)
        ensures
            cloned_config(*self, r.configuration()),
            r.inner == inner,
    {
        Trace {
            inner,
            make_classifier: self.make_classifier.clone(),
            make_span: self.make_span.clone(),
            on_request: self.on_request.clone(),
            on_eos: self.on_eos.clone(),
            on_body_chunk: self.on_body_chunk.clone(),
            on_response: self.on_response.clone(),
            on_failure: self.on_failure.clone(),
            _error: PhantomData,
        }
    }
}

impl<
    M: Clone,
    E,
    MakeSpan: Clone,
    OnRequest: Clone,
    OnResponse: Clone,
    OnBodyChunk: Clone,
    OnEos: Clone,
    OnFailure: Clone,
> Clone for TraceLayer<M, E, MakeSpan, OnRequest, OnResponse, OnBodyChunk, OnEos, OnFailure> {
    /// Duplicate the configuration by cloning every slot independently;
    /// no slot is shared between the original and the clone.
    fn clone(&self) -> (r: Self)
        ensures
            cloned_config(*self, r),
    {
        Self {
            on_request: self.on_request.clone(),
            on_response: self.on_response.clone(),
            on_failure: self.on_failure.clone(),
            on_eos: self.on_eos.clone(),
            on_body_chunk: self.on_body_chunk.clone(),
            make_span: self.make_span.clone(),
            make_classifier: self.make_classifier.clone(),
            _error: self._error,
        }
    }
}

impl<
    M: Describe,
    E,
    MakeSpan: Describe,
    OnRequest: Describe,
    OnResponse: Describe,
    OnBodyChunk: Describe,
    OnEos: Describe,
    OnFailure: Describe,
> TraceLayer<M, E, MakeSpan, OnRequest, OnResponse, OnBodyChunk, OnEos, OnFailure> {
    /// The mathematical value of this configuration's diagnostic line.
    pub open spec fn diagnostic_spec(&self) -> Seq<char> {
        slots_description_spec(
            &self.make_classifier,
            &self.make_span,
            &self.on_request,
            &self.on_response,
            &self.on_body_chunk,
            &self.on_eos,
            &self.on_failure,
        )
    }

    /// Render the structured diagnostic line: all seven slots in a
    /// fixed, stable field order; the error-type marker carries no value
    /// and is omitted.
    pub fn diagnostic(&self) -> (r: String)
        ensures
            r@ == self.diagnostic_spec(),
    {
        slots_description(
            &self.make_classifier,
            &self.make_span,
            &self.on_request,
            &self.on_response,
            &self.on_body_chunk,
            &self.on_eos,
            &self.on_failure,
        )
    }
}

} // verus!
