//! The decorator produced by the terminal construction operation.

use crate::defaults::DefaultMakeSpan;
use crate::defaults::DefaultOnBodyChunk;
use crate::defaults::DefaultOnEos;
use crate::defaults::DefaultOnFailure;
use crate::defaults::DefaultOnRequest;
use crate::defaults::DefaultOnResponse;
use crate::describe::Describe;
use crate::describe::slots_description;
use crate::describe::slots_description_spec;
use crate::layer::TraceLayer;
use core::marker::PhantomData;
use vstd::prelude::*;

verus! {

/// A decorated request-handling capability: the inner capability paired
/// with a private copy of every slot of the configuration it was built
/// from.
///
/// A `Trace` holds copies, never the configuration's own slot values, so
/// decorators built from one configuration are mutually independent.
pub struct Trace<
    S,
    M,
    E,
    MakeSpan = DefaultMakeSpan,
    OnRequest = DefaultOnRequest,
    OnResponse = DefaultOnResponse,
    OnBodyChunk = DefaultOnBodyChunk,
    OnEos = DefaultOnEos,
    OnFailure = DefaultOnFailure,
> {
    /// The wrapped request-handling capability.
    pub inner: S,
    /// Copy of the classifier-factory slot.
    pub make_classifier: M,
    /// Copy of the span-creation slot.
    pub make_span: MakeSpan,
    /// Copy of the request-hook slot.
    pub on_request: OnRequest,
    /// Copy of the response-hook slot.
    pub on_response: OnResponse,
    /// Copy of the body-chunk-hook slot.
    pub on_body_chunk: OnBodyChunk,
    /// Copy of the end-of-stream-hook slot.
    pub on_eos: OnEos,
    /// Copy of the failure-hook slot.
    pub on_failure: OnFailure,
    /// Marker pinning the error type the classifier and hooks handle.
    pub _error: PhantomData<E>,
}

impl<S, M, E, MakeSpan, OnRequest, OnResponse, OnBodyChunk, OnEos, OnFailure> Trace<
    S,
    M,
    E,
    MakeSpan,
    OnRequest,
    OnResponse,
    OnBodyChunk,
    OnEos,
    OnFailure,
> {
    /// The configuration value this decorator carries: its seven slot
    /// copies, reassembled.
    pub open spec fn configuration(&self) -> TraceLayer<
        M,
        E,
        MakeSpan,
        OnRequest,
        OnResponse,
        OnBodyChunk,
        OnEos,
        OnFailure,
    > {
        TraceLayer {
            make_classifier: self.make_classifier,
            make_span: self.make_span,
            on_request: self.on_request,
            on_response: self.on_response,
            on_body_chunk: self.on_body_chunk,
            on_eos: self.on_eos,
            on_failure: self.on_failure,
            _error: self._error,
        }
    }

    /// A reference to the wrapped capability.
    pub fn get_ref(&self) -> (r: &S)
        ensures
            *r == self.inner,
    {
        &self.inner
    }
}

impl<
    S,
    M: Describe,
    E,
    MakeSpan: Describe,
    OnRequest: Describe,
    OnResponse: Describe,
    OnBodyChunk: Describe,
    OnEos: Describe,
    OnFailure: Describe,
> Trace<S, M, E, MakeSpan, OnRequest, OnResponse, OnBodyChunk, OnEos, OnFailure> {
    /// Render the diagnostic line of the carried configuration copies:
    /// the same rendering a configuration itself uses, so the two can be
    /// compared textually.
    pub fn config_diagnostic(&self) -> (r: String)
        ensures
            r@ == slots_description_spec(
                &self.make_classifier,
                &self.make_span,
                &self.on_request,
                &self.on_response,
                &self.on_body_chunk,
                &self.on_eos,
                &self.on_failure,
            ),
    {
        slots_description(
            &self.make_classifier,
            &self.make_span,
            &self.on_request,
            &self.on_response,
            &self.on_body_chunk,
            &self.on_eos,
            &self.on_failure,
        )
    }
}

} // verus!
