//! The laws of the configuration algebra.
//!
//! Each proof function here states, over the spec-level model, a
//! property that holds of every configuration: the mutators commute, a
//! full mutator chain has one canonical result whatever its order, the
//! two preset classifier factories are distinguishable, and building or
//! cloning preserves the diagnostic line slot for slot.

use crate::classify::GrpcErrorsAsFailures;
use crate::classify::ServerErrorsAsFailures;
use crate::classify::SharedClassifier;
use crate::describe::Describe;
use crate::layer::TraceLayer;
use crate::layer::cloned_config;
use crate::layer::with_make_span;
use crate::layer::with_on_body_chunk;
use crate::layer::with_on_eos;
use crate::layer::with_on_failure;
use crate::layer::with_on_request;
use crate::layer::with_on_response;
use crate::service::Trace;
use vstd::prelude::*;

verus! {

/// `T`'s `Clone` contract admits only values equal to the input: every
/// possible clone of a value is that value.
pub open spec fn clone_is_exact<T: Clone>() -> bool {
    forall|a: T, b: T| #[trigger] cloned::<T>(a, b) ==> b == a
}

/// Commutativity of disjoint-slot mutation: for every configuration and
/// every pair of distinct slots, replacing the two slots in either order
/// yields the same configuration value.  All fifteen pairs are stated,
/// so any permutation of the six mutators, applied with the same
/// arguments, reaches the same result.
pub proof fn lemma_mutators_commute<
    M,
    E,
    MakeSpan,
    OnRequest,
    OnResponse,
    OnBodyChunk,
    OnEos,
    OnFailure,
    NewMakeSpan,
    NewOnRequest,
    NewOnResponse,
    NewOnBodyChunk,
    NewOnEos,
    NewOnFailure,
>(
    c: TraceLayer<M, E, MakeSpan, OnRequest, OnResponse, OnBodyChunk, OnEos, OnFailure>,
    make_span: NewMakeSpan,
    on_request: NewOnRequest,
    on_response: NewOnResponse,
    on_body_chunk: NewOnBodyChunk,
    on_eos: NewOnEos,
    on_failure: NewOnFailure,
)
    ensures
        with_on_request(with_make_span(c, make_span), on_request) == with_make_span(
            with_on_request(c, on_request),
            make_span,
        ),
        with_on_response(with_make_span(c, make_span), on_response) == with_make_span(
            with_on_response(c, on_response),
            make_span,
        ),
        with_on_body_chunk(with_make_span(c, make_span), on_body_chunk) == with_make_span(
            with_on_body_chunk(c, on_body_chunk),
            make_span,
        ),
        with_on_eos(with_make_span(c, make_span), on_eos) == with_make_span(
            with_on_eos(c, on_eos),
            make_span,
        ),
        with_on_failure(with_make_span(c, make_span), on_failure) == with_make_span(
            with_on_failure(c, on_failure),
            make_span,
        ),
        with_on_response(with_on_request(c, on_request), on_response) == with_on_request(
            with_on_response(c, on_response),
            on_request,
        ),
        with_on_body_chunk(with_on_request(c, on_request), on_body_chunk) == with_on_request(
            with_on_body_chunk(c, on_body_chunk),
            on_request,
        ),
        with_on_eos(with_on_request(c, on_request), on_eos) == with_on_request(
            with_on_eos(c, on_eos),
            on_request,
        ),
        with_on_failure(with_on_request(c, on_request), on_failure) == with_on_request(
            with_on_failure(c, on_failure),
            on_request,
        ),
        with_on_body_chunk(with_on_response(c, on_response), on_body_chunk) == with_on_response(
            with_on_body_chunk(c, on_body_chunk),
            on_response,
        ),
        with_on_eos(with_on_response(c, on_response), on_eos) == with_on_response(
            with_on_eos(c, on_eos),
            on_response,
        ),
        with_on_failure(with_on_response(c, on_response), on_failure) == with_on_response(
            with_on_failure(c, on_failure),
            on_response,
        ),
        with_on_eos(with_on_body_chunk(c, on_body_chunk), on_eos) == with_on_body_chunk(
            with_on_eos(c, on_eos),
            on_body_chunk,
        ),
        with_on_failure(with_on_body_chunk(c, on_body_chunk), on_failure) == with_on_body_chunk(
            with_on_failure(c, on_failure),
            on_body_chunk,
        ),
        with_on_failure(with_on_eos(c, on_eos), on_failure) == with_on_eos(
            with_on_failure(c, on_failure),
            on_eos,
        ),
{
}

/// A full mutator chain has one canonical result: applying all six
/// mutators to `c`, in the given order or in the exactly reversed
/// order, yields the configuration whose classifier factory is `c`'s
/// and whose six hook slots are the six given values.
pub proof fn lemma_mutator_chain_canonical<
    M,
    E,
    MakeSpan,
    OnRequest,
    OnResponse,
    OnBodyChunk,
    OnEos,
    OnFailure,
    NewMakeSpan,
    NewOnRequest,
    NewOnResponse,
    NewOnBodyChunk,
    NewOnEos,
    NewOnFailure,
>(
    c: TraceLayer<M, E, MakeSpan, OnRequest, OnResponse, OnBodyChunk, OnEos, OnFailure>,
    make_span: NewMakeSpan,
    on_request: NewOnRequest,
    on_response: NewOnResponse,
    on_body_chunk: NewOnBodyChunk,
    on_eos: NewOnEos,
    on_failure: NewOnFailure,
)
    ensures
        with_on_failure(
            with_on_eos(
                with_on_body_chunk(
                    with_on_response(
                        with_on_request(with_make_span(c, make_span), on_request),
                        on_response,
                    ),
                    on_body_chunk,
                ),
                on_eos,
            ),
            on_failure,
        ) == (TraceLayer {
            make_classifier: c.make_classifier,
            make_span: make_span,
            on_request: on_request,
            on_response: on_response,
            on_body_chunk: on_body_chunk,
            on_eos: on_eos,
            on_failure: on_failure,
            _error: c._error,
        }),
        with_make_span(
            with_on_request(
                with_on_response(
                    with_on_body_chunk(
                        with_on_eos(with_on_failure(c, on_failure), on_eos),
                        on_body_chunk,
                    ),
                    on_response,
                ),
                on_request,
            ),
            make_span,
        ) == (TraceLayer {
            make_classifier: c.make_classifier,
            make_span: make_span,
            on_request: on_request,
            on_response: on_response,
            on_body_chunk: on_body_chunk,
            on_eos: on_eos,
            on_failure: on_failure,
            _error: c._error,
        }),
{
}

/// The two preset classifier factories are distinguishable: the
/// classifier factory a status-code-based preset carries and the one a
/// status-trailer-based preset carries have different diagnostic
/// labels.
pub proof fn lemma_preset_classifier_descriptions_differ()
    ensures
        (SharedClassifier { classifier: ServerErrorsAsFailures {} }).describe_spec() != (
        SharedClassifier { classifier: GrpcErrorsAsFailures {} }).describe_spec(),
{
    reveal_strlit("ServerErrorsAsFailures");
    reveal_strlit("GrpcErrorsAsFailures");
    assert((SharedClassifier { classifier: ServerErrorsAsFailures {} }).describe_spec().len() != (
    SharedClassifier { classifier: GrpcErrorsAsFailures {} }).describe_spec().len());
}

/// Building never entangles decorators: two decorators whose slots are
/// clones of one configuration's slots — as the terminal construction
/// operation ensures — carry configurations whose diagnostic lines both
/// equal the source's, and hence each other's, provided each slot
/// type's `Clone` contract admits only exact copies.
pub proof fn lemma_decorators_share_configuration<
    S1,
    S2,
    M: Clone + Describe,
    E,
    MakeSpan: Clone + Describe,
    OnRequest: Clone + Describe,
    OnResponse: Clone + Describe,
    OnBodyChunk: Clone + Describe,
    OnEos: Clone + Describe,
    OnFailure: Clone + Describe,
>(
    c: TraceLayer<M, E, MakeSpan, OnRequest, OnResponse, OnBodyChunk, OnEos, OnFailure>,
    d1: Trace<S1, M, E, MakeSpan, OnRequest, OnResponse, OnBodyChunk, OnEos, OnFailure>,
    d2: Trace<S2, M, E, MakeSpan, OnRequest, OnResponse, OnBodyChunk, OnEos, OnFailure>,
)
    requires
        clone_is_exact::<M>(),
        clone_is_exact::<MakeSpan>(),
        clone_is_exact::<OnRequest>(),
        clone_is_exact::<OnResponse>(),
        clone_is_exact::<OnBodyChunk>(),
        clone_is_exact::<OnEos>(),
        clone_is_exact::<OnFailure>(),
        cloned_config(c, d1.configuration()),
        cloned_config(c, d2.configuration()),
    ensures
        d1.configuration().diagnostic_spec() == c.diagnostic_spec(),
        d2.configuration().diagnostic_spec() == c.diagnostic_spec(),
        d1.configuration().diagnostic_spec() == d2.configuration().diagnostic_spec(),
{
    assert(d1.make_classifier == c.make_classifier);
    assert(d1.make_span == c.make_span);
    assert(d1.on_request == c.on_request);
    assert(d1.on_response == c.on_response);
    assert(d1.on_body_chunk == c.on_body_chunk);
    assert(d1.on_eos == c.on_eos);
    assert(d1.on_failure == c.on_failure);
    assert(d2.make_classifier == c.make_classifier);
    assert(d2.make_span == c.make_span);
    assert(d2.on_request == c.on_request);
    assert(d2.on_response == c.on_response);
    assert(d2.on_body_chunk == c.on_body_chunk);
    assert(d2.on_eos == c.on_eos);
    assert(d2.on_failure == c.on_failure);
}

/// Cloning preserves the diagnostic line: a configuration whose slots
/// are clones of `c`'s slots — as the `Clone` implementation ensures —
/// has `c`'s diagnostic line, provided each slot type's `Clone`
/// contract admits only exact copies.
pub proof fn lemma_clone_preserves_diagnostic<
    M: Clone + Describe,
    E,
    MakeSpan: Clone + Describe,
    OnRequest: Clone + Describe,
    OnResponse: Clone + Describe,
    OnBodyChunk: Clone + Describe,
    OnEos: Clone + Describe,
    OnFailure: Clone + Describe,
>(
    c: TraceLayer<M, E, MakeSpan, OnRequest, OnResponse, OnBodyChunk, OnEos, OnFailure>,
    c2: TraceLayer<M, E, MakeSpan, OnRequest, OnResponse, OnBodyChunk, OnEos, OnFailure>,
)
    requires
        clone_is_exact::<M>(),
        clone_is_exact::<MakeSpan>(),
        clone_is_exact::<OnRequest>(),
        clone_is_exact::<OnResponse>(),
        clone_is_exact::<OnBodyChunk>(),
        clone_is_exact::<OnEos>(),
        clone_is_exact::<OnFailure>(),
        cloned_config(c, c2),
    ensures
        c2.diagnostic_spec() == c.diagnostic_spec(),
{
    assert(c2.make_classifier == c.make_classifier);
    assert(c2.make_span == c.make_span);
    assert(c2.on_request == c.on_request);
    assert(c2.on_response == c.on_response);
    assert(c2.on_body_chunk == c.on_body_chunk);
    assert(c2.on_eos == c.on_eos);
    assert(c2.on_failure == c.on_failure);
}

} // verus!
