//! A middleware configuration-and-composition factory.
//!
//! A [`TraceLayer`](layer::TraceLayer) aggregates a response-classifier
//! factory and six independently typed lifecycle hook slots into one
//! immutable configuration value.  Fluent, consuming mutators replace one
//! slot at a time; the terminal `layer` operation duplicates every slot
//! and pairs the copies with an inner request-handling capability to form
//! a [`Trace`](service::Trace) decorator.

pub mod classify;
pub mod defaults;
pub mod describe;
pub mod laws;
pub mod layer;
pub mod service;

pub use classify::GrpcErrorsAsFailures;
pub use classify::MakeClassifier;
pub use classify::ServerErrorsAsFailures;
pub use classify::SharedClassifier;
pub use defaults::DefaultMakeSpan;
pub use defaults::DefaultOnBodyChunk;
pub use defaults::DefaultOnEos;
pub use defaults::DefaultOnFailure;
pub use defaults::DefaultOnRequest;
pub use defaults::DefaultOnResponse;
pub use describe::Describe;
pub use layer::TraceLayer;
pub use service::Trace;
