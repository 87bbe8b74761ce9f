use vstd::prelude::*;

verus! {

/// Everything the service can refuse to do, by cause.
///
/// `NotReady` is the fatal lifecycle misuse: an operation was invoked before
/// `startup` bound the backend. `ShaderNotCompiled` reports a bind against a
/// shader whose module has not been compiled, or a draw against a shader with
/// no cached pipeline; the caller retries after the lazy-load pass succeeds.
/// `BindingMismatch` reports a bind group that does not match the compiled
/// pipeline's expected slots, a resource that is not loaded, or stale
/// bindings resolved against a pipeline that has since been dropped.
/// `PipelineKindMismatch` reports a draw through a compute pipeline or a
/// dispatch through a render pipeline.
#[derive(Clone, Copy, Debug, PartialEq, Eq, Structural)]
pub enum RenderError {
    /// An operation ran before `startup` bound the backend.
    NotReady,
    /// The shader's module is not compiled, or no pipeline is cached for it.
    ShaderNotCompiled,
    /// A binding does not fit the pipeline's expected slots or is not loaded.
    BindingMismatch,
    /// A render pipeline was dispatched as compute, or the other way round.
    PipelineKindMismatch,
}

} // verus!
