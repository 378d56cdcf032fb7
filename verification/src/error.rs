use vstd::prelude::*;

verus! {

/// The ways in which a rendering operation can fail.
///
/// Every failure is reported synchronously to the immediate caller and is
/// never retried by the library.
#[derive(Clone, Copy, Debug, PartialEq, Eq, Structural)]
pub enum RenderError {
    /// The context cannot provide a resource of the requested size or sample
    /// count, or has run out of handles.
    ResourceAllocationFailure,
    /// A shading program needed by a draw failed to compile.
    ShaderCompilationFailure,
    /// Attachments of differing sizes were combined, or a blit was requested
    /// between targets of differing sizes.
    InvalidTargetComposition,
    /// The operation is not defined for the value it was invoked on.
    UnsupportedOperation,
}

} // verus!
