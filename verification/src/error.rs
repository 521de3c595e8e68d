use vstd::prelude::*;

verus! {

/// Failures surfaced by the upscaler integration. Every failure is
/// reported to the immediate caller; nothing is retried.
#[derive(Clone, Copy, Debug, PartialEq, Eq, Structural)]
pub enum Fsr2Error {
    /// Backend context creation rejected the supplied parameters; the
    /// opaque backend code is carried along.
    Initialization(i32),
    /// An engine pixel format has no native equivalent on the active
    /// backend: a caller configuration bug, never silently substituted.
    UnsupportedFormat,
    /// A requested feature (auto-generated reactive mask) is not
    /// provided; the frame must not be dispatched with wrong inputs.
    UnimplementedFeature,
    /// The native dispatch call reported an error; the command buffer
    /// content is invalid and must be discarded by the caller.
    Dispatch(i32),
}

} // verus!
