//! What the engine asks the shell to do.
//!
//! The engine decides; the shell owns the pipeline and carries the decisions
//! out, in the order in which it gets them.

use vstd::prelude::*;

verus! {

/// A state of the shared pipeline.
#[derive(Clone, Copy, Debug, PartialEq, Eq, Structural)]
pub enum PipelineState {
    Ready,
    Paused,
    Playing,
}

/// How a seek is to be done.
#[derive(Clone, Copy, Debug, PartialEq, Eq, Structural)]
pub struct SeekFlags {
    pub flush: bool,
    pub accurate: bool,
    pub key_unit: bool,
    pub snap_before: bool,
    pub snap_after: bool,
}

impl SeekFlags {
    /// Flush what is queued.
    #[verifier::allow_in_spec]
    pub fn flushing() -> SeekFlags
        returns
            (SeekFlags { flush: true, accurate: false, key_unit: false, snap_before: false, snap_after: false }),
    {
        SeekFlags { flush: true, accurate: false, key_unit: false, snap_before: false, snap_after: false }
    }

    /// Flush, and land on the very frame.
    #[verifier::allow_in_spec]
    pub fn accurate() -> SeekFlags
        returns
            (SeekFlags { flush: true, accurate: true, key_unit: false, snap_before: false, snap_after: false }),
    {
        SeekFlags { flush: true, accurate: true, key_unit: false, snap_before: false, snap_after: false }
    }

    /// Flush, and land on the keyframe at or before the target.
    #[verifier::allow_in_spec]
    pub fn key_before() -> SeekFlags
        returns
            (SeekFlags { flush: true, accurate: false, key_unit: true, snap_before: true, snap_after: false }),
    {
        SeekFlags { flush: true, accurate: false, key_unit: true, snap_before: true, snap_after: false }
    }

    /// Flush, and land on the keyframe at or after the target.
    #[verifier::allow_in_spec]
    pub fn key_after() -> SeekFlags
        returns
            (SeekFlags { flush: true, accurate: false, key_unit: true, snap_before: false, snap_after: true }),
    {
        SeekFlags { flush: true, accurate: false, key_unit: true, snap_before: false, snap_after: true }
    }
}

/// One thing for the shell to do. A source is named by the index that its tab
/// has when the engine asks for the action.
#[derive(Debug, PartialEq, Eq)]
pub enum Action<S> {
    /// Silence a source, or let it sound.
    Mute { index: usize, mute: bool },
    /// Take a source out of the pipeline and shut it down.
    Detach { source: S },
    /// Bring a source to the paused state and wait until it is there.
    Preroll { index: usize },
    /// Move one source to a position.
    SeekSource { index: usize, pos: u64, flags: SeekFlags },
    /// Bring the pipeline to a state.
    SetState { state: PipelineState },
    /// Queue a seek of the whole pipeline.
    Seek { pos: u64, flags: SeekFlags },
    /// Show the next frame.
    Step,
    /// Ask the window to redraw.
    Wake,
}

} // verus!
