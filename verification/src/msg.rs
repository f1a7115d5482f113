use vstd::prelude::*;

verus! {

/// Message code of a destroy-requested notification, as the host windowing
/// system numbers it.
pub const MSG_DESTROY: u32 = 0x0002;

/// Message code of a paint-needed notification.
pub const MSG_PAINT: u32 = 0x000F;

/// Error code the windowing system reports for a duplicate class name.
pub const ERR_CLASS_ALREADY_EXISTS: u32 = 1410;

/// Error code the windowing system reports when a window is requested for a
/// class name that was never registered.
pub const ERR_CANNOT_FIND_WND_CLASS: u32 = 1407;

/// A transient message record: the message kind and its two opaque parameter
/// words. The shell owns a single window, so the target is implicit.
#[derive(Clone, Copy, PartialEq, Eq, Structural, Debug)]
pub struct Message {
    pub code: u32,
    pub wparam: usize,
    pub lparam: isize,
}

/// The two logical states of the shell's lifetime: `Running` from window
/// creation until a destroy request, `Terminating` once the quit
/// notification has been posted.
#[derive(Clone, Copy, PartialEq, Eq, Structural, Debug)]
pub enum LoopState {
    Running,
    Terminating,
}

/// The redraw request issued right after the window is first shown.
pub open spec fn initial_paint_message() -> Message {
    Message { code: MSG_PAINT, wparam: 0, lparam: 0 }
}

} // verus!
