//! A minimal desktop GUI shell, modelled as a verified state machine.
//!
//! The shell registers a named window class, creates a single top-level
//! window, and runs a blocking message loop that dispatches events until the
//! window is destroyed. The window procedure handles exactly two message
//! kinds — destroy-requested and paint-needed — and forwards everything else
//! to the default handler. All decisions (what a registration or creation
//! attempt returns, how the procedure reacts to a message, when the loop
//! terminates) live here with contracts; the host windowing calls themselves
//! are performed by the surrounding program.

pub mod msg;
pub mod paint;
pub mod pump;
pub mod shell;
pub mod wide;
pub mod wndproc;
