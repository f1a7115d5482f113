use win32_shell::msg::{LoopState, Message, ERR_CANNOT_FIND_WND_CLASS, ERR_CLASS_ALREADY_EXISTS,
    MSG_DESTROY, MSG_PAINT};
use win32_shell::paint::PaintOp;
use win32_shell::pump::{classify_retrieval, run_shell, Retrieval};
use win32_shell::shell::{Shell, ShellError, POSITION_DEFAULT, WINDOW_STYLE_OVERLAPPED};
use win32_shell::wndproc::ProcReply;

fn destroy_msg() -> Message {
    Message { code: MSG_DESTROY, wparam: 0, lparam: 0 }
}

fn paint_msg() -> Message {
    Message { code: MSG_PAINT, wparam: 0, lparam: 0 }
}

#[test]
fn register_fresh_name_succeeds() {
    let mut shell = Shell::new();
    assert!(shell.register_window_class("win32-window").is_ok());
    assert!(shell.class_is_registered("win32-window"));
    assert!(!shell.class_is_registered("other-class"));
}

#[test]
fn register_duplicate_fails() {
    let mut shell = Shell::new();
    assert!(shell.register_window_class("win32-window").is_ok());
    let second = shell.register_window_class("win32-window");
    assert_eq!(
        second,
        Err(ShellError::RegistrationFailed { code: ERR_CLASS_ALREADY_EXISTS })
    );
    // The registry still holds the single successful registration.
    assert_eq!(shell.classes.len(), 1);
}

#[test]
fn register_two_distinct_names() {
    let mut shell = Shell::new();
    assert!(shell.register_window_class("first").is_ok());
    assert!(shell.register_window_class("second").is_ok());
    assert!(shell.class_is_registered("first"));
    assert!(shell.class_is_registered("second"));
}

#[test]
fn create_window_unregistered_fails() {
    let mut shell = Shell::new();
    let r = shell.create_window("never-registered", "Win32Window");
    assert_eq!(
        r,
        Err(ShellError::WindowCreationFailed { code: ERR_CANNOT_FIND_WND_CLASS })
    );
    assert!(shell.window.is_none());
}

#[test]
fn create_window_registered_succeeds() {
    let mut shell = Shell::new();
    shell.register_window_class("win32-window").unwrap();
    let handle = shell.create_window("win32-window", "Win32Window").unwrap();
    assert_ne!(handle, 0);
    let w = shell.window.as_ref().unwrap();
    assert_eq!(w.handle, handle);
    assert_eq!(w.title, "Win32Window");
    assert_eq!(w.style, WINDOW_STYLE_OVERLAPPED);
    assert_eq!(w.style, 0x00CF0000);
    assert_eq!(w.x, POSITION_DEFAULT);
    assert_eq!(w.y, POSITION_DEFAULT);
    assert_eq!(w.width, 480);
    assert_eq!(w.height, 320);
    assert!(w.visible);
    // Creation queues the initial redraw request.
    assert_eq!(shell.queue.len(), 1);
    assert_eq!(shell.queue[0].code, MSG_PAINT);
}

#[test]
fn destroy_posts_quit_and_loop_exits() {
    let mut shell = Shell::new();
    shell.register_window_class("win32-window").unwrap();
    shell.create_window("win32-window", "Win32Window").unwrap();
    let reply = shell.window_proc(&destroy_msg());
    assert!(matches!(reply, ProcReply::Quit { result: 0 }));
    assert!(shell.quit_posted);
    assert_eq!(shell.state, LoopState::Terminating);
    assert!(shell.window.is_none());
    // The next retrieval reports the quit condition.
    assert!(!shell.handle_message());
}

#[test]
fn paint_acquires_and_releases_exactly_once() {
    let mut shell = Shell::new();
    shell.register_window_class("win32-window").unwrap();
    shell.create_window("win32-window", "Win32Window").unwrap();
    let reply = shell.window_proc(&paint_msg());
    let script = match reply {
        ProcReply::Paint { result, script } => {
            assert_eq!(result, 0);
            script
        }
        _ => panic!("paint must run the paint script locally"),
    };
    let acquires = script
        .iter()
        .filter(|op| matches!(op, PaintOp::AcquireContext))
        .count();
    let releases = script
        .iter()
        .filter(|op| matches!(op, PaintOp::ReleaseContext))
        .count();
    assert_eq!(acquires, 1);
    assert_eq!(releases, 1);
    // The release is the final step, after the draw.
    assert!(matches!(script.last(), Some(PaintOp::ReleaseContext)));
    assert!(matches!(script.first(), Some(PaintOp::AcquireContext)));
    // No context is left open once the response has run.
    assert_eq!(shell.open_contexts, 0);
    assert_eq!(shell.painted.len(), 1);
    assert_eq!(shell.painted[0].x, 50);
    assert_eq!(shell.painted[0].y, 50);
    assert_eq!(shell.painted[0].text, "Hello, World in Rust");
}

#[test]
fn other_message_is_forwarded_and_inert() {
    let mut shell = Shell::new();
    shell.register_window_class("win32-window").unwrap();
    shell.create_window("win32-window", "Win32Window").unwrap();
    let key_down = Message { code: 0x0100, wparam: 65, lparam: 1 };
    let reply = shell.window_proc(&key_down);
    assert!(matches!(reply, ProcReply::Forward));
    assert!(!shell.quit_posted);
    assert_eq!(shell.state, LoopState::Running);
    assert!(shell.window.is_some());
    assert_eq!(shell.painted.len(), 0);
    assert_eq!(shell.open_contexts, 0);
}

#[test]
fn handle_message_dispatches_front_of_queue() {
    let mut shell = Shell::new();
    shell.register_window_class("win32-window").unwrap();
    shell.create_window("win32-window", "Win32Window").unwrap();
    // The queue holds the initial redraw request.
    assert!(shell.handle_message());
    assert_eq!(shell.painted.len(), 1);
    assert_eq!(shell.queue.len(), 0);
    assert!(!shell.quit_posted);
}

#[test]
fn end_to_end_destroy_terminates_cleanly() {
    let messages = vec![destroy_msg()];
    let shell = run_shell(&messages).unwrap();
    assert!(shell.quit_posted);
    assert_eq!(shell.state, LoopState::Terminating);
    assert!(shell.window.is_none());
    assert_eq!(shell.open_contexts, 0);
    // The initial redraw drew the fixed text before the destroy arrived.
    assert_eq!(shell.painted.len(), 1);
    assert_eq!(shell.painted[0].text, "Hello, World in Rust");
    assert_eq!(shell.painted[0].x, 50);
    assert_eq!(shell.painted[0].y, 50);
}

#[test]
fn end_to_end_with_input_and_extra_paints() {
    let messages = vec![
        Message { code: 0x0100, wparam: 65, lparam: 1 },
        paint_msg(),
        destroy_msg(),
        // Nothing after the retrieved quit is dispatched.
        paint_msg(),
    ];
    let shell = run_shell(&messages).unwrap();
    assert!(shell.quit_posted);
    assert!(shell.window.is_none());
    assert_eq!(shell.open_contexts, 0);
    // The initial redraw plus the one explicit paint before the destroy.
    assert_eq!(shell.painted.len(), 2);
    assert_eq!(shell.queue.len(), 1);
}

#[test]
fn retrieval_classification() {
    assert_eq!(classify_retrieval(1), Retrieval::Delivered);
    assert_eq!(classify_retrieval(i32::MAX), Retrieval::Delivered);
    assert_eq!(classify_retrieval(0), Retrieval::Quit);
    // A retrieval failure is not the quit condition.
    assert_eq!(classify_retrieval(-1), Retrieval::Failed);
}

#[test]
fn loop_does_not_quit_without_destroy() {
    let mut shell = Shell::new();
    shell.register_window_class("win32-window").unwrap();
    shell.create_window("win32-window", "Win32Window").unwrap();
    shell.post_message(paint_msg());
    shell.post_message(Message { code: 0x0100, wparam: 65, lparam: 1 });
    while !shell.queue.is_empty() {
        assert!(shell.handle_message());
    }
    // Every message was dispatched and none posted the quit notification.
    assert!(!shell.quit_posted);
    assert_eq!(shell.state, LoopState::Running);
    assert!(shell.window.is_some());
}

#[test]
fn messages_after_posted_quit_are_not_dispatched() {
    let mut shell = Shell::new();
    shell.register_window_class("win32-window").unwrap();
    shell.create_window("win32-window", "Win32Window").unwrap();
    shell.window_proc(&destroy_msg());
    shell.post_message(paint_msg());
    // Retrieval reports quit; the queued paint message is never dispatched.
    assert!(!shell.handle_message());
    assert_eq!(shell.painted.len(), 0);
}
