use vstd::prelude::*;
use vstd::string::StringExecFns;
use crate::msg::{initial_paint_message, LoopState, Message, ERR_CANNOT_FIND_WND_CLASS,
    ERR_CLASS_ALREADY_EXISTS, MSG_PAINT};
use crate::paint::{DrawRec, DrawView};

verus! {

/// Requested width of the window's client area.
pub const WINDOW_WIDTH: i32 = 480;

/// Requested height of the window's client area.
pub const WINDOW_HEIGHT: i32 = 320;

/// Style bits of the creation request: the standard overlapped top-level
/// window (caption, system menu, sizing frame, minimise and maximise boxes).
pub const WINDOW_STYLE_OVERLAPPED: u32 = 0x00CF0000;

/// Coordinate passed in the creation request to let the host choose the
/// window's position.
pub const POSITION_DEFAULT: i32 = -2147483648;

/// Class style bits of the registration request: redraw the whole window on
/// a horizontal or vertical resize.
pub const CLASS_STYLE_REDRAW_ON_RESIZE: u32 = 0x0003;

/// The two failure kinds, each carrying the windowing system's error code.
#[derive(Clone, Copy, PartialEq, Eq, Structural, Debug)]
pub enum ShellError {
    RegistrationFailed { code: u32 },
    WindowCreationFailed { code: u32 },
}

/// The single top-level window: its non-null handle, its title, the style,
/// position, and client size it was requested with, and whether it has been
/// shown.
#[derive(Clone, Debug)]
pub struct Window {
    pub handle: usize,
    pub title: String,
    pub style: u32,
    pub x: i32,
    pub y: i32,
    pub width: i32,
    pub height: i32,
    pub visible: bool,
}

/// Ghost image of the window.
#[verifier::ext_equal]
pub ghost struct WindowView {
    pub handle: usize,
    pub title: Seq<char>,
    pub style: u32,
    pub x: i32,
    pub y: i32,
    pub width: i32,
    pub height: i32,
    pub visible: bool,
}

impl View for Window {
    type V = WindowView;

    open spec fn view(&self) -> WindowView {
        WindowView {
            handle: self.handle,
            title: self.title@,
            style: self.style,
            x: self.x,
            y: self.y,
            width: self.width,
            height: self.height,
            visible: self.visible,
        }
    }
}

/// Ghost image of the whole shell.
#[verifier::ext_equal]
pub ghost struct ShellView {
    pub classes: Seq<Seq<char>>,
    pub window: Option<WindowView>,
    pub queue: Seq<Message>,
    pub quit_posted: bool,
    pub state: LoopState,
    pub open_contexts: nat,
    pub painted: Seq<DrawView>,
}

/// Whether `name` is among the registered class names.
pub open spec fn class_registered(classes: Seq<Seq<char>>, name: Seq<char>) -> bool {
    exists|i: int| 0 <= i < classes.len() && classes[i] == name
}

/// What every reachable shell state satisfies: class names are unique, no
/// paint context is open between dispatches, the quit flag and the loop
/// state agree, a posted quit means the window is gone, and a live window
/// has a non-null handle.
pub open spec fn view_wf(v: ShellView) -> bool {
    &&& forall|i: int, j: int| 0 <= i < j < v.classes.len() ==> v.classes[i] != v.classes[j]
    &&& v.open_contexts == 0
    &&& (v.quit_posted <==> v.state is Terminating)
    &&& (v.quit_posted ==> v.window is None)
    &&& (v.window matches Some(w) ==> w.handle != 0)
}

/// The state of a freshly started shell: nothing registered, no window, an
/// empty queue, Running.
pub open spec fn initial_shell_view() -> ShellView {
    ShellView {
        classes: Seq::empty(),
        window: None,
        queue: Seq::empty(),
        quit_posted: false,
        state: LoopState::Running,
        open_contexts: 0,
        painted: Seq::empty(),
    }
}

/// The application shell: the process-wide window-class registry, the single
/// top-level window, the thread's message queue, the quit flag with the loop
/// state it drives, the count of paint contexts currently open, and the
/// record of completed draws.
pub struct Shell {
    pub classes: Vec<String>,
    pub window: Option<Window>,
    pub queue: Vec<Message>,
    pub quit_posted: bool,
    pub state: LoopState,
    pub open_contexts: usize,
    pub painted: Vec<DrawRec>,
}

impl View for Shell {
    type V = ShellView;

    open spec fn view(&self) -> ShellView {
        ShellView {
            classes: self.classes@.map_values(|s: String| s@),
            window: match self.window {
                Some(w) => Some(w@),
                None => None,
            },
            queue: self.queue@,
            quit_posted: self.quit_posted,
            state: self.state,
            open_contexts: self.open_contexts as nat,
            painted: self.painted@.map_values(|d: DrawRec| d@),
        }
    }
}

impl Shell {
    /// Well-formedness of the shell, stated over its ghost image.
    pub open spec fn wf(&self) -> bool {
        view_wf(self@)
    }

    /// Starts a fresh shell.
    pub fn new() -> (s: Shell)
        ensures
            s.wf(),
            s@ =~= initial_shell_view(),
    {
        Shell {
            classes: Vec::new(),
            window: None,
            queue: Vec::new(),
            quit_posted: false,
            state: LoopState::Running,
            open_contexts: 0,
            painted: Vec::new(),
        }
    }

    /// Looks a class name up in the registry.
    pub fn class_is_registered(&self, class_name: &str) -> (r: bool)
        ensures
            r == class_registered(self@.classes, class_name@),
    {
        let target = String::from_str(class_name);
        let mut i: usize = 0;
        while i < self.classes.len()
            invariant
                i <= self.classes@.len(),
                target@ == class_name@,
                forall|j: int| 0 <= j < i ==> self@.classes[j] != class_name@,
            decreases self.classes@.len() - i,
        {
            if self.classes[i] == target {
                assert(self@.classes[i as int] == class_name@);
                return true;
            }
            i += 1;
        }
        false
    }

    /// Installs the process-wide association between `class_name` and the
    /// shell's window procedure with its default resources and the
    /// redraw-on-resize class style. Succeeds exactly when the name is not
    /// yet registered; a duplicate is rejected with the class-already-exists
    /// code and leaves the shell unchanged.
    pub fn register_window_class(&mut self, class_name: &str) -> (r: Result<(), ShellError>)
        requires
            old(self).wf(),
        ensures
            final(self).wf(),
            r is Ok <==> !class_registered(old(self)@.classes, class_name@),
            r is Ok ==> final(self)@ =~= (ShellView {
                classes: old(self)@.classes.push(class_name@),
                ..old(self)@
            }),
            r is Err ==> final(self)@ =~= old(self)@ && r == Err::<(), ShellError>(
                ShellError::RegistrationFailed { code: ERR_CLASS_ALREADY_EXISTS },
            ),
    {
        if self.class_is_registered(class_name) {
            Err(ShellError::RegistrationFailed { code: ERR_CLASS_ALREADY_EXISTS })
        } else {
            self.classes.push(String::from_str(class_name));
            proof {
                let before = old(self)@.classes;
                let now = self@.classes;
                assert(now =~= before.push(class_name@));
                assert forall|i: int, j: int| 0 <= i < j < now.len() implies now[i] != now[j] by {
                    if j == now.len() - 1 {
                        assert(!class_registered(before, class_name@));
                        assert(now[i] == before[i]);
                    }
                }
            }
            Ok(())
        }
    }

    /// Creates the single top-level window: an overlapped-style window of
    /// the given registered class at the host-default position with the
    /// fixed client size, shown immediately, with an initial redraw request
    /// queued. Fails with the class-not-found code, and changes nothing,
    /// exactly when the class was never registered.
    pub fn create_window(&mut self, class_name: &str, title: &str) -> (r: Result<
        usize,
        ShellError,
    >)
        requires
            old(self).wf(),
            old(self)@.window is None,
            !old(self)@.quit_posted,
        ensures
            final(self).wf(),
            r is Ok <==> class_registered(old(self)@.classes, class_name@),
            r matches Ok(h) ==> h != 0 && final(self)@ =~= (ShellView {
                window: Some(
                    WindowView {
                        handle: h,
                        title: title@,
                        style: WINDOW_STYLE_OVERLAPPED,
                        x: POSITION_DEFAULT,
                        y: POSITION_DEFAULT,
                        width: WINDOW_WIDTH,
                        height: WINDOW_HEIGHT,
                        visible: true,
                    },
                ),
                queue: old(self)@.queue.push(initial_paint_message()),
                ..old(self)@
            }),
            r is Err ==> final(self)@ =~= old(self)@ && r == Err::<usize, ShellError>(
                ShellError::WindowCreationFailed { code: ERR_CANNOT_FIND_WND_CLASS },
            ),
    {
        if !self.class_is_registered(class_name) {
            return Err(ShellError::WindowCreationFailed { code: ERR_CANNOT_FIND_WND_CLASS });
        }
        let handle: usize = 1;
        self.window = Some(
            Window {
                handle,
                title: String::from_str(title),
                style: WINDOW_STYLE_OVERLAPPED,
                x: POSITION_DEFAULT,
                y: POSITION_DEFAULT,
                width: WINDOW_WIDTH,
                height: WINDOW_HEIGHT,
                visible: true,
            },
        );
        self.queue.push(Message { code: MSG_PAINT, wparam: 0, lparam: 0 });
        Ok(handle)
    }
}

/// Registering a name that the registry lacks succeeds, and exactly once:
/// the registry it leaves behind contains the name, so the same registration
/// attempted again must fail.
pub proof fn lemma_register_exactly_once(classes: Seq<Seq<char>>, name: Seq<char>)
    requires
        !class_registered(classes, name),
    ensures
        class_registered(classes.push(name), name),
{
    assert(classes.push(name)[classes.len() as int] == name);
}

} // verus!
