use vstd::prelude::*;
use crate::msg::{initial_paint_message, LoopState, Message, MSG_DESTROY};
use crate::paint::hello_draw;
use crate::shell::{Shell, ShellError, ShellView, WindowView, POSITION_DEFAULT, WINDOW_HEIGHT,
    WINDOW_STYLE_OVERLAPPED, WINDOW_WIDTH};
use crate::wndproc::wndproc_next;

verus! {

/// The message-retrieval model: a retrieval reports the quit condition
/// exactly when the quit notification has been posted.
pub open spec fn retrieval_reports_quit(v: ShellView) -> bool {
    v.quit_posted
}

/// The outcome of one blocking retrieval, as the host reports it.
#[derive(Clone, Copy, PartialEq, Eq, Structural, Debug)]
pub enum Retrieval {
    Delivered,
    Quit,
    Failed,
}

/// Classifies the host's report of a blocking retrieval: zero reports the
/// quit condition, a positive value delivers a message, a negative value is
/// a retrieval failure. Only the quit condition ends the loop; a failure is
/// no quit.
pub fn classify_retrieval(ret: i32) -> (r: Retrieval)
    ensures
        r is Quit <==> ret == 0,
        r is Delivered <==> ret > 0,
        r is Failed <==> ret < 0,
{
    if ret == 0 {
        Retrieval::Quit
    } else if ret > 0 {
        Retrieval::Delivered
    } else {
        Retrieval::Failed
    }
}

/// One dispatch: the front message leaves the queue and runs through the
/// window procedure.
pub open spec fn dispatch_next(v: ShellView) -> ShellView
    recommends
        v.queue.len() > 0,
{
    wndproc_next(ShellView { queue: v.queue.drop_first(), ..v }, v.queue[0])
}

/// The rest of the loop's run from a given state: dispatch messages until
/// a retrieval reports quit (or nothing is left to retrieve).
pub open spec fn run_queue(v: ShellView) -> ShellView
    decreases v.queue.len(),
{
    if v.quit_posted || v.queue.len() == 0 {
        v
    } else {
        run_queue(dispatch_next(v))
    }
}

/// Whether the queue holds a destroy-requested message.
pub open spec fn has_destroy(q: Seq<Message>) -> bool {
    exists|i: int| 0 <= i < q.len() && q[i].code == MSG_DESTROY
}

/// A destroy-requested message posts the quit notification: the shell it
/// leaves behind is Terminating, and a retrieval in that state reports the
/// quit condition, so the next `handle_message` call returns `false`.
pub proof fn lemma_destroy_posts_quit(v: ShellView, m: Message)
    requires
        m.code == MSG_DESTROY,
    ensures
        wndproc_next(v, m).quit_posted,
        wndproc_next(v, m).state is Terminating,
        retrieval_reports_quit(wndproc_next(v, m)),
{
}

/// Any message kind other than destroy-requested and paint-needed leaves
/// the shell exactly as it was: loop state, registry, window, queue, and
/// paint accounting are all untouched.
pub proof fn lemma_other_message_inert(v: ShellView, m: Message)
    requires
        m.code != MSG_DESTROY,
        m.code != crate::msg::MSG_PAINT,
    ensures
        wndproc_next(v, m) == v,
{
}

/// Along any run of the loop the registry never changes, the paint-context
/// accounting never changes, and the record of completed draws only grows.
pub proof fn lemma_run_queue_preserves(v: ShellView)
    ensures
        run_queue(v).classes == v.classes,
        run_queue(v).open_contexts == v.open_contexts,
        run_queue(v).painted.len() >= v.painted.len(),
        forall|j: int|
            0 <= j < v.painted.len() ==> run_queue(v).painted[j] == v.painted[j],
    decreases v.queue.len(),
{
    if v.quit_posted || v.queue.len() == 0 {
    } else {
        let v2 = dispatch_next(v);
        assert(v2.classes == v.classes);
        assert(v2.open_contexts == v.open_contexts);
        assert(forall|j: int| 0 <= j < v.painted.len() ==> v2.painted[j] == v.painted[j]);
        lemma_run_queue_preserves(v2);
    }
}

/// A run whose state has the quit notification posted, or a destroy message
/// still queued, ends with the quit notification posted.
pub proof fn lemma_run_queue_quits(v: ShellView)
    requires
        v.quit_posted || has_destroy(v.queue),
    ensures
        run_queue(v).quit_posted,
    decreases v.queue.len(),
{
    if v.quit_posted {
    } else {
        let v2 = dispatch_next(v);
        if v.queue[0].code == MSG_DESTROY {
            lemma_run_queue_quits(v2);
        } else {
            let i = choose|i: int| 0 <= i < v.queue.len() && v.queue[i].code == MSG_DESTROY;
            assert(v2.queue[i - 1].code == MSG_DESTROY);
            lemma_run_queue_quits(v2);
        }
    }
}

/// The loop terminates only through a destroy request: a run over a queue
/// that holds no destroy-requested message never posts the quit
/// notification — it runs out of retrieved messages and would block waiting
/// for the next. Together with `lemma_run_queue_quits` this makes the
/// destroy notification the one termination path.
pub proof fn lemma_quit_only_by_destroy(v: ShellView)
    requires
        !v.quit_posted,
        !has_destroy(v.queue),
    ensures
        !run_queue(v).quit_posted,
    decreases v.queue.len(),
{
    if v.queue.len() == 0 {
    } else {
        let v2 = dispatch_next(v);
        assert(v.queue[0].code != MSG_DESTROY);
        assert(!has_destroy(v2.queue)) by {
            if has_destroy(v2.queue) {
                let i = choose|i: int| 0 <= i < v2.queue.len() && v2.queue[i].code == MSG_DESTROY;
                assert(v.queue[i + 1].code == MSG_DESTROY);
            }
        }
        lemma_quit_only_by_destroy(v2);
    }
}

/// The lifetime state machine has no transition back: once the quit
/// notification is posted and the shell is Terminating, every further
/// message leaves it Terminating.
pub proof fn lemma_no_return_to_running(v: ShellView, m: Message)
    requires
        v.quit_posted,
        v.state is Terminating,
    ensures
        wndproc_next(v, m).quit_posted,
        wndproc_next(v, m).state is Terminating,
{
}

impl Shell {
    /// Posts a synthetic message to the back of the thread's queue, the way
    /// the host would deliver one.
    pub fn post_message(&mut self, m: Message)
        requires
            old(self).wf(),
        ensures
            final(self).wf(),
            final(self)@ =~= (ShellView { queue: old(self)@.queue.push(m), ..old(self)@ }),
    {
        self.queue.push(m);
    }

    /// One loop iteration. A retrieval that reports the quit condition
    /// returns `false` and ends the loop; otherwise the front message is
    /// retrieved, translated, and dispatched through the window procedure,
    /// and the iteration returns `true`.
    pub fn handle_message(&mut self) -> (more: bool)
        requires
            old(self).wf(),
            old(self)@.quit_posted || old(self)@.queue.len() > 0,
        ensures
            final(self).wf(),
            more == !retrieval_reports_quit(old(self)@),
            old(self)@.quit_posted ==> final(self)@ =~= old(self)@,
            !old(self)@.quit_posted ==> final(self)@ =~= dispatch_next(old(self)@),
    {
        if self.quit_posted {
            return false;
        }
        let m = self.queue.remove(0);
        proof {
            assert(self@.queue =~= old(self)@.queue.drop_first());
            assert(self@ =~= (ShellView { queue: old(self)@.queue.drop_first(), ..old(self)@ }));
        }
        let _reply = self.window_proc(&m);
        true
    }

    /// Runs the message loop to completion: repeated blocking retrieval and
    /// dispatch until a retrieval reports the quit condition. The queue must
    /// already hold a destroy request (or the quit notification must already
    /// be posted); otherwise the loop would block forever waiting on the
    /// host.
    pub fn run_loop(&mut self)
        requires
            old(self).wf(),
            old(self)@.quit_posted || has_destroy(old(self)@.queue),
        ensures
            final(self).wf(),
            final(self)@ =~= run_queue(old(self)@),
            final(self)@.quit_posted,
            final(self)@.window is None,
            final(self)@.open_contexts == 0,
    {
        let ghost snap = self@;
        loop
            invariant
                self.wf(),
                self@.quit_posted || has_destroy(self@.queue),
                run_queue(self@) == run_queue(snap),
            ensures
                self.wf(),
                self@.quit_posted,
                run_queue(self@) == run_queue(snap),
            decreases self@.queue.len() + (if self@.quit_posted {
                0int
            } else {
                1int
            }),
        {
            let ghost pre = self@;
            if !self.handle_message() {
                proof {
                    assert(self@ =~= pre);
                    assert(run_queue(self@) == run_queue(snap));
                }
                break;
            }
            proof {
                assert(self@ =~= dispatch_next(pre));
                if pre.queue[0].code != MSG_DESTROY {
                    if !self@.quit_posted {
                        let i = choose|i: int|
                            0 <= i < pre.queue.len() && pre.queue[i].code == MSG_DESTROY;
                        assert(pre.queue[0].code != MSG_DESTROY);
                        assert(i >= 1);
                        assert(self@.queue[i - 1].code == MSG_DESTROY);
                    }
                }
                assert(run_queue(pre) == run_queue(dispatch_next(pre)));
            }
        }
        proof {
            assert(run_queue(self@) == self@);
        }
    }
}

/// The shell's state right after the start-up sequence: the fixed class
/// registered, the window of that class created with the fixed title,
/// overlapped style, host-default position and fixed size, shown, the
/// initial redraw request queued ahead of the given synthetic messages, and
/// nothing yet drawn.
pub open spec fn session_start_view(h: usize, messages: Seq<Message>) -> ShellView {
    ShellView {
        classes: seq!["win32-window"@],
        window: Some(
            WindowView {
                handle: h,
                title: "Win32Window"@,
                style: WINDOW_STYLE_OVERLAPPED,
                x: POSITION_DEFAULT,
                y: POSITION_DEFAULT,
                width: WINDOW_WIDTH,
                height: WINDOW_HEIGHT,
                visible: true,
            },
        ),
        queue: seq![initial_paint_message()] + messages,
        quit_posted: false,
        state: LoopState::Running,
        open_contexts: 0,
        painted: Seq::empty(),
    }
}

/// Drives one whole session, the shell's start-up sequence followed by the
/// loop: register the fixed class name, create the window with the fixed
/// title, post the given synthetic messages, and pump until the quit
/// condition. The messages must include a destroy request, since nothing
/// else terminates the loop. On return the loop has terminated, and the
/// resulting shell is exactly the run of the loop from the post-startup
/// state: the quit notification was posted and retrieved, the window handle
/// is gone, no paint context is left open, and the initial redraw drew the
/// fixed text.
pub fn run_shell(messages: &Vec<Message>) -> (r: Result<Shell, ShellError>)
    requires
        has_destroy(messages@),
    ensures
        r is Ok,
        r matches Ok(s) ==> exists|h: usize|
            h != 0 && s@ =~= run_queue(session_start_view(h, messages@)),
        r matches Ok(s) ==> {
            &&& s.wf()
            &&& s@.quit_posted
            &&& s@.state is Terminating
            &&& s@.window is None
            &&& s@.open_contexts == 0
            &&& s@.painted.len() >= 1
            &&& s@.painted[0] == hello_draw()
            &&& s@.classes =~= seq!["win32-window"@]
        },
{
    let mut shell = Shell::new();
    let reg = shell.register_window_class("win32-window");
    match reg {
        Err(e) => {
            proof {
                assert(false);
            }
            return Err(e);
        },
        Ok(_) => {},
    }
    proof {
        crate::shell::lemma_register_exactly_once(Seq::empty(), "win32-window"@);
    }
    let created = shell.create_window("win32-window", "Win32Window");
    let handle = match created {
        Err(e) => {
            proof {
                assert(false);
            }
            return Err(e);
        },
        Ok(h) => h,
    };
    let ghost base = shell@;
    let mut i: usize = 0;
    while i < messages.len()
        invariant
            i <= messages@.len(),
            shell.wf(),
            shell@ =~= (ShellView { queue: base.queue + messages@.take(i as int), ..base }),
        decreases messages@.len() - i,
    {
        proof {
            assert(base.queue + messages@.take(i as int + 1) =~= (base.queue + messages@.take(
                i as int,
            )).push(messages@[i as int]));
        }
        shell.post_message(messages[i]);
        i += 1;
    }
    proof {
        assert(messages@.take(messages@.len() as int) =~= messages@);
        let q = shell@.queue;
        let k = choose|k: int| 0 <= k < messages@.len() && messages@[k].code == MSG_DESTROY;
        assert(q[base.queue.len() + k].code == MSG_DESTROY);
        assert(has_destroy(q));
    }
    let ghost start = shell@;
    proof {
        assert(base.queue =~= seq![initial_paint_message()]);
        assert(start.queue =~= seq![initial_paint_message()] + messages@);
        assert(start =~= session_start_view(handle, messages@));
    }
    shell.run_loop();
    proof {
        assert(handle != 0 && shell@ =~= run_queue(session_start_view(handle, messages@)));
        assert(!start.quit_posted && start.queue.len() > 0);
        let after_first = dispatch_next(start);
        assert(start.queue[0] == crate::msg::initial_paint_message());
        assert(after_first.painted =~= seq![hello_draw()]);
        assert(run_queue(start) == run_queue(after_first));
        lemma_run_queue_preserves(after_first);
        assert(after_first.painted[0] == hello_draw());
        assert(run_queue(after_first).painted[0] == after_first.painted[0]);
        assert(shell@ == run_queue(after_first));
        assert(shell@.painted[0] == hello_draw());
        assert(after_first.classes =~= seq!["win32-window"@]);
        assert(shell@.classes == run_queue(after_first).classes);
        assert(shell@.classes =~= seq!["win32-window"@]);
    }
    Ok(shell)
}

} // verus!
