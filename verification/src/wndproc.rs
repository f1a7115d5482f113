use vstd::prelude::*;
use crate::msg::{LoopState, Message, MSG_DESTROY, MSG_PAINT};
use crate::paint::{acquire_count, hello_draw, hello_paint_script, is_hello_paint_script,
    lemma_paint_script_balanced, run_script, DrawRec, PaintOp};
use crate::shell::{Shell, ShellView};

verus! {

/// What the window procedure asks of its caller, with every side effect
/// explicit: post the quit notification, perform a paint script, or forward
/// the message to the host's default handler, whose own return value is
/// then passed through.
#[derive(Debug)]
pub enum ProcReply {
    Quit { result: isize },
    Paint { result: isize, script: Vec<PaintOp> },
    Forward,
}

/// The window procedure as a transition on the shell's state: a
/// destroy-requested message posts the quit notification and drops the
/// window, a paint-needed message records the fixed drawing, and every other
/// message leaves the state exactly as it was.
pub open spec fn wndproc_next(v: ShellView, m: Message) -> ShellView {
    if m.code == MSG_DESTROY {
        ShellView { quit_posted: true, state: LoopState::Terminating, window: None, ..v }
    } else if m.code == MSG_PAINT {
        ShellView { painted: v.painted.push(hello_draw()), ..v }
    } else {
        v
    }
}

impl Shell {
    /// Runs a paint script against the shell's context accounting: the
    /// explicit acquire/draw/release steps of a paint response.
    fn apply_paint_script(&mut self, ops: &Vec<PaintOp>)
        requires
            old(self)@.open_contexts + acquire_count(ops@) <= usize::MAX,
        ensures
            final(self)@ =~= (ShellView {
                open_contexts: run_script(old(self)@.open_contexts, old(self)@.painted, ops@).0,
                painted: run_script(old(self)@.open_contexts, old(self)@.painted, ops@).1,
                ..old(self)@
            }),
    {
        let ghost goal = run_script(old(self)@.open_contexts, old(self)@.painted, ops@);
        let mut i: usize = 0;
        proof {
            assert(ops@.skip(0) =~= ops@);
        }
        while i < ops.len()
            invariant
                i <= ops@.len(),
                self@.classes =~= old(self)@.classes,
                self@.window == old(self)@.window,
                self@.queue =~= old(self)@.queue,
                self@.quit_posted == old(self)@.quit_posted,
                self@.state == old(self)@.state,
                self@.open_contexts + acquire_count(ops@.skip(i as int)) <= usize::MAX,
                run_script(self@.open_contexts, self@.painted, ops@.skip(i as int)) == goal,
            decreases ops@.len() - i,
        {
            let ghost pre_open = self@.open_contexts;
            let ghost pre_painted = self@.painted;
            let ghost rest = ops@.skip(i as int);
            proof {
                assert(rest[0] == ops@[i as int]);
                assert(rest.drop_first() =~= ops@.skip(i as int + 1));
            }
            match &ops[i] {
                PaintOp::AcquireContext => {
                    self.open_contexts = self.open_contexts + 1;
                },
                PaintOp::DrawText { x, y, text } => {
                    if self.open_contexts > 0 {
                        self.painted.push(DrawRec { x: *x, y: *y, text: text.clone() });
                        proof {
                            assert(self@.painted =~= pre_painted.push(
                                crate::paint::DrawView { x: *x, y: *y, text: text@ },
                            ));
                        }
                    }
                },
                PaintOp::ReleaseContext => {
                    if self.open_contexts > 0 {
                        self.open_contexts = self.open_contexts - 1;
                    }
                },
            }
            proof {
                assert(run_script(pre_open, pre_painted, rest) == run_script(
                    self@.open_contexts,
                    self@.painted,
                    rest.drop_first(),
                ));
            }
            i += 1;
        }
        proof {
            assert(ops@.skip(i as int) =~= Seq::<PaintOp>::empty());
            assert(run_script(self@.open_contexts, self@.painted, ops@.skip(i as int)) == (
                self@.open_contexts,
                self@.painted,
            ));
        }
    }

    /// The window procedure, invoked synchronously for each dispatched
    /// message. A destroy request posts the quit notification, drops the
    /// window, and reports result 0; a paint request runs the fixed paint
    /// script — one context acquire, the fixed drawing, one release — and
    /// reports result 0; every other message is forwarded to the default
    /// handler with the shell untouched.
    pub fn window_proc(&mut self, msg: &Message) -> (r: ProcReply)
        requires
            old(self).wf(),
        ensures
            final(self).wf(),
            final(self)@ =~= wndproc_next(old(self)@, *msg),
            msg.code == MSG_DESTROY ==> (r matches ProcReply::Quit { result } && result == 0),
            msg.code == MSG_PAINT ==> (r matches ProcReply::Paint { result, script } && result
                == 0 && is_hello_paint_script(script@)),
            msg.code != MSG_DESTROY && msg.code != MSG_PAINT ==> r is Forward,
    {
        if msg.code == MSG_DESTROY {
            self.quit_posted = true;
            self.state = LoopState::Terminating;
            self.window = None;
            ProcReply::Quit { result: 0 }
        } else if msg.code == MSG_PAINT {
            let script = hello_paint_script();
            proof {
                lemma_paint_script_balanced(script@, old(self)@.painted);
            }
            self.apply_paint_script(&script);
            ProcReply::Paint { result: 0, script }
        } else {
            ProcReply::Forward
        }
    }
}

} // verus!
