use vstd::prelude::*;
use vstd::string::StringExecFns;

verus! {

/// Horizontal offset at which the fixed text is drawn.
pub const TEXT_X: i32 = 50;

/// Vertical offset at which the fixed text is drawn.
pub const TEXT_Y: i32 = 50;

/// One step of a paint response: the drawing context is acquired, drawing
/// runs against it, and the context is released before the response returns.
#[derive(Clone, Debug)]
pub enum PaintOp {
    AcquireContext,
    DrawText { x: i32, y: i32, text: String },
    ReleaseContext,
}

/// A completed drawing operation: where and what was drawn.
#[derive(Clone, Debug)]
pub struct DrawRec {
    pub x: i32,
    pub y: i32,
    pub text: String,
}

/// Ghost image of a drawing record.
#[verifier::ext_equal]
pub ghost struct DrawView {
    pub x: i32,
    pub y: i32,
    pub text: Seq<char>,
}

impl View for DrawRec {
    type V = DrawView;

    open spec fn view(&self) -> DrawView {
        DrawView { x: self.x, y: self.y, text: self.text@ }
    }
}

/// The text the shell draws on every paint response.
pub open spec fn hello_text() -> Seq<char> {
    "Hello, World in Rust"@
}

/// The one drawing operation a paint response performs.
pub open spec fn hello_draw() -> DrawView {
    DrawView { x: TEXT_X, y: TEXT_Y, text: hello_text() }
}

/// The shape of the shell's fixed paint response: acquire a context, draw
/// the fixed text at the fixed position, release the context.
pub open spec fn is_hello_paint_script(ops: Seq<PaintOp>) -> bool {
    &&& ops.len() == 3
    &&& ops[0] is AcquireContext
    &&& (ops[1] matches PaintOp::DrawText { x, y, text } && x == TEXT_X && y == TEXT_Y
        && text@ == hello_text())
    &&& ops[2] is ReleaseContext
}

/// How many times a script acquires a paint context.
pub open spec fn acquire_count(ops: Seq<PaintOp>) -> nat
    decreases ops.len(),
{
    if ops.len() == 0 {
        0
    } else {
        (if ops[0] is AcquireContext {
            1nat
        } else {
            0nat
        }) + acquire_count(ops.drop_first())
    }
}

/// How many times a script releases a paint context.
pub open spec fn release_count(ops: Seq<PaintOp>) -> nat
    decreases ops.len(),
{
    if ops.len() == 0 {
        0
    } else {
        (if ops[0] is ReleaseContext {
            1nat
        } else {
            0nat
        }) + release_count(ops.drop_first())
    }
}

/// Runs a paint script against the context-accounting model. An acquire
/// opens a context and a release closes one; a draw is recorded only while a
/// context is open, and its outcome never changes the accounting, so whether
/// or not the draw succeeds, the contexts left open are exactly what the
/// acquires and releases dictate.
pub open spec fn run_script(open: nat, painted: Seq<DrawView>, ops: Seq<PaintOp>) -> (nat, Seq<
    DrawView,
>)
    decreases ops.len(),
{
    if ops.len() == 0 {
        (open, painted)
    } else {
        let rest = ops.drop_first();
        match ops[0] {
            PaintOp::AcquireContext => run_script(open + 1, painted, rest),
            PaintOp::DrawText { x, y, text } => if open > 0 {
                run_script(open, painted.push(DrawView { x, y, text: text@ }), rest)
            } else {
                run_script(open, painted, rest)
            },
            PaintOp::ReleaseContext => if open > 0 {
                run_script((open - 1) as nat, painted, rest)
            } else {
                run_script(open, painted, rest)
            },
        }
    }
}

/// Builds the shell's fixed paint response.
pub fn hello_paint_script() -> (s: Vec<PaintOp>)
    ensures
        is_hello_paint_script(s@),
{
    let mut s: Vec<PaintOp> = Vec::new();
    s.push(PaintOp::AcquireContext);
    s.push(
        PaintOp::DrawText { x: TEXT_X, y: TEXT_Y, text: String::from_str("Hello, World in Rust") },
    );
    s.push(PaintOp::ReleaseContext);
    s
}

/// A paint response acquires exactly one paint context and releases exactly
/// one, and run from a state with no open context it ends with no open
/// context and exactly one new drawing on record. The release is a step of
/// the script in its own right, not a consequence of the draw, so the
/// balance holds whatever the draw itself does.
pub proof fn lemma_paint_script_balanced(ops: Seq<PaintOp>, painted: Seq<DrawView>)
    requires
        is_hello_paint_script(ops),
    ensures
        acquire_count(ops) == 1,
        release_count(ops) == 1,
        run_script(0, painted, ops).0 == 0,
        run_script(0, painted, ops).1 =~= painted.push(hello_draw()),
{
    let s1 = ops.drop_first();
    let s2 = s1.drop_first();
    let s3 = s2.drop_first();
    assert(s1[0] == ops[1]);
    assert(s2[0] == ops[2]);
    assert(s3.len() == 0);
    assert(acquire_count(s3) == 0);
    assert(release_count(s3) == 0);
    assert(acquire_count(s2) == 0);
    assert(release_count(s2) == 1);
    assert(acquire_count(s1) == 0);
    assert(release_count(s1) == 1);
    let drawn = painted.push(hello_draw());
    assert(run_script(0, drawn, s3) == (0nat, drawn));
    assert(run_script(1, drawn, s2) == run_script(0, drawn, s3));
    assert(run_script(1, painted, s1) == run_script(1, drawn, s2));
    assert(run_script(0, painted, ops) == run_script(1, painted, s1));
}

} // verus!
