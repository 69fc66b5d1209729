use vstd::prelude::*;

use crate::dispatch::{spec_drawing, spec_plan, Command, DrawingView, DriverOpView};
use crate::font::font_named;
use crate::validate::{spec_is_valid, spec_violations, Msg, Violation, MAX_TEXT_LEN, MAX_X, MAX_Y};

verus! {

/// The panel as the driver keeps it: the drawings put into the in-memory
/// buffer since it was last blanked, and the buffer's contents at the last
/// flush, which is what the panel shows.
pub struct PanelView {
    pub buffer: Seq<DrawingView>,
    pub shown: Seq<DrawingView>,
}

/// The panel after one driver call.
pub open spec fn apply_op(p: PanelView, op: DriverOpView) -> PanelView {
    match op {
        DriverOpView::Draw(d) => PanelView { buffer: p.buffer.push(d), shown: p.shown },
        DriverOpView::Clear => PanelView { buffer: Seq::empty(), shown: p.shown },
        DriverOpView::Flush => PanelView { buffer: p.buffer, shown: p.buffer },
    }
}

/// The panel after a run of driver calls, in order.
pub open spec fn apply_ops(p: PanelView, ops: Seq<DriverOpView>) -> PanelView
    decreases ops.len(),
{
    if ops.len() == 0 {
        p
    } else {
        apply_ops(apply_op(p, ops[0]), ops.drop_first())
    }
}

/// The panel after one command has held it: its driver calls applied, or no
/// change where the command was rejected.
pub open spec fn execute(p: PanelView, cmd: Command) -> PanelView {
    match spec_plan(cmd) {
        Some(ops) => apply_ops(p, ops),
        None => p,
    }
}

/// The panel after commands that held it one after another, in that order.
pub open spec fn execute_all(p: PanelView, cmds: Seq<Command>) -> PanelView
    decreases cmds.len(),
{
    if cmds.len() == 0 {
        p
    } else {
        execute_all(execute(p, cmds[0]), cmds.drop_first())
    }
}

proof fn lemma_apply_one(p: PanelView, a: DriverOpView)
    ensures
        apply_ops(p, seq![a]) == apply_op(p, a),
{
    assert(seq![a].drop_first() =~= Seq::<DriverOpView>::empty());
    assert(apply_ops(apply_op(p, a), Seq::<DriverOpView>::empty()) == apply_op(p, a));
}

proof fn lemma_apply_two(p: PanelView, a: DriverOpView, b: DriverOpView)
    ensures
        apply_ops(p, seq![a, b]) == apply_op(apply_op(p, a), b),
{
    assert(seq![a, b].drop_first() =~= seq![b]);
    lemma_apply_one(apply_op(p, a), b);
}

/// A `write` whose origin lies off the panel is rejected with a coordinate
/// violation and leaves the panel as it was.
pub proof fn lemma_write_off_panel_rejected(p: PanelView, m: Msg)
    requires
        !(0 <= m.x_coord <= MAX_X) || !(0 <= m.y_coord <= MAX_Y),
    ensures
        spec_plan(Command::Write(m)) is None,
        execute(p, Command::Write(m)) == p,
        exists|i: int|
            0 <= i < spec_violations(m).len() && #[trigger] spec_violations(m)[i] is InvalidCoordinate,
{
    // The coordinate violations follow the text length one, if there is one.
    let first = if m.string@.len() > MAX_TEXT_LEN { 1int } else { 0int };
    assert(spec_violations(m)[first] is InvalidCoordinate);
}

/// A `write` whose text is longer than one line is rejected, the text length
/// being the first violation reported, and leaves the panel as it was.
pub proof fn lemma_write_long_text_rejected(p: PanelView, m: Msg)
    requires
        m.string@.len() > MAX_TEXT_LEN,
    ensures
        spec_plan(Command::Write(m)) is None,
        execute(p, Command::Write(m)) == p,
        spec_violations(m)[0] == (Violation::InvalidString { len: m.string@.len() as usize }),
{
}

/// A `write` that names a font outside the four sizes is rejected, the font
/// being the last violation reported, and leaves the panel as it was.
pub proof fn lemma_write_unknown_font_rejected(p: PanelView, m: Msg)
    requires
        font_named(m.font_size@) is None,
    ensures
        spec_plan(Command::Write(m)) is None,
        execute(p, Command::Write(m)) == p,
        spec_violations(m).len() > 0,
        spec_violations(m).last() == (Violation::InvalidFontSize { font: m.font_size }),
{
}

/// Clearing twice in a row leaves the panel as clearing once does.
pub proof fn lemma_clear_idempotent(p: PanelView)
    ensures
        execute(execute(p, Command::Clear), Command::Clear) == execute(p, Command::Clear),
{
    let once = execute(p, Command::Clear);
    lemma_apply_two(p, DriverOpView::Clear, DriverOpView::Flush);
    lemma_apply_two(once, DriverOpView::Clear, DriverOpView::Flush);
    assert(execute(once, Command::Clear) =~= once);
}

/// Valid `write` commands that take the panel one after another add exactly
/// one whole drawing each to the buffer, in the order they took it, and
/// leave what the panel shows unchanged.
pub proof fn lemma_serialized_writes(p: PanelView, msgs: Seq<Msg>)
    requires
        forall|i: int| 0 <= i < msgs.len() ==> spec_is_valid(#[trigger] msgs[i]),
    ensures
        execute_all(p, msgs.map_values(|m: Msg| Command::Write(m))) == (PanelView {
            buffer: p.buffer + msgs.map_values(|m: Msg| spec_drawing(m)),
            shown: p.shown,
        }),
    decreases msgs.len(),
{
    let cmds = msgs.map_values(|m: Msg| Command::Write(m));
    let draws = msgs.map_values(|m: Msg| spec_drawing(m));
    if msgs.len() == 0 {
        assert(p.buffer + draws =~= p.buffer);
    } else {
        let first = execute(p, cmds[0]);
        lemma_apply_one(p, DriverOpView::Draw(spec_drawing(msgs[0])));
        assert(first == PanelView { buffer: p.buffer.push(spec_drawing(msgs[0])), shown: p.shown });
        let rest = msgs.drop_first();
        assert(cmds.drop_first() =~= rest.map_values(|m: Msg| Command::Write(m)));
        lemma_serialized_writes(first, rest);
        assert(first.buffer + rest.map_values(|m: Msg| spec_drawing(m)) =~= p.buffer + draws);
    }
}

} // verus!
