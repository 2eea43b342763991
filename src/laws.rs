//! Facts about the editor's transitions, stated over the model that the
//! contracts of `State`'s methods use.

use crate::model::{EditorModel, TabView};
use vstd::prelude::*;

verus! {

/// A step that opens or closes a buffer.
pub enum TabOp {
    Create(TabView),
    Close(int),
}

/// One step, as `State` takes it: closing a tab that does not exist is
/// refused and changes nothing.
pub open spec fn apply(m: EditorModel, op: TabOp) -> EditorModel {
    match op {
        TabOp::Create(t) => m.create(t),
        TabOp::Close(i) => if 0 <= i < m.tabs.len() {
            m.close(i)
        } else {
            m
        },
    }
}

/// The steps of `ops`, taken in order from `m`.
pub open spec fn run(m: EditorModel, ops: Seq<TabOp>) -> EditorModel
    decreases ops.len(),
{
    if ops.len() == 0 {
        m
    } else {
        run(apply(m, ops[0]), ops.subrange(1, ops.len() as int))
    }
}

/// Opening or closing a buffer keeps the active index absent exactly when
/// there is no buffer, and otherwise in range.
pub proof fn lemma_step_keeps_valid(m: EditorModel, op: TabOp)
    requires
        m.valid(),
    ensures
        apply(m, op).valid(),
{
}

/// After any sequence of buffer openings and closings, the active index is
/// either absent or names an existing buffer.
pub proof fn lemma_ops_keep_active_valid(m: EditorModel, ops: Seq<TabOp>)
    requires
        m.valid(),
    ensures
        run(m, ops).valid(),
        run(m, ops).active matches Some(i) ==> 0 <= i < run(m, ops).tabs.len(),
    decreases ops.len(),
{
    if ops.len() > 0 {
        lemma_step_keeps_valid(m, ops[0]);
        lemma_ops_keep_active_valid(apply(m, ops[0]), ops.subrange(1, ops.len() as int));
    }
}

/// Closing the only buffer leaves the editor empty, with no active index.
pub proof fn lemma_close_last_tab_empties(m: EditorModel)
    requires
        m.valid(),
        m.tabs.len() == 1,
    ensures
        m.close(0).tabs.len() == 0,
        m.close(0).active is None,
        m.close(0).valid(),
{
}

/// Closing a tab before the active one, when the active one is the last,
/// moves the active index down by one, onto the same buffer as before.
pub proof fn lemma_close_before_last_active(m: EditorModel, i: int)
    requires
        m.valid(),
        m.active == Some(m.tabs.len() - 1),
        0 <= i < m.tabs.len() - 1,
    ensures
        m.close(i).active == Some(m.tabs.len() - 2),
        m.close(i).tabs[m.tabs.len() - 2] == m.tabs[m.tabs.len() - 1],
{
}

/// Closing the active tab, when it is the last of two or more or the first,
/// makes the next lower tab active, or tab 0 when the first was active.
pub proof fn lemma_close_active_moves_down(m: EditorModel, a: int)
    requires
        m.valid(),
        m.active == Some(a),
        m.tabs.len() >= 2,
        a == m.tabs.len() - 1 || a == 0,
    ensures
        m.close(a).active == Some(if a > 0 { a - 1 } else { 0 }),
{
}

/// Typing with no buffer open opens exactly one, holding the text, and
/// shows it.
pub proof fn lemma_text_on_empty_opens_one(m: EditorModel, text: Seq<char>)
    requires
        m.valid(),
        m.active is None,
    ensures
        m.set_text(text).tabs == seq![TabView { text, path: None }],
        m.set_text(text).active == Some(0int),
        m.set_text(text).valid(),
{
    assert(m.tabs.len() == 0);
    assert(m.set_text(text).tabs =~= seq![TabView { text, path: None }]);
}

/// Selecting an existing tab makes it active and changes no buffer.
pub proof fn lemma_select_changes_only_active(m: EditorModel, i: int)
    requires
        m.valid(),
        0 <= i < m.tabs.len(),
    ensures
        m.select(i).active == Some(i),
        m.select(i).tabs == m.tabs,
        m.select(i).new_tab_label == m.new_tab_label,
        m.select(i).new_tab_content == m.new_tab_content,
        m.select(i).valid(),
{
}

} // verus!
