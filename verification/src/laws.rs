//! Laws of the session state machine, stated over the mathematical model
//! and proved from the transition functions that the executable methods are
//! verified against.

use vstd::prelude::*;

use crate::search::search_spec;
use crate::session::edit_applied;
use crate::session::mode_switched;
use crate::session::redo_applied;
use crate::session::replacement_applied;
use crate::session::saved;
use crate::session::undo_applied;
use crate::session::undo_returned;
use crate::session::Mode;
use crate::session::SessionModel;

verus! {

/// Whether each edit in `edits`, delivered in order, is a real user edit:
/// its text differs from the text it replaces.
pub open spec fn edits_all_effective(m: SessionModel, edits: Seq<Seq<char>>) -> bool
    decreases edits.len(),
{
    edits.len() == 0 || (edits[0] != m.text && edits_all_effective(
        edit_applied(m, edits[0]),
        edits.skip(1),
    ))
}

/// The state after delivering each edit in `edits`, in order.
pub open spec fn after_edits(m: SessionModel, edits: Seq<Seq<char>>) -> SessionModel
    decreases edits.len(),
{
    if edits.len() == 0 {
        m
    } else {
        after_edits(edit_applied(m, edits[0]), edits.skip(1))
    }
}

/// The state after `n` undo steps.
pub open spec fn after_undos(m: SessionModel, n: nat) -> SessionModel
    decreases n,
{
    if n == 0 {
        m
    } else {
        after_undos(undo_applied(m), (n - 1) as nat)
    }
}

/// The state after `n` redo steps.
pub open spec fn after_redos(m: SessionModel, n: nat) -> SessionModel
    decreases n,
{
    if n == 0 {
        m
    } else {
        after_redos(redo_applied(m), (n - 1) as nat)
    }
}

proof fn lemma_after_edits_shape(m: SessionModel, edits: Seq<Seq<char>>)
    requires
        !m.suppress_history,
        edits_all_effective(m, edits),
        edits.len() > 0,
    ensures
        after_edits(m, edits) == (SessionModel {
            text: edits.last(),
            dirty: true,
            undo: m.undo.push(m.text) + edits.drop_last(),
            redo: Seq::<Seq<char>>::empty(),
            ..m
        }),
    decreases edits.len(),
{
    let m1 = edit_applied(m, edits[0]);
    if edits.len() == 1 {
        assert(after_edits(m1, edits.skip(1)) == m1);
        assert(m.undo.push(m.text) + edits.drop_last() =~= m.undo.push(m.text));
        assert(after_edits(m, edits) =~= (SessionModel {
            text: edits.last(),
            dirty: true,
            undo: m.undo.push(m.text) + edits.drop_last(),
            redo: Seq::<Seq<char>>::empty(),
            ..m
        }));
    } else {
        lemma_after_edits_shape(m1, edits.skip(1));
        assert(edits.skip(1).last() == edits.last());
        assert(m1.undo.push(m1.text) + edits.skip(1).drop_last() =~= m.undo.push(m.text)
            + edits.drop_last());
        assert(after_edits(m, edits) =~= (SessionModel {
            text: edits.last(),
            dirty: true,
            undo: m.undo.push(m.text) + edits.drop_last(),
            redo: Seq::<Seq<char>>::empty(),
            ..m
        }));
    }
}

proof fn lemma_after_undos_props(m: SessionModel, n: nat)
    requires
        n <= m.undo.len(),
    ensures
        after_undos(m, n).undo == m.undo.take(m.undo.len() - n),
        n >= 1 ==> after_undos(m, n).text == m.undo[m.undo.len() - n]
            && !after_undos(m, n).suppress_history,
        n == 0 ==> after_undos(m, n) == m,
    decreases n,
{
    if n == 0 {
        assert(m.undo.take(m.undo.len() - 0) =~= m.undo);
    } else {
        let m1 = undo_applied(m);
        assert(m1.undo =~= m.undo.take(m.undo.len() - 1));
        lemma_after_undos_props(m1, (n - 1) as nat);
        assert(m.undo.take(m.undo.len() - 1).take(m.undo.len() - n) =~= m.undo.take(
            m.undo.len() - n,
        ));
        if n >= 2 {
            assert(m1.undo[m1.undo.len() - (n - 1)] == m.undo[m.undo.len() - n]);
        }
    }
}

proof fn lemma_redo_inverts_undo(m: SessionModel)
    requires
        m.undo.len() > 0,
        !m.suppress_history,
    ensures
        redo_applied(undo_applied(m)) == m,
{
    let u = undo_applied(m);
    assert(u.redo.last() == m.text);
    assert(u.redo.drop_last() =~= m.redo);
    assert(u.undo.push(u.text) =~= m.undo);
    assert(redo_applied(u) =~= m);
}

proof fn lemma_after_redos_snoc(m: SessionModel, n: nat)
    requires
        n >= 1,
    ensures
        after_redos(m, n) == redo_applied(after_redos(m, (n - 1) as nat)),
    decreases n,
{
    if n == 1 {
        assert(after_redos(m, 1) == after_redos(redo_applied(m), 0));
        assert(after_redos(m, 0) == m);
    } else {
        lemma_after_redos_snoc(redo_applied(m), (n - 1) as nat);
        assert(after_redos(m, n) == after_redos(redo_applied(m), (n - 1) as nat));
        assert(after_redos(m, (n - 1) as nat) == after_redos(redo_applied(m), (n - 2) as nat));
    }
}

proof fn lemma_redos_invert_undos(m: SessionModel, n: nat)
    requires
        n <= m.undo.len(),
        !m.suppress_history,
    ensures
        after_redos(after_undos(m, n), n) == m,
    decreases n,
{
    if n >= 1 {
        let m1 = undo_applied(m);
        let x = after_undos(m1, (n - 1) as nat);
        lemma_redos_invert_undos(m1, (n - 1) as nat);
        lemma_after_redos_snoc(x, n);
        lemma_redo_inverts_undo(m);
    }
}

/// Snapshot stack symmetry: for any sequence of edits each of which changes
/// the text, undoing once per edit returns the committed text to its
/// original value, and redoing once per edit replays forward to the final
/// text — indeed to the exact post-edit state.
pub proof fn lemma_snapshot_stack_symmetry(m: SessionModel, edits: Seq<Seq<char>>)
    requires
        !m.suppress_history,
        edits_all_effective(m, edits),
    ensures
        after_undos(after_edits(m, edits), edits.len()).text == m.text,
        after_redos(after_undos(after_edits(m, edits), edits.len()), edits.len()) == after_edits(
            m,
            edits,
        ),
        edits.len() > 0 ==> after_edits(m, edits).text == edits.last(),
{
    let n = edits.len();
    if n > 0 {
        lemma_after_edits_shape(m, edits);
        let f = after_edits(m, edits);
        assert(f.undo.len() == m.undo.len() + n);
        lemma_after_undos_props(f, n);
        assert(f.undo[f.undo.len() - n] == m.text);
        lemma_redos_invert_undos(f, n);
    }
}

/// A search with an empty pattern always returns no match, in either
/// direction and from any start position.
pub proof fn lemma_empty_pattern_never_matches(
    text: Seq<char>,
    from: int,
    forward: bool,
    match_case: bool,
)
    ensures
        search_spec(text, Seq::<char>::empty(), from, forward, match_case) is None,
{
}

/// While history recording is suppressed, a text-changed event moves
/// nothing at all: the programmatic buffer mutations made by undo, redo,
/// load and new can never push an entry onto either stack through the edit
/// path.
pub proof fn lemma_suppressed_edit_is_inert(m: SessionModel, t: Seq<char>)
    requires
        m.suppress_history,
    ensures
        edit_applied(m, t) == m,
{
}

/// The buffer update echoed back after an undo or redo step is a no-op
/// edit: the committed text already equals the restored text, so no entry
/// is pushed onto the opposite stack and no feedback loop can arise.
pub proof fn lemma_history_echo_is_inert(m: SessionModel)
    ensures
        edit_applied(undo_applied(m), undo_applied(m).text) == undo_applied(m),
        edit_applied(redo_applied(m), redo_applied(m).text) == redo_applied(m),
{
}

/// After a successful save the document is clean, and a subsequent
/// text-changed event carrying the same text is a no-op.
pub proof fn lemma_save_then_same_text_noop(m: SessionModel, path: Seq<char>)
    ensures
        !saved(m, path).dirty,
        edit_applied(saved(m, path), saved(m, path).text) == saved(m, path),
{
}

/// Replace is one atomic compound edit: when the pattern was found, a
/// single undo after the replace hands back exactly the pre-replace text —
/// not any post-delete intermediate state — and restores it as the
/// committed text.
pub proof fn lemma_undo_reverts_whole_replace(
    m: SessionModel,
    cursor: int,
    replacement: Seq<char>,
)
    requires
        search_spec(m.text, m.pattern, cursor, true, m.match_case) is Some,
    ensures
        undo_returned(replacement_applied(m, cursor, replacement)) == Some(m.text),
        undo_applied(replacement_applied(m, cursor, replacement)).text == m.text,
{
    let r = replacement_applied(m, cursor, replacement);
    assert(r.undo == m.undo.push(m.text));
}

/// A mode switch is rejected with no state change whenever the document has
/// content, regardless of which mode is requested.
pub proof fn lemma_mode_locked_while_nonempty(m: SessionModel, requested: Mode)
    requires
        m.text.len() > 0,
    ensures
        mode_switched(m, requested) == m,
{
}

} // verus!
