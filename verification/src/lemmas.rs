//! What holds of the row model for every input: facts about trimming, about
//! the cursor staying on the row, and about what a run of actions leaves
//! behind.

use vstd::prelude::*;
use crate::action::{Action, ControlCode, Cursor, EraseInDisplay, EraseInLine, Edit, CSI};
use crate::model::{blank, blanks, fresh, line_text, put, run, step, step_control, step_csi, trim_end, valid, Screen};
use crate::record::record_text;

verus! {

/// The action that prints `ch`.
pub open spec fn print_of(ch: char) -> Action {
    Action::Print(ch)
}

/// The actions that print the characters of `chars`, one after the other.
pub open spec fn prints(chars: Seq<char>) -> Seq<Action> {
    Seq::new(chars.len(), |i: int| print_of(chars[i]))
}

/// Trimming takes away a run of blanks at the end and nothing else: the row
/// is its trimmed text followed by blanks only, and the trimmed text is
/// empty or ends in a cell that is not blank.
pub proof fn lemma_trim_end_shape(cells: Seq<char>)
    ensures
        trim_end(cells).len() <= cells.len(),
        cells == trim_end(cells) + blanks((cells.len() - trim_end(cells).len()) as nat),
        trim_end(cells).len() == 0 || trim_end(cells).last() != blank(),
    decreases cells.len(),
{
    if cells.len() > 0 && cells.last() == blank() {
        let shorter = cells.drop_last();
        lemma_trim_end_shape(shorter);
        let kept = trim_end(shorter);
        let gap = (shorter.len() - kept.len()) as nat;
        assert(trim_end(cells) == kept);
        assert(cells =~= shorter.push(blank()));
        assert(shorter.push(blank()) =~= kept + blanks(gap + 1)) by {
            assert(shorter == kept + blanks(gap));
        }
    } else {
        assert(cells =~= cells + blanks(0));
    }
}

/// Blanks appended to a row do not change its trimmed text.
pub proof fn lemma_trim_end_absorbs_blanks(cells: Seq<char>, n: nat)
    ensures
        trim_end(cells + blanks(n)) == trim_end(cells),
    decreases n,
{
    if n == 0 {
        assert(cells + blanks(0) =~= cells);
    } else {
        let padded = cells + blanks(n);
        assert(padded.last() == blank());
        assert(padded.drop_last() =~= cells + blanks((n - 1) as nat));
        lemma_trim_end_absorbs_blanks(cells, (n - 1) as nat);
    }
}

/// Trimming a trimmed row changes nothing, so the text of a row does not
/// depend on how often it is taken.
pub proof fn lemma_trim_end_idempotent(cells: Seq<char>)
    ensures
        trim_end(trim_end(cells)) == trim_end(cells),
{
    lemma_trim_end_shape(cells);
}

/// Every action keeps a valid screen valid: the row never shrinks below its
/// nominal width, and the cursor never leaves the row by more than the one
/// position behind its last cell.
pub proof fn lemma_step_keeps_valid(s: Screen, width: nat, action: Action)
    requires
        valid(s, width),
    ensures
        valid(step(s, width, action), width),
{
}

/// A run of actions keeps a valid screen valid.
pub proof fn lemma_run_keeps_valid(s: Screen, width: nat, actions: Seq<Action>)
    requires
        valid(s, width),
    ensures
        valid(run(s, width, actions), width),
    decreases actions.len(),
{
    if actions.len() > 0 {
        lemma_run_keeps_valid(s, width, actions.drop_last());
        lemma_step_keeps_valid(run(s, width, actions.drop_last()), width, actions.last());
    }
}

/// Running two sequences of actions one after the other is running their
/// concatenation.
pub proof fn lemma_run_concat(s: Screen, width: nat, first: Seq<Action>, second: Seq<Action>)
    ensures
        run(s, width, first + second) == run(run(s, width, first), width, second),
    decreases second.len(),
{
    if second.len() == 0 {
        assert(first + second =~= first);
    } else {
        assert((first + second).drop_last() =~= first + second.drop_last());
        assert((first + second).last() == second.last());
        lemma_run_concat(s, width, first, second.drop_last());
    }
}

/// A move to the right stops behind the last cell of the row: whatever the
/// count, the cursor does not exceed the number of cells that the row holds,
/// and the row stays as it is.
pub proof fn lemma_cursor_right_is_clamped(s: Screen, width: nat, n: u32)
    requires
        valid(s, width),
    ensures
        step_csi(s, width, CSI::Cursor(Cursor::Right(n))).cursor <= s.cells.len(),
        step_csi(s, width, CSI::Cursor(Cursor::Right(n))).cursor >= s.cursor,
        step_csi(s, width, CSI::Cursor(Cursor::Right(n))).cells == s.cells,
{
}

/// A backspace at the left edge leaves the cursor at the left edge.
pub proof fn lemma_backspace_stays_at_left_edge(s: Screen)
    requires
        s.cursor == 0,
    ensures
        step_control(s, ControlCode::Backspace).cursor == 0,
{
}

/// A backspace at the left edge of a row whose first cell is blank leaves
/// the row as it is.
pub proof fn lemma_backspace_at_left_edge_of_blank(s: Screen)
    requires
        s.cursor == 0,
        s.cells.len() > 0,
        s.cells[0] == blank(),
    ensures
        step_control(s, ControlCode::Backspace) == s,
{
    assert(put(s.cells, 0, blank()) =~= s.cells);
}

/// The number of cells of a row of `width` cells that `used` characters,
/// written from the left edge on, leave untouched.
pub open spec fn room_left(width: nat, used: nat) -> nat {
    if used <= width {
        (width - used) as nat
    } else {
        0
    }
}

/// After a run of prints on a fresh row the row holds the printed
/// characters from its left edge on, followed by what is left of the blanks
/// it started with, and the cursor stands behind the last printed character.
pub proof fn lemma_prints_fill_from_left(chars: Seq<char>, width: nat)
    ensures
        run(fresh(width), width, prints(chars)) == (Screen {
            cells: chars + blanks(room_left(width, chars.len())),
            cursor: chars.len(),
        }),
    decreases chars.len(),
{
    if chars.len() == 0 {
        assert(chars + blanks(width) =~= blanks(width));
    } else {
        let shorter = chars.drop_last();
        lemma_prints_fill_from_left(shorter, width);
        assert(prints(chars).drop_last() =~= prints(shorter));
        assert(prints(chars).last() == Action::Print(chars.last()));
        let before = shorter + blanks(room_left(width, shorter.len()));
        assert(put(before, shorter.len(), chars.last()) =~= chars + blanks(room_left(width, chars.len())));
    }
}

/// A run of prints no longer than the row is wide reconstructs to the
/// printed characters themselves, in order and from the left edge on,
/// without their trailing blanks. (The same holds of a longer run, which
/// makes the row grow.)
pub proof fn lemma_prints_reconstruct(chars: Seq<char>, width: nat)
    ensures
        line_text(prints(chars), width) == trim_end(chars),
{
    lemma_prints_fill_from_left(chars, width);
    lemma_trim_end_absorbs_blanks(chars, room_left(width, chars.len()));
}

/// Erasing the whole line makes the screen what it was at the start, so what
/// came before it has no effect on what follows: any actions after it, a run
/// of prints among them, leave the screen that they leave on a fresh row.
pub proof fn lemma_erase_line_forgets(s: Screen, width: nat, before: Seq<Action>, after: Seq<Action>)
    ensures
        run(s, width, before.push(Action::CSI(CSI::Edit(Edit::EraseInLine(EraseInLine::EraseLine)))) + after)
            == run(fresh(width), width, after),
        run(s, width, before.push(Action::CSI(CSI::Edit(Edit::EraseInDisplay(EraseInDisplay::EraseDisplay)))) + after)
            == run(fresh(width), width, after),
{
    let in_line = Action::CSI(CSI::Edit(Edit::EraseInLine(EraseInLine::EraseLine)));
    let in_display = Action::CSI(CSI::Edit(Edit::EraseInDisplay(EraseInDisplay::EraseDisplay)));
    lemma_run_concat(s, width, before.push(in_line), after);
    lemma_run_concat(s, width, before.push(in_display), after);
    assert(before.push(in_line).drop_last() =~= before);
    assert(before.push(in_display).drop_last() =~= before);
}

/// The text of a line that erases the whole line at some point is the text
/// of what follows the erasure alone.
pub proof fn lemma_erase_line_then_text(width: nat, before: Seq<Action>, after: Seq<Action>)
    ensures
        line_text(before.push(Action::CSI(CSI::Edit(Edit::EraseInLine(EraseInLine::EraseLine)))) + after, width)
            == line_text(after, width),
{
    lemma_erase_line_forgets(fresh(width), width, before, after);
}

/// With no actions at all the text of the line is empty, whatever the width.
pub proof fn lemma_no_actions_empty_text(width: nat)
    ensures
        line_text(Seq::<Action>::empty(), width) == Seq::<char>::empty(),
{
    lemma_trim_end_absorbs_blanks(Seq::<char>::empty(), width);
    assert(Seq::<char>::empty() + blanks(width) =~= blanks(width));
}

/// The record of a line without actions holds the time stamp and the
/// newline, and nothing between them.
pub proof fn lemma_no_actions_record(stamp: Seq<char>, width: nat)
    ensures
        record_text(stamp, line_text(Seq::<Action>::empty(), width)) == stamp.push('\n'),
{
    lemma_no_actions_empty_text(width);
    assert(stamp + Seq::<char>::empty() =~= stamp);
}

} // verus!
