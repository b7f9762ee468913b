//! The interpreter: it applies decoded actions, one by one and in order, to
//! a row and its cursor.

use vstd::prelude::*;
use crate::action::{Action, ControlCode, Cursor, EraseInDisplay, EraseInLine, Edit, CSI};
use crate::buffer::LineBuffer;
use crate::model::{fresh, line_text, run, step, step_control, step_csi, step_erase};

verus! {

/// Applies a control code to the row and returns the new cursor.
///
/// Backspace steps one column left, stopping at the left edge, and blanks
/// the cell it lands on; a horizontal tab is stored as a tab character in
/// the cell under the cursor; a carriage return goes back to the left edge.
/// Every other code leaves row and cursor as they are.
pub fn reflect_control_codes(ctrl_code: &ControlCode, buffer: &mut LineBuffer, cursor: usize) -> (new_cursor: usize)
    requires
        old(buffer).wf(),
        cursor <= old(buffer)@.len(),
    ensures
        final(buffer).wf(),
        final(buffer).nominal_width() == old(buffer).nominal_width(),
        new_cursor <= final(buffer)@.len(),
        final(buffer).screen(new_cursor) == step_control(old(buffer).screen(cursor), *ctrl_code),
{
    match ctrl_code {
        ControlCode::Backspace => {
            let at: usize = if cursor > 0 { cursor - 1 } else { 0 };
            buffer.write_at(at, ' ');
            at
        },
        ControlCode::HorizontalTab => {
            buffer.write_at(cursor, '\t');
            cursor + 1
        },
        ControlCode::CarriageReturn => 0,
        ControlCode::LineFeed => cursor,
        ControlCode::Other => cursor,
    }
}

/// Blanks the part of the row that `scope` names and returns the new cursor.
fn erase(scope: &EraseInLine, buffer: &mut LineBuffer, cursor: usize) -> (new_cursor: usize)
    requires
        old(buffer).wf(),
        cursor <= old(buffer)@.len(),
    ensures
        final(buffer).wf(),
        final(buffer).nominal_width() == old(buffer).nominal_width(),
        new_cursor <= final(buffer)@.len(),
        final(buffer).screen(new_cursor) == step_erase(
            old(buffer).screen(cursor),
            old(buffer).nominal_width(),
            *scope,
        ),
{
    match scope {
        EraseInLine::EraseToEndOfLine => {
            let end: usize = buffer.len();
            buffer.blank_range(cursor, end);
            cursor
        },
        EraseInLine::EraseToStartOfLine => {
            let len: usize = buffer.len();
            let end: usize = if cursor < len { cursor + 1 } else { len };
            buffer.blank_range(0, end);
            assert(final(buffer)@ =~= step_erase(
                old(buffer).screen(cursor),
                old(buffer).nominal_width(),
                *scope,
            ).cells);
            0
        },
        EraseInLine::EraseLine => {
            let width: usize = buffer.width();
            buffer.reset(width);
            0
        },
    }
}

/// Applies a CSI command to the row and returns the new cursor.
///
/// A cursor command moves the cursor left, stopping at the left edge, or
/// right, stopping behind the last cell of the row. An erase command blanks
/// from the cursor to the end of the row, from the start of the row to the
/// cursor (the cursor's cell included, and the cursor goes to the left
/// edge), or makes the whole row anew; the display has this one row, so
/// erase-in-display and erase-in-line act alike, and clearing the scrollback
/// does nothing. Every other command leaves row and cursor as they are.
pub fn reflect_csi_seqs(csi: &CSI, buffer: &mut LineBuffer, cursor: usize) -> (new_cursor: usize)
    requires
        old(buffer).wf(),
        cursor <= old(buffer)@.len(),
    ensures
        final(buffer).wf(),
        final(buffer).nominal_width() == old(buffer).nominal_width(),
        new_cursor <= final(buffer)@.len(),
        final(buffer).screen(new_cursor) == step_csi(
            old(buffer).screen(cursor),
            old(buffer).nominal_width(),
            *csi,
        ),
{
    match csi {
        CSI::Cursor(Cursor::Left(n)) => {
            let count: usize = *n as usize;
            if cursor > count { cursor - count } else { 0 }
        },
        CSI::Cursor(Cursor::Right(n)) => {
            let count: usize = *n as usize;
            let room: usize = buffer.len() - cursor;
            if count <= room { cursor + count } else { buffer.len() }
        },
        CSI::Cursor(Cursor::Other) => cursor,
        CSI::Edit(Edit::EraseInLine(scope)) => erase(scope, buffer, cursor),
        CSI::Edit(Edit::EraseInDisplay(scope)) => match scope {
            EraseInDisplay::EraseToEndOfDisplay => erase(&EraseInLine::EraseToEndOfLine, buffer, cursor),
            EraseInDisplay::EraseToStartOfDisplay => erase(&EraseInLine::EraseToStartOfLine, buffer, cursor),
            EraseInDisplay::EraseDisplay => erase(&EraseInLine::EraseLine, buffer, cursor),
            EraseInDisplay::EraseScrollback => cursor,
        },
        CSI::Edit(Edit::Other) => cursor,
        CSI::Other => cursor,
    }
}

/// Applies one action to the row and returns the new cursor.
///
/// A printed character overwrites the cell under the cursor and moves the
/// cursor one column right; control codes and CSI commands act as
/// [`reflect_control_codes`] and [`reflect_csi_seqs`] say; any other action
/// is passed over.
pub fn apply_action(action: &Action, buffer: &mut LineBuffer, cursor: usize) -> (new_cursor: usize)
    requires
        old(buffer).wf(),
        cursor <= old(buffer)@.len(),
    ensures
        final(buffer).wf(),
        final(buffer).nominal_width() == old(buffer).nominal_width(),
        new_cursor <= final(buffer)@.len(),
        final(buffer).screen(new_cursor) == step(
            old(buffer).screen(cursor),
            old(buffer).nominal_width(),
            *action,
        ),
{
    match action {
        Action::Print(ch) => {
            buffer.write_at(cursor, *ch);
            cursor + 1
        },
        Action::Control(code) => reflect_control_codes(code, buffer, cursor),
        Action::CSI(csi) => reflect_csi_seqs(csi, buffer, cursor),
        Action::Other => cursor,
    }
}

/// Applies `actions` in order to a fresh row of `term_width` blank cells and
/// returns the row as text, without its trailing blanks.
pub fn reconstruct(actions: &Vec<Action>, term_width: usize) -> (line: String)
    ensures
        line@ == line_text(actions@, term_width as nat),
{
    let mut buffer = LineBuffer::new(term_width);
    let mut cursor: usize = 0;
    let mut i: usize = 0;
    assert(actions@.take(0) =~= Seq::<Action>::empty());
    while i < actions.len()
        invariant
            i <= actions@.len(),
            buffer.wf(),
            buffer.nominal_width() == term_width,
            cursor <= buffer@.len(),
            buffer.screen(cursor) == run(fresh(term_width as nat), term_width as nat, actions@.take(i as int)),
        decreases actions@.len() - i,
    {
        assert(actions@.take(i + 1).drop_last() =~= actions@.take(i as int));
        assert(actions@.take(i + 1).last() == actions@[i as int]);
        cursor = apply_action(&actions[i], &mut buffer, cursor);
        i += 1;
    }
    assert(actions@.take(i as int) =~= actions@);
    buffer.trimmed()
}

} // verus!
