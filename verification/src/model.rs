//! The mathematical model of a row: its cells as a sequence of characters,
//! a cursor, and the effect of each action on both.

use vstd::prelude::*;
use crate::action::{Action, ControlCode, Cursor, EraseInDisplay, EraseInLine, Edit, CSI};

verus! {

/// The blank cell.
pub open spec fn blank() -> char {
    ' '
}

/// A row of `n` blank cells.
pub open spec fn blanks(n: nat) -> Seq<char> {
    Seq::new(n, |i: int| blank())
}

/// `cells` with `ch` written at `position`. A position inside the row is
/// overwritten in place; a position at or beyond the end first extends the
/// row with blanks up to it.
pub open spec fn put(cells: Seq<char>, position: nat, ch: char) -> Seq<char> {
    if position < cells.len() {
        cells.update(position as int, ch)
    } else {
        (cells + blanks((position - cells.len()) as nat)).push(ch)
    }
}

/// `cells` with every cell from `start` up to, not including, `end` made
/// blank. The row keeps its length; the part of the range beyond the row
/// has no effect.
pub open spec fn blank_between(cells: Seq<char>, start: int, end: int) -> Seq<char> {
    Seq::new(cells.len(), |i: int| if start <= i < end { blank() } else { cells[i] })
}

/// `cells` without its trailing blanks.
pub open spec fn trim_end(cells: Seq<char>) -> Seq<char>
    decreases cells.len(),
{
    if cells.len() > 0 && cells.last() == blank() {
        trim_end(cells.drop_last())
    } else {
        cells
    }
}

/// A row and its cursor.
pub struct Screen {
    pub cells: Seq<char>,
    pub cursor: nat,
}

/// A screen is valid for a nominal width when its row has at least that many
/// cells and the cursor lies on the row or just behind its last cell.
pub open spec fn valid(s: Screen, width: nat) -> bool {
    s.cells.len() >= width && s.cursor <= s.cells.len()
}

/// The screen at the start of a line: `width` blanks, cursor at the left edge.
pub open spec fn fresh(width: nat) -> Screen {
    Screen { cells: blanks(width), cursor: 0 }
}

/// The effect of a control code.
pub open spec fn step_control(s: Screen, code: ControlCode) -> Screen {
    match code {
        ControlCode::Backspace => {
            let at: nat = if s.cursor > 0 { (s.cursor - 1) as nat } else { 0 };
            Screen { cells: put(s.cells, at, blank()), cursor: at }
        },
        ControlCode::HorizontalTab => Screen {
            cells: put(s.cells, s.cursor, '\t'),
            cursor: s.cursor + 1,
        },
        ControlCode::CarriageReturn => Screen { cells: s.cells, cursor: 0 },
        ControlCode::LineFeed => s,
        ControlCode::Other => s,
    }
}

/// The effect of an erase command, by the part of the line that it names.
/// The model has one row, so an erase-in-display command acts as the
/// erase-in-line command of the same extent does.
pub open spec fn step_erase(s: Screen, width: nat, scope: EraseInLine) -> Screen {
    match scope {
        EraseInLine::EraseToEndOfLine => Screen {
            cells: blank_between(s.cells, s.cursor as int, s.cells.len() as int),
            cursor: s.cursor,
        },
        EraseInLine::EraseToStartOfLine => Screen {
            cells: blank_between(s.cells, 0, s.cursor as int + 1),
            cursor: 0,
        },
        EraseInLine::EraseLine => fresh(width),
    }
}

/// The extent on the one row that an erase-in-display command stands for;
/// clearing the scrollback touches nothing that the model holds.
pub open spec fn row_scope(scope: EraseInDisplay) -> Option<EraseInLine> {
    match scope {
        EraseInDisplay::EraseToEndOfDisplay => Some(EraseInLine::EraseToEndOfLine),
        EraseInDisplay::EraseToStartOfDisplay => Some(EraseInLine::EraseToStartOfLine),
        EraseInDisplay::EraseDisplay => Some(EraseInLine::EraseLine),
        EraseInDisplay::EraseScrollback => None,
    }
}

/// The effect of a CSI command on a screen of nominal width `width`.
pub open spec fn step_csi(s: Screen, width: nat, csi: CSI) -> Screen {
    match csi {
        CSI::Cursor(Cursor::Left(n)) => Screen {
            cells: s.cells,
            cursor: if s.cursor > n { (s.cursor - n) as nat } else { 0 },
        },
        CSI::Cursor(Cursor::Right(n)) => Screen {
            cells: s.cells,
            cursor: if s.cursor + n <= s.cells.len() { (s.cursor + n) as nat } else { s.cells.len() },
        },
        CSI::Edit(Edit::EraseInLine(scope)) => step_erase(s, width, scope),
        CSI::Edit(Edit::EraseInDisplay(scope)) => match row_scope(scope) {
            Some(line_scope) => step_erase(s, width, line_scope),
            None => s,
        },
        _ => s,
    }
}

/// The effect of one action on a screen of nominal width `width`.
pub open spec fn step(s: Screen, width: nat, action: Action) -> Screen {
    match action {
        Action::Print(ch) => Screen { cells: put(s.cells, s.cursor, ch), cursor: s.cursor + 1 },
        Action::Control(code) => step_control(s, code),
        Action::CSI(csi) => step_csi(s, width, csi),
        Action::Other => s,
    }
}

/// The effect of a sequence of actions, applied in order.
pub open spec fn run(s: Screen, width: nat, actions: Seq<Action>) -> Screen
    decreases actions.len(),
{
    if actions.len() == 0 {
        s
    } else {
        step(run(s, width, actions.drop_last()), width, actions.last())
    }
}

/// The text that a sequence of actions leaves on a fresh row of `width`
/// cells, without its trailing blanks.
pub open spec fn line_text(actions: Seq<Action>, width: nat) -> Seq<char> {
    trim_end(run(fresh(width), width, actions).cells)
}

} // verus!
