//! The decoded actions that the interpreter understands.
//!
//! The enums follow the shape in which an escape-sequence decoder reports its
//! findings: an action is a printed character, a control code or a CSI
//! command; a CSI command is about the cursor or about editing. Whatever the
//! row model has no use for is folded into the `Other` variant of its level.

use vstd::prelude::*;

verus! {

/// A C0 or C1 control code.
#[derive(Clone, Copy, Debug, PartialEq, Eq, Structural)]
pub enum ControlCode {
    Backspace,
    HorizontalTab,
    LineFeed,
    CarriageReturn,
    /// Any other control code; it leaves the row as it is.
    Other,
}

/// A CSI command that moves the cursor.
#[derive(Clone, Copy, Debug, PartialEq, Eq, Structural)]
pub enum Cursor {
    /// Move left by the given number of columns.
    Left(u32),
    /// Move right by the given number of columns.
    Right(u32),
    /// Any other cursor command; it leaves the row as it is.
    Other,
}

/// The part of the display that an erase-in-display command names.
#[derive(Clone, Copy, Debug, PartialEq, Eq, Structural)]
pub enum EraseInDisplay {
    EraseToEndOfDisplay,
    EraseToStartOfDisplay,
    EraseDisplay,
    EraseScrollback,
}

/// The part of the line that an erase-in-line command names.
#[derive(Clone, Copy, Debug, PartialEq, Eq, Structural)]
pub enum EraseInLine {
    EraseToEndOfLine,
    EraseToStartOfLine,
    EraseLine,
}

/// A CSI command that edits the display.
#[derive(Clone, Copy, Debug, PartialEq, Eq, Structural)]
pub enum Edit {
    EraseInDisplay(EraseInDisplay),
    EraseInLine(EraseInLine),
    /// Any other edit command; it leaves the row as it is.
    Other,
}

/// A CSI command.
#[derive(Clone, Copy, Debug, PartialEq, Eq, Structural)]
pub enum CSI {
    Cursor(Cursor),
    Edit(Edit),
    /// Any other CSI command; it leaves the row as it is.
    Other,
}

/// One decoded action of the input stream.
#[derive(Clone, Copy, Debug, PartialEq, Eq, Structural)]
pub enum Action {
    /// Show one character at the cursor.
    Print(char),
    Control(ControlCode),
    CSI(CSI),
    /// Any other action; it leaves the row as it is.
    Other,
}

} // verus!
