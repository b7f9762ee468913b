//! Rebuilds the visible content of one terminal row from the decoded
//! actions of one raw input line.
//!
//! A row is a sequence of cells with a cursor. Printed characters overwrite
//! the cell under the cursor, control codes and CSI commands move the cursor
//! or blank parts of the row, and the finished row is trimmed of trailing
//! blanks and prefixed with the time of capture.

pub mod action;
pub mod model;
pub mod buffer;
pub mod interp;
pub mod lemmas;
pub mod clock;
pub mod record;
pub mod logpath;
