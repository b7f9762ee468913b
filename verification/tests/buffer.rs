use termline::action::{Action, ControlCode, Cursor, EraseInLine, Edit, CSI};
use termline::buffer::LineBuffer;
use termline::interp::{apply_action, reflect_control_codes, reflect_csi_seqs};

fn cells(buffer: &LineBuffer) -> String {
    (0..buffer.len()).map(|i| buffer.cell(i)).collect()
}

fn filled(text: &str, width: usize) -> LineBuffer {
    let mut buffer = LineBuffer::new(width);
    for (i, ch) in text.chars().enumerate() {
        buffer.write_at(i, ch);
    }
    buffer
}

#[test]
fn new_row_is_blank() {
    let buffer = LineBuffer::new(4);
    assert_eq!(buffer.len(), 4);
    assert_eq!(buffer.width(), 4);
    assert_eq!(cells(&buffer), "    ");
    assert_eq!(buffer.trimmed(), "");
    assert_eq!(LineBuffer::new(0).len(), 0);
}

#[test]
fn write_at_overwrites_in_place() {
    let mut buffer = filled("abc", 5);
    buffer.write_at(1, 'x');
    assert_eq!(cells(&buffer), "axc  ");
    assert_eq!(buffer.len(), 5);
    assert_eq!(buffer.width(), 5);
}

#[test]
fn write_at_end_grows_by_one() {
    let mut buffer = filled("ab", 2);
    buffer.write_at(2, 'c');
    assert_eq!(cells(&buffer), "abc");
    assert_eq!(buffer.width(), 2);
}

#[test]
fn write_beyond_end_pads_with_blanks() {
    let mut buffer = LineBuffer::new(2);
    buffer.write_at(4, 'x');
    assert_eq!(cells(&buffer), "    x");
    assert_eq!(buffer.len(), 5);
}

#[test]
fn blank_range_excludes_its_end() {
    let mut buffer = filled("abcde", 5);
    buffer.blank_range(1, 3);
    assert_eq!(cells(&buffer), "a  de");
}

#[test]
fn blank_range_stops_at_end_of_row() {
    let mut buffer = filled("abcde", 5);
    buffer.blank_range(3, 100);
    assert_eq!(cells(&buffer), "abc  ");
    assert_eq!(buffer.len(), 5);
}

#[test]
fn blank_range_empty_or_reversed_does_nothing() {
    let mut buffer = filled("abcde", 5);
    buffer.blank_range(2, 2);
    buffer.blank_range(4, 1);
    buffer.blank_range(7, 9);
    assert_eq!(cells(&buffer), "abcde");
}

#[test]
fn reset_makes_row_anew() {
    let mut buffer = filled("abcdefg", 5);
    assert_eq!(buffer.len(), 7);
    buffer.reset(3);
    assert_eq!(cells(&buffer), "   ");
    assert_eq!(buffer.width(), 3);
}

#[test]
fn trimmed_is_the_same_each_time() {
    let buffer = filled(" ab \t ", 8);
    assert_eq!(buffer.trimmed(), " ab \t");
    assert_eq!(buffer.trimmed(), buffer.trimmed());
}

#[test]
fn backspace_at_left_edge_of_blank_row() {
    let mut buffer = LineBuffer::new(5);
    let cursor = reflect_control_codes(&ControlCode::Backspace, &mut buffer, 0);
    assert_eq!(cursor, 0);
    assert_eq!(buffer.cell(0), ' ');
    assert_eq!(cells(&buffer), "     ");
}

#[test]
fn backspace_at_left_edge_blanks_first_cell() {
    let mut buffer = filled("ab", 5);
    let cursor = reflect_control_codes(&ControlCode::Backspace, &mut buffer, 0);
    assert_eq!(cursor, 0);
    assert_eq!(cells(&buffer), " b   ");
}

#[test]
fn backspace_blanks_cell_left_of_cursor() {
    let mut buffer = filled("abc", 5);
    let cursor = reflect_control_codes(&ControlCode::Backspace, &mut buffer, 3);
    assert_eq!(cursor, 2);
    assert_eq!(cells(&buffer), "ab   ");
}

#[test]
fn tab_and_carriage_return_move_cursor() {
    let mut buffer = filled("abc", 5);
    let cursor = reflect_control_codes(&ControlCode::HorizontalTab, &mut buffer, 1);
    assert_eq!(cursor, 2);
    assert_eq!(cells(&buffer), "a\tc  ");
    let cursor = reflect_control_codes(&ControlCode::CarriageReturn, &mut buffer, cursor);
    assert_eq!(cursor, 0);
    let cursor = reflect_control_codes(&ControlCode::LineFeed, &mut buffer, 4);
    assert_eq!(cursor, 4);
    let cursor = reflect_control_codes(&ControlCode::Other, &mut buffer, 3);
    assert_eq!(cursor, 3);
    assert_eq!(cells(&buffer), "a\tc  ");
}

#[test]
fn cursor_moves_are_clamped() {
    let mut buffer = filled("abc", 10);
    let right = |n| CSI::Cursor(Cursor::Right(n));
    let left = |n| CSI::Cursor(Cursor::Left(n));
    assert_eq!(reflect_csi_seqs(&right(4), &mut buffer, 3), 7);
    assert_eq!(reflect_csi_seqs(&right(7), &mut buffer, 3), 10);
    assert_eq!(reflect_csi_seqs(&right(8), &mut buffer, 3), 10);
    assert_eq!(reflect_csi_seqs(&right(u32::MAX), &mut buffer, 0), 10);
    assert_eq!(reflect_csi_seqs(&right(1), &mut buffer, 10), 10);
    assert_eq!(reflect_csi_seqs(&right(0), &mut buffer, 4), 4);
    assert_eq!(reflect_csi_seqs(&left(2), &mut buffer, 3), 1);
    assert_eq!(reflect_csi_seqs(&left(3), &mut buffer, 3), 0);
    assert_eq!(reflect_csi_seqs(&left(u32::MAX), &mut buffer, 3), 0);
    assert_eq!(reflect_csi_seqs(&left(1), &mut buffer, 0), 0);
    assert_eq!(cells(&buffer), "abc       ");
}

#[test]
fn cursor_right_follows_a_grown_row() {
    let mut buffer = filled("abcdef", 4);
    assert_eq!(reflect_csi_seqs(&CSI::Cursor(Cursor::Right(9)), &mut buffer, 1), 6);
}

#[test]
fn erase_commands_on_a_row() {
    let erase = |scope| CSI::Edit(Edit::EraseInLine(scope));
    let mut buffer = filled("abcde", 6);
    assert_eq!(reflect_csi_seqs(&erase(EraseInLine::EraseToEndOfLine), &mut buffer, 3), 3);
    assert_eq!(cells(&buffer), "abc   ");
    let mut buffer = filled("abcde", 6);
    assert_eq!(reflect_csi_seqs(&erase(EraseInLine::EraseToStartOfLine), &mut buffer, 3), 0);
    assert_eq!(cells(&buffer), "    e ");
    let mut buffer = filled("abcde", 5);
    assert_eq!(reflect_csi_seqs(&erase(EraseInLine::EraseToStartOfLine), &mut buffer, 5), 0);
    assert_eq!(cells(&buffer), "     ");
    let mut buffer = filled("abcdefgh", 6);
    assert_eq!(reflect_csi_seqs(&erase(EraseInLine::EraseLine), &mut buffer, 3), 0);
    assert_eq!(cells(&buffer), "      ");
}

#[test]
fn print_writes_and_advances() {
    let mut buffer = LineBuffer::new(2);
    let cursor = apply_action(&Action::Print('a'), &mut buffer, 0);
    let cursor = apply_action(&Action::Print('b'), &mut buffer, cursor);
    assert_eq!(cursor, 2);
    assert_eq!(cells(&buffer), "ab");
    let cursor = apply_action(&Action::Print('c'), &mut buffer, cursor);
    assert_eq!(cursor, 3);
    assert_eq!(cells(&buffer), "abc");
    assert_eq!(apply_action(&Action::Other, &mut buffer, cursor), 3);
}
