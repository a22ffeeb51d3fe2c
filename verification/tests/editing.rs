use text_cursor::cursor::Cursor;

fn chars_of(s: &str) -> Vec<char> {
    s.chars().collect()
}

#[test]
fn delete_empty() {
    let mut cursor = Cursor::new(vec![chars_of("")]);
    cursor.delete();
    assert_eq!(cursor.current.column, 0);
    assert_eq!(cursor.lines, vec![chars_of("")]);
}

#[test]
fn delete_in_line() {
    let mut cursor = Cursor::new(vec![chars_of("abc")]);
    cursor.delete();
    assert_eq!(cursor.current.column, 0);
    assert_eq!(cursor.lines, vec![chars_of("bc")]);
}

#[test]
fn delete_empty_line() {
    let mut cursor = Cursor::new(vec![chars_of(""), chars_of("abc")]);
    cursor.delete();
    assert_eq!(cursor.current.column, 0);
    assert_eq!(cursor.lines, vec![chars_of("abc")]);
}

#[test]
fn delete_at_end_of_line() {
    let mut cursor = Cursor::new(vec![chars_of("ab"), chars_of("cdef")]);
    cursor.right(false);
    cursor.right(false);
    cursor.delete();
    assert_eq!(cursor.current.column, 2);
    assert_eq!(cursor.lines, vec![chars_of("abcdef")]);
}

#[test]
fn delete_at_end_of_last_line() {
    let mut cursor = Cursor::new(vec![chars_of("ab")]);
    cursor.right(false);
    cursor.right(false);
    cursor.delete();
    assert_eq!(cursor.current.column, 2);
    assert_eq!(cursor.lines, vec![chars_of("ab")]);
}

#[test]
fn delete_multi_byte() {
    let mut cursor = Cursor::new(vec![chars_of("\u{B0}")]);
    cursor.delete();
    assert_eq!(cursor.current.column, 0);
    assert_eq!(cursor.lines, vec![chars_of("")]);
}

#[test]
fn delete_with_selection() {
    let mut cursor = Cursor::new(vec![chars_of("abcd")]);
    cursor.right(true);
    cursor.right(true);
    cursor.delete();
    assert_eq!(cursor.current.column, 0);
    assert_eq!(cursor.lines, vec![chars_of("cd")]);
}

#[test]
fn delete_with_right_left_selection() {
    let mut cursor = Cursor::new(vec![chars_of("abcd")]);
    cursor.right(false);
    cursor.right(false);
    cursor.left(true);
    cursor.left(true);
    cursor.delete();
    assert_eq!(cursor.current.column, 0);
    assert_eq!(cursor.lines, vec![chars_of("cd")]);
}

#[test]
fn delete_with_multi_line_selection() {
    let mut cursor = Cursor::new(vec![
        chars_of("abcd"),
        chars_of("efgh"),
        chars_of("ijkl"),
    ]);
    cursor.right(false);
    cursor.right(false);
    cursor.down(true);
    cursor.down(true);
    cursor.delete();
    assert_eq!(cursor.current.column, 2);
    assert_eq!(cursor.lines, vec![chars_of("abkl")]);
}

#[test]
fn delete_with_bottom_up_multi_line_selection() {
    let mut cursor = Cursor::new(vec![
        chars_of("abcd"),
        chars_of("efgh"),
        chars_of("ijkl"),
    ]);
    cursor.down(false);
    cursor.down(false);
    cursor.right(false);
    cursor.right(false);
    cursor.up(true);
    cursor.up(true);
    cursor.delete();
    assert_eq!(cursor.current.column, 2);
    assert_eq!(cursor.lines, vec![chars_of("abkl")]);
}

#[test]
fn backspace_empty() {
    let mut cursor = Cursor::new(vec![chars_of("")]);
    cursor.backspace();
    assert_eq!(cursor.lines, vec![chars_of("")]);
}

#[test]
fn backspace_in_line() {
    let mut cursor = Cursor::new(vec![chars_of("ab")]);
    cursor.right(false);
    cursor.backspace();
    assert_eq!(cursor.current.column, 0);
    assert_eq!(cursor.lines, vec![chars_of("b")]);
}

#[test]
fn backspace_delete_line() {
    let mut cursor = Cursor::new(vec![
        chars_of("ab"),
        chars_of(""),
        chars_of("cd"),
    ]);
    cursor.down(false);
    cursor.backspace();
    assert_eq!(cursor.current.line, 0);
    assert_eq!(cursor.current.column, 2);
    assert_eq!(cursor.lines, vec![chars_of("ab"), chars_of("cd")]);
}

#[test]
fn backspace_multi_byte() {
    let mut cursor = Cursor::new(vec![chars_of("\u{1F308}\u{B0}b")]);
    cursor.right(false);
    cursor.right(false);
    cursor.right(false);
    cursor.backspace();
    assert_eq!(cursor.current.column, 2);
    assert_eq!(cursor.lines, vec![chars_of("\u{1F308}\u{B0}")]);
}

#[test]
fn backspace_with_multi_line_selection() {
    let mut cursor = Cursor::new(vec![
        chars_of("abcd"),
        chars_of("efgh"),
        chars_of("ijkl"),
    ]);
    cursor.right(false);
    cursor.right(false);
    cursor.down(true);
    cursor.down(true);
    cursor.backspace();
    assert_eq!(cursor.current.column, 2);
    assert_eq!(cursor.lines, vec![chars_of("abkl")]);
}

#[test]
fn add_empty() {
    let mut cursor = Cursor::new(vec![chars_of("")]);
    cursor.add('a');
    assert_eq!(cursor.lines, vec![chars_of("a")]);
}

#[test]
fn add() {
    let mut cursor = Cursor::new(vec![chars_of("cde")]);
    cursor.add('b');
    assert_eq!(cursor.current.column, 1);
    assert_eq!(cursor.lines, vec![chars_of("bcde")]);
}

#[test]
fn add_after_multi_byte() {
    let mut cursor = Cursor::new(vec![chars_of("\u{1F308}\u{B0}")]);
    cursor.right(false);
    cursor.add('b');
    assert_eq!(cursor.current.column, 2);
    assert_eq!(cursor.lines, vec![chars_of("\u{1F308}b\u{B0}")]);
}

#[test]
fn add_with_selection() {
    let mut cursor = Cursor::new(vec![chars_of("cde")]);
    cursor.right(true);
    cursor.right(true);
    cursor.add('\u{DF}');
    assert_eq!(cursor.current.column, 1);
    assert_eq!(cursor.lines, vec![chars_of("\u{DF}e")]);
}

#[test]
fn new_line_empty() {
    let mut cursor = Cursor::new(vec![chars_of("")]);
    cursor.new_line();
    assert_eq!(cursor.current.column, 0);
    assert_eq!(cursor.current.line, 1);
    assert_eq!(cursor.lines, vec![chars_of(""), chars_of("")]);
}

#[test]
fn new_line_end_of_line_no_line_after() {
    let mut cursor = Cursor::new(vec![chars_of("ab")]);
    cursor.right(false);
    cursor.right(false);
    cursor.new_line();
    assert_eq!(cursor.current.column, 0);
    assert_eq!(cursor.current.line, 1);
    assert_eq!(cursor.lines, vec![chars_of("ab"), chars_of("")]);
}

#[test]
fn new_line_middle_of_line() {
    let mut cursor = Cursor::new(vec![chars_of("abcdef")]);
    cursor.right(false);
    cursor.right(false);
    cursor.new_line();
    assert_eq!(cursor.current.column, 0);
    assert_eq!(cursor.current.line, 1);
    assert_eq!(cursor.lines, vec![chars_of("ab"), chars_of("cdef")]);
}

#[test]
fn new_line_remember_column() {
    let mut cursor = Cursor::new(vec![chars_of("abc"), chars_of("def")]);
    cursor.right(false);
    cursor.right(false);
    cursor.new_line();
    assert_eq!(cursor.current.column, 0);
    cursor.down(false);
    assert_eq!(cursor.current.column, 0);
}

#[test]
fn new_line_remember_column_line_smaller_than_remembered() {
    let mut cursor = Cursor::new(vec![chars_of("abc"), chars_of("d")]);
    cursor.right(false);
    cursor.right(false);
    cursor.new_line();
    assert_eq!(cursor.current.column, 0);
    cursor.down(false);
    assert_eq!(cursor.current.column, 0);
}

#[test]
fn new_line_with_selection() {
    let mut cursor = Cursor::new(vec![
        chars_of("abcd"),
        chars_of("efgh"),
        chars_of("ijkl"),
    ]);
    cursor.right(false);
    cursor.right(false);
    cursor.down(true);
    cursor.down(true);
    cursor.new_line();
    assert_eq!(cursor.current.column, 0);
    assert_eq!(cursor.lines, vec![chars_of("ab"), chars_of("kl")]);
}

#[test]
fn new_line_multi_byte() {
    let mut cursor = Cursor::new(vec![chars_of("\u{1F308}\u{B0}")]);
    cursor.right(false);
    cursor.right(false);
    cursor.new_line();
    assert_eq!(cursor.current.column, 0);
    assert_eq!(cursor.lines, vec![chars_of("\u{1F308}\u{B0}"), chars_of("")]);
}
