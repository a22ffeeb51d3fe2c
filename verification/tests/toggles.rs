use text_cursor::cursor::Cursor;

fn chars_of(s: &str) -> Vec<char> {
    s.chars().collect()
}

#[test]
fn home_empty() {
    let mut cursor = Cursor::new(vec![chars_of("")]);
    cursor.home(false);
    assert_eq!(cursor.current.column, 0);
}

#[test]
fn home_line_start() {
    let mut cursor = Cursor::new(vec![chars_of("abc")]);
    cursor.home(false);
    assert_eq!(cursor.current.column, 0);
}

#[test]
fn home_middle_of_line() {
    let mut cursor = Cursor::new(vec![chars_of("abc")]);
    cursor.right(false);
    cursor.right(false);
    cursor.home(false);
    assert_eq!(cursor.current.column, 0);
    cursor.home(false);
    assert_eq!(cursor.current.column, 2);
}

#[test]
fn home_select_empty() {
    let mut cursor = Cursor::new(vec![chars_of("")]);
    cursor.home(true);
    assert_eq!(cursor.current.column, 0);
    assert_eq!(cursor.extender.column, 0);
}

#[test]
fn home_select_in_same_line() {
    let mut cursor = Cursor::new(vec![chars_of("abc")]);
    cursor.right(false);
    cursor.home(true);
    assert_eq!(cursor.current.column, 1);
    assert_eq!(cursor.extender.column, 0);
    cursor.home(true);
    assert_eq!(cursor.current.column, 1);
    assert_eq!(cursor.extender.column, 1);
}

#[test]
fn home_select_with_multi_line_selection() {
    let mut cursor = Cursor::new(vec![chars_of("abcd"), chars_of("efgh")]);
    cursor.right(false);
    cursor.right(false);
    cursor.down(false);
    cursor.up(true);
    cursor.home(true);
    assert_eq!(cursor.current.column, 2);
    assert_eq!(cursor.current.line, 1);
    assert_eq!(cursor.extender.column, 0);
    assert_eq!(cursor.extender.line, 0);
}

#[test]
fn end_empty() {
    let mut cursor = Cursor::new(vec![chars_of("")]);
    cursor.end(false);
    assert_eq!(cursor.current.column, 0);
}

#[test]
fn end_line_start() {
    let mut cursor = Cursor::new(vec![chars_of("abc")]);
    cursor.end(false);
    assert_eq!(cursor.current.column, 3);
}

#[test]
fn end_line_end() {
    let mut cursor = Cursor::new(vec![chars_of("abcd")]);
    cursor.right(false);
    cursor.end(false);
    assert_eq!(cursor.current.column, 4);
    cursor.end(false);
    assert_eq!(cursor.current.column, 1);
}

#[test]
fn end_line_end_with_line_switch() {
    let mut cursor = Cursor::new(vec![chars_of("ab"), chars_of("cdefg")]);
    cursor.down(false);
    cursor.right(false);
    cursor.right(false);
    cursor.right(false);
    assert_eq!(cursor.current.column, 3);
    cursor.up(false);
    assert_eq!(cursor.current.column, 2);
    cursor.end(false);
    assert_eq!(cursor.current.column, 2);
}

#[test]
fn end_select_empty() {
    let mut cursor = Cursor::new(vec![chars_of("")]);
    cursor.end(true);
    assert_eq!(cursor.current.column, 0);
    assert_eq!(cursor.extender.column, 0);
}

#[test]
fn end_select_in_same_line() {
    let mut cursor = Cursor::new(vec![chars_of("abcdef")]);
    cursor.right(false);
    cursor.end(true);
    assert_eq!(cursor.current.column, 1);
    assert_eq!(cursor.extender.column, 6);
    cursor.end(true);
    assert_eq!(cursor.current.column, 1);
    assert_eq!(cursor.extender.column, 1);
}

#[test]
fn end_select_with_multi_line_selection() {
    let mut cursor = Cursor::new(vec![chars_of("abcde"), chars_of("fghij")]);
    cursor.right(false);
    cursor.right(true);
    cursor.down(true);
    cursor.end(true);
    assert_eq!(cursor.current.column, 1);
    assert_eq!(cursor.current.line, 0);
    assert_eq!(cursor.extender.column, 5);
    assert_eq!(cursor.extender.line, 1);
}
