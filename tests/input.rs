use toolbelt::input::is_white_space_char;
use toolbelt::{get_input, update_input};

#[test]
fn update_input_trims_trailing_only() {
    let mut buf = String::new();
    let n = update_input(&mut buf, "  hello world  \n");
    assert_eq!(buf, "  hello world");
    assert_eq!(n, 16);
}

#[test]
fn update_input_end_of_stream() {
    let mut buf = String::from("left over");
    let n = update_input(&mut buf, "");
    assert_eq!(n, 0);
    assert_eq!(buf, "");
}

#[test]
fn get_input_strips_crlf() {
    assert_eq!(get_input("abc\r\n"), "abc");
}

#[test]
fn update_input_discards_stale_content() {
    let mut buf = String::new();
    update_input(&mut buf, "a much longer first line\n");
    assert_eq!(buf, "a much longer first line");
    let n = update_input(&mut buf, "hi\n");
    assert_eq!(buf, "hi");
    assert_eq!(n, 3);
}

#[test]
fn update_input_counts_bytes_not_chars() {
    let mut buf = String::new();
    let n = update_input(&mut buf, "héllo\u{3000}\t\n");
    assert_eq!(buf, "héllo");
    assert_eq!(n, "héllo\u{3000}\t\n".len());
    assert_eq!(n, 11);
}

#[test]
fn update_input_all_whitespace() {
    let mut buf = String::from("x");
    let n = update_input(&mut buf, " \t \u{a0}\n");
    assert_eq!(buf, "");
    assert_eq!(n, 6);
}

#[test]
fn get_input_line_without_terminator() {
    assert_eq!(get_input("last"), "last");
    assert_eq!(get_input("in ner  \t"), "in ner");
}

#[test]
fn whitespace_matches_std() {
    for v in 0u32..0x3100 {
        if let Some(c) = char::from_u32(v) {
            assert_eq!(is_white_space_char(c), c.is_whitespace(), "U+{v:04X}");
        }
    }
    assert!(!is_white_space_char('\u{200B}'));
    assert!(!is_white_space_char('a'));
}
