use panel_kit::replies::{accept_line, decode_reply, decode_text, ReplyBoard};

#[test]
fn decode_text_trims() {
    assert_eq!(decode_text(b"  42\r\n"), "42");
    assert_eq!(decode_text(b"\n"), "");
}

#[test]
fn decode_reply_keeps_non_empty_text() {
    assert_eq!(decode_reply(b"512\r\n"), Some("512".to_string()));
    assert_eq!(decode_reply(b"  \r\n"), None);
    assert_eq!(decode_reply(b""), None);
    assert_eq!(decode_reply(&[0xff, b'\n']), Some("\u{fffd}".to_string()));
}

#[test]
fn accept_line_keeps_non_empty_lines() {
    assert_eq!(accept_line("green,red,ok\n"), Some("green,red,ok".to_string()));
    assert_eq!(accept_line("\r\n"), None);
    assert_eq!(accept_line(""), None);
}

#[test]
fn reply_board_starts_at_zero() {
    let b = ReplyBoard::new();
    assert_eq!(b.get_arduino_value().value, "0");
}

#[test]
fn reply_board_reads_back_last_reply() {
    let mut b = ReplyBoard::new();
    b.on_chunk(b"317\r\n");
    assert_eq!(b.get_arduino_value().value, "317");
    b.on_chunk(b"\r\n");
    assert_eq!(b.get_arduino_value().value, "317");
    b.on_chunk(b"  9 ");
    assert_eq!(b.get_arduino_value().value, "9");
    b.on_chunk(b"  9 ");
    assert_eq!(b.get_arduino_value().value, "9");
}
