use panel_kit::replies::decode_text;
use panel_kit::text::{chars_of, split_chars, string_of, trim_str, white_space};

#[test]
fn trim_removes_ascii_white_space() {
    assert_eq!(trim_str("  hola \r\n"), "hola");
    assert_eq!(trim_str("\t a b \t"), "a b");
    assert_eq!(trim_str(""), "");
    assert_eq!(trim_str(" \n\t "), "");
    assert_eq!(trim_str("x"), "x");
}

#[test]
fn trim_removes_unicode_white_space() {
    assert_eq!(trim_str("\u{3000}\u{a0}x\u{2009}\u{85}"), "x");
    // A zero-width space is not white space.
    assert_eq!(trim_str("\u{200b}x"), "\u{200b}x");
}

#[test]
fn trim_agrees_with_std() {
    let samples = [
        "", " ", "abc", "  abc", "abc  ", " a b c ", "\u{2028}q\u{2029}", "\u{1680}\u{180e}",
        "\u{feff}x", "\u{0b}\u{0c}y\u{1c}", "é ", " ñ\u{202f}",
    ];
    for s in samples.iter() {
        assert_eq!(trim_str(s), s.trim(), "trimming {:?}", s);
    }
}

#[test]
fn white_space_agrees_with_std() {
    for u in 0u32..0x3100 {
        if let Some(c) = char::from_u32(u) {
            assert_eq!(white_space(c), c.is_whitespace(), "char {:x}", u);
        }
    }
}

#[test]
fn chars_and_string_round_trip() {
    let s = "añb€ 😀";
    let v = chars_of(s);
    assert_eq!(v, s.chars().collect::<Vec<char>>());
    assert_eq!(string_of(&v), s);
}

#[test]
fn split_agrees_with_std() {
    let samples = ["", ",", "a", "a,b", "a,,b", ",a,", "red,green,OK", "x,y,z,w"];
    for s in samples.iter() {
        let v = chars_of(s);
        let got: Vec<String> = split_chars(&v, ',').iter().map(|f| string_of(f)).collect();
        let want: Vec<String> = s.split(',').map(|f| f.to_string()).collect();
        assert_eq!(got, want, "splitting {:?}", s);
    }
}

#[test]
fn decoding_replaces_invalid_utf8() {
    assert_eq!(decode_text(b"hola"), "hola");
    assert_eq!(decode_text("caf\u{e9}".as_bytes()), "caf\u{e9}");
    assert_eq!(decode_text(&[0x66, 0xff, 0x6f]), "f\u{fffd}o");
    assert_eq!(decode_text(&[0xe2, 0x82]), "\u{fffd}");
    assert_eq!(decode_text(&[]), "");
}
