use panel_kit::serial::{rgb_message, value_message, RgbData, RgbSender, ValueSender};

fn rgb(red: u8, green: u8, blue: u8) -> RgbData {
    RgbData { red, green, blue }
}

#[test]
fn value_message_is_decimal_and_newline() {
    assert_eq!(value_message(0), b"0\n".to_vec());
    assert_eq!(value_message(7), b"7\n".to_vec());
    assert_eq!(value_message(10), b"10\n".to_vec());
    assert_eq!(value_message(42), b"42\n".to_vec());
    assert_eq!(value_message(100), b"100\n".to_vec());
    assert_eq!(value_message(255), b"255\n".to_vec());
}

#[test]
fn value_message_matches_formatting_for_every_value() {
    for v in 0..=255u8 {
        assert_eq!(value_message(v), format!("{}\n", v).into_bytes());
    }
}

#[test]
fn rgb_message_is_three_decimals() {
    assert_eq!(rgb_message(rgb(12, 0, 255)), b"12,0,255\n".to_vec());
    assert_eq!(rgb_message(rgb(0, 0, 0)), b"0,0,0\n".to_vec());
    assert_eq!(rgb_message(rgb(255, 128, 9)), b"255,128,9\n".to_vec());
}

#[test]
fn distinct_values_give_distinct_lines() {
    let lines: Vec<Vec<u8>> = (0..=255u8).map(value_message).collect();
    for a in 0..lines.len() {
        for b in (a + 1)..lines.len() {
            assert_ne!(lines[a], lines[b]);
        }
    }
}

#[test]
fn distinct_colours_give_distinct_lines() {
    // Colours whose decimals could run together if the commas were missing.
    assert_ne!(rgb_message(rgb(1, 23, 4)), rgb_message(rgb(12, 3, 4)));
    assert_ne!(rgb_message(rgb(1, 2, 34)), rgb_message(rgb(1, 23, 4)));
    assert_ne!(rgb_message(rgb(10, 0, 0)), rgb_message(rgb(1, 0, 0)));
}

#[test]
fn value_sender_starts_from_255() {
    let s = ValueSender::new();
    assert_eq!(s.last_sent, 255);
}

#[test]
fn value_sender_sends_only_changes() {
    let mut s = ValueSender::new();
    assert_eq!(s.poll(0), Some(b"0\n".to_vec()));
    assert_eq!(s.last_sent, 0);
    assert_eq!(s.poll(0), None);
    assert_eq!(s.poll(128), Some(b"128\n".to_vec()));
    assert_eq!(s.poll(128), None);
    assert_eq!(s.poll(0), Some(b"0\n".to_vec()));
}

#[test]
fn value_sender_first_value_255_is_not_sent() {
    let mut s = ValueSender::new();
    assert_eq!(s.poll(255), None);
    assert_eq!(s.poll(254), Some(b"254\n".to_vec()));
}

#[test]
fn rgb_sender_sends_only_changes() {
    let mut s = RgbSender::new();
    assert!(s.last_sent == rgb(255, 255, 255));
    assert_eq!(s.poll(rgb(0, 0, 0)), Some(b"0,0,0\n".to_vec()));
    assert_eq!(s.poll(rgb(0, 0, 0)), None);
    assert_eq!(s.poll(rgb(0, 0, 1)), Some(b"0,0,1\n".to_vec()));
    assert!(s.last_sent == rgb(0, 0, 1));
    assert_eq!(s.poll(rgb(0, 0, 1)), None);
}

#[test]
fn rgb_sender_white_first_is_not_sent() {
    let mut s = RgbSender::new();
    assert_eq!(s.poll(rgb(255, 255, 255)), None);
}
