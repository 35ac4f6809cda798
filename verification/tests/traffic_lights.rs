use panel_kit::traffic::{set_emergency, traffic_response, EmergencyCommand, TrafficBoard};

fn triple(raw: &str) -> (String, String, String) {
    let r = traffic_response(raw);
    (r.s1, r.s2, r.btn_state)
}

fn s(a: &str, b: &str, c: &str) -> (String, String, String) {
    (a.to_string(), b.to_string(), c.to_string())
}

#[test]
fn three_fields_are_read_as_they_are() {
    assert_eq!(triple("green,red,PRESSED"), s("green", "red", "PRESSED"));
    assert_eq!(triple("red,red,ok"), s("red", "red", "ok"));
}

#[test]
fn missing_fields_take_defaults() {
    assert_eq!(triple("yellow"), s("yellow", "green", "OK"));
    assert_eq!(triple("yellow,red"), s("yellow", "red", "OK"));
    assert_eq!(triple(""), s("", "green", "OK"));
}

#[test]
fn extra_and_empty_fields() {
    assert_eq!(triple("a,b,c,d"), s("a", "b", "c"));
    assert_eq!(triple("a,,c"), s("a", "", "c"));
    assert_eq!(triple(",,"), s("", "", ""));
}

#[test]
fn board_starts_red() {
    let b = TrafficBoard::new();
    let r = b.get_traffic_light();
    assert_eq!((r.s1, r.s2, r.btn_state), s("red", "red", "ok"));
}

#[test]
fn board_reads_back_last_line() {
    let mut b = TrafficBoard::new();
    b.on_line("green,red,ok\r\n");
    assert_eq!(b.traffic_data, "green,red,ok");
    let r = b.get_traffic_light();
    assert_eq!((r.s1, r.s2, r.btn_state), s("green", "red", "ok"));
    b.on_line("   \n");
    assert_eq!(b.traffic_data, "green,red,ok");
    b.on_line(" yellow,red,STOP ");
    let r = b.get_traffic_light();
    assert_eq!((r.s1, r.s2, r.btn_state), s("yellow", "red", "STOP"));
}

#[test]
fn emergency_stop_sends_stop_line() {
    assert_eq!(set_emergency(&EmergencyCommand { stop: true }), Some(b"STOP\n".to_vec()));
    assert_eq!(set_emergency(&EmergencyCommand { stop: false }), None);
}
