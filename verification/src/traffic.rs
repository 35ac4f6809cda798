//! The double traffic light panel: the state line that the board reports
//! (`"colour 1,colour 2,button"`), how the page is answered from it, and the
//! emergency stop command.
use vstd::prelude::*;
use crate::text::{chars_of, split_chars, split_on, string_of, trim, views_of};
use crate::replies::{accept_line, non_empty};

verus! {

/// Field `i` of `fields`, or `default` where there is none.
pub open spec fn field_or(fields: Seq<Seq<char>>, i: int, default: Seq<char>) -> Seq<char> {
    if 0 <= i < fields.len() {
        fields[i]
    } else {
        default
    }
}

/// The fields of a state line.
pub open spec fn state_fields(raw: Seq<char>) -> Seq<Seq<char>> {
    split_on(raw, ',')
}

/// The answer to the page: both lights and the button state.
pub struct TrafficResponse {
    pub s1: String,
    pub s2: String,
    pub btn_state: String,
}

/// The command that the page posts.
pub struct EmergencyCommand {
    pub stop: bool,
}

/// The answer for a state line: its first three comma-separated fields,
/// with `"red"`, `"green"` and `"OK"` standing in for missing ones.
pub fn traffic_response(raw: &str) -> (r: TrafficResponse)
    ensures
        r.s1@ == field_or(state_fields(raw@), 0, "red"@),
        r.s2@ == field_or(state_fields(raw@), 1, "green"@),
        r.btn_state@ == field_or(state_fields(raw@), 2, "OK"@),
{
    let chars = chars_of(raw);
    let fields = split_chars(chars.as_slice(), ',');
    proof {
        assert(views_of(fields@).len() == fields@.len());
        assert(forall|i: int| 0 <= i < fields@.len() ==> views_of(fields@)[i] == #[trigger] fields@[i]@);
    }
    let s1 = if fields.len() > 0 {
        string_of(fields[0].as_slice())
    } else {
        String::from_str("red")
    };
    let s2 = if fields.len() > 1 {
        string_of(fields[1].as_slice())
    } else {
        String::from_str("green")
    };
    let btn_state = if fields.len() > 2 {
        string_of(fields[2].as_slice())
    } else {
        String::from_str("OK")
    };
    TrafficResponse { s1, s2, btn_state }
}

/// The state line assumed before the board has reported anything.
pub open spec fn initial_state_line() -> Seq<char> {
    "red,red,ok"@
}

/// What the state line is after the board sent `line`: the trimmed line
/// when it is not empty, else the previous state line.
pub open spec fn after_line(state: Seq<char>, line: Seq<char>) -> Seq<char> {
    match non_empty(trim(line)) {
        Some(t) => t,
        None => state,
    }
}

/// The last state line that the board reported.
pub struct TrafficBoard {
    pub traffic_data: String,
}

impl TrafficBoard {
    /// Before the board has reported, both lights read red.
    pub fn new() -> (b: TrafficBoard)
        ensures
            b.traffic_data@ == initial_state_line(),
    {
        TrafficBoard { traffic_data: String::from_str("red,red,ok") }
    }

    /// Takes in a line read from the board; returns whether it held a
    /// state (was not blank).
    pub fn on_line(&mut self, line: &str) -> (updated: bool)
        ensures
            final(self).traffic_data@ == after_line(old(self).traffic_data@, line@),
            updated == (trim(line@).len() > 0),
    {
        let r = accept_line(line);
        if let Some(t) = r {
            self.traffic_data = t;
            true
        } else {
            false
        }
    }

    /// The answer to the page, read from the stored state line.
    pub fn get_traffic_light(&self) -> (r: TrafficResponse)
        ensures
            r.s1@ == field_or(state_fields(self.traffic_data@), 0, "red"@),
            r.s2@ == field_or(state_fields(self.traffic_data@), 1, "green"@),
            r.btn_state@ == field_or(state_fields(self.traffic_data@), 2, "OK"@),
    {
        traffic_response(self.traffic_data.as_str())
    }
}

/// The bytes `"STOP\n"`.
pub open spec fn stop_line() -> Seq<u8> {
    seq![83u8, 84u8, 79u8, 80u8, 10u8]
}

/// What goes to the board for a command from the page: `"STOP\n"` when it
/// asks to stop, nothing otherwise.
pub fn set_emergency(cmd: &EmergencyCommand) -> (m: Option<Vec<u8>>)
    ensures
        m is Some <==> cmd.stop,
        m matches Some(v) ==> v@ == stop_line(),
{
    if cmd.stop {
        let mut v: Vec<u8> = Vec::new();
        v.push(83);
        v.push(84);
        v.push(79);
        v.push(80);
        v.push(10);
        Some(v)
    } else {
        None
    }
}


/// A state line made of three comma-free parts is answered with exactly
/// those parts: the page shows what the board reported.
pub proof fn law_three_part_line(a: Seq<char>, b: Seq<char>, c: Seq<char>)
    requires
        !a.contains(','),
        !b.contains(','),
        !c.contains(','),
    ensures
        state_fields(a + seq![','] + b + seq![','] + c) == seq![a, b, c],
        field_or(state_fields(a + seq![','] + b + seq![','] + c), 0, "red"@) == a,
        field_or(state_fields(a + seq![','] + b + seq![','] + c), 1, "green"@) == b,
        field_or(state_fields(a + seq![','] + b + seq![','] + c), 2, "OK"@) == c,
{
    let ab = a + seq![','] + b;
    crate::text::lemma_split_on_concat(ab, c, ',');
    crate::text::lemma_split_on_concat(a, b, ',');
    crate::text::lemma_split_on_no_sep(a, ',');
    crate::text::lemma_split_on_no_sep(b, ',');
    crate::text::lemma_split_on_no_sep(c, ',');
    assert(seq![a] + seq![b] + seq![c] == seq![a, b, c]);
}


/// The page reads the state line that the board reported last: after a
/// line whose trimmed text is not empty, the stored state is that text,
/// whatever was stored before; a blank line changes nothing.
pub proof fn law_state_line_read_back(state: Seq<char>, other: Seq<char>, line: Seq<char>)
    ensures
        trim(line).len() > 0 ==> after_line(state, line) == trim(line),
        trim(line).len() > 0 ==> after_line(state, line) == after_line(other, line),
        trim(line).len() == 0 ==> after_line(state, line) == state,
{
}

} // verus!
