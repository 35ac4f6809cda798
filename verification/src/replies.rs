//! What the panels make of the text that the board sends back over the
//! serial line.
use vstd::prelude::*;
use crate::text::{decode_lossy, is_white_space, law_trim_keeps_inner_stretch, lossy_decoding, trim, trim_str};

verus! {

/// A chunk read from the board, decoded and trimmed.
pub open spec fn reply_text(chunk: Seq<u8>) -> Seq<char> {
    trim(lossy_decoding(chunk))
}

/// A non-empty text, or nothing.
pub open spec fn non_empty(t: Seq<char>) -> Option<Seq<char>> {
    if t.len() > 0 {
        Some(t)
    } else {
        None
    }
}

/// The view of an optional string.
pub open spec fn text_view(t: Option<String>) -> Option<Seq<char>> {
    match t {
        Some(s) => Some(s@),
        None => None,
    }
}

/// A chunk of bytes from the board as text: decoded (invalid UTF-8
/// replaced) and trimmed.
pub fn decode_text(chunk: &[u8]) -> (t: String)
    ensures
        t@ == reply_text(chunk@),
        vstd::utf8::valid_utf8(chunk@) ==> t@ == trim(vstd::utf8::decode_utf8(chunk@)),
{
    let raw = decode_lossy(chunk);
    trim_str(raw.as_str())
}

/// The reply in a chunk read from the board: its trimmed text, when that is
/// not empty.
pub fn decode_reply(chunk: &[u8]) -> (r: Option<String>)
    ensures
        text_view(r) == non_empty(reply_text(chunk@)),
{
    let t = decode_text(chunk);
    if t.unicode_len() > 0 {
        Some(t)
    } else {
        None
    }
}

/// A line read from the board, trimmed, when that is not empty.
pub fn accept_line(line: &str) -> (r: Option<String>)
    ensures
        text_view(r) == non_empty(trim(line@)),
{
    let t = trim_str(line);
    if t.unicode_len() > 0 {
        Some(t)
    } else {
        None
    }
}

/// The stored reply after the board sent `chunk`: its reply when there is
/// one, else the reply stored before.
pub open spec fn after_chunk(stored: Seq<char>, chunk: Seq<u8>) -> Seq<char> {
    match non_empty(reply_text(chunk)) {
        Some(t) => t,
        None => stored,
    }
}

/// The answer to the page that asks for the board's last reply.
pub struct ArduinoResponse {
    pub value: String,
}

/// The last reply of the board, as the colour panel keeps it.
pub struct ReplyBoard {
    pub value: String,
}

impl ReplyBoard {
    /// Before the board has said anything, the reply reads `"0"`.
    pub fn new() -> (b: ReplyBoard)
        ensures
            b.value@ == "0"@,
    {
        ReplyBoard { value: String::from_str("0") }
    }

    /// Takes in a chunk read from the board: a non-empty reply replaces the
    /// stored one, an empty one leaves it as it was.
    pub fn on_chunk(&mut self, chunk: &[u8])
        ensures
            final(self).value@ == after_chunk(old(self).value@, chunk@),
    {
        if let Some(t) = decode_reply(chunk) {
            self.value = t;
        }
    }

    /// The stored reply, for the page.
    pub fn get_arduino_value(&self) -> (r: ArduinoResponse)
        ensures
            r.value@ == self.value@,
    {
        ArduinoResponse { value: self.value.clone() }
    }
}


/// Reading gives back what the board said last: after a chunk with a
/// non-empty reply, the stored reply is that reply, whatever was stored
/// before; and taking in the same chunk again changes nothing.
pub proof fn law_reply_read_back(stored: Seq<char>, other: Seq<char>, chunk: Seq<u8>)
    ensures
        reply_text(chunk).len() > 0 ==> after_chunk(stored, chunk) == reply_text(chunk),
        reply_text(chunk).len() > 0 ==> after_chunk(stored, chunk) == after_chunk(other, chunk),
        reply_text(chunk).len() == 0 ==> after_chunk(stored, chunk) == stored,
        after_chunk(after_chunk(stored, chunk), chunk) == after_chunk(stored, chunk),
{
}


/// The reply in a chunk is the whole decoded text with only its leading and
/// trailing white space removed: the stretch from its first to its last
/// character that is not white space, with every character in between,
/// spaces included. For a chunk that is valid UTF-8 the decoded text is the
/// chunk's own characters.
pub proof fn law_reply_is_whole_trimmed_text(chunk: Seq<u8>)
    ensures
        exists|i: int, j: int|
            {
                &&& 0 <= i <= j <= lossy_decoding(chunk).len()
                &&& #[trigger] lossy_decoding(chunk).subrange(i, j) == reply_text(chunk)
                &&& forall|k: int| 0 <= k < i ==> is_white_space(#[trigger] lossy_decoding(chunk)[k])
                &&& forall|k: int|
                    j <= k < lossy_decoding(chunk).len() ==> is_white_space(#[trigger] lossy_decoding(chunk)[k])
                &&& i < j ==> !is_white_space(lossy_decoding(chunk)[i])
                    && !is_white_space(lossy_decoding(chunk)[j - 1])
            },
{
    law_trim_keeps_inner_stretch(lossy_decoding(chunk));
}

} // verus!
