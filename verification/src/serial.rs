//! The messages that the slider panels send to the board over the serial
//! line, and the decision of when to send one.
use vstd::prelude::*;

verus! {

/// The ASCII decimal digits of `n`, most significant first, with no
/// leading zero.
pub open spec fn decimal(n: nat) -> Seq<u8>
    decreases n,
{
    if n < 10 {
        seq![(48 + n) as u8]
    } else {
        decimal(n / 10).push((48 + n % 10) as u8)
    }
}

/// ASCII `,`.
pub open spec fn comma() -> u8 {
    44
}

/// ASCII line feed.
pub open spec fn newline() -> u8 {
    10
}

/// The line sent for a slider value: its decimal digits and a line feed.
pub open spec fn value_line(v: u8) -> Seq<u8> {
    decimal(v as nat).push(newline())
}

/// The line sent for a colour: the three channels in decimal, separated by
/// commas, then a line feed.
pub open spec fn rgb_line(red: u8, green: u8, blue: u8) -> Seq<u8> {
    decimal(red as nat) + seq![comma()] + decimal(green as nat) + seq![comma()] + decimal(
        blue as nat,
    ) + seq![newline()]
}

/// Appends the decimal digits of `v` to `out`.
pub fn push_decimal(out: &mut Vec<u8>, v: u8)
    ensures
        final(out)@ == old(out)@ + decimal(v as nat),
{
    proof {
        reveal_with_fuel(decimal, 3);
    }
    if v >= 100 {
        out.push(48 + v / 100);
        out.push(48 + (v / 10) % 10);
        out.push(48 + v % 10);
        assert(decimal(v as nat) == seq![(48 + v / 100) as u8, (48 + (v / 10) % 10) as u8, (48 + v % 10) as u8]);
    } else if v >= 10 {
        out.push(48 + v / 10);
        out.push(48 + v % 10);
        assert(decimal(v as nat) == seq![(48 + v / 10) as u8, (48 + v % 10) as u8]);
    } else {
        out.push(48 + v);
    }
}


/// The form that the slider page posts: one brightness value.
pub struct SliderData {
    pub value: u8,
}

/// The form that the colour page posts: one value per channel.
#[derive(Clone, Copy, PartialEq, Eq, Structural)]
pub struct RgbData {
    pub red: u8,
    pub green: u8,
    pub blue: u8,
}

/// The bytes written to the board for a slider value, `"{value}\n"`.
pub fn value_message(v: u8) -> (m: Vec<u8>)
    ensures
        m@ == value_line(v),
{
    let mut m: Vec<u8> = Vec::new();
    push_decimal(&mut m, v);
    m.push(10);
    assert(m@ == value_line(v));
    m
}

/// The bytes written to the board for a colour, `"{red},{green},{blue}\n"`.
pub fn rgb_message(c: RgbData) -> (m: Vec<u8>)
    ensures
        m@ == rgb_line(c.red, c.green, c.blue),
{
    let mut m: Vec<u8> = Vec::new();
    push_decimal(&mut m, c.red);
    m.push(44);
    push_decimal(&mut m, c.green);
    m.push(44);
    push_decimal(&mut m, c.blue);
    m.push(10);
    assert(m@ == rgb_line(c.red, c.green, c.blue));
    m
}

/// What a poll sends: the line for `current` when it differs from what was
/// sent last, nothing otherwise.
pub open spec fn value_poll(last_sent: u8, current: u8) -> Option<Seq<u8>> {
    if current != last_sent {
        Some(value_line(current))
    } else {
        None
    }
}

/// The colour counterpart of `value_poll`.
pub open spec fn rgb_poll(last_sent: RgbData, current: RgbData) -> Option<Seq<u8>> {
    if current != last_sent {
        Some(rgb_line(current.red, current.green, current.blue))
    } else {
        None
    }
}

/// The view of an optional message.
pub open spec fn message_view(m: Option<Vec<u8>>) -> Option<Seq<u8>> {
    match m {
        Some(v) => Some(v@),
        None => None,
    }
}

/// The sending side of the slider link: remembers the value that went out
/// last, so that a value is written to the board only when it changes.
pub struct ValueSender {
    pub last_sent: u8,
}

impl ValueSender {
    /// A sender that has sent nothing yet. It starts from 255, so that the
    /// first value that differs from it goes out.
    pub fn new() -> (s: ValueSender)
        ensures
            s.last_sent == 255,
    {
        ValueSender { last_sent: 255 }
    }

    /// Looks at the current value; returns the line to write when it differs
    /// from the last one sent, and then remembers it.
    pub fn poll(&mut self, current: u8) -> (m: Option<Vec<u8>>)
        ensures
            message_view(m) == value_poll(old(self).last_sent, current),
            final(self).last_sent == current,
    {
        if current != self.last_sent {
            self.last_sent = current;
            Some(value_message(current))
        } else {
            None
        }
    }
}

/// The sending side of the colour link.
pub struct RgbSender {
    pub last_sent: RgbData,
}

impl RgbSender {
    /// A sender that has sent nothing yet; it starts from white, (255, 255, 255).
    pub fn new() -> (s: RgbSender)
        ensures
            s.last_sent == (RgbData { red: 255, green: 255, blue: 255 }),
    {
        RgbSender { last_sent: RgbData { red: 255, green: 255, blue: 255 } }
    }

    /// Looks at the current colour; returns the line to write when it
    /// differs from the last one sent, and then remembers it.
    pub fn poll(&mut self, current: RgbData) -> (m: Option<Vec<u8>>)
        ensures
            message_view(m) == rgb_poll(old(self).last_sent, current),
            final(self).last_sent == current,
    {
        if current != self.last_sent {
            self.last_sent = current;
            Some(rgb_message(current))
        } else {
            None
        }
    }
}


/// Every byte of a decimal is an ASCII digit, and there is at least one.
pub proof fn lemma_decimal_digits(n: nat)
    ensures
        decimal(n).len() >= 1,
        forall|i: int| 0 <= i < decimal(n).len() ==> 48 <= #[trigger] decimal(n)[i] < 58,
    decreases n,
{
    if n >= 10 {
        lemma_decimal_digits(n / 10);
    }
}

/// Different numbers have different decimals.
pub proof fn lemma_decimal_injective(a: nat, b: nat)
    requires
        decimal(a) == decimal(b),
    ensures
        a == b,
    decreases a,
{
    lemma_decimal_digits(a);
    lemma_decimal_digits(b);
    if a >= 10 && b >= 10 {
        assert(decimal(a).drop_last() == decimal(a / 10));
        assert(decimal(b).drop_last() == decimal(b / 10));
        lemma_decimal_injective(a / 10, b / 10);
        assert(decimal(a).last() == (48 + a % 10) as u8);
        assert(decimal(b).last() == (48 + b % 10) as u8);
        assert(a % 10 == b % 10);
    } else if a >= 10 {
        lemma_decimal_digits(a / 10);
        assert(decimal(a).len() >= 2);
    } else if b >= 10 {
        lemma_decimal_digits(b / 10);
        assert(decimal(b).len() >= 2);
    } else {
        assert(decimal(a)[0] == (48 + a) as u8);
        assert(decimal(b)[0] == (48 + b) as u8);
    }
}

/// Two decimals each followed by the same non-digit byte and any rest are
/// equal only when the decimals are.
proof fn lemma_decimal_prefix(a: nat, b: nat, sep: u8, ra: Seq<u8>, rb: Seq<u8>)
    requires
        !(48 <= sep < 58),
        decimal(a) + seq![sep] + ra == decimal(b) + seq![sep] + rb,
    ensures
        a == b,
        ra == rb,
{
    lemma_decimal_digits(a);
    lemma_decimal_digits(b);
    let x = decimal(a) + seq![sep] + ra;
    let la = decimal(a).len();
    let lb = decimal(b).len();
    if la < lb {
        assert(x[la as int] == sep);
        assert((decimal(b) + seq![sep] + rb)[la as int] == decimal(b)[la as int]);
    } else if lb < la {
        assert((decimal(b) + seq![sep] + rb)[lb as int] == sep);
        assert(x[lb as int] == decimal(a)[lb as int]);
    } else {
        assert(decimal(a) == x.take(la as int));
        assert(decimal(b) == (decimal(b) + seq![sep] + rb).take(lb as int));
        lemma_decimal_injective(a, b);
        assert(ra == x.skip(la as int + 1));
        assert(rb == (decimal(b) + seq![sep] + rb).skip(lb as int + 1));
    }
}

/// Different slider values are sent as different lines, so the board can
/// always tell which value was meant.
pub proof fn law_value_lines_distinct(a: u8, b: u8)
    requires
        a != b,
    ensures
        value_line(a) != value_line(b),
{
    if value_line(a) == value_line(b) {
        assert(value_line(a) == decimal(a as nat) + seq![newline()] + Seq::<u8>::empty());
        assert(value_line(b) == decimal(b as nat) + seq![newline()] + Seq::<u8>::empty());
        lemma_decimal_prefix(a as nat, b as nat, newline(), Seq::empty(), Seq::empty());
    }
}

/// Different colours are sent as different lines.
pub proof fn law_rgb_lines_distinct(a: RgbData, b: RgbData)
    requires
        a != b,
    ensures
        rgb_line(a.red, a.green, a.blue) != rgb_line(b.red, b.green, b.blue),
{
    if rgb_line(a.red, a.green, a.blue) == rgb_line(b.red, b.green, b.blue) {
        let ta = decimal(a.green as nat) + seq![comma()] + decimal(a.blue as nat) + seq![newline()];
        let tb = decimal(b.green as nat) + seq![comma()] + decimal(b.blue as nat) + seq![newline()];
        assert(rgb_line(a.red, a.green, a.blue) == decimal(a.red as nat) + seq![comma()] + ta);
        assert(rgb_line(b.red, b.green, b.blue) == decimal(b.red as nat) + seq![comma()] + tb);
        lemma_decimal_prefix(a.red as nat, b.red as nat, comma(), ta, tb);
        assert(ta == decimal(a.green as nat) + seq![comma()] + (decimal(a.blue as nat) + seq![newline()]));
        assert(tb == decimal(b.green as nat) + seq![comma()] + (decimal(b.blue as nat) + seq![newline()]));
        lemma_decimal_prefix(a.green as nat, b.green as nat, comma(), decimal(a.blue as nat) + seq![newline()], decimal(b.blue as nat) + seq![newline()]);
        assert(decimal(a.blue as nat) + seq![newline()] == decimal(a.blue as nat) + seq![newline()] + Seq::<u8>::empty());
        assert(decimal(b.blue as nat) + seq![newline()] == decimal(b.blue as nat) + seq![newline()] + Seq::<u8>::empty());
        lemma_decimal_prefix(a.blue as nat, b.blue as nat, newline(), Seq::empty(), Seq::empty());
    }
}

/// Polling twice with an unchanged value sends at most once: after any
/// poll, a second one with the same value sends nothing.
pub proof fn law_repeat_poll_sends_nothing(last_sent: u8, current: u8)
    ensures
        value_poll(current, current) is None,
        current != last_sent ==> value_poll(last_sent, current) is Some,
{
}

/// Polling twice with an unchanged colour sends at most once.
pub proof fn law_repeat_rgb_poll_sends_nothing(last_sent: RgbData, current: RgbData)
    ensures
        rgb_poll(current, current) is None,
        current != last_sent ==> rgb_poll(last_sent, current) is Some,
{
}


/// The number that a string of ASCII decimal digits reads as.
pub open spec fn digits_value(s: Seq<u8>) -> nat
    decreases s.len(),
{
    if s.len() == 0 {
        0
    } else {
        digits_value(s.drop_last()) * 10 + (s.last() - 48) as nat
    }
}

/// Whether `s` is a non-empty string of ASCII decimal digits (bytes 48 to
/// 57) with no superfluous leading zero.
pub open spec fn is_numeral(s: Seq<u8>) -> bool {
    &&& s.len() >= 1
    &&& forall|i: int| 0 <= i < s.len() ==> 48 <= #[trigger] s[i] < 58
    &&& (s.len() > 1 ==> s[0] != 48)
}

/// A decimal reads back as the number it was made from.
pub proof fn lemma_decimal_reads_back(n: nat)
    ensures
        is_numeral(decimal(n)),
        digits_value(decimal(n)) == n,
    decreases n,
{
    lemma_decimal_digits(n);
    if n >= 10 {
        let m = n / 10;
        lemma_decimal_reads_back(m);
        lemma_decimal_digits(m);
        let d = decimal(n);
        assert(d.drop_last() == decimal(m));
        let r: int = (n % 10) as int;
        assert(0 <= r < 10);
        assert(d.last() == (48 + r) as u8);
        assert(d.last() as int == 48 + r);
        assert(digits_value(d) == digits_value(d.drop_last()) * 10 + (d.last() - 48) as nat);
        assert(digits_value(d) == m * 10 + r);
        assert(d[0] == decimal(m)[0]);
        if m < 10 {
            assert(decimal(m)[0] == (48 + m) as u8);
            assert(d[0] != 48);
        } else {
            lemma_decimal_digits(m / 10);
            assert(decimal(m).len() > 1);
            assert(d[0] != 48);
        }
    } else {
        let d = decimal(n);
        assert(d[0] == (48 + n) as u8);
        assert(d[0] as int == 48 + n);
        assert(d.len() == 1);
        assert(d.drop_last() == Seq::<u8>::empty());
        assert(digits_value(d) == digits_value(d.drop_last()) * 10 + (d.last() - 48) as nat);
    }
}

/// The line for a slider value is a numeral that reads as that very value,
/// followed by a line feed (byte 10) and nothing else.
pub proof fn law_value_line_reads_back(v: u8)
    ensures
        value_line(v).len() >= 2,
        value_line(v).last() == 10,
        is_numeral(value_line(v).drop_last()),
        digits_value(value_line(v).drop_last()) == v,
{
    lemma_decimal_reads_back(v as nat);
    assert(value_line(v).drop_last() == decimal(v as nat));
}

/// A poll that sends, sends the current value itself: a numeral that reads
/// as `current`, then a line feed. It sends exactly when `current` differs
/// from the value sent last.
pub proof fn law_value_poll_sends_current(last_sent: u8, current: u8)
    ensures
        value_poll(last_sent, current) is Some <==> current != last_sent,
        value_poll(last_sent, current) matches Some(m) ==> {
            &&& m.len() >= 2
            &&& m.last() == 10
            &&& is_numeral(m.drop_last())
            &&& digits_value(m.drop_last()) == current
        },
{
    law_value_line_reads_back(current);
}

/// The line for a colour is three numerals separated by commas (byte 44)
/// and closed by a line feed (byte 10), reading as red, green and blue, in
/// that order.
pub proof fn law_rgb_line_reads_back(c: RgbData)
    ensures
        exists|a: Seq<u8>, g: Seq<u8>, b: Seq<u8>|
            {
                &&& rgb_line(c.red, c.green, c.blue) == a + seq![44u8] + g + seq![44u8] + b + seq![10u8]
                &&& is_numeral(a) && is_numeral(g) && is_numeral(b)
                &&& digits_value(a) == c.red
                &&& digits_value(g) == c.green
                &&& digits_value(b) == c.blue
            },
{
    lemma_decimal_reads_back(c.red as nat);
    lemma_decimal_reads_back(c.green as nat);
    lemma_decimal_reads_back(c.blue as nat);
    let a = decimal(c.red as nat);
    let g = decimal(c.green as nat);
    let b = decimal(c.blue as nat);
    assert(rgb_line(c.red, c.green, c.blue) == a + seq![44u8] + g + seq![44u8] + b + seq![10u8]);
}

/// A colour poll that sends, sends the current colour, channels in red,
/// green, blue order; it sends exactly when the colour differs from the one
/// sent last.
pub proof fn law_rgb_poll_sends_current(last_sent: RgbData, current: RgbData)
    ensures
        rgb_poll(last_sent, current) is Some <==> current != last_sent,
        rgb_poll(last_sent, current) matches Some(m) ==> exists|a: Seq<u8>, g: Seq<u8>, b: Seq<u8>|
            {
                &&& m == a + seq![44u8] + g + seq![44u8] + b + seq![10u8]
                &&& is_numeral(a) && is_numeral(g) && is_numeral(b)
                &&& digits_value(a) == current.red
                &&& digits_value(g) == current.green
                &&& digits_value(b) == current.blue
            },
{
    law_rgb_line_reads_back(current);
}

} // verus!
