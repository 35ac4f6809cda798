//! Character-level text helpers: turning `&str` into characters and back,
//! Unicode white-space trimming, and splitting at a separator.
use vstd::prelude::*;

verus! {

/// `String::push`: claimed to append `ch` at the end of the string and to
/// change nothing else, as its documentation says.
pub assume_specification[ std::string::String::push ](s: &mut String, ch: char)
    ensures
        final(s)@ == old(s)@.push(ch),
;

/// The characters of `s`, in order.
pub fn chars_of(s: &str) -> (v: Vec<char>)
    ensures
        v@ == s@,
{
    let mut v: Vec<char> = Vec::new();
    for c in it: s.chars()
        invariant
            v@ == it.seq().take(it.index() as int),
    {
        v.push(c);
    }
    v
}


/// A string holding exactly the characters `v`.
pub fn string_of(v: &[char]) -> (s: String)
    ensures
        s@ == v@,
{
    let mut s = String::new();
    let mut i: usize = 0;
    while i < v.len()
        invariant
            i <= v.len(),
            s@ == v@.take(i as int),
        decreases v.len() - i,
    {
        s.push(v[i]);
        i = i + 1;
        assert(v@.take(i as int) == v@.take((i - 1) as int).push(v@[i - 1]));
    }
    assert(v@.take(v.len() as int) == v@);
    s
}

/// Unicode `White_Space`: the characters that `char::is_whitespace` and
/// `str::trim` treat as white space.
pub open spec fn is_white_space(c: char) -> bool {
    ||| '\u{9}' <= c <= '\u{d}'
    ||| c == ' '
    ||| c == '\u{85}'
    ||| c == '\u{a0}'
    ||| c == '\u{1680}'
    ||| '\u{2000}' <= c <= '\u{200a}'
    ||| c == '\u{2028}'
    ||| c == '\u{2029}'
    ||| c == '\u{202f}'
    ||| c == '\u{205f}'
    ||| c == '\u{3000}'
}

/// `s` without its leading white space.
pub open spec fn trim_start(s: Seq<char>) -> Seq<char>
    decreases s.len(),
{
    if s.len() > 0 && is_white_space(s[0]) {
        trim_start(s.drop_first())
    } else {
        s
    }
}

/// `s` without its trailing white space.
pub open spec fn trim_end(s: Seq<char>) -> Seq<char>
    decreases s.len(),
{
    if s.len() > 0 && is_white_space(s.last()) {
        trim_end(s.drop_last())
    } else {
        s
    }
}

/// `s` without leading and trailing white space, as `str::trim` gives it.
pub open spec fn trim(s: Seq<char>) -> Seq<char> {
    trim_start(trim_end(s))
}

/// Where trimming the end stops: what is kept is `s.take(j)`, everything
/// after it is white space, and the last kept character is not.
proof fn lemma_trim_end_bound(s: Seq<char>) -> (j: int)
    ensures
        0 <= j <= s.len(),
        trim_end(s) == s.take(j),
        forall|k: int| j <= k < s.len() ==> is_white_space(#[trigger] s[k]),
        j > 0 ==> !is_white_space(s[j - 1]),
    decreases s.len(),
{
    if s.len() > 0 && is_white_space(s.last()) {
        let j = lemma_trim_end_bound(s.drop_last());
        assert(s.drop_last().take(j) == s.take(j));
        assert forall|k: int| j <= k < s.len() implies is_white_space(#[trigger] s[k]) by {
            if k < s.len() - 1 {
                assert(s.drop_last()[k] == s[k]);
            }
        }
        if j > 0 {
            assert(s.drop_last()[j - 1] == s[j - 1]);
        }
        j
    } else {
        assert(s.take(s.len() as int) == s);
        s.len() as int
    }
}

/// Where trimming the start stops: what is kept is `s.skip(i)`, everything
/// before it is white space, and the first kept character is not.
proof fn lemma_trim_start_bound(s: Seq<char>) -> (i: int)
    ensures
        0 <= i <= s.len(),
        trim_start(s) == s.skip(i),
        forall|k: int| 0 <= k < i ==> is_white_space(#[trigger] s[k]),
        i < s.len() ==> !is_white_space(s[i]),
    decreases s.len(),
{
    if s.len() > 0 && is_white_space(s[0]) {
        let i = lemma_trim_start_bound(s.drop_first());
        assert(s.drop_first().skip(i) == s.skip(i + 1));
        assert forall|k: int| 0 <= k < i + 1 implies is_white_space(#[trigger] s[k]) by {
            if k > 0 {
                assert(s.drop_first()[k - 1] == s[k]);
            }
        }
        if i + 1 < s.len() {
            assert(s.drop_first()[i] == s[i + 1]);
        }
        i + 1
    } else {
        assert(s.skip(0) == s);
        0
    }
}

/// Trimming keeps exactly the stretch of `s` from its first to its last
/// character that is not white space: all that comes before and after it
/// is white space, the stretch neither starts nor ends with white space,
/// and everything inside it, spaces included, is kept.
pub proof fn law_trim_keeps_inner_stretch(s: Seq<char>)
    ensures
        exists|i: int, j: int|
            {
                &&& 0 <= i <= j <= s.len()
                &&& #[trigger] s.subrange(i, j) == trim(s)
                &&& forall|k: int| 0 <= k < i ==> is_white_space(#[trigger] s[k])
                &&& forall|k: int| j <= k < s.len() ==> is_white_space(#[trigger] s[k])
                &&& i < j ==> !is_white_space(s[i]) && !is_white_space(s[j - 1])
            },
{
    let j = lemma_trim_end_bound(s);
    let t = s.take(j);
    let i = lemma_trim_start_bound(t);
    assert(t.skip(i) == s.subrange(i, j));
    assert forall|k: int| 0 <= k < i implies is_white_space(#[trigger] s[k]) by {
        assert(t[k] == s[k]);
    }
    if i < j {
        assert(t[i] == s[i]);
    }
    assert(s.subrange(i, j) == trim(s));
}

/// Decides `is_white_space`.
pub fn white_space(c: char) -> (b: bool)
    ensures
        b == is_white_space(c),
{
    ('\u{9}' <= c && c <= '\u{d}') || c == ' ' || c == '\u{85}' || c == '\u{a0}'
        || c == '\u{1680}' || ('\u{2000}' <= c && c <= '\u{200a}') || c == '\u{2028}'
        || c == '\u{2029}' || c == '\u{202f}' || c == '\u{205f}' || c == '\u{3000}'
}

/// The characters `v` with leading and trailing white space removed.
pub fn trimmed(v: &[char]) -> (r: Vec<char>)
    ensures
        r@ == trim(v@),
{
    let mut j: usize = v.len();
    assert(v@.take(j as int) == v@);
    while j > 0 && white_space(v[j - 1])
        invariant
            j <= v.len(),
            trim_end(v@) == trim_end(v@.take(j as int)),
        decreases j,
    {
        assert(v@.take(j as int).drop_last() == v@.take(j - 1));
        j = j - 1;
    }
    assert(trim_end(v@.take(j as int)) == v@.take(j as int));
    let mut i: usize = 0;
    while i < j && white_space(v[i])
        invariant
            i <= j <= v.len(),
            trim(v@) == trim_start(v@.subrange(i as int, j as int)),
        decreases j - i,
    {
        assert(v@.subrange(i as int, j as int).drop_first() == v@.subrange(i + 1, j as int));
        i = i + 1;
    }
    let mut r: Vec<char> = Vec::new();
    let mut k: usize = i;
    while k < j
        invariant
            i <= k <= j <= v.len(),
            r@ == v@.subrange(i as int, k as int),
        decreases j - k,
    {
        r.push(v[k]);
        k = k + 1;
        assert(r@ == v@.subrange(i as int, k as int));
    }
    r
}

/// The text `s` with leading and trailing white space removed.
pub fn trim_str(s: &str) -> (r: String)
    ensures
        r@ == trim(s@),
{
    let v = chars_of(s);
    let t = trimmed(v.as_slice());
    string_of(t.as_slice())
}


/// The fields of `s` between occurrences of `sep`, as `str::split` yields
/// them: `n` separators give `n + 1` fields, empty ones included.
pub open spec fn split_on(s: Seq<char>, sep: char) -> Seq<Seq<char>>
    decreases s.len(),
{
    if s.len() == 0 {
        seq![Seq::empty()]
    } else {
        let rest = split_on(s.drop_last(), sep);
        if s.last() == sep {
            rest.push(Seq::empty())
        } else {
            rest.update(rest.len() - 1, rest.last().push(s.last()))
        }
    }
}

/// There is always at least one field.
pub proof fn lemma_split_on_nonempty(s: Seq<char>, sep: char)
    ensures
        split_on(s, sep).len() >= 1,
    decreases s.len(),
{
    if s.len() > 0 {
        lemma_split_on_nonempty(s.drop_last(), sep);
    }
}

/// A text without the separator is a single field.
pub proof fn lemma_split_on_no_sep(s: Seq<char>, sep: char)
    requires
        !s.contains(sep),
    ensures
        split_on(s, sep) == seq![s],
    decreases s.len(),
{
    if s.len() > 0 {
        assert(!s.drop_last().contains(sep)) by {
            if s.drop_last().contains(sep) {
                let k = choose|k: int| 0 <= k < s.drop_last().len() && s.drop_last()[k] == sep;
                assert(s[k] == sep);
            }
        }
        assert(s[s.len() - 1] != sep);
        lemma_split_on_no_sep(s.drop_last(), sep);
        assert(s.drop_last().push(s.last()) == s);
        assert(seq![s.drop_last()].update(0, s) == seq![s]);
    } else {
        assert(s == Seq::<char>::empty());
    }
}

/// Splitting at a separator splits the two sides apart.
pub proof fn lemma_split_on_concat(p: Seq<char>, q: Seq<char>, sep: char)
    ensures
        split_on(p + seq![sep] + q, sep) == split_on(p, sep) + split_on(q, sep),
    decreases q.len(),
{
    let x = p + seq![sep] + q;
    if q.len() == 0 {
        assert(x.drop_last() == p);
        assert(split_on(q, sep) == seq![Seq::<char>::empty()]);
    } else {
        let q1 = q.drop_last();
        lemma_split_on_concat(p, q1, sep);
        lemma_split_on_nonempty(q1, sep);
        lemma_split_on_nonempty(p, sep);
        assert(x.drop_last() == p + seq![sep] + q1);
        assert(x.last() == q.last());
    }
}

/// The fields joined back together, with `sep` between neighbours.
pub open spec fn join_with(fields: Seq<Seq<char>>, sep: char) -> Seq<char>
    decreases fields.len(),
{
    if fields.len() <= 1 {
        if fields.len() == 1 {
            fields[0]
        } else {
            Seq::empty()
        }
    } else {
        join_with(fields.drop_last(), sep) + seq![sep] + fields.last()
    }
}

/// Adding a character to the last field adds it to the end of the join.
proof fn lemma_join_extend_last(fields: Seq<Seq<char>>, sep: char, c: char)
    requires
        fields.len() >= 1,
    ensures
        join_with(fields.update(fields.len() - 1, fields.last().push(c)), sep) == join_with(fields, sep).push(c),
{
    let g = fields.update(fields.len() - 1, fields.last().push(c));
    if fields.len() > 1 {
        assert(g.drop_last() == fields.drop_last());
    }
}

/// Splitting loses nothing and finds every separator: no field holds the
/// separator, there is one field more than there are separators, and
/// joining the fields with the separator gives back the text.
pub proof fn law_split_rejoins(s: Seq<char>, sep: char)
    ensures
        join_with(split_on(s, sep), sep) == s,
        forall|i: int| 0 <= i < split_on(s, sep).len() ==> !(#[trigger] split_on(s, sep)[i]).contains(sep),
    decreases s.len(),
{
    lemma_split_on_nonempty(s, sep);
    if s.len() == 0 {
        let f = split_on(s, sep);
        assert(f[0] == Seq::<char>::empty());
        assert(s == Seq::<char>::empty());
        assert forall|i: int| 0 <= i < f.len() implies !(#[trigger] f[i]).contains(sep) by {
            assert(f[i] == Seq::<char>::empty());
        }
    } else {
        let p = s.drop_last();
        let c = s.last();
        law_split_rejoins(p, sep);
        lemma_split_on_nonempty(p, sep);
        let rest = split_on(p, sep);
        let f = split_on(s, sep);
        if c == sep {
            assert(f == rest.push(Seq::<char>::empty()));
            assert(f.drop_last() == rest);
            assert(join_with(f, sep) == join_with(rest, sep) + seq![sep] + Seq::<char>::empty());
            assert(s == p.push(c));
            assert forall|i: int| 0 <= i < f.len() implies !(#[trigger] f[i]).contains(sep) by {
                if i < rest.len() {
                    assert(f[i] == rest[i]);
                } else {
                    assert(f[i] == Seq::<char>::empty());
                }
            }
        } else {
            lemma_join_extend_last(rest, sep, c);
            assert(s == p.push(c));
            assert forall|i: int| 0 <= i < f.len() implies !(#[trigger] f[i]).contains(sep) by {
                if i < rest.len() - 1 {
                    assert(f[i] == rest[i]);
                } else {
                    let l = rest.last();
                    assert(f[i] == l.push(c));
                    assert(!rest[rest.len() - 1].contains(sep));
                    if l.push(c).contains(sep) {
                        let k = choose|k: int| 0 <= k < l.push(c).len() && l.push(c)[k] == sep;
                        if k < l.len() {
                            assert(l[k] == sep);
                        }
                    }
                }
            }
        }
    }
}

/// The views of a list of character vectors.
pub open spec fn views_of(v: Seq<Vec<char>>) -> Seq<Seq<char>> {
    v.map_values(|f: Vec<char>| f@)
}

/// The fields of `v` separated by `sep`.
pub fn split_chars(v: &[char], sep: char) -> (r: Vec<Vec<char>>)
    ensures
        views_of(r@) == split_on(v@, sep),
{
    let mut done: Vec<Vec<char>> = Vec::new();
    let mut cur: Vec<char> = Vec::new();
    let mut i: usize = 0;
    while i < v.len()
        invariant
            i <= v.len(),
            views_of(done@).push(cur@) == split_on(v@.take(i as int), sep),
        decreases v.len() - i,
    {
        let c = v[i];
        proof {
            assert(v@.take(i + 1).drop_last() == v@.take(i as int));
            lemma_split_on_nonempty(v@.take(i as int), sep);
        }
        if c == sep {
            let ghost old_cur = cur@;
            done.push(cur);
            cur = Vec::new();
            assert(views_of(done@) == views_of(done@.drop_last()).push(old_cur));
        } else {
            cur.push(c);
        }
        i = i + 1;
    }
    assert(v@.take(v.len() as int) == v@);
    let ghost old_done = done@;
    done.push(cur);
    assert(views_of(done@) == views_of(old_done).push(cur@));
    done
}


/// What `String::from_utf8_lossy` makes of `bytes`.
pub uninterp spec fn lossy_decoding(bytes: Seq<u8>) -> Seq<char>;

/// Calls `String::from_utf8_lossy`, which decodes UTF-8 and puts U+FFFD in
/// place of each invalid sequence. Claimed: the result depends on the bytes
/// alone, and bytes that are valid UTF-8 decode to exactly their characters
/// (the function then hands the text back as it is). How invalid sequences
/// are replaced is left unsaid.
#[verifier::external_body]
pub(crate) fn decode_lossy(bytes: &[u8]) -> (s: String)
    ensures
        s@ == lossy_decoding(bytes@),
        vstd::utf8::valid_utf8(bytes@) ==> s@ == vstd::utf8::decode_utf8(bytes@),
{
    String::from_utf8_lossy(bytes).into_owned()
}

} // verus!
