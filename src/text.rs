//! Text helpers: lenient decoding of relay strings, comparisons and
//! decimal rendering.
use vstd::prelude::*;

verus! {

/// The text that lenient UTF-8 decoding gives for a byte sequence.
pub uninterp spec fn lossy_text(b: Seq<u8>) -> Seq<char>;

/// A string as the relay sends it: raw bytes, or `None` for a NULL string.
pub struct WString {
    pub bytes: Option<Vec<u8>>,
}

impl WString {
    /// Decoded text of the string, `None` for a NULL string.
    pub open spec fn text(&self) -> Option<Seq<char>> {
        match self.bytes {
            Some(b) => Some(lossy_text(b@)),
            None => None,
        }
    }

    /// Decoded text, with a NULL string read as the empty text.
    pub open spec fn text_or_empty(&self) -> Seq<char> {
        match self.text() {
            Some(t) => t,
            None => Seq::empty(),
        }
    }
}

/// Relies on `String::from_utf8_lossy`: invalid sequences become U+FFFD,
/// so decoding never fails and depends on the bytes alone.
#[verifier::external_body]
fn decode_lossy(b: &Vec<u8>) -> (r: String)
    ensures
        r@ == lossy_text(b@),
{
    String::from_utf8_lossy(b).into_owned()
}

/// Decodes a relay string leniently; a NULL string gives `None`.
pub fn to_utf8_lossy(ws: &WString) -> (r: Option<String>)
    ensures
        r is Some <==> ws.bytes is Some,
        r is Some ==> Some(r->0@) == ws.text(),
{
    match &ws.bytes {
        Some(b) => Some(decode_lossy(b)),
        None => None,
    }
}

/// Decoded text of a relay string, the empty string for NULL.
pub fn clean_string(ws: &WString) -> (r: String)
    ensures
        r@ == ws.text_or_empty(),
{
    match to_utf8_lossy(ws) {
        Some(s) => s,
        None => String::new(),
    }
}

/// Whether two texts hold the same characters.
pub fn same_text(a: &str, b: &str) -> (r: bool)
    ensures
        r == (a@ == b@),
{
    let n = a.unicode_len();
    if n != b.unicode_len() {
        return false;
    }
    let mut i: usize = 0;
    while i < n
        invariant
            n == a@.len(),
            n == b@.len(),
            i <= n,
            a@.subrange(0, i as int) == b@.subrange(0, i as int),
        decreases n - i,
    {
        if a.get_char(i) != b.get_char(i) {
            assert(a@[i as int] != b@[i as int]);
            return false;
        }
        assert(a@.subrange(0, i + 1) == a@.subrange(0, i as int).push(a@[i as int]));
        assert(b@.subrange(0, i + 1) == b@.subrange(0, i as int).push(b@[i as int]));
        i = i + 1;
    }
    assert(a@ == a@.subrange(0, n as int));
    assert(b@ == b@.subrange(0, n as int));
    true
}

/// Whether a relay string decodes to exactly `search_term`; NULL matches nothing.
pub fn match_string(ws: &WString, search_term: &str) -> (r: bool)
    ensures
        r == (ws.text() == Some(search_term@)),
{
    match to_utf8_lossy(ws) {
        Some(s) => same_text(s.as_str(), search_term),
        None => false,
    }
}

/// Number of `.` characters in a text.
pub open spec fn dot_count(s: Seq<char>) -> nat
    decreases s.len(),
{
    if s.len() == 0 {
        0
    } else {
        dot_count(s.drop_last()) + if s.last() == '.' { 1nat } else { 0nat }
    }
}

/// Number of pieces that splitting a text on `.` gives: one more than its dots.
pub open spec fn segment_count(s: Seq<char>) -> nat {
    dot_count(s) + 1
}

/// Counts the `.` characters of `s`.
pub fn count_dots(s: &str) -> (r: usize)
    ensures
        r == dot_count(s@),
{
    let n = s.unicode_len();
    let mut dots: usize = 0;
    let mut i: usize = 0;
    while i < n
        invariant
            n == s@.len(),
            i <= n,
            dots == dot_count(s@.subrange(0, i as int)),
            dots <= i,
        decreases n - i,
    {
        let c = s.get_char(i);
        assert(s@.subrange(0, i + 1).drop_last() == s@.subrange(0, i as int));
        if c == '.' {
            dots = dots + 1;
        }
        i = i + 1;
    }
    assert(s@.subrange(0, n as int) == s@);
    dots
}

/// The character of a decimal digit.
pub open spec fn digit_char(d: nat) -> char {
    if d == 0 { '0' }
    else if d == 1 { '1' }
    else if d == 2 { '2' }
    else if d == 3 { '3' }
    else if d == 4 { '4' }
    else if d == 5 { '5' }
    else if d == 6 { '6' }
    else if d == 7 { '7' }
    else if d == 8 { '8' }
    else { '9' }
}

/// Decimal digits of a natural number, without leading zeros.
pub open spec fn nat_decimal(n: nat) -> Seq<char>
    decreases n,
{
    if n < 10 {
        seq![digit_char(n)]
    } else {
        nat_decimal(n / 10) + seq![digit_char(n % 10)]
    }
}

/// Decimal rendering of an integer, with a leading `-` when negative.
pub open spec fn int_decimal(n: int) -> Seq<char> {
    if n < 0 {
        seq!['-'] + nat_decimal((-n) as nat)
    } else {
        nat_decimal(n as nat)
    }
}

fn digit_text(d: u32) -> (r: String)
    requires
        d < 10,
    ensures
        r@ == seq![digit_char(d as nat)],
{
    let s = if d == 0 {
        proof { reveal_strlit("0"); }
        "0"
    } else if d == 1 {
        proof { reveal_strlit("1"); }
        "1"
    } else if d == 2 {
        proof { reveal_strlit("2"); }
        "2"
    } else if d == 3 {
        proof { reveal_strlit("3"); }
        "3"
    } else if d == 4 {
        proof { reveal_strlit("4"); }
        "4"
    } else if d == 5 {
        proof { reveal_strlit("5"); }
        "5"
    } else if d == 6 {
        proof { reveal_strlit("6"); }
        "6"
    } else if d == 7 {
        proof { reveal_strlit("7"); }
        "7"
    } else if d == 8 {
        proof { reveal_strlit("8"); }
        "8"
    } else {
        proof { reveal_strlit("9"); }
        "9"
    };
    let r = String::from_str(s);
    assert(r@ =~= seq![digit_char(d as nat)]);
    r
}

/// Decimal text of a natural number.
pub fn nat_to_text(n: u64) -> (r: String)
    ensures
        r@ == nat_decimal(n as nat),
    decreases n,
{
    if n < 10 {
        digit_text(n as u32)
    } else {
        let mut s = nat_to_text(n / 10);
        let d = digit_text((n % 10) as u32);
        s.append(d.as_str());
        s
    }
}

/// Decimal text of an integer, as `{}` formatting writes it.
pub fn int_to_text(n: i32) -> (r: String)
    ensures
        r@ == int_decimal(n as int),
{
    if n < 0 {
        proof { reveal_strlit("-"); }
        let mut s = String::from_str("-");
        let m: u64 = (0i64 - n as i64) as u64;
        let digits = nat_to_text(m);
        s.append(digits.as_str());
        assert(s@ =~= seq!['-'] + nat_decimal((-(n as int)) as nat));
        s
    } else {
        nat_to_text(n as u64)
    }
}

/// The text `a` followed by `b`.
pub fn concat(a: &str, b: &str) -> (r: String)
    ensures
        r@ == a@ + b@,
{
    let mut s = String::from_str(a);
    s.append(b);
    s
}

/// The text of a boolean, as `{}` formatting writes it.
pub fn bool_to_text(b: bool) -> (r: String)
    ensures
        r@ == (if b { "true"@ } else { "false"@ }),
{
    if b {
        String::from_str("true")
    } else {
        String::from_str("false")
    }
}

} // verus!
