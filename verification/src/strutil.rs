//! Verified string helpers: substring search, character classes, and
//! decimal formatting over `Seq<char>` views.

use vstd::prelude::*;
use vstd::string::*;

verus! {

/// True when `p` occurs in `s` starting at index `i`.
pub open spec fn is_substr_at(s: Seq<char>, p: Seq<char>, i: int) -> bool {
    0 <= i && i + p.len() <= s.len() && s.subrange(i, i + p.len() as int) == p
}

/// True when `p` occurs somewhere in `s`.
pub open spec fn contains_seq(s: Seq<char>, p: Seq<char>) -> bool {
    exists|i: int| is_substr_at(s, p, i)
}

/// Whether `p` occurs in `s` starting at `i`, by direct comparison.
fn matches_at(s: &str, p: &str, i: usize, s_len: usize, p_len: usize) -> (b: bool)
    requires
        s_len == s@.len(),
        p_len == p@.len(),
        i + p_len <= s_len,
    ensures
        b == is_substr_at(s@, p@, i as int),
{
    let mut j: usize = 0;
    while j < p_len
        invariant
            s_len == s@.len(),
            p_len == p@.len(),
            i + p_len <= s_len,
            0 <= j <= p_len,
            forall|k: int| 0 <= k < j ==> s@[i + k] == p@[k],
        decreases p_len - j,
    {
        if s.get_char(i + j) != p.get_char(j) {
            assert(s@.subrange(i as int, i + p@.len() as int)[j as int] != p@[j as int]);
            return false;
        }
        j += 1;
    }
    assert(s@.subrange(i as int, i + p@.len() as int) =~= p@);
    true
}

/// Whether `p` occurs in `s` starting at index `i`.
pub fn str_matches_at(s: &str, p: &str, i: usize) -> (b: bool)
    ensures
        b == is_substr_at(s@, p@, i as int),
{
    let s_len = s.unicode_len();
    let p_len = p.unicode_len();
    if i > s_len || p_len > s_len - i {
        assert(!is_substr_at(s@, p@, i as int));
        return false;
    }
    matches_at(s, p, i, s_len, p_len)
}

/// Substring search: does `p` occur anywhere in `s`?
pub fn str_contains(s: &str, p: &str) -> (b: bool)
    ensures
        b == contains_seq(s@, p@),
{
    let s_len = s.unicode_len();
    let p_len = p.unicode_len();
    if p_len > s_len {
        assert(forall|i: int| !is_substr_at(s@, p@, i));
        return false;
    }
    if p_len == 0 {
        assert(s@.subrange(0, 0) =~= p@);
        assert(is_substr_at(s@, p@, 0));
        return true;
    }
    let last = s_len - p_len;
    let mut i: usize = 0;
    while i <= last
        invariant
            s_len == s@.len(),
            p_len == p@.len(),
            1 <= p_len <= s_len,
            last == s_len - p_len,
            0 <= i <= last + 1,
            forall|k: int| 0 <= k < i ==> !is_substr_at(s@, p@, k),
        decreases last + 1 - i,
    {
        if matches_at(s, p, i, s_len, p_len) {
            return true;
        }
        i += 1;
    }
    assert(forall|k: int| !is_substr_at(s@, p@, k));
    false
}

/// The first position of `c` in `s`, if any.
pub fn find_char(s: &str, c: char) -> (r: Option<usize>)
    ensures
        match r {
            Some(i) => i < s@.len() && s@[i as int] == c && (forall|k: int|
                0 <= k < i ==> s@[k] != c),
            None => forall|k: int| 0 <= k < s@.len() ==> s@[k] != c,
        },
{
    let len = s.unicode_len();
    let mut i: usize = 0;
    while i < len
        invariant
            len == s@.len(),
            0 <= i <= len,
            forall|k: int| 0 <= k < i ==> s@[k] != c,
        decreases len - i,
    {
        if s.get_char(i) == c {
            return Some(i);
        }
        i += 1;
    }
    None
}

/// The last position of `c` in `s`, if any.
pub fn rfind_char(s: &str, c: char) -> (r: Option<usize>)
    ensures
        match r {
            Some(i) => i < s@.len() && s@[i as int] == c && (forall|k: int|
                i < k < s@.len() ==> s@[k] != c),
            None => forall|k: int| 0 <= k < s@.len() ==> s@[k] != c,
        },
{
    let len = s.unicode_len();
    let mut i: usize = len;
    while i > 0
        invariant
            len == s@.len(),
            0 <= i <= len,
            forall|k: int| i <= k < len ==> s@[k] != c,
        decreases i,
    {
        i -= 1;
        if s.get_char(i) == c {
            return Some(i);
        }
    }
    None
}

/// Whitespace stripped from the ends of a filename.
pub open spec fn is_trim_space(c: char) -> bool {
    c == ' ' || c == '\t' || c == '\n' || c == '\r'
}

/// The sequence with leading whitespace removed.
pub open spec fn trim_left(s: Seq<char>) -> Seq<char>
    decreases s.len(),
{
    if s.len() > 0 && is_trim_space(s[0]) {
        trim_left(s.drop_first())
    } else {
        s
    }
}

/// The sequence with trailing whitespace removed.
pub open spec fn trim_right(s: Seq<char>) -> Seq<char>
    decreases s.len(),
{
    if s.len() > 0 && is_trim_space(s.last()) {
        trim_right(s.drop_last())
    } else {
        s
    }
}

pub proof fn lemma_trim_left_prefix(s: Seq<char>, lo: int)
    requires
        0 <= lo <= s.len(),
        forall|k: int| 0 <= k < lo ==> is_trim_space(s[k]),
        lo == s.len() || !is_trim_space(s[lo]),
    ensures
        trim_left(s) == s.subrange(lo, s.len() as int),
    decreases lo,
{
    if lo == 0 {
        assert(s.subrange(0, s.len() as int) =~= s);
    } else {
        lemma_trim_left_prefix(s.drop_first(), lo - 1);
        assert(s.drop_first().subrange(lo - 1, s.drop_first().len() as int)
            =~= s.subrange(lo, s.len() as int));
    }
}

pub proof fn lemma_trim_right_suffix(s: Seq<char>, hi: int)
    requires
        0 <= hi <= s.len(),
        forall|k: int| hi <= k < s.len() ==> is_trim_space(s[k]),
        hi == 0 || !is_trim_space(s[hi - 1]),
    ensures
        trim_right(s) == s.subrange(0, hi),
    decreases s.len() - hi,
{
    if hi == s.len() {
        assert(s.subrange(0, s.len() as int) =~= s);
    } else {
        lemma_trim_right_suffix(s.drop_last(), hi);
        assert(s.drop_last().subrange(0, hi) =~= s.subrange(0, hi));
    }
}

/// Strip leading and trailing whitespace from a string.
pub fn trim_str(s: &str) -> (r: String)
    ensures
        r@ == trim_right(trim_left(s@)),
{
    let len = s.unicode_len();
    let mut lo: usize = 0;
    while lo < len && is_space_char(s.get_char(lo))
        invariant
            len == s@.len(),
            0 <= lo <= len,
            forall|k: int| 0 <= k < lo ==> is_trim_space(s@[k]),
        decreases len - lo,
    {
        lo += 1;
    }
    proof {
        lemma_trim_left_prefix(s@, lo as int);
    }
    let ghost tail: Seq<char> = s@.subrange(lo as int, len as int);
    let mut hi: usize = len;
    while hi > lo && is_space_char(s.get_char(hi - 1))
        invariant
            len == s@.len(),
            lo <= hi <= len,
            forall|k: int| hi <= k < len ==> is_trim_space(s@[k]),
        decreases hi,
    {
        hi -= 1;
    }
    proof {
        lemma_trim_right_suffix(tail, hi - lo);
        assert(tail.subrange(0, hi - lo) =~= s@.subrange(lo as int, hi as int));
    }
    let r = String::from_str(s.substring_char(lo, hi));
    r
}

/// Whether this character counts as whitespace at a string's ends.
fn is_space_char(c: char) -> (b: bool)
    ensures
        b == is_trim_space(c),
{
    c == ' ' || c == '\t' || c == '\n' || c == '\r'
}

/// Decimal digit characters.
pub open spec fn is_digit(c: char) -> bool {
    '0' <= c && c <= '9'
}

/// Numeric value of a digit character.
pub open spec fn digit_val(c: char) -> int {
    c as int - '0' as int
}

/// Value of a sequence of digit characters read in base ten.
pub open spec fn digits_val(d: Seq<char>) -> int
    decreases d.len(),
{
    if d.len() == 0 {
        0
    } else {
        digits_val(d.drop_last()) * 10 + digit_val(d.last())
    }
}

/// A sequence of digit characters denotes a nonnegative value.
pub proof fn lemma_digits_val_nonneg(d: Seq<char>)
    requires
        forall|k: int| 0 <= k < d.len() ==> is_digit(d[k]),
    ensures
        digits_val(d) >= 0,
    decreases d.len(),
{
    if d.len() > 0 {
        lemma_digits_val_nonneg(d.drop_last());
    }
}

/// A prefix of a digit sequence denotes at most the whole sequence's value.
pub proof fn lemma_digits_val_prefix(d: Seq<char>, m: int)
    requires
        0 <= m <= d.len(),
        forall|k: int| 0 <= k < d.len() ==> is_digit(d[k]),
    ensures
        digits_val(d.subrange(0, m)) <= digits_val(d),
    decreases d.len() - m,
{
    if m == d.len() {
        assert(d.subrange(0, m) =~= d);
    } else {
        lemma_digits_val_prefix(d.drop_last(), m);
        assert(d.drop_last().subrange(0, m) =~= d.subrange(0, m));
        lemma_digits_val_nonneg(d.drop_last());
    }
}

/// The digit character for a value in 0..=9.
pub open spec fn dec_digit(d: int) -> char {
    if d == 0 { '0' }
    else if d == 1 { '1' }
    else if d == 2 { '2' }
    else if d == 3 { '3' }
    else if d == 4 { '4' }
    else if d == 5 { '5' }
    else if d == 6 { '6' }
    else if d == 7 { '7' }
    else if d == 8 { '8' }
    else { '9' }
}

/// Decimal representation of a natural number, most significant digit first.
pub open spec fn dec_rep(n: nat) -> Seq<char>
    decreases n,
{
    if n < 10 {
        seq![dec_digit(n as int)]
    } else {
        dec_rep(n / 10) + seq![dec_digit((n % 10) as int)]
    }
}

/// A one-character string for a digit value.
fn digit_str(d: u64) -> (s: &'static str)
    requires
        d < 10,
    ensures
        s@ =~= seq![dec_digit(d as int)],
{
    proof {
        reveal_strlit("0");
        reveal_strlit("1");
        reveal_strlit("2");
        reveal_strlit("3");
        reveal_strlit("4");
        reveal_strlit("5");
        reveal_strlit("6");
        reveal_strlit("7");
        reveal_strlit("8");
        reveal_strlit("9");
    }
    if d == 0 { "0" }
    else if d == 1 { "1" }
    else if d == 2 { "2" }
    else if d == 3 { "3" }
    else if d == 4 { "4" }
    else if d == 5 { "5" }
    else if d == 6 { "6" }
    else if d == 7 { "7" }
    else if d == 8 { "8" }
    else { "9" }
}

/// Render an unsigned number in decimal.
pub fn u64_to_string(n: u64) -> (s: String)
    ensures
        s@ == dec_rep(n as nat),
    decreases n,
{
    if n < 10 {
        String::from_str(digit_str(n))
    } else {
        let high = u64_to_string(n / 10);
        high.concat(digit_str(n % 10))
    }
}

/// Decimal representation of an integer, with a leading minus sign when
/// it is negative.
pub open spec fn int_rep(t: int) -> Seq<char> {
    if t < 0 {
        seq!['-'] + dec_rep((-t) as nat)
    } else {
        dec_rep(t as nat)
    }
}

/// Render a signed number in decimal.
pub fn i64_to_string(n: i64) -> (s: String)
    requires
        n > i64::MIN,
    ensures
        s@ == int_rep(n as int),
{
    proof {
        reveal_strlit("-");
    }
    if n < 0 {
        let r = String::from_str("-").concat(u64_to_string((-n) as u64).as_str());
        assert(r@ =~= int_rep(n as int));
        r
    } else {
        u64_to_string(n as u64)
    }
}

/// Decimal rendering of a count of tenths, as a plain number when the
/// fractional part is zero and with one decimal place otherwise; a
/// negative count gets a leading minus sign.
pub open spec fn tenths_rep(t: int) -> Seq<char> {
    let sign: Seq<char> = if t < 0 { seq!['-'] } else { Seq::empty() };
    let mag = if t < 0 { -t } else { t };
    if mag % 10 == 0 {
        sign + dec_rep((mag / 10) as nat)
    } else {
        sign + dec_rep((mag / 10) as nat) + seq!['.'] + seq![dec_digit(mag % 10)]
    }
}

/// Render a count of tenths as a decimal number.
pub fn tenths_to_string(t: i64) -> (s: String)
    requires
        t > i64::MIN,
    ensures
        s@ == tenths_rep(t as int),
{
    proof {
        reveal_strlit("-");
        reveal_strlit("");
        reveal_strlit(".");
    }
    let mag: u64 = if t < 0 { (-t) as u64 } else { t as u64 };
    let sign = if t < 0 { String::from_str("-") } else { String::from_str("") };
    let int_part = sign.concat(u64_to_string(mag / 10).as_str());
    if mag % 10 == 0 {
        assert(int_part@ =~= tenths_rep(t as int));
        int_part
    } else {
        let r = int_part.concat(".").concat(digit_str(mag % 10));
        assert(r@ =~= tenths_rep(t as int));
        r
    }
}

/// A path below a directory: the directory, a separator, the entry name.
pub open spec fn path_join_spec(dir: Seq<char>, name: Seq<char>) -> Seq<char> {
    dir + "/"@ + name
}

/// Join a directory and an entry name with a path separator.
pub fn path_join(dir: &str, name: &str) -> (r: String)
    ensures
        r@ == path_join_spec(dir@, name@),
{
    let r = String::from_str(dir).concat("/").concat(name);
    assert(r@ =~= path_join_spec(dir@, name@));
    r
}

/// The views of a sequence of strings.
pub open spec fn views(v: Seq<String>) -> Seq<Seq<char>> {
    v.map_values(|s: String| s@)
}

/// Builds a string out of the given characters.
/// Relies on `String`'s `FromIterator<char>` impl: the collected string
/// holds exactly the characters of the iterator, in order.
#[verifier::external_body]
pub fn string_from_chars(v: &Vec<char>) -> (s: String)
    ensures
        s@ == v@,
{
    v.iter().collect()
}

} // verus!
