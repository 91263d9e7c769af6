//! Character and string helpers shared by the rest of the library: Unicode
//! whitespace trimming, ASCII classification and case mapping, and decimal
//! rendering of numbers.

use vstd::prelude::*;

verus! {

/// Appends one character to a `String` (`String::push`).
///
/// Trusted: the contract says that the string's characters after the call
/// are those before it followed by `c`, as std documents.
#[verifier::external_body]
pub(crate) fn push_char(s: &mut String, c: char)
    ensures
        final(s)@ == old(s)@.push(c),
{
    s.push(c);
}

/// The characters of `s`, in order.
pub fn chars_of(s: &str) -> (out: Vec<char>)
    ensures
        out@ == s@,
{
    let mut out: Vec<char> = Vec::new();
    for c in it: s.chars()
        invariant
            out@ == it.seq().take(it.index()),
    {
        out.push(c);
    }
    out
}

/// Appends `chars[lo..hi]` to `s`.
pub fn push_chars(s: &mut String, chars: &Vec<char>, lo: usize, hi: usize)
    requires
        lo <= hi <= chars@.len(),
    ensures
        final(s)@ == old(s)@ + chars@.subrange(lo as int, hi as int),
{
    let mut i = lo;
    while i < hi
        invariant
            lo <= i <= hi <= chars@.len(),
            s@ == old(s)@ + chars@.subrange(lo as int, i as int),
        decreases hi - i,
    {
        push_char(s, chars[i]);
        assert(chars@.subrange(lo as int, i + 1) == chars@.subrange(lo as int, i as int).push(
            chars@[i as int],
        ));
        i = i + 1;
    }
}

/// A `String` holding exactly `chars[lo..hi]`.
pub fn string_of(chars: &Vec<char>, lo: usize, hi: usize) -> (out: String)
    requires
        lo <= hi <= chars@.len(),
    ensures
        out@ == chars@.subrange(lo as int, hi as int),
{
    let mut out = String::new();
    push_chars(&mut out, chars, lo, hi);
    out
}

/// Characters with the Unicode `White_Space` property, the set that
/// `char::is_whitespace` and `str::trim` go by.
pub open spec fn is_white_space(c: char) -> bool {
    let u = c as u32;
    ||| 0x09 <= u <= 0x0d
    ||| u == 0x20
    ||| u == 0x85
    ||| u == 0xa0
    ||| u == 0x1680
    ||| 0x2000 <= u <= 0x200a
    ||| u == 0x2028
    ||| u == 0x2029
    ||| u == 0x202f
    ||| u == 0x205f
    ||| u == 0x3000
}

/// Whether `c` is Unicode whitespace.
pub fn is_whitespace(c: char) -> (b: bool)
    ensures
        b == is_white_space(c),
{
    let u = c as u32;
    (0x09 <= u && u <= 0x0d) || u == 0x20 || u == 0x85 || u == 0xa0 || u == 0x1680 || (0x2000
        <= u && u <= 0x200a) || u == 0x2028 || u == 0x2029 || u == 0x202f || u == 0x205f || u
        == 0x3000
}

/// `s` without its leading whitespace.
pub open spec fn trim_start(s: Seq<char>) -> Seq<char>
    decreases s.len(),
{
    if s.len() > 0 && is_white_space(s[0]) {
        trim_start(s.drop_first())
    } else {
        s
    }
}

/// `s` without its trailing whitespace.
pub open spec fn trim_end(s: Seq<char>) -> Seq<char>
    decreases s.len(),
{
    if s.len() > 0 && is_white_space(s.last()) {
        trim_end(s.drop_last())
    } else {
        s
    }
}

/// `s` without leading and trailing whitespace, as `str::trim` gives it.
pub open spec fn trimmed(s: Seq<char>) -> Seq<char> {
    trim_end(trim_start(s))
}

/// The bounds `(lo, hi)` of the trimmed part of `chars`.
pub fn trim_bounds(chars: &Vec<char>) -> (r: (usize, usize))
    ensures
        r.0 <= r.1 <= chars@.len(),
        chars@.subrange(r.0 as int, r.1 as int) == trimmed(chars@),
{
    let n = chars.len();
    let mut lo: usize = 0;
    assert(chars@.subrange(0, n as int) == chars@);
    while lo < n && is_whitespace(chars[lo])
        invariant
            lo <= n == chars@.len(),
            trim_start(chars@) == trim_start(chars@.subrange(lo as int, n as int)),
        decreases n - lo,
    {
        assert(chars@.subrange(lo as int, n as int).drop_first() == chars@.subrange(
            lo + 1,
            n as int,
        ));
        lo = lo + 1;
    }
    let mut hi: usize = n;
    while hi > lo && is_whitespace(chars[hi - 1])
        invariant
            lo <= hi <= n == chars@.len(),
            trim_start(chars@) == chars@.subrange(lo as int, n as int),
            trimmed(chars@) == trim_end(chars@.subrange(lo as int, hi as int)),
        decreases hi,
    {
        assert(chars@.subrange(lo as int, hi as int).drop_last() == chars@.subrange(
            lo as int,
            hi - 1,
        ));
        hi = hi - 1;
    }
    (lo, hi)
}

/// `s` without leading and trailing Unicode whitespace (`str::trim`).
pub fn trim(s: &str) -> (out: String)
    ensures
        out@ == trimmed(s@),
{
    let chars = chars_of(s);
    let (lo, hi) = trim_bounds(&chars);
    string_of(&chars, lo, hi)
}

/// Whether `s` holds nothing once trimmed: the test `s.trim().is_empty()`.
pub fn is_blank(s: &str) -> (b: bool)
    ensures
        b == (trimmed(s@).len() == 0),
{
    let chars = chars_of(s);
    let (lo, hi) = trim_bounds(&chars);
    lo == hi
}

/// ASCII letters and digits (`char::is_ascii_alphanumeric`).
pub open spec fn is_ascii_alnum(c: char) -> bool {
    ('0' <= c <= '9') || ('A' <= c <= 'Z') || ('a' <= c <= 'z')
}

/// Whether `c` is an ASCII letter or digit.
pub fn is_ascii_alphanumeric(c: char) -> (b: bool)
    ensures
        b == is_ascii_alnum(c),
{
    ('0' <= c && c <= '9') || ('A' <= c && c <= 'Z') || ('a' <= c && c <= 'z')
}

/// `c` with an ASCII lower-case letter mapped to upper case
/// (`char::to_ascii_uppercase`).
pub open spec fn ascii_upper(c: char) -> char {
    if 'a' <= c <= 'z' {
        ((c as u32) - 32) as char
    } else {
        c
    }
}

/// `s` with every ASCII lower-case letter mapped to upper case.
pub open spec fn ascii_upper_seq(s: Seq<char>) -> Seq<char> {
    s.map_values(|c: char| ascii_upper(c))
}

/// Upper-cases one ASCII letter and leaves every other character as it is.
pub fn to_ascii_uppercase(c: char) -> (r: char)
    ensures
        r == ascii_upper(c),
{
    if 'a' <= c && c <= 'z' {
        ((c as u8) - 32) as char
    } else {
        c
    }
}

/// The decimal digit character for `d < 10`.
pub open spec fn digit_char(d: nat) -> char {
    seq!['0', '1', '2', '3', '4', '5', '6', '7', '8', '9'][d as int]
}

/// The decimal rendering of `n`, without sign or leading zeros.
pub open spec fn decimal(n: nat) -> Seq<char>
    decreases n,
{
    if n < 10 {
        seq![digit_char(n)]
    } else {
        decimal(n / 10).push(digit_char(n % 10))
    }
}

/// Appends the decimal rendering of `n` to `s`.
pub fn push_decimal(s: &mut String, n: u64)
    ensures
        final(s)@ == old(s)@ + decimal(n as nat),
    decreases n,
{
    if n >= 10 {
        push_decimal(s, n / 10);
    }
    let d = n % 10;
    let c = if d == 0 {
        '0'
    } else if d == 1 {
        '1'
    } else if d == 2 {
        '2'
    } else if d == 3 {
        '3'
    } else if d == 4 {
        '4'
    } else if d == 5 {
        '5'
    } else if d == 6 {
        '6'
    } else if d == 7 {
        '7'
    } else if d == 8 {
        '8'
    } else {
        '9'
    };
    push_char(s, c);
}

/// Whether two strings hold the same characters.
pub fn same_text(a: &str, b: &str) -> (eq: bool)
    ensures
        eq == (a@ == b@),
{
    let x = chars_of(a);
    let y = chars_of(b);
    if x.len() != y.len() {
        return false;
    }
    let mut i: usize = 0;
    while i < x.len()
        invariant
            i <= x@.len() == y@.len(),
            x@ == a@,
            y@ == b@,
            forall|k: int| 0 <= k < i ==> x@[k] == y@[k],
        decreases x@.len() - i,
    {
        if x[i] != y[i] {
            assert(a@[i as int] != b@[i as int]);
            return false;
        }
        i = i + 1;
    }
    assert(x@ =~= y@);
    true
}

/// Whether `s` holds the character `c` (`str::contains` with a `char`).
pub fn contains_char(s: &str, c: char) -> (found: bool)
    ensures
        found == s@.contains(c),
{
    let x = chars_of(s);
    let mut i: usize = 0;
    while i < x.len()
        invariant
            i <= x@.len(),
            x@ == s@,
            forall|k: int| 0 <= k < i ==> x@[k] != c,
        decreases x@.len() - i,
    {
        if x[i] == c {
            return true;
        }
        i = i + 1;
    }
    false
}

/// `c` with an ASCII upper-case letter mapped to lower case
/// (`char::to_ascii_lowercase`).
pub open spec fn ascii_lower(c: char) -> char {
    if 'A' <= c <= 'Z' {
        ((c as u32) + 32) as char
    } else {
        c
    }
}

/// `s` with every ASCII upper-case letter mapped to lower case
/// (`str::to_ascii_lowercase`).
pub open spec fn ascii_lower_seq(s: Seq<char>) -> Seq<char> {
    s.map_values(|c: char| ascii_lower(c))
}

/// Trimming the start leaves a tail of `s` that is empty or starts with
/// other than whitespace.
pub proof fn lemma_trim_start_shape(s: Seq<char>)
    ensures
        trim_start(s).len() <= s.len(),
        trim_start(s) == s.skip(s.len() - trim_start(s).len()),
        trim_start(s).len() == 0 || !is_white_space(trim_start(s)[0]),
    decreases s.len(),
{
    if s.len() > 0 && is_white_space(s[0]) {
        lemma_trim_start_shape(s.drop_first());
        assert(s.drop_first().skip(s.drop_first().len() - trim_start(s).len()) == s.skip(
            s.len() - trim_start(s).len(),
        ));
    } else {
        assert(s.skip(0) == s);
    }
}

/// Trimming the end leaves a head of `s` that is empty or ends with other
/// than whitespace.
pub proof fn lemma_trim_end_shape(s: Seq<char>)
    ensures
        trim_end(s).len() <= s.len(),
        trim_end(s) == s.take(trim_end(s).len() as int),
        trim_end(s).len() == 0 || !is_white_space(trim_end(s).last()),
    decreases s.len(),
{
    if s.len() > 0 && is_white_space(s.last()) {
        lemma_trim_end_shape(s.drop_last());
        assert(s.drop_last().take(trim_end(s).len() as int) == s.take(trim_end(s).len() as int));
    } else {
        assert(s.take(s.len() as int) == s);
    }
}

/// Trimming twice gives what trimming once gave.
pub proof fn lemma_trimmed_idempotent(s: Seq<char>)
    ensures
        trimmed(trimmed(s)) == trimmed(s),
{
    let x = trim_start(s);
    let t = trim_end(x);
    lemma_trim_start_shape(s);
    lemma_trim_end_shape(x);
    if t.len() > 0 {
        assert(t[0] == x[0]);
    }
    assert(trim_start(t) == t);
    assert(trim_end(t) == t);
}

/// A character map that keeps whitespace and non-whitespace apart.
pub open spec fn keeps_white_space(f: spec_fn(char) -> char) -> bool {
    forall|c: char| #[trigger] is_white_space(f(c)) == is_white_space(c)
}

/// Such a map commutes with trimming the start.
proof fn lemma_trim_start_map(s: Seq<char>, f: spec_fn(char) -> char)
    requires
        keeps_white_space(f),
    ensures
        trim_start(s.map_values(f)) == trim_start(s).map_values(f),
    decreases s.len(),
{
    if s.len() > 0 {
        assert(s.map_values(f)[0] == f(s[0]));
        assert(s.map_values(f).drop_first() == s.drop_first().map_values(f));
        lemma_trim_start_map(s.drop_first(), f);
    }
}

/// Such a map commutes with trimming the end.
proof fn lemma_trim_end_map(s: Seq<char>, f: spec_fn(char) -> char)
    requires
        keeps_white_space(f),
    ensures
        trim_end(s.map_values(f)) == trim_end(s).map_values(f),
    decreases s.len(),
{
    if s.len() > 0 {
        assert(s.map_values(f).last() == f(s.last()));
        assert(s.map_values(f).drop_last() == s.drop_last().map_values(f));
        lemma_trim_end_map(s.drop_last(), f);
    }
}

/// Such a map commutes with trimming.
pub proof fn lemma_trimmed_map(s: Seq<char>, f: spec_fn(char) -> char)
    requires
        keeps_white_space(f),
    ensures
        trimmed(s.map_values(f)) == trimmed(s).map_values(f),
{
    lemma_trim_start_map(s, f);
    lemma_trim_end_map(trim_start(s), f);
}

/// ASCII case mapping keeps whitespace and non-whitespace apart.
pub proof fn lemma_case_keeps_white_space()
    ensures
        keeps_white_space(|c: char| ascii_upper(c)),
        keeps_white_space(|c: char| ascii_lower(c)),
{
}

} // verus!
