//! Character-level text helpers shared by the parsers and formatters.
use vstd::prelude::*;

verus! {

// ─── Characters and strings ──────────────────────────────────────────────────

/// The characters of a string slice, in order.
pub fn chars_of(s: &str) -> (r: Vec<char>)
    ensures
        r@ == s@,
{
    let mut out: Vec<char> = Vec::new();
    for c in it: s.chars()
        invariant
            out@ == it.seq().take(it.index() as int),
            it.seq() == s@,
    {
        out.push(c);
    }
    out
}

/// Appends one character to a string (`String::push`).
#[verifier::external_body]
pub(crate) fn push_char(s: &mut String, c: char)
    ensures
        final(s)@ == old(s)@.push(c),
{
    s.push(c);
}

/// Appends the characters of `cs` to `out`.
pub fn push_chars(out: &mut String, cs: &[char])
    ensures
        final(out)@ == old(out)@ + cs@,
{
    let mut i: usize = 0;
    while i < cs.len()
        invariant
            i <= cs@.len(),
            out@ == old(out)@ + cs@.take(i as int),
        decreases cs@.len() - i,
    {
        push_char(out, cs[i]);
        i += 1;
        assert(cs@.take(i as int) =~= cs@.take((i - 1) as int).push(cs@[i - 1]));
    }
    assert(cs@.take(cs@.len() as int) =~= cs@);
}

/// Appends the characters of a string slice to `out`.
pub fn push_str_chars(out: &mut String, s: &str)
    ensures
        final(out)@ == old(out)@ + s@,
{
    let cs = chars_of(s);
    push_chars(out, cs.as_slice());
}

/// A string made of the given characters.
pub fn string_of(cs: &[char]) -> (r: String)
    ensures
        r@ == cs@,
{
    let mut out = String::new();
    push_chars(&mut out, cs);
    out
}

/// A copy of a string slice as an owned string.
pub fn owned(s: &str) -> (r: String)
    ensures
        r@ == s@,
{
    s.to_owned()
}

/// Whether two character sequences are equal.
pub fn chars_eq(a: &[char], b: &[char]) -> (r: bool)
    ensures
        r == (a@ == b@),
{
    if a.len() != b.len() {
        return false;
    }
    let mut i: usize = 0;
    while i < a.len()
        invariant
            a@.len() == b@.len(),
            i <= a@.len(),
            forall|j: int| 0 <= j < i ==> a@[j] == b@[j],
        decreases a@.len() - i,
    {
        if a[i] != b[i] {
            return false;
        }
        i += 1;
    }
    assert(a@ =~= b@);
    true
}

/// Whether a string equals the given characters.
pub fn str_eq_chars(s: &str, cs: &[char]) -> (r: bool)
    ensures
        r == (s@ == cs@),
{
    let v = chars_of(s);
    chars_eq(v.as_slice(), cs)
}

// ─── Lowercase ──────────────────────────────────────────────────────────────

/// The Unicode lowercase mapping of a string (what `str::to_lowercase` gives).
pub uninterp spec fn lowercased(s: Seq<char>) -> Seq<char>;

/// ASCII lowercase of one character.
pub open spec fn ascii_lower(c: char) -> char {
    if 'A' <= c && c <= 'Z' {
        ((c as u32) + 32) as char
    } else {
        c
    }
}

/// Whether every character is ASCII.
pub open spec fn all_ascii(s: Seq<char>) -> bool {
    forall|i: int| 0 <= i < s.len() ==> (s[i] as u32) < 128
}

/// `str::to_lowercase`. The result is the Unicode lowercase mapping of the
/// argument; on an all-ASCII argument it maps `A`-`Z` to `a`-`z` and keeps every
/// other character, character by character.
#[verifier::external_body]
pub(crate) fn to_lowercase(s: &str) -> (r: String)
    ensures
        r@ == lowercased(s@),
        all_ascii(s@) ==> r@ == s@.map_values(|c: char| ascii_lower(c)),
{
    s.to_lowercase()
}

// ─── Whitespace and trimming ────────────────────────────────────────────────

/// The Unicode `White_Space` property (what `char::is_whitespace` tests).
pub open spec fn is_ws(c: char) -> bool {
    let u = c as u32;
    ||| 0x09 <= u <= 0x0D
    ||| u == 0x20
    ||| u == 0x85
    ||| u == 0xA0
    ||| u == 0x1680
    ||| 0x2000 <= u <= 0x200A
    ||| u == 0x2028
    ||| u == 0x2029
    ||| u == 0x202F
    ||| u == 0x205F
    ||| u == 0x3000
}

/// `char::is_whitespace`.
pub fn is_whitespace(c: char) -> (r: bool)
    ensures
        r == is_ws(c),
{
    let u = c as u32;
    (0x09 <= u && u <= 0x0D) || u == 0x20 || u == 0x85 || u == 0xA0 || u == 0x1680 || (0x2000
        <= u && u <= 0x200A) || u == 0x2028 || u == 0x2029 || u == 0x202F || u == 0x205F || u
        == 0x3000
}

/// The sequence without its leading whitespace.
pub open spec fn trim_start(s: Seq<char>) -> Seq<char>
    decreases s.len(),
{
    if s.len() > 0 && is_ws(s[0]) {
        trim_start(s.drop_first())
    } else {
        s
    }
}

/// The sequence without its trailing whitespace.
pub open spec fn trim_end(s: Seq<char>) -> Seq<char>
    decreases s.len(),
{
    if s.len() > 0 && is_ws(s.last()) {
        trim_end(s.drop_last())
    } else {
        s
    }
}

/// What `str::trim` gives.
pub open spec fn trim(s: Seq<char>) -> Seq<char> {
    trim_end(trim_start(s))
}

proof fn lemma_trim_start_skip(s: Seq<char>, i: int)
    requires
        0 <= i <= s.len(),
        forall|j: int| 0 <= j < i ==> is_ws(#[trigger] s[j]),
    ensures
        trim_start(s) == trim_start(s.subrange(i, s.len() as int)),
    decreases i,
{
    if i > 0 {
        lemma_trim_start_skip(s.drop_first(), i - 1);
        assert(s.drop_first().subrange(i - 1, s.drop_first().len() as int) =~= s.subrange(
            i,
            s.len() as int,
        ));
    } else {
        assert(s.subrange(0, s.len() as int) =~= s);
    }
}

proof fn lemma_trim_end_skip(s: Seq<char>, k: int)
    requires
        0 <= k <= s.len(),
        forall|j: int| k <= j < s.len() ==> is_ws(#[trigger] s[j]),
    ensures
        trim_end(s) == trim_end(s.subrange(0, k)),
    decreases s.len() - k,
{
    if k < s.len() {
        lemma_trim_end_skip(s.drop_last(), k);
        assert(s.drop_last().subrange(0, k) =~= s.subrange(0, k));
    } else {
        assert(s.subrange(0, s.len() as int) =~= s);
    }
}

/// The bounds `(a, b)` such that `cs[a..b]` is `cs` trimmed of whitespace.
pub fn trim_bounds(cs: &[char]) -> (r: (usize, usize))
    ensures
        r.0 <= r.1 <= cs@.len(),
        cs@.subrange(r.0 as int, r.1 as int) == trim(cs@),
{
    let mut a: usize = 0;
    while a < cs.len() && is_whitespace(cs[a])
        invariant
            a <= cs@.len(),
            forall|j: int| 0 <= j < a ==> is_ws(#[trigger] cs@[j]),
        decreases cs@.len() - a,
    {
        a += 1;
    }
    let ghost rest = cs@.subrange(a as int, cs@.len() as int);
    proof {
        lemma_trim_start_skip(cs@, a as int);
        if rest.len() > 0 {
            assert(rest[0] == cs@[a as int]);
        }
        assert(trim_start(rest) == rest);
    }
    let mut b: usize = cs.len();
    while b > a && is_whitespace(cs[b - 1])
        invariant
            a <= b <= cs@.len(),
            forall|j: int| b <= j < cs@.len() ==> is_ws(#[trigger] cs@[j]),
        decreases b,
    {
        b -= 1;
    }
    proof {
        let k = b - a;
        assert forall|j: int| k <= j < rest.len() implies is_ws(#[trigger] rest[j]) by {
            assert(rest[j] == cs@[a + j]);
        }
        lemma_trim_end_skip(rest, k);
        let t = rest.subrange(0, k);
        assert(t =~= cs@.subrange(a as int, b as int));
        if t.len() > 0 {
            assert(t.last() == cs@[b - 1]);
        }
        assert(trim_end(t) == t);
    }
    (a, b)
}

/// `cs` trimmed of leading and trailing whitespace.
pub fn trimmed(cs: &[char]) -> (r: Vec<char>)
    ensures
        r@ == trim(cs@),
{
    let (a, b) = trim_bounds(cs);
    slice_range(cs, a, b)
}

/// A copy of `cs[a..b]`.
pub fn slice_range(cs: &[char], a: usize, b: usize) -> (r: Vec<char>)
    requires
        a <= b <= cs@.len(),
    ensures
        r@ == cs@.subrange(a as int, b as int),
{
    let mut out: Vec<char> = Vec::new();
    let mut i = a;
    while i < b
        invariant
            a <= i <= b <= cs@.len(),
            out@ == cs@.subrange(a as int, i as int),
        decreases b - i,
    {
        out.push(cs[i]);
        i += 1;
        assert(out@ =~= cs@.subrange(a as int, i as int));
    }
    out
}

// ─── Searching ──────────────────────────────────────────────────────────────

/// Whether `needle` occurs in `hay` starting at position `i`.
pub open spec fn occurs_at(hay: Seq<char>, needle: Seq<char>, i: int) -> bool {
    0 <= i && i + needle.len() <= hay.len() && hay.subrange(i, i + needle.len()) == needle
}

/// Whether `needle` occurs somewhere in `hay` (what `str::contains` tests).
pub open spec fn seq_contains(hay: Seq<char>, needle: Seq<char>) -> bool {
    exists|i: int| occurs_at(hay, needle, i)
}

fn matches_at(hay: &[char], needle: &[char], i: usize) -> (r: bool)
    requires
        i + needle@.len() <= hay@.len(),
    ensures
        r == occurs_at(hay@, needle@, i as int),
{
    let mut k: usize = 0;
    while k < needle.len()
        invariant
            i + needle@.len() <= hay@.len(),
            hay@.len() == hay.len(),
            k <= needle@.len(),
            forall|j: int| 0 <= j < k ==> hay@[i + j] == needle@[j],
        decreases needle@.len() - k,
    {
        if hay[i + k] != needle[k] {
            assert(hay@.subrange(i as int, i + needle@.len())[k as int] != needle@[k as int]);
            return false;
        }
        k += 1;
    }
    assert(hay@.subrange(i as int, i + needle@.len()) =~= needle@);
    true
}

/// Whether `needle` occurs in `hay`.
pub fn contains_chars(hay: &[char], needle: &[char]) -> (r: bool)
    ensures
        r == seq_contains(hay@, needle@),
{
    if needle.len() > hay.len() {
        return false;
    }
    let last = hay.len() - needle.len();
    let mut i: usize = 0;
    while i <= last
        invariant
            last + needle@.len() == hay@.len(),
            i <= last,
            forall|j: int| 0 <= j < i ==> !occurs_at(hay@, needle@, j),
        ensures
            forall|j: int| 0 <= j <= last ==> !occurs_at(hay@, needle@, j),
        decreases last - i,
    {
        if matches_at(hay, needle, i) {
            return true;
        }
        if i == last {
            break;
        }
        i += 1;
    }
    assert forall|j: int| !occurs_at(hay@, needle@, j) by {
        if 0 <= j && j < i {
        }
    }
    false
}

/// Whether the string slice `needle` occurs in `hay`.
pub fn contains_str(hay: &[char], needle: &str) -> (r: bool)
    ensures
        r == seq_contains(hay@, needle@),
{
    let n = chars_of(needle);
    contains_chars(hay, n.as_slice())
}

/// The first position of `c` in `cs` at or after `from`, if any.
pub open spec fn first_index_from(cs: Seq<char>, c: char, from: int) -> Option<int>
    decreases cs.len() - from,
{
    if from < 0 || from >= cs.len() {
        None
    } else if cs[from] == c {
        Some(from)
    } else {
        first_index_from(cs, c, from + 1)
    }
}

proof fn lemma_first_index_from(cs: Seq<char>, c: char, from: int)
    requires
        0 <= from,
    ensures
        match first_index_from(cs, c, from) {
            Some(k) => from <= k < cs.len() && cs[k] == c && forall|j: int|
                from <= j < k ==> cs[j] != c,
            None => forall|j: int| from <= j < cs.len() ==> cs[j] != c,
        },
    decreases cs.len() - from,
{
    if from < cs.len() && cs[from] != c {
        lemma_first_index_from(cs, c, from + 1);
    }
}

/// Position of the first `c` in `cs`, if any (what `str::find` with a char gives,
/// counted in characters).
pub fn find_char(cs: &[char], c: char) -> (r: Option<usize>)
    ensures
        match r {
            Some(k) => first_index_from(cs@, c, 0) == Some(k as int),
            None => first_index_from(cs@, c, 0) is None,
        },
        r matches Some(k) ==> k < cs@.len() && cs@[k as int] == c && forall|j: int|
            0 <= j < k ==> cs@[j] != c,
        r is None ==> forall|j: int| 0 <= j < cs@.len() ==> cs@[j] != c,
{
    proof {
        lemma_first_index_from(cs@, c, 0);
    }
    let mut i: usize = 0;
    while i < cs.len()
        invariant
            i <= cs@.len(),
            first_index_from(cs@, c, 0) == first_index_from(cs@, c, i as int),
            forall|j: int| 0 <= j < i ==> cs@[j] != c,
        decreases cs@.len() - i,
    {
        if cs[i] == c {
            return Some(i);
        }
        i += 1;
    }
    None
}

/// Whether `s` ends with `suffix`.
pub open spec fn ends_with(s: Seq<char>, suffix: Seq<char>) -> bool {
    suffix.len() <= s.len() && s.subrange(s.len() - suffix.len(), s.len() as int) == suffix
}

/// Whether `s` ends with `suffix`.
pub fn ends_with_chars(s: &[char], suffix: &[char]) -> (r: bool)
    ensures
        r == ends_with(s@, suffix@),
{
    if suffix.len() > s.len() {
        return false;
    }
    matches_at(s, suffix, s.len() - suffix.len())
}

/// The first position at or after `from` where `needle` occurs in `hay`.
pub open spec fn first_occurrence_from(hay: Seq<char>, needle: Seq<char>, from: int) -> Option<int>
    decreases hay.len() + 1 - from,
{
    if from < 0 || from + needle.len() > hay.len() {
        None
    } else if occurs_at(hay, needle, from) {
        Some(from)
    } else {
        first_occurrence_from(hay, needle, from + 1)
    }
}

/// The first position at or after `from` where `needle` occurs in `hay`.
pub fn find_chars_from(hay: &[char], needle: &[char], from: usize) -> (r: Option<usize>)
    ensures
        match r {
            Some(k) => first_occurrence_from(hay@, needle@, from as int) == Some(k as int) && k
                + needle@.len() <= hay@.len(),
            None => first_occurrence_from(hay@, needle@, from as int) is None,
        },
{
    if needle.len() > hay.len() || from > hay.len() - needle.len() {
        return None;
    }
    let last = hay.len() - needle.len();
    let mut i = from;
    while i <= last
        invariant
            last + needle@.len() == hay@.len(),
            from <= i <= last,
            first_occurrence_from(hay@, needle@, from as int) == first_occurrence_from(
                hay@,
                needle@,
                i as int,
            ),
        ensures
            first_occurrence_from(hay@, needle@, from as int) is None,
        decreases last - i,
    {
        if matches_at(hay, needle, i) {
            return Some(i);
        }
        if i == last {
            assert(first_occurrence_from(hay@, needle@, i + 1) is None);
            break;
        }
        i += 1;
    }
    None
}

// ─── Decimal numbers ────────────────────────────────────────────────────────

/// Whether `c` is an ASCII decimal digit.
pub open spec fn is_digit(c: char) -> bool {
    '0' <= c && c <= '9'
}

/// The value of an ASCII digit.
pub open spec fn digit_val(c: char) -> nat {
    ((c as u32) - ('0' as u32)) as nat
}

/// Whether every character of `s` is an ASCII digit.
pub open spec fn all_digits(s: Seq<char>) -> bool {
    forall|i: int| 0 <= i < s.len() ==> is_digit(#[trigger] s[i])
}

/// The value of a string of decimal digits.
pub open spec fn digits_value(s: Seq<char>) -> nat
    decreases s.len(),
{
    if s.len() == 0 {
        0
    } else {
        digits_value(s.drop_last()) * 10 + digit_val(s.last())
    }
}

/// What `u64::from_str` gives: an optional `+`, then one or more digits whose
/// value fits in a `u64`.
pub open spec fn parse_u64_spec(s: Seq<char>) -> Option<u64> {
    let d = if s.len() > 0 && s[0] == '+' {
        s.drop_first()
    } else {
        s
    };
    if d.len() == 0 || !all_digits(d) || digits_value(d) > u64::MAX {
        None
    } else {
        Some(digits_value(d) as u64)
    }
}

proof fn lemma_digits_value_monotone(s: Seq<char>, i: int)
    requires
        0 <= i <= s.len(),
    ensures
        digits_value(s.take(i)) <= digits_value(s),
    decreases s.len() - i,
{
    if i < s.len() {
        lemma_digits_value_monotone(s.drop_last(), i);
        assert(s.drop_last().take(i) =~= s.take(i));
    } else {
        assert(s.take(i) =~= s);
    }
}

/// The value of the digit string `d`, if all are digits and it fits in a `u64`.
fn digits_to_u64(d: &[char]) -> (r: Option<u64>)
    ensures
        r == (if !all_digits(d@) || digits_value(d@) > u64::MAX {
            None::<u64>
        } else {
            Some(digits_value(d@) as u64)
        }),
{
    let mut acc: u64 = 0;
    let mut i: usize = 0;
    while i < d.len()
        invariant
            i <= d@.len(),
            all_digits(d@.take(i as int)),
            acc == digits_value(d@.take(i as int)),
        decreases d@.len() - i,
    {
        let c = d[i];
        assert(d@.take(i + 1).drop_last() =~= d@.take(i as int));
        if !('0' <= c && c <= '9') {
            assert(!is_digit(d@[i as int]));
            return None;
        }
        let v = (c as u32 - '0' as u32) as u64;
        if acc > (u64::MAX - v) / 10 {
            proof {
                assert(digits_value(d@.take(i + 1)) == acc * 10 + v);
                lemma_digits_value_monotone(d@, i + 1);
            }
            return None;
        }
        acc = acc * 10 + v;
        i += 1;
        assert(all_digits(d@.take(i as int)));
    }
    assert(d@.take(d@.len() as int) =~= d@);
    Some(acc)
}

/// `u64::from_str` on a character sequence.
pub fn parse_u64(s: &[char]) -> (r: Option<u64>)
    ensures
        r == parse_u64_spec(s@),
{
    let start: usize = if s.len() > 0 && s[0] == '+' {
        1
    } else {
        0
    };
    let d = slice_range(s, start, s.len());
    assert(d@ =~= (if s@.len() > 0 && s@[0] == '+' {
        s@.drop_first()
    } else {
        s@
    }));
    if d.len() == 0 {
        return None;
    }
    digits_to_u64(d.as_slice())
}

/// The ASCII digit for a value below ten.
pub open spec fn digit_char(d: nat) -> char {
    ((d + 48) as u32) as char
}

/// The decimal representation of `n` (what `format!("{}", n)` gives).
pub open spec fn decimal(n: nat) -> Seq<char>
    decreases n,
{
    if n < 10 {
        seq![digit_char(n)]
    } else {
        decimal(n / 10).push(digit_char(n % 10))
    }
}

/// The decimal representation padded with zeros to at least two characters
/// (what `format!("{:02}", n)` gives).
pub open spec fn decimal2(n: nat) -> Seq<char> {
    if n < 10 {
        seq!['0', digit_char(n)]
    } else {
        decimal(n)
    }
}

fn digit_to_char(d: u64) -> (c: char)
    requires
        d < 10,
    ensures
        c == digit_char(d as nat),
{
    let b: u8 = (d as u8) + 48;
    b as char
}

/// Appends the decimal representation of `n` to `out`.
pub fn push_decimal(out: &mut String, n: u64)
    ensures
        final(out)@ == old(out)@ + decimal(n as nat),
    decreases n,
{
    if n < 10 {
        push_char(out, digit_to_char(n));
        assert(seq![digit_char(n as nat)] =~= decimal(n as nat));
    } else {
        push_decimal(out, n / 10);
        push_char(out, digit_to_char(n % 10));
        assert(decimal(n as nat) == decimal((n / 10) as nat).push(digit_char((n % 10) as nat)));
    }
}

/// Appends `n` zero-padded to two digits.
pub fn push_decimal2(out: &mut String, n: u64)
    ensures
        final(out)@ == old(out)@ + decimal2(n as nat),
{
    if n < 10 {
        push_char(out, '0');
        push_decimal(out, n);
        assert(decimal(n as nat) =~= seq![digit_char(n as nat)]);
    } else {
        push_decimal(out, n);
    }
}

/// The decimal representation of `n`.
pub fn u64_to_string(n: u64) -> (r: String)
    ensures
        r@ == decimal(n as nat),
{
    let mut out = String::new();
    push_decimal(&mut out, n);
    out
}

} // verus!
