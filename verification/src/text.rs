//! Character-level text operations: whitespace, trimming, spans, tokens,
//! line splitting, decimal numbers, replacement and splitting.
//!
//! Every executable function here works on `char` slices and is tied to a
//! spec function over `Seq<char>` that says what the result is.

use vstd::prelude::*;
use vstd::std_specs::iter::IteratorSpec;

verus! {

// ---------------------------------------------------------------------------
// Character classes
// ---------------------------------------------------------------------------

/// Unicode `White_Space` characters (the set that `char::is_whitespace` tests).
pub open spec fn is_ws(c: char) -> bool {
    let u = c as u32;
    ||| 0x9 <= u <= 0xd
    ||| u == 0x20
    ||| u == 0x85
    ||| u == 0xa0
    ||| u == 0x1680
    ||| 0x2000 <= u <= 0x200a
    ||| u == 0x2028
    ||| u == 0x2029
    ||| u == 0x202f
    ||| u == 0x205f
    ||| u == 0x3000
}

/// ASCII letters and digits.
pub open spec fn is_ascii_alnum(c: char) -> bool {
    let u = c as u32;
    ||| 0x30 <= u <= 0x39
    ||| 0x41 <= u <= 0x5a
    ||| 0x61 <= u <= 0x7a
}

/// The kinds of characters that a span can run over.
#[derive(Clone, Copy, Debug, PartialEq, Eq)]
pub enum CharClass {
    /// Unicode whitespace.
    Space,
    /// Anything but Unicode whitespace.
    NonSpace,
    /// Exactly the given character.
    Is(char),
    /// Anything but the given character.
    Not(char),
    /// Characters of a command name on a command line: ASCII letters and
    /// digits, `-` and `_`.
    LineCommand,
    /// Characters of an inline command name: ASCII letters and digits and `-`.
    InlineCommand,
}

pub open spec fn in_class(c: char, cls: CharClass) -> bool {
    match cls {
        CharClass::Space => is_ws(c),
        CharClass::NonSpace => !is_ws(c),
        CharClass::Is(d) => c == d,
        CharClass::Not(d) => c != d,
        CharClass::LineCommand => is_ascii_alnum(c) || c == '-' || c == '_',
        CharClass::InlineCommand => is_ascii_alnum(c) || c == '-',
    }
}

/// Tests `char::is_whitespace`.
pub fn is_whitespace(c: char) -> (r: bool)
    ensures
        r == is_ws(c),
{
    let u = c as u32;
    (0x9 <= u && u <= 0xd) || u == 0x20 || u == 0x85 || u == 0xa0 || u == 0x1680 || (0x2000 <= u
        && u <= 0x200a) || u == 0x2028 || u == 0x2029 || u == 0x202f || u == 0x205f || u == 0x3000
}

/// Tests `char::is_ascii_alphanumeric`.
pub fn is_ascii_alphanumeric(c: char) -> (r: bool)
    ensures
        r == is_ascii_alnum(c),
{
    let u = c as u32;
    (0x30 <= u && u <= 0x39) || (0x41 <= u && u <= 0x5a) || (0x61 <= u && u <= 0x7a)
}

pub fn in_class_exec(c: char, cls: CharClass) -> (r: bool)
    ensures
        r == in_class(c, cls),
{
    match cls {
        CharClass::Space => is_whitespace(c),
        CharClass::NonSpace => !is_whitespace(c),
        CharClass::Is(d) => c == d,
        CharClass::Not(d) => c != d,
        CharClass::LineCommand => is_ascii_alphanumeric(c) || c == '-' || c == '_',
        CharClass::InlineCommand => is_ascii_alphanumeric(c) || c == '-',
    }
}

// ---------------------------------------------------------------------------
// Spans
// ---------------------------------------------------------------------------

/// Length of the longest prefix of `s` whose characters are all in `cls`.
pub open spec fn span(s: Seq<char>, cls: CharClass) -> nat
    decreases s.len(),
{
    if s.len() > 0 && in_class(s[0], cls) {
        1 + span(s.drop_first(), cls)
    } else {
        0
    }
}

/// Length of the longest suffix of `s` whose characters are all in `cls`.
pub open spec fn rspan(s: Seq<char>, cls: CharClass) -> nat
    decreases s.len(),
{
    if s.len() > 0 && in_class(s.last(), cls) {
        1 + rspan(s.drop_last(), cls)
    } else {
        0
    }
}

pub proof fn lemma_span_bounds(s: Seq<char>, cls: CharClass)
    ensures
        span(s, cls) <= s.len(),
        forall|i: int| 0 <= i < span(s, cls) ==> in_class(#[trigger] s[i], cls),
        span(s, cls) < s.len() ==> !in_class(s[span(s, cls) as int], cls),
    decreases s.len(),
{
    if s.len() > 0 && in_class(s[0], cls) {
        lemma_span_bounds(s.drop_first(), cls);
        assert forall|i: int| 0 <= i < span(s, cls) implies in_class(#[trigger] s[i], cls) by {
            if i > 0 {
                assert(s[i] == s.drop_first()[i - 1]);
            }
        }
    }
}

pub proof fn lemma_rspan_bounds(s: Seq<char>, cls: CharClass)
    ensures
        rspan(s, cls) <= s.len(),
        forall|i: int| s.len() - rspan(s, cls) <= i < s.len() ==> in_class(#[trigger] s[i], cls),
        rspan(s, cls) < s.len() ==> !in_class(s[s.len() - rspan(s, cls) - 1], cls),
    decreases s.len(),
{
    if s.len() > 0 && in_class(s.last(), cls) {
        lemma_rspan_bounds(s.drop_last(), cls);
        assert forall|i: int| s.len() - rspan(s, cls) <= i < s.len() implies in_class(
            #[trigger] s[i],
            cls,
        ) by {
            if i < s.len() - 1 {
                assert(s[i] == s.drop_last()[i]);
            }
        }
    }
}

/// A span is determined by where the first character outside the class is.
pub proof fn lemma_span_exact(s: Seq<char>, cls: CharClass, k: int)
    requires
        0 <= k <= s.len(),
        forall|i: int| 0 <= i < k ==> in_class(#[trigger] s[i], cls),
        k < s.len() ==> !in_class(s[k], cls),
    ensures
        span(s, cls) == k,
{
    lemma_span_bounds(s, cls);
    if span(s, cls) < k {
        assert(in_class(s[span(s, cls) as int], cls));
    }
    if span(s, cls) > k {
        assert(in_class(s[k], cls));
    }
}

/// Returns `from + span(s[from..], cls)`: the first index at or after `from`
/// whose character is not in `cls`, or the length of `s`.
pub fn span_from(s: &[char], from: usize, cls: CharClass) -> (r: usize)
    requires
        from <= s@.len(),
    ensures
        r == from + span(s@.skip(from as int), cls),
        from <= r <= s@.len(),
{
    let mut i = from;
    proof {
        lemma_span_bounds(s@.skip(from as int), cls);
    }
    while i < s.len() && in_class_exec(s[i], cls)
        invariant
            from <= i <= s@.len(),
            span(s@.skip(from as int), cls) == (i - from) + span(s@.skip(i as int), cls),
        decreases s@.len() - i,
    {
        assert(s@.skip(i as int).drop_first() =~= s@.skip(i + 1int));
        i = i + 1;
    }
    proof {
        lemma_span_bounds(s@.skip(i as int), cls);
    }
    i
}

/// Returns `to - rspan(s[..to], cls)`: the start of the longest run of
/// characters in `cls` that ends at `to`.
pub fn rspan_to(s: &[char], to: usize, cls: CharClass) -> (r: usize)
    requires
        to <= s@.len(),
    ensures
        r + rspan(s@.take(to as int), cls) == to,
{
    let mut j = to;
    while j > 0 && in_class_exec(s[j - 1], cls)
        invariant
            j <= to <= s@.len(),
            rspan(s@.take(to as int), cls) == (to - j) + rspan(s@.take(j as int), cls),
        decreases j,
    {
        assert(s@.take(j as int).drop_last() =~= s@.take(j - 1int));
        j = j - 1;
    }
    j
}

// ---------------------------------------------------------------------------
// Copies, trimming and tokens
// ---------------------------------------------------------------------------

/// The characters of a string slice, in order.
pub fn chars_of(s: &str) -> (r: Vec<char>)
    ensures
        r@ == s@,
{
    broadcast use vstd::string::group_string_axioms;

    let mut r: Vec<char> = Vec::new();
    let mut it = s.chars();
    loop
        invariant
            IteratorSpec::remaining(&it) == s@.skip(r@.len() as int),
            r@ == s@.take(r@.len() as int),
            r@.len() <= s@.len(),
        ensures
            r@ == s@,
        decreases s@.len() - r@.len(),
    {
        match it.next() {
            Some(c) => {
                assert(s@.skip(r@.len() as int).drop_first() =~= s@.skip(r@.len() + 1int));
                r.push(c);
                assert(r@ =~= s@.take(r@.len() as int));
            },
            None => {
                assert(r@ =~= s@);
                break ;
            },
        }
    }
    r
}

/// A copy of `s[a..b]`.
pub fn copy_range(s: &[char], a: usize, b: usize) -> (r: Vec<char>)
    requires
        a <= b <= s@.len(),
    ensures
        r@ == s@.subrange(a as int, b as int),
{
    let mut r: Vec<char> = Vec::new();
    let mut i = a;
    while i < b
        invariant
            a <= i <= b <= s@.len(),
            r@ == s@.subrange(a as int, i as int),
        decreases b - i,
    {
        r.push(s[i]);
        assert(r@ =~= s@.subrange(a as int, i + 1int));
        i = i + 1;
    }
    r
}

/// Appends all of `s` to `v`.
pub fn push_all(v: &mut Vec<char>, s: &[char])
    ensures
        final(v)@ == old(v)@ + s@,
{
    let ghost v0 = v@;
    let mut i: usize = 0;
    while i < s.len()
        invariant
            i <= s@.len(),
            v@ == v0 + s@.take(i as int),
        decreases s@.len() - i,
    {
        v.push(s[i]);
        assert(v@ =~= v0 + s@.take(i + 1int));
        i = i + 1;
    }
    assert(s@.take(s@.len() as int) =~= s@);
}

/// Appends the characters of a string slice to `v`.
pub fn push_str(v: &mut Vec<char>, s: &str)
    ensures
        final(v)@ == old(v)@ + s@,
{
    let cs = chars_of(s);
    push_all(v, cs.as_slice());
}

/// `s` without the characters of `cls` at both ends.
pub open spec fn strip(s: Seq<char>, cls: CharClass) -> Seq<char> {
    let t = s.skip(span(s, cls) as int);
    t.take(t.len() - rspan(t, cls))
}

pub proof fn lemma_strip_len(s: Seq<char>, cls: CharClass)
    ensures
        strip(s, cls).len() <= s.len(),
{
    lemma_span_bounds(s, cls);
    lemma_rspan_bounds(s.skip(span(s, cls) as int), cls);
}

/// `s` without leading whitespace (`str::trim_start`).
pub open spec fn trim_start(s: Seq<char>) -> Seq<char> {
    s.skip(span(s, CharClass::Space) as int)
}

/// `s` without whitespace at either end (`str::trim`).
pub open spec fn trim(s: Seq<char>) -> Seq<char> {
    strip(s, CharClass::Space)
}

/// `s` without the character `c` at either end (`str::trim_matches(c)`).
pub open spec fn trim_char(s: Seq<char>, c: char) -> Seq<char> {
    strip(s, CharClass::Is(c))
}

/// The first whitespace-separated word of `s`, or nothing
/// (`s.split_whitespace().next().unwrap_or("")`).
pub open spec fn first_word(s: Seq<char>) -> Seq<char> {
    let t = trim_start(s);
    t.take(span(t, CharClass::NonSpace) as int)
}

pub fn strip_exec(s: &[char], cls: CharClass) -> (r: Vec<char>)
    ensures
        r@ == strip(s@, cls),
{
    let a = span_from(s, 0, cls);
    assert(s@.skip(0) =~= s@);
    let t = copy_range(s, a, s.len());
    assert(t@ =~= s@.skip(a as int));
    let b = rspan_to(t.as_slice(), t.len(), cls);
    assert(t@.take(t@.len() as int) =~= t@);
    proof {
        lemma_rspan_bounds(t@, cls);
    }
    copy_range(t.as_slice(), 0, b)
}

/// `str::trim`.
pub fn trim_exec(s: &[char]) -> (r: Vec<char>)
    ensures
        r@ == trim(s@),
{
    strip_exec(s, CharClass::Space)
}

/// The first whitespace-separated word of `s`, or nothing.
pub fn first_word_exec(s: &[char]) -> (r: Vec<char>)
    ensures
        r@ == first_word(s@),
{
    let a = span_from(s, 0, CharClass::Space);
    assert(s@.skip(0) =~= s@);
    let b = span_from(s, a, CharClass::NonSpace);
    proof {
        lemma_span_bounds(s@.skip(a as int), CharClass::NonSpace);
    }
    let r = copy_range(s, a, b);
    assert(r@ =~= s@.skip(a as int).take(span(s@.skip(a as int), CharClass::NonSpace) as int));
    r
}

/// `s` begins with `p`.
pub open spec fn starts_with(s: Seq<char>, p: Seq<char>) -> bool {
    p.len() <= s.len() && s.take(p.len() as int) == p
}

pub fn starts_with_exec(s: &[char], p: &[char]) -> (r: bool)
    ensures
        r == starts_with(s@, p@),
{
    if p.len() > s.len() {
        return false;
    }
    let mut i: usize = 0;
    while i < p.len()
        invariant
            p@.len() <= s@.len(),
            i <= p@.len(),
            forall|k: int| 0 <= k < i ==> s@[k] == p@[k],
        decreases p@.len() - i,
    {
        if s[i] != p[i] {
            assert(s@.take(p@.len() as int)[i as int] != p@[i as int]);
            return false;
        }
        i = i + 1;
    }
    assert(s@.take(p@.len() as int) =~= p@);
    true
}

/// `s` begins with the characters of the string slice `p`.
pub fn starts_with_str(s: &[char], p: &str) -> (r: bool)
    ensures
        r == starts_with(s@, p@),
{
    let pc = chars_of(p);
    starts_with_exec(s, pc.as_slice())
}

/// `s` equals the characters of the string slice `p`.
pub fn eq_str(s: &[char], p: &str) -> (r: bool)
    ensures
        r == (s@ == p@),
{
    let pc = chars_of(p);
    if s.len() != pc.len() {
        return false;
    }
    let b = starts_with_exec(s, pc.as_slice());
    assert(s@ =~= s@.take(pc@.len() as int));
    b
}

/// Two character sequences are equal.
pub fn eq_chars(a: &[char], b: &[char]) -> (r: bool)
    ensures
        r == (a@ == b@),
{
    if a.len() != b.len() {
        return false;
    }
    let r = starts_with_exec(a, b);
    assert(a@ =~= a@.take(b@.len() as int));
    r
}

/// ASCII lower case of a character.
pub open spec fn ascii_lower(c: char) -> char {
    if 'A' <= c <= 'Z' {
        ((c as u32) + 32) as char
    } else {
        c
    }
}

/// `str::eq_ignore_ascii_case`.
pub open spec fn eq_ignore_ascii_case(a: Seq<char>, b: Seq<char>) -> bool {
    a.len() == b.len() && forall|i: int| 0 <= i < a.len() ==> ascii_lower(#[trigger] a[i])
        == ascii_lower(b[i])
}

fn ascii_lower_exec(c: char) -> (r: char)
    ensures
        r == ascii_lower(c),
{
    if 'A' <= c && c <= 'Z' {
        let u = (c as u32) + 32;
        let b = u as u8;
        assert(b == u);
        (b as char)
    } else {
        c
    }
}

pub fn eq_ignore_ascii_case_exec(a: &[char], b: &[char]) -> (r: bool)
    ensures
        r == eq_ignore_ascii_case(a@, b@),
{
    if a.len() != b.len() {
        return false;
    }
    let mut i: usize = 0;
    while i < a.len()
        invariant
            a@.len() == b@.len(),
            i <= a@.len(),
            forall|k: int| 0 <= k < i ==> ascii_lower(#[trigger] a@[k]) == ascii_lower(b@[k]),
        decreases a@.len() - i,
    {
        if ascii_lower_exec(a[i]) != ascii_lower_exec(b[i]) {
            return false;
        }
        i = i + 1;
    }
    true
}

// ---------------------------------------------------------------------------
// Lines
// ---------------------------------------------------------------------------

/// `t` without one trailing carriage return.
pub open spec fn strip_cr(t: Seq<char>) -> Seq<char> {
    if t.len() > 0 && t.last() == '\r' {
        t.drop_last()
    } else {
        t
    }
}

/// The lines of `s` as `str::lines` yields them: split after each `\n`,
/// each line without its `\n` and then without one `\r` before it; a last
/// line without `\n` is kept as it is, and an empty text has no lines.
pub open spec fn lines_of(s: Seq<char>) -> Seq<Seq<char>>
    decreases s.len(),
{
    if s.len() == 0 {
        seq![]
    } else {
        let k = span(s, CharClass::Not('\n'));
        if k >= s.len() {
            seq![s]
        } else {
            seq![strip_cr(s.take(k as int))] + lines_of(s.skip(k + 1int))
        }
    }
}

pub proof fn lemma_lines_of_bounds(s: Seq<char>)
    ensures
        lines_of(s).len() <= s.len(),
        forall|j: int| 0 <= j < lines_of(s).len() ==> (#[trigger] lines_of(s)[j]).len() <= s.len(),
    decreases s.len(),
{
    if s.len() > 0 {
        let k = span(s, CharClass::Not('\n'));
        lemma_span_bounds(s, CharClass::Not('\n'));
        if k < s.len() {
            lemma_lines_of_bounds(s.skip(k + 1int));
            let rest = lines_of(s.skip(k + 1int));
            assert forall|j: int| 0 <= j < lines_of(s).len() implies (#[trigger] lines_of(
                s,
            )[j]).len() <= s.len() by {
                if j > 0 {
                    assert(lines_of(s)[j] == rest[j - 1]);
                }
            }
        }
    }
}

/// The views of a sequence of character vectors.
pub open spec fn views(v: Seq<Vec<char>>) -> Seq<Seq<char>> {
    v.map_values(|x: Vec<char>| x@)
}

/// Splits a text into its lines, as `str::lines` does.
pub fn split_lines(s: &[char]) -> (r: Vec<Vec<char>>)
    ensures
        views(r@) == lines_of(s@),
{
    let mut r: Vec<Vec<char>> = Vec::new();
    let mut pos: usize = 0;
    assert(s@.skip(0) =~= s@);
    while pos < s.len()
        invariant
            pos <= s@.len(),
            lines_of(s@) == views(r@) + lines_of(s@.skip(pos as int)),
        decreases s@.len() - pos,
    {
        let ghost rest = s@.skip(pos as int);
        let k = span_from(s, pos, CharClass::Not('\n'));
        if k >= s.len() {
            let line = copy_range(s, pos, s.len());
            let ghost before = views(r@);
            r.push(line);
            assert(line@ =~= rest);
            assert(views(r@) =~= before + seq![rest]);
            pos = s.len();
            assert(lines_of(s@.skip(pos as int)) =~= seq![]);
        } else {
            let mut end = k;
            if end > pos && s[end - 1] == '\r' {
                end = end - 1;
            }
            let line = copy_range(s, pos, end);
            let ghost before = views(r@);
            r.push(line);
            assert(line@ =~= strip_cr(rest.take(k - pos))) by {
                assert(rest.take(k - pos) =~= s@.subrange(pos as int, k as int));
            }
            assert(views(r@) =~= before + seq![line@]);
            assert(rest.skip(k - pos + 1) =~= s@.skip(k + 1int));
            pos = k + 1;
        }
    }
    r
}


// ---------------------------------------------------------------------------
// Numbers
// ---------------------------------------------------------------------------

/// The decimal digit character for `d < 10`.
pub open spec fn digit_char(d: nat) -> char {
    ((d + 48) as u8) as char
}

/// The decimal notation of `n`, without leading zeros (`format!("{}", n)`).
pub open spec fn decimal(n: nat) -> Seq<char>
    decreases n,
{
    if n < 10 {
        seq![digit_char(n)]
    } else {
        decimal(n / 10).push(digit_char(n % 10))
    }
}

/// Writes `n` in decimal.
pub fn decimal_exec(n: usize) -> (r: Vec<char>)
    ensures
        r@ == decimal(n as nat),
    decreases n,
{
    let d = (n % 10) as u8;
    let c = (d + 48) as char;
    if n < 10 {
        let mut r: Vec<char> = Vec::new();
        r.push(c);
        assert(r@ =~= seq![digit_char(n as nat)]);
        r
    } else {
        let mut r = decimal_exec(n / 10);
        r.push(c);
        r
    }
}

/// A decimal digit character.
pub open spec fn is_digit(c: char) -> bool {
    '0' <= c <= '9'
}

/// The value of a string of decimal digits.
pub open spec fn digits_value(s: Seq<char>) -> nat
    decreases s.len(),
{
    if s.len() == 0 {
        0
    } else {
        digits_value(s.drop_last()) * 10 + ((s.last() as u32) - 48) as nat
    }
}

/// `s` without one leading `+`.
pub open spec fn unsigned_digits(s: Seq<char>) -> Seq<char> {
    if s.len() > 0 && s[0] == '+' {
        s.drop_first()
    } else {
        s
    }
}

/// Every character of `d` is a decimal digit.
pub open spec fn all_digits(d: Seq<char>) -> bool {
    forall|i: int| 0 <= i < d.len() ==> is_digit(#[trigger] d[i])
}

/// `str::parse::<usize>`: an optional `+`, then at least one decimal digit
/// and nothing else, with a value that fits in `usize`.
pub open spec fn parse_usize(s: Seq<char>) -> Option<usize> {
    let d = unsigned_digits(s);
    if d.len() > 0 && all_digits(d) && digits_value(d) <= usize::MAX {
        Some(digits_value(d) as usize)
    } else {
        None
    }
}

proof fn lemma_digits_value_grows(s: Seq<char>, k: int)
    requires
        0 <= k <= s.len(),
        forall|i: int| 0 <= i < s.len() ==> is_digit(#[trigger] s[i]),
    ensures
        digits_value(s.take(k)) <= digits_value(s),
    decreases s.len() - k,
{
    if k < s.len() {
        lemma_digits_value_grows(s, k + 1);
        assert(s.take(k + 1).drop_last() =~= s.take(k));
    } else {
        assert(s.take(k) =~= s);
    }
}

/// Parses a decimal `usize` as `str::parse::<usize>` does.
pub fn parse_usize_exec(s: &[char]) -> (r: Option<usize>)
    ensures
        r == parse_usize(s@),
{
    let start: usize = if s.len() > 0 && s[0] == '+' {
        1
    } else {
        0
    };
    let ghost d = s@.skip(start as int);
    assert(d =~= unsigned_digits(s@));
    if start >= s.len() {
        return None;
    }
    let mut v: usize = 0;
    let mut i: usize = start;
    while i < s.len()
        invariant
            start < s@.len(),
            d == s@.skip(start as int),
            d == unsigned_digits(s@),
            d.len() == s@.len() - start,
            start <= i <= s@.len(),
            forall|k: int| 0 <= k < i - start ==> is_digit(#[trigger] d[k]),
            v == digits_value(d.take(i - start)),
        decreases s@.len() - i,
    {
        let c = s[i];
        if !('0' <= c && c <= '9') {
            assert(!is_digit(d[i - start]));
            assert(!all_digits(d));
            return None;
        }
        let dv = (c as u32 - 48) as usize;
        assert(d[i - start] == c);
        assert(d.take(i - start + 1).drop_last() =~= d.take(i - start));
        assert(d.take(i - start + 1).last() == c);
        assert(digits_value(d.take(i - start + 1)) == v * 10 + dv);
        if v > (usize::MAX - dv) / 10 {
            proof {
                assert(v * 10 + dv > usize::MAX) by (nonlinear_arith)
                    requires
                        v > (usize::MAX - dv) / 10,
                        dv <= 9,
                ;
                if all_digits(d) {
                    lemma_digits_value_grows(d, i - start + 1);
                    assert(digits_value(d) > usize::MAX);
                }
            }
            return None;
        }
        assert(v * 10 + dv <= usize::MAX) by (nonlinear_arith)
            requires
                v <= (usize::MAX - dv) / 10,
                dv <= 9,
        ;
        v = v * 10 + dv;
        i = i + 1;
    }
    assert(d.take(d.len() as int) =~= d);
    Some(v)
}

// ---------------------------------------------------------------------------
// Building text
// ---------------------------------------------------------------------------

/// `n` copies of `c` (`c.to_string().repeat(n)`).
pub open spec fn repeat(c: char, n: nat) -> Seq<char> {
    Seq::new(n, |i: int| c)
}

/// Appends `n` copies of `c` to `v`.
pub fn push_repeat(v: &mut Vec<char>, c: char, n: usize)
    ensures
        final(v)@ == old(v)@ + repeat(c, n as nat),
{
    let ghost v0 = v@;
    let mut i: usize = 0;
    while i < n
        invariant
            i <= n,
            v@ == v0 + repeat(c, i as nat),
        decreases n - i,
    {
        v.push(c);
        assert(v@ =~= v0 + repeat(c, (i + 1) as nat));
        i = i + 1;
    }
}

/// The number of bytes of the UTF-8 encoding of `s` (`str::len`).
pub open spec fn byte_len(s: Seq<char>) -> nat {
    vstd::utf8::encode_utf8(s).len()
}

/// Counts the bytes of the UTF-8 encoding of `s`.
pub fn byte_len_exec(s: &[char]) -> (r: usize)
    requires
        4 * s@.len() <= usize::MAX,
    ensures
        r == byte_len(s@),
{
    let mut i: usize = s.len();
    let mut n: usize = 0;
    assert(s@.skip(s@.len() as int) =~= Seq::<char>::empty());
    while i > 0
        invariant
            i <= s@.len(),
            4 * s@.len() <= usize::MAX,
            n == byte_len(s@.skip(i as int)),
            n <= 4 * (s@.len() - i),
        decreases i,
    {
        let c = s[i - 1];
        let u = c as u32;
        let w: usize = if u <= 0x7f {
            1
        } else if u <= 0x7ff {
            2
        } else if u <= 0xffff {
            3
        } else {
            4
        };
        proof {
            vstd::utf8::char_is_scalar(c);
            assert(s@.skip(i - 1int).drop_first() =~= s@.skip(i as int));
            assert(s@.skip(i - 1int)[0] == c);
            assert(vstd::utf8::encode_scalar(c as u32).len() == w);
        }
        n = n + w;
        i = i - 1;
    }
    assert(s@.skip(0) =~= s@);
    n
}

/// `s` with every non-overlapping occurrence of `pat`, from left to right,
/// replaced by `rep` (`str::replace`, for a non-empty `pat`).
pub open spec fn replace_all(s: Seq<char>, pat: Seq<char>, rep: Seq<char>) -> Seq<char>
    decreases s.len(),
{
    if s.len() == 0 {
        s
    } else if pat.len() > 0 && starts_with(s, pat) {
        rep + replace_all(s.skip(pat.len() as int), pat, rep)
    } else {
        seq![s[0]] + replace_all(s.drop_first(), pat, rep)
    }
}

/// Replaces every occurrence of `pat` in `s` by `rep`, as `str::replace` does.
pub fn replace_all_exec(s: &[char], pat: &[char], rep: &[char]) -> (r: Vec<char>)
    ensures
        r@ == replace_all(s@, pat@, rep@),
{
    let mut out: Vec<char> = Vec::new();
    let mut i: usize = 0;
    assert(s@.skip(0) =~= s@);
    while i < s.len()
        invariant
            i <= s@.len(),
            replace_all(s@, pat@, rep@) == out@ + replace_all(s@.skip(i as int), pat@, rep@),
        decreases s@.len() - i,
    {
        let ghost rest = s@.skip(i as int);
        let tail = copy_range(s, i, s.len());
        assert(tail@ =~= rest);
        if pat.len() > 0 && starts_with_exec(tail.as_slice(), pat) {
            push_all(&mut out, rep);
            assert(rest.skip(pat@.len() as int) =~= s@.skip(i + pat@.len()));
            i = i + pat.len();
        } else {
            out.push(s[i]);
            assert(rest.drop_first() =~= s@.skip(i + 1int));
            i = i + 1;
        }
    }
    assert(s@.skip(i as int) =~= Seq::<char>::empty());
    out
}

/// The pieces of `s` as `str::splitn(n, sep)` yields them: none for `n`
/// zero, at most `n` otherwise, the last holding the rest of `s`.
pub open spec fn split_n(s: Seq<char>, sep: char, n: nat) -> Seq<Seq<char>>
    decreases n,
{
    if n == 0 {
        Seq::empty()
    } else if n == 1 {
        seq![s]
    } else {
        let k = span(s, CharClass::Not(sep));
        if k >= s.len() {
            seq![s]
        } else {
            seq![s.take(k as int)] + split_n(s.skip(k + 1int), sep, (n - 1) as nat)
        }
    }
}

/// Splits `s` at `sep` into at most `n` pieces.
pub fn split_n_exec(s: &[char], sep: char, n: usize) -> (r: Vec<Vec<char>>)
    ensures
        views(r@) == split_n(s@, sep, n as nat),
    decreases n,
{
    if n == 0 {
        let r: Vec<Vec<char>> = Vec::new();
        assert(views(r@) =~= Seq::<Seq<char>>::empty());
        return r;
    }
    let k = span_from(s, 0, CharClass::Not(sep));
    assert(s@.skip(0) =~= s@);
    if n <= 1 || k >= s.len() {
        let mut r: Vec<Vec<char>> = Vec::new();
        let all = copy_range(s, 0, s.len());
        assert(all@ =~= s@);
        r.push(all);
        assert(views(r@) =~= seq![s@]);
        r
    } else {
        let head = copy_range(s, 0, k);
        let tail = copy_range(s, k + 1, s.len());
        let rest = split_n_exec(tail.as_slice(), sep, n - 1);
        let mut r: Vec<Vec<char>> = Vec::new();
        r.push(head);
        let mut j: usize = 0;
        assert(views(r@) =~= seq![s@.take(k as int)]);
        assert(tail@ =~= s@.skip(k + 1int));
        while j < rest.len()
            invariant
                j <= rest@.len(),
                views(r@) == seq![s@.take(k as int)] + views(rest@).take(j as int),
            decreases rest@.len() - j,
        {
            let piece = copy_range(rest[j].as_slice(), 0, rest[j].len());
            assert(piece@ =~= rest@[j as int]@);
            let ghost before = views(r@);
            r.push(piece);
            assert(views(r@) =~= before.push(piece@));
            assert(views(r@) =~= seq![s@.take(k as int)] + views(rest@).take(j + 1int));
            j = j + 1;
        }
        assert(views(rest@).take(rest@.len() as int) =~= views(rest@));
        r
    }
}

} // verus!
