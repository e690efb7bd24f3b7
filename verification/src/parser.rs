//! Turning a raw line of text into a validated integer.
//!
//! A line is accepted when, once the surrounding whitespace is removed, it is
//! a base-10 integer literal (an optional leading `-`, then one or more ASCII
//! digits) whose value fits in an `i32`. Everything else is rejected.

use vstd::prelude::*;
use vstd::slice::slice_subrange;

verus! {

/// Why a line of text was rejected.
#[derive(Clone, Copy, Debug, PartialEq, Eq, Structural)]
pub enum ParseFailure {
    /// The text is empty, holds something other than an integer literal, or
    /// names a value outside the range of `i32`.
    NotANumber,
}

/// Whether `c` has the Unicode property `White_Space`.
pub open spec fn is_whitespace(c: char) -> bool {
    let u = c as u32;
    ||| 0x09 <= u <= 0x0D
    ||| u == 0x20
    ||| u == 0x85
    ||| u == 0xA0
    ||| u == 0x1680
    ||| 0x2000 <= u <= 0x200A
    ||| u == 0x2028
    ||| u == 0x2029
    ||| u == 0x202F
    ||| u == 0x205F
    ||| u == 0x3000
}

/// Whether `c` is one of the ASCII digits `0` to `9`.
pub open spec fn is_digit(c: char) -> bool {
    0x30 <= c as u32 <= 0x39
}

/// The number that the ASCII digit `c` stands for.
pub open spec fn digit_value(c: char) -> int {
    c as u32 - 0x30
}

/// `s` without its leading whitespace.
pub open spec fn trim_start(s: Seq<char>) -> Seq<char>
    decreases s.len(),
{
    if s.len() > 0 && is_whitespace(s.first()) {
        trim_start(s.drop_first())
    } else {
        s
    }
}

/// `s` without its trailing whitespace.
pub open spec fn trim_end(s: Seq<char>) -> Seq<char>
    decreases s.len(),
{
    if s.len() > 0 && is_whitespace(s.last()) {
        trim_end(s.drop_last())
    } else {
        s
    }
}

/// `s` without its leading and trailing whitespace.
pub open spec fn trim(s: Seq<char>) -> Seq<char> {
    trim_end(trim_start(s))
}

/// Whether every character of `s` is an ASCII digit.
pub open spec fn all_digits(s: Seq<char>) -> bool {
    forall|i: int| 0 <= i < s.len() ==> is_digit(#[trigger] s[i])
}

/// The value of a run of digits read in base 10, most significant first.
pub open spec fn digits_value(s: Seq<char>) -> int
    decreases s.len(),
{
    if s.len() == 0 {
        0
    } else {
        digits_value(s.drop_last()) * 10 + digit_value(s.last())
    }
}

/// Whether `s` starts with a minus sign.
pub open spec fn has_sign(s: Seq<char>) -> bool {
    s.len() > 0 && s.first() == '-'
}

/// The part of `s` after its optional minus sign.
pub open spec fn magnitude(s: Seq<char>) -> Seq<char> {
    if has_sign(s) {
        s.drop_first()
    } else {
        s
    }
}

/// Whether `s` is an integer literal: an optional `-`, then at least one
/// digit and nothing but digits.
pub open spec fn is_literal(s: Seq<char>) -> bool {
    magnitude(s).len() > 0 && all_digits(magnitude(s))
}

/// The integer that the literal `s` denotes.
pub open spec fn literal_value(s: Seq<char>) -> int {
    if has_sign(s) {
        -digits_value(magnitude(s))
    } else {
        digits_value(magnitude(s))
    }
}

/// Whether `n` can be held in an `i32`.
pub open spec fn in_domain(n: int) -> bool {
    i32::MIN <= n <= i32::MAX
}

/// What an already trimmed text parses to.
pub open spec fn literal_spec(s: Seq<char>) -> Result<i32, ParseFailure> {
    if is_literal(s) && in_domain(literal_value(s)) {
        Ok(literal_value(s) as i32)
    } else {
        Err(ParseFailure::NotANumber)
    }
}

/// What a raw line parses to.
pub open spec fn parse_spec(raw: Seq<char>) -> Result<i32, ParseFailure> {
    literal_spec(trim(raw))
}

/// Dropping `k` leading whitespace characters does not change what
/// `trim_start` gives.
proof fn lemma_trim_start_skip(s: Seq<char>, k: int)
    requires
        0 <= k <= s.len(),
        forall|i: int| 0 <= i < k ==> is_whitespace(#[trigger] s[i]),
    ensures
        trim_start(s) == trim_start(s.subrange(k, s.len() as int)),
    decreases k,
{
    if k == 0 {
        assert(s.subrange(0, s.len() as int) =~= s);
    } else {
        let rest = s.drop_first();
        assert(is_whitespace(s[0]));
        assert(forall|i: int| 0 <= i < k - 1 ==> is_whitespace(#[trigger] rest[i])) by {
            assert(forall|i: int| 0 <= i < k - 1 ==> rest[i] == s[i + 1]);
        }
        lemma_trim_start_skip(rest, k - 1);
        assert(rest.subrange(k - 1, rest.len() as int) =~= s.subrange(k, s.len() as int));
    }
}

/// Dropping trailing whitespace characters down to length `k` does not
/// change what `trim_end` gives.
proof fn lemma_trim_end_skip(s: Seq<char>, k: int)
    requires
        0 <= k <= s.len(),
        forall|i: int| k <= i < s.len() ==> is_whitespace(#[trigger] s[i]),
    ensures
        trim_end(s) == trim_end(s.subrange(0, k)),
    decreases s.len() - k,
{
    if k == s.len() {
        assert(s.subrange(0, k) =~= s);
    } else {
        let rest = s.drop_last();
        assert(is_whitespace(s[s.len() - 1]));
        lemma_trim_end_skip(rest, k);
        assert(rest.subrange(0, k) =~= s.subrange(0, k));
    }
}

/// Whether `start` and `end` bound what is left of `s` once the whitespace
/// at both ends is removed: only whitespace lies outside them, and what
/// lies between them is empty or begins and ends with something else.
pub open spec fn is_trim_bounds(s: Seq<char>, start: int, end: int) -> bool {
    &&& 0 <= start <= end <= s.len()
    &&& forall|i: int| 0 <= i < start ==> is_whitespace(#[trigger] s[i])
    &&& forall|i: int| end <= i < s.len() ==> is_whitespace(#[trigger] s[i])
    &&& start < end ==> !is_whitespace(s[start]) && !is_whitespace(s[end - 1])
}

/// `trim` cuts a text at its trim bounds.
pub proof fn lemma_trim_by_bounds(s: Seq<char>, start: int, end: int)
    requires
        is_trim_bounds(s, start, end),
    ensures
        trim(s) == s.subrange(start, end),
{
    let tail = s.subrange(start, s.len() as int);
    lemma_trim_start_skip(s, start);
    if start == end {
        assert(forall|i: int| 0 <= i < tail.len() ==> is_whitespace(#[trigger] tail[i]));
        lemma_trim_start_skip(tail, tail.len() as int);
        assert(tail.subrange(tail.len() as int, tail.len() as int) =~= Seq::<char>::empty());
        assert(s.subrange(start, end) =~= Seq::<char>::empty());
    } else {
        assert(tail.first() == s[start]);
        assert(trim_start(tail) == tail);
        assert(forall|i: int| end - start <= i < tail.len() ==> is_whitespace(#[trigger] tail[i]));
        lemma_trim_end_skip(tail, end - start);
        let kept = tail.subrange(0, end - start);
        assert(kept =~= s.subrange(start, end));
        assert(kept.last() == s[end - 1]);
        assert(trim_end(kept) == kept);
    }
}

/// Every text has trim bounds.
pub proof fn lemma_trim_bounds_exist(s: Seq<char>) -> (bounds: (int, int))
    ensures
        is_trim_bounds(s, bounds.0, bounds.1),
{
    let start = lemma_leading_whitespace(s);
    if start == s.len() {
        (start, start)
    } else {
        let end = lemma_trailing_whitespace(s);
        if end <= start {
            assert(is_whitespace(s[start]));
        }
        (start, end)
    }
}

/// The number of whitespace characters at the start of `s`.
proof fn lemma_leading_whitespace(s: Seq<char>) -> (count: int)
    ensures
        0 <= count <= s.len(),
        forall|i: int| 0 <= i < count ==> is_whitespace(#[trigger] s[i]),
        count < s.len() ==> !is_whitespace(s[count]),
    decreases s.len(),
{
    if s.len() > 0 && is_whitespace(s.first()) {
        let rest = s.drop_first();
        let inner = lemma_leading_whitespace(rest);
        assert forall|i: int| 0 <= i < inner + 1 implies is_whitespace(#[trigger] s[i]) by {
            if i > 0 {
                assert(rest[i - 1] == s[i]);
            }
        }
        if inner + 1 < s.len() {
            assert(rest[inner] == s[inner + 1]);
        }
        inner + 1
    } else {
        0
    }
}

/// The place where the whitespace at the end of `s` starts.
proof fn lemma_trailing_whitespace(s: Seq<char>) -> (from: int)
    ensures
        0 <= from <= s.len(),
        forall|i: int| from <= i < s.len() ==> is_whitespace(#[trigger] s[i]),
        from > 0 ==> !is_whitespace(s[from - 1]),
    decreases s.len(),
{
    if s.len() > 0 && is_whitespace(s.last()) {
        let rest = s.drop_last();
        let inner = lemma_trailing_whitespace(rest);
        assert forall|i: int| inner <= i < s.len() implies is_whitespace(#[trigger] s[i]) by {
            if i < rest.len() {
                assert(rest[i] == s[i]);
            }
        }
        if inner > 0 {
            assert(rest[inner - 1] == s[inner - 1]);
        }
        inner
    } else {
        s.len() as int
    }
}

/// Whitespace put before and after a text does not change what is left
/// once it is trimmed.
pub proof fn lemma_trim_ignores_padding(left: Seq<char>, text: Seq<char>, right: Seq<char>)
    requires
        forall|i: int| 0 <= i < left.len() ==> is_whitespace(#[trigger] left[i]),
        forall|i: int| 0 <= i < right.len() ==> is_whitespace(#[trigger] right[i]),
    ensures
        trim(left + text + right) == trim(text),
{
    let padded = left + text + right;
    let (start, end) = lemma_trim_bounds_exist(text);
    lemma_trim_by_bounds(text, start, end);
    let shifted_start = left.len() + start;
    let shifted_end = left.len() + end;
    assert forall|i: int| 0 <= i < shifted_start implies is_whitespace(#[trigger] padded[i]) by {
        if i < left.len() {
            assert(padded[i] == left[i]);
        } else {
            assert(padded[i] == text[i - left.len()]);
        }
    }
    assert forall|i: int| shifted_end <= i < padded.len() implies is_whitespace(
        #[trigger] padded[i],
    ) by {
        if i < left.len() + text.len() {
            assert(padded[i] == text[i - left.len()]);
        } else {
            assert(padded[i] == right[i - left.len() - text.len()]);
        }
    }
    if start < end {
        assert(padded[shifted_start] == text[start]);
        assert(padded[shifted_end - 1] == text[end - 1]);
    }
    lemma_trim_by_bounds(padded, shifted_start, shifted_end);
    assert(padded.subrange(shifted_start, shifted_end) =~= text.subrange(start, end));
}

/// Whitespace put before and after a text does not change what it parses
/// to.
pub proof fn lemma_parse_ignores_padding(left: Seq<char>, text: Seq<char>, right: Seq<char>)
    requires
        forall|i: int| 0 <= i < left.len() ==> is_whitespace(#[trigger] left[i]),
        forall|i: int| 0 <= i < right.len() ==> is_whitespace(#[trigger] right[i]),
    ensures
        parse_spec(left + text + right) == parse_spec(text),
{
    lemma_trim_ignores_padding(left, text, right);
}

/// The value of a run of digits is not negative.
proof fn lemma_digits_value_nonnegative(s: Seq<char>)
    requires
        all_digits(s),
    ensures
        digits_value(s) >= 0,
    decreases s.len(),
{
    if s.len() > 0 {
        assert(is_digit(s[s.len() - 1]));
        lemma_digits_value_nonnegative(s.drop_last());
    }
}

/// A prefix of a run of digits has a value no larger than the whole run.
proof fn lemma_digits_value_prefix(s: Seq<char>, k: int)
    requires
        all_digits(s),
        0 <= k <= s.len(),
    ensures
        0 <= digits_value(s.subrange(0, k)) <= digits_value(s),
    decreases s.len(),
{
    lemma_digits_value_nonnegative(s);
    if k == s.len() {
        assert(s.subrange(0, k) =~= s);
    } else {
        let rest = s.drop_last();
        assert(is_digit(s[s.len() - 1]));
        lemma_digits_value_nonnegative(rest);
        lemma_digits_value_prefix(rest, k);
        assert(rest.subrange(0, k) =~= s.subrange(0, k));
    }
}

/// An integer literal has no whitespace at either end, so trimming leaves
/// it as it is.
pub proof fn lemma_literal_is_trimmed(s: Seq<char>)
    requires
        is_literal(s),
    ensures
        trim(s) == s,
{
    let m = magnitude(s);
    assert(is_digit(m[m.len() - 1]));
    assert(m[m.len() - 1] == s[s.len() - 1]);
    if !has_sign(s) {
        assert(is_digit(m[0]));
    }
    assert(!is_whitespace(s.first()));
    assert(!is_whitespace(s.last()));
}

/// Every integer literal whose value fits in an `i32` parses to exactly that
/// value.
pub proof fn lemma_parse_literal(s: Seq<char>)
    requires
        is_literal(s),
        in_domain(literal_value(s)),
    ensures
        parse_spec(s) == Ok::<i32, ParseFailure>(literal_value(s) as i32),
{
    lemma_literal_is_trimmed(s);
}

/// A text that, once trimmed, holds a character that is not a digit
/// anywhere but in the place of the leading sign is rejected.
pub proof fn lemma_parse_rejects_non_digit(raw: Seq<char>, i: int)
    requires
        0 <= i < trim(raw).len(),
        !is_digit(trim(raw)[i]),
        !(i == 0 && trim(raw)[0] == '-'),
    ensures
        parse_spec(raw) == Err::<i32, ParseFailure>(ParseFailure::NotANumber),
{
    let t = trim(raw);
    let m = magnitude(t);
    if has_sign(t) {
        assert(m[i - 1] == t[i]);
    } else {
        assert(m[i] == t[i]);
    }
}

/// A text that holds a character which is neither a digit nor whitespace
/// is rejected, unless that character is a `-` with nothing but whitespace
/// before it.
pub proof fn lemma_parse_rejects_foreign_character(raw: Seq<char>, i: int)
    requires
        0 <= i < raw.len(),
        !is_digit(raw[i]),
        !is_whitespace(raw[i]),
        !(raw[i] == '-' && forall|j: int| 0 <= j < i ==> is_whitespace(#[trigger] raw[j])),
    ensures
        parse_spec(raw) == Err::<i32, ParseFailure>(ParseFailure::NotANumber),
{
    let (start, end) = lemma_trim_bounds_exist(raw);
    lemma_trim_by_bounds(raw, start, end);
    assert(start <= i < end);
    assert(trim(raw)[i - start] == raw[i]);
    lemma_parse_rejects_non_digit(raw, i - start);
}

/// A text with whitespace between two characters that are not whitespace
/// is rejected.
pub proof fn lemma_parse_rejects_inner_whitespace(raw: Seq<char>, before: int, i: int, after: int)
    requires
        0 <= before < i < after < raw.len(),
        !is_whitespace(raw[before]),
        is_whitespace(raw[i]),
        !is_whitespace(raw[after]),
    ensures
        parse_spec(raw) == Err::<i32, ParseFailure>(ParseFailure::NotANumber),
{
    let (start, end) = lemma_trim_bounds_exist(raw);
    lemma_trim_by_bounds(raw, start, end);
    assert(start <= before);
    assert(after < end);
    assert(trim(raw)[i - start] == raw[i]);
    lemma_parse_rejects_non_digit(raw, i - start);
}

/// A text of whitespace only, the empty text included, is rejected.
pub proof fn lemma_parse_rejects_blank(raw: Seq<char>)
    requires
        forall|i: int| 0 <= i < raw.len() ==> is_whitespace(#[trigger] raw[i]),
    ensures
        trim(raw) == Seq::<char>::empty(),
        parse_spec(raw) == Err::<i32, ParseFailure>(ParseFailure::NotANumber),
{
    lemma_trim_by_bounds(raw, 0, 0);
    assert(raw.subrange(0, 0) =~= Seq::<char>::empty());
}

/// A literal whose value no `i32` can hold is rejected.
pub proof fn lemma_parse_rejects_overflow(raw: Seq<char>)
    requires
        is_literal(trim(raw)),
        !in_domain(literal_value(trim(raw))),
    ensures
        parse_spec(raw) == Err::<i32, ParseFailure>(ParseFailure::NotANumber),
{
}

/// Whether `c` has the Unicode property `White_Space`.
pub fn is_whitespace_char(c: char) -> (b: bool)
    ensures
        b == is_whitespace(c),
{
    let u: u32 = c as u32;
    (0x09 <= u && u <= 0x0D) || u == 0x20 || u == 0x85 || u == 0xA0 || u == 0x1680 || (0x2000 <= u
        && u <= 0x200A) || u == 0x2028 || u == 0x2029 || u == 0x202F || u == 0x205F || u == 0x3000
}

/// Whether `c` is one of the ASCII digits `0` to `9`.
pub fn is_digit_char(c: char) -> (b: bool)
    ensures
        b == is_digit(c),
{
    let u: u32 = c as u32;
    0x30 <= u && u <= 0x39
}

/// The characters of `text`, in order.
fn chars_of(text: &str) -> (chars: Vec<char>)
    ensures
        chars@ == text@,
{
    let mut chars: Vec<char> = Vec::new();
    for c in it: text.chars()
        invariant
            chars@ == it.seq().take(it.index()),
            it.seq() == text@,
    {
        chars.push(c);
    }
    chars
}

/// The bounds of what is left of `chars` once the whitespace at both ends
/// is removed.
fn trim_bounds(chars: &Vec<char>) -> (bounds: (usize, usize))
    ensures
        is_trim_bounds(chars@, bounds.0 as int, bounds.1 as int),
        trim(chars@) == chars@.subrange(bounds.0 as int, bounds.1 as int),
{
    let n: usize = chars.len();
    let mut start: usize = 0;
    while start < n && is_whitespace_char(chars[start])
        invariant
            start <= n == chars.len(),
            forall|i: int| 0 <= i < start ==> is_whitespace(#[trigger] chars@[i]),
        decreases n - start,
    {
        start += 1;
    }
    let mut end: usize = n;
    while end > start && is_whitespace_char(chars[end - 1])
        invariant
            start <= end <= n == chars.len(),
            start < n ==> !is_whitespace(chars@[start as int]),
            forall|i: int| end <= i < n ==> is_whitespace(#[trigger] chars@[i]),
        decreases end,
    {
        end -= 1;
    }
    proof {
        lemma_trim_by_bounds(chars@, start as int, end as int);
    }
    (start, end)
}

/// Reads an already trimmed text as an integer literal.
fn parse_literal(text: &[char]) -> (result: Result<i32, ParseFailure>)
    ensures
        result == literal_spec(text@),
{
    let n: usize = text.len();
    let negative: bool = n > 0 && text[0] == '-';
    let first: usize = if negative { 1 } else { 0 };
    let ghost digits = magnitude(text@);
    assert(digits =~= text@.subrange(first as int, n as int));
    if first == n {
        return Err(ParseFailure::NotANumber);
    }
    let mut acc: i64 = 0;
    let mut i: usize = first;
    while i < n
        invariant
            first <= i <= n == text.len(),
            digits == magnitude(text@),
            digits == text@.subrange(first as int, n as int),
            all_digits(digits.subrange(0, i - first)),
            acc == digits_value(digits.subrange(0, i - first)),
            0 <= acc <= 0x8000_0000,
        decreases n - i,
    {
        let c: char = text[i];
        assert(digits[i - first] == c);
        if !is_digit_char(c) {
            return Err(ParseFailure::NotANumber);
        }
        let d: i64 = (c as u32 - 0x30) as i64;
        let next: i64 = acc * 10 + d;
        proof {
            let longer = digits.subrange(0, i + 1 - first);
            assert(longer.drop_last() =~= digits.subrange(0, i - first));
            assert(longer.last() == c);
            assert(digits_value(longer) == next);
            assert(all_digits(longer)) by {
                assert forall|j: int| 0 <= j < longer.len() implies is_digit(
                    #[trigger] longer[j],
                ) by {
                    if j < i - first {
                        assert(digits.subrange(0, i - first)[j] == longer[j]);
                    }
                }
            }
            if all_digits(digits) {
                lemma_digits_value_prefix(digits, i + 1 - first);
            }
        }
        if next > 0x8000_0000 {
            return Err(ParseFailure::NotANumber);
        }
        acc = next;
        i += 1;
    }
    assert(digits.subrange(0, n - first) =~= digits);
    if negative {
        Ok((-acc) as i32)
    } else if acc > 0x7fff_ffff {
        Err(ParseFailure::NotANumber)
    } else {
        Ok(acc as i32)
    }
}

/// Reads a raw line as an integer.
///
/// The whitespace at both ends is ignored. The rest has to be a base-10
/// literal, an optional `-` followed by digits only, with a value that an
/// `i32` can hold; that value is returned as it is.
pub fn parse(raw: &str) -> (result: Result<i32, ParseFailure>)
    ensures
        result == parse_spec(raw@),
        result is Ok <==> is_literal(trim(raw@)) && in_domain(literal_value(trim(raw@))),
        result is Ok ==> result->Ok_0 == literal_value(trim(raw@)),
        result is Err ==> result->Err_0 == ParseFailure::NotANumber,
{
    let chars = chars_of(raw);
    let (start, end) = trim_bounds(&chars);
    parse_literal(slice_subrange(chars.as_slice(), start, end))
}

} // verus!
