//! Conversions between strings and sequences of characters, and the character
//! classes that the tokenizer and the command parsers share.

use vstd::prelude::*;
use vstd::std_specs::iter::IteratorSpec;
use vstd::string::StrSliceExecFns;

verus! {

/// `String::push` appends one character to the end of the string.
pub assume_specification[ String::push ](s: &mut String, c: char)
    ensures
        final(s)@ == old(s)@.push(c),
;

/// `String::pop` takes the last character off the string and returns it;
/// an empty string stays as it is and the result is `None`.
pub assume_specification[ String::pop ](s: &mut String) -> (last: Option<char>)
    ensures
        old(s)@.len() > 0 ==> last == Some(old(s)@.last()) && final(s)@ == old(s)@.drop_last(),
        old(s)@.len() == 0 ==> last is None && final(s)@ == old(s)@,
;

/// The characters of `s`, in order.
pub fn chars_of(s: &str) -> (v: Vec<char>)
    ensures
        v@ == s@,
{
    let mut it = s.chars();
    let mut v: Vec<char> = Vec::new();
    loop
        invariant
            v@ + it.remaining() == s@,
            it.obeys_prophetic_iter_laws(),
        ensures
            v@ == s@,
        decreases s@.len() - v@.len(),
    {
        broadcast use vstd::string::group_string_axioms;
        let ghost before = it;
        match it.next() {
            Some(c) => {
                assert(v@.push(c) + before.remaining().drop_first() =~= v@ + before.remaining());
                v.push(c);
            },
            None => {
                assert(before.remaining().len() == 0);
                assert(v@ + it.remaining() =~= v@);
                break;
            },
        }
    }
    v
}

/// The string whose characters are `chars[from..to]`.
pub fn string_of(chars: &Vec<char>, from: usize, to: usize) -> (s: String)
    requires
        from <= to <= chars@.len(),
    ensures
        s@ == chars@.subrange(from as int, to as int),
{
    let mut s = String::new();
    let mut i: usize = from;
    while i < to
        invariant
            from <= i <= to <= chars@.len(),
            s@ == chars@.subrange(from as int, i as int),
        decreases to - i,
    {
        s.push(chars[i]);
        assert(chars@.subrange(from as int, i as int).push(chars@[i as int])
            =~= chars@.subrange(from as int, i + 1));
        i += 1;
    }
    s
}

/// A copy of `chars[from..to]`.
pub fn copy_range(chars: &Vec<char>, from: usize, to: usize) -> (v: Vec<char>)
    requires
        from <= to <= chars@.len(),
    ensures
        v@ == chars@.subrange(from as int, to as int),
{
    let mut v: Vec<char> = Vec::new();
    let mut i: usize = from;
    while i < to
        invariant
            from <= i <= to <= chars@.len(),
            v@ == chars@.subrange(from as int, i as int),
        decreases to - i,
    {
        v.push(chars[i]);
        assert(chars@.subrange(from as int, i as int).push(chars@[i as int])
            =~= chars@.subrange(from as int, i + 1));
        i += 1;
    }
    v
}

/// Whether `chars` spells exactly the characters of `literal`.
pub fn spells(chars: &Vec<char>, literal: &str) -> (r: bool)
    ensures
        r == (chars@ == literal@),
{
    let n: usize = literal.unicode_len();
    if chars.len() != n {
        return false;
    }
    let mut i: usize = 0;
    while i < n
        invariant
            i <= n,
            n == chars@.len(),
            n == literal@.len(),
            forall|j: int| 0 <= j < i ==> chars@[j] == literal@[j],
        decreases n - i,
    {
        if chars[i] != literal.get_char(i) {
            return false;
        }
        i += 1;
    }
    assert(chars@ =~= literal@);
    true
}

/// The characters with the Unicode property `White_Space`.
pub open spec fn spec_is_whitespace(c: char) -> bool {
    ||| '\u{9}' <= c <= '\u{D}'
    ||| c == ' '
    ||| c == '\u{85}'
    ||| c == '\u{A0}'
    ||| c == '\u{1680}'
    ||| '\u{2000}' <= c <= '\u{200A}'
    ||| c == '\u{2028}'
    ||| c == '\u{2029}'
    ||| c == '\u{202F}'
    ||| c == '\u{205F}'
    ||| c == '\u{3000}'
}

/// Whether `c` is white space.
#[verifier::when_used_as_spec(spec_is_whitespace)]
pub fn is_whitespace(c: char) -> (r: bool)
    ensures
        r == spec_is_whitespace(c),
{
    (c >= '\u{9}' && c <= '\u{D}') || c == ' ' || c == '\u{85}' || c == '\u{A0}' || c
        == '\u{1680}' || (c >= '\u{2000}' && c <= '\u{200A}') || c == '\u{2028}' || c
        == '\u{2029}' || c == '\u{202F}' || c == '\u{205F}' || c == '\u{3000}'
}

/// `s` without the white space at its start.
pub open spec fn trim_start(s: Seq<char>) -> Seq<char>
    decreases s.len(),
{
    if s.len() > 0 && spec_is_whitespace(s[0]) {
        trim_start(s.drop_first())
    } else {
        s
    }
}

/// `s` without the white space at its end.
pub open spec fn trim_end(s: Seq<char>) -> Seq<char>
    decreases s.len(),
{
    if s.len() > 0 && spec_is_whitespace(s.last()) {
        trim_end(s.drop_last())
    } else {
        s
    }
}

/// `s` without the white space at its start and at its end.
pub open spec fn trimmed(s: Seq<char>) -> Seq<char> {
    trim_end(trim_start(s))
}

/// The bounds within `chars[from..to]` of what is left of it when the white
/// space at both ends is taken away.
pub fn trim_range(chars: &Vec<char>, from: usize, to: usize) -> (range: (usize, usize))
    requires
        from <= to <= chars@.len(),
    ensures
        from <= range.0 <= range.1 <= to,
        chars@.subrange(range.0 as int, range.1 as int) == trimmed(
            chars@.subrange(from as int, to as int),
        ),
{
    let mut a: usize = from;
    while a < to && is_whitespace(chars[a])
        invariant
            from <= a <= to <= chars@.len(),
            trim_start(chars@.subrange(from as int, to as int)) == trim_start(
                chars@.subrange(a as int, to as int),
            ),
        decreases to - a,
    {
        assert(chars@.subrange(a as int, to as int).drop_first() =~= chars@.subrange(
            a + 1,
            to as int,
        ));
        a += 1;
    }
    let mut b: usize = to;
    while b > a && is_whitespace(chars[b - 1])
        invariant
            a <= b <= to <= chars@.len(),
            trim_end(chars@.subrange(a as int, to as int)) == trim_end(
                chars@.subrange(a as int, b as int),
            ),
        decreases b,
    {
        assert(chars@.subrange(a as int, b as int).drop_last() =~= chars@.subrange(
            a as int,
            b - 1,
        ));
        b -= 1;
    }
    (a, b)
}

/// The lower-case form of a text.
pub uninterp spec fn lowercase(text: Seq<char>) -> Seq<char>;

/// `str::to_lowercase`: the text with every character replaced by its
/// lower-case form. Nothing is claimed of the value but that it is a
/// function of the text.
#[verifier::external_body]
pub(crate) fn to_lowercase(text: &str) -> (lower: String)
    ensures
        lower@ == lowercase(text@),
{
    text.to_lowercase()
}

/// Whether `needle` occurs in `text` as a run of consecutive characters.
pub open spec fn spec_contains(text: Seq<char>, needle: Seq<char>) -> bool {
    exists|i: int| occurs_at(text, needle, i)
}

/// Whether `needle` stands in `text` at position `i`.
pub open spec fn occurs_at(text: Seq<char>, needle: Seq<char>, i: int) -> bool {
    0 <= i && i + needle.len() <= text.len() && text.subrange(i, i + needle.len()) == needle
}

fn matches_at(text: &Vec<char>, needle: &Vec<char>, at: usize) -> (r: bool)
    requires
        at + needle@.len() <= text@.len(),
    ensures
        r == occurs_at(text@, needle@, at as int),
{
    let mut j: usize = 0;
    let n: usize = text.len();
    while j < needle.len()
        invariant
            j <= needle@.len(),
            n == text@.len(),
            at + needle@.len() <= text@.len(),
            forall|k: int| 0 <= k < j ==> text@[at + k] == needle@[k],
        decreases needle@.len() - j,
    {
        if text[at + j] != needle[j] {
            assert(text@.subrange(at as int, at + needle@.len())[j as int] != needle@[j as int]);
            return false;
        }
        j += 1;
    }
    assert(text@.subrange(at as int, at + needle@.len()) =~= needle@);
    true
}

/// Whether `needle` occurs in `text`.
pub fn contains_text(text: &str, needle: &str) -> (r: bool)
    ensures
        r == spec_contains(text@, needle@),
{
    let hay = chars_of(text);
    let pin = chars_of(needle);
    let n: usize = hay.len();
    let m: usize = pin.len();
    if m == 0 {
        assert(text@.subrange(0, 0) =~= needle@);
        assert(occurs_at(text@, needle@, 0));
        return true;
    }
    let mut i: usize = 0;
    while i < n && n - i >= m
        invariant
            i <= n,
            n == hay@.len(),
            m == pin@.len(),
            m > 0,
            hay@ == text@,
            pin@ == needle@,
            forall|k: int| 0 <= k < i ==> !occurs_at(text@, needle@, k),
        decreases n - i,
    {
        if matches_at(&hay, &pin, i) {
            return true;
        }
        i += 1;
    }
    assert forall|k: int| !occurs_at(text@, needle@, k) by {}
    false
}

/// Whether `c` occurs in `chars`.
pub fn contains_char(chars: &Vec<char>, c: char) -> (r: bool)
    ensures
        r == chars@.contains(c),
{
    let mut i: usize = 0;
    while i < chars.len()
        invariant
            i <= chars@.len(),
            forall|j: int| 0 <= j < i ==> chars@[j] != c,
        decreases chars@.len() - i,
    {
        if chars[i] == c {
            return true;
        }
        i += 1;
    }
    false
}

/// The character of one decimal digit.
pub open spec fn digit_char(d: nat) -> char {
    if d == 0 {
        '0'
    } else if d == 1 {
        '1'
    } else if d == 2 {
        '2'
    } else if d == 3 {
        '3'
    } else if d == 4 {
        '4'
    } else if d == 5 {
        '5'
    } else if d == 6 {
        '6'
    } else if d == 7 {
        '7'
    } else if d == 8 {
        '8'
    } else {
        '9'
    }
}

/// The decimal digits of `n`, most significant first, without leading zeros.
pub open spec fn decimal(n: nat) -> Seq<char>
    decreases n,
{
    if n < 10 {
        seq![digit_char(n)]
    } else {
        decimal(n / 10).push(digit_char(n % 10))
    }
}

/// Whether `c` is one of the ten digits.
pub open spec fn is_decimal_digit(c: char) -> bool {
    '0' <= c <= '9'
}

/// The value of one digit.
pub open spec fn digit_value(c: char) -> nat {
    if c == '1' {
        1
    } else if c == '2' {
        2
    } else if c == '3' {
        3
    } else if c == '4' {
        4
    } else if c == '5' {
        5
    } else if c == '6' {
        6
    } else if c == '7' {
        7
    } else if c == '8' {
        8
    } else if c == '9' {
        9
    } else {
        0
    }
}

/// The number that a run of digits spells.
pub open spec fn digits_value(digits: Seq<char>) -> nat
    decreases digits.len(),
{
    if digits.len() == 0 {
        0
    } else {
        digits_value(digits.drop_last()) * 10 + digit_value(digits.last())
    }
}

/// A number as it is written: digits only, at least one, and no zero in
/// front of another digit.
pub open spec fn is_numeral(digits: Seq<char>) -> bool {
    &&& digits.len() >= 1
    &&& forall|i: int| 0 <= i < digits.len() ==> is_decimal_digit(#[trigger] digits[i])
    &&& (digits.len() > 1 ==> digits[0] != '0')
}

/// The digits of a number are a numeral that spells the number.
pub proof fn lemma_decimal_is_numeral(n: nat)
    ensures
        is_numeral(decimal(n)),
        digits_value(decimal(n)) == n,
        n > 0 ==> decimal(n)[0] != '0',
    decreases n,
{
    if n < 10 {
        assert(decimal(n).drop_last() =~= Seq::<char>::empty());
        assert(digits_value(decimal(n).drop_last()) == 0);
        assert(decimal(n).last() == digit_char(n));
    } else {
        lemma_decimal_is_numeral(n / 10);
        let shorter = decimal(n / 10);
        let d = digit_char(n % 10);
        assert(decimal(n) == shorter.push(d));
        assert(decimal(n).drop_last() =~= shorter);
        assert(decimal(n).last() == d);
        assert(digit_value(d) == n % 10);
        assert forall|i: int| 0 <= i < decimal(n).len() implies is_decimal_digit(
            #[trigger] decimal(n)[i],
        ) by {
            if i < shorter.len() {
                assert(decimal(n)[i] == shorter[i]);
            }
        }
        assert(decimal(n)[0] == shorter[0]);
    }
}

/// A numeral is the digits of the number that it spells.
pub proof fn lemma_numeral_is_decimal(digits: Seq<char>)
    requires
        is_numeral(digits),
    ensures
        decimal(digits_value(digits)) == digits,
        digits.len() > 1 ==> digits_value(digits) >= 10,
        digits[0] != '0' ==> digits_value(digits) > 0,
    decreases digits.len(),
{
    let last = digits.last();
    assert(is_decimal_digit(digits[digits.len() - 1]));
    assert(digit_char(digit_value(last)) == last);
    assert(digit_value(last) < 10);
    if digits.len() == 1 {
        assert(digits.drop_last() =~= Seq::<char>::empty());
        assert(digits_value(digits.drop_last()) == 0);
        assert(decimal(digit_value(last)) =~= digits);
    } else {
        let shorter = digits.drop_last();
        assert forall|i: int| 0 <= i < shorter.len() implies is_decimal_digit(
            #[trigger] shorter[i],
        ) by {
            assert(shorter[i] == digits[i]);
        }
        assert(shorter[0] == digits[0]);
        lemma_numeral_is_decimal(shorter);
        let v = digits_value(shorter);
        assert(v > 0);
        let n = v * 10 + digit_value(last);
        assert(n / 10 == v && n % 10 == digit_value(last));
        assert(decimal(n) =~= digits);
    }
}

/// Two numbers with the same digits are the same number.
pub proof fn lemma_decimal_is_injective(a: nat, b: nat)
    requires
        decimal(a) == decimal(b),
    ensures
        a == b,
{
    lemma_decimal_is_numeral(a);
    lemma_decimal_is_numeral(b);
}

fn value_of_digit(c: char) -> (d: u64)
    requires
        is_decimal_digit(c),
    ensures
        d == digit_value(c),
        d < 10,
{
    if c == '1' {
        1
    } else if c == '2' {
        2
    } else if c == '3' {
        3
    } else if c == '4' {
        4
    } else if c == '5' {
        5
    } else if c == '6' {
        6
    } else if c == '7' {
        7
    } else if c == '8' {
        8
    } else if c == '9' {
        9
    } else {
        0
    }
}

/// Where the run of digits that starts at `from` ends.
pub open spec fn digits_end(chars: Seq<char>, from: int) -> int
    decreases chars.len() - from,
{
    if 0 <= from < chars.len() && is_decimal_digit(chars[from]) {
        digits_end(chars, from + 1)
    } else {
        from
    }
}

/// The run of digits from `from` ends at `digits_end`: it holds digits only
/// and no digit follows it.
pub proof fn lemma_digits_end(chars: Seq<char>, from: int)
    requires
        0 <= from <= chars.len(),
    ensures
        from <= digits_end(chars, from) <= chars.len(),
        forall|i: int| from <= i < digits_end(chars, from) ==> is_decimal_digit(#[trigger] chars[i]),
        digits_end(chars, from) < chars.len() ==> !is_decimal_digit(
            chars[digits_end(chars, from)],
        ),
    decreases chars.len() - from,
{
    if from < chars.len() && is_decimal_digit(chars[from]) {
        lemma_digits_end(chars, from + 1);
    }
}

/// A stretch of digits that no digit follows is the run of digits from its
/// start.
pub proof fn lemma_digits_end_is_unique(chars: Seq<char>, from: int, end: int)
    requires
        0 <= from <= end <= chars.len(),
        forall|i: int| from <= i < end ==> is_decimal_digit(#[trigger] chars[i]),
        end < chars.len() ==> !is_decimal_digit(chars[end]),
    ensures
        digits_end(chars, from) == end,
    decreases end - from,
{
    if from < end {
        assert(is_decimal_digit(chars[from]));
        lemma_digits_end_is_unique(chars, from + 1, end);
    }
}

/// The number written at `from`: the run of digits that starts there, if it
/// is a numeral of a number that fits 32 bits. The result is the number and
/// the place where the run ends.
pub open spec fn spec_number_at(chars: Seq<char>, from: int) -> Option<(u32, int)> {
    let end = digits_end(chars, from);
    let run = chars.subrange(from, end);
    if 0 <= from <= chars.len() && is_numeral(run) && digits_value(run) <= u32::MAX {
        Some((digits_value(run) as u32, end))
    } else {
        None
    }
}

/// Reads the number written at `from`.
pub fn number_at(chars: &Vec<char>, from: usize) -> (found: Option<(u32, usize)>)
    requires
        from <= chars@.len(),
    ensures
        match found {
            Some((value, end)) => spec_number_at(chars@, from as int) == Some((value, end as int)),
            None => spec_number_at(chars@, from as int) is None,
        },
{
    let n: usize = chars.len();
    let mut end: usize = from;
    let mut value: u64 = 0;
    let mut fits: bool = true;
    proof {
        assert(chars@.subrange(from as int, from as int) =~= Seq::<char>::empty());
    }
    while end < n && chars[end] >= '0' && chars[end] <= '9'
        invariant
            from <= end <= n,
            n == chars@.len(),
            digits_end(chars@, from as int) == digits_end(chars@, end as int),
            forall|i: int| from <= i < end ==> is_decimal_digit(#[trigger] chars@[i]),
            fits ==> value == digits_value(chars@.subrange(from as int, end as int)),
            fits ==> value <= u32::MAX,
            !fits ==> digits_value(chars@.subrange(from as int, end as int)) > u32::MAX,
        decreases n - end,
    {
        let d: u64 = value_of_digit(chars[end]);
        proof {
            let longer = chars@.subrange(from as int, end + 1);
            assert(longer.drop_last() =~= chars@.subrange(from as int, end as int));
            assert(longer.last() == chars@[end as int]);
        }
        if fits {
            value = value * 10 + d;
            if value > u32::MAX as u64 {
                fits = false;
            }
        }
        end += 1;
    }
    let ghost run = chars@.subrange(from as int, end as int);
    proof {
        assert(digits_end(chars@, end as int) == end);
        assert forall|i: int| 0 <= i < run.len() implies is_decimal_digit(#[trigger] run[i]) by {
            assert(run[i] == chars@[from + i]);
        }
    }
    if end == from {
        return None;
    }
    assert(run[0] == chars@[from as int]);
    if end - from > 1 && chars[from] == '0' {
        return None;
    }
    if !fits {
        return None;
    }
    Some((value as u32, end))
}

fn digit_of(d: u64) -> (c: char)
    requires
        d < 10,
    ensures
        c == digit_char(d as nat),
{
    if d == 0 {
        '0'
    } else if d == 1 {
        '1'
    } else if d == 2 {
        '2'
    } else if d == 3 {
        '3'
    } else if d == 4 {
        '4'
    } else if d == 5 {
        '5'
    } else if d == 6 {
        '6'
    } else if d == 7 {
        '7'
    } else if d == 8 {
        '8'
    } else {
        '9'
    }
}

/// Appends the decimal digits of `n` to `s`.
pub fn append_decimal(s: &mut String, n: u64)
    ensures
        final(s)@ == old(s)@ + decimal(n as nat),
    decreases n,
{
    if n < 10 {
        s.push(digit_of(n));
        assert(old(s)@.push(digit_char(n as nat)) =~= old(s)@ + decimal(n as nat));
    } else {
        append_decimal(s, n / 10);
        s.push(digit_of(n % 10));
        assert((old(s)@ + decimal((n / 10) as nat)).push(digit_char((n % 10) as nat)) =~= old(s)@
            + decimal(n as nat));
    }
}

} // verus!
