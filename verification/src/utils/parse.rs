//! Reading numbers and lists out of texts.

use vstd::prelude::*;
use vstd::string::*;

verus! {

/// Whether the character is one of the decimal digits `0` to `9`.
pub open spec fn is_digit(c: char) -> bool {
    '0' <= c && c <= '9'
}

/// The value of a decimal digit.
pub open spec fn digit_of(c: char) -> nat {
    (c as u32 - '0' as u32) as nat
}

/// Whether every character is a decimal digit.
pub open spec fn all_digits(s: Seq<char>) -> bool {
    forall|i: int| 0 <= i < s.len() ==> is_digit(#[trigger] s[i])
}

/// The number that a sequence of decimal digits writes.
pub open spec fn number_of(s: Seq<char>) -> nat
    decreases s.len(),
{
    if s.len() == 0 {
        0
    } else {
        number_of(s.drop_last()) * 10 + digit_of(s.last())
    }
}

/// The text without a sign at its start.
pub open spec fn unsigned_part(s: Seq<char>, minus_too: bool) -> Seq<char> {
    if s.len() > 0 && (s[0] == '+' || (minus_too && s[0] == '-')) {
        s.skip(1)
    } else {
        s
    }
}

/// The number up to `max` that a text writes: an optional `+` and then
/// decimal digits, at least one and nothing else. Any other text, and a
/// number above `max`, is nothing.
pub open spec fn unsigned_in(s: Seq<char>, max: nat) -> Option<nat> {
    let digits = unsigned_part(s, false);
    if digits.len() > 0 && all_digits(digits) && number_of(digits) <= max {
        Some(number_of(digits))
    } else {
        None
    }
}

/// The whole number from `min` to `max` that a text writes: an optional
/// `+` or `-` and then decimal digits, at least one and nothing else.
pub open spec fn signed_in(s: Seq<char>, min: int, max: int) -> Option<int> {
    let digits = unsigned_part(s, true);
    let value = if s.len() > 0 && s[0] == '-' {
        -(number_of(digits) as int)
    } else {
        number_of(digits) as int
    };
    if digits.len() > 0 && all_digits(digits) && min <= value <= max {
        Some(value)
    } else {
        None
    }
}

/// Whether the character is white space: a character with the Unicode
/// property `White_Space`.
pub open spec fn is_space(c: char) -> bool {
    c == ' ' || ('\u{9}' <= c && c <= '\u{d}') || c == '\u{85}' || c == '\u{a0}' || c
        == '\u{1680}' || ('\u{2000}' <= c && c <= '\u{200a}') || c == '\u{2028}' || c
        == '\u{2029}' || c == '\u{202f}' || c == '\u{205f}' || c == '\u{3000}'
}

/// The text without the white space at its start.
pub open spec fn trim_start(s: Seq<char>) -> Seq<char>
    decreases s.len(),
{
    if s.len() > 0 && is_space(s[0]) {
        trim_start(s.skip(1))
    } else {
        s
    }
}

/// The text without the white space at its end.
pub open spec fn trim_end(s: Seq<char>) -> Seq<char>
    decreases s.len(),
{
    if s.len() > 0 && is_space(s.last()) {
        trim_end(s.drop_last())
    } else {
        s
    }
}

/// The text without the white space at its start and at its end.
pub open spec fn trimmed(s: Seq<char>) -> Seq<char> {
    trim_end(trim_start(s))
}

/// The place of the first `sep` in the text, or the length of the text
/// where it holds none.
pub open spec fn first_sep(s: Seq<char>, sep: char) -> int
    decreases s.len(),
{
    if s.len() == 0 || s[0] == sep {
        0
    } else {
        1 + first_sep(s.skip(1), sep)
    }
}

/// The fields of the text: what stands between one `sep` and the next. A
/// text without `sep` is one field, and so is the empty text.
pub open spec fn fields(s: Seq<char>, sep: char) -> Seq<Seq<char>>
    decreases s.len(),
{
    let i = first_sep(s, sep);
    if 0 <= i < s.len() {
        seq![s.take(i)] + fields(s.skip(i + 1), sep)
    } else {
        seq![s]
    }
}

/// Where the first `sep` stands, given that it stands at `n` or the text
/// ends there, and that none stands before.
pub proof fn lemma_first_sep(s: Seq<char>, sep: char, n: int)
    requires
        0 <= n <= s.len(),
        forall|j: int| 0 <= j < n ==> s[j] != sep,
        n == s.len() || s[n] == sep,
    ensures
        first_sep(s, sep) == n,
    decreases s.len(),
{
    if n > 0 {
        let rest = s.skip(1);
        assert forall|j: int| 0 <= j < n - 1 implies rest[j] != sep by {
            assert(rest[j] == s[j + 1]);
        }
        lemma_first_sep(rest, sep, n - 1);
    }
}

/// The number written by digits grows with every digit added.
pub proof fn lemma_number_grows(s: Seq<char>, k: int)
    requires
        0 <= k <= s.len(),
        all_digits(s),
    ensures
        number_of(s.take(k)) <= number_of(s),
    decreases s.len() - k,
{
    if k < s.len() {
        lemma_number_grows(s, k + 1);
        assert(s.take(k + 1).drop_last() =~= s.take(k));
    } else {
        assert(s.take(k) =~= s);
    }
}

/// The characters of a text.
pub fn chars_of(text: &str) -> (chars: Vec<char>)
    ensures
        chars@ == text@,
{
    let n = text.unicode_len();
    let mut chars: Vec<char> = Vec::new();
    let mut i: usize = 0;
    while i < n
        invariant
            i <= n,
            n == text@.len(),
            chars@ == text@.take(i as int),
        decreases n - i,
    {
        chars.push(text.get_char(i));
        assert(text@.take(i as int + 1) =~= text@.take(i as int).push(text@[i as int]));
        i += 1;
    }
    assert(text@.take(n as int) =~= text@);
    chars
}

/// The number up to `max` that the digits from `from` to `to` write.
pub(crate) fn digits_in(chars: &Vec<char>, from: usize, to: usize, max: u64) -> (r: Option<u64>)
    requires
        from <= to <= chars.len(),
    ensures
        r is Some <==> all_digits(chars@.subrange(from as int, to as int)) && number_of(
            chars@.subrange(from as int, to as int),
        ) <= max,
        r is Some ==> r->0 == number_of(chars@.subrange(from as int, to as int)),
{
    let ghost digits = chars@.subrange(from as int, to as int);
    let mut value: u64 = 0;
    let mut i: usize = from;
    assert(digits.take(0) =~= Seq::<char>::empty());
    while i < to
        invariant
            from <= i <= to,
            to <= chars.len(),
            digits == chars@.subrange(from as int, to as int),
            all_digits(digits.take(i - from)),
            value == number_of(digits.take(i - from)),
            value <= max,
        decreases to - i,
    {
        let c = chars[i];
        let ghost k = i - from;
        assert(digits[k] == c);
        assert(digits.take(k + 1).drop_last() =~= digits.take(k));
        if c < '0' || c > '9' {
            assert(!is_digit(digits[k]));
            return None;
        }
        let d = (c as u32 - '0' as u32) as u64;
        proof {
            assert forall|j: int| 0 <= j < k + 1 implies is_digit(
                #[trigger] digits.take(k + 1)[j],
            ) by {
                if j < k {
                    assert(digits.take(k)[j] == digits.take(k + 1)[j]);
                }
            }
        }
        if d > max || value > (max - d) / 10 {
            proof {
                if d <= max {
                    assert(value * 10 + d > max) by (nonlinear_arith)
                        requires
                            value > (max - d) / 10,
                            d <= max,
                    ;
                }
                if all_digits(digits) {
                    lemma_number_grows(digits, k + 1);
                }
            }
            return None;
        }
        assert(value * 10 + d <= max) by (nonlinear_arith)
            requires
                value <= (max - d) / 10,
                d <= max,
        ;
        value = value * 10 + d;
        i += 1;
    }
    assert(digits.take(to - from) =~= digits);
    Some(value)
}

/// The number up to `max` that the characters from `from` to `to` write:
/// see `unsigned_in`.
pub(crate) fn unsigned_between(chars: &Vec<char>, from: usize, to: usize, max: u64) -> (r: Option<
    u64,
>)
    requires
        from <= to <= chars.len(),
    ensures
        r is Some <==> unsigned_in(chars@.subrange(from as int, to as int), max as nat) is Some,
        r is Some ==> r->0 == unsigned_in(chars@.subrange(from as int, to as int), max as nat)->0,
{
    let ghost s = chars@.subrange(from as int, to as int);
    let start = if from < to && chars[from] == '+' {
        from + 1
    } else {
        from
    };
    assert(from < to ==> s[0] == chars@[from as int]);
    assert(chars@.subrange(start as int, to as int) =~= unsigned_part(s, false));
    if start == to {
        return None;
    }
    digits_in(chars, start, to, max)
}

/// The first place from `from` on, before `to`, that holds no white space.
pub(crate) fn skip_spaces(chars: &Vec<char>, from: usize, to: usize) -> (start: usize)
    requires
        from <= to <= chars.len(),
    ensures
        from <= start <= to,
        chars@.subrange(start as int, to as int) == trim_start(
            chars@.subrange(from as int, to as int),
        ),
{
    let mut start = from;
    while start < to && is_white_space(chars[start])
        invariant
            from <= start <= to,
            to <= chars.len(),
            trim_start(chars@.subrange(start as int, to as int)) == trim_start(
                chars@.subrange(from as int, to as int),
            ),
        decreases to - start,
    {
        let ghost here = chars@.subrange(start as int, to as int);
        assert(here[0] == chars@[start as int]);
        assert(here.skip(1) =~= chars@.subrange(start as int + 1, to as int));
        start += 1;
    }
    proof {
        let here = chars@.subrange(start as int, to as int);
        if start < to {
            assert(here[0] == chars@[start as int]);
        }
    }
    start
}

/// The place after the last character before `to`, from `from` on, that
/// holds no white space.
pub(crate) fn skip_spaces_back(chars: &Vec<char>, from: usize, to: usize) -> (end: usize)
    requires
        from <= to <= chars.len(),
    ensures
        from <= end <= to,
        chars@.subrange(from as int, end as int) == trim_end(
            chars@.subrange(from as int, to as int),
        ),
{
    let mut end = to;
    while end > from && is_white_space(chars[end - 1])
        invariant
            from <= end <= to,
            to <= chars.len(),
            trim_end(chars@.subrange(from as int, end as int)) == trim_end(
                chars@.subrange(from as int, to as int),
            ),
        decreases end - from,
    {
        let ghost here = chars@.subrange(from as int, end as int);
        assert(here.last() == chars@[end as int - 1]);
        assert(here.drop_last() =~= chars@.subrange(from as int, end as int - 1));
        end -= 1;
    }
    proof {
        let here = chars@.subrange(from as int, end as int);
        if end > from {
            assert(here.last() == chars@[end as int - 1]);
        }
    }
    end
}

/// Whether the character is white space.
pub fn is_white_space(c: char) -> (space: bool)
    ensures
        space == is_space(c),
{
    c == ' ' || ('\u{9}' <= c && c <= '\u{d}') || c == '\u{85}' || c == '\u{a0}' || c
        == '\u{1680}' || ('\u{2000}' <= c && c <= '\u{200a}') || c == '\u{2028}' || c
        == '\u{2029}' || c == '\u{202f}' || c == '\u{205f}' || c == '\u{3000}'
}

/// The bounds of the fields between `from` and `to`, each as the place of
/// its first character and the place after its last.
pub(crate) fn field_bounds(chars: &Vec<char>, from: usize, to: usize, sep: char) -> (bounds: Vec<
    (usize, usize),
>)
    requires
        from <= to <= chars.len(),
    ensures
        bounds@.len() == fields(chars@.subrange(from as int, to as int), sep).len(),
        forall|k: int|
            0 <= k < bounds@.len() ==> from <= (#[trigger] bounds@[k]).0 <= bounds@[k].1 <= to
                && chars@.subrange(bounds@[k].0 as int, bounds@[k].1 as int) == fields(
                chars@.subrange(from as int, to as int),
                sep,
            )[k],
{
    let ghost whole = chars@.subrange(from as int, to as int);
    let mut bounds: Vec<(usize, usize)> = Vec::new();
    let mut start: usize = from;
    let mut i: usize = from;
    let ghost mut done: Seq<Seq<char>> = Seq::empty();
    assert(done + fields(chars@.subrange(start as int, to as int), sep) =~= fields(whole, sep));
    while i < to
        invariant
            from <= start <= i <= to,
            to <= chars.len(),
            whole == chars@.subrange(from as int, to as int),
            forall|j: int| start <= j < i ==> chars@[j] != sep,
            done.len() == bounds@.len(),
            forall|k: int|
                0 <= k < bounds@.len() ==> from <= (#[trigger] bounds@[k]).0 <= bounds@[k].1
                    <= to && chars@.subrange(bounds@[k].0 as int, bounds@[k].1 as int)
                    == done[k],
            done + fields(chars@.subrange(start as int, to as int), sep) == fields(whole, sep),
        decreases to - i,
    {
        if chars[i] == sep {
            let ghost rest = chars@.subrange(start as int, to as int);
            proof {
                assert forall|j: int| 0 <= j < i - start implies rest[j] != sep by {
                    assert(rest[j] == chars@[start + j]);
                }
                assert(rest[i - start] == chars@[i as int]);
                lemma_first_sep(rest, sep, i - start);
                assert(rest.take(i - start) =~= chars@.subrange(start as int, i as int));
                assert(rest.skip(i - start + 1) =~= chars@.subrange(i as int + 1, to as int));
                let field = chars@.subrange(start as int, i as int);
                let after = fields(chars@.subrange(i as int + 1, to as int), sep);
                assert(fields(rest, sep) == seq![field] + after);
                assert(done.push(field) + after =~= done + (seq![field] + after));
                done = done.push(field);
            }
            bounds.push((start, i));
            start = i + 1;
        }
        i += 1;
    }
    proof {
        let rest = chars@.subrange(start as int, to as int);
        assert forall|j: int| 0 <= j < rest.len() implies rest[j] != sep by {
            assert(rest[j] == chars@[start + j]);
        }
        lemma_first_sep(rest, sep, rest.len() as int);
        assert(fields(rest, sep) == seq![rest]);
        assert(done.push(rest) =~= done + seq![rest]);
        done = done.push(rest);
    }
    bounds.push((start, to));
    bounds
}

/// The number up to the largest 32-bit value that a text writes: see
/// `unsigned_in`.
pub fn parse_u32(text: &str) -> (r: Option<u32>)
    ensures
        r is Some <==> unsigned_in(text@, u32::MAX as nat) is Some,
        r is Some ==> r->0 == unsigned_in(text@, u32::MAX as nat)->0,
{
    let chars = chars_of(text);
    assert(chars@.subrange(0, chars@.len() as int) =~= text@);
    match unsigned_between(&chars, 0, chars.len(), 0xffff_ffff) {
        Some(value) => Some(value as u32),
        None => None,
    }
}

/// The number up to the largest 64-bit value that a text writes: see
/// `unsigned_in`.
pub fn parse_u64(text: &str) -> (r: Option<u64>)
    ensures
        r is Some <==> unsigned_in(text@, u64::MAX as nat) is Some,
        r is Some ==> r->0 == unsigned_in(text@, u64::MAX as nat)->0,
{
    let chars = chars_of(text);
    assert(chars@.subrange(0, chars@.len() as int) =~= text@);
    unsigned_between(&chars, 0, chars.len(), 0xffff_ffff_ffff_ffff)
}

/// The 32-bit whole number that a text writes: see `signed_in`.
pub fn parse_i32(text: &str) -> (r: Option<i32>)
    ensures
        r is Some <==> signed_in(text@, i32::MIN as int, i32::MAX as int) is Some,
        r is Some ==> r->0 == signed_in(text@, i32::MIN as int, i32::MAX as int)->0,
{
    let chars = chars_of(text);
    let n = chars.len();
    let negative = n > 0 && chars[0] == '-';
    let start: usize = if n > 0 && (chars[0] == '+' || chars[0] == '-') {
        1
    } else {
        0
    };
    assert(chars@.subrange(start as int, n as int) =~= unsigned_part(text@, true));
    if start == n {
        return None;
    }
    let limit: u64 = if negative {
        0x8000_0000
    } else {
        0x7fff_ffff
    };
    match digits_in(&chars, start, n, limit) {
        Some(value) => {
            if negative {
                Some((-(value as i64)) as i32)
            } else {
                Some(value as i32)
            }
        },
        None => None,
    }
}

/// Whether the text is exactly `true`.
pub fn parse_flag(text: &str) -> (flag: bool)
    ensures
        flag == (text@ == "true"@),
{
    String::from_str(text) == String::from_str("true")
}

/// Whether `pattern` stands in `text` from place `i` on.
pub open spec fn occurs_at(text: Seq<char>, pattern: Seq<char>, i: int) -> bool {
    0 <= i && i + pattern.len() <= text.len() && text.subrange(i, i + pattern.len()) == pattern
}

/// Whether `pattern` stands somewhere in `text`. The empty pattern stands in
/// every text.
pub open spec fn contains_text(text: Seq<char>, pattern: Seq<char>) -> bool {
    exists|i: int| occurs_at(text, pattern, i)
}

/// Whether `pattern` stands in `text` from place `i` on.
fn matches_at(text: &Vec<char>, pattern: &Vec<char>, i: usize) -> (found: bool)
    requires
        i + pattern.len() <= text.len(),
    ensures
        found == occurs_at(text@, pattern@, i as int),
{
    let mut k: usize = 0;
    while k < pattern.len()
        invariant
            k <= pattern.len(),
            i + pattern.len() <= text.len(),
            forall|j: int| 0 <= j < k ==> text@[i + j] == pattern@[j],
        decreases pattern.len() - k,
    {
        if text[i + k] != pattern[k] {
            assert(text@.subrange(i as int, i + pattern.len())[k as int] == text@[i + k]);
            return false;
        }
        k += 1;
    }
    assert(text@.subrange(i as int, i + pattern.len()) =~= pattern@);
    true
}

/// Whether `pattern` stands somewhere in `text`.
pub fn contains(text: &str, pattern: &str) -> (found: bool)
    ensures
        found == contains_text(text@, pattern@),
{
    let hay = chars_of(text);
    let needle = chars_of(pattern);
    if needle.len() > hay.len() {
        return false;
    }
    let last = hay.len() - needle.len();
    let mut i: usize = 0;
    loop
        invariant
            i <= last,
            last == hay.len() - needle.len(),
            needle.len() <= hay.len(),
            hay@ == text@,
            needle@ == pattern@,
            forall|j: int| 0 <= j < i ==> !occurs_at(hay@, needle@, j),
        decreases last - i,
    {
        if matches_at(&hay, &needle, i) {
            return true;
        }
        if i == last {
            return false;
        }
        i += 1;
    }
}

} // verus!
