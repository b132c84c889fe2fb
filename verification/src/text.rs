//! Text helpers: decimal numbers, white space, searching and joining.

use vstd::prelude::*;
use vstd::utf8::{encode_scalar, encode_utf8};

verus! {

/// `String::push`: the character is appended at the end of the string.
pub assume_specification[ String::push ](s: &mut String, c: char)
    ensures
        final(s)@ == old(s)@.push(c),
;

/// The text of an optional string.
pub open spec fn opt_text(value: Option<String>) -> Option<Seq<char>> {
    match value {
        Some(text) => Some(text@),
        None => None,
    }
}

/// The text of an optional string slice.
pub open spec fn opt_str(value: Option<&str>) -> Option<Seq<char>> {
    match value {
        Some(text) => Some(text@),
        None => None,
    }
}

/// The texts of a sequence of strings.
pub open spec fn texts(values: Seq<String>) -> Seq<Seq<char>> {
    values.map_values(|s: String| s@)
}

/// The character of a decimal digit.
pub open spec fn digit_char(d: int) -> char {
    if d == 0 {
        '0'
    } else if d == 1 {
        '1'
    } else if d == 2 {
        '2'
    } else if d == 3 {
        '3'
    } else if d == 4 {
        '4'
    } else if d == 5 {
        '5'
    } else if d == 6 {
        '6'
    } else if d == 7 {
        '7'
    } else if d == 8 {
        '8'
    } else {
        '9'
    }
}

/// The decimal text of a natural number, without leading zeros.
pub open spec fn nat_text(n: nat) -> Seq<char>
    decreases n,
{
    if n < 10 {
        seq![digit_char(n as int)]
    } else {
        nat_text(n / 10).push(digit_char((n % 10) as int))
    }
}

/// The decimal text of an integer, with a minus sign where it is negative.
pub open spec fn int_text(n: int) -> Seq<char> {
    if n < 0 {
        seq!['-'] + nat_text((-n) as nat)
    } else {
        nat_text(n as nat)
    }
}

/// `n` zeros.
pub open spec fn zeros(n: int) -> Seq<char> {
    Seq::new(if n > 0 { n as nat } else { 0 }, |i: int| '0')
}

/// The decimal text of an integer, filled up with zeros after the sign to at least
/// `width` characters.
pub open spec fn padded_int_text(n: int, width: int) -> Seq<char> {
    if n < 0 {
        let digits = nat_text((-n) as nat);
        seq!['-'] + zeros(width - 1 - digits.len()) + digits
    } else {
        let digits = nat_text(n as nat);
        zeros(width - digits.len()) + digits
    }
}

fn digit(d: u128) -> (c: char)
    requires
        d < 10,
    ensures
        c == digit_char(d as int),
{
    if d == 0 {
        '0'
    } else if d == 1 {
        '1'
    } else if d == 2 {
        '2'
    } else if d == 3 {
        '3'
    } else if d == 4 {
        '4'
    } else if d == 5 {
        '5'
    } else if d == 6 {
        '6'
    } else if d == 7 {
        '7'
    } else if d == 8 {
        '8'
    } else {
        '9'
    }
}

/// The decimal text of `n`.
pub fn nat_string(n: u128) -> (s: String)
    ensures
        s@ == nat_text(n as nat),
    decreases n,
{
    if n < 10 {
        let mut s = String::new();
        s.push(digit(n));
        proof {
            assert(s@ =~= seq![digit_char(n as int)]);
        }
        s
    } else {
        let mut s = nat_string(n / 10);
        s.push(digit(n % 10));
        s
    }
}

/// The distance of `n` from zero.
fn magnitude(n: i64) -> (m: u128)
    ensures
        m == (if n < 0 { -n } else { n as int }),
{
    if n < 0 {
        (-(n as i128)) as u128
    } else {
        n as u128
    }
}

/// The decimal text of `n`.
pub fn int_string(n: i64) -> (s: String)
    ensures
        s@ == int_text(n as int),
{
    let digits = nat_string(magnitude(n));
    if n < 0 {
        let mut s = String::new();
        s.push('-');
        s.append(digits.as_str());
        proof {
            assert(s@ =~= int_text(n as int));
        }
        s
    } else {
        digits
    }
}

/// The decimal text of `n`, filled up with zeros after the sign to at least `width`
/// characters.
pub fn padded_int_string(n: i64, width: usize) -> (s: String)
    ensures
        s@ == padded_int_text(n as int, width as int),
{
    let digits = nat_string(magnitude(n));
    let mut s = String::new();
    let taken: usize = if n < 0 {
        s.push('-');
        1
    } else {
        0
    };
    let ghost sign = s@;
    let room: usize = width.saturating_sub(taken).saturating_sub(digits.as_str().unicode_len());
    for i in 0..room
        invariant
            s@ == sign + zeros(i as int),
    {
        s.push('0');
        assert(s@ =~= sign + zeros(i + 1));
    }
    s.append(digits.as_str());
    proof {
        assert(s@ =~= padded_int_text(n as int, width as int));
    }
    s
}

/// The characters of a text, one by one.
pub fn char_vec(text: &str) -> (chars: Vec<char>)
    ensures
        chars@ == text@,
{
    let mut chars: Vec<char> = Vec::new();
    for c in it: text.chars()
        invariant
            chars@ == it.seq().take(it.index() as int),
            it.seq() == text@,
    {
        chars.push(c);
        assert(chars@ =~= it.seq().take(it.index() + 1));
    }
    assert(chars@ =~= text@);
    chars
}

/// Unicode white space: the code points with the property `White_Space`.
pub open spec fn is_space(c: char) -> bool {
    ||| '\u{9}' <= c <= '\u{d}'
    ||| c == '\u{20}'
    ||| c == '\u{85}'
    ||| c == '\u{a0}'
    ||| c == '\u{1680}'
    ||| '\u{2000}' <= c <= '\u{200a}'
    ||| c == '\u{2028}'
    ||| c == '\u{2029}'
    ||| c == '\u{202f}'
    ||| c == '\u{205f}'
    ||| c == '\u{3000}'
}

fn space(c: char) -> (b: bool)
    ensures
        b == is_space(c),
{
    ('\u{9}' <= c && c <= '\u{d}') || c == '\u{20}' || c == '\u{85}' || c == '\u{a0}' || c
        == '\u{1680}' || ('\u{2000}' <= c && c <= '\u{200a}') || c == '\u{2028}' || c == '\u{2029}'
        || c == '\u{202f}' || c == '\u{205f}' || c == '\u{3000}'
}

/// A text that holds nothing but white space.
pub open spec fn is_blank(text: Seq<char>) -> bool {
    forall|i: int| 0 <= i < text.len() ==> is_space(#[trigger] text[i])
}

/// Whether a text holds nothing but white space.
pub fn blank(text: &str) -> (b: bool)
    ensures
        b == is_blank(text@),
{
    let chars = char_vec(text);
    for i in 0..chars.len()
        invariant
            chars@ == text@,
            forall|j: int| 0 <= j < i ==> is_space(#[trigger] text@[j]),
    {
        if !space(chars[i]) {
            return false;
        }
    }
    true
}

/// The text without the white space at its start and at its end.
pub open spec fn trimmed(text: Seq<char>) -> Seq<char>
    decreases text.len(),
{
    if text.len() > 0 && is_space(text[0]) {
        trimmed(text.drop_first())
    } else if text.len() > 0 && is_space(text.last()) {
        trimmed(text.drop_last())
    } else {
        text
    }
}

/// Whether a character is a decimal digit.
pub open spec fn is_digit(c: char) -> bool {
    '0' <= c <= '9'
}

/// The number that decimal digits denote.
pub open spec fn digits_value(digits: Seq<char>) -> nat
    decreases digits.len(),
{
    if digits.len() == 0 {
        0
    } else {
        (digits_value(digits.drop_last()) * 10 + (digits.last() as int - '0' as int)) as nat
    }
}

/// The digits of an unsigned number: what stands behind an optional plus sign.
pub open spec fn unsigned_digits(text: Seq<char>) -> Seq<char> {
    if text.len() > 0 && text[0] == '+' {
        text.drop_first()
    } else {
        text
    }
}

/// The number that digits denote: at least one decimal digit and nothing else, in the range of 64
/// bits.
pub open spec fn number_of_digits(digits: Seq<char>) -> Option<u64> {
    if digits.len() == 0 || (exists|i: int|
        0 <= i < digits.len() && !is_digit(#[trigger] digits[i])) || digits_value(digits)
        > u64::MAX {
        None
    } else {
        Some(digits_value(digits) as u64)
    }
}

/// The number that a text denotes: an optional plus sign and at least one decimal digit, in the
/// range of 64 bits.
pub open spec fn parsed_u64(text: Seq<char>) -> Option<u64> {
    number_of_digits(unsigned_digits(text))
}

/// The number that a text denotes: an optional sign and at least one decimal digit, in the range of
/// 64 bits.
pub open spec fn parsed_i64(text: Seq<char>) -> Option<i64> {
    let negative = text.len() > 0 && text[0] == '-';
    let magnitude = number_of_digits(
        if negative {
            text.drop_first()
        } else {
            unsigned_digits(text)
        },
    );
    match magnitude {
        None => None,
        Some(value) => if negative && -value >= i64::MIN {
            Some((-value) as i64)
        } else if !negative && value <= i64::MAX {
            Some(value as i64)
        } else {
            None
        },
    }
}

fn read_digits(chars: &Vec<char>, start: usize, end: usize) -> (number: Option<u64>)
    requires
        start <= end <= chars.len(),
    ensures
        number == number_of_digits(chars@.subrange(start as int, end as int)),
{
    let ghost digits = chars@.subrange(start as int, end as int);
    if start == end {
        return None;
    }
    let mut value: u64 = 0;
    let mut in_range = true;
    let mut at: usize = start;
    while at < end
        invariant
            0 <= start <= at <= end <= chars.len(),
            digits == chars@.subrange(start as int, end as int),
            digits.len() > 0,
            forall|i: int| 0 <= i < at - start ==> is_digit(#[trigger] digits[i]),
            in_range ==> value == digits_value(digits.take(at - start)),
            !in_range ==> digits_value(digits.take(at - start)) > u64::MAX,
        decreases end - at,
    {
        let c = chars[at];
        assert(digits[at - start] == c);
        assert(digits.take(at - start + 1).drop_last() =~= digits.take(at - start));
        if !('0' <= c && c <= '9') {
            assert(!is_digit(digits[at - start]));
            return None;
        }
        if in_range {
            let d: u64 = (c as u64) - ('0' as u64);
            match value.checked_mul(10) {
                Some(shifted) => match shifted.checked_add(d) {
                    Some(next) => {
                        value = next;
                    },
                    None => {
                        in_range = false;
                    },
                },
                None => {
                    in_range = false;
                },
            }
        }
        at = at + 1;
    }
    assert(digits.take(at - start) =~= digits);
    if in_range {
        Some(value)
    } else {
        None
    }
}

/// Reads a signed number.
pub fn parse_i64_text(text: &str) -> (number: Option<i64>)
    ensures
        number == parsed_i64(text@),
{
    let chars = char_vec(text);
    let negative = chars.len() > 0 && chars[0] == '-';
    let start: usize = if chars.len() > 0 && (chars[0] == '-' || chars[0] == '+') {
        1
    } else {
        0
    };
    assert(chars@.subrange(start as int, chars@.len() as int) =~= (if negative {
        text@.drop_first()
    } else {
        unsigned_digits(text@)
    }));
    match read_digits(&chars, start, chars.len()) {
        None => None,
        Some(value) => {
            if negative {
                if value <= 9223372036854775807 {
                    Some(-(value as i64))
                } else if value == 9223372036854775808 {
                    Some(i64::MIN)
                } else {
                    None
                }
            } else if value <= 9223372036854775807 {
                Some(value as i64)
            } else {
                None
            }
        },
    }
}

/// Reads an unsigned number, with white space around it allowed.
pub fn parse_u64_text(text: &str) -> (number: Option<u64>)
    ensures
        number == parsed_u64(trimmed(text@)),
{
    let chars = char_vec(text);
    let mut start: usize = 0;
    let mut end: usize = chars.len();
    assert(chars@.subrange(0, chars@.len() as int) =~= text@);
    while start < end && space(chars[start])
        invariant
            start <= end,
            end == chars.len(),
            trimmed(text@) == trimmed(chars@.subrange(start as int, end as int)),
        ensures
            start <= end,
            end == chars.len(),
            trimmed(text@) == trimmed(chars@.subrange(start as int, end as int)),
            start < end ==> !is_space(chars[start as int]),
        decreases end - start,
    {
        assert(chars@.subrange(start as int, end as int).drop_first() =~= chars@.subrange(
            start + 1,
            end as int,
        ));
        start = start + 1;
    }
    while start < end && space(chars[end - 1])
        invariant
            start <= end <= chars.len(),
            trimmed(text@) == trimmed(chars@.subrange(start as int, end as int)),
            start < end ==> !is_space(chars[start as int]),
        ensures
            start <= end <= chars.len(),
            trimmed(text@) == trimmed(chars@.subrange(start as int, end as int)),
            start < end ==> !is_space(chars[start as int]) && !is_space(chars[end - 1]),
        decreases end - start,
    {
        assert(chars@.subrange(start as int, end as int).drop_last() =~= chars@.subrange(
            start as int,
            end - 1,
        ));
        end = end - 1;
    }
    let ghost word = chars@.subrange(start as int, end as int);
    assert(trimmed(text@) == word);
    if start < end && chars[start] == '+' {
        start = start + 1;
    }
    let ghost digits = unsigned_digits(word);
    assert(digits =~= chars@.subrange(start as int, end as int));
    read_digits(&chars, start, end)
}

/// Whether `part` occurs in `text` at position `at`.
pub open spec fn occurs_at(text: Seq<char>, part: Seq<char>, at: int) -> bool {
    &&& 0 <= at
    &&& at + part.len() <= text.len()
    &&& text.subrange(at, at + part.len()) == part
}

/// Whether `part` occurs in `text`.
pub open spec fn occurs_in(text: Seq<char>, part: Seq<char>) -> bool {
    exists|at: int| occurs_at(text, part, at)
}

/// Tests whether `part` occurs in `text` at position `at`.
pub fn matches_at(text: &Vec<char>, part: &Vec<char>, at: usize) -> (b: bool)
    requires
        at + part.len() <= text.len(),
    ensures
        b == occurs_at(text@, part@, at as int),
{
    for i in 0..part.len()
        invariant
            at + part.len() <= text.len(),
            forall|j: int| 0 <= j < i ==> text@[at + j] == part@[j],
    {
        if text[at + i] != part[i] {
            assert(text@.subrange(at as int, at + part@.len())[i as int] != part@[i as int]);
            return false;
        }
    }
    assert(text@.subrange(at as int, at + part@.len()) =~= part@);
    true
}

/// Whether `part` occurs in `text`.
pub fn text_contains(text: &str, part: &str) -> (b: bool)
    ensures
        b == occurs_in(text@, part@),
{
    let whole = char_vec(text);
    let sought = char_vec(part);
    if whole.len() < sought.len() {
        return false;
    }
    let last: usize = whole.len() - sought.len();
    let mut at: usize = 0;
    while at <= last
        invariant
            whole@ == text@,
            sought@ == part@,
            last == whole.len() - sought.len(),
            at <= last + 1,
            forall|k: int| 0 <= k < at ==> !occurs_at(text@, part@, k),
        decreases last + 1 - at,
    {
        if matches_at(&whole, &sought, at) {
            return true;
        }
        if at == last {
            return false;
        }
        at = at + 1;
    }
    false
}

/// Whether two texts are equal, character by character.
pub fn same_text(a: &str, b: &str) -> (r: bool)
    ensures
        r == (a@ == b@),
{
    a.to_owned() == b.to_owned()
}

/// The texts, with `separator` between each two of them.
pub open spec fn joined(parts: Seq<Seq<char>>, separator: Seq<char>) -> Seq<char>
    decreases parts.len(),
{
    if parts.len() == 0 {
        Seq::empty()
    } else if parts.len() == 1 {
        parts[0]
    } else {
        joined(parts.drop_last(), separator) + separator + parts.last()
    }
}

/// The texts, with `separator` between each two of them.
pub fn join(parts: &Vec<String>, separator: &str) -> (s: String)
    ensures
        s@ == joined(texts(parts@), separator@),
{
    let mut s = String::new();
    for i in 0..parts.len()
        invariant
            s@ == joined(texts(parts@).take(i as int), separator@),
    {
        if i > 0 {
            s.append(separator);
        }
        s.append(parts[i].as_str());
        assert(texts(parts@).take(i + 1).drop_last() =~= texts(parts@).take(i as int));
        assert(s@ =~= joined(texts(parts@).take(i + 1), separator@));
    }
    assert(texts(parts@).take(parts@.len() as int) =~= texts(parts@));
    s
}

/// The number of bytes of a text in UTF-8.
pub open spec fn byte_len(text: Seq<char>) -> nat {
    encode_utf8(text).len()
}

/// The bytes of two texts, one after the other.
pub proof fn lemma_byte_len_concat(a: Seq<char>, b: Seq<char>)
    ensures
        byte_len(a + b) == byte_len(a) + byte_len(b),
    decreases a.len(),
{
    if a.len() == 0 {
        assert(a + b =~= b);
    } else {
        assert((a + b).drop_first() =~= a.drop_first() + b);
        lemma_byte_len_concat(a.drop_first(), b);
    }
}

/// The longest end of a text that has at most `limit` bytes in UTF-8.
pub open spec fn longest_tail(text: Seq<char>, limit: nat) -> Seq<char>
    decreases text.len(),
{
    if byte_len(text) <= limit || text.len() == 0 {
        text
    } else {
        longest_tail(text.drop_first(), limit)
    }
}

/// The longest end fits.
pub proof fn lemma_longest_tail_fits(text: Seq<char>, limit: nat)
    ensures
        byte_len(longest_tail(text, limit)) <= limit,
    decreases text.len(),
{
    if !(byte_len(text) <= limit || text.len() == 0) {
        lemma_longest_tail_fits(text.drop_first(), limit);
    }
}

fn char_bytes(c: char) -> (n: usize)
    ensures
        n == encode_scalar(c as u32).len(),
{
    let code: u32 = c as u32;
    if code <= 0x7f {
        1
    } else if code <= 0x7ff {
        2
    } else if code <= 0xffff {
        3
    } else {
        4
    }
}

/// The longest end of a text that has at most `limit` bytes in UTF-8.
pub fn tail_string(text: &str, limit: usize) -> (tail: String)
    ensures
        tail@ == longest_tail(text@, limit as nat),
{
    let chars = char_vec(text);
    let mut remaining: usize = text.as_bytes().len();
    let mut start: usize = 0;
    assert(text@.skip(0) =~= text@);
    while remaining > limit
        invariant
            chars@ == text@,
            start <= chars.len(),
            remaining == byte_len(text@.skip(start as int)),
            longest_tail(text@, limit as nat) == longest_tail(
                text@.skip(start as int),
                limit as nat,
            ),
        decreases chars.len() - start,
    {
        let ghost rest = text@.skip(start as int);
        assert(rest.drop_first() =~= text@.skip(start + 1));
        remaining = remaining - char_bytes(chars[start]);
        start = start + 1;
    }
    assert(text@.skip(start as int) =~= text@.subrange(start as int, text@.len() as int));
    text.substring_char(start, chars.len()).to_owned()
}

} // verus!
