//! What holds of numbers, white space and pieces of text.

use vstd::arithmetic::div_mod::lemma_div_denominator;
use vstd::arithmetic::power::{lemma_pow0, lemma_pow_positive, pow};
use vstd::prelude::*;
use vstd::utf8::encode_utf8;

use crate::template::{double_quoted, escaped, halt_message, notify_message};
use crate::text::{
    byte_len, digits_value, int_text, is_blank, is_digit, is_space, joined, longest_tail, nat_text,
    number_of_digits, occurs_at, occurs_in, padded_int_text, parsed_i64, parsed_u64, trimmed,
};

verus! {

proof fn lemma_next_power(k: int)
    requires
        k >= 0,
    ensures
        pow(10, (k + 1) as nat) == 10 * pow(10, k as nat),
        pow(10, k as nat) > 0,
{
    reveal(pow);
    lemma_pow_positive(10, k as nat);
}

/// The decimal text of a natural number holds its digits, from the highest to the lowest, and does not
/// begin with a zero, but for zero itself.
pub proof fn numbers_are_written_in_decimal(n: nat)
    ensures
        ({
            let digits = nat_text(n);
            &&& digits.len() >= 1
            &&& n < pow(10, digits.len())
            &&& digits.len() > 1 ==> n >= pow(10, (digits.len() - 1) as nat)
            &&& forall|k: int|
                0 <= k < digits.len() ==> #[trigger] digits[digits.len() - 1 - k] as int
                    == '0' as int + (n as int / pow(10, k as nat)) % 10
        }),
    decreases n,
{
    let digits = nat_text(n);
    lemma_pow0(10);
    if n < 10 {
        lemma_next_power(0);
        assert(digits.len() == 1);
        assert forall|k: int| 0 <= k < digits.len() implies #[trigger] digits[digits.len() - 1
            - k] as int == '0' as int + (n as int / pow(10, k as nat)) % 10 by {
            assert(k == 0);
            assert(n as int / 1 == n);
        }
    } else {
        let high = n / 10;
        let before = nat_text(high);
        numbers_are_written_in_decimal(high);
        assert(digits.len() == before.len() + 1);
        lemma_next_power(before.len() as int);
        lemma_next_power(before.len() - 1);
        assert forall|k: int| 0 <= k < digits.len() implies #[trigger] digits[digits.len() - 1
            - k] as int == '0' as int + (n as int / pow(10, k as nat)) % 10 by {
            if k == 0 {
                assert(n as int / 1 == n);
            } else {
                lemma_next_power(k - 1);
                lemma_div_denominator(n as int, 10, pow(10, (k - 1) as nat));
                assert(digits[digits.len() - 1 - k] == before[before.len() - 1 - (k - 1)]);
            }
        }
    }
}

/// The decimal text of an integer is that of its distance from zero, behind a minus sign where the
/// integer is negative.
pub proof fn signs_stand_first(n: int)
    ensures
        n >= 0 ==> int_text(n) == nat_text(n as nat),
        n < 0 ==> int_text(n).len() == nat_text((-n) as nat).len() + 1 && int_text(n)[0] == '-'
            && int_text(n).skip(1) == nat_text((-n) as nat),
{
    if n < 0 {
        assert(int_text(n).skip(1) =~= nat_text((-n) as nat));
    }
}

/// A padded number is the number with zeros between the sign and the digits, as many as the width
/// still asks for, and none where the number is wide enough.
pub proof fn padding_fills_up_with_zeros(n: int, width: int)
    ensures
        ({
            let padded = padded_int_text(n, width);
            let plain = int_text(n);
            let sign: int = if n < 0 {
                1
            } else {
                0
            };
            let zeros = padded.len() - plain.len();
            &&& plain.len() >= width ==> padded == plain
            &&& plain.len() < width ==> padded.len() == width
            &&& n < 0 ==> padded[0] == '-'
            &&& forall|i: int| sign <= i < sign + zeros ==> #[trigger] padded[i] == '0'
            &&& forall|i: int|
                sign + zeros <= i < padded.len() ==> #[trigger] padded[i] == plain[i - zeros]
        }),
{
    let padded = padded_int_text(n, width);
    let plain = int_text(n);
    if plain.len() >= width {
        assert(padded =~= plain);
    }
}

/// White space is what Unicode calls white space.
pub proof fn white_space_is_that_of_unicode(c: char)
    ensures
        is_space(c) <==> {
            let code = c as int;
            9 <= code <= 13 || code == 32 || code == 0x85 || code == 0xa0 || code == 0x1680
                || 0x2000 <= code <= 0x200a || code == 0x2028 || code == 0x2029 || code == 0x202f
                || code == 0x205f || code == 0x3000
        },
{
}

/// A text is blank exactly where every character of it is white space.
pub proof fn blank_texts_hold_white_space(text: Seq<char>)
    ensures
        is_blank(text) <==> forall|i: int| 0 <= i < text.len() ==> is_space(#[trigger] text[i]),
{
}

/// A trimmed text is what is left of a text without white space on both sides, and neither begins nor
/// ends with white space. The number of characters that are left out in front is returned.
pub proof fn trimmed_texts_have_no_space_around_them(text: Seq<char>) -> (front: int)
    ensures
        ({
            let rest = trimmed(text);
            &&& 0 <= front
            &&& front + rest.len() <= text.len()
            &&& rest == text.subrange(front, front + rest.len())
            &&& is_blank(text.take(front))
            &&& is_blank(text.skip(front + rest.len()))
            &&& rest.len() > 0 ==> !is_space(rest[0]) && !is_space(rest.last())
        }),
    decreases text.len(),
{
    let rest = trimmed(text);
    if text.len() > 0 && is_space(text[0]) {
        let inner = text.drop_first();
        let front = trimmed_texts_have_no_space_around_them(inner);
        assert(rest =~= text.subrange(front + 1, front + 1 + rest.len()));
        assert forall|i: int| 0 <= i < front + 1 implies is_space(
            #[trigger] text.take(front + 1)[i],
        ) by {
            if i > 0 {
                assert(is_space(inner.take(front)[i - 1]));
            }
        }
        let tail = text.skip(front + 1 + rest.len());
        assert(tail =~= inner.skip(front + rest.len()));
        front + 1
    } else if text.len() > 0 && is_space(text.last()) {
        let inner = text.drop_last();
        let front = trimmed_texts_have_no_space_around_them(inner);
        assert(rest =~= text.subrange(front, front + rest.len()));
        assert(text.take(front) =~= inner.take(front));
        let tail = text.skip(front + rest.len());
        assert forall|i: int| 0 <= i < tail.len() implies is_space(#[trigger] tail[i]) by {
            if i < tail.len() - 1 {
                assert(is_space(inner.skip(front + rest.len())[i]));
            }
        }
        front
    } else {
        assert(rest =~= text.subrange(0, rest.len() as int));
        0
    }
}

/// Each digit behind a number multiplies it by ten and adds the digit.
pub proof fn digits_count_by_tens(digits: Seq<char>, digit: char)
    requires
        '0' <= digit <= '9',
    ensures
        digits_value(Seq::empty()) == 0,
        digits_value(digits.push(digit)) == 10 * digits_value(digits) + (digit as int - '0' as int),
{
    assert(digits.push(digit).drop_last() =~= digits);
}

/// A text is an unsigned number exactly where it holds at least one decimal digit and nothing else,
/// behind a plus sign or not, and the number is in range.
pub proof fn unsigned_numbers_are_digits(text: Seq<char>, digits: Seq<char>, number: u64)
    requires
        text == seq!['+'] + digits || (text == digits && (text.len() == 0 || text[0] != '+')),
    ensures
        parsed_u64(text) == Some(number) <==> digits.len() > 0 && (forall|i: int|
            0 <= i < digits.len() ==> '0' <= #[trigger] digits[i] <= '9') && digits_value(digits)
            == number,
{
    lemma_digits(digits, number);
    if text.len() > 0 && text[0] == '+' {
        assert(text.drop_first() =~= digits);
    }
}

proof fn lemma_digits(digits: Seq<char>, number: u64)
    ensures
        number_of_digits(digits) == Some(number) <==> digits.len() > 0 && (forall|i: int|
            0 <= i < digits.len() ==> '0' <= #[trigger] digits[i] <= '9') && digits_value(digits)
            == number,
{
    if forall|i: int| 0 <= i < digits.len() ==> '0' <= #[trigger] digits[i] <= '9' {
        assert forall|i: int| 0 <= i < digits.len() implies is_digit(#[trigger] digits[i]) by {}
    } else {
        let i = choose|i: int| 0 <= i < digits.len() && !('0' <= #[trigger] digits[i] <= '9');
        assert(!is_digit(digits[i]));
    }
}

/// A text is a signed number exactly where it holds at least one decimal digit and nothing else,
/// behind a sign or not, and the number is in range.
pub proof fn signed_numbers_are_digits(text: Seq<char>, digits: Seq<char>, number: i64)
    requires
        text == seq!['-'] + digits || text == seq!['+'] + digits || (text == digits && (text.len()
            == 0 || (text[0] != '+' && text[0] != '-'))),
    ensures
        parsed_i64(text) == Some(number) <==> digits.len() > 0 && (forall|i: int|
            0 <= i < digits.len() ==> '0' <= #[trigger] digits[i] <= '9') && number == (if text
            == seq!['-'] + digits {
            -digits_value(digits)
        } else {
            digits_value(digits) as int
        }),
{
    let value = digits_value(digits);
    if value <= u64::MAX {
        lemma_digits(digits, value as u64);
    } else {
        assert(number_of_digits(digits) is None);
    }
    let negative = seq!['-'] + digits;
    assert(negative[0] == '-');
    if text.len() > 0 && (text[0] == '+' || text[0] == '-') {
        assert(text.drop_first() =~= digits);
    }
    if text.len() > 0 && text[0] == '-' {
        assert(text =~= negative);
    }
}

/// A text occurs in another exactly where the other can be cut around it.
pub proof fn occurrences_can_be_cut_out(text: Seq<char>, part: Seq<char>)
    ensures
        occurs_in(text, part) <==> exists|before: Seq<char>, after: Seq<char>|
            text == #[trigger] (before + part + after),
{
    if occurs_in(text, part) {
        let at = choose|at: int| occurs_at(text, part, at);
        let before = text.take(at);
        let after = text.skip(at + part.len());
        assert(text =~= before + part + after);
    }
    if exists|before: Seq<char>, after: Seq<char>| text == #[trigger] (before + part + after) {
        let (before, after) = choose|before: Seq<char>, after: Seq<char>|
            text == #[trigger] (before + part + after);
        assert(text.subrange(before.len() as int, (before.len() + part.len()) as int) =~= part);
        assert(occurs_at(text, part, before.len() as int));
    }
}

/// Joined texts stand behind each other, with the separator between any two and nowhere else.
pub proof fn joined_texts_are_separated(parts: Seq<Seq<char>>, last: Seq<char>, separator: Seq<char>)
    ensures
        joined(Seq::empty(), separator).len() == 0,
        joined(seq![last], separator) == last,
        parts.len() > 0 ==> joined(parts.push(last), separator) == joined(parts, separator)
            + separator + last,
{
    assert(parts.push(last).drop_last() =~= parts);
}

/// The longest tail that fits is an end of the text, it fits, and with one character more it would
/// not. The number of characters that are left out is returned.
pub proof fn longest_tails_are_as_long_as_can_be(text: Seq<char>, limit: nat) -> (dropped: int)
    ensures
        0 <= dropped <= text.len(),
        longest_tail(text, limit) == text.skip(dropped),
        encode_utf8(longest_tail(text, limit)).len() <= limit,
        dropped > 0 ==> encode_utf8(text.skip(dropped - 1)).len() > limit,
    decreases text.len(),
{
    if byte_len(text) <= limit || text.len() == 0 {
        assert(text.skip(0) =~= text);
        0
    } else {
        let inner = text.drop_first();
        let dropped = longest_tails_are_as_long_as_can_be(inner, limit);
        assert(text.skip(dropped + 1) =~= inner.skip(dropped));
        if dropped > 0 {
            assert(text.skip(dropped) =~= inner.skip(dropped - 1));
        } else {
            assert(text.skip(0) =~= text);
        }
        dropped + 1
    }
}

/// The bytes of a text are those of its encoding in UTF-8.
pub proof fn bytes_are_those_of_the_encoding(text: Seq<char>)
    ensures
        byte_len(text) == encode_utf8(text).len(),
{
}

/// A quoted text has a backslash before a double quote and before a backslash, and before nothing
/// else.
pub proof fn only_quotes_and_backslashes_are_escaped(text: Seq<char>, c: char)
    ensures
        escaped(Seq::empty()).len() == 0,
        c == '"' || c == '\\' ==> escaped(text.push(c)) == escaped(text) + seq!['\\', c],
        c != '"' && c != '\\' ==> escaped(text.push(c)) == escaped(text) + seq![c],
        double_quoted(text) == seq!['"'] + escaped(text) + seq!['"'],
{
    assert(text.push(c).drop_last() =~= text);
    assert(escaped(text).push('\\').push(c) =~= escaped(text) + seq!['\\', c]);
    assert(escaped(text).push(c) =~= escaped(text) + seq![c]);
    assert(double_quoted(text) =~= seq!['"'] + escaped(text) + seq!['"']);
}

/// The messages that are suggested to the agent name the item.
pub proof fn suggested_messages_name_the_item(item_id: Seq<char>)
    ensures
        notify_message(item_id) == "Need input for "@ + item_id,
        halt_message(item_id) == item_id + " is already complete; stopping flow."@,
{
}

/// A text occurs at a place exactly where its characters stand there, one by one.
pub proof fn occurrences_stand_at_their_place(text: Seq<char>, part: Seq<char>, at: int)
    ensures
        occurs_at(text, part, at) <==> 0 <= at && at + part.len() <= text.len() && forall|i: int|
            0 <= i < part.len() ==> #[trigger] part[i] == text[at + i],
{
    if 0 <= at && at + part.len() <= text.len() {
        let there = text.subrange(at, at + part.len());
        if there == part {
            assert forall|i: int| 0 <= i < part.len() implies #[trigger] part[i] == text[at + i] by {
                assert(there[i] == text[at + i]);
            }
        }
        if forall|i: int| 0 <= i < part.len() ==> #[trigger] part[i] == text[at + i] {
            assert(there =~= part);
        }
    }
}

} // verus!
