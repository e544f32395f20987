//! What a line typed at a prompt means: a yes, a text, or the number of a
//! listed child.

use vstd::prelude::*;
use vstd::string::StrSliceExecFns;

verus! {

/// The text that is left of a line once the white space at both ends is gone.
pub uninterp spec fn trimmed(line: Seq<char>) -> Seq<char>;

/// Calls `str::trim` of the standard library, which returns the line without
/// its leading and trailing white space. Which characters are white space is
/// Unicode's decision, so the contract gives the outcome a name and no more.
#[verifier::external_body]
fn trim(line: &str) -> (text: &str)
    ensures
        text@ == trimmed(line@),
{
    line.trim()
}

/// One of the ten decimal digits.
pub open spec fn is_digit(c: char) -> bool {
    '0' <= c <= '9'
}

/// The number that a digit stands for; 0 for any other character.
pub open spec fn digit_value(c: char) -> nat {
    if is_digit(c) {
        (c as u32 - '0' as u32) as nat
    } else {
        0
    }
}

/// Whether `text` holds decimal digits only.
pub open spec fn all_digits(text: Seq<char>) -> bool {
    forall|i: int| 0 <= i < text.len() ==> is_digit(#[trigger] text[i])
}

/// The number that a run of decimal digits stands for, first digit highest.
pub open spec fn decimal_value(text: Seq<char>) -> nat
    decreases text.len(),
{
    if text.len() == 0 {
        0
    } else {
        decimal_value(text.drop_last()) * 10 + digit_value(text.last())
    }
}

/// The digits of a number as it is written: the text without a leading `+`.
pub open spec fn unsigned_part(text: Seq<char>) -> Seq<char> {
    if text.len() > 0 && text[0] == '+' {
        text.subrange(1, text.len() as int)
    } else {
        text
    }
}

/// The number that `text` writes down, if it writes one that fits: an
/// optional `+`, then one decimal digit or more, and nothing else.
pub open spec fn number_of(text: Seq<char>) -> Option<usize> {
    let digits = unsigned_part(text);
    if digits.len() > 0 && all_digits(digits) && decimal_value(digits) <= usize::MAX {
        Some(decimal_value(digits) as usize)
    } else {
        None
    }
}

/// A number is at least the number that any of its leading parts stands for.
pub proof fn lemma_decimal_value_grows(text: Seq<char>, k: int)
    requires
        0 <= k <= text.len(),
    ensures
        decimal_value(text.take(k)) <= decimal_value(text),
    decreases text.len(),
{
    if k < text.len() {
        lemma_decimal_value_grows(text.drop_last(), k);
        assert(text.drop_last().take(k) =~= text.take(k));
    } else {
        assert(text.take(k) =~= text);
    }
}

/// Whether the line says yes: `y` or `Y`, then the end of the line.
///
/// Anything else, an empty line too, says no.
pub fn confirmation(line: &str) -> (yes: bool)
    ensures
        yes == (line@ == "y\n"@ || line@ == "Y\n"@),
{
    proof {
        reveal_strlit("y\n");
        reveal_strlit("Y\n");
        assert("y\n"@ =~= seq!['y', '\n']);
        assert("Y\n"@ =~= seq!['Y', '\n']);
    }
    if line.unicode_len() != 2 {
        return false;
    }
    let first = line.get_char(0);
    let second = line.get_char(1);
    assert(line@ =~= seq![first, second]);
    assert(seq![first, second][0] == first && seq![first, second][1] == second);
    (first == 'y' || first == 'Y') && second == '\n'
}

/// The text that a line gives: the line without the white space at its ends.
pub fn free_text(line: &str) -> (text: String)
    ensures
        text@ == trimmed(line@),
{
    trim(line).to_owned()
}

/// The number that `text` writes down, or `None` where it writes none that
/// fits a `usize`.
pub fn parse_number(text: &str) -> (number: Option<usize>)
    ensures
        number == number_of(text@),
{
    let len = text.unicode_len();
    if len == 0 {
        return None;
    }
    let start: usize = if text.get_char(0) == '+' {
        1
    } else {
        0
    };
    if start == len {
        return None;
    }
    let ghost digits = unsigned_part(text@);
    assert(digits =~= text@.subrange(start as int, len as int));
    let mut value: usize = 0;
    let mut i: usize = start;
    assert(digits.take(0) =~= Seq::<char>::empty());
    while i < len
        invariant
            start <= i <= len,
            len == text@.len(),
            digits == unsigned_part(text@),
            digits == text@.subrange(start as int, len as int),
            all_digits(digits.take(i - start)),
            value == decimal_value(digits.take(i - start)),
        decreases len - i,
    {
        let c = text.get_char(i);
        let ghost k = i - start;
        assert(digits[k] == c);
        assert(digits.take(k + 1).drop_last() =~= digits.take(k));
        assert(digits.take(k + 1).last() == c);
        if !(c >= '0' && c <= '9') {
            assert(!is_digit(digits[k]));
            return None;
        }
        let digit: usize = (c as u32 - '0' as u32) as usize;
        assert(decimal_value(digits.take(k + 1)) == value * 10 + digit);
        if value > (usize::MAX - digit) / 10 {
            proof {
                lemma_decimal_value_grows(digits, k + 1);
            }
            return None;
        }
        value = value * 10 + digit;
        assert forall|j: int| 0 <= j < k + 1 implies is_digit(#[trigger] digits.take(k + 1)[j]) by {
            if j < k {
                assert(digits.take(k + 1)[j] == digits.take(k)[j]);
            }
        }
        i += 1;
    }
    assert(digits.take(len - start) =~= digits);
    Some(value)
}

/// The number that a line gives: what `parse_number` reads in the line
/// without the white space at its ends.
pub fn selection(line: &str) -> (number: Option<usize>)
    ensures
        number == number_of(trimmed(line@)),
{
    parse_number(trim(line))
}

} // verus!
