//! Unsigned integers as JSON text: decimal digits, without a sign and
//! without leading zeros. This is how the moments `iat`, `exp` and `nbf`
//! stand in the claims.

use vstd::prelude::*;
use vstd::string::*;

verus! {

/// The digit that stands for a number below ten.
pub open spec fn digit(d: nat) -> char {
    if d == 0 {
        '0'
    } else if d == 1 {
        '1'
    } else if d == 2 {
        '2'
    } else if d == 3 {
        '3'
    } else if d == 4 {
        '4'
    } else if d == 5 {
        '5'
    } else if d == 6 {
        '6'
    } else if d == 7 {
        '7'
    } else if d == 8 {
        '8'
    } else {
        '9'
    }
}

/// The number below ten that a digit stands for; `None` for any other
/// character.
pub open spec fn digit_value(c: char) -> Option<nat> {
    if c == '0' {
        Some(0)
    } else if c == '1' {
        Some(1)
    } else if c == '2' {
        Some(2)
    } else if c == '3' {
        Some(3)
    } else if c == '4' {
        Some(4)
    } else if c == '5' {
        Some(5)
    } else if c == '6' {
        Some(6)
    } else if c == '7' {
        Some(7)
    } else if c == '8' {
        Some(8)
    } else if c == '9' {
        Some(9)
    } else {
        None
    }
}

/// The JSON text of a natural number: its decimal digits, without leading
/// zeros.
pub open spec fn decimal_text(n: nat) -> Seq<char>
    decreases n,
{
    if n < 10 {
        seq![digit(n)]
    } else {
        decimal_text(n / 10).push(digit(n % 10))
    }
}

/// Whether every character of `text` is a digit.
pub open spec fn all_digits(text: Seq<char>) -> bool {
    forall|i: int| 0 <= i < text.len() ==> digit_value(#[trigger] text[i]) is Some
}

/// The number that a text of digits stands for.
pub open spec fn value_of(text: Seq<char>) -> nat
    decreases text.len(),
{
    if text.len() == 0 {
        0
    } else {
        value_of(text.drop_last()) * 10 + match digit_value(text.last()) {
            Some(d) => d,
            None => 0,
        }
    }
}

/// The text of a number is made of digits, is not empty, starts with a
/// zero only for zero, and stands for the number.
pub proof fn lemma_decimal_text(n: nat)
    ensures
        decimal_text(n).len() >= 1,
        all_digits(decimal_text(n)),
        decimal_text(n)[0] == '0' ==> n == 0,
        n == 0 ==> decimal_text(n) == seq!['0'],
        value_of(decimal_text(n)) == n,
    decreases n,
{
    let text = decimal_text(n);
    if n < 10 {
        assert(text.drop_last() =~= Seq::<char>::empty());
        assert(value_of(text.drop_last()) == 0);
        assert(digit_value(digit(n)) == Some(n));
    } else {
        let front = decimal_text(n / 10);
        lemma_decimal_text(n / 10);
        assert(text.drop_last() =~= front);
        assert(text.last() == digit(n % 10));
        assert(digit_value(digit(n % 10)) == Some(n % 10));
        assert(text[0] == front[0]);
        assert forall|i: int| 0 <= i < text.len() implies digit_value(#[trigger] text[i]) is Some by {
            if i < front.len() {
                assert(text[i] == front[i]);
            }
        }
    }
}

/// A text of digits that is not empty and starts with a zero only where it
/// is a single zero is the text of the number it stands for.
proof fn lemma_text_of_value(text: Seq<char>)
    requires
        text.len() >= 1,
        all_digits(text),
        text[0] == '0' ==> text.len() == 1,
    ensures
        decimal_text(value_of(text)) == text,
    decreases text.len(),
{
    let d = digit_value(text.last())->Some_0;
    assert(digit_value(text.last()) is Some);
    assert(digit(d) == text.last());
    if text.len() == 1 {
        assert(text.drop_last() =~= Seq::<char>::empty());
        assert(value_of(text.drop_last()) == 0);
        assert(value_of(text) == d);
        assert(decimal_text(d) =~= text);
    } else {
        let front = text.drop_last();
        assert(front[0] == text[0]);
        assert forall|i: int| 0 <= i < front.len() implies digit_value(#[trigger] front[i]) is Some by {
            assert(front[i] == text[i]);
        }
        lemma_text_of_value(front);
        lemma_leading_digit(front);
        let v = value_of(front);
        assert(v >= 1);
        assert(value_of(text) == v * 10 + d);
        assert((v * 10 + d) / 10 == v && (v * 10 + d) % 10 == d);
        assert(decimal_text(value_of(text)) =~= front.push(digit(d)));
        assert(front.push(text.last()) =~= text);
    }
}

/// A text of digits that does not start with a zero stands for a number
/// above zero.
proof fn lemma_leading_digit(text: Seq<char>)
    requires
        text.len() >= 1,
        all_digits(text),
        text[0] != '0',
    ensures
        value_of(text) >= 1,
    decreases text.len(),
{
    if text.len() == 1 {
        assert(text.drop_last() =~= Seq::<char>::empty());
        assert(digit_value(text[0]) is Some);
    } else {
        let front = text.drop_last();
        assert(front[0] == text[0]);
        assert forall|i: int| 0 <= i < front.len() implies digit_value(#[trigger] front[i]) is Some by {
            assert(front[i] == text[i]);
        }
        lemma_leading_digit(front);
    }
}

/// What a text stands for does not shrink when the text goes on.
proof fn lemma_value_grows(text: Seq<char>, upto: int)
    requires
        0 <= upto <= text.len(),
    ensures
        value_of(text.take(upto)) <= value_of(text),
    decreases text.len() - upto,
{
    if upto < text.len() {
        let front = text.drop_last();
        assert(front.take(upto) =~= text.take(upto));
        lemma_value_grows(front, upto);
    } else {
        assert(text.take(upto) =~= text);
    }
}

/// Two numbers with the same text are the same number.
pub proof fn numbers_with_one_text_are_one(a: nat, b: nat)
    requires
        decimal_text(a) == decimal_text(b),
    ensures
        a == b,
{
    lemma_decimal_text(a);
    lemma_decimal_text(b);
}

/// The text of one digit.
fn digit_text(d: u64) -> (text: &'static str)
    requires
        d < 10,
    ensures
        text@ == seq![digit(d as nat)],
{
    proof {
        reveal_strlit("0");
        reveal_strlit("1");
        reveal_strlit("2");
        reveal_strlit("3");
        reveal_strlit("4");
        reveal_strlit("5");
        reveal_strlit("6");
        reveal_strlit("7");
        reveal_strlit("8");
        reveal_strlit("9");
    }
    let text = if d == 0 {
        "0"
    } else if d == 1 {
        "1"
    } else if d == 2 {
        "2"
    } else if d == 3 {
        "3"
    } else if d == 4 {
        "4"
    } else if d == 5 {
        "5"
    } else if d == 6 {
        "6"
    } else if d == 7 {
        "7"
    } else if d == 8 {
        "8"
    } else {
        "9"
    };
    assert(text@ =~= seq![digit(d as nat)]);
    text
}

/// The number below ten that a character stands for, if it is a digit.
fn digit_of(c: char) -> (d: Option<u64>)
    ensures
        match d {
            Some(d) => digit_value(c) == Some(d as nat) && d < 10,
            None => digit_value(c) is None,
        },
{
    if c == '0' {
        Some(0)
    } else if c == '1' {
        Some(1)
    } else if c == '2' {
        Some(2)
    } else if c == '3' {
        Some(3)
    } else if c == '4' {
        Some(4)
    } else if c == '5' {
        Some(5)
    } else if c == '6' {
        Some(6)
    } else if c == '7' {
        Some(7)
    } else if c == '8' {
        Some(8)
    } else if c == '9' {
        Some(9)
    } else {
        None
    }
}

/// Writes a number as JSON text.
pub fn write_decimal(number: u64) -> (text: String)
    ensures
        text@ == decimal_text(number as nat),
    decreases number,
{
    if number < 10 {
        digit_text(number).to_owned()
    } else {
        let mut text = write_decimal(number / 10);
        text.append(digit_text(number % 10));
        text
    }
}

/// Reads a number from JSON text. Gives the number exactly where the text
/// is the one that [`write_decimal`] writes for it, and nothing for any
/// other text: one with a sign, a fraction, an exponent or a leading zero,
/// or one that stands for more than 64 bits hold.
pub fn read_decimal(text: &str) -> (number: Option<u64>)
    ensures
        match number {
            Some(n) => text@ == decimal_text(n as nat),
            None => forall|n: u64| text@ != decimal_text(n as nat),
        },
{
    let mut value: u64 = 0;
    let mut at: usize = 0;
    let mut leading_zero = false;
    let length = text.unicode_len();
    for c in it: text.chars()
        invariant
            it.seq() == text@,
            length == text@.len(),
            at == it.index(),
            all_digits(text@.take(at as int)),
            value == value_of(text@.take(at as int)),
            leading_zero == (at >= 1 && text@[0] == '0'),
            at >= 2 ==> !leading_zero,
    {
        let ghost before = text@.take(at as int);
        let ghost after = text@.take(at + 1);
        proof {
            assert(after.drop_last() =~= before);
            assert(after.last() == c);
        }
        let d = match digit_of(c) {
            Some(d) => d,
            None => {
                proof {
                    assert forall|n: u64| text@ != decimal_text(n as nat) by {
                        lemma_decimal_text(n as nat);
                        if text@ == decimal_text(n as nat) {
                            assert(digit_value(text@[at as int]) is Some);
                        }
                    }
                }
                return None;
            },
        };
        if leading_zero {
            proof {
                assert forall|n: u64| text@ != decimal_text(n as nat) by {
                    lemma_decimal_text(n as nat);
                }
            }
            return None;
        }
        let grown = match value.checked_mul(10) {
            Some(tens) => tens.checked_add(d),
            None => None,
        };
        match grown {
            Some(grown) => {
                value = grown;
            },
            None => {
                proof {
                    assert(value_of(after) == value * 10 + d);
                    assert forall|n: u64| text@ != decimal_text(n as nat) by {
                        lemma_decimal_text(n as nat);
                        lemma_value_grows(text@, at + 1);
                    }
                }
                return None;
            },
        }
        proof {
            assert forall|i: int| 0 <= i < after.len() implies digit_value(#[trigger] after[i]) is Some by {
                if i < before.len() {
                    assert(after[i] == before[i]);
                }
            }
        }
        if at == 0 && d == 0 {
            leading_zero = true;
        }
        at = at + 1;
    }
    proof {
        assert(text@.take(text@.len() as int) =~= text@);
    }
    if at == 0 {
        proof {
            assert forall|n: u64| text@ != decimal_text(n as nat) by {
                lemma_decimal_text(n as nat);
            }
        }
        None
    } else {
        proof {
            lemma_text_of_value(text@);
        }
        Some(value)
    }
}

} // verus!
