//! Times as the clock shows them: seconds, a point and two decimals.

use vstd::prelude::*;

verus! {

/// The character of a decimal digit.
pub open spec fn digit(d: int) -> char {
    ('0' as int + d) as char
}

/// A number written in decimal, without leading zeros.
pub open spec fn decimal(n: nat) -> Seq<char>
    decreases n,
{
    if n < 10 {
        seq![digit(n as int)]
    } else {
        decimal(n / 10).push(digit((n % 10) as int))
    }
}

/// The number that a sequence of digits writes.
pub open spec fn value_of(digits: Seq<char>) -> nat
    decreases digits.len(),
{
    if digits.len() == 0 {
        0
    } else {
        (10 * value_of(digits.drop_last()) + (digits.last() as int - '0' as int)) as nat
    }
}

/// A time in milliseconds as hundredths of a second, the nearest; half a
/// hundredth counts as a whole one.
pub open spec fn hundredths(ms: nat) -> nat {
    (ms + 5) / 10
}

/// A time in milliseconds as the clock shows it: the whole seconds, a
/// point, and two decimals.
pub open spec fn clock_text(ms: nat) -> Seq<char> {
    let h = hundredths(ms);
    decimal(h / 100) + seq!['.', digit((h / 10 % 10) as int), digit((h % 10) as int)]
}

/// Whether the clock's letters include the character: the digits and the
/// point between them.
pub open spec fn is_clock_char(c: char) -> bool {
    ('0' <= c && c <= '9') || c == '.'
}

/// A number in decimal holds digits only, at least one, and begins with a
/// zero only where the number is zero.
pub proof fn lemma_decimal_is_digits(n: nat)
    ensures
        decimal(n).len() >= 1,
        forall|i: int| 0 <= i < decimal(n).len() ==> '0' <= #[trigger] decimal(n)[i] <= '9',
        decimal(n)[0] == '0' <==> n == 0,
    decreases n,
{
    if n >= 10 {
        lemma_decimal_is_digits(n / 10);
    }
}

/// A number in decimal writes that number.
pub proof fn lemma_decimal_reads_back(n: nat)
    ensures
        value_of(decimal(n)) == n,
    decreases n,
{
    let digits = decimal(n);
    if n < 10 {
        assert(digits.drop_last() =~= Seq::<char>::empty());
        assert(value_of(digits.drop_last()) == 0);
    } else {
        lemma_decimal_reads_back(n / 10);
        assert(digits.drop_last() =~= decimal(n / 10));
    }
    assert(digits.last() == digit((n % 10) as int));
    assert(value_of(digits) == 10 * value_of(digits.drop_last()) + n % 10);
}

/// What the clock shows is made of digits but for the point, which stands
/// third from the end.
pub proof fn lemma_clock_text_shape(ms: nat)
    ensures
        clock_text(ms).len() >= 4,
        clock_text(ms)[clock_text(ms).len() - 3] == '.',
        forall|i: int|
            0 <= i < clock_text(ms).len() && i != clock_text(ms).len() - 3 ==> '0'
                <= #[trigger] clock_text(ms)[i] <= '9',
        forall|i: int| 0 <= i < clock_text(ms).len() ==> is_clock_char(#[trigger] clock_text(ms)[i]),
{
    lemma_decimal_is_digits(hundredths(ms) / 100);
}

/// What the clock shows reads back as the time in hundredths: the digits
/// before the point write the seconds, the two behind it the hundredths
/// left over.
pub proof fn lemma_clock_text_reads_back(ms: nat)
    ensures
        ({
            let text = clock_text(ms);
            let point = text.len() - 3;
            100 * value_of(text.subrange(0, point)) + value_of(
                text.subrange(point + 1, text.len() as int),
            ) == hundredths(ms)
        }),
{
    let h = hundredths(ms);
    let text = clock_text(ms);
    let point = text.len() - 3;
    let decimals = seq![digit((h / 10 % 10) as int), digit((h % 10) as int)];
    lemma_decimal_reads_back(h / 100);
    assert(text.subrange(0, point) =~= decimal(h / 100));
    assert(text.subrange(point + 1, text.len() as int) =~= decimals);
    reveal_with_fuel(value_of, 3);
}

fn digit_str(d: u8) -> (text: &'static str)
    requires
        d < 10,
    ensures
        text@ == seq![digit(d as int)],
{
    proof {
        reveal_strlit("0");
        reveal_strlit("1");
        reveal_strlit("2");
        reveal_strlit("3");
        reveal_strlit("4");
        reveal_strlit("5");
        reveal_strlit("6");
        reveal_strlit("7");
        reveal_strlit("8");
        reveal_strlit("9");
    }
    let text = match d {
        0 => "0",
        1 => "1",
        2 => "2",
        3 => "3",
        4 => "4",
        5 => "5",
        6 => "6",
        7 => "7",
        8 => "8",
        _ => "9",
    };
    text
}

fn push_decimal(text: &mut String, n: u128)
    ensures
        final(text)@ == old(text)@ + decimal(n as nat),
    decreases n,
{
    if n >= 10 {
        push_decimal(text, n / 10);
    }
    text.append(digit_str((n % 10) as u8));
}

/// A time in milliseconds as the clock shows it, such as `9.87`.
pub fn format_seconds(ms: u128) -> (text: String)
    ensures
        text@ == clock_text(ms as nat),
{
    let h: u128 = if ms % 10 >= 5 {
        ms / 10 + 1
    } else {
        ms / 10
    };
    let mut text = String::new();
    push_decimal(&mut text, h / 100);
    proof {
        reveal_strlit(".");
    }
    text.append(".");
    text.append(digit_str((h / 10 % 10) as u8));
    text.append(digit_str((h % 10) as u8));
    text
}

} // verus!
