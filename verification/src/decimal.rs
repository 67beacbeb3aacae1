//! Amounts on the wire: a number written out in decimal digits, so that a
//! 128-bit value crosses the transport as text and loses nothing.

use vstd::prelude::*;

verus! {

/// The character that stands for the digit `d`.
pub open spec fn digit_char(d: nat) -> char
    recommends
        d < 10,
{
    (d + 48) as u8 as char
}

/// `c` is one of `'0'` to `'9'`.
pub open spec fn is_digit(c: char) -> bool {
    '0' <= c <= '9'
}

/// The digit that `c` stands for.
pub open spec fn digit_value(c: char) -> nat
    recommends
        is_digit(c),
{
    (c as nat - 48) as nat
}

/// `n` written in decimal, most significant digit first, without padding.
pub open spec fn decimal_digits(n: nat) -> Seq<char>
    decreases n,
{
    if n < 10 {
        seq![digit_char(n)]
    } else {
        decimal_digits(n / 10).push(digit_char(n % 10))
    }
}

/// `text` is one digit or more and nothing else.
pub open spec fn is_digits(text: Seq<char>) -> bool {
    &&& text.len() > 0
    &&& forall|i: int| 0 <= i < text.len() ==> is_digit(#[trigger] text[i])
}

/// The number that a run of digits denotes.
pub open spec fn digits_value(text: Seq<char>) -> nat
    decreases text.len(),
{
    if text.len() == 0 {
        0
    } else {
        digits_value(text.drop_last()) * 10 + digit_value(text.last())
    }
}

/// The amount that `text` denotes, if it denotes one: digits only, no sign,
/// and a value that fits in 128 bits.
pub open spec fn amount_of(text: Seq<char>) -> Option<u128> {
    if is_digits(text) && digits_value(text) <= u128::MAX {
        Some(digits_value(text) as u128)
    } else {
        None
    }
}

fn digit_str(d: u8) -> (text: &'static str)
    requires
        d < 10,
    ensures
        text@ == seq![digit_char(d as nat)],
{
    proof {
        reveal_strlit("0");
        reveal_strlit("1");
        reveal_strlit("2");
        reveal_strlit("3");
        reveal_strlit("4");
        reveal_strlit("5");
        reveal_strlit("6");
        reveal_strlit("7");
        reveal_strlit("8");
        reveal_strlit("9");
    }
    let text = match d {
        0 => "0",
        1 => "1",
        2 => "2",
        3 => "3",
        4 => "4",
        5 => "5",
        6 => "6",
        7 => "7",
        8 => "8",
        _ => "9",
    };
    assert(text@ =~= seq![digit_char(d as nat)]);
    text
}

/// Writes an amount out in decimal.
pub fn encode_amount(amount: u128) -> (text: String)
    ensures
        text@ == decimal_digits(amount as nat),
    decreases amount,
{
    if amount < 10 {
        String::from_str(digit_str(amount as u8))
    } else {
        let mut text = encode_amount(amount / 10);
        text.append(digit_str((amount % 10) as u8));
        assert(text@ =~= decimal_digits(amount as nat));
        text
    }
}

/// A run of characters denotes at least what its beginning denotes.
proof fn lemma_prefix_value(text: Seq<char>, k: int)
    requires
        0 <= k <= text.len(),
    ensures
        digits_value(text.subrange(0, k)) <= digits_value(text),
    decreases text.len() - k,
{
    if k < text.len() {
        lemma_prefix_value(text, k + 1);
        assert(text.subrange(0, k + 1).drop_last() =~= text.subrange(0, k));
    } else {
        assert(text.subrange(0, k) =~= text);
    }
}

/// Reads an amount written in decimal. Anything but digits is refused, and
/// so is a number too large for 128 bits.
pub fn decode_amount(text: &str) -> (amount: Option<u128>)
    ensures
        amount == amount_of(text@),
{
    if !text.is_ascii() {
        return None;
    }
    let bytes = text.as_bytes();
    proof {
        vstd::string::is_ascii_spec_bytes(text);
    }
    let n = bytes.len();
    if n == 0 {
        return None;
    }
    let mut value: u128 = 0;
    let mut i: usize = 0;
    while i < n
        invariant
            i <= n,
            n == text@.len(),
            n == bytes@.len(),
            vstd::utf8::is_ascii_chars(text@),
            forall|j: int| 0 <= j < n ==> bytes@[j] == text@[j] as u8,
            forall|j: int| 0 <= j < i ==> is_digit(#[trigger] text@[j]),
            value == digits_value(text@.subrange(0, i as int)),
        decreases n - i,
    {
        let b = bytes[i];
        if b < 48 || b > 57 {
            assert(!is_digit(text@[i as int]));
            return None;
        }
        let d = (b - 48) as u128;
        proof {
            assert(text@.subrange(0, i + 1).drop_last() =~= text@.subrange(0, i as int));
            assert(digit_value(text@[i as int]) == d);
            lemma_prefix_value(text@, i + 1);
        }
        if value > (u128::MAX - d) / 10 {
            return None;
        }
        value = value * 10 + d;
        i += 1;
    }
    assert(text@.subrange(0, n as int) =~= text@);
    Some(value)
}

/// Written out in decimal, a number is a run of digits that denotes it.
pub proof fn lemma_decimal_digits_denote(n: nat)
    ensures
        is_digits(decimal_digits(n)),
        digits_value(decimal_digits(n)) == n,
    decreases n,
{
    let text = decimal_digits(n);
    assert(digit_value(digit_char(n % 10)) == n % 10);
    if n < 10 {
        assert(text.drop_last() =~= Seq::<char>::empty());
        assert(digits_value(text.drop_last()) == 0);
    } else {
        lemma_decimal_digits_denote(n / 10);
        assert(text.drop_last() =~= decimal_digits(n / 10));
    }
    assert(text.last() == digit_char(n % 10));
}

/// Written out in decimal, a number starts with a zero only if it is zero:
/// the text is a numeric literal as well as a string.
pub proof fn lemma_decimal_digits_have_no_padding(n: nat)
    ensures
        decimal_digits(n).len() > 0,
        decimal_digits(n)[0] == '0' ==> n == 0,
    decreases n,
{
    if n >= 10 {
        lemma_decimal_digits_have_no_padding(n / 10);
    }
}

/// An amount that is written out and read back is the same amount, up to
/// the largest 128-bit value.
pub proof fn lemma_amount_round_trip(amount: u128)
    ensures
        amount_of(decimal_digits(amount as nat)) == Some(amount),
{
    lemma_decimal_digits_denote(amount as nat);
}

} // verus!
