//! Building strings character by character, and decimal rendering of integers.
use vstd::prelude::*;

verus! {

/// Appends one character to a string.
///
/// Trusted: calls `String::push`, which std documents as appending the given
/// `char` to the end of the string.
#[verifier::external_body]
pub(crate) fn push_char(s: &mut String, c: char)
    ensures
        final(s)@ == old(s)@.push(c),
{
    s.push(c)
}

/// The ASCII decimal digit for `d`, for `d` in `0..10`.
pub open spec fn digit_char(d: nat) -> char {
    (d + 48) as char
}

/// The decimal digits of `n`, most significant first, without leading zeros
/// (zero is the single digit `0`).
pub open spec fn decimal_digits(n: nat) -> Seq<char>
    decreases n,
{
    if n < 10 {
        seq![digit_char(n)]
    } else {
        decimal_digits(n / 10).push(digit_char(n % 10))
    }
}

/// The decimal rendering of an integer, as `Display` writes it: a `-` before
/// the digits of a negative number.
pub open spec fn decimal(n: int) -> Seq<char> {
    if n < 0 {
        seq!['-'] + decimal_digits((-n) as nat)
    } else {
        decimal_digits(n as nat)
    }
}

/// The decimal digits of a number are at least one digit long, and the first
/// of them is an ASCII digit.
pub proof fn lemma_decimal_digits_shape(n: nat)
    ensures
        decimal_digits(n).len() >= 1,
        n >= 10 ==> decimal_digits(n).len() >= 2,
        exists|d: nat| d < 10 && decimal_digits(n)[0] == #[trigger] digit_char(d),
    decreases n,
{
    if n < 10 {
        assert(decimal_digits(n)[0] == digit_char(n));
    } else {
        lemma_decimal_digits_shape(n / 10);
        let d = choose|d: nat| d < 10 && decimal_digits(n / 10)[0] == #[trigger] digit_char(d);
        assert(decimal_digits(n)[0] == decimal_digits(n / 10)[0]);
        assert(decimal_digits(n)[0] == digit_char(d));
    }
}

/// Digit characters of distinct digits differ.
proof fn lemma_digit_char_injective(a: nat, b: nat)
    requires
        a < 10,
        b < 10,
        digit_char(a) == digit_char(b),
    ensures
        a == b,
{
    assert((a + 48) as char as int == a + 48);
    assert((b + 48) as char as int == b + 48);
}

/// Distinct numbers have distinct decimal digits.
pub proof fn lemma_decimal_digits_injective(n: nat, m: nat)
    requires
        decimal_digits(n) == decimal_digits(m),
    ensures
        n == m,
    decreases n,
{
    lemma_decimal_digits_shape(n);
    lemma_decimal_digits_shape(m);
    if n < 10 && m < 10 {
        assert(decimal_digits(n)[0] == digit_char(n));
        assert(decimal_digits(m)[0] == digit_char(m));
        lemma_digit_char_injective(n, m);
    } else if n >= 10 && m >= 10 {
        let dn = decimal_digits(n);
        let dm = decimal_digits(m);
        assert(dn.drop_last() == decimal_digits(n / 10));
        assert(dm.drop_last() == decimal_digits(m / 10));
        lemma_decimal_digits_injective(n / 10, m / 10);
        assert(dn.last() == digit_char(n % 10));
        assert(dm.last() == digit_char(m % 10));
        lemma_digit_char_injective(n % 10, m % 10);
    }
}

/// Distinct integers have distinct decimal renderings.
pub proof fn lemma_decimal_injective(n: int, m: int)
    requires
        decimal(n) == decimal(m),
    ensures
        n == m,
{
    if n < 0 && m < 0 {
        assert(decimal(n).drop_first() == decimal_digits((-n) as nat));
        assert(decimal(m).drop_first() == decimal_digits((-m) as nat));
        lemma_decimal_digits_injective((-n) as nat, (-m) as nat);
    } else if n >= 0 && m >= 0 {
        lemma_decimal_digits_injective(n as nat, m as nat);
    } else if n < 0 {
        lemma_decimal_digits_shape(m as nat);
        let d = choose|d: nat| d < 10 && decimal_digits(m as nat)[0] == #[trigger] digit_char(d);
        assert(decimal(n)[0] == '-');
        assert((d + 48) as char as int == d + 48);
    } else {
        lemma_decimal_digits_shape(n as nat);
        let d = choose|d: nat| d < 10 && decimal_digits(n as nat)[0] == #[trigger] digit_char(d);
        assert(decimal(m)[0] == '-');
        assert((d + 48) as char as int == d + 48);
    }
}

/// Whether `c` is one of the ASCII decimal digits `0` to `9`.
pub open spec fn is_ascii_digit(c: char) -> bool {
    48 <= c as int <= 57
}

/// The number that a string of ASCII decimal digits denotes, most significant
/// digit first.
pub open spec fn digits_value(s: Seq<char>) -> int
    decreases s.len(),
{
    if s.len() == 0 {
        0
    } else {
        10 * digits_value(s.drop_last()) + (s.last() as int - 48)
    }
}

/// The digit character of a decimal digit `d` is the ASCII digit `'0' + d`.
pub proof fn lemma_digit_char_is_ascii_digit(d: nat)
    requires
        d < 10,
    ensures
        digit_char(d) as int == 48 + d,
        is_ascii_digit(digit_char(d)),
{
    assert((d + 48) as char as int == d + 48);
}

/// The decimal digits of `n` are ASCII digits without a leading zero (but
/// for `0` itself), and they denote `n`.
pub proof fn lemma_decimal_digits_denote(n: nat)
    ensures
        decimal_digits(n).len() >= 1,
        forall|i: int|
            0 <= i < decimal_digits(n).len() ==> is_ascii_digit(#[trigger] decimal_digits(n)[i]),
        decimal_digits(n).len() > 1 ==> decimal_digits(n)[0] != '0',
        digits_value(decimal_digits(n)) == n,
    decreases n,
{
    let dd = decimal_digits(n);
    if n < 10 {
        lemma_digit_char_is_ascii_digit(n);
        assert(dd.drop_last() =~= Seq::<char>::empty());
        assert(digits_value(dd.drop_last()) == 0);
    } else {
        let q: nat = n / 10;
        let r: nat = n % 10;
        lemma_decimal_digits_denote(q);
        lemma_digit_char_is_ascii_digit(r);
        let dq = decimal_digits(q);
        assert(dd == dq.push(digit_char(r)));
        assert(dd.drop_last() =~= dq);
        assert(dd.last() == digit_char(r));
        assert forall|i: int| 0 <= i < dd.len() implies is_ascii_digit(#[trigger] dd[i]) by {
            if i < dq.len() {
                assert(dd[i] == dq[i]);
            }
        }
        assert(dd[0] == dq[0]);
        if dq.len() == 1 {
            assert(q < 10 ==> dq[0] == digit_char(q));
            lemma_decimal_digits_shape(q);
            if q >= 10 {
                assert(dq.len() >= 2);
            }
            lemma_digit_char_is_ascii_digit(q);
            assert('0' as int == 48);
        }
        assert(10 * q + r == n);
    }
}

/// The decimal rendering of an integer is a `-` exactly for negative
/// numbers, followed by ASCII digits without a leading zero (but for `0`
/// itself) that denote the number's magnitude.
pub proof fn lemma_decimal_denotes(n: int)
    ensures
        decimal(n).len() >= 1,
        (decimal(n)[0] == '-') <==> n < 0,
        ({
            let digits = if n < 0 { decimal(n).drop_first() } else { decimal(n) };
            &&& forall|i: int| 0 <= i < digits.len() ==> is_ascii_digit(#[trigger] digits[i])
            &&& digits.len() > 1 ==> digits[0] != '0'
            &&& digits_value(digits) == if n < 0 { -n } else { n }
        }),
{
    if n < 0 {
        let m: nat = (-n) as nat;
        lemma_decimal_digits_denote(m);
        assert(decimal(n).drop_first() =~= decimal_digits(m));
        assert(decimal(n)[0] == '-');
    } else {
        let m: nat = n as nat;
        lemma_decimal_digits_denote(m);
        assert(is_ascii_digit(decimal_digits(m)[0]));
        assert('-' as int == 45);
    }
}

/// Appends the decimal digits of `n` to `s`.
pub fn push_decimal_digits(s: &mut String, n: u64)
    ensures
        final(s)@ == old(s)@ + decimal_digits(n as nat),
    decreases n,
{
    if n >= 10 {
        push_decimal_digits(s, n / 10);
    }
    let d: u8 = (n % 10) as u8;
    push_char(s, (d + 48) as char);
    assert(decimal_digits(n as nat) == if n < 10 {
        seq![digit_char(n as nat)]
    } else {
        decimal_digits((n / 10) as nat).push(digit_char((n % 10) as nat))
    });
}

/// Appends the decimal rendering of `n` to `s`.
pub fn push_decimal(s: &mut String, n: i32)
    ensures
        final(s)@ == old(s)@ + decimal(n as int),
{
    if n < 0 {
        push_char(s, '-');
        let m: i64 = n as i64;
        push_decimal_digits(s, (-m) as u64);
        assert(final(s)@ =~= old(s)@ + decimal(n as int));
    } else {
        push_decimal_digits(s, n as u64);
    }
}

} // verus!
