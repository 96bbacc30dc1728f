use vstd::prelude::*;

verus! {

/// The character of the decimal digit `d` (for `d < 10`).
pub open spec fn digit_char(d: nat) -> char {
    (d + 48) as char
}

/// The decimal digits of `n`, most significant first, without leading zeros.
pub open spec fn decimal(n: nat) -> Seq<char>
    decreases n,
{
    if n < 10 {
        seq![digit_char(n)]
    } else {
        decimal(n / 10).push(digit_char(n % 10))
    }
}

/// The decimal text of `v`, with a leading `-` when it is negative.
pub open spec fn signed_decimal(v: int) -> Seq<char> {
    if v < 0 {
        seq!['-'] + decimal((-v) as nat)
    } else {
        decimal(v as nat)
    }
}

/// Whether `c` is one of the digits `0` to `9`.
pub open spec fn is_digit(c: char) -> bool {
    '0' <= c <= '9'
}

/// The number that a sequence of decimal digits stands for, most
/// significant digit first.
pub open spec fn digits_value(s: Seq<char>) -> int
    decreases s.len(),
{
    if s.len() == 0 {
        0
    } else {
        digits_value(s.drop_last()) * 10 + (s.last() as int - '0' as int)
    }
}

/// The decimal text of `n` is a numeral: it is made of digits only, it has
/// no leading zero unless it is `0` itself, and read back in base 10 it is
/// `n`. So different numbers are written differently.
pub proof fn law_decimal_is_numeral(n: nat)
    ensures
        decimal(n).len() >= 1,
        forall|i: int| 0 <= i < decimal(n).len() ==> is_digit(#[trigger] decimal(n)[i]),
        digits_value(decimal(n)) == n,
        decimal(n)[0] == '0' ==> n == 0,
    decreases n,
{
    if n >= 10 {
        law_decimal_is_numeral(n / 10);
        let s = decimal(n);
        assert(s.drop_last() =~= decimal(n / 10));
        assert(s[0] == decimal(n / 10)[0]);
        assert(s.last() == digit_char(n % 10));
        assert(digit_char(n % 10) as int == n % 10 + 48);
        assert(digits_value(s) == digits_value(decimal(n / 10)) * 10 + (n % 10));
        assert(digits_value(s) == n);
    } else {
        let s = decimal(n);
        assert(s.drop_last() =~= Seq::<char>::empty());
        assert(digit_char(n) as int == n + 48);
        assert(digits_value(Seq::<char>::empty()) == 0);
        assert(digits_value(s) == n);
    }
}

/// The decimal text of two numbers is the same only when they are equal.
pub proof fn law_decimal_injective(m: nat, n: nat)
    ensures
        decimal(m) == decimal(n) ==> m == n,
{
    law_decimal_is_numeral(m);
    law_decimal_is_numeral(n);
}

/// The signed decimal text of `v` is `-` and the digits of `-v` when `v` is
/// negative, and the digits of `v` otherwise; it names `v` alone.
pub proof fn law_signed_decimal(v: int, w: int)
    ensures
        v < 0 ==> signed_decimal(v)[0] == '-' && signed_decimal(v).drop_first() == decimal(
            (-v) as nat,
        ),
        v >= 0 ==> is_digit(signed_decimal(v)[0]) && digits_value(signed_decimal(v)) == v,
        signed_decimal(v) == signed_decimal(w) ==> v == w,
{
    law_decimal_is_numeral((-v) as nat);
    law_decimal_is_numeral(v as nat);
    law_decimal_is_numeral((-w) as nat);
    law_decimal_is_numeral(w as nat);
    if v < 0 {
        assert((seq!['-'] + decimal((-v) as nat)).drop_first() =~= decimal((-v) as nat));
    }
    if w < 0 {
        assert((seq!['-'] + decimal((-w) as nat)).drop_first() =~= decimal((-w) as nat));
    }
    if signed_decimal(v) == signed_decimal(w) {
        if v < 0 && w < 0 {
            assert(decimal((-v) as nat) =~= signed_decimal(v).drop_first());
            assert(decimal((-w) as nat) =~= signed_decimal(w).drop_first());
        } else if v < 0 {
            assert(signed_decimal(w)[0] == decimal(w as nat)[0]);
            assert(is_digit(decimal(w as nat)[0]));
        } else if w < 0 {
            assert(signed_decimal(v)[0] == decimal(v as nat)[0]);
            assert(is_digit(decimal(v as nat)[0]));
        }
    }
}

/// `String::push`: appends the character `c` to the end of `s`.
#[verifier::external_body]
pub(crate) fn push_char(s: &mut String, c: char)
    ensures
        final(s)@ == old(s)@.push(c),
{
    s.push(c);
}

/// Appends the decimal digits of `n` to `s`.
pub(crate) fn push_decimal(s: &mut String, n: u32)
    ensures
        final(s)@ == old(s)@ + decimal(n as nat),
    decreases n,
{
    let ghost start = s@;
    if n >= 10 {
        push_decimal(s, n / 10);
    }
    let d: u8 = (n % 10) as u8;
    let c: char = (48u8 + d) as char;
    push_char(s, c);
    assert(s@ =~= start + decimal(n as nat));
}

/// Appends the decimal text of `v`, with its sign, to `s`.
pub(crate) fn push_signed_decimal(s: &mut String, v: i32)
    ensures
        final(s)@ == old(s)@ + signed_decimal(v as int),
{
    let ghost start = s@;
    if v < 0 {
        push_char(s, '-');
        let magnitude: u32 = (0i64 - v as i64) as u32;
        push_decimal(s, magnitude);
        assert(s@ =~= start + signed_decimal(v as int));
    } else {
        push_decimal(s, v as u32);
    }
}

} // verus!
