use vstd::prelude::*;
use vstd::arithmetic::power2::*;

use crate::han_foo::{Payout, RonOrTsumo};

verus! {

// ---------------------------------------------------------------------------
// Arithmetic model
// ---------------------------------------------------------------------------

/// `a / b` rounded toward zero, as Rust's integer division does.
pub open spec fn div_toward_zero(a: int, b: int) -> int {
    if a >= 0 {
        a / b
    } else {
        -((-a) / b)
    }
}

/// What `ciel_100` computes: `n + 99` divided by 100 toward zero, times 100.
pub open spec fn ceil_100_spec(n: int) -> int {
    div_toward_zero(n + 99, 100) * 100
}

/// `v` brought into the range of `i32`.
pub open spec fn clamp_i32(v: int) -> int {
    if v > i32::MAX {
        i32::MAX as int
    } else if v < i32::MIN {
        i32::MIN as int
    } else {
        v
    }
}

/// One and a half times `n`, rounded toward zero and saturated to `i32`.
pub open spec fn one_and_a_half(n: int) -> int {
    clamp_i32(div_toward_zero(3 * n, 2))
}

/// 1 for the dealer, 0 for anyone else.
pub open spec fn dealer_bit(dealer: bool) -> nat {
    if dealer {
        1
    } else {
        0
    }
}

/// The exponent in the basic-points formula: `2 + [dealer] + han`.
pub open spec fn basic_exponent(han: u32, dealer: bool) -> nat {
    (2 + dealer_bit(dealer) + han) as nat
}

/// Basic points: `fu * 2^(2 + [dealer] + han)`.
pub open spec fn basic_points_spec(fu: u32, han: u32, dealer: bool) -> int {
    fu * pow2(basic_exponent(han, dealer))
}

// ---------------------------------------------------------------------------
// Scoring rules
// ---------------------------------------------------------------------------

/// Kiriage mangan is on only when it is asked for explicitly.
pub open spec fn kiriage_on(kiriage: Option<bool>) -> bool {
    kiriage == Some(true)
}

/// The least fu at which a 4 han hand is a limit hand.
pub open spec fn four_han_fu_limit(kiriage: bool) -> int {
    if kiriage {
        30
    } else {
        40
    }
}

/// The least fu at which a 3 han hand is a limit hand.
pub open spec fn three_han_fu_limit(kiriage: bool) -> int {
    if kiriage {
        60
    } else {
        70
    }
}

/// A hand is paid as a limit hand (mangan or more) from 5 han on, or at
/// 4 han and 3 han from the fu limits on.
pub open spec fn is_limit_hand(han: u32, fu: u32, kiriage: bool) -> bool {
    ||| han >= 5
    ||| han == 4 && fu >= four_han_fu_limit(kiriage)
    ||| han == 3 && fu >= three_han_fu_limit(kiriage)
}

/// The non-dealer's basic share of a limit hand: mangan, haneman, baiman,
/// sanbaiman, yakuman.
pub open spec fn limit_base(han: u32) -> int {
    if han <= 5 {
        2000
    } else if han <= 7 {
        3000
    } else if han <= 10 {
        4000
    } else if han <= 12 {
        6000
    } else {
        8000
    }
}

/// What a ron costs the discarder: four times the basic points, six times
/// for the dealer, rounded up to 100.
pub open spec fn ron_multiplier(dealer: bool) -> int {
    if dealer {
        6
    } else {
        4
    }
}

/// The payment for a hand.
pub open spec fn payout(han: u32, fu: u32, tsumo: bool, dealer: bool, kiriage: bool) -> Payout {
    if is_limit_hand(han, fu, kiriage) {
        let base = limit_base(han);
        if tsumo {
            if dealer {
                Payout::Tsumo(base * 2, base * 2)
            } else {
                Payout::Tsumo(base, base * 2)
            }
        } else if dealer {
            Payout::Ron(one_and_a_half(base) * 4)
        } else {
            Payout::Ron(base * 4)
        }
    } else if tsumo {
        if dealer {
            let each = ceil_100_spec(basic_points_spec(fu, han, true));
            Payout::Tsumo(each, each)
        } else {
            Payout::Tsumo(
                ceil_100_spec(basic_points_spec(fu, han, false)),
                ceil_100_spec(basic_points_spec(fu, han, true)),
            )
        }
    } else {
        Payout::Ron(ceil_100_spec(basic_points_spec(fu, han, false) * ron_multiplier(dealer)))
    }
}

/// The hands whose payment fits in `i32`: every limit hand, and the others
/// as long as the largest payment, before rounding up, stays 99 below
/// `i32::MAX`.
pub open spec fn payout_fits(han: u32, fu: u32, tsumo: bool, dealer: bool, kiriage: bool) -> bool {
    ||| is_limit_hand(han, fu, kiriage)
    ||| tsumo && basic_points_spec(fu, han, true) + 99 <= i32::MAX
    ||| !tsumo && basic_points_spec(fu, han, false) * ron_multiplier(dealer) + 99 <= i32::MAX
}

// ---------------------------------------------------------------------------
// Executable functions
// ---------------------------------------------------------------------------

/// Rounds `n` up to a multiple of 100 (for `n > -100`; below that the
/// division rounds toward zero).
pub fn ciel_100(n: i32) -> (r: i32)
    requires
        n <= i32::MAX - 99,
    ensures
        r == ceil_100_spec(n as int),
        n > -100 ==> r % 100 == 0 && n <= r < n + 100,
{
    ((n + 99) / 100) * 100
}

/// `2^e`.
fn power_of_two(e: u32) -> (r: i32)
    requires
        e <= 30,
    ensures
        r == pow2(e as nat),
{
    let mut r: i32 = 1;
    let mut i: u32 = 0;
    proof {
        lemma2_to64();
    }
    while i < e
        invariant
            i <= e <= 30,
            r == pow2(i as nat),
        decreases e - i,
    {
        proof {
            lemma_pow2_unfold((i + 1) as nat);
            lemma_pow2_strictly_increases((i + 1) as nat, 31);
            lemma2_to64();
        }
        r = r * 2;
        i = i + 1;
    }
    r
}

/// Basic points of a hand: `fu * 2^(2 + [dealer] + han)`.
pub fn calc_basic_points(fu: u32, han: u32, dealer: bool) -> (r: i32)
    requires
        basic_exponent(han, dealer) <= 30,
        basic_points_spec(fu, han, dealer) <= i32::MAX,
    ensures
        r == basic_points_spec(fu, han, dealer),
{
    let isdeal: u32 = match dealer {
        true => 1,
        false => 0,
    };
    let exponent: u32 = (2 + isdeal) + han;
    let power = power_of_two(exponent);
    proof {
        lemma_pow2_pos(exponent as nat);
        assert(fu <= fu * pow2(exponent as nat)) by (nonlinear_arith)
            requires pow2(exponent as nat) > 0;
    }
    let signed_fu: i32 = fu as i32;
    signed_fu * power
}

/// Multiplies `num` by 1.5, rounding toward zero and saturating at the
/// bounds of `i32`.
pub fn safe_mult(num: i32) -> (r: i32)
    ensures
        r == one_and_a_half(num as int),
{
    let wide: i64 = (num as i64) * 3 / 2;
    if wide > i32::MAX as i64 {
        i32::MAX
    } else if wide < i32::MIN as i64 {
        i32::MIN
    } else {
        wide as i32
    }
}

/// Whether the payment for a hand fits in `i32`, so that `calc_points` and
/// `Score::points` may be asked for it.
pub fn points_fit(han: u32, fu: u32, tsumo: bool, dealer: bool, kiriage: bool) -> (r: bool)
    ensures
        r == payout_fits(han, fu, tsumo, dealer, kiriage),
{
    let four_limit: u32 = if kiriage {
        30
    } else {
        40
    };
    let three_limit: u32 = if kiriage {
        60
    } else {
        70
    };
    if han >= 5 || (han == 4 && fu >= four_limit) || (han == 3 && fu >= three_limit) {
        return true;
    }
    let power = power_of_two(2 + han);
    proof {
        lemma_pow2_pos((2 + han) as nat);
        lemma_pow2_strictly_increases((2 + han) as nat, 7);
        lemma2_to64();
        lemma_basic_points_order(fu, han);
        assert(fu * pow2((2 + han) as nat) <= 0xffff_ffff * 64) by (nonlinear_arith)
            requires
                fu <= 0xffff_ffff,
                pow2((2 + han) as nat) <= 64;
    }
    let low: u64 = (fu as u64) * (power as u64);
    assert(low == basic_points_spec(fu, han, false));
    if tsumo {
        2 * low + 99 <= i32::MAX as u64
    } else if dealer {
        6 * low + 99 <= i32::MAX as u64
    } else {
        4 * low + 99 <= i32::MAX as u64
    }
}

/// The payment for a hand of `han` and `fu`, won by tsumo or ron, by the
/// dealer or not, with kiriage mangan when `kiriage` is `Some(true)`.
pub fn calc_points(han: u32, fu: u32, tsumo: bool, dealer: bool, kiriage: Option<bool>) -> (r: Result<RonOrTsumo, ()>)
    requires
        payout_fits(han, fu, tsumo, dealer, kiriage_on(kiriage)),
    ensures
        match r {
            Ok(p) => p@ == payout(han, fu, tsumo, dealer, kiriage_on(kiriage)),
            Err(_) => false,
        },
{
    let kiriage_enabled = match kiriage {
        Some(b) => b,
        None => false,
    };
    let fu_limit: [u32; 2] = match kiriage_enabled {
        true => [30, 60],
        false => [40, 70],
    };
    let resolved_points: RonOrTsumo;

    // Limit hands
    if han >= 5 || (han == 4 && fu >= fu_limit[0]) || (han == 3 && fu >= fu_limit[1]) {
        let low_points: i32 = if han <= 5 {
            2000
        } else if han <= 7 {
            3000
        } else if han <= 10 {
            4000
        } else if han <= 12 {
            6000
        } else {
            8000
        };

        return if tsumo {
            Ok((match dealer {
                true => [low_points * 2, low_points * 2],
                false => [low_points, low_points * 2],
            }).into())
        } else {
            Ok((match dealer {
                true => safe_mult(low_points),
                false => low_points,
            } * 4).into())
        };
    }

    proof {
        lemma_pow2_strictly_increases(basic_exponent(han, false), basic_exponent(han, true));
        assert(basic_points_spec(fu, han, false) <= basic_points_spec(fu, han, true)) by (nonlinear_arith)
            requires
                pow2(basic_exponent(han, false)) < pow2(basic_exponent(han, true)),
                basic_points_spec(fu, han, false) == fu * pow2(basic_exponent(han, false)),
                basic_points_spec(fu, han, true) == fu * pow2(basic_exponent(han, true)),
        ;
    }

    if tsumo {
        if dealer {
            let tmp = ciel_100(calc_basic_points(fu, han, true));
            resolved_points = [tmp, tmp].into();
        } else {
            let mut out: [i32; 2] = [0, 0];
            out[0] = ciel_100(calc_basic_points(fu, han, false));
            out[1] = ciel_100(calc_basic_points(fu, han, true));
            resolved_points = out.into();
        }
    } else {
        if dealer {
            resolved_points = (ciel_100(calc_basic_points(fu, han, false) * 6)).into();
        } else {
            resolved_points = (ciel_100(calc_basic_points(fu, han, false) * 4)).into();
        }
    }

    Ok(resolved_points)
}

} // verus!

verus! {

// ---------------------------------------------------------------------------
// Laws
// ---------------------------------------------------------------------------

/// Rounding up to 100 gives a multiple of 100 that is at least `n`, less
/// than 100 above it, and keeps the order of non-negative amounts.
pub proof fn lemma_ceil_100(n: int, m: int)
    requires
        0 <= n <= m,
    ensures
        ceil_100_spec(n) % 100 == 0,
        n <= ceil_100_spec(n) < n + 100,
        ceil_100_spec(n) <= ceil_100_spec(m),
{
    vstd::arithmetic::div_mod::lemma_div_is_ordered(n + 99, m + 99, 100);
    vstd::arithmetic::div_mod::lemma_mod_multiples_basic((n + 99) / 100, 100);
}

/// Basic points grow with a dealer's doubling and are never negative.
proof fn lemma_basic_points_order(fu: u32, han: u32)
    ensures
        0 <= basic_points_spec(fu, han, false) <= basic_points_spec(fu, han, true),
        basic_points_spec(fu, han, true) == 2 * basic_points_spec(fu, han, false),
{
    lemma_pow2_unfold(basic_exponent(han, true));
    lemma_pow2_pos(basic_exponent(han, false));
    assert(fu * pow2(basic_exponent(han, true)) == 2 * (fu * pow2(basic_exponent(han, false))))
        by (nonlinear_arith)
        requires
            pow2(basic_exponent(han, true)) == 2 * pow2(basic_exponent(han, false));
    assert(0 <= fu * pow2(basic_exponent(han, false))) by (nonlinear_arith)
        requires
            pow2(basic_exponent(han, false)) > 0;
}

/// Leaving kiriage unset is the same as turning it off, and `Some(k)`
/// turns it on exactly when `k` holds: so a `Score`'s `points` with
/// `kiriage` pays what `calc_points` pays with `Some(kiriage)`.
pub proof fn law_kiriage_option(han: u32, fu: u32, tsumo: bool, dealer: bool, kiriage: bool)
    ensures
        payout(han, fu, tsumo, dealer, kiriage_on(None)) == payout(han, fu, tsumo, dealer, false),
        payout(han, fu, tsumo, dealer, kiriage_on(Some(kiriage))) == payout(
            han,
            fu,
            tsumo,
            dealer,
            kiriage,
        ),
{
}

/// Every payment is a non-negative multiple of 100.
pub proof fn law_payments_are_round_hundreds(
    han: u32,
    fu: u32,
    tsumo: bool,
    dealer: bool,
    kiriage: bool,
)
    ensures
        match payout(han, fu, tsumo, dealer, kiriage) {
            Payout::Ron(v) => v >= 0 && v % 100 == 0,
            Payout::Tsumo(a, b) => a >= 0 && a % 100 == 0 && b >= 0 && b % 100 == 0,
        },
{
    lemma_basic_points_order(fu, han);
    let low = basic_points_spec(fu, han, false);
    let high = basic_points_spec(fu, han, true);
    lemma_ceil_100(low, high);
    lemma_ceil_100(high, high);
    let mult = low * ron_multiplier(dealer);
    assert(0 <= mult) by (nonlinear_arith)
        requires
            0 <= low,
            mult == low * ron_multiplier(dealer),
            ron_multiplier(dealer) > 0;
    lemma_ceil_100(mult, mult);
}

/// A hand is paid by tsumo shares exactly when it was won by tsumo.
pub proof fn law_tsumo_is_split(han: u32, fu: u32, tsumo: bool, dealer: bool, kiriage: bool)
    ensures
        (payout(han, fu, tsumo, dealer, kiriage) is Tsumo) == tsumo,
{
}

/// When the dealer wins by tsumo, everyone pays the same share ("x all").
pub proof fn law_dealer_tsumo_is_even(han: u32, fu: u32, kiriage: bool)
    ensures
        payout(han, fu, true, true, kiriage) matches Payout::Tsumo(a, b) && a == b,
{
}

/// When a non-dealer wins by tsumo, the dealer's share is at least the
/// other players' share.
pub proof fn law_dealer_pays_more_on_tsumo(han: u32, fu: u32, kiriage: bool)
    ensures
        payout(han, fu, true, false, kiriage) matches Payout::Tsumo(a, b) && a <= b,
{
    lemma_basic_points_order(fu, han);
    lemma_ceil_100(basic_points_spec(fu, han, false), basic_points_spec(fu, han, true));
}

/// From 5 han on the fu do not matter.
pub proof fn law_limit_hands_ignore_fu(
    han: u32,
    fu1: u32,
    fu2: u32,
    tsumo: bool,
    dealer: bool,
    kiriage: bool,
)
    requires
        han >= 5,
    ensures
        payout(han, fu1, tsumo, dealer, kiriage) == payout(han, fu2, tsumo, dealer, kiriage),
{
}

/// On a limit hand the dealer's ron is one and a half times a non-dealer's.
pub proof fn law_limit_dealer_ron_is_half_again(han: u32, fu: u32, kiriage: bool)
    requires
        is_limit_hand(han, fu, kiriage),
    ensures
        payout(han, fu, false, true, kiriage) matches Payout::Ron(d) && payout(
            han,
            fu,
            false,
            false,
            kiriage,
        ) matches Payout::Ron(n) && 2 * d == 3 * n,
{
}

/// Kiriage mangan only changes 4 han hands of 30 to 39 fu and 3 han hands
/// of 60 to 69 fu, and pays those as a mangan.
pub proof fn law_kiriage_rounds_up_to_mangan(han: u32, fu: u32, tsumo: bool, dealer: bool)
    ensures
        (han == 4 && 30 <= fu < 40) || (han == 3 && 60 <= fu < 70) ==> payout(
            han,
            fu,
            tsumo,
            dealer,
            true,
        ) == payout(5, fu, tsumo, dealer, false),
        !((han == 4 && 30 <= fu < 40) || (han == 3 && 60 <= fu < 70)) ==> payout(
            han,
            fu,
            tsumo,
            dealer,
            true,
        ) == payout(han, fu, tsumo, dealer, false),
{
}

} // verus!

verus! {

/// `r` is `x` rounded up to the next multiple of 100.
pub open spec fn rounded_up_to_hundred(x: int, r: int) -> bool {
    &&& r % 100 == 0
    &&& x <= r < x + 100
}

/// The payment of a limit hand won by ron from a non-dealer, by name:
/// mangan 8000, haneman 12000, baiman 16000, sanbaiman 24000, yakuman 32000.
pub open spec fn named_limit_ron(han: u32) -> int {
    if han <= 5 {
        8000
    } else if han <= 7 {
        12000
    } else if han <= 10 {
        16000
    } else if han <= 12 {
        24000
    } else {
        32000
    }
}

/// When the dealer wins by tsumo, each player pays what the dealer pays
/// when a non-dealer wins the same hand by tsumo.
pub proof fn law_dealer_tsumo_share(han: u32, fu: u32, kiriage: bool)
    ensures
        payout(han, fu, true, false, kiriage) matches Payout::Tsumo(a, b) && payout(
            han,
            fu,
            true,
            true,
            kiriage,
        ) == Payout::Tsumo(b, b),
{
}

/// Below the limits, every payment is a multiple of basic points
/// `fu * 2^(han + 2)` rounded up to 100: the non-dealers' tsumo share is
/// one basic, the dealer's tsumo share two, a non-dealer's ron four and a
/// dealer's ron six.
pub proof fn law_non_limit_shares(han: u32, fu: u32, kiriage: bool)
    requires
        !is_limit_hand(han, fu, kiriage),
    ensures
        payout(han, fu, true, false, kiriage) matches Payout::Tsumo(a, b) && rounded_up_to_hundred(
            fu * pow2((han + 2) as nat),
            a,
        ) && rounded_up_to_hundred(2 * (fu * pow2((han + 2) as nat)), b),
        payout(han, fu, true, true, kiriage) matches Payout::Tsumo(c, d) && c == d
            && rounded_up_to_hundred(2 * (fu * pow2((han + 2) as nat)), c),
        payout(han, fu, false, false, kiriage) matches Payout::Ron(r) && rounded_up_to_hundred(
            4 * (fu * pow2((han + 2) as nat)),
            r,
        ),
        payout(han, fu, false, true, kiriage) matches Payout::Ron(r) && rounded_up_to_hundred(
            6 * (fu * pow2((han + 2) as nat)),
            r,
        ),
{
    lemma_basic_points_order(fu, han);
    let low = basic_points_spec(fu, han, false);
    assert(basic_exponent(han, false) == (han + 2) as nat);
    assert(low == fu * pow2((han + 2) as nat));
    lemma_ceil_100(low, low);
    lemma_ceil_100(2 * low, 2 * low);
    lemma_ceil_100(4 * low, 4 * low);
    lemma_ceil_100(6 * low, 6 * low);
}

/// A limit hand won by a non-dealer's ron pays the named limit for its han:
/// mangan up to 5 han, haneman at 6 and 7, baiman at 8 to 10, sanbaiman at
/// 11 and 12, yakuman from 13.
pub proof fn law_limit_ron_by_name(han: u32, fu: u32, kiriage: bool)
    requires
        is_limit_hand(han, fu, kiriage),
    ensures
        payout(han, fu, false, false, kiriage) == Payout::Ron(named_limit_ron(han)),
{
}

/// A limit hand is paid from one limit whatever the way it is won: with `r`
/// a non-dealer's ron, a non-dealer's tsumo is `r/4` from each non-dealer
/// and `r/2` from the dealer, a dealer's ron is `3r/2`, and a dealer's tsumo
/// is `r/2` from everyone, a third of the dealer's ron.
pub proof fn law_limit_one_limit_for_all_wins(han: u32, fu: u32, kiriage: bool)
    requires
        is_limit_hand(han, fu, kiriage),
    ensures
        payout(han, fu, false, false, kiriage) matches Payout::Ron(r) && r % 4 == 0
            && payout(han, fu, true, false, kiriage) == Payout::Tsumo(r / 4, r / 2) && payout(
            han,
            fu,
            false,
            true,
            kiriage,
        ) == Payout::Ron(3 * r / 2) && payout(han, fu, true, true, kiriage) == Payout::Tsumo(
            r / 2,
            r / 2,
        ),
        payout(han, fu, true, false, kiriage) matches Payout::Tsumo(a, b) && payout(
            han,
            fu,
            false,
            false,
            kiriage,
        ) == Payout::Ron(4 * a),
        payout(han, fu, false, true, kiriage) matches Payout::Ron(d) && payout(
            han,
            fu,
            true,
            true,
            kiriage,
        ) == Payout::Tsumo(d / 3, d / 3),
{
}

} // verus!

verus! {

/// With or without kiriage, every hand of 5 han or more, of 4 han from 40
/// fu and of 3 han from 70 fu is a limit hand, paid its named limit; and no
/// hand of 2 han or less, of 3 han under 60 fu or of 4 han under 30 fu is:
/// its ron is four basic points `fu * 2^(han + 2)` rounded up to 100.
pub proof fn law_limit_thresholds(han: u32, fu: u32, kiriage: bool)
    ensures
        han >= 5 || (han == 4 && fu >= 40) || (han == 3 && fu >= 70) ==> payout(
            han,
            fu,
            false,
            false,
            kiriage,
        ) == Payout::Ron(named_limit_ron(han)),
        han <= 2 || (han == 3 && fu < 60) || (han == 4 && fu < 30) ==> (payout(
            han,
            fu,
            false,
            false,
            kiriage,
        ) matches Payout::Ron(r) && rounded_up_to_hundred(4 * (fu * pow2((han + 2) as nat)), r)),
{
    if !is_limit_hand(han, fu, kiriage) {
        law_non_limit_shares(han, fu, kiriage);
    }
}

} // verus!
