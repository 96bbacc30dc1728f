use vstd::prelude::*;

use crate::scores::{calc_points, kiriage_on, payout, payout_fits};
use crate::text::{push_char, push_signed_decimal, signed_decimal};

verus! {

/// A hand's value: its han and its fu.
#[derive(Debug, Clone, Copy, PartialEq, Eq, Structural)]
pub struct Score {
    pub han: u32,
    pub fu: u32,
}

/// What a winning hand is paid: by the discarder alone (ron), or by every
/// other player (tsumo), as `[non-dealer share, dealer share]`.
#[derive(Debug)]
pub enum RonOrTsumo {
    Ron(i32),
    Tsumo([i32; 2]),
}

/// The mathematical model of a payment.
pub enum Payout {
    Ron(int),
    Tsumo(int, int),
}

impl View for RonOrTsumo {
    type V = Payout;

    open spec fn view(&self) -> Payout {
        match self {
            RonOrTsumo::Ron(v) => Payout::Ron(*v as int),
            RonOrTsumo::Tsumo(t) => Payout::Tsumo(t[0] as int, t[1] as int),
        }
    }
}

/// How a payment is written on the back of a card: the ron amount; or the
/// two tsumo shares as `non-dealer/dealer`, or `x all` when they are equal.
pub open spec fn payout_text(p: Payout) -> Seq<char> {
    match p {
        Payout::Ron(v) => signed_decimal(v),
        Payout::Tsumo(a, b) => if a == b {
            signed_decimal(a) + seq![' ', 'a', 'l', 'l']
        } else {
            signed_decimal(a) + seq!['/'] + signed_decimal(b)
        },
    }
}

impl RonOrTsumo {
    /// The payment as text: `5200`, `1300/2600` or `2600 all`.
    pub fn to_string(&self) -> (r: String)
        ensures
            r@ == payout_text(self@),
    {
        let mut out = String::new();
        match self {
            RonOrTsumo::Ron(v) => {
                push_signed_decimal(&mut out, *v);
            },
            RonOrTsumo::Tsumo(t) => {
                if t[0] == t[1] {
                    push_signed_decimal(&mut out, t[0]);
                    push_char(&mut out, ' ');
                    push_char(&mut out, 'a');
                    push_char(&mut out, 'l');
                    push_char(&mut out, 'l');
                } else {
                    push_signed_decimal(&mut out, t[0]);
                    push_char(&mut out, '/');
                    push_signed_decimal(&mut out, t[1]);
                }
            },
        }
        assert(out@ =~= payout_text(self@));
        out
    }
}

impl From<i32> for RonOrTsumo {
    fn from(value: i32) -> (r: Self) {
        RonOrTsumo::Ron(value)
    }
}

impl vstd::std_specs::convert::FromSpecImpl<i32> for RonOrTsumo {
    open spec fn obeys_from_spec() -> bool {
        true
    }

    open spec fn from_spec(v: i32) -> Self {
        RonOrTsumo::Ron(v)
    }
}

impl From<[i32; 2]> for RonOrTsumo {
    fn from(value: [i32; 2]) -> (r: Self) {
        RonOrTsumo::Tsumo(value)
    }
}

impl vstd::std_specs::convert::FromSpecImpl<[i32; 2]> for RonOrTsumo {
    open spec fn obeys_from_spec() -> bool {
        true
    }

    open spec fn from_spec(v: [i32; 2]) -> Self {
        RonOrTsumo::Tsumo(v)
    }
}

impl Score {
    /// The payment for this score, won by tsumo or ron, by the dealer or
    /// not, with or without kiriage mangan.
    pub fn points(&self, tsumo: bool, dealer: bool, kiriage: bool) -> (r: Result<RonOrTsumo, ()>)
        requires
            payout_fits(self.han, self.fu, tsumo, dealer, kiriage),
        ensures
            match r {
                Ok(p) => p@ == payout(self.han, self.fu, tsumo, dealer, kiriage),
                Err(_) => false,
            },
    {
        assert(kiriage_on(Some(kiriage)) == kiriage);
        calc_points(self.han, self.fu, tsumo, dealer, Some(kiriage))
    }
}

/// The score of `han` and `fu`.
pub fn score(han: u32, fu: u32) -> (r: Score)
    ensures
        r == (Score { han, fu }),
{
    Score { han, fu }
}

/// The ron amount of a payment that is known to be a ron.
pub fn get_ron(result: Result<RonOrTsumo, ()>) -> (r: i32)
    requires
        result matches Ok(RonOrTsumo::Ron(_)),
    ensures
        result matches Ok(RonOrTsumo::Ron(v)) && r == v,
{
    match result {
        Ok(RonOrTsumo::Ron(v)) => v,
        _ => {
            assert(false);
            0
        },
    }
}

/// The two tsumo shares of a payment that is known to be a tsumo.
pub fn get_tsumo(result: Result<RonOrTsumo, ()>) -> (r: [i32; 2])
    requires
        result matches Ok(RonOrTsumo::Tsumo(_)),
    ensures
        result matches Ok(RonOrTsumo::Tsumo(v)) && r == v,
{
    match result {
        Ok(RonOrTsumo::Tsumo(v)) => v,
        _ => {
            assert(false);
            [0, 0]
        },
    }
}

/// A winning hand: its score, whether the winner is the dealer, and
/// whether it was won by tsumo.
#[derive(Debug, Clone, Copy, PartialEq, Eq, Structural)]
pub struct Agari {
    pub score: Score,
    pub dealer: bool,
    pub tsumo: bool,
}

/// Hands that cannot occur: 20 fu only comes with a tsumo (pinfu tsumo),
/// and a 2 han hand of 25 fu (chiitoitsu) cannot be won by tsumo.
pub open spec fn impossible_hand(a: Agari) -> bool {
    ||| a.score.fu == 20 && !a.tsumo
    ||| a.score.fu == 25 && a.score.han == 2 && a.tsumo
}

impl Agari {
    /// The winning hand of `score`, by the dealer or not, by tsumo or ron.
    pub fn new(score: Score, dealer: bool, tsumo: bool) -> (r: Agari)
        ensures
            r == (Agari { score, dealer, tsumo }),
    {
        Agari { score, dealer, tsumo }
    }

    /// The payment for this hand, with or without kiriage mangan.
    pub fn points(&self, kiriage: bool) -> (r: Result<RonOrTsumo, ()>)
        requires
            payout_fits(self.score.han, self.score.fu, self.tsumo, self.dealer, kiriage),
        ensures
            match r {
                Ok(p) => p@ == payout(self.score.han, self.score.fu, self.tsumo, self.dealer, kiriage),
                Err(_) => false,
            },
    {
        self.score.points(self.tsumo, self.dealer, kiriage)
    }

    /// Whether this hand cannot occur, so that a new one must be drawn.
    pub fn is_impossible(&self) -> (r: bool)
        ensures
            r == impossible_hand(*self),
    {
        (self.score.fu == 20 && !self.tsumo) || (self.score.fu == 25 && self.score.han == 2
            && self.tsumo)
    }
}

/// Which hands cannot occur does not depend on who is dealer: every 20 fu
/// ron and every 2 han 25 fu tsumo is rejected, every 20 fu tsumo and every
/// 25 fu ron is kept, and so is every hand of any other fu.
pub proof fn law_impossible_hands(a: Agari)
    ensures
        impossible_hand(a) == impossible_hand(Agari { dealer: !a.dealer, ..a }),
        a.score.fu == 20 && !a.tsumo ==> impossible_hand(a),
        a.score.fu == 25 && a.score.han == 2 && a.tsumo ==> impossible_hand(a),
        a.score.fu == 20 && a.tsumo ==> !impossible_hand(a),
        a.score.fu == 25 && !a.tsumo ==> !impossible_hand(a),
        a.score.fu == 25 && a.score.han != 2 ==> !impossible_hand(a),
        a.score.fu != 20 && a.score.fu != 25 ==> !impossible_hand(a),
{
}

} // verus!
