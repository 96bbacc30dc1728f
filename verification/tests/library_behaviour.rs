use han_foo::han_foo::{get_ron, get_tsumo, score, Agari, RonOrTsumo, Score};
use han_foo::scores::{calc_basic_points, calc_points, ciel_100, points_fit, safe_mult};
use han_foo::ui::{card_click, fu_hidden, menu_click_toggles, toggle_menu, CardAction};

fn payment(result: Result<RonOrTsumo, ()>) -> (bool, i32, i32) {
    match result.unwrap() {
        RonOrTsumo::Ron(v) => (false, v, v),
        RonOrTsumo::Tsumo([a, b]) => (true, a, b),
    }
}

#[test]
fn ciel_100_rounds_up_to_hundreds() {
    assert_eq!(ciel_100(0), 0);
    assert_eq!(ciel_100(1), 100);
    assert_eq!(ciel_100(100), 100);
    assert_eq!(ciel_100(101), 200);
    assert_eq!(ciel_100(5120), 5200);
    assert_eq!(ciel_100(-50), 0);
    assert_eq!(ciel_100(-99), 0);
}

#[test]
fn ciel_100_divides_toward_zero_below_minus_99() {
    assert_eq!(ciel_100(-150), 0);
    assert_eq!(ciel_100(-250), -100);
    assert_eq!(ciel_100(i32::MAX - 99), 2147483600);
}

#[test]
fn basic_points_formula() {
    assert_eq!(calc_basic_points(40, 3, false), 1280);
    assert_eq!(calc_basic_points(40, 3, true), 2560);
    assert_eq!(calc_basic_points(30, 1, false), 240);
    assert_eq!(calc_basic_points(0, 27, true), 0);
    assert_eq!(calc_basic_points(1, 27, true), 1 << 30);
}

#[test]
fn safe_mult_is_one_and_a_half() {
    assert_eq!(safe_mult(2000), 3000);
    assert_eq!(safe_mult(8000), 12000);
    assert_eq!(safe_mult(3), 4);
    assert_eq!(safe_mult(-3), -4);
    assert_eq!(safe_mult(0), 0);
    assert_eq!(safe_mult(i32::MAX), i32::MAX);
    assert_eq!(safe_mult(i32::MIN), i32::MIN);
}

#[test]
fn small_hands() {
    assert_eq!(payment(calc_points(1, 30, false, false, None)), (false, 1000, 1000));
    assert_eq!(payment(calc_points(1, 30, false, true, None)), (false, 1500, 1500));
    assert_eq!(payment(calc_points(1, 30, true, false, None)), (true, 300, 500));
    assert_eq!(payment(calc_points(2, 25, false, false, None)), (false, 1600, 1600));
    assert_eq!(payment(calc_points(4, 30, false, false, None)), (false, 7700, 7700));
}

#[test]
fn limit_tiers() {
    assert_eq!(payment(calc_points(7, 30, false, false, None)), (false, 12000, 12000));
    assert_eq!(payment(calc_points(10, 30, false, false, None)), (false, 16000, 16000));
    assert_eq!(payment(calc_points(12, 30, false, true, None)), (false, 36000, 36000));
    assert_eq!(payment(calc_points(26, 30, false, true, None)), (false, 48000, 48000));
    assert_eq!(payment(calc_points(4, 40, false, false, None)), (false, 8000, 8000));
    assert_eq!(payment(calc_points(3, 70, false, false, None)), (false, 8000, 8000));
}

#[test]
fn limit_hands_ignore_fu() {
    assert_eq!(
        payment(calc_points(5, 30, true, false, None)),
        payment(calc_points(5, 110, true, false, None))
    );
    assert_eq!(
        payment(calc_points(9, 20, false, true, Some(true))),
        payment(calc_points(9, 4_000_000_000, false, true, Some(true)))
    );
}

#[test]
fn missing_kiriage_means_off() {
    for han in 1..14u32 {
        for fu in [20u32, 25, 30, 40, 50, 60, 70, 110] {
            for tsumo in [false, true] {
                for dealer in [false, true] {
                    assert_eq!(
                        payment(calc_points(han, fu, tsumo, dealer, None)),
                        payment(calc_points(han, fu, tsumo, dealer, Some(false)))
                    );
                    assert_eq!(
                        payment(Score { han, fu }.points(tsumo, dealer, true)),
                        payment(calc_points(han, fu, tsumo, dealer, Some(true)))
                    );
                }
            }
        }
    }
}

#[test]
fn payments_are_round_hundreds_and_dealer_pays_more() {
    for han in 1..14u32 {
        for fu in [20u32, 25, 30, 40, 50, 60, 70, 110] {
            let (_, a, b) = payment(calc_points(han, fu, true, false, None));
            assert!(a % 100 == 0 && b % 100 == 0 && a <= b);
            let (_, c, d) = payment(calc_points(han, fu, true, true, None));
            assert_eq!(c, d);
            let (is_tsumo, e, _) = payment(calc_points(han, fu, false, true, Some(true)));
            assert!(!is_tsumo && e % 100 == 0);
        }
    }
}

#[test]
fn kiriage_leaves_other_hands_alone() {
    assert_eq!(
        payment(calc_points(4, 25, false, false, Some(true))),
        payment(calc_points(4, 25, false, false, Some(false)))
    );
    assert_eq!(
        payment(calc_points(3, 50, true, true, Some(true))),
        payment(calc_points(3, 50, true, true, Some(false)))
    );
    assert_eq!(payment(calc_points(3, 60, true, true, Some(true))), (true, 4000, 4000));
}

#[test]
fn payment_text() {
    assert_eq!(RonOrTsumo::Ron(0).to_string(), "0");
    assert_eq!(RonOrTsumo::Ron(-5).to_string(), "-5");
    assert_eq!(RonOrTsumo::Ron(48000).to_string(), "48000");
    assert_eq!(RonOrTsumo::Tsumo([i32::MIN, 0]).to_string(), "-2147483648/0");
    assert_eq!(RonOrTsumo::Tsumo([100, 100]).to_string(), "100 all");
    assert_eq!(
        Score { han: 1, fu: 30 }.points(true, false, false).unwrap().to_string(),
        "300/500"
    );
}

#[test]
fn conversions_and_accessors() {
    assert_eq!(get_ron(Ok(RonOrTsumo::from(7))), 7);
    assert_eq!(get_tsumo(Ok(RonOrTsumo::from([1, 2]))), [1, 2]);
    let made = score(3, 40);
    assert_eq!(made, Score { han: 3, fu: 40 });
}

#[test]
fn agari_points_and_impossible_hands() {
    let hand = Agari::new(Score { han: 5, fu: 30 }, true, true);
    assert_eq!(payment(hand.points(false)), (true, 4000, 4000));
    let kiriage_hand = Agari::new(Score { han: 4, fu: 30 }, false, false);
    assert_eq!(payment(kiriage_hand.points(false)), (false, 7700, 7700));
    assert_eq!(payment(kiriage_hand.points(true)), (false, 8000, 8000));
    assert!(Agari::new(Score { han: 1, fu: 20 }, false, false).is_impossible());
    assert!(!Agari::new(Score { han: 1, fu: 20 }, false, true).is_impossible());
    assert!(Agari::new(Score { han: 2, fu: 25 }, false, true).is_impossible());
    assert!(!Agari::new(Score { han: 2, fu: 25 }, false, false).is_impossible());
    assert!(!Agari::new(Score { han: 3, fu: 25 }, true, true).is_impossible());
}

#[test]
fn card_and_menu_decisions() {
    assert_eq!(card_click(false), (CardAction::ShowPoints, true));
    assert_eq!(card_click(true), (CardAction::DealNext, false));
    assert!(menu_click_toggles(false, true, false));
    assert!(menu_click_toggles(true, true, true));
    assert!(menu_click_toggles(true, false, false));
    assert!(!menu_click_toggles(true, false, true));
    assert!(!menu_click_toggles(false, false, false));
    assert!(toggle_menu(false));
    assert!(!toggle_menu(true));
    assert!(fu_hidden(5));
    assert!(!fu_hidden(4));
}

#[test]
fn payments_that_fit_in_i32() {
    assert!(points_fit(5, u32::MAX, false, true, false));
    assert!(points_fit(3, 40, true, true, false));
    assert!(points_fit(0, 134_217_721, false, false, false));
    assert!(!points_fit(0, 134_217_722, false, false, false));
    assert!(!points_fit(2, 4_000_000_000, true, false, true));
    assert_eq!(payment(calc_points(0, 134_217_721, false, false, None)), (false, 2147483600, 2147483600));
}
