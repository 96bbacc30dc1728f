# han_foo

Scoring for a flashcard trainer of riichi mahjong han/fu to points
conversions, verified with Verus.

- `src/scores.rs`: the scoring rules as spec functions (`payout`,
  `payout_fits`), the verified arithmetic (`ciel_100`, `calc_basic_points`,
  `safe_mult`, `calc_points`, `points_fit`) and the laws of the rules.
- `src/han_foo.rs`: `Score`, `Agari`, `RonOrTsumo` and its text form.
- `src/text.rs`: decimal text of integers.
- `src/ui.rs`: the decisions of the card and of the options menu.
- `app/`: the web page (DOM, cookies, random draws weighted in floating
  point), built on the library.
