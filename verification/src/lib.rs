//! Scoring for a flashcard trainer of riichi mahjong han/fu to points
//! conversions, and the decisions of its card and options menu.

pub mod han_foo;
pub mod scores;
pub mod text;
pub mod ui;

pub use crate::han_foo::{get_ron, get_tsumo, score, Agari, RonOrTsumo, Score};
pub use crate::scores::calc_points;
