//! A single-table roulette engine with stock-ticker themed pockets: bet
//! taxonomy, win and payout rules, and the round lifecycle.
use vstd::prelude::*;

pub mod bets;
pub mod game;
pub mod player;
pub mod wheel;

verus! {

} // verus!
