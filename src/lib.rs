//! A deterministic state-transition engine for a four-player territorial
//! conquest game on an eight-by-eight grid.
//!
//! Every command validates all of its preconditions before it writes
//! anything: it either returns an error with the game and player records
//! untouched, or applies its whole effect.
use vstd::prelude::*;

pub mod types;
pub mod grid;
pub mod combat;
pub mod engine;
pub mod laws;

verus! {

/// Width and height of the board.
pub const GRID_SIZE: u8 = 8;

/// Most players a game admits.
pub const MAX_PLAYERS: u8 = 4;

/// Most units a player may have trained in total.
pub const MAX_UNITS: u8 = 20;

/// Gold a player starts with.
pub const INITIAL_GOLD: u64 = 100;

/// Wood a player starts with.
pub const INITIAL_WOOD: u64 = 50;

/// Gold paid for each trained unit.
pub const UNIT_COST_GOLD: u64 = 25;

/// Wood paid for a defense.
pub const DEFENSE_COST_WOOD: u64 = 30;

/// Gold and wood yielded by each owned tile on a collection.
pub const RESOURCE_PER_TICK: u64 = 5;

} // verus!
