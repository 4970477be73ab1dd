//! Resolution of an attack on a tile held by another player.
use vstd::prelude::*;
use crate::types::TileState;

verus! {

/// Defensive strength of a garrison: its units, plus 2 behind a defense.
pub open spec fn defense_strength(def_units: u8, has_defense: bool) -> int {
    def_units as int + if has_defense { 2int } else { 0int }
}

/// Whether an attack with `count` units takes the tile; a tie holds it.
pub open spec fn attacker_wins(count: u8, def_units: u8, has_defense: bool) -> bool {
    count as int > defense_strength(def_units, has_defense)
}

/// The garrison left from a strength difference `d >= 0`: an eight-bit count,
/// so `d` is kept modulo 256, and never less than 1.
pub open spec fn survivors(d: int) -> u8 {
    if d % 256 == 0 { 1u8 } else { (d % 256) as u8 }
}

/// The tile after player `attacker` strikes with `count` units at a tile of
/// player `defender`. The winner keeps the difference in strength (at least
/// one unit); a captured tile loses its defense and keeps its mine, a held
/// tile keeps both.
pub open spec fn combat_outcome(
    attacker: u8,
    count: u8,
    defender: u8,
    def_units: u8,
    has_defense: bool,
    has_mine: bool,
) -> TileState {
    let atk = count as int;
    let def = defense_strength(def_units, has_defense);
    if atk > def {
        TileState::Owned { player: attacker, units: survivors(atk - def), has_defense: false, has_mine }
    } else {
        TileState::Owned { player: defender, units: survivors(def - atk), has_defense, has_mine }
    }
}

/// Resolves an attack; returns the resulting tile and whether the attacker
/// took it.
pub fn resolve_combat(
    attacker: u8,
    count: u8,
    defender: u8,
    def_units: u8,
    has_defense: bool,
    has_mine: bool,
) -> (r: (TileState, bool))
    ensures
        r.0 == combat_outcome(attacker, count, defender, def_units, has_defense, has_mine),
        r.1 == attacker_wins(count, def_units, has_defense),
{
    let atk: u16 = count as u16;
    let bonus: u16 = if has_defense { 2 } else { 0 };
    let def: u16 = def_units as u16 + bonus;
    if atk > def {
        let d: u16 = (atk - def) % 256;
        let left: u8 = if d == 0 { 1 } else { d as u8 };
        (TileState::Owned { player: attacker, units: left, has_defense: false, has_mine }, true)
    } else {
        let d: u16 = (def - atk) % 256;
        let left: u8 = if d == 0 { 1 } else { d as u8 };
        (TileState::Owned { player: defender, units: left, has_defense, has_mine }, false)
    }
}

} // verus!
