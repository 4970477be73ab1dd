//! Properties of the rules that hold for every input.
use vstd::prelude::*;
use crate::combat::{attacker_wins, combat_outcome, defense_strength};
use crate::engine::{move_outcome, source_after};
use crate::types::TileState;

verus! {

/// Combat is a pure function of its inputs: the same attack on the same
/// garrison always ends the same way.
pub proof fn combat_is_deterministic(
    attacker: u8,
    count: u8,
    defender: u8,
    def_units: u8,
    has_defense: bool,
    has_mine: bool,
    attacker2: u8,
    count2: u8,
    defender2: u8,
    def_units2: u8,
    has_defense2: bool,
    has_mine2: bool,
)
    requires
        attacker == attacker2,
        count == count2,
        defender == defender2,
        def_units == def_units2,
        has_defense == has_defense2,
        has_mine == has_mine2,
    ensures
        combat_outcome(attacker, count, defender, def_units, has_defense, has_mine)
            == combat_outcome(attacker2, count2, defender2, def_units2, has_defense2, has_mine2),
{
}

/// A tie goes to the defender: when the attack equals the garrison plus its
/// defense bonus, the defender keeps the tile, its defense and its mine, with
/// a garrison of one.
pub proof fn tie_favors_defender(
    attacker: u8,
    count: u8,
    defender: u8,
    def_units: u8,
    has_defense: bool,
    has_mine: bool,
)
    requires
        count as int == defense_strength(def_units, has_defense),
    ensures
        !attacker_wins(count, def_units, has_defense),
        combat_outcome(attacker, count, defender, def_units, has_defense, has_mine)
            == (TileState::Owned { player: defender, units: 1, has_defense, has_mine }),
{
}

/// Whoever wins a fight keeps at least one unit on the tile.
pub proof fn combat_leaves_a_garrison(
    attacker: u8,
    count: u8,
    defender: u8,
    def_units: u8,
    has_defense: bool,
    has_mine: bool,
)
    ensures
        combat_outcome(attacker, count, defender, def_units, has_defense, has_mine) is Owned,
        combat_outcome(attacker, count, defender, def_units, has_defense, has_mine)->units >= 1,
{
}

/// A move never lays a deposit: a cell that holds none before a move holds
/// none after it, and a deposit moved onto becomes a mine of the mover.
pub proof fn deposits_never_return(g: Seq<TileState>, src: int, dst: int, pi: u8, c: u8)
    requires
        0 <= src < g.len(),
        0 <= dst < g.len(),
        src != dst,
    ensures
        ({
            let g2 = g.update(src, source_after(g[src], c)).update(dst, move_outcome(g[dst], pi, c));
            &&& forall|i: int| 0 <= i < g.len() && !(g[i] is Resource) ==> !(#[trigger] g2[i] is Resource)
            &&& g[dst] is Resource ==> g2[dst] == (TileState::Owned { player: pi, units: c, has_defense: false, has_mine: true })
        }),
{
}

/// The tile a move of at least one unit ends on is garrisoned: it holds one
/// unit or more, whether claimed, reinforced, fought over or captured.
pub proof fn destination_keeps_a_garrison(dest: TileState, pi: u8, c: u8)
    requires
        c >= 1,
        dest is Owned && dest->player == pi ==> dest->units + c <= u8::MAX,
    ensures
        move_outcome(dest, pi, c) is Owned,
        move_outcome(dest, pi, c)->units >= 1,
{
}

} // verus!
