//! The commands: each checks every precondition, in a fixed order, before it
//! writes, and on the first failure returns that error with the records left
//! as they were.
use vstd::prelude::*;
use crate::combat::{attacker_wins, combat_outcome, resolve_combat};
use crate::grid::{
    adjacent, cell, cell_index, corner_origin, in_bounds, in_corner, initial_deposit, is_adjacent,
    is_deposit_cell, owned_by,
};
use crate::types::Pubkey;
use crate::types::{Game, GameError, GameStatus, PlayerState, ResourceType, StrategyMode, TileState};

verus! {

// ---------------------------------------------------------------- lifecycle

/// A new game in the lobby: no players, an all-empty board, turn 0.
/// `now` is the creation time, read by the caller.
pub fn create_game(game_id: u64, creator: Pubkey, stake_amount: u64, now: i64) -> (g: Game)
    ensures
        g.wf(),
        g.game_id == game_id,
        g.creator == creator,
        g.stake_amount == stake_amount,
        g.player_count == 0,
        g.status == GameStatus::Lobby,
        g.turn == 0,
        g.winner is None,
        g.created_at == now,
        g.started_at == 0,
        g.finished_at == 0,
        forall|i: int| 0 <= i < 64 ==> g.grid@[i] == TileState::Empty,
{
    let mut grid: Vec<TileState> = Vec::new();
    let mut i: usize = 0;
    while i < 64
        invariant
            i <= 64,
            grid@.len() == i,
            forall|j: int| 0 <= j < i ==> grid@[j] == TileState::Empty,
        decreases 64 - i,
    {
        grid.push(TileState::Empty);
        i = i + 1;
    }
    Game {
        game_id,
        creator,
        stake_amount,
        player_count: 0,
        status: GameStatus::Lobby,
        turn: 0,
        winner: None,
        grid,
        created_at: now,
        started_at: 0,
        finished_at: 0,
    }
}

/// The ledger of a player who has just joined in position `pi`.
pub open spec fn fresh_player(game_id: u64, player: Pubkey, pi: u8) -> PlayerState {
    PlayerState {
        game_id,
        player,
        player_index: pi,
        gold: 100,
        wood: 50,
        units: 3,
        score: 40,
        is_alive: true,
        strategy_mode: StrategyMode::Balanced,
    }
}

/// The board after player `pi` is given their starting corner.
pub open spec fn with_corner(grid: Seq<TileState>, pi: u8) -> Seq<TileState> {
    Seq::new(
        grid.len(),
        |i: int|
            if in_corner(pi, i) {
                TileState::Owned { player: pi, units: 1, has_defense: false, has_mine: false }
            } else {
                grid[i]
            },
    )
}

/// Seats `player` in the next free position, hands them a 2x2 corner of
/// one-unit tiles (position 0 at (0,0), 1 at (6,0), 2 at (0,6), 3 at (6,6))
/// and returns their new ledger.
pub fn join_game(game: &mut Game, game_id: u64, player: Pubkey) -> (r: Result<PlayerState, GameError>)
    requires
        old(game).wf(),
    ensures
        final(game).wf(),
        old(game).status != GameStatus::Lobby ==> r == Err::<PlayerState, GameError>(GameError::GameNotInLobby),
        old(game).status == GameStatus::Lobby && old(game).player_count >= 4
            ==> r == Err::<PlayerState, GameError>(GameError::GameFull),
        r is Err ==> *final(game) == *old(game),
        old(game).status == GameStatus::Lobby && old(game).player_count < 4 ==> {
            let pi = old(game).player_count;
            &&& r == Ok::<PlayerState, GameError>(fresh_player(game_id, player, pi))
            &&& final(game).player_count == pi + 1
            &&& final(game).grid@ == with_corner(old(game).grid@, pi)
            &&& final(game).turn == old(game).turn
            &&& final(game).game_id == old(game).game_id
            &&& final(game).creator == old(game).creator
            &&& final(game).stake_amount == old(game).stake_amount
            &&& final(game).status == old(game).status
            &&& final(game).winner == old(game).winner
            &&& final(game).created_at == old(game).created_at
            &&& final(game).started_at == old(game).started_at
            &&& final(game).finished_at == old(game).finished_at
        },
{
    if game.status != GameStatus::Lobby {
        return Err(GameError::GameNotInLobby);
    }
    if game.player_count >= 4 {
        return Err(GameError::GameFull);
    }
    let pi = game.player_count;
    let (ox, oy): (u8, u8) = if pi == 0 {
        (0, 0)
    } else if pi == 1 {
        (6, 0)
    } else if pi == 2 {
        (0, 6)
    } else {
        (6, 6)
    };
    assert((ox as int, oy as int) == corner_origin(pi));
    let ghost g0 = game.grid@;
    let tile = TileState::Owned { player: pi, units: 1, has_defense: false, has_mine: false };
    game.grid[cell_index(ox, oy)] = tile;
    game.grid[cell_index(ox + 1, oy)] = tile;
    game.grid[cell_index(ox, oy + 1)] = tile;
    game.grid[cell_index(ox + 1, oy + 1)] = tile;
    game.player_count = pi + 1;
    assert(game.grid@ =~= with_corner(g0, pi));
    Ok(PlayerState {
        game_id,
        player,
        player_index: pi,
        gold: 100,
        wood: 50,
        units: 3,
        score: 40,
        is_alive: true,
        strategy_mode: StrategyMode::Balanced,
    })
}

/// The board once the four centre deposits are laid.
pub open spec fn with_deposits(grid: Seq<TileState>) -> Seq<TileState> {
    Seq::new(grid.len(), |i: int| if is_deposit_cell(i) { initial_deposit(i) } else { grid[i] })
}

/// Starts a lobby game of two or more players on the creator's word: lays
/// gold (500) on (3,3) and (4,4), wood (300) on (4,3) and (3,4), and records
/// `now` as the start time.
pub fn start_game(game: &mut Game, caller: &Pubkey, now: i64) -> (r: Result<(), GameError>)
    requires
        old(game).wf(),
    ensures
        final(game).wf(),
        old(game).status != GameStatus::Lobby ==> r == Err::<(), GameError>(GameError::GameNotInLobby),
        old(game).status == GameStatus::Lobby && old(game).player_count < 2
            ==> r == Err::<(), GameError>(GameError::NotEnoughPlayers),
        old(game).status == GameStatus::Lobby && old(game).player_count >= 2
            && old(game).creator.bytes@ != caller.bytes@
            ==> r == Err::<(), GameError>(GameError::NotCreator),
        r is Err ==> *final(game) == *old(game),
        old(game).status == GameStatus::Lobby && old(game).player_count >= 2
            && old(game).creator.bytes@ == caller.bytes@ ==> {
            &&& r is Ok
            &&& final(game).status == GameStatus::Active
            &&& final(game).started_at == now
            &&& final(game).grid@ == with_deposits(old(game).grid@)
            &&& final(game).player_count == old(game).player_count
            &&& final(game).turn == old(game).turn
            &&& final(game).game_id == old(game).game_id
            &&& final(game).creator == old(game).creator
            &&& final(game).stake_amount == old(game).stake_amount
            &&& final(game).winner == old(game).winner
            &&& final(game).created_at == old(game).created_at
            &&& final(game).finished_at == old(game).finished_at
        },
{
    if game.status != GameStatus::Lobby {
        return Err(GameError::GameNotInLobby);
    }
    if game.player_count < 2 {
        return Err(GameError::NotEnoughPlayers);
    }
    if !game.creator.same_as(caller) {
        return Err(GameError::NotCreator);
    }
    let ghost g0 = game.grid@;
    let gold = TileState::Resource { resource_type: ResourceType::Gold, amount: 500 };
    let wood = TileState::Resource { resource_type: ResourceType::Wood, amount: 300 };
    game.grid[cell_index(3, 3)] = gold;
    game.grid[cell_index(4, 4)] = gold;
    game.grid[cell_index(4, 3)] = wood;
    game.grid[cell_index(3, 4)] = wood;
    game.status = GameStatus::Active;
    game.started_at = now;
    assert(game.grid@ =~= with_deposits(g0));
    Ok(())
}

/// Closes an active game, recording `now` as the finish time. Who may end a
/// game is the caller's decision; no winner is declared.
pub fn end_game(game: &mut Game, now: i64) -> (r: Result<(), GameError>)
    requires
        old(game).wf(),
    ensures
        final(game).wf(),
        old(game).status != GameStatus::Active ==> {
            &&& r == Err::<(), GameError>(GameError::GameNotActive)
            &&& *final(game) == *old(game)
        },
        old(game).status == GameStatus::Active ==> {
            &&& r is Ok
            &&& *final(game) == (Game { status: GameStatus::Finished, finished_at: now, ..*old(game) })
        },
{
    if game.status != GameStatus::Active {
        return Err(GameError::GameNotActive);
    }
    game.status = GameStatus::Finished;
    game.finished_at = now;
    Ok(())
}

// ---------------------------------------------------------------- moving

/// The first check that a move of `c` units from `(fx, fy)` to `(tx, ty)`
/// fails, or `None` if it is legal.
pub open spec fn move_error(g: Game, ps: PlayerState, fx: u8, fy: u8, tx: u8, ty: u8, c: u8) -> Option<GameError> {
    if g.status != GameStatus::Active {
        Some(GameError::GameNotActive)
    } else if !ps.is_alive {
        Some(GameError::PlayerEliminated)
    } else if !(in_bounds(fx as int, fy as int) && in_bounds(tx as int, ty as int)) {
        Some(GameError::OutOfBounds)
    } else if !is_adjacent(fx as int, fy as int, tx as int, ty as int) {
        Some(GameError::NotAdjacent)
    } else {
        match g.grid@[cell(fx as int, fy as int)] {
            TileState::Owned { player, units, .. } => if player != ps.player_index {
                Some(GameError::NotYourTile)
            } else if !(c <= units && c > 0) {
                Some(GameError::NotEnoughUnits)
            } else {
                None
            },
            _ => Some(GameError::NotYourTile),
        }
    }
}

/// The source tile once `c` units have left it; it stays owned even when
/// emptied.
pub open spec fn source_after(src: TileState, c: u8) -> TileState {
    match src {
        TileState::Owned { player, units, has_defense, has_mine } =>
            TileState::Owned { player, units: (units - c) as u8, has_defense, has_mine },
        _ => src,
    }
}

/// The destination tile after player `pi` moves `c` units onto it: an empty
/// tile is claimed, an own tile reinforced, an enemy tile fought over, and a
/// deposit captured, leaving a mine.
pub open spec fn move_outcome(dest: TileState, pi: u8, c: u8) -> TileState {
    match dest {
        TileState::Empty => TileState::Owned { player: pi, units: c, has_defense: false, has_mine: false },
        TileState::Owned { player, units, has_defense, has_mine } => if player == pi {
            reinforced(dest, c)
        } else {
            combat_outcome(pi, c, player, units, has_defense, has_mine)
        },
        TileState::Resource { .. } => TileState::Owned { player: pi, units: c, has_defense: false, has_mine: true },
    }
}

/// Score earned by the mover: 10 for new land, 50 for a won fight, 100 for a
/// captured deposit.
pub open spec fn move_score(dest: TileState, pi: u8, c: u8) -> int {
    match dest {
        TileState::Empty => 10,
        TileState::Owned { player, units, has_defense, .. } =>
            if player != pi && attacker_wins(c, units, has_defense) { 50 } else { 0 },
        TileState::Resource { .. } => 100,
    }
}

/// Gold handed to whoever captures the tile.
pub open spec fn gold_found(dest: TileState) -> int {
    match dest {
        TileState::Resource { resource_type: ResourceType::Gold, amount } => amount as int,
        _ => 0,
    }
}

/// Wood handed to whoever captures the tile.
pub open spec fn wood_found(dest: TileState) -> int {
    match dest {
        TileState::Resource { resource_type: ResourceType::Wood, amount } => amount as int,
        _ => 0,
    }
}

/// The counters that a move onto `(tx, ty)` raises stay within their types.
pub open spec fn move_fits(g: Game, ps: PlayerState, tx: u8, ty: u8, c: u8) -> bool {
    &&& g.turn < u64::MAX
    &&& in_bounds(tx as int, ty as int) ==> {
        let dest = g.grid@[cell(tx as int, ty as int)];
        &&& ps.score + move_score(dest, ps.player_index, c) <= u64::MAX
        &&& ps.gold + gold_found(dest) <= u64::MAX
        &&& ps.wood + wood_found(dest) <= u64::MAX
        &&& owned_by(dest, ps.player_index) ==> dest->units + c <= u8::MAX
    }
}

/// Whether the counters that a move onto `(to_x, to_y)` raises would stay
/// within their types (see [`move_fits`]).
pub fn move_within_limits(game: &Game, player_state: &PlayerState, to_x: u8, to_y: u8, unit_count: u8) -> (r: bool)
    requires
        game.wf(),
    ensures
        r == move_fits(*game, *player_state, to_x, to_y, unit_count),
{
    if game.turn == u64::MAX {
        return false;
    }
    if !(to_x < 8 && to_y < 8) {
        return true;
    }
    let pi = player_state.player_index;
    let dest = game.grid[cell_index(to_x, to_y)];
    match dest {
        TileState::Empty => player_state.score <= u64::MAX - 10,
        TileState::Owned { player, units, has_defense, .. } => {
            if player == pi {
                units as u16 + unit_count as u16 <= 255
            } else {
                let (_, won) = resolve_combat(pi, unit_count, player, units, has_defense, false);
                !won || player_state.score <= u64::MAX - 50
            }
        },
        TileState::Resource { resource_type, amount } => {
            player_state.score <= u64::MAX - 100 && match resource_type {
                ResourceType::Gold => player_state.gold <= u64::MAX - amount,
                ResourceType::Wood => player_state.wood <= u64::MAX - amount,
            }
        },
    }
}

/// Moves `unit_count` units of the player from `(from_x, from_y)` to the
/// neighbouring `(to_x, to_y)`, resolving what stands there.
pub fn move_units(
    game: &mut Game,
    player_state: &mut PlayerState,
    _game_id: u64,
    from_x: u8,
    from_y: u8,
    to_x: u8,
    to_y: u8,
    unit_count: u8,
) -> (r: Result<(), GameError>)
    requires
        old(game).wf(),
        move_fits(*old(game), *old(player_state), to_x, to_y, unit_count),
    ensures
        match move_error(*old(game), *old(player_state), from_x, from_y, to_x, to_y, unit_count) {
            Some(e) => {
                &&& r == Err::<(), GameError>(e)
                &&& *final(game) == *old(game)
                &&& *final(player_state) == *old(player_state)
            },
            None => {
                let pi = old(player_state).player_index;
                let src = cell(from_x as int, from_y as int);
                let dst = cell(to_x as int, to_y as int);
                let dest = old(game).grid@[dst];
                &&& r is Ok
                &&& final(game).grid@ == old(game).grid@.update(
                    src,
                    source_after(old(game).grid@[src], unit_count),
                ).update(dst, move_outcome(dest, pi, unit_count))
                &&& final(game).turn == old(game).turn + 1
                &&& final(game).game_id == old(game).game_id
                &&& final(game).creator == old(game).creator
                &&& final(game).stake_amount == old(game).stake_amount
                &&& final(game).player_count == old(game).player_count
                &&& final(game).status == old(game).status
                &&& final(game).winner == old(game).winner
                &&& final(game).created_at == old(game).created_at
                &&& final(game).started_at == old(game).started_at
                &&& final(game).finished_at == old(game).finished_at
                &&& *final(player_state) == (PlayerState {
                    score: (old(player_state).score + move_score(dest, pi, unit_count)) as u64,
                    gold: (old(player_state).gold + gold_found(dest)) as u64,
                    wood: (old(player_state).wood + wood_found(dest)) as u64,
                    ..*old(player_state)
                })
            },
        },
        old(player_state).player_index < old(game).player_count ==> final(game).wf(),
        final(game).turn >= old(game).turn,
        final(player_state).score >= old(player_state).score,
{
    if game.status != GameStatus::Active {
        return Err(GameError::GameNotActive);
    }
    if !player_state.is_alive {
        return Err(GameError::PlayerEliminated);
    }
    if !(from_x < 8 && from_y < 8) {
        return Err(GameError::OutOfBounds);
    }
    if !(to_x < 8 && to_y < 8) {
        return Err(GameError::OutOfBounds);
    }
    if !adjacent(from_x, from_y, to_x, to_y) {
        return Err(GameError::NotAdjacent);
    }
    let pi = player_state.player_index;
    let si = cell_index(from_x, from_y);
    let di = cell_index(to_x, to_y);
    let src = game.grid[si];
    match src {
        TileState::Owned { player, units, has_defense, has_mine } => {
            if player != pi {
                return Err(GameError::NotYourTile);
            }
            if !(unit_count <= units && unit_count > 0) {
                return Err(GameError::NotEnoughUnits);
            }
            game.grid[si] = TileState::Owned { player, units: units - unit_count, has_defense, has_mine };
        },
        _ => {
            return Err(GameError::NotYourTile);
        },
    }
    let dest = game.grid[di];
    match dest {
        TileState::Empty => {
            game.grid[di] = TileState::Owned { player: pi, units: unit_count, has_defense: false, has_mine: false };
            player_state.score = player_state.score + 10;
        },
        TileState::Owned { player: owner, units: def_units, has_defense, has_mine } => {
            if owner == pi {
                game.grid[di] = TileState::Owned { player: owner, units: def_units + unit_count, has_defense, has_mine };
            } else {
                let (tile, won) = resolve_combat(pi, unit_count, owner, def_units, has_defense, has_mine);
                game.grid[di] = tile;
                if won {
                    player_state.score = player_state.score + 50;
                }
            }
        },
        TileState::Resource { resource_type, amount } => {
            match resource_type {
                ResourceType::Gold => {
                    player_state.gold = player_state.gold + amount;
                },
                ResourceType::Wood => {
                    player_state.wood = player_state.wood + amount;
                },
            }
            game.grid[di] = TileState::Owned { player: pi, units: unit_count, has_defense: false, has_mine: true };
            player_state.score = player_state.score + 100;
        },
    }
    game.turn = game.turn + 1;
    Ok(())
}

// ---------------------------------------------------------------- economy

/// The first check that building a defense on `(x, y)` fails, or `None`.
pub open spec fn defense_error(g: Game, ps: PlayerState, x: u8, y: u8) -> Option<GameError> {
    if g.status != GameStatus::Active {
        Some(GameError::GameNotActive)
    } else if !ps.is_alive {
        Some(GameError::PlayerEliminated)
    } else if !in_bounds(x as int, y as int) {
        Some(GameError::OutOfBounds)
    } else if ps.wood < 30 {
        Some(GameError::NotEnoughResources)
    } else {
        match g.grid@[cell(x as int, y as int)] {
            TileState::Owned { player, has_defense, .. } => if player != ps.player_index {
                Some(GameError::NotYourTile)
            } else if has_defense {
                Some(GameError::AlreadyHasDefense)
            } else {
                None
            },
            _ => Some(GameError::NotYourTile),
        }
    }
}

/// An owned tile with its defense built.
pub open spec fn fortified(t: TileState) -> TileState {
    match t {
        TileState::Owned { player, units, has_mine, .. } =>
            TileState::Owned { player, units, has_defense: true, has_mine },
        _ => t,
    }
}

/// An owned tile with `count` more units in its garrison.
pub open spec fn reinforced(t: TileState, count: u8) -> TileState {
    match t {
        TileState::Owned { player, units, has_defense, has_mine } =>
            TileState::Owned { player, units: (units + count) as u8, has_defense, has_mine },
        _ => t,
    }
}

/// Fortifies one of the player's tiles for 30 wood, earning 20 score.
pub fn build_defense(game: &mut Game, player_state: &mut PlayerState, _game_id: u64, x: u8, y: u8) -> (r: Result<(), GameError>)
    requires
        old(game).wf(),
        old(player_state).score + 20 <= u64::MAX,
    ensures
        final(game).wf(),
        final(player_state).score >= old(player_state).score,
        match defense_error(*old(game), *old(player_state), x, y) {
            Some(e) => {
                &&& r == Err::<(), GameError>(e)
                &&& *final(game) == *old(game)
                &&& *final(player_state) == *old(player_state)
            },
            None => {
                let i = cell(x as int, y as int);
                &&& r is Ok
                &&& final(game).grid@ == old(game).grid@.update(
                    i,
                    fortified(old(game).grid@[i]),
                )
                &&& *final(game) == (Game { grid: final(game).grid, ..*old(game) })
                &&& *final(player_state) == (PlayerState {
                    wood: (old(player_state).wood - 30) as u64,
                    score: (old(player_state).score + 20) as u64,
                    ..*old(player_state)
                })
            },
        },
{
    if game.status != GameStatus::Active {
        return Err(GameError::GameNotActive);
    }
    if !player_state.is_alive {
        return Err(GameError::PlayerEliminated);
    }
    if !(x < 8 && y < 8) {
        return Err(GameError::OutOfBounds);
    }
    if player_state.wood < 30 {
        return Err(GameError::NotEnoughResources);
    }
    let i = cell_index(x, y);
    match game.grid[i] {
        TileState::Owned { player, units, has_defense, has_mine } => {
            if player != player_state.player_index {
                return Err(GameError::NotYourTile);
            }
            if has_defense {
                return Err(GameError::AlreadyHasDefense);
            }
            game.grid[i] = TileState::Owned { player, units, has_defense: true, has_mine };
        },
        _ => {
            return Err(GameError::NotYourTile);
        },
    }
    player_state.wood = player_state.wood - 30;
    player_state.score = player_state.score + 20;
    Ok(())
}

/// The first check that training `count` units on `(x, y)` fails, or `None`.
pub open spec fn train_error(g: Game, ps: PlayerState, x: u8, y: u8, count: u8) -> Option<GameError> {
    if g.status != GameStatus::Active {
        Some(GameError::GameNotActive)
    } else if !ps.is_alive {
        Some(GameError::PlayerEliminated)
    } else if !in_bounds(x as int, y as int) {
        Some(GameError::OutOfBounds)
    } else if ps.gold < count * 25 {
        Some(GameError::NotEnoughResources)
    } else if ps.units + count > 20 {
        Some(GameError::MaxUnitsReached)
    } else if !owned_by(g.grid@[cell(x as int, y as int)], ps.player_index) {
        Some(GameError::NotYourTile)
    } else {
        None
    }
}

/// Buys `count` units at 25 gold each and stations them on one of the
/// player's tiles; the player may hold at most 20 units.
pub fn train_units(game: &mut Game, player_state: &mut PlayerState, _game_id: u64, x: u8, y: u8, count: u8) -> (r: Result<(), GameError>)
    requires
        old(game).wf(),
        in_bounds(x as int, y as int) && owned_by(old(game).grid@[cell(x as int, y as int)], old(player_state).player_index)
            ==> old(game).grid@[cell(x as int, y as int)]->units + count <= u8::MAX,
    ensures
        final(game).wf(),
        match train_error(*old(game), *old(player_state), x, y, count) {
            Some(e) => {
                &&& r == Err::<(), GameError>(e)
                &&& *final(game) == *old(game)
                &&& *final(player_state) == *old(player_state)
            },
            None => {
                let i = cell(x as int, y as int);
                let t = old(game).grid@[i];
                &&& r is Ok
                &&& final(game).grid@ == old(game).grid@.update(
                    i,
                    reinforced(t, count),
                )
                &&& *final(game) == (Game { grid: final(game).grid, ..*old(game) })
                &&& *final(player_state) == (PlayerState {
                    gold: (old(player_state).gold - count * 25) as u64,
                    units: (old(player_state).units + count) as u8,
                    ..*old(player_state)
                })
            },
        },
{
    if game.status != GameStatus::Active {
        return Err(GameError::GameNotActive);
    }
    if !player_state.is_alive {
        return Err(GameError::PlayerEliminated);
    }
    if !(x < 8 && y < 8) {
        return Err(GameError::OutOfBounds);
    }
    let cost: u64 = (count as u64) * 25;
    if player_state.gold < cost {
        return Err(GameError::NotEnoughResources);
    }
    if (player_state.units as u16) + (count as u16) > 20 {
        return Err(GameError::MaxUnitsReached);
    }
    let i = cell_index(x, y);
    match game.grid[i] {
        TileState::Owned { player, units, has_defense, has_mine } => {
            if player != player_state.player_index {
                return Err(GameError::NotYourTile);
            }
            game.grid[i] = TileState::Owned { player, units: units + count, has_defense, has_mine };
        },
        _ => {
            return Err(GameError::NotYourTile);
        },
    }
    player_state.gold = player_state.gold - cost;
    player_state.units = player_state.units + count;
    Ok(())
}

/// Gold that the tiles of `s` yield player `pi` on a collection: 5 for each
/// tile the player owns, 10 more for each of those with a mine.
pub open spec fn gold_yield(s: Seq<TileState>, pi: u8) -> nat
    decreases s.len(),
{
    if s.len() == 0 {
        0
    } else {
        let t = s.last();
        let here: nat = match t {
            TileState::Owned { player, has_mine, .. } =>
                if player == pi { if has_mine { 15nat } else { 5nat } } else { 0nat },
            _ => 0nat,
        };
        gold_yield(s.drop_last(), pi) + here
    }
}

/// Wood that the tiles of `s` yield player `pi`: 5 for each tile it owns.
pub open spec fn wood_yield(s: Seq<TileState>, pi: u8) -> nat
    decreases s.len(),
{
    if s.len() == 0 {
        0
    } else {
        wood_yield(s.drop_last(), pi) + if owned_by(s.last(), pi) { 5nat } else { 0nat }
    }
}

proof fn lemma_yield_bounds(s: Seq<TileState>, pi: u8)
    ensures
        gold_yield(s, pi) <= 15 * s.len(),
        wood_yield(s, pi) <= 5 * s.len(),
    decreases s.len(),
{
    if s.len() > 0 {
        lemma_yield_bounds(s.drop_last(), pi);
    }
}

/// What a collection would pay player `pi` on this board: `(gold, wood)`.
pub fn resource_yield(grid: &Vec<TileState>, pi: u8) -> (r: (u64, u64))
    requires
        grid@.len() == 64,
    ensures
        r.0 == gold_yield(grid@, pi),
        r.1 == wood_yield(grid@, pi),
{
    let mut gold_gain: u64 = 0;
    let mut wood_gain: u64 = 0;
    let mut i: usize = 0;
    while i < 64
        invariant
            i <= 64,
            grid@.len() == 64,
            gold_gain == gold_yield(grid@.take(i as int), pi),
            wood_gain == wood_yield(grid@.take(i as int), pi),
        decreases 64 - i,
    {
        proof {
            lemma_yield_bounds(grid@.take(i as int), pi);
            assert(grid@.take(i + 1).drop_last() =~= grid@.take(i as int));
        }
        match grid[i] {
            TileState::Owned { player, has_mine, .. } => {
                if player == pi {
                    gold_gain = gold_gain + 5;
                    wood_gain = wood_gain + 5;
                    if has_mine {
                        gold_gain = gold_gain + 10;
                    }
                }
            },
            _ => {},
        }
        i = i + 1;
    }
    assert(grid@.take(64) =~= grid@);
    (gold_gain, wood_gain)
}

/// Pays the player 5 gold and 5 wood for every tile they own, and 10 gold
/// more for every owned tile with a mine. The board is not changed, and the
/// command may be repeated at will.
pub fn collect_resources(game: &Game, player_state: &mut PlayerState, _game_id: u64) -> (r: Result<(), GameError>)
    requires
        game.wf(),
        old(player_state).gold + gold_yield(game.grid@, old(player_state).player_index) <= u64::MAX,
        old(player_state).wood + wood_yield(game.grid@, old(player_state).player_index) <= u64::MAX,
    ensures
        game.status != GameStatus::Active ==> r == Err::<(), GameError>(GameError::GameNotActive),
        game.status == GameStatus::Active && !old(player_state).is_alive
            ==> r == Err::<(), GameError>(GameError::PlayerEliminated),
        r is Err ==> *final(player_state) == *old(player_state),
        game.status == GameStatus::Active && old(player_state).is_alive ==> {
            let pi = old(player_state).player_index;
            &&& r is Ok
            &&& *final(player_state) == (PlayerState {
                gold: (old(player_state).gold + gold_yield(game.grid@, pi)) as u64,
                wood: (old(player_state).wood + wood_yield(game.grid@, pi)) as u64,
                ..*old(player_state)
            })
        },
{
    if game.status != GameStatus::Active {
        return Err(GameError::GameNotActive);
    }
    if !player_state.is_alive {
        return Err(GameError::PlayerEliminated);
    }
    let (gold_gain, wood_gain) = resource_yield(&game.grid, player_state.player_index);
    player_state.gold = player_state.gold + gold_gain;
    player_state.wood = player_state.wood + wood_gain;
    Ok(())
}

/// Records the player's strategy for an outside agent; nothing else changes.
pub fn set_strategy(player_state: &mut PlayerState, _game_id: u64, mode: StrategyMode)
    ensures
        *final(player_state) == (PlayerState { strategy_mode: mode, ..*old(player_state) }),
{
    player_state.strategy_mode = mode;
}

} // verus!
