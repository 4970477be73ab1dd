use ghostnet::engine::{
    build_defense, collect_resources, create_game, end_game, join_game, move_units,
    move_within_limits, resource_yield, set_strategy, start_game, train_units,
};
use ghostnet::grid::{adjacent, tile_at};
use ghostnet::combat::resolve_combat;
use ghostnet::types::{Game, GameError, GameStatus, PlayerState, Pubkey, ResourceType, StrategyMode, TileState};

fn key(b: u8) -> Pubkey {
    Pubkey { bytes: [b; 32] }
}

fn at(g: &Game, x: u8, y: u8) -> TileState {
    tile_at(&g.grid, x, y).unwrap()
}

fn owned(player: u8, units: u8) -> TileState {
    TileState::Owned { player, units, has_defense: false, has_mine: false }
}

/// A started game of two players; returns the game and both ledgers.
fn two_player_game() -> (Game, PlayerState, PlayerState) {
    let mut g = create_game(1, key(1), 0, 1000);
    let p0 = join_game(&mut g, 1, key(1)).unwrap();
    let p1 = join_game(&mut g, 1, key(2)).unwrap();
    start_game(&mut g, &key(1), 2000).unwrap();
    (g, p0, p1)
}

#[test]
fn create_game_starts_in_lobby() {
    let g = create_game(1, key(1), 0, 1000);
    assert_eq!(g.status, GameStatus::Lobby);
    assert_eq!(g.turn, 0);
    assert_eq!(g.player_count, 0);
    assert_eq!(g.grid.len(), 64);
    assert!(g.grid.iter().all(|t| *t == TileState::Empty));
    assert_eq!(g.created_at, 1000);
    assert!(g.winner.is_none());
}

#[test]
fn two_players_get_their_corners() {
    let mut g = create_game(1, key(1), 0, 1000);
    let p0 = join_game(&mut g, 1, key(1)).unwrap();
    let p1 = join_game(&mut g, 1, key(2)).unwrap();
    assert_eq!(g.player_count, 2);
    for (x, y) in [(0, 0), (1, 0), (0, 1), (1, 1)] {
        assert_eq!(at(&g, x, y), owned(0, 1));
    }
    for (x, y) in [(6, 0), (7, 0), (6, 1), (7, 1)] {
        assert_eq!(at(&g, x, y), owned(1, 1));
    }
    assert_eq!(at(&g, 2, 0), TileState::Empty);
    assert_eq!(p0.score, 40);
    assert_eq!(p1.score, 40);
    assert_eq!(p0.player_index, 0);
    assert_eq!(p1.player_index, 1);
    assert_eq!((p0.gold, p0.wood, p0.units), (100, 50, 3));
    assert!(p0.is_alive);
    assert_eq!(p0.strategy_mode, StrategyMode::Balanced);
}

#[test]
fn third_and_fourth_corners() {
    let mut g = create_game(1, key(1), 0, 0);
    for b in 1..=4u8 {
        join_game(&mut g, 1, key(b)).unwrap();
    }
    assert_eq!(at(&g, 0, 6), owned(2, 1));
    assert_eq!(at(&g, 1, 7), owned(2, 1));
    assert_eq!(at(&g, 6, 6), owned(3, 1));
    assert_eq!(at(&g, 7, 7), owned(3, 1));
    assert_eq!(join_game(&mut g, 1, key(5)).unwrap_err(), GameError::GameFull);
    assert_eq!(g.player_count, 4);
}

#[test]
fn start_lays_deposits() {
    let (g, _, _) = two_player_game();
    assert_eq!(g.status, GameStatus::Active);
    assert_eq!(g.started_at, 2000);
    let gold = TileState::Resource { resource_type: ResourceType::Gold, amount: 500 };
    let wood = TileState::Resource { resource_type: ResourceType::Wood, amount: 300 };
    assert_eq!(at(&g, 3, 3), gold);
    assert_eq!(at(&g, 4, 4), gold);
    assert_eq!(at(&g, 3, 4), wood);
    assert_eq!(at(&g, 4, 3), wood);
}

#[test]
fn start_errors() {
    let mut g = create_game(1, key(1), 0, 0);
    join_game(&mut g, 1, key(1)).unwrap();
    assert_eq!(start_game(&mut g, &key(1), 5), Err(GameError::NotEnoughPlayers));
    join_game(&mut g, 1, key(2)).unwrap();
    assert_eq!(start_game(&mut g, &key(2), 5), Err(GameError::NotCreator));
    assert_eq!(g.status, GameStatus::Lobby);
    assert_eq!(start_game(&mut g, &key(1), 5), Ok(()));
    assert_eq!(start_game(&mut g, &key(1), 6), Err(GameError::GameNotInLobby));
    assert_eq!(join_game(&mut g, 1, key(3)).unwrap_err(), GameError::GameNotInLobby);
}

#[test]
fn move_onto_empty_claims_it() {
    let (mut g, mut p0, _) = two_player_game();
    assert_eq!(move_units(&mut g, &mut p0, 1, 1, 1, 2, 1, 1), Ok(()));
    assert_eq!(at(&g, 2, 1), owned(0, 1));
    assert_eq!(at(&g, 1, 1), owned(0, 0));
    assert_eq!(p0.score, 50);
    assert_eq!(g.turn, 1);
}

#[test]
fn attack_takes_weak_tile() {
    let (mut g, mut p0, _) = two_player_game();
    // Walk three units up to (5,0), next to player 1's (6,0).
    train_units(&mut g, &mut p0, 1, 1, 0, 3).unwrap();
    assert_eq!(at(&g, 1, 0), owned(0, 4));
    move_units(&mut g, &mut p0, 1, 1, 0, 2, 0, 4).unwrap();
    move_units(&mut g, &mut p0, 1, 2, 0, 3, 0, 4).unwrap();
    move_units(&mut g, &mut p0, 1, 3, 0, 4, 0, 4).unwrap();
    move_units(&mut g, &mut p0, 1, 4, 0, 5, 0, 4).unwrap();
    let before = p0.score;
    assert_eq!(move_units(&mut g, &mut p0, 1, 5, 0, 6, 0, 3), Ok(()));
    assert_eq!(at(&g, 6, 0), owned(0, 2));
    assert_eq!(at(&g, 5, 0), owned(0, 1));
    assert_eq!(p0.score, before + 50);
    assert_eq!(g.turn, 5);
}

#[test]
fn capture_gold_deposit() {
    let (mut g, mut p0, _) = two_player_game();
    train_units(&mut g, &mut p0, 1, 1, 1, 2).unwrap();
    move_units(&mut g, &mut p0, 1, 1, 1, 2, 2, 2).unwrap();
    let (gold, score) = (p0.gold, p0.score);
    assert_eq!(move_units(&mut g, &mut p0, 1, 2, 2, 3, 3, 2), Ok(()));
    assert_eq!(p0.gold, gold + 500);
    assert_eq!(p0.score, score + 100);
    assert_eq!(at(&g, 3, 3), TileState::Owned { player: 0, units: 2, has_defense: false, has_mine: true });
}

#[test]
fn capture_wood_deposit() {
    let (mut g, mut p0, _) = two_player_game();
    train_units(&mut g, &mut p0, 1, 1, 1, 2).unwrap();
    move_units(&mut g, &mut p0, 1, 1, 1, 2, 2, 3).unwrap();
    move_units(&mut g, &mut p0, 1, 2, 2, 3, 2, 1).unwrap();
    let (gold, wood) = (p0.gold, p0.wood);
    move_units(&mut g, &mut p0, 1, 3, 2, 4, 3, 1).unwrap();
    assert_eq!((p0.gold, p0.wood), (gold, wood + 300));
}

#[test]
fn collect_counts_tiles_and_mines() {
    let (mut g, mut p0, _) = two_player_game();
    train_units(&mut g, &mut p0, 1, 1, 1, 2).unwrap();
    move_units(&mut g, &mut p0, 1, 1, 1, 2, 2, 2).unwrap();
    move_units(&mut g, &mut p0, 1, 2, 2, 3, 3, 2).unwrap();
    // The emptied stepping stone (2,2) is still owned; clear it so that player 0
    // holds exactly five tiles: the four corner tiles and the gold mine at (3,3).
    assert_eq!(at(&g, 2, 2), owned(0, 0));
    let mut g5 = g.clone();
    g5.grid[2 * 8 + 2] = TileState::Empty;
    let (gold, wood) = (p0.gold, p0.wood);
    assert_eq!(collect_resources(&g5, &mut p0, 1), Ok(()));
    assert_eq!(p0.gold, gold + 35);
    assert_eq!(p0.wood, wood + 25);
    // Unmetered: a second call yields the same again.
    collect_resources(&g5, &mut p0, 1).unwrap();
    assert_eq!(p0.gold, gold + 70);
}

#[test]
fn reinforce_keeps_score() {
    let (mut g, mut p0, _) = two_player_game();
    let score = p0.score;
    move_units(&mut g, &mut p0, 1, 0, 0, 1, 0, 1).unwrap();
    assert_eq!(at(&g, 1, 0), owned(0, 2));
    assert_eq!(at(&g, 0, 0), owned(0, 0));
    assert_eq!(p0.score, score);
    assert_eq!(g.turn, 1);
}

#[test]
fn move_errors_leave_state_alone() {
    let (mut g, mut p0, mut p1) = two_player_game();
    let before = g.clone();
    assert_eq!(move_units(&mut g, &mut p0, 1, 8, 0, 7, 0, 1), Err(GameError::OutOfBounds));
    assert_eq!(move_units(&mut g, &mut p0, 1, 0, 0, 0, 8, 1), Err(GameError::OutOfBounds));
    assert_eq!(move_units(&mut g, &mut p0, 1, 0, 0, 0, 0, 1), Err(GameError::NotAdjacent));
    assert_eq!(move_units(&mut g, &mut p0, 1, 0, 0, 2, 0, 1), Err(GameError::NotAdjacent));
    assert_eq!(move_units(&mut g, &mut p0, 1, 6, 0, 5, 0, 1), Err(GameError::NotYourTile));
    assert_eq!(move_units(&mut g, &mut p0, 1, 2, 2, 3, 3, 1), Err(GameError::NotYourTile));
    assert_eq!(move_units(&mut g, &mut p0, 1, 1, 1, 2, 2, 2), Err(GameError::NotEnoughUnits));
    assert_eq!(move_units(&mut g, &mut p0, 1, 1, 1, 2, 2, 0), Err(GameError::NotEnoughUnits));
    p1.is_alive = false;
    assert_eq!(move_units(&mut g, &mut p1, 1, 6, 1, 5, 2, 1), Err(GameError::PlayerEliminated));
    assert_eq!(g.grid, before.grid);
    assert_eq!(g.turn, 0);
    assert_eq!(p0.score, 40);
    end_game(&mut g, 9).unwrap();
    assert_eq!(move_units(&mut g, &mut p0, 1, 1, 1, 2, 2, 1), Err(GameError::GameNotActive));
}

#[test]
fn defense_costs_wood_and_blocks_a_tie() {
    let (mut g, mut p0, mut p1) = two_player_game();
    assert_eq!(build_defense(&mut g, &mut p1, 1, 6, 1), Ok(()));
    assert_eq!(p1.wood, 20);
    assert_eq!(p1.score, 60);
    assert_eq!(at(&g, 6, 1), TileState::Owned { player: 1, units: 1, has_defense: true, has_mine: false });
    assert_eq!(build_defense(&mut g, &mut p1, 1, 6, 0), Err(GameError::NotEnoughResources));
    p1.wood = 100;
    assert_eq!(build_defense(&mut g, &mut p1, 1, 6, 1), Err(GameError::AlreadyHasDefense));
    assert_eq!(build_defense(&mut g, &mut p0, 1, 6, 1), Err(GameError::NotYourTile));
    assert_eq!(build_defense(&mut g, &mut p0, 1, 3, 3), Err(GameError::NotYourTile));
    assert_eq!(build_defense(&mut g, &mut p0, 1, 0, 9), Err(GameError::OutOfBounds));
    // Three attackers against one unit behind a defense: a tie, the defender holds.
    let (tile, won) = resolve_combat(0, 3, 1, 1, true, false);
    assert!(!won);
    assert_eq!(tile, TileState::Owned { player: 1, units: 1, has_defense: true, has_mine: false });
}

#[test]
fn combat_formula() {
    assert_eq!(resolve_combat(0, 3, 1, 1, false, false), (owned(0, 2), true));
    assert_eq!(resolve_combat(0, 4, 1, 1, true, true),
        (TileState::Owned { player: 0, units: 1, has_defense: false, has_mine: true }, true));
    assert_eq!(resolve_combat(0, 1, 1, 5, false, true),
        (TileState::Owned { player: 1, units: 4, has_defense: false, has_mine: true }, false));
    assert_eq!(resolve_combat(2, 2, 3, 2, false, false), (owned(3, 1), false));
}

#[test]
fn training_limits() {
    let (mut g, mut p0, _) = two_player_game();
    assert_eq!(train_units(&mut g, &mut p0, 1, 0, 0, 5), Err(GameError::NotEnoughResources));
    assert_eq!(train_units(&mut g, &mut p0, 1, 0, 0, 4), Ok(()));
    assert_eq!(p0.gold, 0);
    assert_eq!(p0.units, 7);
    assert_eq!(at(&g, 0, 0), owned(0, 5));
    p0.gold = 1000;
    assert_eq!(train_units(&mut g, &mut p0, 1, 0, 0, 14), Err(GameError::MaxUnitsReached));
    assert_eq!(train_units(&mut g, &mut p0, 1, 6, 0, 1), Err(GameError::NotYourTile));
    assert_eq!(train_units(&mut g, &mut p0, 1, 0, 8, 1), Err(GameError::OutOfBounds));
    assert_eq!(train_units(&mut g, &mut p0, 1, 0, 0, 13), Ok(()));
    assert_eq!(p0.units, 20);
    assert_eq!(p0.gold, 1000 - 13 * 25);
}

#[test]
fn lifecycle_end() {
    let mut g = create_game(7, key(1), 10, 0);
    let mut p0 = join_game(&mut g, 7, key(1)).unwrap();
    assert_eq!(end_game(&mut g, 3), Err(GameError::GameNotActive));
    assert_eq!(collect_resources(&g, &mut p0, 7), Err(GameError::GameNotActive));
    join_game(&mut g, 7, key(2)).unwrap();
    start_game(&mut g, &key(1), 4).unwrap();
    assert_eq!(end_game(&mut g, 9), Ok(()));
    assert_eq!(g.status, GameStatus::Finished);
    assert_eq!(g.finished_at, 9);
    assert_eq!(end_game(&mut g, 10), Err(GameError::GameNotActive));
    p0.is_alive = false;
    assert_eq!(build_defense(&mut g, &mut p0, 7, 0, 0), Err(GameError::GameNotActive));
}

#[test]
fn strategy_is_stored() {
    let (_, mut p0, _) = two_player_game();
    set_strategy(&mut p0, 1, StrategyMode::Aggressive);
    assert_eq!(p0.strategy_mode, StrategyMode::Aggressive);
    assert_eq!(p0.score, 40);
}

#[test]
fn adjacency_and_bounds() {
    assert!(adjacent(3, 3, 4, 4));
    assert!(adjacent(3, 3, 2, 3));
    assert!(!adjacent(3, 3, 3, 3));
    assert!(!adjacent(3, 3, 5, 3));
    let g = create_game(1, key(1), 0, 0);
    assert_eq!(tile_at(&g.grid, 8, 0), Err(GameError::OutOfBounds));
    assert!(key(3).same_as(&key(3)));
    assert!(!key(3).same_as(&key(4)));
    assert_eq!(GameError::GameFull.message(), "Game is full");
}

#[test]
fn well_formedness_check() {
    let (g, _, _) = two_player_game();
    assert!(g.is_well_formed());
    let mut bad = g.clone();
    bad.grid[20] = owned(2, 1);
    assert!(!bad.is_well_formed());
    let mut bad = g.clone();
    bad.grid[0] = TileState::Resource { resource_type: ResourceType::Gold, amount: 1 };
    assert!(!bad.is_well_formed());
    let mut bad = g.clone();
    bad.grid.pop();
    assert!(!bad.is_well_formed());
}

#[test]
fn move_limits() {
    let (mut g, mut p0, _) = two_player_game();
    assert!(move_within_limits(&g, &p0, 2, 1, 1));
    g.grid[1] = owned(0, 255);
    assert!(!move_within_limits(&g, &p0, 1, 0, 1));
    assert!(move_within_limits(&g, &p0, 1, 0, 0));
    p0.score = u64::MAX - 5;
    assert!(!move_within_limits(&g, &p0, 2, 1, 1));
    assert!(move_within_limits(&g, &p0, 0, 1, 1));
    p0.score = 0;
    p0.gold = u64::MAX - 499;
    assert!(!move_within_limits(&g, &p0, 3, 3, 1));
    assert!(move_within_limits(&g, &p0, 4, 3, 1));
    g.turn = u64::MAX;
    assert!(!move_within_limits(&g, &p0, 2, 1, 1));
}

#[test]
fn yield_per_player() {
    let (mut g, _, _) = two_player_game();
    assert_eq!(resource_yield(&g.grid, 0), (20, 20));
    assert_eq!(resource_yield(&g.grid, 1), (20, 20));
    assert_eq!(resource_yield(&g.grid, 2), (0, 0));
    g.grid[0] = TileState::Owned { player: 0, units: 1, has_defense: false, has_mine: true };
    assert_eq!(resource_yield(&g.grid, 0), (30, 20));
}
