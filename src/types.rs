//! The game and player records and the values they are made of.
use vstd::prelude::*;
use crate::grid::is_deposit_cell;

verus! {

/// Lifecycle of a game: a lobby that players join, an active match, and a
/// terminal finished state.
#[derive(Clone, Copy, Debug, PartialEq, Eq, Structural)]
pub enum GameStatus {
    Lobby,
    Active,
    Finished,
}

/// The two kinds of deposit found on the board.
#[derive(Clone, Copy, Debug, PartialEq, Eq, Structural)]
pub enum ResourceType {
    Gold,
    Wood,
}

/// A tag for an outside agent; the engine only stores it.
#[derive(Clone, Copy, Debug, PartialEq, Eq, Structural)]
pub enum StrategyMode {
    Aggressive,
    Defensive,
    Balanced,
    Economic,
}

/// One cell of the board.
#[derive(Clone, Copy, Debug, PartialEq, Eq, Structural)]
pub enum TileState {
    /// Unclaimed land.
    Empty,
    /// Land held by the player with index `player`, with a local garrison.
    Owned { player: u8, units: u8, has_defense: bool, has_mine: bool },
    /// A deposit, consumed entirely by the first player to move onto it.
    Resource { resource_type: ResourceType, amount: u64 },
}

/// Why a command was refused.
#[derive(Clone, Copy, Debug, PartialEq, Eq, Structural)]
pub enum GameError {
    GameNotInLobby,
    GameFull,
    GameNotActive,
    NotEnoughPlayers,
    NotCreator,
    OutOfBounds,
    NotAdjacent,
    NotYourTile,
    NotEnoughUnits,
    NotEnoughResources,
    AlreadyHasDefense,
    MaxUnitsReached,
    PlayerEliminated,
}

impl GameError {
    /// A human-readable description of the error.
    pub fn message(&self) -> (r: &'static str) {
        match self {
            GameError::GameNotInLobby => "Game is not in lobby state",
            GameError::GameFull => "Game is full",
            GameError::GameNotActive => "Game is not active",
            GameError::NotEnoughPlayers => "Not enough players to start",
            GameError::NotCreator => "Only the creator can start the game",
            GameError::OutOfBounds => "Coordinates out of bounds",
            GameError::NotAdjacent => "Tiles must be adjacent",
            GameError::NotYourTile => "This is not your tile",
            GameError::NotEnoughUnits => "Not enough units",
            GameError::NotEnoughResources => "Not enough resources",
            GameError::AlreadyHasDefense => "This tile already has a defense",
            GameError::MaxUnitsReached => "Maximum units reached",
            GameError::PlayerEliminated => "Player has been eliminated",
        }
    }
}

/// The identity of a participant: the 32 bytes of a public key. Callers
/// establish who signed a command; the engine only compares identities.
#[derive(Clone, Copy, Debug)]
pub struct Pubkey {
    pub bytes: [u8; 32],
}

impl Pubkey {
    /// Whether the two identities are the same key.
    pub fn same_as(&self, other: &Pubkey) -> (r: bool)
        ensures
            r == (self.bytes@ == other.bytes@),
    {
        let mut i: usize = 0;
        while i < 32
            invariant
                0 <= i <= 32,
                self.bytes@.len() == 32,
                other.bytes@.len() == 32,
                forall|j: int| 0 <= j < i ==> self.bytes@[j] == other.bytes@[j],
            decreases 32 - i,
        {
            if self.bytes[i] != other.bytes[i] {
                return false;
            }
            i = i + 1;
        }
        assert(self.bytes@ =~= other.bytes@);
        true
    }
}

/// One match.
#[derive(Clone, Debug)]
pub struct Game {
    pub game_id: u64,
    pub creator: Pubkey,
    /// Entry fee; carried, never interpreted.
    pub stake_amount: u64,
    pub player_count: u8,
    pub status: GameStatus,
    /// Count of successful unit moves.
    pub turn: u64,
    /// Never decided by the engine.
    pub winner: Option<Pubkey>,
    /// The board, row by row: the tile at column `x`, row `y` is at `y * 8 + x`.
    pub grid: Vec<TileState>,
    pub created_at: i64,
    pub started_at: i64,
    pub finished_at: i64,
}

impl Game {
    /// The board has its 64 cells, at most four players have joined, every
    /// owned tile belongs to one of them, and deposits lie only on the centre
    /// cells.
    pub open spec fn wf(&self) -> bool {
        &&& self.grid@.len() == 64
        &&& self.player_count <= 4
        &&& forall|i: int|
            0 <= i < 64 ==> match #[trigger] self.grid@[i] {
                TileState::Owned { player, .. } => player < self.player_count,
                TileState::Resource { .. } => is_deposit_cell(i),
                TileState::Empty => true,
            }
    }

    /// Whether the record satisfies [`Game::wf`].
    pub fn is_well_formed(&self) -> (r: bool)
        ensures
            r == self.wf(),
    {
        if self.grid.len() != 64 || self.player_count > 4 {
            return false;
        }
        let mut i: usize = 0;
        while i < 64
            invariant
                i <= 64,
                self.grid@.len() == 64,
                forall|j: int|
                    0 <= j < i ==> match #[trigger] self.grid@[j] {
                        TileState::Owned { player, .. } => player < self.player_count,
                        TileState::Resource { .. } => is_deposit_cell(j),
                        TileState::Empty => true,
                    },
            decreases 64 - i,
        {
            let ok = match self.grid[i] {
                TileState::Owned { player, .. } => player < self.player_count,
                TileState::Resource { .. } => i == 27 || i == 36 || i == 28 || i == 35,
                TileState::Empty => true,
            };
            if !ok {
                return false;
            }
            i = i + 1;
        }
        true
    }
}

/// The ledger of one player in one game.
#[derive(Clone, Copy, Debug)]
pub struct PlayerState {
    pub game_id: u64,
    pub player: Pubkey,
    /// Position in join order, `0..4`.
    pub player_index: u8,
    pub gold: u64,
    pub wood: u64,
    /// Running count of the player's units: three at join, plus every unit
    /// trained. Losses in combat do not lower it.
    pub units: u8,
    pub score: u64,
    pub is_alive: bool,
    pub strategy_mode: StrategyMode,
}

} // verus!
