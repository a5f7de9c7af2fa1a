use vstd::prelude::*;

verus! {

/// One of the two players.
#[derive(Clone, Copy, Debug, PartialEq, Eq, Hash, Structural)]
pub enum Player {
    Player1,
    Player2,
}

/// The opposing player.
pub open spec fn opponent_of(p: Player) -> Player {
    match p {
        Player::Player1 => Player::Player2,
        Player::Player2 => Player::Player1,
    }
}

/// The zero-based slot of a player in per-player arrays.
pub open spec fn index_of_player(p: Player) -> int {
    match p {
        Player::Player1 => 0,
        Player::Player2 => 1,
    }
}

impl Player {
    /// Returns the opposing player.
    pub fn opponent(self) -> (r: Player)
        ensures
            r == opponent_of(self),
            r != self,
    {
        match self {
            Player::Player1 => Player::Player2,
            Player::Player2 => Player::Player1,
        }
    }

    /// Returns the zero-based index used for array lookup (Player1 = 0, Player2 = 1).
    pub fn index(self) -> (r: usize)
        ensures
            r == index_of_player(self),
            r < 2,
    {
        match self {
            Player::Player1 => 0,
            Player::Player2 => 1,
        }
    }
}

/// Taking the opponent twice gives back the player, and the two players have
/// different array slots.
pub proof fn lemma_opponent_involution(p: Player)
    ensures
        opponent_of(opponent_of(p)) == p,
        opponent_of(p) != p,
        index_of_player(opponent_of(p)) == 1 - index_of_player(p),
{
}

/// A single game piece, identified by its owner and a 0-based index (0–6).
#[derive(Clone, Copy, Debug, PartialEq, Eq, Hash, Structural)]
pub struct Piece {
    /// Which player owns this piece.
    pub player: Player,
    /// Zero-based index distinguishing this piece from the player's other pieces.
    pub index: u8,
}

impl Piece {
    /// Creates a piece owned by `player` with the given zero-based `index`.
    pub fn new(player: Player, index: u8) -> (r: Self)
        ensures
            r.player == player,
            r.index == index,
    {
        Self { player, index }
    }
}

} // verus!
