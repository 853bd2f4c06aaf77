use vstd::prelude::*;

use crate::address::Address;

verus! {

/// Where a match stands in its lifecycle. The variants are listed in the
/// only order in which a match may pass through them.
#[derive(Clone, Copy, Debug, PartialEq, Eq, Structural)]
pub enum GameState {
    Finding,
    Matched,
    ReadyForPrediction,
    Started,
    Ended,
}

impl GameState {
    /// Position of the state in the lifecycle, from 0 (`Finding`) to 4 (`Ended`).
    pub open spec fn rank(self) -> nat {
        match self {
            GameState::Finding => 0,
            GameState::Matched => 1,
            GameState::ReadyForPrediction => 2,
            GameState::Started => 3,
            GameState::Ended => 4,
        }
    }

    /// The state's position as a byte, the form in which a store keeps it.
    pub fn code(&self) -> (r: u8)
        ensures
            r as nat == self.rank(),
    {
        match self {
            GameState::Finding => 0,
            GameState::Matched => 1,
            GameState::ReadyForPrediction => 2,
            GameState::Started => 3,
            GameState::Ended => 4,
        }
    }

    /// The state at position `code`, if there is one.
    pub fn from_code(code: u8) -> (r: Option<GameState>)
        ensures
            code <= 4 <==> r is Some,
            r matches Some(s) ==> s.rank() == code as nat,
    {
        match code {
            0 => Some(GameState::Finding),
            1 => Some(GameState::Matched),
            2 => Some(GameState::ReadyForPrediction),
            3 => Some(GameState::Started),
            4 => Some(GameState::Ended),
            _ => None,
        }
    }

    /// Whether the state equals `o`.
    pub fn is(&self, o: GameState) -> (r: bool)
        ensures
            r == (*self == o),
    {
        self.code() == o.code()
    }
}

/// One match: its two participants and its state. `player2` is the zero
/// address until someone joins.
#[derive(Clone, Copy, Debug, PartialEq, Eq)]
pub struct MatchRecord {
    pub player1: Address,
    pub player2: Address,
    pub state: GameState,
}

impl MatchRecord {
    /// A record is consistent when no second player is set before the match
    /// has left `Finding`.
    pub open spec fn wf(self) -> bool {
        self.state == GameState::Finding ==> self.player2.is_zero()
    }
}

/// What a step reports to the ledger's log when it succeeds.
#[derive(Clone, Copy, Debug, PartialEq, Eq)]
pub enum MatchEvent {
    Created { match_id: u64, player1: Address },
    Joined { match_id: u64, player2: Address },
    Started { match_id: u64, player1: Address, player2: Address },
    Ended { match_id: u64, winner: Address },
}

/// A call into a collaborator registry that a step needs before it may take
/// effect. `registry` is the address of the registry to call.
#[derive(Clone, Copy, Debug, PartialEq, Eq)]
pub enum CollaboratorCall {
    /// Open a prediction pool for the match.
    CreatePredictionPool { registry: Address, match_id: u64 },
    /// Stop taking predictions on the match.
    StopAllowPrediction { registry: Address, match_id: u64 },
    /// Record a win for `winner` and a loss for `loser`.
    AddMatchResults { registry: Address, winner: Address, loser: Address },
    /// Settle the prediction pool with the winner's discriminant.
    SubmitMatchResults { registry: Address, match_id: u64, winner: u64 },
}

} // verus!
