//! The rules for one match, stated over the configuration and the record
//! alone, so that any store that can hand over a record can use them.

use vstd::prelude::*;

use crate::address::Address;
use crate::config::Config;
use crate::error::MatchError;
use crate::record::{CollaboratorCall, GameState, MatchEvent, MatchRecord};

verus! {

/// What a staged step will do once its collaborator calls have succeeded.
pub struct PendingView {
    pub match_id: u64,
    /// The state the match must still be in.
    pub from: GameState,
    /// The state the match moves to.
    pub to: GameState,
    /// The calls that must succeed, in order.
    pub calls: Seq<CollaboratorCall>,
    /// What the step reports once it has taken effect.
    pub event: Option<MatchEvent>,
}

/// A step of the operator that waits on collaborator registries. It only
/// ever moves a match forward.
pub struct PendingTransition {
    match_id: u64,
    from: GameState,
    to: GameState,
    calls: Vec<CollaboratorCall>,
    event: Option<MatchEvent>,
}

impl View for PendingTransition {
    type V = PendingView;

    closed spec fn view(&self) -> PendingView {
        PendingView {
            match_id: self.match_id,
            from: self.from,
            to: self.to,
            calls: self.calls@,
            event: self.event,
        }
    }
}

impl PendingTransition {
    #[verifier::type_invariant]
    spec fn advances(self) -> bool {
        self.from.rank() < self.to.rank()
    }

    pub fn match_id(&self) -> (r: u64)
        ensures
            r == self@.match_id,
    {
        self.match_id
    }

    /// The state the match must be in for the step to apply.
    pub fn source(&self) -> (r: GameState)
        ensures
            r == self@.from,
    {
        self.from
    }

    /// The state the step moves the match to; it lies past the source.
    pub fn target(&self) -> (r: GameState)
        ensures
            r == self@.to,
            self@.from.rank() < r.rank(),
    {
        proof {
            use_type_invariant(self);
        }
        self.to
    }

    pub fn calls(&self) -> (r: &Vec<CollaboratorCall>)
        ensures
            r@ == self@.calls,
    {
        &self.calls
    }

    pub fn event(&self) -> (r: Option<MatchEvent>)
        ensures
            r == self@.event,
    {
        self.event
    }
}

/// The staged step of a result, seen through the view.
pub open spec fn pending_view(r: Result<PendingTransition, MatchError>) -> Result<
    PendingView,
    MatchError,
> {
    match r {
        Ok(t) => Ok(t@),
        Err(e) => Err(e),
    }
}

/// The match that `create` opens for `caller` under `match_id`.
pub open spec fn create_spec(cfg: Config, caller: Address, match_id: u64) -> Result<
    (MatchRecord, MatchEvent),
    MatchError,
> {
    if !cfg.initialized {
        Err(MatchError::NotInitialized)
    } else {
        Ok(
            (
                MatchRecord {
                    player1: caller,
                    player2: Address::zero_spec(),
                    state: GameState::Finding,
                },
                MatchEvent::Created { match_id, player1: caller },
            ),
        )
    }
}

/// What `join` makes of the record `rec` (absent: never created).
pub open spec fn join_spec(
    cfg: Config,
    caller: Address,
    match_id: u64,
    rec: Option<MatchRecord>,
) -> Result<(MatchRecord, MatchEvent), MatchError> {
    if !cfg.initialized {
        Err(MatchError::NotInitialized)
    } else if rec is None {
        Err(MatchError::MatchNotFound)
    } else if rec.unwrap().state != GameState::Finding {
        Err(MatchError::InvalidStateTransition)
    } else {
        Ok(
            (
                MatchRecord { player2: caller, state: GameState::Matched, ..rec.unwrap() },
                MatchEvent::Joined { match_id, player2: caller },
            ),
        )
    }
}

/// The error with which a step reserved to the operator is refused before
/// the match's state is looked at, if any.
pub open spec fn operator_refusal(cfg: Config, caller: Address, rec: Option<MatchRecord>) -> Option<
    MatchError,
> {
    if !cfg.initialized {
        Some(MatchError::NotInitialized)
    } else if caller != cfg.matchmaking_server_wallet_address {
        Some(MatchError::Unauthorized)
    } else if rec is None {
        Some(MatchError::MatchNotFound)
    } else {
        None
    }
}

/// The states from which `end` may close a match: both players are known
/// and the match has not ended yet.
pub open spec fn may_end(s: GameState) -> bool {
    s == GameState::Matched || s == GameState::ReadyForPrediction || s == GameState::Started
}

/// The winner named by the discriminant: `1` is `player1`, anything else `player2`.
pub open spec fn winner_of(m: MatchRecord, winner: u64) -> Address {
    if winner == 1 {
        m.player1
    } else {
        m.player2
    }
}

/// The participant that the discriminant does not name.
pub open spec fn loser_of(m: MatchRecord, winner: u64) -> Address {
    if winner == 1 {
        m.player2
    } else {
        m.player1
    }
}

/// The step that `open_market` stages.
pub open spec fn open_market_spec(
    cfg: Config,
    caller: Address,
    match_id: u64,
    rec: Option<MatchRecord>,
) -> Result<PendingView, MatchError> {
    match operator_refusal(cfg, caller, rec) {
        Some(e) => Err(e),
        None => if rec.unwrap().state != GameState::Matched {
            Err(MatchError::InvalidStateTransition)
        } else {
            Ok(
                PendingView {
                    match_id,
                    from: GameState::Matched,
                    to: GameState::ReadyForPrediction,
                    calls: seq![
                        CollaboratorCall::CreatePredictionPool {
                            registry: cfg.prediction_smart_contract_address,
                            match_id,
                        },
                    ],
                    event: None,
                },
            )
        },
    }
}

/// The step that `start` stages.
pub open spec fn start_spec(
    cfg: Config,
    caller: Address,
    match_id: u64,
    rec: Option<MatchRecord>,
) -> Result<PendingView, MatchError> {
    match operator_refusal(cfg, caller, rec) {
        Some(e) => Err(e),
        None => if rec.unwrap().state != GameState::ReadyForPrediction {
            Err(MatchError::InvalidStateTransition)
        } else {
            Ok(
                PendingView {
                    match_id,
                    from: GameState::ReadyForPrediction,
                    to: GameState::Started,
                    calls: seq![
                        CollaboratorCall::StopAllowPrediction {
                            registry: cfg.prediction_smart_contract_address,
                            match_id,
                        },
                    ],
                    event: Some(
                        MatchEvent::Started {
                            match_id,
                            player1: rec.unwrap().player1,
                            player2: rec.unwrap().player2,
                        },
                    ),
                },
            )
        },
    }
}

/// The step that `end` stages.
pub open spec fn end_spec(
    cfg: Config,
    caller: Address,
    match_id: u64,
    rec: Option<MatchRecord>,
    winner: u64,
) -> Result<PendingView, MatchError> {
    match operator_refusal(cfg, caller, rec) {
        Some(e) => Err(e),
        None => if !may_end(rec.unwrap().state) {
            Err(MatchError::InvalidStateTransition)
        } else {
            let m = rec.unwrap();
            Ok(
                PendingView {
                    match_id,
                    from: m.state,
                    to: GameState::Ended,
                    calls: seq![
                        CollaboratorCall::AddMatchResults {
                            registry: cfg.player_info_smart_contract_address,
                            winner: winner_of(m, winner),
                            loser: loser_of(m, winner),
                        },
                        CollaboratorCall::SubmitMatchResults {
                            registry: cfg.prediction_smart_contract_address,
                            match_id,
                            winner,
                        },
                    ],
                    event: Some(MatchEvent::Ended { match_id, winner: winner_of(m, winner) }),
                },
            )
        },
    }
}

/// Opens a match with `caller` as its first player.
pub fn create(cfg: &Config, caller: Address, match_id: u64) -> (r: Result<
    (MatchRecord, MatchEvent),
    MatchError,
>)
    ensures
        r == create_spec(*cfg, caller, match_id),
{
    cfg.check_initialized()?;
    let rec = MatchRecord { player1: caller, player2: Address::zero(), state: GameState::Finding };
    Ok((rec, MatchEvent::Created { match_id, player1: caller }))
}

/// Makes `caller` the second player of a match that is still finding one.
pub fn join(cfg: &Config, caller: Address, match_id: u64, rec: Option<MatchRecord>) -> (r: Result<
    (MatchRecord, MatchEvent),
    MatchError,
>)
    ensures
        r == join_spec(*cfg, caller, match_id, rec),
{
    cfg.check_initialized()?;
    let m = match rec {
        Some(m) => m,
        None => return Err(MatchError::MatchNotFound),
    };
    if !m.state.is(GameState::Finding) {
        return Err(MatchError::InvalidStateTransition);
    }
    let joined = MatchRecord { player2: caller, state: GameState::Matched, ..m };
    Ok((joined, MatchEvent::Joined { match_id, player2: caller }))
}

/// The checks that every step of the operator makes first; hands back the record.
fn check_operator(cfg: &Config, caller: Address, rec: Option<MatchRecord>) -> (r: Result<
    MatchRecord,
    MatchError,
>)
    ensures
        match operator_refusal(*cfg, caller, rec) {
            Some(e) => r == Err::<MatchRecord, MatchError>(e),
            None => r == Ok::<MatchRecord, MatchError>(rec.unwrap()),
        },
{
    cfg.check_initialized()?;
    if caller != cfg.matchmaking_server_wallet_address {
        return Err(MatchError::Unauthorized);
    }
    match rec {
        Some(m) => Ok(m),
        None => Err(MatchError::MatchNotFound),
    }
}

/// Stages the opening of the prediction market on a matched match.
pub fn open_market(cfg: &Config, caller: Address, match_id: u64, rec: Option<MatchRecord>) -> (r:
    Result<PendingTransition, MatchError>)
    ensures
        pending_view(r) == open_market_spec(*cfg, caller, match_id, rec),
{
    let m = check_operator(cfg, caller, rec)?;
    if !m.state.is(GameState::Matched) {
        return Err(MatchError::InvalidStateTransition);
    }
    let calls = vec![
        CollaboratorCall::CreatePredictionPool {
            registry: cfg.prediction_smart_contract_address,
            match_id,
        },
    ];
    let t = PendingTransition {
        match_id,
        from: GameState::Matched,
        to: GameState::ReadyForPrediction,
        calls,
        event: None,
    };
    assert(t@.calls =~= open_market_spec(*cfg, caller, match_id, rec)->Ok_0.calls);
    Ok(t)
}

/// Stages the start of a match whose prediction market is open.
pub fn start(cfg: &Config, caller: Address, match_id: u64, rec: Option<MatchRecord>) -> (r: Result<
    PendingTransition,
    MatchError,
>)
    ensures
        pending_view(r) == start_spec(*cfg, caller, match_id, rec),
{
    let m = check_operator(cfg, caller, rec)?;
    if !m.state.is(GameState::ReadyForPrediction) {
        return Err(MatchError::InvalidStateTransition);
    }
    let calls = vec![
        CollaboratorCall::StopAllowPrediction {
            registry: cfg.prediction_smart_contract_address,
            match_id,
        },
    ];
    let t = PendingTransition {
        match_id,
        from: GameState::ReadyForPrediction,
        to: GameState::Started,
        calls,
        event: Some(MatchEvent::Started { match_id, player1: m.player1, player2: m.player2 }),
    };
    assert(t@.calls =~= start_spec(*cfg, caller, match_id, rec)->Ok_0.calls);
    Ok(t)
}

/// The call that records the outcome in the player-statistics registry.
fn update_player_info(cfg: &Config, m: &MatchRecord, winner: u64) -> (r: CollaboratorCall)
    ensures
        r == (CollaboratorCall::AddMatchResults {
            registry: cfg.player_info_smart_contract_address,
            winner: winner_of(*m, winner),
            loser: loser_of(*m, winner),
        }),
{
    if winner == 1 {
        CollaboratorCall::AddMatchResults {
            registry: cfg.player_info_smart_contract_address,
            winner: m.player1,
            loser: m.player2,
        }
    } else {
        CollaboratorCall::AddMatchResults {
            registry: cfg.player_info_smart_contract_address,
            winner: m.player2,
            loser: m.player1,
        }
    }
}

/// Stages the end of a match, `winner` naming the victor (`1`: `player1`,
/// anything else: `player2`). A match may end from any state in which both
/// players are known and it has not ended yet (see `may_end`): the operator
/// can close it early, but never twice.
pub fn end(cfg: &Config, caller: Address, match_id: u64, rec: Option<MatchRecord>, winner: u64) -> (r:
    Result<PendingTransition, MatchError>)
    ensures
        pending_view(r) == end_spec(*cfg, caller, match_id, rec, winner),
{
    let m = check_operator(cfg, caller, rec)?;
    let from = m.state;
    if !(from.is(GameState::Matched) || from.is(GameState::ReadyForPrediction) || from.is(
        GameState::Started,
    )) {
        return Err(MatchError::InvalidStateTransition);
    }
    let won = if winner == 1 {
        m.player1
    } else {
        m.player2
    };
    let calls = vec![
        update_player_info(cfg, &m, winner),
        CollaboratorCall::SubmitMatchResults {
            registry: cfg.prediction_smart_contract_address,
            match_id,
            winner,
        },
    ];
    let t = PendingTransition {
        match_id,
        from,
        to: GameState::Ended,
        calls,
        event: Some(MatchEvent::Ended { match_id, winner: won }),
    };
    assert(t@.calls =~= end_spec(*cfg, caller, match_id, rec, winner)->Ok_0.calls);
    Ok(t)
}

} // verus!
