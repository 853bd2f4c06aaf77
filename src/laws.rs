//! Properties of the registry that span several operations or every state.

use vstd::prelude::*;

use crate::address::Address;
use crate::contract::ContractView;
use crate::error::MatchError;
use crate::lifecycle::{end_spec, open_market_spec, start_spec, PendingView};
use crate::record::MatchEvent;

verus! {

/// The registry after `create` has been called once by each of `callers`,
/// in order, and the result of each call.
pub open spec fn create_all(v: ContractView, callers: Seq<Address>) -> (
    ContractView,
    Seq<Result<MatchEvent, MatchError>>,
)
    decreases callers.len(),
{
    if callers.len() == 0 {
        (v, seq![])
    } else {
        let (w, rs) = create_all(v, callers.drop_last());
        let (x, r) = w.create_step(callers.last());
        (x, rs.push(r))
    }
}

/// Successive `create` calls on an initialised registry hand out
/// consecutive identifiers, starting at the number of matches that already
/// exist (0 on a registry without matches): increasing, without gaps or
/// repeats.
pub proof fn lemma_create_ids_consecutive(v: ContractView, callers: Seq<Address>)
    requires
        v.config.initialized,
        v.matches.len() + callers.len() <= u64::MAX,
    ensures
        create_all(v, callers).0.config == v.config,
        create_all(v, callers).0.matches.len() == v.matches.len() + callers.len(),
        create_all(v, callers).1.len() == callers.len(),
        forall|i: int|
            0 <= i < callers.len() ==> #[trigger] create_all(v, callers).1[i] == Ok::<
                MatchEvent,
                MatchError,
            >(MatchEvent::Created { match_id: (v.matches.len() + i) as u64, player1: callers[i] }),
    decreases callers.len(),
{
    if callers.len() > 0 {
        let front = callers.drop_last();
        lemma_create_ids_consecutive(v, front);
        let (w, rs) = create_all(v, front);
        let rs2 = create_all(v, callers).1;
        assert forall|i: int| 0 <= i < callers.len() implies #[trigger] rs2[i] == Ok::<
            MatchEvent,
            MatchError,
        >(MatchEvent::Created { match_id: (v.matches.len() + i) as u64, player1: callers[i] }) by {
            if i < front.len() {
                assert(rs2[i] == rs[i]);
                assert(front[i] == callers[i]);
            }
        }
    }
}

/// On an initialised registry, `join` of an identifier that was never
/// handed out fails with `MatchNotFound` and changes nothing.
pub proof fn lemma_join_unknown_match(v: ContractView, caller: Address, match_id: u64)
    requires
        v.config.initialized,
        match_id >= v.next_match_id(),
    ensures
        v.join_step(caller, match_id) == (v, Err::<MatchEvent, MatchError>(
            MatchError::MatchNotFound,
        )),
{
}

/// A second `join` of the same match fails with `InvalidStateTransition`,
/// whoever makes it.
pub proof fn lemma_join_twice(v: ContractView, first: Address, second: Address, match_id: u64)
    requires
        v.join_step(first, match_id).1 is Ok,
    ensures
        ({
            let w = v.join_step(first, match_id).0;
            w.join_step(second, match_id) == (w, Err::<MatchEvent, MatchError>(
                MatchError::InvalidStateTransition,
            ))
        }),
{
}

/// No match is lost and no match's state moves back from `before` to `after`.
pub open spec fn never_regresses(before: ContractView, after: ContractView) -> bool {
    &&& before.matches.len() <= after.matches.len()
    &&& forall|i: int|
        0 <= i < before.matches.len() ==> before.matches[i].state.rank()
            <= (#[trigger] after.matches[i]).state.rank()
}

/// No operation moves a match's state backwards: every change of the
/// registry keeps each state where it was or moves it forward. (Staging a
/// step changes nothing; a staged step always leads forward.)
pub proof fn lemma_states_never_decrease(
    v: ContractView,
    caller: Address,
    address: Address,
    match_id: u64,
    pending: PendingView,
    downstream_ok: bool,
)
    requires
        pending.from.rank() < pending.to.rank(),
    ensures
        never_regresses(v, v.init_step(caller).0),
        never_regresses(v, v.set_operator_step(caller, address).0),
        never_regresses(v, v.set_player_registry_step(caller, address).0),
        never_regresses(v, v.set_prediction_registry_step(caller, address).0),
        never_regresses(v, v.create_step(caller).0),
        never_regresses(v, v.join_step(caller, match_id).0),
        never_regresses(v, v.complete_step(pending, downstream_ok).0),
{
    let c = v.create_step(caller).0;
    assert forall|i: int| 0 <= i < v.matches.len() implies v.matches[i].state.rank()
        <= (#[trigger] c.matches[i]).state.rank() by {
        if v.config.initialized {
            assert(c.matches[i] == v.matches[i]);
        }
    }
}

/// Only the owner can change the configuration: for any other caller each
/// setter fails, with `Unauthorized` once the registry is initialised, and
/// leaves the registry as it was.
pub proof fn lemma_only_owner_configures(v: ContractView, caller: Address, address: Address)
    requires
        caller != v.config.owner,
    ensures
        v.set_operator_step(caller, address).0 == v,
        v.set_player_registry_step(caller, address).0 == v,
        v.set_prediction_registry_step(caller, address).0 == v,
        v.set_operator_step(caller, address).1 is Err,
        v.set_player_registry_step(caller, address).1 is Err,
        v.set_prediction_registry_step(caller, address).1 is Err,
        v.config.initialized ==> v.set_operator_step(caller, address).1 == Err::<(), MatchError>(
            MatchError::Unauthorized,
        ),
        v.config.initialized ==> v.set_player_registry_step(caller, address).1 == Err::<
            (),
            MatchError,
        >(MatchError::Unauthorized),
        v.config.initialized ==> v.set_prediction_registry_step(caller, address).1 == Err::<
            (),
            MatchError,
        >(MatchError::Unauthorized),
{
}

/// Only the matchmaking operator can stage opening the market, starting or
/// ending a match: anyone else is refused, with `Unauthorized` once the
/// registry is initialised, and nothing is staged.
pub proof fn lemma_only_operator_advances(
    v: ContractView,
    caller: Address,
    match_id: u64,
    winner: u64,
)
    requires
        caller != v.config.matchmaking_server_wallet_address,
    ensures
        open_market_spec(v.config, caller, match_id, v.record(match_id)) is Err,
        start_spec(v.config, caller, match_id, v.record(match_id)) is Err,
        end_spec(v.config, caller, match_id, v.record(match_id), winner) is Err,
        v.config.initialized ==> open_market_spec(v.config, caller, match_id, v.record(match_id))
            == Err::<PendingView, MatchError>(MatchError::Unauthorized),
        v.config.initialized ==> start_spec(v.config, caller, match_id, v.record(match_id))
            == Err::<PendingView, MatchError>(MatchError::Unauthorized),
        v.config.initialized ==> end_spec(v.config, caller, match_id, v.record(match_id), winner)
            == Err::<PendingView, MatchError>(MatchError::Unauthorized),
{
}

/// When a collaborator call of a staged step fails, the step fails with
/// `DownstreamCallFailed` and the registry, every match's state included,
/// is exactly as it was before.
pub proof fn lemma_failed_call_rolls_back(v: ContractView, pending: PendingView)
    ensures
        v.complete_step(pending, false) == (v, Err::<Option<MatchEvent>, MatchError>(
            MatchError::DownstreamCallFailed,
        )),
{
}

} // verus!
