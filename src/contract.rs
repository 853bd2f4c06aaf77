//! The registry as a whole: configuration plus every match ever created,
//! kept in creation order so that a match's identifier is its position.

use vstd::prelude::*;

use crate::address::Address;
use crate::config::{init_spec, owner_update, settle_config, Config};
use crate::error::MatchError;
use crate::lifecycle::{
    create, end, end_spec, join, join_spec, open_market, open_market_spec, pending_view, start,
    start_spec, create_spec, PendingTransition, PendingView,
};
use crate::record::{MatchEvent, MatchRecord};

verus! {

/// The registry seen as a configuration and the sequence of its matches;
/// the match at position `i` has identifier `i`.
pub struct ContractView {
    pub config: Config,
    pub matches: Seq<MatchRecord>,
}

impl ContractView {
    /// Nothing exists before initialisation, and every record is consistent.
    pub open spec fn wf(self) -> bool {
        &&& !self.config.initialized ==> self.matches.len() == 0
        &&& forall|i: int| 0 <= i < self.matches.len() ==> (#[trigger] self.matches[i]).wf()
    }

    /// The identifier that the next `create` hands out.
    pub open spec fn next_match_id(self) -> nat {
        self.matches.len()
    }

    /// The record of `match_id`, if that match was ever created.
    pub open spec fn record(self, match_id: u64) -> Option<MatchRecord> {
        if match_id < self.matches.len() {
            Some(self.matches[match_id as int])
        } else {
            None
        }
    }

    /// The registry with configuration `config` and the same matches.
    pub open spec fn with_config(self, config: Config) -> ContractView {
        ContractView { config, ..self }
    }

    /// A configuration change and what the caller is told.
    pub open spec fn config_step(self, step: Result<Config, MatchError>) -> (
        ContractView,
        Result<(), MatchError>,
    ) {
        let (c, r) = settle_config(self.config, step);
        (self.with_config(c), r)
    }

    pub open spec fn init_step(self, caller: Address) -> (ContractView, Result<(), MatchError>) {
        self.config_step(init_spec(self.config, caller))
    }

    pub open spec fn set_operator_step(self, caller: Address, address: Address) -> (
        ContractView,
        Result<(), MatchError>,
    ) {
        self.config_step(
            owner_update(
                self.config,
                caller,
                Config { matchmaking_server_wallet_address: address, ..self.config },
            ),
        )
    }

    pub open spec fn set_player_registry_step(self, caller: Address, address: Address) -> (
        ContractView,
        Result<(), MatchError>,
    ) {
        self.config_step(
            owner_update(
                self.config,
                caller,
                Config { player_info_smart_contract_address: address, ..self.config },
            ),
        )
    }

    pub open spec fn set_prediction_registry_step(self, caller: Address, address: Address) -> (
        ContractView,
        Result<(), MatchError>,
    ) {
        self.config_step(
            owner_update(
                self.config,
                caller,
                Config { prediction_smart_contract_address: address, ..self.config },
            ),
        )
    }

    /// `create` by `caller`: a new match under the next identifier.
    pub open spec fn create_step(self, caller: Address) -> (
        ContractView,
        Result<MatchEvent, MatchError>,
    ) {
        match create_spec(self.config, caller, self.matches.len() as u64) {
            Ok((m, ev)) => (ContractView { matches: self.matches.push(m), ..self }, Ok(ev)),
            Err(e) => (self, Err(e)),
        }
    }

    /// `join` of `match_id` by `caller`.
    pub open spec fn join_step(self, caller: Address, match_id: u64) -> (
        ContractView,
        Result<MatchEvent, MatchError>,
    ) {
        match join_spec(self.config, caller, match_id, self.record(match_id)) {
            Ok((m, ev)) => (
                ContractView { matches: self.matches.update(match_id as int, m), ..self },
                Ok(ev),
            ),
            Err(e) => (self, Err(e)),
        }
    }

    /// Whether a staged step still applies: its match is still in its source state.
    pub open spec fn admits(self, p: PendingView) -> bool {
        self.record(p.match_id) matches Some(m) && m.state == p.from
    }

    /// Completing the staged step `p` once its collaborator calls have run;
    /// `downstream_ok` says whether all of them succeeded.
    pub open spec fn complete_step(self, p: PendingView, downstream_ok: bool) -> (
        ContractView,
        Result<Option<MatchEvent>, MatchError>,
    ) {
        if !downstream_ok {
            (self, Err(MatchError::DownstreamCallFailed))
        } else if !self.admits(p) {
            (self, Err(MatchError::InvalidStateTransition))
        } else {
            let m = self.matches[p.match_id as int];
            (
                ContractView {
                    matches: self.matches.update(
                        p.match_id as int,
                        MatchRecord { state: p.to, ..m },
                    ),
                    ..self
                },
                Ok(p.event),
            )
        }
    }
}

/// The registry: configuration, identifier counter and match records.
pub struct MatchInformationContract {
    config: Config,
    latest_match_id: u64,
    matches: Vec<MatchRecord>,
}

impl View for MatchInformationContract {
    type V = ContractView;

    closed spec fn view(&self) -> ContractView {
        ContractView { config: self.config, matches: self.matches@ }
    }
}

impl MatchInformationContract {
    /// The counter agrees with the number of matches, and the view is consistent.
    pub closed spec fn wf(&self) -> bool {
        &&& self.latest_match_id == self.matches@.len()
        &&& self@.wf()
    }

    /// The registry as deployed: fresh configuration, no matches.
    pub fn new() -> (r: MatchInformationContract)
        ensures
            r.wf(),
            r@.config.is_fresh(),
            r@.matches.len() == 0,
    {
        MatchInformationContract { config: Config::new(), latest_match_id: 0, matches: Vec::new() }
    }

    /// Initialises the registry once; `caller` becomes its owner and the
    /// identifier counter starts at 0.
    pub fn init(&mut self, caller: Address) -> (r: Result<(), MatchError>)
        requires
            old(self).wf(),
        ensures
            final(self).wf(),
            (final(self)@, r) == old(self)@.init_step(caller),
    {
        self.config.init(caller)
    }

    pub fn get_matchmaking_server_wallet_address(&self) -> (r: Address)
        ensures
            r == self@.config.matchmaking_server_wallet_address,
    {
        self.config.matchmaking_server_wallet_address
    }

    pub fn get_player_info_smart_contract_address(&self) -> (r: Address)
        ensures
            r == self@.config.player_info_smart_contract_address,
    {
        self.config.player_info_smart_contract_address
    }

    pub fn get_prediction_smart_contract_address(&self) -> (r: Address)
        ensures
            r == self@.config.prediction_smart_contract_address,
    {
        self.config.prediction_smart_contract_address
    }

    /// The configuration as a whole.
    pub fn config(&self) -> (r: Config)
        ensures
            r == self@.config,
    {
        self.config
    }

    pub fn set_matchmaking_server_wallet_address(&mut self, caller: Address, address: Address) -> (r:
        Result<(), MatchError>)
        requires
            old(self).wf(),
        ensures
            final(self).wf(),
            (final(self)@, r) == old(self)@.set_operator_step(caller, address),
    {
        self.config.set_matchmaking_server_wallet_address(caller, address)
    }

    pub fn set_player_info_smart_contract_address(&mut self, caller: Address, address: Address) -> (r:
        Result<(), MatchError>)
        requires
            old(self).wf(),
        ensures
            final(self).wf(),
            (final(self)@, r) == old(self)@.set_player_registry_step(caller, address),
    {
        self.config.set_player_info_smart_contract_address(caller, address)
    }

    pub fn set_prediction_smart_contract_address(&mut self, caller: Address, address: Address) -> (r:
        Result<(), MatchError>)
        requires
            old(self).wf(),
        ensures
            final(self).wf(),
            (final(self)@, r) == old(self)@.set_prediction_registry_step(caller, address),
    {
        self.config.set_prediction_smart_contract_address(caller, address)
    }

    /// The identifier that the next `create_match` will hand out.
    pub fn get_latest_match_id(&self) -> (r: Result<u64, MatchError>)
        requires
            self.wf(),
        ensures
            r == if self@.config.initialized {
                Ok::<u64, MatchError>(self@.next_match_id() as u64)
            } else {
                Err(MatchError::NotInitialized)
            },
    {
        self.config.check_initialized()?;
        Ok(self.latest_match_id)
    }

    /// The position of `match_id` among the records, if that match exists.
    fn slot(&self, match_id: u64) -> (r: Option<usize>)
        requires
            self.wf(),
        ensures
            match r {
                Some(i) => i == match_id && match_id < self@.matches.len(),
                None => match_id >= self@.matches.len(),
            },
    {
        let len = self.matches.len();
        if match_id < len as u64 {
            Some(match_id as usize)
        } else {
            None
        }
    }

    /// The record of `match_id`, if that match was ever created.
    pub fn get_match(&self, match_id: u64) -> (r: Option<MatchRecord>)
        requires
            self.wf(),
        ensures
            r == self@.record(match_id),
    {
        match self.slot(match_id) {
            Some(i) => Some(self.matches[i]),
            None => None,
        }
    }

    /// Opens a match with `caller` as its first player, under the next
    /// identifier.
    pub fn create_match(&mut self, caller: Address) -> (r: Result<MatchEvent, MatchError>)
        requires
            old(self).wf(),
            old(self)@.next_match_id() < u64::MAX,
        ensures
            final(self).wf(),
            (final(self)@, r) == old(self)@.create_step(caller),
    {
        let match_id = self.latest_match_id;
        let (m, ev) = create(&self.config, caller, match_id)?;
        self.matches.push(m);
        self.latest_match_id = match_id + 1;
        proof {
            let v = self@;
            assert forall|i: int| 0 <= i < v.matches.len() implies (#[trigger] v.matches[i]).wf() by {
                if i < match_id {
                    assert(v.matches[i] == old(self)@.matches[i]);
                }
            }
        }
        Ok(ev)
    }

    /// Makes `caller` the second player of match `match_id`.
    pub fn join_match(&mut self, caller: Address, match_id: u64) -> (r: Result<
        MatchEvent,
        MatchError,
    >)
        requires
            old(self).wf(),
        ensures
            final(self).wf(),
            (final(self)@, r) == old(self)@.join_step(caller, match_id),
    {
        let slot = self.slot(match_id);
        let (m, ev) = join(&self.config, caller, match_id, self.get_match(match_id))?;
        if let Some(i) = slot {
            self.matches.set(i, m);
        }
        proof {
            let v = self@;
            assert forall|i: int| 0 <= i < v.matches.len() implies (#[trigger] v.matches[i]).wf() by {
                if i != match_id {
                    assert(v.matches[i] == old(self)@.matches[i]);
                }
            }
        }
        Ok(ev)
    }

    /// Stages the opening of the prediction market on match `match_id`.
    pub fn open_prediction_market(&self, caller: Address, match_id: u64) -> (r: Result<
        PendingTransition,
        MatchError,
    >)
        requires
            self.wf(),
        ensures
            pending_view(r) == open_market_spec(self@.config, caller, match_id, self@.record(match_id)),
    {
        open_market(&self.config, caller, match_id, self.get_match(match_id))
    }

    /// Stages the start of match `match_id`.
    pub fn start_match(&self, caller: Address, match_id: u64) -> (r: Result<
        PendingTransition,
        MatchError,
    >)
        requires
            self.wf(),
        ensures
            pending_view(r) == start_spec(self@.config, caller, match_id, self@.record(match_id)),
    {
        start(&self.config, caller, match_id, self.get_match(match_id))
    }

    /// Stages the end of match `match_id`; `winner` is `1` for `player1`,
    /// anything else for `player2`.
    pub fn end_match(&self, caller: Address, match_id: u64, winner: u64) -> (r: Result<
        PendingTransition,
        MatchError,
    >)
        requires
            self.wf(),
        ensures
            pending_view(r) == end_spec(
                self@.config,
                caller,
                match_id,
                self@.record(match_id),
                winner,
            ),
    {
        end(&self.config, caller, match_id, self.get_match(match_id), winner)
    }

    /// Completes a staged step once its collaborator calls have run. If any
    /// of them failed, nothing changes.
    pub fn complete(&mut self, pending: &PendingTransition, downstream_ok: bool) -> (r: Result<
        Option<MatchEvent>,
        MatchError,
    >)
        requires
            old(self).wf(),
        ensures
            final(self).wf(),
            (final(self)@, r) == old(self)@.complete_step(pending@, downstream_ok),
    {
        if !downstream_ok {
            return Err(MatchError::DownstreamCallFailed);
        }
        let match_id = pending.match_id();
        let i = match self.slot(match_id) {
            Some(i) => i,
            None => return Err(MatchError::InvalidStateTransition),
        };
        let m = self.matches[i];
        if !m.state.is(pending.source()) {
            return Err(MatchError::InvalidStateTransition);
        }
        let to = pending.target();
        self.matches.set(i, MatchRecord { state: to, ..m });
        proof {
            let v = self@;
            assert forall|i: int| 0 <= i < v.matches.len() implies (#[trigger] v.matches[i]).wf() by {
                if i != match_id {
                    assert(v.matches[i] == old(self)@.matches[i]);
                }
            }
        }
        Ok(pending.event())
    }
}

} // verus!
