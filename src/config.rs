use vstd::prelude::*;

use crate::address::Address;
use crate::error::MatchError;

verus! {

/// The registry's configuration: whether it has been initialised, who owns
/// it, who operates matchmaking, and where the two collaborator registries are.
#[derive(Clone, Copy, Debug, PartialEq, Eq)]
pub struct Config {
    pub initialized: bool,
    pub owner: Address,
    pub matchmaking_server_wallet_address: Address,
    pub player_info_smart_contract_address: Address,
    pub prediction_smart_contract_address: Address,
}

/// The error with which an owner-only change by `caller` is refused, if any.
pub open spec fn owner_refusal(cfg: Config, caller: Address) -> Option<MatchError> {
    if !cfg.initialized {
        Some(MatchError::NotInitialized)
    } else if caller != cfg.owner {
        Some(MatchError::Unauthorized)
    } else {
        None
    }
}

/// What `init` makes of `cfg` when `caller` calls it.
pub open spec fn init_spec(cfg: Config, caller: Address) -> Result<Config, MatchError> {
    if cfg.initialized {
        Err(MatchError::AlreadyInitialized)
    } else {
        Ok(Config { initialized: true, owner: caller, ..cfg })
    }
}

/// An owner-only change of `cfg` into `updated`, as `caller` asks for it.
pub open spec fn owner_update(cfg: Config, caller: Address, updated: Config) -> Result<
    Config,
    MatchError,
> {
    match owner_refusal(cfg, caller) {
        Some(e) => Err(e),
        None => Ok(updated),
    }
}

/// The configuration after a change and what the caller is told: a refused
/// change leaves `before` as it was.
pub open spec fn settle_config(before: Config, step: Result<Config, MatchError>) -> (
    Config,
    Result<(), MatchError>,
) {
    match step {
        Ok(c) => (c, Ok(())),
        Err(e) => (before, Err(e)),
    }
}

impl Config {
    /// The configuration as deployed: not initialised, every address zero.
    pub open spec fn is_fresh(self) -> bool {
        &&& !self.initialized
        &&& self.owner.is_zero()
        &&& self.matchmaking_server_wallet_address.is_zero()
        &&& self.player_info_smart_contract_address.is_zero()
        &&& self.prediction_smart_contract_address.is_zero()
    }

    pub fn new() -> (r: Config)
        ensures
            r.is_fresh(),
    {
        Config {
            initialized: false,
            owner: Address::zero(),
            matchmaking_server_wallet_address: Address::zero(),
            player_info_smart_contract_address: Address::zero(),
            prediction_smart_contract_address: Address::zero(),
        }
    }

    /// Initialises the registry once; `caller` becomes its owner.
    pub fn init(&mut self, caller: Address) -> (r: Result<(), MatchError>)
        ensures
            (*final(self), r) == settle_config(*old(self), init_spec(*old(self), caller)),
    {
        if self.initialized {
            return Err(MatchError::AlreadyInitialized);
        }
        self.initialized = true;
        self.owner = caller;
        Ok(())
    }

    /// Fails with `NotInitialized` until `init` has succeeded.
    pub fn check_initialized(&self) -> (r: Result<(), MatchError>)
        ensures
            r == if self.initialized {
                Ok::<(), MatchError>(())
            } else {
                Err(MatchError::NotInitialized)
            },
    {
        if self.initialized {
            Ok(())
        } else {
            Err(MatchError::NotInitialized)
        }
    }

    /// Fails unless the registry is initialised and `caller` is its owner.
    pub fn check_owner(&self, caller: Address) -> (r: Result<(), MatchError>)
        ensures
            r == match owner_refusal(*self, caller) {
                Some(e) => Err(e),
                None => Ok::<(), MatchError>(()),
            },
    {
        if !self.initialized {
            return Err(MatchError::NotInitialized);
        }
        if caller != self.owner {
            return Err(MatchError::Unauthorized);
        }
        Ok(())
    }

    /// Lets the owner name the matchmaking operator.
    pub fn set_matchmaking_server_wallet_address(&mut self, caller: Address, address: Address) -> (r: Result<
        (),
        MatchError,
    >)
        ensures
            (*final(self), r) == settle_config(
                *old(self),
                owner_update(*old(self), caller, Config { matchmaking_server_wallet_address: address, ..*old(self) }),
            ),
    {
        self.check_owner(caller)?;
        self.matchmaking_server_wallet_address = address;
        Ok(())
    }

    /// Lets the owner set the address of the player-statistics registry.
    pub fn set_player_info_smart_contract_address(&mut self, caller: Address, address: Address) -> (r: Result<
        (),
        MatchError,
    >)
        ensures
            (*final(self), r) == settle_config(
                *old(self),
                owner_update(*old(self), caller, Config { player_info_smart_contract_address: address, ..*old(self) }),
            ),
    {
        self.check_owner(caller)?;
        self.player_info_smart_contract_address = address;
        Ok(())
    }

    /// Lets the owner set the address of the prediction registry.
    pub fn set_prediction_smart_contract_address(&mut self, caller: Address, address: Address) -> (r: Result<
        (),
        MatchError,
    >)
        ensures
            (*final(self), r) == settle_config(
                *old(self),
                owner_update(*old(self), caller, Config { prediction_smart_contract_address: address, ..*old(self) }),
            ),
    {
        self.check_owner(caller)?;
        self.prediction_smart_contract_address = address;
        Ok(())
    }
}

} // verus!
