//! Lifecycle of matchmade two-player contests.
//!
//! The library holds the configuration of a match registry, the match
//! records themselves and the rules that move a match through
//! `Finding -> Matched -> ReadyForPrediction -> Started -> Ended`.
//! Steps that need a collaborator registry are staged: the library decides
//! which calls are owed, and the state only moves once they have succeeded.
//!
//! - [`lifecycle`] states the rules for one record and a configuration, for
//!   hosts that keep records in their own store;
//! - [`MatchInformationContract`] keeps every record itself and applies them;
//! - [`laws`] proves what holds across operations.

mod address;
mod config;
mod contract;
mod error;
pub mod laws;
pub mod lifecycle;
mod record;

pub use address::Address;
pub use config::{init_spec, owner_refusal, owner_update, settle_config, Config};
pub use contract::{ContractView, MatchInformationContract};
pub use error::MatchError;
pub use record::{CollaboratorCall, GameState, MatchEvent, MatchRecord};
