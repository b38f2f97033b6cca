//! A permissioned issuance layer in front of a non-fungible-token ledger.
//!
//! The crate binds to exactly one ledger instance exactly once, puts every
//! mutating request before one authorization predicate, and rejects every
//! request that would move a token after it was minted.
//!
//! Nothing here touches the host: a handler takes the configuration store
//! and the request, and answers with what to record and what to dispatch.

pub mod contract;
pub mod decimal;
pub mod entry;
pub mod error;
pub mod guard;
pub mod laws;
pub mod ledger;
pub mod metadata;
pub mod msg;
pub mod payload;
pub mod reply;
pub mod response;
pub mod state;
pub mod text;

pub use entry::{ExecuteMsg, QueryMsg};
pub use error::{ContractError, ErrorKind, OwnershipError};
pub use ledger::InstantiateMsg;
pub use metadata::{Extension, Metadata, Trait};
