//! The configuration record, the permission policy it carries, and the store
//! that keeps the record between operations.

use vstd::prelude::*;
use crate::error::ContractError;
use crate::ledger::Empty;
use crate::text::{clone_opt_string, opt_str_view};

verus! {

/// Who may issue tokens through this contract.
#[derive(Debug)]
pub enum Policy {
    /// No admin exists; the declared minter alone may mint.
    UnrestrictedMinter { minter: String },
    /// The admin, if one is set, is the only identity that may act; without
    /// an admin the minter is.
    OptionalAdmin { admin: Option<String>, minter: String },
    /// One owner, named at construction.
    SingleOwner { owner: String },
}

/// The mathematical model of a [`Policy`].
pub enum PolicyView {
    UnrestrictedMinter { minter: Seq<char> },
    OptionalAdmin { admin: Option<Seq<char>>, minter: Seq<char> },
    SingleOwner { owner: Seq<char> },
}

impl PolicyView {
    /// The one identity the policy entitles to act.
    pub open spec fn principal(self) -> Seq<char> {
        match self {
            PolicyView::UnrestrictedMinter { minter } => minter,
            PolicyView::OptionalAdmin { admin, minter } => match admin {
                Some(a) => a,
                None => minter,
            },
            PolicyView::SingleOwner { owner } => owner,
        }
    }

    /// Whether `caller` satisfies the policy.
    pub open spec fn allows(self, caller: Seq<char>) -> bool {
        caller == self.principal()
    }

    /// The identity an admin query reports: the admin of an optional-admin
    /// policy, the owner of a single-owner policy, nobody otherwise.
    pub open spec fn admin(self) -> Option<Seq<char>> {
        match self {
            PolicyView::UnrestrictedMinter { .. } => None,
            PolicyView::OptionalAdmin { admin, .. } => admin,
            PolicyView::SingleOwner { owner } => Some(owner),
        }
    }
}

impl View for Policy {
    type V = PolicyView;

    open spec fn view(&self) -> PolicyView {
        match *self {
            Policy::UnrestrictedMinter { minter } => PolicyView::UnrestrictedMinter { minter: minter@ },
            Policy::OptionalAdmin { admin, minter } => PolicyView::OptionalAdmin {
                admin: opt_str_view(admin),
                minter: minter@,
            },
            Policy::SingleOwner { owner } => PolicyView::SingleOwner { owner: owner@ },
        }
    }
}

impl Policy {
    /// Decides whether `caller` may act under this policy.
    pub fn allows(&self, caller: &str) -> (ok: bool)
        ensures
            ok == self@.allows(caller@),
    {
        let caller = caller.to_owned();
        match self {
            Policy::UnrestrictedMinter { minter } => *minter == caller,
            Policy::OptionalAdmin { admin, minter } => match admin {
                Some(a) => *a == caller,
                None => *minter == caller,
            },
            Policy::SingleOwner { owner } => *owner == caller,
        }
    }

    /// The identity an admin query reports.
    pub fn admin(&self) -> (a: Option<String>)
        ensures
            opt_str_view(a) == self@.admin(),
    {
        match self {
            Policy::UnrestrictedMinter { .. } => None,
            Policy::OptionalAdmin { admin, .. } => clone_opt_string(admin),
            Policy::SingleOwner { owner } => Some(owner.clone()),
        }
    }
}

impl Clone for Policy {
    fn clone(&self) -> (p: Policy)
        ensures
            p == *self,
    {
        match self {
            Policy::UnrestrictedMinter { minter } => Policy::UnrestrictedMinter { minter: minter.clone() },
            Policy::OptionalAdmin { admin, minter } => Policy::OptionalAdmin {
                admin: clone_opt_string(admin),
                minter: minter.clone(),
            },
            Policy::SingleOwner { owner } => Policy::SingleOwner { owner: owner.clone() },
        }
    }
}

/// The one record this contract persists.
#[derive(Debug)]
pub struct Config {
    /// The bound ledger; `None` until the binding completes, never changed
    /// after.
    pub cw721_address: Option<String>,
    /// Who may issue tokens; fixed at construction.
    pub policy: Policy,
    /// The id the next minted token gets.
    pub token_id: u64,
    /// The URI every minted token points to.
    pub token_uri: String,
    /// The extension every minted token carries.
    pub extension: Option<Empty>,
}

/// The mathematical model of a [`Config`].
pub struct ConfigView {
    pub cw721_address: Option<Seq<char>>,
    pub policy: PolicyView,
    pub token_id: u64,
    pub token_uri: Seq<char>,
    pub extension: Option<Empty>,
}

impl View for Config {
    type V = ConfigView;

    open spec fn view(&self) -> ConfigView {
        ConfigView {
            cw721_address: opt_str_view(self.cw721_address),
            policy: self.policy@,
            token_id: self.token_id,
            token_uri: self.token_uri@,
            extension: self.extension,
        }
    }
}

impl ConfigView {
    /// Whether a ledger is bound.
    pub open spec fn bound(self) -> bool {
        self.cw721_address is Some
    }

    /// The configuration with `ledger` bound.
    pub open spec fn bind(self, ledger: Seq<char>) -> ConfigView {
        ConfigView { cw721_address: Some(ledger), ..self }
    }

    /// The configuration after one token was issued.
    pub open spec fn issued(self) -> ConfigView {
        ConfigView { token_id: (self.token_id + 1) as u64, ..self }
    }
}

impl Clone for Config {
    fn clone(&self) -> (c: Config)
        ensures
            c == *self,
    {
        Config {
            cw721_address: clone_opt_string(&self.cw721_address),
            policy: self.policy.clone(),
            token_id: self.token_id,
            token_uri: self.token_uri.clone(),
            extension: self.extension,
        }
    }
}

/// The place the configuration record is kept between operations.
#[derive(Debug)]
pub struct ConfigStore {
    /// The record, once a construction has saved one.
    pub record: Option<Config>,
}

impl View for ConfigStore {
    type V = Option<ConfigView>;

    open spec fn view(&self) -> Option<ConfigView> {
        match self.record {
            Some(c) => Some(c@),
            None => None,
        }
    }
}

impl ConfigStore {
    /// The store before any construction.
    pub fn new() -> (store: ConfigStore)
        ensures
            store@ is None,
    {
        ConfigStore { record: None }
    }

    /// What a read yields: the record, or `Uninitialized` if none was ever
    /// saved.
    pub open spec fn loaded(self) -> Result<Config, ContractError> {
        match self.record {
            Some(config) => Ok(config),
            None => Err(ContractError::Uninitialized {  }),
        }
    }

    /// The store after `config` was saved to it.
    pub open spec fn saved(self, config: Config) -> ConfigStore {
        ConfigStore { record: Some(config) }
    }

    /// Reads the record; fails with `Uninitialized` if none was ever saved.
    pub fn load(&self) -> (res: Result<Config, ContractError>)
        ensures
            res == self.loaded(),
    {
        match &self.record {
            Some(c) => Ok(c.clone()),
            None => Err(ContractError::Uninitialized {  }),
        }
    }

    /// Replaces the record.
    pub fn save(&mut self, config: Config)
        ensures
            *final(self) == old(self).saved(config),
    {
        self.record = Some(config);
    }
}

} // verus!
