//! What an operation of the contract can fail with.

use cosmwasm_std::StdError;
use vstd::prelude::*;
use vstd::std_specs::convert::FromSpecImpl;

verus! {

/// The error type of `cosmwasm_std`: carried through as it came, never looked
/// into.
#[verifier::external_type_specification]
#[verifier::external_body]
pub struct ExStdError(StdError);

/// A failure of the administrator registry.
#[derive(Debug, PartialEq)]
pub enum AdminFailure {
    /// The store or the address validator failed.
    Std(StdError),
    /// The caller is not the current administrator.
    NotAdmin,
}

/// A failure of the list of barred hosts.
#[derive(Debug, PartialEq)]
pub enum HookFailure {
    /// The store failed.
    Std(StdError),
    /// The administrator check failed.
    Admin(AdminFailure),
    /// The address is on the list already.
    HookAlreadyRegistered,
    /// The address is not on the list.
    HookNotRegistered,
}

/// A failure of the contract.
#[derive(Debug, PartialEq)]
pub enum ContractError {
    /// The store failed, or an address was not accepted.
    Std(StdError),
    /// The administrator registry failed for another reason than the caller's
    /// standing.
    Admin(AdminFailure),
    /// The list of barred hosts failed for another reason than the caller's
    /// standing.
    Hook(HookFailure),
    /// A caller other than the administrator asked for a privileged action.
    Unauthorized,
    /// The host has started a match against this opponent before.
    HostOpponentPairAlreadyHasGame,
    /// The host is barred from starting matches.
    HostAddressBlacklisted,
    /// No match of this host against this opponent is on record.
    NoGameFoundForHostOpponentPair { host_address: String, opponent_address: String },
    /// The move is none of the three.
    InvalidMove { msg: String },
}

impl ContractError {
    /// The text that a failure of the contract's own shows, `None` for one
    /// that carries an error of the store or the validator.
    pub open spec fn fixed_message(self) -> Option<Seq<char>> {
        match self {
            ContractError::Std(_) => None,
            ContractError::Admin(AdminFailure::Std(_)) => None,
            ContractError::Admin(AdminFailure::NotAdmin) => Some("Caller is not admin"@),
            ContractError::Hook(HookFailure::Std(_)) => None,
            ContractError::Hook(HookFailure::Admin(AdminFailure::Std(_))) => None,
            ContractError::Hook(HookFailure::Admin(AdminFailure::NotAdmin)) => Some(
                "Caller is not admin"@,
            ),
            ContractError::Hook(HookFailure::HookAlreadyRegistered) => Some(
                "Given address already registered as a hook"@,
            ),
            ContractError::Hook(HookFailure::HookNotRegistered) => Some(
                "Given address not registered as a hook"@,
            ),
            ContractError::Unauthorized => Some("Unauthorized"@),
            ContractError::HostOpponentPairAlreadyHasGame => Some(
                "Host-opponent pair already has a game going on"@,
            ),
            ContractError::HostAddressBlacklisted => Some("The host address has been blacklisted"@),
            ContractError::NoGameFoundForHostOpponentPair { .. } => Some(
                "No game found for the host opponent pair"@,
            ),
            ContractError::InvalidMove { .. } => Some("Opponent played an invalid move"@),
        }
    }

    /// The text shown for the error to a person. An error of the store or the
    /// validator shows its own text.
    pub fn message(&self) -> (text: String)
        ensures
            self.fixed_message() matches Some(fixed) ==> text@ == fixed,
    {
        match self {
            ContractError::Std(e) => std_error_text(e),
            ContractError::Admin(AdminFailure::Std(e)) => std_error_text(e),
            ContractError::Admin(AdminFailure::NotAdmin) => "Caller is not admin".to_owned(),
            ContractError::Hook(HookFailure::Std(e)) => std_error_text(e),
            ContractError::Hook(HookFailure::Admin(AdminFailure::Std(e))) => std_error_text(e),
            ContractError::Hook(HookFailure::Admin(AdminFailure::NotAdmin)) => {
                "Caller is not admin".to_owned()
            },
            ContractError::Hook(HookFailure::HookAlreadyRegistered) => {
                "Given address already registered as a hook".to_owned()
            },
            ContractError::Hook(HookFailure::HookNotRegistered) => {
                "Given address not registered as a hook".to_owned()
            },
            ContractError::Unauthorized => "Unauthorized".to_owned(),
            ContractError::HostOpponentPairAlreadyHasGame => {
                "Host-opponent pair already has a game going on".to_owned()
            },
            ContractError::HostAddressBlacklisted => {
                "The host address has been blacklisted".to_owned()
            },
            ContractError::NoGameFoundForHostOpponentPair { .. } => {
                "No game found for the host opponent pair".to_owned()
            },
            ContractError::InvalidMove { .. } => "Opponent played an invalid move".to_owned(),
        }
    }
}

/// `ToString::to_string` on a `cosmwasm_std::StdError`: the text that the
/// error displays. Nothing is claimed of it.
#[verifier::external_body]
fn std_error_text(e: &StdError) -> String {
    e.to_string()
}

impl From<StdError> for ContractError {
    fn from(e: StdError) -> (r: ContractError) {
        ContractError::Std(e)
    }
}

impl FromSpecImpl<StdError> for ContractError {
    open spec fn obeys_from_spec() -> bool {
        true
    }

    open spec fn from_spec(e: StdError) -> ContractError {
        ContractError::Std(e)
    }
}

impl From<AdminFailure> for ContractError {
    fn from(e: AdminFailure) -> (r: ContractError) {
        match e {
            AdminFailure::NotAdmin => ContractError::Unauthorized,
            AdminFailure::Std(e) => ContractError::Admin(AdminFailure::Std(e)),
        }
    }
}

impl FromSpecImpl<AdminFailure> for ContractError {
    open spec fn obeys_from_spec() -> bool {
        true
    }

    open spec fn from_spec(e: AdminFailure) -> ContractError {
        match e {
            AdminFailure::NotAdmin => ContractError::Unauthorized,
            AdminFailure::Std(e) => ContractError::Admin(AdminFailure::Std(e)),
        }
    }
}

impl From<HookFailure> for ContractError {
    fn from(e: HookFailure) -> (r: ContractError) {
        match e {
            HookFailure::Admin(AdminFailure::NotAdmin) => ContractError::Unauthorized,
            other => ContractError::Hook(other),
        }
    }
}

impl FromSpecImpl<HookFailure> for ContractError {
    open spec fn obeys_from_spec() -> bool {
        true
    }

    open spec fn from_spec(e: HookFailure) -> ContractError {
        match e {
            HookFailure::Admin(AdminFailure::NotAdmin) => ContractError::Unauthorized,
            other => ContractError::Hook(other),
        }
    }
}

} // verus!
