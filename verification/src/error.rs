use vstd::prelude::*;
use secret_cosmwasm_std::StdError;

verus! {

/// Why a call was refused. Every refusal leaves the record untouched.
#[derive(Debug, PartialEq)]
pub enum ContractError {
    /// A deposit notification that did not come from the configured token.
    UnauthorizedSource,
    /// The balance has already been paid out.
    AlreadyWithdrawn,
    /// A withdrawal asked for by somebody other than the owner.
    NotOwner,
    /// A deactivation asked for by somebody other than the owner.
    Unauthorized,
    /// The unlock time has not been reached.
    TimeLockNotExpired,
    /// The box has been deactivated.
    Inactive,
    /// Deactivation asked for while the funds are still held.
    NotWithdrawnYet,
    /// The one answer to every failed query authentication.
    InvalidCredentialOrAddress,
    /// A deposit that would push the balance past 128 bits.
    Overflow,
    /// An outbound message could not be encoded; the encoder's own error is
    /// carried along for the caller to pass on. Only the functions that are
    /// handed the outcome of an encoding return it.
    MessageEncoding(StdError),
}

/// The store holds nothing under the key that was asked for.
#[derive(Clone, Debug, PartialEq, Eq)]
pub struct NotFound {
    /// The name of the kind of value that was expected.
    pub kind: String,
}

impl ContractError {
    /// The text shown to the caller, as a sequence of characters.
    pub open spec fn text(self) -> Seq<char> {
        match self {
            ContractError::UnauthorizedSource =>
                "Can only receive the SNIP20 registered in the contract"@,
            ContractError::AlreadyWithdrawn => "Already withdrawn"@,
            ContractError::NotOwner => "Only the owner can withdraw"@,
            ContractError::Unauthorized => "Unauthorized"@,
            ContractError::TimeLockNotExpired => "Withdraw time has not passed"@,
            ContractError::Inactive => "This contract is inactive."@,
            ContractError::NotWithdrawnYet =>
                "Not withdrawn yet. For security reasons, you can only deactivate the contract after withdrawing"@,
            ContractError::InvalidCredentialOrAddress =>
                "This address does not have permission and/or viewing key is not valid"@,
            ContractError::Overflow => "Deposit overflows the balance"@,
            ContractError::MessageEncoding(_) => "Outbound message could not be encoded"@,
        }
    }

    /// The text shown to the caller. For a failed encoding it is one fixed
    /// text; the encoder's own words stay with the carried error.
    pub fn message(&self) -> (out: String)
        ensures
            out@ == self.text(),
    {
        match self {
            ContractError::UnauthorizedSource =>
                "Can only receive the SNIP20 registered in the contract".to_owned(),
            ContractError::AlreadyWithdrawn => "Already withdrawn".to_owned(),
            ContractError::NotOwner => "Only the owner can withdraw".to_owned(),
            ContractError::Unauthorized => "Unauthorized".to_owned(),
            ContractError::TimeLockNotExpired => "Withdraw time has not passed".to_owned(),
            ContractError::Inactive => "This contract is inactive.".to_owned(),
            ContractError::NotWithdrawnYet =>
                "Not withdrawn yet. For security reasons, you can only deactivate the contract after withdrawing".to_owned(),
            ContractError::InvalidCredentialOrAddress =>
                "This address does not have permission and/or viewing key is not valid".to_owned(),
            ContractError::Overflow => "Deposit overflows the balance".to_owned(),
            ContractError::MessageEncoding(_) => "Outbound message could not be encoded".to_owned(),
        }
    }
}

} // verus!
