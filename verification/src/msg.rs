use vstd::prelude::*;

verus! {

/// Code hash and address of another contract.
#[derive(Clone, Debug, PartialEq, Eq)]
pub struct ContractInfo {
    /// The contract's code hash.
    pub code_hash: String,
    /// The contract's address.
    pub address: String,
}

impl ContractInfo {
    /// A second value with the same code hash and address.
    pub fn duplicate(&self) -> (out: ContractInfo)
        ensures
            out == *self,
    {
        ContractInfo { code_hash: self.code_hash.clone(), address: self.address.clone() }
    }
}

/// What a box is created from.
#[derive(Clone, Debug, PartialEq, Eq)]
pub struct InitMsg {
    /// The registry's code hash and address.
    pub factory: ContractInfo,
    /// The label the box is created under.
    pub label: String,
    /// The secret handed to the registry at registration.
    pub password: [u8; 32],
    /// Free text about this box.
    pub description: Option<String>,
    /// The owner of the funds.
    pub owner: String,
    /// The token to hold.
    pub snip20: ContractInfo,
    /// The time from which the funds can be taken.
    pub withdraw_time: u64,
}

/// The calls that change a box.
#[derive(Clone, Debug, PartialEq, Eq)]
pub enum HandleMsg {
    /// Retire the box from the registry's active list.
    Deactivate {  },
    /// The token's notice that funds were moved into the box.
    Receive { sender: String, from: String, amount: u128, msg: Option<Vec<u8>> },
    /// Pay the whole balance out to the owner.
    Withdraw {  },
}

/// The calls that read a box.
#[derive(Clone, Debug, PartialEq, Eq)]
pub enum QueryMsg {
    /// The status of the funds, for the owner.
    GetFunds {
        /// The address that claims to be the owner.
        address: String,
        /// The viewing key that the registry is asked about.
        viewing_key: String,
        /// The time against which the remaining wait is computed.
        block_time: u64,
    },
}

/// A query's answer.
#[derive(Clone, Debug, PartialEq, Eq)]
pub enum QueryAnswer {
    /// The status of the funds.
    FundsStatus {
        can_withdraw: bool,
        remaining_time: u64,
        withdrawn: bool,
        amount: u128,
        snip20: ContractInfo,
    },
}

/// A message for the host to dispatch once the handler has returned.
#[derive(Clone, Debug, PartialEq, Eq)]
pub enum OutMsg {
    /// A call of another contract with its encoded, padded payload.
    Execute { contract_addr: String, code_hash: String, payload: Vec<u8> },
    /// Tell the registry that this box exists.
    RegisterOffspring { registry: ContractInfo, owner: String, label: String, password: [u8; 32] },
    /// Tell the registry that this box is retired.
    DeactivateOffspring { registry: ContractInfo, owner: String },
    /// Any other kind of message. No handler of a box produces one.
    Other,
}

/// What the registry is to be asked before a query is answered.
#[derive(Clone, Debug, PartialEq, Eq)]
pub struct KeyCheck {
    /// The registry to ask.
    pub registry: ContractInfo,
    /// The address whose key is checked.
    pub address: String,
    /// The key to check.
    pub viewing_key: String,
}

/// What initialisation hands back.
#[derive(Clone, Debug, PartialEq, Eq)]
pub struct InitResponse {
    pub messages: Vec<OutMsg>,
}

/// What a handler hands back.
#[derive(Clone, Debug, PartialEq, Eq)]
pub struct HandleResponse {
    pub messages: Vec<OutMsg>,
}

} // verus!
