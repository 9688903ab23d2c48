use vstd::prelude::*;
use crate::msg::ContractInfo;

verus! {

/// Every outbound payload is padded to a multiple of this many bytes, so that
/// its length says nothing about the amount inside.
pub const BLOCK_SIZE: usize = 256;

/// What the host tells a handler about the call it delivers.
#[derive(Clone, Debug, PartialEq, Eq)]
pub struct Env {
    /// The authenticated caller.
    pub sender: String,
    /// The time of the current block.
    pub block_time: u64,
    /// The address of this box.
    pub contract_address: String,
    /// The code hash of this box.
    pub contract_code_hash: String,
}

/// The one record of a box: its configuration and its status.
#[derive(Clone, Debug, PartialEq, Eq)]
pub struct State {
    /// The registry that lists this box and checks viewing keys.
    pub factory: ContractInfo,
    /// The label the box was created under.
    pub label: String,
    /// True until the box is deactivated.
    pub active: bool,
    /// The secret by which the registry recognises this box.
    pub password: [u8; 32],
    /// The address of this box.
    pub offspring_addr: String,
    /// Free text about this box.
    pub description: Option<String>,
    /// The token held.
    pub snip20: ContractInfo,
    /// The only address that may withdraw, deactivate and query.
    pub owner: String,
    /// The time from which the funds can be taken.
    pub withdraw_time: u64,
    /// True once the funds were paid out.
    pub withdrawn: bool,
    /// The sum of all deposits.
    pub amount: u128,
}

impl State {
    /// A box is deactivated only after its funds were paid out.
    pub open spec fn wf(self) -> bool {
        !self.active ==> self.withdrawn
    }

    /// Whether two records agree on everything that is fixed at creation.
    pub open spec fn same_configuration(self, other: State) -> bool {
        &&& self.factory == other.factory
        &&& self.label == other.label
        &&& self.password == other.password
        &&& self.offspring_addr == other.offspring_addr
        &&& self.description == other.description
        &&& self.snip20 == other.snip20
        &&& self.owner == other.owner
        &&& self.withdraw_time == other.withdraw_time
    }
}

/// Whether `after` can follow `before`: the configuration is the same, a
/// deactivated box stays so, paid-out funds stay so, the balance does not
/// shrink, and it is fixed once the funds were paid out.
pub open spec fn follows(before: State, after: State) -> bool {
    &&& after.same_configuration(before)
    &&& !before.active ==> !after.active
    &&& before.withdrawn ==> after.withdrawn
    &&& after.amount >= before.amount
    &&& before.withdrawn ==> after.amount == before.amount
}

} // verus!
