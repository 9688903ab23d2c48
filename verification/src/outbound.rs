use vstd::prelude::*;
use secret_cosmwasm_std::{CosmosMsg, HumanAddr, StdError, Uint128, WasmMsg};
use crate::msg::{ContractInfo, OutMsg};

verus! {

/// The error type of the token toolkit's message builders.
#[verifier::external_type_specification]
#[verifier::external_body]
pub struct ExStdError(StdError);

/// The bytes that the token toolkit encodes for a transfer of `amount` to
/// `recipient` with the given memo, padded to `block_size`.
pub uninterp spec fn transfer_payload(
    recipient: Seq<char>,
    amount: u128,
    memo: Seq<char>,
    block_size: usize,
) -> Seq<u8>;

/// The bytes that the token toolkit encodes to register the contract with code
/// hash `own_code_hash` for deposit notices, padded to `block_size`.
pub uninterp spec fn register_receive_payload(own_code_hash: Seq<char>, block_size: usize) -> Seq<u8>;

/// Whether `m` is a call of the contract `token` that carries `payload`.
pub open spec fn is_token_call(m: OutMsg, token: ContractInfo, payload: Seq<u8>) -> bool {
    match m {
        OutMsg::Execute { contract_addr, code_hash, payload: bytes } => {
            &&& contract_addr@ == token.address@
            &&& code_hash@ == token.code_hash@
            &&& bytes@ == payload
        },
        _ => false,
    }
}

/// Whether `m` is a call whose payload fills whole blocks of `block_size` bytes.
pub open spec fn is_padded(m: OutMsg, block_size: usize) -> bool {
    match m {
        OutMsg::Execute { payload, .. } => block_size > 0 ==> payload@.len() % (block_size as nat)
            == 0,
        _ => false,
    }
}

/// Calls `secret_toolkit_snip20::transfer_msg` with the memo set and no
/// explicit padding. Trusted: the builder succeeds; its message is a call of
/// `token` whose payload is the builder's encoding of the transfer, and the
/// payload's length is a multiple of a positive `block_size`.
///
/// Success is claimed because the builder's only error is that of the JSON
/// encoder (`serde_json_wasm::to_vec`, reached through `to_binary`), and the
/// encoder methods that a transfer reaches (`serialize_struct_variant`,
/// `serialize_field`, `end`, `serialize_newtype_struct`, `serialize_str`,
/// `serialize_some`, `serialize_none`) only append to a `Vec` and end in
/// `Ok`: the address and the memo are strings, the amount is written as a
/// decimal string, the padding is absent.
#[verifier::external_body]
pub(crate) fn token_transfer(
    recipient: &String,
    amount: u128,
    memo: &String,
    block_size: usize,
    token: &ContractInfo,
) -> (built: Result<OutMsg, StdError>)
    ensures
        built is Ok,
        built matches Ok(m) ==> is_token_call(
            m,
            *token,
            transfer_payload(recipient@, amount, memo@, block_size),
        ),
        built matches Ok(m) ==> is_padded(m, block_size),
{
    let to = HumanAddr(token.address.clone());
    let who = HumanAddr(recipient.clone());
    let hash = token.code_hash.clone();
    let note = Some(memo.clone());
    match secret_toolkit_snip20::transfer_msg(who, Uint128(amount), note, None, block_size, hash, to)? {
        CosmosMsg::Wasm(WasmMsg::Execute { contract_addr, callback_code_hash, msg, .. }) => {
            Ok(OutMsg::Execute { contract_addr: contract_addr.0, code_hash: callback_code_hash, payload: msg.0 })
        },
        _ => Ok(OutMsg::Other),
    }
}

/// Calls `secret_toolkit_snip20::register_receive_msg` with no explicit
/// padding. Trusted: the builder succeeds; its message is a call of `token`
/// whose payload is the builder's encoding of the registration, and the
/// payload's length is a multiple of a positive `block_size`.
///
/// Success is claimed for the reason given at `token_transfer`: the message
/// holds one string and an absent padding, and the JSON encoder's methods for
/// a struct variant, a string and an absent option end in `Ok`.
#[verifier::external_body]
pub(crate) fn token_register_receive(
    own_code_hash: &String,
    block_size: usize,
    token: &ContractInfo,
) -> (built: Result<OutMsg, StdError>)
    ensures
        built is Ok,
        built matches Ok(m) ==> is_token_call(
            m,
            *token,
            register_receive_payload(own_code_hash@, block_size),
        ),
        built matches Ok(m) ==> is_padded(m, block_size),
{
    let to = HumanAddr(token.address.clone());
    let own = own_code_hash.clone();
    let hash = token.code_hash.clone();
    match secret_toolkit_snip20::register_receive_msg(own, None, block_size, hash, to)? {
        CosmosMsg::Wasm(WasmMsg::Execute { contract_addr, callback_code_hash, msg, .. }) => {
            Ok(OutMsg::Execute { contract_addr: contract_addr.0, code_hash: callback_code_hash, payload: msg.0 })
        },
        _ => Ok(OutMsg::Other),
    }
}

} // verus!
