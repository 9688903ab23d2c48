use vstd::prelude::*;
use secret_cosmwasm_std::StdError;
use crate::error::ContractError;
use crate::msg::{
    HandleMsg,
    HandleResponse,
    InitMsg,
    InitResponse,
    KeyCheck,
    OutMsg,
    QueryAnswer,
    QueryMsg,
};
use crate::outbound::{
    is_padded,
    is_token_call,
    register_receive_payload,
    token_register_receive,
    token_transfer,
    transfer_payload,
};
use crate::state::{follows, Env, State, BLOCK_SIZE};

verus! {

// ------------------------------------------------------------------ model

/// The memo that tags the payout.
pub open spec fn memo_text() -> Seq<char> {
    "Time box withdrawal"@
}

/// The record of a box that was just created from `msg` at `contract_address`.
pub open spec fn initial_state(msg: InitMsg, contract_address: String) -> State {
    State {
        factory: msg.factory,
        label: msg.label,
        active: true,
        password: msg.password,
        offspring_addr: contract_address,
        description: msg.description,
        snip20: msg.snip20,
        owner: msg.owner,
        withdraw_time: msg.withdraw_time,
        withdrawn: false,
        amount: 0,
    }
}

/// The message that announces a box created from `msg` to its registry.
pub open spec fn registration(msg: InitMsg) -> OutMsg {
    OutMsg::RegisterOffspring {
        registry: msg.factory,
        owner: msg.owner,
        label: msg.label,
        password: msg.password,
    }
}

/// The message that tells the registry of `s` that the box is retired.
pub open spec fn deactivation(s: State) -> OutMsg {
    OutMsg::DeactivateOffspring { registry: s.factory, owner: s.owner }
}

/// A deposit notice of `amount` delivered by `source`: the record after it, or
/// the reason it is refused.
pub open spec fn receive_spec(s: State, source: Seq<char>, amount: u128) -> Result<
    State,
    ContractError,
> {
    if source != s.snip20.address@ {
        Err(ContractError::UnauthorizedSource)
    } else if s.withdrawn {
        Err(ContractError::AlreadyWithdrawn)
    } else if s.amount + amount > u128::MAX {
        Err(ContractError::Overflow)
    } else {
        Ok(State { amount: (s.amount + amount) as u128, ..s })
    }
}

/// A withdrawal asked for by `caller` at time `now`: the record after it, or
/// the reason it is refused.
pub open spec fn withdraw_spec(s: State, caller: Seq<char>, now: u64) -> Result<
    State,
    ContractError,
> {
    if !s.active {
        Err(ContractError::Inactive)
    } else if caller != s.owner@ {
        Err(ContractError::NotOwner)
    } else if s.withdrawn {
        Err(ContractError::AlreadyWithdrawn)
    } else if now < s.withdraw_time {
        Err(ContractError::TimeLockNotExpired)
    } else {
        Ok(State { withdrawn: true, ..s })
    }
}

/// A deactivation asked for by `caller`: the record after it, or the reason it
/// is refused.
pub open spec fn deactivate_spec(s: State, caller: Seq<char>) -> Result<State, ContractError> {
    if !s.active {
        Err(ContractError::Inactive)
    } else if caller != s.owner@ {
        Err(ContractError::Unauthorized)
    } else if !s.withdrawn {
        Err(ContractError::NotWithdrawnYet)
    } else {
        Ok(State { active: false, ..s })
    }
}

/// How long the funds stay locked when the clock shows `now`.
pub open spec fn remaining_time(unlock: u64, now: u64) -> u64 {
    if now >= unlock {
        0
    } else {
        (unlock - now) as u64
    }
}

/// The answer to a funds query by `address` at `block_time`, given what the
/// registry said of the viewing key: `Some(true)` if it vouched for the key,
/// `Some(false)` if it rejected it, `None` if it could not be asked.
pub open spec fn funds_spec(
    s: State,
    address: Seq<char>,
    block_time: u64,
    verdict: Option<bool>,
) -> Result<QueryAnswer, ContractError> {
    if address != s.owner@ || verdict != Some(true) {
        Err(ContractError::InvalidCredentialOrAddress)
    } else {
        Ok(
            QueryAnswer::FundsStatus {
                can_withdraw: remaining_time(s.withdraw_time, block_time) == 0,
                remaining_time: remaining_time(s.withdraw_time, block_time),
                withdrawn: s.withdrawn,
                amount: s.amount,
                snip20: s.snip20,
            },
        )
    }
}

/// What a deposit notice must leave behind.
pub open spec fn receive_post(
    before: State,
    env: Env,
    amount: u128,
    after: State,
    r: Result<HandleResponse, ContractError>,
) -> bool {
    match receive_spec(before, env.sender@, amount) {
        Ok(next) => r matches Ok(resp) && resp.messages@.len() == 0 && after == next,
        Err(e) => r matches Err(got) && got == e && after == before,
    }
}

/// What a withdrawal must leave behind: where the record allows the payout,
/// the funds are marked as paid out and the one message is the transfer of
/// the whole balance to the caller.
pub open spec fn withdraw_post(
    before: State,
    env: Env,
    after: State,
    r: Result<HandleResponse, ContractError>,
) -> bool {
    match withdraw_spec(before, env.sender@, env.block_time) {
        Ok(next) => {
            &&& r matches Ok(resp) && resp.messages@.len() == 1 && is_token_call(
                resp.messages@[0],
                before.snip20,
                transfer_payload(env.sender@, before.amount, memo_text(), BLOCK_SIZE),
            ) && is_padded(resp.messages@[0], BLOCK_SIZE)
            &&& after == next
        },
        Err(e) => r matches Err(got) && got == e && after == before,
    }
}

/// What a deactivation must leave behind.
pub open spec fn deactivate_post(
    before: State,
    env: Env,
    after: State,
    r: Result<HandleResponse, ContractError>,
) -> bool {
    match deactivate_spec(before, env.sender@) {
        Ok(next) => r matches Ok(resp) && resp.messages@ == seq![deactivation(before)] && after
            == next,
        Err(e) => r matches Err(got) && got == e && after == before,
    }
}

// ------------------------------------------------------------------- init

/// Finishes initialisation with the outcome of encoding the token
/// registration: the fresh record and the two messages, registry first, or
/// `MessageEncoding` with the encoder's error if the encoding failed.
pub fn complete_init(env: Env, msg: InitMsg, built: Result<OutMsg, StdError>) -> (r: Result<
    (State, InitResponse),
    ContractError,
>)
    ensures
        match built {
            Ok(m) => r matches Ok((state, resp)) && state == initial_state(
                msg,
                env.contract_address,
            ) && resp.messages@ == seq![registration(msg), m],
            Err(cause) => r matches Err(e) && e == ContractError::MessageEncoding(cause),
        },
{
    match built {
        Ok(register_token) => {
            let register_box = OutMsg::RegisterOffspring {
                registry: msg.factory.duplicate(),
                owner: msg.owner.clone(),
                label: msg.label.clone(),
                password: msg.password,
            };
            let state = State {
                factory: msg.factory,
                label: msg.label,
                active: true,
                password: msg.password,
                offspring_addr: env.contract_address,
                description: msg.description,
                snip20: msg.snip20,
                owner: msg.owner,
                withdraw_time: msg.withdraw_time,
                withdrawn: false,
                amount: 0,
            };
            let mut messages: Vec<OutMsg> = Vec::new();
            messages.push(register_box);
            messages.push(register_token);
            Ok((state, InitResponse { messages }))
        },
        Err(cause) => Err(ContractError::MessageEncoding(cause)),
    }
}

/// Creates the record of a new box: active, nothing withdrawn, balance zero.
/// Hands back the record to persist and two messages: the registration with
/// the registry, then the request that the token report deposits to this box.
/// It succeeds on every input; the unlock time is taken as it is, past or
/// future.
pub fn init(env: Env, msg: InitMsg) -> (r: Result<(State, InitResponse), ContractError>)
    ensures
        r matches Ok((state, resp)) && state == initial_state(msg, env.contract_address)
            && state.wf() && resp.messages@.len() == 2 && resp.messages@[0] == registration(msg)
            && is_token_call(
            resp.messages@[1],
            msg.snip20,
            register_receive_payload(env.contract_code_hash@, BLOCK_SIZE),
        ) && is_padded(resp.messages@[1], BLOCK_SIZE),
{
    let built = token_register_receive(&env.contract_code_hash, BLOCK_SIZE, &msg.snip20);
    complete_init(env, msg, built)
}

// ----------------------------------------------------------------- handle

/// Routes a call to its handler.
pub fn handle(state: &mut State, env: Env, msg: HandleMsg) -> (r: Result<
    HandleResponse,
    ContractError,
>)
    ensures
        match msg {
            HandleMsg::Receive { amount, .. } => receive_post(
                *old(state),
                env,
                amount,
                *final(state),
                r,
            ),
            HandleMsg::Deactivate {  } => deactivate_post(*old(state), env, *final(state), r),
            HandleMsg::Withdraw {  } => withdraw_post(*old(state), env, *final(state), r),
        },
        r is Err ==> *final(state) == *old(state),
        follows(*old(state), *final(state)),
        old(state).wf() ==> final(state).wf(),
{
    match msg {
        HandleMsg::Receive { sender, from, amount, msg } => try_receive(
            state,
            env,
            sender,
            from,
            amount,
            msg,
        ),
        HandleMsg::Deactivate {  } => try_deactivate(state, env),
        HandleMsg::Withdraw {  } => try_withdraw(state, env),
    }
}

/// Books a deposit. Only the configured token may report one, and none is
/// taken once the funds were paid out. The notice's claimed sender, origin
/// and payload are not looked at.
pub fn try_receive(
    state: &mut State,
    env: Env,
    _sender: String,
    _from: String,
    amount: u128,
    _msg: Option<Vec<u8>>,
) -> (r: Result<HandleResponse, ContractError>)
    ensures
        receive_post(*old(state), env, amount, *final(state), r),
        follows(*old(state), *final(state)),
        old(state).wf() ==> final(state).wf(),
{
    if !(env.sender == state.snip20.address) {
        return Err(ContractError::UnauthorizedSource);
    }
    if state.withdrawn {
        return Err(ContractError::AlreadyWithdrawn);
    }
    match state.amount.checked_add(amount) {
        Some(total) => {
            state.amount = total;
            Ok(HandleResponse { messages: Vec::new() })
        },
        None => Err(ContractError::Overflow),
    }
}

/// Finishes a withdrawal that the record allows with the outcome of encoding
/// the transfer: marks the funds as paid out and hands the transfer back, or
/// fails with `MessageEncoding`, which carries the encoder's error, and
/// changes nothing.
pub fn complete_withdraw(state: &mut State, built: Result<OutMsg, StdError>) -> (r: Result<
    HandleResponse,
    ContractError,
>)
    ensures
        match built {
            Ok(m) => r matches Ok(resp) && resp.messages@ == seq![m] && *final(state) == (State {
                withdrawn: true,
                ..*old(state)
            }),
            Err(cause) => r matches Err(e) && e == ContractError::MessageEncoding(cause)
                && *final(state) == *old(state),
        },
{
    match built {
        Ok(transfer) => {
            state.withdrawn = true;
            let mut messages: Vec<OutMsg> = Vec::new();
            messages.push(transfer);
            Ok(HandleResponse { messages })
        },
        Err(cause) => Err(ContractError::MessageEncoding(cause)),
    }
}

/// Pays the whole balance out to the owner, once, from the unlock time on.
/// The balance on record stays as it was.
pub fn try_withdraw(state: &mut State, env: Env) -> (r: Result<HandleResponse, ContractError>)
    ensures
        withdraw_post(*old(state), env, *final(state), r),
        r is Ok <==> old(state).active && env.sender@ == old(state).owner@ && !old(
            state,
        ).withdrawn && env.block_time >= old(state).withdraw_time,
        follows(*old(state), *final(state)),
        old(state).wf() ==> final(state).wf(),
{
    match enforce_active(state) {
        Err(e) => {
            return Err(e);
        },
        Ok(_) => {},
    }
    if !(env.sender == state.owner) {
        return Err(ContractError::NotOwner);
    }
    if state.withdrawn {
        return Err(ContractError::AlreadyWithdrawn);
    }
    if env.block_time < state.withdraw_time {
        return Err(ContractError::TimeLockNotExpired);
    }
    let memo = "Time box withdrawal".to_owned();
    let built = token_transfer(&env.sender, state.amount, &memo, BLOCK_SIZE, &state.snip20);
    complete_withdraw(state, built)
}

/// Retires the box from its registry. Only the owner may, and only after the
/// funds were paid out.
pub fn try_deactivate(state: &mut State, env: Env) -> (r: Result<HandleResponse, ContractError>)
    ensures
        deactivate_post(*old(state), env, *final(state), r),
        follows(*old(state), *final(state)),
        old(state).wf() ==> final(state).wf(),
{
    match enforce_active(state) {
        Err(e) => {
            return Err(e);
        },
        Ok(_) => {},
    }
    if !(env.sender == state.owner) {
        return Err(ContractError::Unauthorized);
    }
    if !state.withdrawn {
        return Err(ContractError::NotWithdrawnYet);
    }
    let notice = OutMsg::DeactivateOffspring {
        registry: state.factory.duplicate(),
        owner: state.owner.clone(),
    };
    state.active = false;
    let mut messages: Vec<OutMsg> = Vec::new();
    messages.push(notice);
    Ok(HandleResponse { messages })
}

/// Refuses every call on a deactivated box.
pub fn enforce_active(state: &State) -> (r: Result<(), ContractError>)
    ensures
        r == (if state.active {
            Ok::<(), ContractError>(())
        } else {
            Err::<(), ContractError>(ContractError::Inactive)
        }),
{
    if state.active {
        Ok(())
    } else {
        Err(ContractError::Inactive)
    }
}

// ------------------------------------------------------------------ query

/// What to ask the registry before a funds query by `address` is answered:
/// nothing if `address` is not the owner, since the query then fails whatever
/// the registry would say.
pub fn key_check_for(state: &State, address: &String, viewing_key: &String) -> (ask: Option<
    KeyCheck,
>)
    ensures
        ask is Some <==> address@ == state.owner@,
        ask matches Some(check) ==> check.registry == state.factory && check.address == *address
            && check.viewing_key == *viewing_key,
{
    if *address == state.owner {
        Some(
            KeyCheck {
                registry: state.factory.duplicate(),
                address: address.clone(),
                viewing_key: viewing_key.clone(),
            },
        )
    } else {
        None
    }
}

/// Accepts a viewing key only if the registry vouched for it. A rejection and
/// a registry that could not be asked give the same refusal.
pub fn enforce_valid_viewing_key(verdict: Option<bool>) -> (r: Result<(), ContractError>)
    ensures
        r == (if verdict == Some(true) {
            Ok::<(), ContractError>(())
        } else {
            Err::<(), ContractError>(ContractError::InvalidCredentialOrAddress)
        }),
{
    match verdict {
        Some(true) => Ok(()),
        _ => Err(ContractError::InvalidCredentialOrAddress),
    }
}

/// The status of the funds as of `block_time`, for the owner with a viewing
/// key that the registry vouched for. Everybody else gets one and the same
/// refusal.
pub fn query_funds(state: &State, address: &String, block_time: u64, verdict: Option<bool>) -> (r:
    Result<QueryAnswer, ContractError>)
    ensures
        r == funds_spec(*state, address@, block_time, verdict),
{
    if state.owner == *address {
        match enforce_valid_viewing_key(verdict) {
            Err(e) => {
                return Err(e);
            },
            Ok(_) => {},
        }
        let remaining_time: u64 = if block_time > state.withdraw_time {
            0
        } else {
            state.withdraw_time - block_time
        };
        let can_withdraw = remaining_time == 0;
        Ok(
            QueryAnswer::FundsStatus {
                can_withdraw,
                remaining_time,
                withdrawn: state.withdrawn,
                amount: state.amount,
                snip20: state.snip20.duplicate(),
            },
        )
    } else {
        Err(ContractError::InvalidCredentialOrAddress)
    }
}

/// Answers a query, given what the registry said of its viewing key.
pub fn query(state: &State, msg: QueryMsg, verdict: Option<bool>) -> (r: Result<
    QueryAnswer,
    ContractError,
>)
    ensures
        match msg {
            QueryMsg::GetFunds { address, block_time, .. } => r == funds_spec(
                *state,
                address@,
                block_time,
                verdict,
            ),
        },
{
    match msg {
        QueryMsg::GetFunds { address, viewing_key: _, block_time } => query_funds(
            state,
            &address,
            block_time,
            verdict,
        ),
    }
}

} // verus!
