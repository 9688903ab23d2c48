use vstd::prelude::*;
use crate::contract::{
    deactivate_spec,
    funds_spec,
    memo_text,
    receive_spec,
    remaining_time,
    withdraw_post,
    withdraw_spec,
};
use crate::error::ContractError;
use crate::msg::{HandleResponse, QueryAnswer};
use crate::outbound::{is_token_call, transfer_payload};
use crate::state::{follows, Env, State, BLOCK_SIZE};

verus! {

/// The sum of a run of deposits.
pub open spec fn total(amounts: Seq<u128>) -> int
    decreases amounts.len(),
{
    if amounts.len() == 0 {
        0
    } else {
        total(amounts.drop_last()) + amounts.last()
    }
}

/// The record after the token has reported the deposits `amounts` one after
/// another, or the first refusal.
pub open spec fn after_deposits(s: State, amounts: Seq<u128>) -> Result<State, ContractError>
    decreases amounts.len(),
{
    if amounts.len() == 0 {
        Ok(s)
    } else {
        match after_deposits(s, amounts.drop_last()) {
            Ok(mid) => receive_spec(mid, s.snip20.address@, amounts.last()),
            Err(e) => Err(e),
        }
    }
}

/// A deposit from anybody but the configured token is refused as coming from
/// an unauthorised source, whatever the amount and whatever the record holds.
pub proof fn deposit_needs_token(s: State, source: Seq<char>, amount: u128)
    requires
        source != s.snip20.address@,
    ensures
        receive_spec(s, source, amount) == Err::<State, ContractError>(
            ContractError::UnauthorizedSource,
        ),
{
}

/// A run of deposits succeeds as a whole exactly if it is empty, or the funds
/// were not paid out and the balance with all of them fits in 128 bits. The
/// balance then has grown by their sum, and nothing else has changed.
pub proof fn deposits_add_up(s: State, amounts: Seq<u128>)
    ensures
        total(amounts) >= 0,
        after_deposits(s, amounts) is Ok <==> (amounts.len() == 0 || (!s.withdrawn && s.amount
            + total(amounts) <= u128::MAX)),
        after_deposits(s, amounts) matches Ok(end) ==> end == (State {
            amount: (s.amount + total(amounts)) as u128,
            ..s
        }),
    decreases amounts.len(),
{
    if amounts.len() > 0 {
        let front = amounts.drop_last();
        deposits_add_up(s, front);
        assert(total(amounts) == total(front) + amounts.last());
        if front.len() == 0 {
            assert(total(front) == 0);
            assert(after_deposits(s, front) == Ok::<State, ContractError>(s));
        }
    }
}

/// A withdrawal is allowed exactly if the box is active, the caller is the
/// owner, nothing was paid out yet and the unlock time has come. Otherwise
/// the first of these that fails, in this order, names the refusal.
pub proof fn withdrawal_conditions(s: State, caller: Seq<char>, now: u64)
    ensures
        withdraw_spec(s, caller, now) is Ok <==> (s.active && caller == s.owner@ && !s.withdrawn
            && now >= s.withdraw_time),
        withdraw_spec(s, caller, now) matches Ok(next) ==> next == (State { withdrawn: true, ..s }),
        !s.active ==> withdraw_spec(s, caller, now) == Err::<State, ContractError>(
            ContractError::Inactive,
        ),
        s.active && caller != s.owner@ ==> withdraw_spec(s, caller, now) == Err::<
            State,
            ContractError,
        >(ContractError::NotOwner),
        s.active && caller == s.owner@ && s.withdrawn ==> withdraw_spec(s, caller, now) == Err::<
            State,
            ContractError,
        >(ContractError::AlreadyWithdrawn),
        s.active && caller == s.owner@ && !s.withdrawn && now < s.withdraw_time ==> withdraw_spec(
            s,
            caller,
            now,
        ) == Err::<State, ContractError>(ContractError::TimeLockNotExpired),
{
}

/// A withdrawal call succeeds exactly if the box is active, the caller is the
/// owner, nothing was paid out yet and the unlock time has come. It then
/// marks the funds as paid out, changes nothing else and hands back one
/// message, the transfer of the whole balance to the caller; in every other
/// case the record stays as it was.
pub proof fn withdrawal_is_owed(
    before: State,
    env: Env,
    after: State,
    r: Result<HandleResponse, ContractError>,
)
    requires
        withdraw_post(before, env, after, r),
    ensures
        r is Ok <==> (before.active && env.sender@ == before.owner@ && !before.withdrawn
            && env.block_time >= before.withdraw_time),
        r is Ok ==> after == (State { withdrawn: true, ..before }) && r.unwrap().messages@.len()
            == 1 && is_token_call(
            r.unwrap().messages@[0],
            before.snip20,
            transfer_payload(env.sender@, before.amount, memo_text(), BLOCK_SIZE),
        ),
        r is Err ==> after == before,
{
}

/// Once a withdrawal has succeeded, no later one does, whoever asks and
/// whenever. Asked by the owner it is refused as already withdrawn.
pub proof fn no_second_withdrawal(
    s: State,
    caller: Seq<char>,
    now: u64,
    later_caller: Seq<char>,
    later: u64,
)
    requires
        withdraw_spec(s, caller, now) is Ok,
    ensures
        withdraw_spec(withdraw_spec(s, caller, now).unwrap(), later_caller, later) is Err,
        later_caller == s.owner@ ==> withdraw_spec(
            withdraw_spec(s, caller, now).unwrap(),
            later_caller,
            later,
        ) == Err::<State, ContractError>(ContractError::AlreadyWithdrawn),
{
}

/// Once the funds were paid out, no deposit is taken any more.
pub proof fn no_deposit_after_withdrawal(s: State, source: Seq<char>, amount: u128)
    requires
        s.withdrawn,
    ensures
        receive_spec(s, source, amount) is Err,
{
}

/// A deactivation is allowed exactly if the box is active, the caller is the
/// owner and the funds were paid out. While they are still held it is always
/// refused, and asked by the owner it is refused as not withdrawn yet.
pub proof fn deactivation_conditions(s: State, caller: Seq<char>)
    requires
        s.wf(),
    ensures
        deactivate_spec(s, caller) is Ok <==> (s.active && caller == s.owner@ && s.withdrawn),
        deactivate_spec(s, caller) matches Ok(next) ==> next == (State { active: false, ..s }),
        !s.withdrawn ==> deactivate_spec(s, caller) is Err,
        !s.withdrawn && caller == s.owner@ ==> deactivate_spec(s, caller) == Err::<
            State,
            ContractError,
        >(ContractError::NotWithdrawnYet),
        s.active && caller != s.owner@ ==> deactivate_spec(s, caller) == Err::<
            State,
            ContractError,
        >(ContractError::Unauthorized),
        !s.active ==> deactivate_spec(s, caller) == Err::<State, ContractError>(
            ContractError::Inactive,
        ),
{
}

/// On a deactivated box every handler call is refused.
pub proof fn deactivated_box_is_closed(s: State, caller: Seq<char>, now: u64)
    requires
        s.wf(),
        !s.active,
    ensures
        withdraw_spec(s, caller, now) is Err,
        deactivate_spec(s, caller) is Err,
        forall|amount: u128| #[trigger] receive_spec(s, caller, amount) is Err,
{
}

/// Every successful handler call keeps the record well formed and moves it
/// only forward.
pub proof fn handlers_move_forward(s: State, caller: Seq<char>, now: u64, amount: u128)
    requires
        s.wf(),
    ensures
        receive_spec(s, caller, amount) matches Ok(next) ==> next.wf() && follows(s, next),
        withdraw_spec(s, caller, now) matches Ok(next) ==> next.wf() && follows(s, next),
        deactivate_spec(s, caller) matches Ok(next) ==> next.wf() && follows(s, next),
{
}

/// A query by anybody but the owner gets the one generic refusal, whatever
/// the registry says of the viewing key.
pub proof fn query_needs_owner(s: State, address: Seq<char>, block_time: u64, verdict: Option<bool>)
    requires
        address != s.owner@,
    ensures
        funds_spec(s, address, block_time, verdict) == Err::<QueryAnswer, ContractError>(
            ContractError::InvalidCredentialOrAddress,
        ),
{
}

/// A query by the owner with a viewing key that the registry did not vouch
/// for gets the very refusal that a stranger gets.
pub proof fn refusals_are_indistinguishable(
    s: State,
    stranger: Seq<char>,
    block_time: u64,
    verdict: Option<bool>,
    stranger_verdict: Option<bool>,
    stranger_time: u64,
)
    requires
        stranger != s.owner@,
        verdict != Some(true),
    ensures
        funds_spec(s, s.owner@, block_time, verdict) == funds_spec(
            s,
            stranger,
            stranger_time,
            stranger_verdict,
        ),
        funds_spec(s, s.owner@, block_time, verdict) == Err::<QueryAnswer, ContractError>(
            ContractError::InvalidCredentialOrAddress,
        ),
{
}

/// The remaining wait never grows as the clock advances, is zero from the
/// unlock time on and only then, and a query reports the funds as ready
/// exactly when it reports no wait.
pub proof fn remaining_time_runs_down(s: State, earlier: u64, later: u64)
    requires
        earlier <= later,
    ensures
        remaining_time(s.withdraw_time, later) <= remaining_time(s.withdraw_time, earlier),
        remaining_time(s.withdraw_time, later) == 0 <==> later >= s.withdraw_time,
        later < s.withdraw_time ==> remaining_time(s.withdraw_time, later) == s.withdraw_time
            - later,
        funds_spec(s, s.owner@, later, Some(true)) matches Ok(
            QueryAnswer::FundsStatus { can_withdraw, remaining_time: wait, .. },
        ) && (can_withdraw <==> wait == 0) && wait == remaining_time(s.withdraw_time, later),
{
}

} // verus!
