use timebox::contract::{
    complete_init, complete_withdraw, enforce_active, handle, init, try_deactivate, try_receive,
    try_withdraw,
};
use timebox::error::ContractError;
use timebox::msg::{ContractInfo, HandleMsg, InitMsg, OutMsg};
use timebox::state::{Env, State, BLOCK_SIZE};

fn info(code_hash: &str, address: &str) -> ContractInfo {
    ContractInfo { code_hash: code_hash.to_string(), address: address.to_string() }
}

fn env(sender: &str, block_time: u64) -> Env {
    Env {
        sender: sender.to_string(),
        block_time,
        contract_address: "box".to_string(),
        contract_code_hash: "boxhash".to_string(),
    }
}

fn init_msg(unlock: u64) -> InitMsg {
    InitMsg {
        factory: info("registryhash", "registry"),
        label: "first".to_string(),
        password: [7u8; 32],
        description: Some("savings".to_string()),
        owner: "owner".to_string(),
        snip20: info("tokenhash", "token"),
        withdraw_time: unlock,
    }
}

fn fresh(unlock: u64) -> State {
    init(env("creator", 1), init_msg(unlock)).unwrap().0
}

fn padded(text: &str) -> Vec<u8> {
    let mut bytes = text.as_bytes().to_vec();
    while bytes.len() % 256 != 0 {
        bytes.push(b' ');
    }
    bytes
}

fn deposit(state: &mut State, source: &str, amount: u128) -> Result<(), ContractError> {
    try_receive(state, env(source, 5), "payer".to_string(), "payer".to_string(), amount, None)
        .map(|_| ())
}

#[test]
fn init_builds_record_and_two_messages() {
    let (state, response) = init(env("creator", 1), init_msg(1000)).unwrap();
    let expected = State {
        factory: info("registryhash", "registry"),
        label: "first".to_string(),
        active: true,
        password: [7u8; 32],
        offspring_addr: "box".to_string(),
        description: Some("savings".to_string()),
        snip20: info("tokenhash", "token"),
        owner: "owner".to_string(),
        withdraw_time: 1000,
        withdrawn: false,
        amount: 0,
    };
    assert_eq!(state, expected);
    assert_eq!(response.messages.len(), 2);
    assert_eq!(
        response.messages[0],
        OutMsg::RegisterOffspring {
            registry: info("registryhash", "registry"),
            owner: "owner".to_string(),
            label: "first".to_string(),
            password: [7u8; 32],
        }
    );
    assert_eq!(
        response.messages[1],
        OutMsg::Execute {
            contract_addr: "token".to_string(),
            code_hash: "tokenhash".to_string(),
            payload: padded("{\"register_receive\":{\"code_hash\":\"boxhash\",\"padding\":null}}"),
        }
    );
}

#[test]
fn init_accepts_unlock_time_in_the_past() {
    let mut state = fresh(0);
    assert_eq!(state.withdraw_time, 0);
    assert!(try_withdraw(&mut state, env("owner", 0)).is_ok());
}

#[test]
fn complete_init_reports_encoding_failure() {
    let failed = Err(secret_cosmwasm_std::StdError::generic_err("no encoding"));
    let outcome = complete_init(env("creator", 1), init_msg(10), failed);
    assert_eq!(
        outcome,
        Err(ContractError::MessageEncoding(secret_cosmwasm_std::StdError::generic_err(
            "no encoding"
        )))
    );
    assert_ne!(
        outcome,
        Err(ContractError::MessageEncoding(secret_cosmwasm_std::StdError::generic_err("other")))
    );
}

#[test]
fn complete_init_keeps_the_built_message_second() {
    let (state, response) =
        complete_init(env("creator", 1), init_msg(10), Ok(OutMsg::Other)).unwrap();
    assert!(state.active && !state.withdrawn && state.amount == 0);
    assert_eq!(response.messages.len(), 2);
    assert_eq!(response.messages[1], OutMsg::Other);
}

#[test]
fn deposit_from_another_source_is_rejected() {
    let mut state = fresh(1000);
    assert_eq!(deposit(&mut state, "token", 40), Ok(()));
    let before = state.clone();
    assert_eq!(deposit(&mut state, "owner", 10), Err(ContractError::UnauthorizedSource));
    assert_eq!(deposit(&mut state, "tokem", 10), Err(ContractError::UnauthorizedSource));
    assert_eq!(deposit(&mut state, "", u128::MAX), Err(ContractError::UnauthorizedSource));
    assert_eq!(state, before);
    assert_eq!(state.amount, 40);
}

#[test]
fn deposits_add_up() {
    let mut state = fresh(1000);
    let amounts: [u128; 5] = [1, 0, 500, 300, 1 << 100];
    let mut sum: u128 = 0;
    for a in amounts.iter() {
        assert_eq!(deposit(&mut state, "token", *a), Ok(()));
        sum += *a;
        assert_eq!(state.amount, sum);
    }
    assert_eq!(state.amount, 801 + (1u128 << 100));
}

#[test]
fn deposit_returns_no_messages() {
    let mut state = fresh(1000);
    let response = try_receive(
        &mut state,
        env("token", 5),
        "a".to_string(),
        "b".to_string(),
        9,
        Some(vec![1, 2, 3]),
    )
    .unwrap();
    assert!(response.messages.is_empty());
    assert_eq!(state.amount, 9);
}

#[test]
fn deposit_overflow_is_refused() {
    let mut state = fresh(1000);
    assert_eq!(deposit(&mut state, "token", u128::MAX - 1), Ok(()));
    let before = state.clone();
    assert_eq!(deposit(&mut state, "token", 2), Err(ContractError::Overflow));
    assert_eq!(state, before);
    assert_eq!(deposit(&mut state, "token", 1), Ok(()));
    assert_eq!(state.amount, u128::MAX);
}

#[test]
fn deposit_after_withdrawal_is_refused() {
    let mut state = fresh(10);
    assert_eq!(deposit(&mut state, "token", 5), Ok(()));
    assert!(try_withdraw(&mut state, env("owner", 10)).is_ok());
    let before = state.clone();
    assert_eq!(deposit(&mut state, "token", 5), Err(ContractError::AlreadyWithdrawn));
    assert_eq!(deposit(&mut state, "thief", 5), Err(ContractError::UnauthorizedSource));
    assert_eq!(state, before);
}

#[test]
fn withdrawal_checks_come_in_order() {
    let mut state = fresh(1000);
    assert_eq!(deposit(&mut state, "token", 800), Ok(()));
    let before = state.clone();
    assert_eq!(try_withdraw(&mut state, env("thief", 2000)), Err(ContractError::NotOwner));
    assert_eq!(try_withdraw(&mut state, env("thief", 1)), Err(ContractError::NotOwner));
    assert_eq!(
        try_withdraw(&mut state, env("owner", 999)),
        Err(ContractError::TimeLockNotExpired)
    );
    assert_eq!(state, before);

    let mut inactive = before.clone();
    inactive.active = false;
    inactive.withdrawn = true;
    let frozen = inactive.clone();
    assert_eq!(try_withdraw(&mut inactive, env("thief", 1)), Err(ContractError::Inactive));
    assert_eq!(try_withdraw(&mut inactive, env("owner", 2000)), Err(ContractError::Inactive));
    assert_eq!(inactive, frozen);
}

#[test]
fn withdrawal_sends_the_whole_balance_to_the_owner() {
    let mut state = fresh(1000);
    assert_eq!(deposit(&mut state, "token", 800), Ok(()));
    let before = state.clone();
    let response = try_withdraw(&mut state, env("owner", 1000)).unwrap();
    let mut expected = before;
    expected.withdrawn = true;
    assert_eq!(state, expected);
    assert_eq!(state.amount, 800);
    assert_eq!(
        response.messages,
        vec![OutMsg::Execute {
            contract_addr: "token".to_string(),
            code_hash: "tokenhash".to_string(),
            payload: padded(
                "{\"transfer\":{\"recipient\":\"owner\",\"amount\":\"800\",\"memo\":\"Time box withdrawal\",\"padding\":null}}"
            ),
        }]
    );
    match &response.messages[0] {
        OutMsg::Execute { payload, .. } => {
            assert_eq!(payload.len(), 256);
            assert_eq!(payload.len() % BLOCK_SIZE, 0);
        }
        other => panic!("unexpected message {:?}", other),
    }
}

#[test]
fn second_withdrawal_is_refused() {
    let mut state = fresh(1000);
    assert!(try_withdraw(&mut state, env("owner", 1000)).is_ok());
    let before = state.clone();
    assert_eq!(
        try_withdraw(&mut state, env("owner", 1000)),
        Err(ContractError::AlreadyWithdrawn)
    );
    assert_eq!(try_withdraw(&mut state, env("owner", 0)), Err(ContractError::AlreadyWithdrawn));
    assert_eq!(
        try_withdraw(&mut state, env("owner", u64::MAX)),
        Err(ContractError::AlreadyWithdrawn)
    );
    assert_eq!(try_withdraw(&mut state, env("thief", 5000)), Err(ContractError::NotOwner));
    assert_eq!(state, before);
}

#[test]
fn complete_withdraw_follows_the_encoding_outcome() {
    let mut state = fresh(10);
    let before = state.clone();
    let failed = Err(secret_cosmwasm_std::StdError::generic_err("no encoding"));
    assert_eq!(
        complete_withdraw(&mut state, failed),
        Err(ContractError::MessageEncoding(secret_cosmwasm_std::StdError::generic_err(
            "no encoding"
        )))
    );
    assert_eq!(state, before);

    let response = complete_withdraw(&mut state, Ok(OutMsg::Other)).unwrap();
    assert_eq!(response.messages, vec![OutMsg::Other]);
    assert!(state.withdrawn);
    assert!(state.active);
    assert_eq!(state.amount, before.amount);
}

#[test]
fn deactivation_checks_come_in_order() {
    let mut state = fresh(1000);
    let before = state.clone();
    assert_eq!(try_deactivate(&mut state, env("thief", 1)), Err(ContractError::Unauthorized));
    assert_eq!(try_deactivate(&mut state, env("owner", 1)), Err(ContractError::NotWithdrawnYet));
    assert_eq!(
        try_deactivate(&mut state, env("owner", 5000)),
        Err(ContractError::NotWithdrawnYet)
    );
    assert_eq!(state, before);

    assert!(try_withdraw(&mut state, env("owner", 1000)).is_ok());
    assert_eq!(try_deactivate(&mut state, env("thief", 1)), Err(ContractError::Unauthorized));
    let response = try_deactivate(&mut state, env("owner", 1)).unwrap();
    assert_eq!(
        response.messages,
        vec![OutMsg::DeactivateOffspring {
            registry: info("registryhash", "registry"),
            owner: "owner".to_string(),
        }]
    );
    assert!(!state.active);
    assert!(state.withdrawn);

    let retired = state.clone();
    assert_eq!(try_deactivate(&mut state, env("owner", 1)), Err(ContractError::Inactive));
    assert_eq!(try_deactivate(&mut state, env("thief", 1)), Err(ContractError::Inactive));
    assert_eq!(deposit(&mut state, "token", 1), Err(ContractError::AlreadyWithdrawn));
    assert_eq!(state, retired);
}

#[test]
fn enforce_active_tells_active_from_retired() {
    let mut state = fresh(1);
    assert_eq!(enforce_active(&state), Ok(()));
    state.withdrawn = true;
    state.active = false;
    assert_eq!(enforce_active(&state), Err(ContractError::Inactive));
}

#[test]
fn handle_routes_each_call() {
    let mut state = fresh(1000);
    let receive = HandleMsg::Receive {
        sender: "payer".to_string(),
        from: "payer".to_string(),
        amount: 25,
        msg: None,
    };
    assert!(handle(&mut state, env("token", 1), receive.clone()).unwrap().messages.is_empty());
    assert_eq!(state.amount, 25);
    assert_eq!(
        handle(&mut state, env("owner", 1), receive),
        Err(ContractError::UnauthorizedSource)
    );
    assert_eq!(
        handle(&mut state, env("owner", 1), HandleMsg::Deactivate {}),
        Err(ContractError::NotWithdrawnYet)
    );
    assert_eq!(
        handle(&mut state, env("owner", 1), HandleMsg::Withdraw {}),
        Err(ContractError::TimeLockNotExpired)
    );
    assert_eq!(handle(&mut state, env("owner", 1000), HandleMsg::Withdraw {}).unwrap().messages.len(), 1);
    assert!(state.withdrawn);
    assert_eq!(
        handle(&mut state, env("owner", 1000), HandleMsg::Deactivate {}).unwrap().messages.len(),
        1
    );
    assert!(!state.active);
}

#[test]
fn full_life_of_a_box() {
    let mut state = fresh(1000);
    assert_eq!(deposit(&mut state, "token", 500), Ok(()));
    assert_eq!(state.amount, 500);
    assert_eq!(deposit(&mut state, "token", 300), Ok(()));
    assert_eq!(state.amount, 800);

    assert_eq!(
        try_withdraw(&mut state, env("owner", 999)),
        Err(ContractError::TimeLockNotExpired)
    );
    assert_eq!(state.amount, 800);
    assert!(!state.withdrawn);

    let paid = try_withdraw(&mut state, env("owner", 1000)).unwrap();
    assert!(state.withdrawn);
    assert_eq!(paid.messages.len(), 1);
    match &paid.messages[0] {
        OutMsg::Execute { contract_addr, code_hash, payload } => {
            assert_eq!(contract_addr, "token");
            assert_eq!(code_hash, "tokenhash");
            let text = String::from_utf8(payload.clone()).unwrap();
            assert!(text.starts_with(
                "{\"transfer\":{\"recipient\":\"owner\",\"amount\":\"800\","
            ));
        }
        other => panic!("unexpected message {:?}", other),
    }

    assert_eq!(
        try_withdraw(&mut state, env("owner", 1000)),
        Err(ContractError::AlreadyWithdrawn)
    );

    let retired = try_deactivate(&mut state, env("owner", 1000)).unwrap();
    assert!(!state.active);
    assert_eq!(
        retired.messages,
        vec![OutMsg::DeactivateOffspring {
            registry: info("registryhash", "registry"),
            owner: "owner".to_string(),
        }]
    );
    assert_eq!(state.amount, 800);
}

#[test]
fn error_texts() {
    assert_eq!(
        ContractError::UnauthorizedSource.message(),
        "Can only receive the SNIP20 registered in the contract"
    );
    assert_eq!(ContractError::AlreadyWithdrawn.message(), "Already withdrawn");
    assert_eq!(ContractError::NotOwner.message(), "Only the owner can withdraw");
    assert_eq!(ContractError::Unauthorized.message(), "Unauthorized");
    assert_eq!(ContractError::TimeLockNotExpired.message(), "Withdraw time has not passed");
    assert_eq!(ContractError::Inactive.message(), "This contract is inactive.");
    assert_eq!(
        ContractError::NotWithdrawnYet.message(),
        "Not withdrawn yet. For security reasons, you can only deactivate the contract after withdrawing"
    );
    assert_eq!(
        ContractError::InvalidCredentialOrAddress.message(),
        "This address does not have permission and/or viewing key is not valid"
    );
    assert_eq!(ContractError::Overflow.message(), "Deposit overflows the balance");
    assert_eq!(
        ContractError::MessageEncoding(secret_cosmwasm_std::StdError::unauthorized()).message(),
        "Outbound message could not be encoded"
    );
    assert_ne!(ContractError::NotOwner, ContractError::Unauthorized);
}

#[test]
fn init_succeeds_for_any_unlock_time() {
    for unlock in [0u64, 1, 999, u64::MAX] {
        let (state, response) = init(env("creator", 1_000_000), init_msg(unlock)).unwrap();
        assert_eq!(state.withdraw_time, unlock);
        assert!(state.active && !state.withdrawn && state.amount == 0);
        assert_eq!(response.messages.len(), 2);
    }
}

#[test]
fn messages_are_encoded_for_any_text() {
    let odd = "o\"w\\n\ne\tr\u{1}\u{1f}\u{e9}\u{4e16}\u{1F600}";
    let mut msg = init_msg(5);
    msg.owner = odd.to_string();
    msg.snip20 = info("hash \"quoted\"", "tok\u{0}en");
    let mut call = env("creator", 1);
    call.contract_code_hash = "\u{8}\u{c}\r{}[]:,".to_string();
    let (mut state, response) = init(call, msg).unwrap();
    match &response.messages[1] {
        OutMsg::Execute { contract_addr, code_hash, payload } => {
            assert_eq!(contract_addr, "tok\u{0}en");
            assert_eq!(code_hash, "hash \"quoted\"");
            assert!(!payload.is_empty());
            assert_eq!(payload.len() % 256, 0);
            let text = String::from_utf8(payload.clone()).unwrap();
            assert!(text.starts_with(
                "{\"register_receive\":{\"code_hash\":\"\\b\\f\\r{}[]:,\",\"padding\":null}}"
            ));
        }
        other => panic!("unexpected message {:?}", other),
    }
    assert_eq!(deposit(&mut state, "tok\u{0}en", u128::MAX), Ok(()));
    let paid = try_withdraw(&mut state, env(odd, 5)).unwrap();
    assert!(state.withdrawn);
    match &paid.messages[0] {
        OutMsg::Execute { payload, .. } => {
            assert_eq!(payload.len() % 256, 0);
            let text = String::from_utf8(payload.clone()).unwrap();
            assert!(text.starts_with(
                "{\"transfer\":{\"recipient\":\"o\\\"w\\\\n\\ne\\tr\\u0001\\u001F\u{e9}\u{4e16}\u{1F600}\",\"amount\":\"340282366920938463463374607431768211455\",\"memo\":\"Time box withdrawal\",\"padding\":null}}"
            ));
        }
        other => panic!("unexpected message {:?}", other),
    }
}

#[test]
fn long_texts_fill_several_blocks() {
    let long = "x".repeat(1000);
    let mut state = fresh(0);
    state.owner = long.clone();
    let paid = try_withdraw(&mut state, env(&long, 0)).unwrap();
    match &paid.messages[0] {
        OutMsg::Execute { payload, .. } => {
            assert_eq!(payload.len(), 1280);
        }
        other => panic!("unexpected message {:?}", other),
    }
}
