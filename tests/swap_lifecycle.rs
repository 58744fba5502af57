use atomic_swap::contract::{
    execute, execute_initiate_swap, execute_refund, execute_withdraw, instantiate, query,
    query_is_refundable, query_is_withdrawable, query_swap, query_user_swaps, sent_amount,
    withdraw_with_hash, MAXIMUM_TIMELOCK, MINIMUM_TIMELOCK,
};
use atomic_swap::error::ContractError;
use atomic_swap::hash::{preimage_hash, swap_id, swap_id_preimage};
use atomic_swap::msg::{
    Coin, Env, ExecuteMsg, InstantiateMsg, MessageInfo, QueryMsg, QueryResponse, Response,
};
use atomic_swap::state::SwapStore;
use sha2::{Digest, Sha256};

const NOW: u64 = 1_000_000;

fn env(t: u64) -> Env {
    Env { block_time: t }
}

fn info(sender: &str, funds: Vec<(&str, u128)>) -> MessageInfo {
    MessageInfo {
        sender: sender.to_string(),
        funds: funds
            .into_iter()
            .map(|(d, a)| Coin { denom: d.to_string(), amount: a })
            .collect(),
    }
}

fn hex_sha256(s: &str) -> String {
    Sha256::digest(s.as_bytes())
        .iter()
        .map(|b| format!("{:02x}", b))
        .collect()
}

fn attr(resp: &Response, key: &str) -> String {
    resp.attributes
        .iter()
        .find(|a| a.key == key)
        .map(|a| a.value.clone())
        .unwrap()
}

/// Initiates the standard swap: 100 atom from alice to bob, locked by "secret".
fn initiate_standard(store: &mut SwapStore, timelock: u64) -> Result<Response, ContractError> {
    execute_initiate_swap(
        store,
        &env(NOW),
        &info("alice", vec![("atom", 100)]),
        hex_sha256("secret"),
        timelock,
        "bob".to_string(),
        Some("bob".to_string()),
        "atom".to_string(),
        100,
    )
}

fn standard_id(timelock: u64) -> String {
    swap_id("alice", "bob", "atom", 100, &hex_sha256("secret"), timelock, NOW)
}

#[test]
fn scenario_receiver_withdraws_before_deadline() {
    let mut store = SwapStore::new();
    let resp = initiate_standard(&mut store, NOW + 7200).unwrap();
    let id = attr(&resp, "swap_id");
    assert_eq!(id, standard_id(NOW + 7200));
    let resp = execute_withdraw(
        &mut store,
        &env(NOW + 100),
        &info("bob", vec![]),
        id.clone(),
        "secret".to_string(),
    )
    .unwrap();
    assert_eq!(resp.messages.len(), 1);
    assert_eq!(resp.messages[0].to_address, "bob");
    assert_eq!(resp.messages[0].denom, "atom");
    assert_eq!(resp.messages[0].amount, 100);
    assert_eq!(attr(&resp, "method"), "withdraw");
    assert_eq!(attr(&resp, "preimage"), "secret");
    let swap = query_swap(&store, id).unwrap();
    assert!(swap.withdrawn);
    assert!(!swap.refunded);
    assert_eq!(swap.preimage, Some("secret".to_string()));
}

#[test]
fn scenario_sender_refunds_after_deadline() {
    let mut store = SwapStore::new();
    let resp = initiate_standard(&mut store, NOW + 7200).unwrap();
    let id = attr(&resp, "swap_id");
    let resp = execute_refund(&mut store, &env(NOW + 7200), &info("alice", vec![]), id.clone())
        .unwrap();
    assert_eq!(resp.messages.len(), 1);
    assert_eq!(resp.messages[0].to_address, "alice");
    assert_eq!(resp.messages[0].denom, "atom");
    assert_eq!(resp.messages[0].amount, 100);
    assert_eq!(attr(&resp, "method"), "refund");
    assert_eq!(attr(&resp, "sender"), "alice");
    let swap = query_swap(&store, id).unwrap();
    assert!(swap.refunded);
    assert!(!swap.withdrawn);
    assert_eq!(swap.preimage, None);
}

#[test]
fn initiate_stores_pending_swap_and_indexes_both_parties() {
    let mut store = SwapStore::new();
    let resp = initiate_standard(&mut store, NOW + 7200).unwrap();
    assert!(resp.messages.is_empty());
    assert_eq!(attr(&resp, "method"), "initiate_swap");
    assert_eq!(attr(&resp, "sender"), "alice");
    assert_eq!(attr(&resp, "receiver"), "bob");
    assert_eq!(attr(&resp, "amount"), "100");
    assert_eq!(attr(&resp, "denom"), "atom");
    let id = attr(&resp, "swap_id");
    let swap = query_swap(&store, id.clone()).unwrap();
    assert!(!swap.withdrawn && !swap.refunded && swap.preimage.is_none());
    assert_eq!(swap.sender, "alice");
    assert_eq!(swap.receiver, "bob");
    assert_eq!(swap.amount, 100);
    assert_eq!(swap.timelock, NOW + 7200);
    assert_eq!(swap.hashlock, hex_sha256("secret"));
    assert_eq!(query_user_swaps(&store, "alice".to_string()).swaps, vec![id.clone()]);
    assert_eq!(query_user_swaps(&store, "bob".to_string()).swaps, vec![id]);
    assert!(query_user_swaps(&store, "carol".to_string()).swaps.is_empty());
}

#[test]
fn self_swap_is_listed_twice() {
    let mut store = SwapStore::new();
    let resp = execute_initiate_swap(
        &mut store,
        &env(NOW),
        &info("alice", vec![("atom", 5)]),
        hex_sha256("x"),
        NOW + 4000,
        "alice".to_string(),
        Some("alice".to_string()),
        "atom".to_string(),
        5,
    )
    .unwrap();
    let id = attr(&resp, "swap_id");
    assert_eq!(query_user_swaps(&store, "alice".to_string()).swaps, vec![id.clone(), id]);
}

#[test]
fn user_index_keeps_creation_order() {
    let mut store = SwapStore::new();
    let first = attr(&initiate_standard(&mut store, NOW + 4000).unwrap(), "swap_id");
    let second = attr(&initiate_standard(&mut store, NOW + 5000).unwrap(), "swap_id");
    assert_ne!(first, second);
    assert_eq!(query_user_swaps(&store, "bob".to_string()).swaps, vec![first, second]);
}

#[test]
fn timelock_outside_window_is_invalid() {
    let mut store = SwapStore::new();
    assert_eq!(
        initiate_standard(&mut store, NOW + MINIMUM_TIMELOCK - 1).unwrap_err(),
        ContractError::InvalidTimelock
    );
    assert_eq!(
        initiate_standard(&mut store, NOW + MAXIMUM_TIMELOCK + 1).unwrap_err(),
        ContractError::InvalidTimelock
    );
    assert_eq!(initiate_standard(&mut store, 0).unwrap_err(), ContractError::InvalidTimelock);
    assert!(query_user_swaps(&store, "alice".to_string()).swaps.is_empty());
}

#[test]
fn timelock_window_bounds_are_accepted() {
    let mut store = SwapStore::new();
    assert!(initiate_standard(&mut store, NOW + 3600).is_ok());
    assert!(initiate_standard(&mut store, NOW + 86400).is_ok());
}

#[test]
fn timelock_near_largest_time_does_not_overflow() {
    let mut store = SwapStore::new();
    let r = execute_initiate_swap(
        &mut store,
        &env(u64::MAX - 10),
        &info("alice", vec![("atom", 1)]),
        "h".to_string(),
        u64::MAX,
        "bob".to_string(),
        Some("bob".to_string()),
        "atom".to_string(),
        1,
    );
    assert_eq!(r.unwrap_err(), ContractError::InvalidTimelock);
}

#[test]
fn zero_amount_is_invalid() {
    let mut store = SwapStore::new();
    let r = execute_initiate_swap(
        &mut store,
        &env(NOW),
        &info("alice", vec![("atom", 100)]),
        "h".to_string(),
        NOW + 7200,
        "bob".to_string(),
        Some("bob".to_string()),
        "atom".to_string(),
        0,
    );
    assert_eq!(r.unwrap_err(), ContractError::InvalidAmount);
}

#[test]
fn invalid_receiver_is_refused() {
    let mut store = SwapStore::new();
    let r = execute_initiate_swap(
        &mut store,
        &env(NOW),
        &info("alice", vec![("atom", 100)]),
        "h".to_string(),
        NOW + 7200,
        "B!".to_string(),
        None,
        "atom".to_string(),
        100,
    );
    assert_eq!(r.unwrap_err(), ContractError::AddressInvalid);
}

#[test]
fn insufficient_funds_are_refused() {
    let mut store = SwapStore::new();
    let short = execute_initiate_swap(
        &mut store,
        &env(NOW),
        &info("alice", vec![("atom", 99)]),
        "h".to_string(),
        NOW + 7200,
        "bob".to_string(),
        Some("bob".to_string()),
        "atom".to_string(),
        100,
    );
    assert_eq!(short.unwrap_err(), ContractError::InsufficientFunds);
    let other_denom = execute_initiate_swap(
        &mut store,
        &env(NOW),
        &info("alice", vec![("osmo", 1000)]),
        "h".to_string(),
        NOW + 7200,
        "bob".to_string(),
        Some("bob".to_string()),
        "atom".to_string(),
        100,
    );
    assert_eq!(other_denom.unwrap_err(), ContractError::InsufficientFunds);
}

#[test]
fn overpayment_is_accepted() {
    let mut store = SwapStore::new();
    let r = execute_initiate_swap(
        &mut store,
        &env(NOW),
        &info("alice", vec![("osmo", 7), ("atom", 150)]),
        "h".to_string(),
        NOW + 7200,
        "bob".to_string(),
        Some("bob".to_string()),
        "atom".to_string(),
        100,
    );
    assert!(r.is_ok());
}

#[test]
fn sent_amount_takes_first_coin_of_denom() {
    let funds = info("a", vec![("osmo", 7), ("atom", 3), ("atom", 9)]).funds;
    assert_eq!(sent_amount(&funds, &"atom".to_string()), 3);
    assert_eq!(sent_amount(&funds, &"osmo".to_string()), 7);
    assert_eq!(sent_amount(&funds, &"juno".to_string()), 0);
}

#[test]
fn identical_initiate_in_same_second_is_a_duplicate() {
    let mut store = SwapStore::new();
    let first = initiate_standard(&mut store, NOW + 7200).unwrap();
    assert_eq!(attr(&first, "swap_id"), standard_id(NOW + 7200));
    assert_eq!(
        initiate_standard(&mut store, NOW + 7200).unwrap_err(),
        ContractError::SwapAlreadyExists
    );
    assert_eq!(query_user_swaps(&store, "alice".to_string()).swaps.len(), 1);
}

#[test]
fn wrong_preimage_is_refused_without_change() {
    let mut store = SwapStore::new();
    let id = attr(&initiate_standard(&mut store, NOW + 7200).unwrap(), "swap_id");
    let r = execute_withdraw(
        &mut store,
        &env(NOW + 10),
        &info("bob", vec![]),
        id.clone(),
        "guess".to_string(),
    );
    assert_eq!(r.unwrap_err(), ContractError::InvalidPreimage);
    let swap = query_swap(&store, id).unwrap();
    assert!(!swap.withdrawn && swap.preimage.is_none());
}

#[test]
fn withdraw_at_deadline_is_expired() {
    let mut store = SwapStore::new();
    let id = attr(&initiate_standard(&mut store, NOW + 7200).unwrap(), "swap_id");
    let r = execute_withdraw(
        &mut store,
        &env(NOW + 7200),
        &info("bob", vec![]),
        id,
        "secret".to_string(),
    );
    assert_eq!(r.unwrap_err(), ContractError::TimelockExpired);
}

#[test]
fn withdraw_by_other_than_receiver_is_unauthorized() {
    let mut store = SwapStore::new();
    let id = attr(&initiate_standard(&mut store, NOW + 7200).unwrap(), "swap_id");
    let r = execute_withdraw(
        &mut store,
        &env(NOW + 1),
        &info("alice", vec![]),
        id,
        "secret".to_string(),
    );
    assert_eq!(r.unwrap_err(), ContractError::Unauthorized);
}

#[test]
fn withdraw_of_unknown_swap_is_not_found() {
    let mut store = SwapStore::new();
    let r = execute_withdraw(
        &mut store,
        &env(NOW),
        &info("bob", vec![]),
        "nope".to_string(),
        "secret".to_string(),
    );
    assert_eq!(r.unwrap_err(), ContractError::SwapNotFound);
    let r = execute_refund(&mut store, &env(NOW), &info("alice", vec![]), "nope".to_string());
    assert_eq!(r.unwrap_err(), ContractError::SwapNotFound);
}

#[test]
fn second_withdraw_is_already_withdrawn() {
    let mut store = SwapStore::new();
    let id = attr(&initiate_standard(&mut store, NOW + 7200).unwrap(), "swap_id");
    let bob = info("bob", vec![]);
    assert!(execute_withdraw(&mut store, &env(NOW + 1), &bob, id.clone(), "secret".to_string())
        .is_ok());
    let r = execute_withdraw(&mut store, &env(NOW + 2), &bob, id, "secret".to_string());
    assert_eq!(r.unwrap_err(), ContractError::AlreadyWithdrawn);
}

#[test]
fn withdraw_with_hash_compares_given_digest() {
    let mut store = SwapStore::new();
    let r = execute_initiate_swap(
        &mut store,
        &env(NOW),
        &info("alice", vec![("atom", 100)]),
        "abc".to_string(),
        NOW + 7200,
        "bob".to_string(),
        Some("bob".to_string()),
        "atom".to_string(),
        100,
    );
    let id = attr(&r.unwrap(), "swap_id");
    let bob = info("bob", vec![]);
    let wrong = withdraw_with_hash(
        &mut store,
        &env(NOW + 1),
        &bob,
        id.clone(),
        "p".to_string(),
        "abd".to_string(),
    );
    assert_eq!(wrong.unwrap_err(), ContractError::InvalidPreimage);
    let ok = withdraw_with_hash(&mut store, &env(NOW + 1), &bob, id.clone(), "p".to_string(), "abc".to_string());
    assert!(ok.is_ok());
    assert_eq!(query_swap(&store, id).unwrap().preimage, Some("p".to_string()));
}

#[test]
fn early_refund_is_not_expired() {
    let mut store = SwapStore::new();
    let id = attr(&initiate_standard(&mut store, NOW + 7200).unwrap(), "swap_id");
    let r = execute_refund(&mut store, &env(NOW + 7199), &info("alice", vec![]), id);
    assert_eq!(r.unwrap_err(), ContractError::TimelockNotExpired);
}

#[test]
fn refund_by_other_than_sender_is_unauthorized() {
    let mut store = SwapStore::new();
    let id = attr(&initiate_standard(&mut store, NOW + 7200).unwrap(), "swap_id");
    let r = execute_refund(&mut store, &env(NOW + 9000), &info("bob", vec![]), id);
    assert_eq!(r.unwrap_err(), ContractError::Unauthorized);
}

#[test]
fn second_refund_is_already_refunded() {
    let mut store = SwapStore::new();
    let id = attr(&initiate_standard(&mut store, NOW + 7200).unwrap(), "swap_id");
    let alice = info("alice", vec![]);
    assert!(execute_refund(&mut store, &env(NOW + 8000), &alice, id.clone()).is_ok());
    let r = execute_refund(&mut store, &env(NOW + 9000), &alice, id);
    assert_eq!(r.unwrap_err(), ContractError::AlreadyRefunded);
}

#[test]
fn refund_after_withdraw_fails() {
    let mut store = SwapStore::new();
    let id = attr(&initiate_standard(&mut store, NOW + 7200).unwrap(), "swap_id");
    assert!(execute_withdraw(
        &mut store,
        &env(NOW + 1),
        &info("bob", vec![]),
        id.clone(),
        "secret".to_string()
    )
    .is_ok());
    let r = execute_refund(&mut store, &env(NOW + 8000), &info("alice", vec![]), id);
    assert_eq!(r.unwrap_err(), ContractError::AlreadyWithdrawn);
}

#[test]
fn withdraw_after_refund_fails() {
    let mut store = SwapStore::new();
    let id = attr(&initiate_standard(&mut store, NOW + 7200).unwrap(), "swap_id");
    assert!(execute_refund(&mut store, &env(NOW + 8000), &info("alice", vec![]), id.clone()).is_ok());
    let r = execute_withdraw(
        &mut store,
        &env(NOW + 1),
        &info("bob", vec![]),
        id,
        "secret".to_string(),
    );
    assert_eq!(r.unwrap_err(), ContractError::AlreadyRefunded);
}

#[test]
fn eligibility_flags_follow_the_lifecycle() {
    let mut store = SwapStore::new();
    let id = attr(&initiate_standard(&mut store, NOW + 7200).unwrap(), "swap_id");
    let before = env(NOW + 7199);
    let after = env(NOW + 7200);
    assert!(query_is_withdrawable(&store, &before, id.clone()).unwrap().withdrawable);
    assert!(!query_is_refundable(&store, &before, id.clone()).unwrap().refundable);
    assert!(!query_is_withdrawable(&store, &after, id.clone()).unwrap().withdrawable);
    assert!(query_is_refundable(&store, &after, id.clone()).unwrap().refundable);
    assert!(execute_refund(&mut store, &after, &info("alice", vec![]), id.clone()).is_ok());
    for t in [NOW, NOW + 7199, NOW + 7200, NOW + 100_000] {
        assert!(!query_is_withdrawable(&store, &env(t), id.clone()).unwrap().withdrawable);
        assert!(!query_is_refundable(&store, &env(t), id.clone()).unwrap().refundable);
    }
    assert_eq!(
        query_is_withdrawable(&store, &before, "nope".to_string()).unwrap_err(),
        ContractError::SwapNotFound
    );
    assert_eq!(
        query_is_refundable(&store, &before, "nope".to_string()).unwrap_err(),
        ContractError::SwapNotFound
    );
    assert_eq!(query_swap(&store, "nope".to_string()).unwrap_err(), ContractError::SwapNotFound);
}

#[test]
fn swap_id_is_digest_of_canonical_text() {
    let text = swap_id_preimage("alice", "bob", "atom", 100, "h", 7200, 0);
    assert_eq!(text, "alice:bob:atom:100:h:7200:0");
    let id = swap_id("alice", "bob", "atom", 100, "h", 7200, 0);
    assert_eq!(id, hex_sha256("alice:bob:atom:100:h:7200:0"));
    assert_eq!(id.len(), 64);
    assert_ne!(id, swap_id("alice", "bob", "atom", 101, "h", 7200, 0));
    assert_eq!(
        swap_id_preimage("a", "b", "c", u128::MAX, "d", u64::MAX, 10),
        "a:b:c:340282366920938463463374607431768211455:d:18446744073709551615:10"
    );
}

#[test]
fn preimage_hash_is_hex_sha256() {
    assert_eq!(
        preimage_hash("secret"),
        "2bb80d537b1da3e38bd30361aa855686bde0eacd7162fef6a25fe97bf527a25b"
    );
    assert_eq!(preimage_hash(""), hex_sha256(""));
}

#[test]
fn dispatch_through_execute_and_query() {
    let mut store = SwapStore::new();
    let alice = info("alice", vec![("atom", 100)]);
    let resp = execute(
        &mut store,
        &env(NOW),
        &alice,
        ExecuteMsg::InitiateSwap {
            hashlock: hex_sha256("secret"),
            timelock: NOW + 7200,
            receiver: "bob".to_string(),
            denom: "atom".to_string(),
            amount: 100,
        },
        Some("bob".to_string()),
    )
    .unwrap();
    let id = attr(&resp, "swap_id");
    match query(&store, &env(NOW), QueryMsg::GetSwap { swap_id: id.clone() }).unwrap() {
        QueryResponse::Swap(s) => assert_eq!(s.amount, 100),
        _ => panic!("wrong response kind"),
    }
    match query(&store, &env(NOW), QueryMsg::GetUserSwaps { user: "bob".to_string() }).unwrap() {
        QueryResponse::UserSwaps(u) => assert_eq!(u.swaps, vec![id.clone()]),
        _ => panic!("wrong response kind"),
    }
    match query(&store, &env(NOW), QueryMsg::IsWithdrawable { swap_id: id.clone() }).unwrap() {
        QueryResponse::Withdrawable(w) => assert!(w.withdrawable),
        _ => panic!("wrong response kind"),
    }
    match query(&store, &env(NOW), QueryMsg::IsRefundable { swap_id: id.clone() }).unwrap() {
        QueryResponse::Refundable(r) => assert!(!r.refundable),
        _ => panic!("wrong response kind"),
    }
    let bob = info("bob", vec![]);
    let msg = ExecuteMsg::Withdraw { swap_id: id.clone(), preimage: "secret".to_string() };
    assert!(execute(&mut store, &env(NOW + 1), &bob, msg, None).is_ok());
    let msg = ExecuteMsg::Refund { swap_id: id };
    let r = execute(&mut store, &env(NOW + 9000), &info("alice", vec![]), msg, None);
    assert_eq!(r.unwrap_err(), ContractError::AlreadyWithdrawn);
}

#[test]
fn instantiate_records_method() {
    let resp = instantiate(&env(NOW), &info("admin", vec![]), InstantiateMsg {}).unwrap();
    assert!(resp.messages.is_empty());
    assert_eq!(attr(&resp, "method"), "instantiate");
}

#[test]
fn error_messages() {
    assert_eq!(ContractError::SwapNotFound.message(), "Swap does not exist");
    assert_eq!(ContractError::InvalidPreimage.message(), "Invalid preimage");
}
