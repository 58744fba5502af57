use crate::contract::{
    funds_in, initiate_outcome, pending_swap, refund_outcome, refundable, withdraw_outcome,
    withdrawable, MAXIMUM_TIMELOCK, MINIMUM_TIMELOCK,
};
use crate::error::ContractError;
use crate::hash::{sha256_hex, swap_id_spec};
use crate::msg::{MessageInfo, Response};
use crate::state::{user_list, StoreView};
use vstd::prelude::*;

verus! {

/// A successful Initiate stores a pending swap under its identifier, and lists
/// that identifier once for the sender and once for the receiver (twice for
/// an address that is both); the identifier was listed nowhere before.
pub proof fn initiate_lists_swap_once(
    old_store: StoreView,
    new_store: StoreView,
    r: Result<Response, ContractError>,
    now: u64,
    info: &MessageInfo,
    hashlock: Seq<char>,
    timelock: u64,
    receiver: Seq<char>,
    receiver_addr: Option<Seq<char>>,
    denom: Seq<char>,
    amount: u128,
)
    requires
        old_store.wf(),
        initiate_outcome(
            old_store,
            new_store,
            r,
            now,
            info,
            hashlock,
            timelock,
            receiver_addr,
            denom,
            amount,
            swap_id_spec(info.sender@, receiver, denom, amount, hashlock, timelock, now),
        ),
        r is Ok,
    ensures
        ({
            let id = swap_id_spec(info.sender@, receiver, denom, amount, hashlock, timelock, now);
            let s = info.sender@;
            let v = receiver_addr->0;
            &&& new_store.swaps.contains_key(id)
            &&& new_store.swaps[id] == pending_swap(hashlock, timelock, s, v, denom, amount)
            &&& new_store.swaps[id].is_pending()
            &&& !user_list(old_store.user_swaps, s).contains(id)
            &&& !user_list(old_store.user_swaps, v).contains(id)
            &&& s != v ==> user_list(new_store.user_swaps, s) == user_list(
                old_store.user_swaps,
                s,
            ).push(id) && user_list(new_store.user_swaps, v) == user_list(
                old_store.user_swaps,
                v,
            ).push(id)
            &&& s == v ==> user_list(new_store.user_swaps, s) == user_list(
                old_store.user_swaps,
                s,
            ).push(id).push(id)
        }),
{
    let id = swap_id_spec(info.sender@, receiver, denom, amount, hashlock, timelock, now);
    assert forall|a: Seq<char>| !#[trigger] user_list(old_store.user_swaps, a).contains(id) by {
        if user_list(old_store.user_swaps, a).contains(id) {
            let i = choose|i: int|
                0 <= i < user_list(old_store.user_swaps, a).len() && user_list(
                    old_store.user_swaps,
                    a,
                )[i] == id;
            assert(old_store.swaps.contains_key(old_store.user_swaps[a][i]));
        }
    }
}

/// Initiate refuses a deadline earlier than `MINIMUM_TIMELOCK` or later than
/// `MAXIMUM_TIMELOCK` seconds from now, and accepts both bounds themselves
/// where every other guard passes.
pub proof fn timelock_window(
    old_store: StoreView,
    new_store: StoreView,
    r: Result<Response, ContractError>,
    now: u64,
    info: &MessageInfo,
    hashlock: Seq<char>,
    timelock: u64,
    receiver_addr: Option<Seq<char>>,
    denom: Seq<char>,
    amount: u128,
    id: Seq<char>,
)
    requires
        initiate_outcome(
            old_store,
            new_store,
            r,
            now,
            info,
            hashlock,
            timelock,
            receiver_addr,
            denom,
            amount,
            id,
        ),
    ensures
        timelock < now + MINIMUM_TIMELOCK || timelock > now + MAXIMUM_TIMELOCK ==> r
            == Err::<Response, ContractError>(ContractError::InvalidTimelock),
        (timelock == now + MINIMUM_TIMELOCK || timelock == now + MAXIMUM_TIMELOCK) && amount > 0
            && receiver_addr is Some && funds_in(info.funds@, denom) >= amount
            && !old_store.swaps.contains_key(id) ==> r is Ok,
{
}

/// With the deadline in range, a zero amount is refused as such; with the
/// deadline, amount and receiver accepted, too little attached in the
/// swap's denom is refused as insufficient.
pub proof fn amount_and_funds_guards(
    old_store: StoreView,
    new_store: StoreView,
    r: Result<Response, ContractError>,
    now: u64,
    info: &MessageInfo,
    hashlock: Seq<char>,
    timelock: u64,
    receiver_addr: Option<Seq<char>>,
    denom: Seq<char>,
    amount: u128,
    id: Seq<char>,
)
    requires
        initiate_outcome(
            old_store,
            new_store,
            r,
            now,
            info,
            hashlock,
            timelock,
            receiver_addr,
            denom,
            amount,
            id,
        ),
        now + MINIMUM_TIMELOCK <= timelock <= now + MAXIMUM_TIMELOCK,
    ensures
        amount == 0 ==> r == Err::<Response, ContractError>(ContractError::InvalidAmount),
        amount > 0 && receiver_addr is Some && funds_in(info.funds@, denom) < amount ==> r
            == Err::<Response, ContractError>(ContractError::InsufficientFunds),
        r is Err ==> new_store == old_store,
{
}

/// Withdraw succeeds exactly when the swap exists, the caller is its
/// receiver, the deadline has not passed, the swap is pending and the
/// preimage hashes to the hashlock. Afterwards the swap is withdrawn with the
/// preimage kept, its amount is released to the receiver, and a second
/// Withdraw by the receiver before the deadline is refused as already
/// withdrawn.
pub proof fn withdraw_succeeds_once(
    old_store: StoreView,
    new_store: StoreView,
    r: Result<Response, ContractError>,
    now: u64,
    caller: Seq<char>,
    id: Seq<char>,
    preimage: Seq<char>,
    later_store: StoreView,
    later_r: Result<Response, ContractError>,
    later_now: u64,
    later_preimage: Seq<char>,
)
    requires
        withdraw_outcome(old_store, new_store, r, now, caller, id, preimage, sha256_hex(preimage)),
        withdraw_outcome(
            new_store,
            later_store,
            later_r,
            later_now,
            caller,
            id,
            later_preimage,
            sha256_hex(later_preimage),
        ),
    ensures
        r is Ok <==> (old_store.swaps.contains_key(id) && caller == old_store.swaps[id].receiver
            && now < old_store.swaps[id].timelock && old_store.swaps[id].is_pending()
            && sha256_hex(preimage) == old_store.swaps[id].hashlock),
        r matches Ok(resp) ==> {
            let s = old_store.swaps[id];
            &&& new_store.swaps[id].withdrawn
            &&& new_store.swaps[id].preimage == Some(preimage)
            &&& resp.releases() == seq![(s.receiver, s.denom, s.amount)]
        },
        r is Ok && later_now < old_store.swaps[id].timelock ==> later_r == Err::<
            Response,
            ContractError,
        >(ContractError::AlreadyWithdrawn),
{
}

/// A preimage that does not hash to the hashlock is refused, and nothing
/// changes; so is a Withdraw by the receiver once the deadline has come.
pub proof fn withdraw_refusals(
    old_store: StoreView,
    new_store: StoreView,
    r: Result<Response, ContractError>,
    now: u64,
    caller: Seq<char>,
    id: Seq<char>,
    preimage: Seq<char>,
)
    requires
        withdraw_outcome(old_store, new_store, r, now, caller, id, preimage, sha256_hex(preimage)),
        old_store.swaps.contains_key(id),
        caller == old_store.swaps[id].receiver,
    ensures
        now < old_store.swaps[id].timelock && old_store.swaps[id].is_pending() && sha256_hex(
            preimage,
        ) != old_store.swaps[id].hashlock ==> r == Err::<Response, ContractError>(
            ContractError::InvalidPreimage,
        ) && new_store == old_store,
        now >= old_store.swaps[id].timelock ==> r == Err::<Response, ContractError>(
            ContractError::TimelockExpired,
        ) && new_store == old_store,
{
}

/// Refund succeeds exactly when the swap exists, the caller is its sender,
/// the deadline has come and the swap is pending. Afterwards the swap is
/// refunded and its amount released to the sender. A Refund by the sender
/// before the deadline is refused as early, and a repeat, no earlier, as
/// already refunded.
pub proof fn refund_succeeds_once(
    old_store: StoreView,
    new_store: StoreView,
    r: Result<Response, ContractError>,
    now: u64,
    caller: Seq<char>,
    id: Seq<char>,
    later_store: StoreView,
    later_r: Result<Response, ContractError>,
    later_now: u64,
)
    requires
        refund_outcome(old_store, new_store, r, now, caller, id),
        refund_outcome(new_store, later_store, later_r, later_now, caller, id),
        now <= later_now,
    ensures
        r is Ok <==> (old_store.swaps.contains_key(id) && caller == old_store.swaps[id].sender
            && now >= old_store.swaps[id].timelock && old_store.swaps[id].is_pending()),
        r matches Ok(resp) ==> {
            let s = old_store.swaps[id];
            &&& new_store.swaps[id].refunded
            &&& resp.releases() == seq![(s.sender, s.denom, s.amount)]
        },
        old_store.swaps.contains_key(id) && caller == old_store.swaps[id].sender && now
            < old_store.swaps[id].timelock ==> r == Err::<Response, ContractError>(
            ContractError::TimelockNotExpired,
        ),
        r is Ok ==> later_r == Err::<Response, ContractError>(ContractError::AlreadyRefunded),
{
}

/// Two Initiate calls with the same parameters at the same block time give
/// the same identifier, and once the first has succeeded the second is
/// refused as a duplicate, leaving the store as it was.
pub proof fn initiate_is_deterministic(
    store0: StoreView,
    store1: StoreView,
    r1: Result<Response, ContractError>,
    store2: StoreView,
    r2: Result<Response, ContractError>,
    now: u64,
    info: &MessageInfo,
    hashlock: Seq<char>,
    timelock: u64,
    receiver: Seq<char>,
    receiver_addr: Option<Seq<char>>,
    denom: Seq<char>,
    amount: u128,
)
    requires
        initiate_outcome(
            store0,
            store1,
            r1,
            now,
            info,
            hashlock,
            timelock,
            receiver_addr,
            denom,
            amount,
            swap_id_spec(info.sender@, receiver, denom, amount, hashlock, timelock, now),
        ),
        initiate_outcome(
            store1,
            store2,
            r2,
            now,
            info,
            hashlock,
            timelock,
            receiver_addr,
            denom,
            amount,
            swap_id_spec(info.sender@, receiver, denom, amount, hashlock, timelock, now),
        ),
        r1 is Ok,
    ensures
        r2 == Err::<Response, ContractError>(ContractError::SwapAlreadyExists),
        store2 == store1,
{
}

/// One mutating request with its arguments, as a run of the engine sees it.
pub enum Call {
    Initiate {
        now: u64,
        info: MessageInfo,
        hashlock: Seq<char>,
        timelock: u64,
        receiver: Seq<char>,
        receiver_addr: Option<Seq<char>>,
        denom: Seq<char>,
        amount: u128,
    },
    Withdraw { now: u64, caller: Seq<char>, id: Seq<char>, preimage: Seq<char> },
    Refund { now: u64, caller: Seq<char>, id: Seq<char> },
}

/// `after` and `r` are what the engine may leave and answer for `call` on
/// `before`.
pub open spec fn step(
    before: StoreView,
    after: StoreView,
    call: Call,
    r: Result<Response, ContractError>,
) -> bool {
    match call {
        Call::Initiate {
            now,
            info,
            hashlock,
            timelock,
            receiver,
            receiver_addr,
            denom,
            amount,
        } => initiate_outcome(
            before,
            after,
            r,
            now,
            &info,
            hashlock,
            timelock,
            receiver_addr,
            denom,
            amount,
            swap_id_spec(info.sender@, receiver, denom, amount, hashlock, timelock, now),
        ),
        Call::Withdraw { now, caller, id, preimage } => withdraw_outcome(
            before,
            after,
            r,
            now,
            caller,
            id,
            preimage,
            sha256_hex(preimage),
        ),
        Call::Refund { now, caller, id } => refund_outcome(before, after, r, now, caller, id),
    }
}

/// A sequence of calls, the stores between them and their answers.
pub open spec fn is_run(
    stores: Seq<StoreView>,
    calls: Seq<Call>,
    results: Seq<Result<Response, ContractError>>,
) -> bool {
    &&& stores.len() == calls.len() + 1
    &&& results.len() == calls.len()
    &&& forall|k: int|
        0 <= k < calls.len() ==> step(stores[k], #[trigger] stores[k + 1], calls[k], results[k])
}

/// No call changes a swap that has been withdrawn or refunded.
pub proof fn terminal_swap_is_untouched(
    before: StoreView,
    after: StoreView,
    call: Call,
    r: Result<Response, ContractError>,
    id: Seq<char>,
)
    requires
        step(before, after, call, r),
        before.swaps.contains_key(id),
        !before.swaps[id].is_pending(),
    ensures
        after.swaps.contains_key(id),
        after.swaps[id] == before.swaps[id],
{
}

/// Once withdrawn or refunded, a swap stays as it is in every later store of
/// a run.
pub proof fn terminal_swap_is_final(
    stores: Seq<StoreView>,
    calls: Seq<Call>,
    results: Seq<Result<Response, ContractError>>,
    id: Seq<char>,
    i: int,
    j: int,
)
    requires
        is_run(stores, calls, results),
        0 <= i <= j < stores.len(),
        stores[i].swaps.contains_key(id),
        !stores[i].swaps[id].is_pending(),
    ensures
        stores[j].swaps.contains_key(id),
        stores[j].swaps[id] == stores[i].swaps[id],
    decreases j - i,
{
    if j > i {
        terminal_swap_is_final(stores, calls, results, id, i, j - 1);
        let k = j - 1;
        assert(step(stores[k], stores[k + 1], calls[k], results[k]));
        terminal_swap_is_untouched(stores[k], stores[k + 1], calls[k], results[k], id);
    }
}

/// After a successful Withdraw of a swap, no later Refund of it succeeds;
/// after a successful Refund, no later Withdraw succeeds.
pub proof fn withdraw_and_refund_exclude_each_other(
    stores: Seq<StoreView>,
    calls: Seq<Call>,
    results: Seq<Result<Response, ContractError>>,
    id: Seq<char>,
    i: int,
    j: int,
)
    requires
        is_run(stores, calls, results),
        0 <= i < j < calls.len(),
        results[i] is Ok,
    ensures
        calls[i] matches Call::Withdraw { id: wid, .. } && wid == id ==> !(calls[j] matches Call::Refund {
            id: rid,
            ..
        } && rid == id && results[j] is Ok),
        calls[i] matches Call::Refund { id: rid, .. } && rid == id ==> !(calls[j] matches Call::Withdraw {
            id: wid,
            ..
        } && wid == id && results[j] is Ok),
{
    assert(step(stores[i], stores[i + 1], calls[i], results[i]));
    let terminal = match calls[i] {
        Call::Withdraw { id: wid, .. } => wid == id,
        Call::Refund { id: rid, .. } => rid == id,
        _ => false,
    };
    if terminal {
        terminal_swap_is_final(stores, calls, results, id, i + 1, j);
        assert(step(stores[j], stores[j + 1], calls[j], results[j]));
    }
}

/// A swap is never withdrawable and refundable at once, and once withdrawn
/// or refunded it is neither, at any time, in every later store of a run.
pub proof fn eligibility_is_exclusive_and_final(
    stores: Seq<StoreView>,
    calls: Seq<Call>,
    results: Seq<Result<Response, ContractError>>,
    id: Seq<char>,
    i: int,
    j: int,
    now: u64,
)
    requires
        is_run(stores, calls, results),
        0 <= i <= j < stores.len(),
        stores[i].swaps.contains_key(id),
    ensures
        !(withdrawable(stores[i].swaps[id], now) && refundable(stores[i].swaps[id], now)),
        !stores[i].swaps[id].is_pending() ==> !withdrawable(stores[j].swaps[id], now) && !refundable(
            stores[j].swaps[id],
            now,
        ),
{
    if !stores[i].swaps[id].is_pending() {
        terminal_swap_is_final(stores, calls, results, id, i, j);
    }
}

} // verus!
