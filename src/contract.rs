use crate::error::ContractError;
use crate::hash::{decimal, preimage_hash, sha256_hex, swap_id, swap_id_spec, u128_decimal};
use crate::msg::{
    attribute, Attribute, BankMsg, Coin, Env, ExecuteMsg, InstantiateMsg, MessageInfo, QueryMsg,
    QueryResponse, RefundableResponse, Response, SwapResponse, UserSwapsResponse,
    WithdrawableResponse,
};
use crate::state::{add_user_swap, lemma_add_user_swap_entry, ids_view, user_list, StoreView, Swap, SwapStore, SwapView};
use vstd::prelude::*;

verus! {

/// The earliest deadline allowed, in seconds after creation.
pub const MINIMUM_TIMELOCK: u64 = 3600;

/// The latest deadline allowed, in seconds after creation.
pub const MAXIMUM_TIMELOCK: u64 = 86400;

/// The amount of `denom` among attached funds: the first coin of that denom,
/// or zero.
pub open spec fn funds_in(funds: Seq<Coin>, denom: Seq<char>) -> u128
    decreases funds.len(),
{
    if funds.len() == 0 {
        0
    } else if funds[0].denom@ == denom {
        funds[0].amount
    } else {
        funds_in(funds.drop_first(), denom)
    }
}

/// A freshly created swap, neither withdrawn nor refunded.
pub open spec fn pending_swap(
    hashlock: Seq<char>,
    timelock: u64,
    sender: Seq<char>,
    receiver: Seq<char>,
    denom: Seq<char>,
    amount: u128,
) -> SwapView {
    SwapView {
        hashlock,
        timelock,
        sender,
        receiver,
        denom,
        amount,
        withdrawn: false,
        refunded: false,
        preimage: None,
    }
}

/// The first guard of Initiate that fails, given the identifier `id`.
pub open spec fn initiate_error(
    store: StoreView,
    now: u64,
    funds: Seq<Coin>,
    timelock: u64,
    receiver_addr: Option<Seq<char>>,
    denom: Seq<char>,
    amount: u128,
    id: Seq<char>,
) -> Option<ContractError> {
    if timelock < now + MINIMUM_TIMELOCK || timelock > now + MAXIMUM_TIMELOCK {
        Some(ContractError::InvalidTimelock)
    } else if amount == 0 {
        Some(ContractError::InvalidAmount)
    } else if receiver_addr is None {
        Some(ContractError::AddressInvalid)
    } else if funds_in(funds, denom) < amount {
        Some(ContractError::InsufficientFunds)
    } else if store.swaps.contains_key(id) {
        Some(ContractError::SwapAlreadyExists)
    } else {
        None
    }
}

/// The store after a successful Initiate.
pub open spec fn initiated(
    store: StoreView,
    id: Seq<char>,
    swap: SwapView,
) -> StoreView {
    StoreView {
        swaps: store.swaps.insert(id, swap),
        user_swaps: add_user_swap(
            add_user_swap(store.user_swaps, swap.sender, id),
            swap.receiver,
            id,
        ),
    }
}

/// The first guard of Withdraw that fails; `hash` is the digest of the
/// preimage offered.
pub open spec fn withdraw_error(
    store: StoreView,
    now: u64,
    caller: Seq<char>,
    id: Seq<char>,
    hash: Seq<char>,
) -> Option<ContractError> {
    if !store.swaps.contains_key(id) {
        Some(ContractError::SwapNotFound)
    } else {
        let s = store.swaps[id];
        if caller != s.receiver {
            Some(ContractError::Unauthorized)
        } else if now >= s.timelock {
            Some(ContractError::TimelockExpired)
        } else if s.withdrawn {
            Some(ContractError::AlreadyWithdrawn)
        } else if s.refunded {
            Some(ContractError::AlreadyRefunded)
        } else if hash != s.hashlock {
            Some(ContractError::InvalidPreimage)
        } else {
            None
        }
    }
}

/// A swap after its withdrawal with `preimage`.
pub open spec fn withdrawn_swap(s: SwapView, preimage: Seq<char>) -> SwapView {
    SwapView { withdrawn: true, preimage: Some(preimage), ..s }
}

/// The first guard of Refund that fails.
pub open spec fn refund_error(
    store: StoreView,
    now: u64,
    caller: Seq<char>,
    id: Seq<char>,
) -> Option<ContractError> {
    if !store.swaps.contains_key(id) {
        Some(ContractError::SwapNotFound)
    } else {
        let s = store.swaps[id];
        if caller != s.sender {
            Some(ContractError::Unauthorized)
        } else if now < s.timelock {
            Some(ContractError::TimelockNotExpired)
        } else if s.withdrawn {
            Some(ContractError::AlreadyWithdrawn)
        } else if s.refunded {
            Some(ContractError::AlreadyRefunded)
        } else {
            None
        }
    }
}

/// A swap after its refund.
pub open spec fn refunded_swap(s: SwapView) -> SwapView {
    SwapView { refunded: true, ..s }
}

/// Whether the receiver may still withdraw the swap at time `now`.
pub open spec fn withdrawable(s: SwapView, now: u64) -> bool {
    now < s.timelock && !s.withdrawn && !s.refunded
}

/// Whether the sender may take the swap back at time `now`.
pub open spec fn refundable(s: SwapView, now: u64) -> bool {
    now >= s.timelock && !s.withdrawn && !s.refunded
}

/// What Initiate leaves behind when the identifier is `id`: on success the
/// guards all held, the store gained the pending swap and the two index
/// entries, and the record names the swap; on failure the first failing guard
/// is reported and nothing changed.
pub open spec fn initiate_outcome(
    old_store: StoreView,
    new_store: StoreView,
    r: Result<Response, ContractError>,
    now: u64,
    info: &MessageInfo,
    hashlock: Seq<char>,
    timelock: u64,
    receiver_addr: Option<Seq<char>>,
    denom: Seq<char>,
    amount: u128,
    id: Seq<char>,
) -> bool {
    let err = initiate_error(old_store, now, info.funds@, timelock, receiver_addr, denom, amount, id);
    match r {
        Ok(resp) => {
            &&& err is None
            &&& new_store == initiated(
                old_store,
                id,
                pending_swap(hashlock, timelock, info.sender@, receiver_addr->0, denom, amount),
            )
            &&& resp.releases().len() == 0
            &&& resp.attrs() == seq![
                ("method"@, "initiate_swap"@),
                ("swap_id"@, id),
                ("sender"@, info.sender@),
                ("receiver"@, receiver_addr->0),
                ("amount"@, decimal(amount as nat)),
                ("denom"@, denom),
            ]
        },
        Err(e) => err == Some(e) && new_store == old_store,
    }
}

/// What Withdraw leaves behind, `hash` being the digest of `preimage`: on
/// success the swap is marked withdrawn with the preimage kept, and its amount
/// is released to the receiver; on failure the first failing guard is
/// reported and nothing changed.
pub open spec fn withdraw_outcome(
    old_store: StoreView,
    new_store: StoreView,
    r: Result<Response, ContractError>,
    now: u64,
    caller: Seq<char>,
    id: Seq<char>,
    preimage: Seq<char>,
    hash: Seq<char>,
) -> bool {
    let err = withdraw_error(old_store, now, caller, id, hash);
    let s = old_store.swaps[id];
    match r {
        Ok(resp) => {
            &&& err is None
            &&& new_store == StoreView {
                swaps: old_store.swaps.insert(id, withdrawn_swap(s, preimage)),
                user_swaps: old_store.user_swaps,
            }
            &&& resp.releases() == seq![(s.receiver, s.denom, s.amount)]
            &&& resp.attrs() == seq![
                ("method"@, "withdraw"@),
                ("swap_id"@, id),
                ("preimage"@, preimage),
                ("receiver"@, s.receiver),
            ]
        },
        Err(e) => err == Some(e) && new_store == old_store,
    }
}

/// What Refund leaves behind: on success the swap is marked refunded and its
/// amount is released to the sender; on failure the first failing guard is
/// reported and nothing changed.
pub open spec fn refund_outcome(
    old_store: StoreView,
    new_store: StoreView,
    r: Result<Response, ContractError>,
    now: u64,
    caller: Seq<char>,
    id: Seq<char>,
) -> bool {
    let err = refund_error(old_store, now, caller, id);
    let s = old_store.swaps[id];
    match r {
        Ok(resp) => {
            &&& err is None
            &&& new_store == StoreView {
                swaps: old_store.swaps.insert(id, refunded_swap(s)),
                user_swaps: old_store.user_swaps,
            }
            &&& resp.releases() == seq![(s.sender, s.denom, s.amount)]
            &&& resp.attrs() == seq![
                ("method"@, "refund"@),
                ("swap_id"@, id),
                ("sender"@, s.sender),
            ]
        },
        Err(e) => err == Some(e) && new_store == old_store,
    }
}

/// The amount of `denom` attached to a call: that of the first coin in
/// `denom`, or zero.
pub fn sent_amount(funds: &Vec<Coin>, denom: &String) -> (r: u128)
    ensures
        r == funds_in(funds@, denom@),
{
    let mut i: usize = 0;
    assert(funds@.subrange(0, funds@.len() as int) =~= funds@);
    while i < funds.len()
        invariant
            i <= funds@.len(),
            funds_in(funds@, denom@) == funds_in(funds@.subrange(i as int, funds@.len() as int), denom@),
        decreases funds.len() - i,
    {
        let ghost rest = funds@.subrange(i as int, funds@.len() as int);
        if funds[i].denom == *denom {
            return funds[i].amount;
        }
        assert(rest.drop_first() =~= funds@.subrange(i + 1, funds@.len() as int));
        i = i + 1;
    }
    0
}

/// Sets the engine up; nothing is stored.
pub fn instantiate(_env: &Env, _info: &MessageInfo, _msg: InstantiateMsg) -> (r: Result<
    Response,
    ContractError,
>)
    ensures
        r matches Ok(resp) && resp.releases().len() == 0 && resp.attrs() == seq![
            ("method"@, "instantiate"@),
        ],
{
    let mut attributes: Vec<Attribute> = Vec::new();
    attributes.push(attribute("method", String::from_str("instantiate")));
    let resp = Response { messages: Vec::new(), attributes };
    assert(resp.attrs() =~= seq![("method"@, "instantiate"@)]);
    assert(resp.releases() =~= Seq::<(Seq<char>, Seq<char>, u128)>::empty());
    Ok(resp)
}

/// Initiate with the identifier already computed: checks the guards in order,
/// then stores a pending swap under `id` and lists `id` for the sender and,
/// separately, for the receiver.
pub fn initiate_swap_with_id(
    store: &mut SwapStore,
    env: &Env,
    info: &MessageInfo,
    hashlock: String,
    timelock: u64,
    receiver_addr: Option<String>,
    denom: String,
    amount: u128,
    id: String,
) -> (r: Result<Response, ContractError>)
    ensures
        initiate_outcome(
            old(store)@,
            final(store)@,
            r,
            env.block_time,
            info,
            hashlock@,
            timelock,
            crate::state::opt_view(receiver_addr),
            denom@,
            amount,
            id@,
        ),
        old(store)@.wf() ==> final(store)@.wf(),
{
    let now = env.block_time;
    if (timelock as u128) < (now as u128) + (MINIMUM_TIMELOCK as u128) {
        return Err(ContractError::InvalidTimelock);
    }
    if (timelock as u128) > (now as u128) + (MAXIMUM_TIMELOCK as u128) {
        return Err(ContractError::InvalidTimelock);
    }
    if amount == 0 {
        return Err(ContractError::InvalidAmount);
    }
    let receiver = match receiver_addr {
        Some(a) => a,
        None => {
            return Err(ContractError::AddressInvalid);
        },
    };
    if sent_amount(&info.funds, &denom) < amount {
        return Err(ContractError::InsufficientFunds);
    }
    if store.has(&id) {
        return Err(ContractError::SwapAlreadyExists);
    }
    let swap = Swap {
        hashlock: hashlock,
        timelock,
        sender: info.sender.clone(),
        receiver: receiver.clone(),
        denom: denom.clone(),
        amount,
        withdrawn: false,
        refunded: false,
        preimage: None,
    };
    let ghost old_view = store@;
    store.put(id.clone(), swap);
    store.push_user_swap(&info.sender, &id);
    store.push_user_swap(&receiver, &id);
    proof {
        let sv = pending_swap(hashlock@, timelock, info.sender@, receiver@, denom@, amount);
        assert(store@ == initiated(old_view, id@, sv));
        if old_view.wf() {
            assert forall|k: Seq<char>| #[trigger] store@.swaps.contains_key(k) implies store@.swaps[k].wf() by {
                if k != id@ {
                    assert(old_view.swaps.contains_key(k));
                }
            }
            let m0 = old_view.user_swaps;
            let m1 = add_user_swap(m0, info.sender@, id@);
            assert forall|a: Seq<char>, i: int|
                store@.user_swaps.contains_key(a) && 0 <= i < store@.user_swaps[a].len()
                implies store@.swaps.contains_key(#[trigger] store@.user_swaps[a][i]) by {
                lemma_add_user_swap_entry(m1, receiver@, id@, a, i);
                if store@.user_swaps[a][i] != id@ {
                    lemma_add_user_swap_entry(m0, info.sender@, id@, a, i);
                    assert(old_view.swaps.contains_key(m0[a][i]));
                }
            }
        }
    }
    let mut attributes: Vec<Attribute> = Vec::new();
    attributes.push(attribute("method", String::from_str("initiate_swap")));
    attributes.push(attribute("swap_id", id));
    attributes.push(attribute("sender", info.sender.clone()));
    attributes.push(attribute("receiver", receiver));
    attributes.push(attribute("amount", u128_decimal(amount)));
    attributes.push(attribute("denom", denom));
    let resp = Response { messages: Vec::new(), attributes };
    proof {
        assert(resp.attrs() =~= seq![
            ("method"@, "initiate_swap"@),
            ("swap_id"@, id@),
            ("sender"@, info.sender@),
            ("receiver"@, receiver_addr->0@),
            ("amount"@, decimal(amount as nat)),
            ("denom"@, denom@),
        ]);
    }
    Ok(resp)
}

/// Initiate: validates the request, derives the swap's identifier from its
/// creation parameters and the block time, and stores a pending swap.
/// `receiver_addr` is the address validator's answer on `receiver`: the
/// canonical address, or `None` where it is invalid.
pub fn execute_initiate_swap(
    store: &mut SwapStore,
    env: &Env,
    info: &MessageInfo,
    hashlock: String,
    timelock: u64,
    receiver: String,
    receiver_addr: Option<String>,
    denom: String,
    amount: u128,
) -> (r: Result<Response, ContractError>)
    ensures
        initiate_outcome(
            old(store)@,
            final(store)@,
            r,
            env.block_time,
            info,
            hashlock@,
            timelock,
            crate::state::opt_view(receiver_addr),
            denom@,
            amount,
            swap_id_spec(
                info.sender@,
                receiver@,
                denom@,
                amount,
                hashlock@,
                timelock,
                env.block_time,
            ),
        ),
        old(store)@.wf() ==> final(store)@.wf(),
{
    let id = swap_id(
        info.sender.as_str(),
        receiver.as_str(),
        denom.as_str(),
        amount,
        hashlock.as_str(),
        timelock,
        env.block_time,
    );
    initiate_swap_with_id(store, env, info, hashlock, timelock, receiver_addr, denom, amount, id)
}

/// Withdraw with the digest of the preimage already computed: checks the
/// guards in order, then marks the swap withdrawn, keeps the preimage and
/// releases the amount to the receiver.
pub fn withdraw_with_hash(
    store: &mut SwapStore,
    env: &Env,
    info: &MessageInfo,
    swap_id: String,
    preimage: String,
    hash: String,
) -> (r: Result<Response, ContractError>)
    ensures
        withdraw_outcome(
            old(store)@,
            final(store)@,
            r,
            env.block_time,
            info.sender@,
            swap_id@,
            preimage@,
            hash@,
        ),
        old(store)@.wf() && hash@ == sha256_hex(preimage@) ==> final(store)@.wf(),
{
    let mut swap = match store.get(&swap_id) {
        Some(s) => s,
        None => {
            return Err(ContractError::SwapNotFound);
        },
    };
    if info.sender != swap.receiver {
        return Err(ContractError::Unauthorized);
    }
    if env.block_time >= swap.timelock {
        return Err(ContractError::TimelockExpired);
    }
    if swap.withdrawn {
        return Err(ContractError::AlreadyWithdrawn);
    }
    if swap.refunded {
        return Err(ContractError::AlreadyRefunded);
    }
    if hash != swap.hashlock {
        return Err(ContractError::InvalidPreimage);
    }
    let ghost old_view = store@;
    let ghost sv = swap@;
    swap.withdrawn = true;
    swap.preimage = Some(preimage.clone());
    let receiver = swap.receiver.clone();
    let transfer = BankMsg {
        to_address: swap.receiver.clone(),
        denom: swap.denom.clone(),
        amount: swap.amount,
    };
    assert(swap@ == withdrawn_swap(sv, preimage@));
    store.put(swap_id.clone(), swap);
    proof {
        if old_view.wf() && hash@ == sha256_hex(preimage@) {
            assert forall|k: Seq<char>| #[trigger] store@.swaps.contains_key(k) implies store@.swaps[k].wf() by {
                if k != swap_id@ {
                    assert(old_view.swaps.contains_key(k));
                }
            }
            assert forall|a: Seq<char>, i: int|
                store@.user_swaps.contains_key(a) && 0 <= i < store@.user_swaps[a].len()
                implies store@.swaps.contains_key(#[trigger] store@.user_swaps[a][i]) by {
                assert(old_view.swaps.contains_key(old_view.user_swaps[a][i]));
            }
        }
    }
    let mut messages: Vec<BankMsg> = Vec::new();
    messages.push(transfer);
    let mut attributes: Vec<Attribute> = Vec::new();
    attributes.push(attribute("method", String::from_str("withdraw")));
    attributes.push(attribute("swap_id", swap_id));
    attributes.push(attribute("preimage", preimage));
    attributes.push(attribute("receiver", receiver));
    let resp = Response { messages, attributes };
    proof {
        assert(resp.releases() =~= seq![(sv.receiver, sv.denom, sv.amount)]);
        assert(resp.attrs() =~= seq![
            ("method"@, "withdraw"@),
            ("swap_id"@, swap_id@),
            ("preimage"@, preimage@),
            ("receiver"@, sv.receiver),
        ]);
    }
    Ok(resp)
}

/// Withdraw: the receiver claims the swap by revealing the preimage of its
/// hashlock before the deadline.
pub fn execute_withdraw(
    store: &mut SwapStore,
    env: &Env,
    info: &MessageInfo,
    swap_id: String,
    preimage: String,
) -> (r: Result<Response, ContractError>)
    ensures
        withdraw_outcome(
            old(store)@,
            final(store)@,
            r,
            env.block_time,
            info.sender@,
            swap_id@,
            preimage@,
            sha256_hex(preimage@),
        ),
        old(store)@.wf() ==> final(store)@.wf(),
{
    let hash = preimage_hash(preimage.as_str());
    withdraw_with_hash(store, env, info, swap_id, preimage, hash)
}

/// Refund: the sender takes the swap back once the deadline has passed.
pub fn execute_refund(
    store: &mut SwapStore,
    env: &Env,
    info: &MessageInfo,
    swap_id: String,
) -> (r: Result<Response, ContractError>)
    ensures
        refund_outcome(old(store)@, final(store)@, r, env.block_time, info.sender@, swap_id@),
        old(store)@.wf() ==> final(store)@.wf(),
{
    let mut swap = match store.get(&swap_id) {
        Some(s) => s,
        None => {
            return Err(ContractError::SwapNotFound);
        },
    };
    if info.sender != swap.sender {
        return Err(ContractError::Unauthorized);
    }
    if env.block_time < swap.timelock {
        return Err(ContractError::TimelockNotExpired);
    }
    if swap.withdrawn {
        return Err(ContractError::AlreadyWithdrawn);
    }
    if swap.refunded {
        return Err(ContractError::AlreadyRefunded);
    }
    let ghost old_view = store@;
    let ghost sv = swap@;
    swap.refunded = true;
    let sender = swap.sender.clone();
    let transfer = BankMsg {
        to_address: swap.sender.clone(),
        denom: swap.denom.clone(),
        amount: swap.amount,
    };
    assert(swap@ == refunded_swap(sv));
    store.put(swap_id.clone(), swap);
    proof {
        if old_view.wf() {
            assert forall|k: Seq<char>| #[trigger] store@.swaps.contains_key(k) implies store@.swaps[k].wf() by {
                if k != swap_id@ {
                    assert(old_view.swaps.contains_key(k));
                }
            }
            assert forall|a: Seq<char>, i: int|
                store@.user_swaps.contains_key(a) && 0 <= i < store@.user_swaps[a].len()
                implies store@.swaps.contains_key(#[trigger] store@.user_swaps[a][i]) by {
                assert(old_view.swaps.contains_key(old_view.user_swaps[a][i]));
            }
        }
    }
    let mut messages: Vec<BankMsg> = Vec::new();
    messages.push(transfer);
    let mut attributes: Vec<Attribute> = Vec::new();
    attributes.push(attribute("method", String::from_str("refund")));
    attributes.push(attribute("swap_id", swap_id));
    attributes.push(attribute("sender", sender));
    let resp = Response { messages, attributes };
    proof {
        assert(resp.releases() =~= seq![(sv.sender, sv.denom, sv.amount)]);
        assert(resp.attrs() =~= seq![("method"@, "refund"@), ("swap_id"@, swap_id@), ("sender"@, sv.sender)]);
    }
    Ok(resp)
}

/// The stored swap under `swap_id`.
pub fn query_swap(store: &SwapStore, swap_id: String) -> (r: Result<SwapResponse, ContractError>)
    ensures
        match r {
            Ok(resp) => store@.swaps.contains_key(swap_id@) && resp@ == store@.swaps[swap_id@],
            Err(e) => !store@.swaps.contains_key(swap_id@) && e == ContractError::SwapNotFound,
        },
{
    match store.get(&swap_id) {
        Some(swap) => Ok(
            SwapResponse {
                hashlock: swap.hashlock,
                timelock: swap.timelock,
                sender: swap.sender,
                receiver: swap.receiver,
                denom: swap.denom,
                amount: swap.amount,
                withdrawn: swap.withdrawn,
                refunded: swap.refunded,
                preimage: swap.preimage,
            },
        ),
        None => Err(ContractError::SwapNotFound),
    }
}

/// The identifiers of the swaps `user` took part in, in creation order;
/// empty where there are none.
pub fn query_user_swaps(store: &SwapStore, user: String) -> (r: UserSwapsResponse)
    ensures
        ids_view(r.swaps@) == user_list(store@.user_swaps, user@),
{
    UserSwapsResponse { swaps: store.user_swaps(&user) }
}

/// Whether the swap under `swap_id` can still be withdrawn at the block time.
pub fn query_is_withdrawable(store: &SwapStore, env: &Env, swap_id: String) -> (r: Result<
    WithdrawableResponse,
    ContractError,
>)
    ensures
        match r {
            Ok(resp) => store@.swaps.contains_key(swap_id@) && resp.withdrawable == withdrawable(
                store@.swaps[swap_id@],
                env.block_time,
            ),
            Err(e) => !store@.swaps.contains_key(swap_id@) && e == ContractError::SwapNotFound,
        },
{
    match store.get(&swap_id) {
        Some(swap) => Ok(
            WithdrawableResponse {
                withdrawable: env.block_time < swap.timelock && !swap.withdrawn && !swap.refunded,
            },
        ),
        None => Err(ContractError::SwapNotFound),
    }
}

/// Whether the swap under `swap_id` can be refunded at the block time.
pub fn query_is_refundable(store: &SwapStore, env: &Env, swap_id: String) -> (r: Result<
    RefundableResponse,
    ContractError,
>)
    ensures
        match r {
            Ok(resp) => store@.swaps.contains_key(swap_id@) && resp.refundable == refundable(
                store@.swaps[swap_id@],
                env.block_time,
            ),
            Err(e) => !store@.swaps.contains_key(swap_id@) && e == ContractError::SwapNotFound,
        },
{
    match store.get(&swap_id) {
        Some(swap) => Ok(
            RefundableResponse {
                refundable: env.block_time >= swap.timelock && !swap.withdrawn && !swap.refunded,
            },
        ),
        None => Err(ContractError::SwapNotFound),
    }
}

/// Runs one mutating request. `receiver_addr` is the address validator's
/// answer on the receiver of an `InitiateSwap`; other requests ignore it.
pub fn execute(
    store: &mut SwapStore,
    env: &Env,
    info: &MessageInfo,
    msg: ExecuteMsg,
    receiver_addr: Option<String>,
) -> (r: Result<Response, ContractError>)
    ensures
        match msg {
            ExecuteMsg::InitiateSwap { hashlock, timelock, receiver, denom, amount } => initiate_outcome(
                old(store)@,
                final(store)@,
                r,
                env.block_time,
                info,
                hashlock@,
                timelock,
                crate::state::opt_view(receiver_addr),
                denom@,
                amount,
                swap_id_spec(
                    info.sender@,
                    receiver@,
                    denom@,
                    amount,
                    hashlock@,
                    timelock,
                    env.block_time,
                ),
            ),
            ExecuteMsg::Withdraw { swap_id, preimage } => withdraw_outcome(
                old(store)@,
                final(store)@,
                r,
                env.block_time,
                info.sender@,
                swap_id@,
                preimage@,
                sha256_hex(preimage@),
            ),
            ExecuteMsg::Refund { swap_id } => refund_outcome(
                old(store)@,
                final(store)@,
                r,
                env.block_time,
                info.sender@,
                swap_id@,
            ),
        },
        old(store)@.wf() ==> final(store)@.wf(),
{
    match msg {
        ExecuteMsg::InitiateSwap { hashlock, timelock, receiver, denom, amount } => {
            execute_initiate_swap(
                store,
                env,
                info,
                hashlock,
                timelock,
                receiver,
                receiver_addr,
                denom,
                amount,
            )
        },
        ExecuteMsg::Withdraw { swap_id, preimage } => execute_withdraw(
            store,
            env,
            info,
            swap_id,
            preimage,
        ),
        ExecuteMsg::Refund { swap_id } => execute_refund(store, env, info, swap_id),
    }
}

/// Answers one read-only request; the store is not changed.
pub fn query(store: &SwapStore, env: &Env, msg: QueryMsg) -> (r: Result<
    QueryResponse,
    ContractError,
>)
    ensures
        match msg {
            QueryMsg::GetSwap { swap_id } => match r {
                Ok(QueryResponse::Swap(resp)) => store@.swaps.contains_key(swap_id@) && resp@
                    == store@.swaps[swap_id@],
                Ok(_) => false,
                Err(e) => !store@.swaps.contains_key(swap_id@) && e == ContractError::SwapNotFound,
            },
            QueryMsg::GetUserSwaps { user } => match r {
                Ok(QueryResponse::UserSwaps(resp)) => ids_view(resp.swaps@) == user_list(
                    store@.user_swaps,
                    user@,
                ),
                _ => false,
            },
            QueryMsg::IsWithdrawable { swap_id } => match r {
                Ok(QueryResponse::Withdrawable(resp)) => store@.swaps.contains_key(swap_id@)
                    && resp.withdrawable == withdrawable(store@.swaps[swap_id@], env.block_time),
                Ok(_) => false,
                Err(e) => !store@.swaps.contains_key(swap_id@) && e == ContractError::SwapNotFound,
            },
            QueryMsg::IsRefundable { swap_id } => match r {
                Ok(QueryResponse::Refundable(resp)) => store@.swaps.contains_key(swap_id@)
                    && resp.refundable == refundable(store@.swaps[swap_id@], env.block_time),
                Ok(_) => false,
                Err(e) => !store@.swaps.contains_key(swap_id@) && e == ContractError::SwapNotFound,
            },
        },
{
    match msg {
        QueryMsg::GetSwap { swap_id } => match query_swap(store, swap_id) {
            Ok(resp) => Ok(QueryResponse::Swap(resp)),
            Err(e) => Err(e),
        },
        QueryMsg::GetUserSwaps { user } => Ok(QueryResponse::UserSwaps(query_user_swaps(store, user))),
        QueryMsg::IsWithdrawable { swap_id } => match query_is_withdrawable(store, env, swap_id) {
            Ok(resp) => Ok(QueryResponse::Withdrawable(resp)),
            Err(e) => Err(e),
        },
        QueryMsg::IsRefundable { swap_id } => match query_is_refundable(store, env, swap_id) {
            Ok(resp) => Ok(QueryResponse::Refundable(resp)),
            Err(e) => Err(e),
        },
    }
}

} // verus!
