use crate::state::{opt_view, SwapView};
use vstd::prelude::*;

verus! {

/// The message that sets the engine up; it carries nothing.
#[derive(Clone, Debug, PartialEq, Eq)]
pub struct InstantiateMsg {}

/// The mutating requests.
#[derive(Clone, Debug, PartialEq, Eq)]
pub enum ExecuteMsg {
    InitiateSwap {
        hashlock: String,
        timelock: u64,
        receiver: String,
        denom: String,
        amount: u128,
    },
    Withdraw { swap_id: String, preimage: String },
    Refund { swap_id: String },
}

/// The read-only requests.
#[derive(Clone, Debug, PartialEq, Eq)]
pub enum QueryMsg {
    GetSwap { swap_id: String },
    GetUserSwaps { user: String },
    IsWithdrawable { swap_id: String },
    IsRefundable { swap_id: String },
}

/// A stored swap, as a query returns it.
#[derive(Clone, Debug, PartialEq, Eq)]
pub struct SwapResponse {
    pub hashlock: String,
    pub timelock: u64,
    pub sender: String,
    pub receiver: String,
    pub denom: String,
    pub amount: u128,
    pub withdrawn: bool,
    pub refunded: bool,
    pub preimage: Option<String>,
}

impl View for SwapResponse {
    type V = SwapView;

    open spec fn view(&self) -> SwapView {
        SwapView {
            hashlock: self.hashlock@,
            timelock: self.timelock,
            sender: self.sender@,
            receiver: self.receiver@,
            denom: self.denom@,
            amount: self.amount,
            withdrawn: self.withdrawn,
            refunded: self.refunded,
            preimage: opt_view(self.preimage),
        }
    }
}

/// The swap identifiers listed for an address.
#[derive(Clone, Debug, PartialEq, Eq)]
pub struct UserSwapsResponse {
    pub swaps: Vec<String>,
}

#[derive(Clone, Debug, PartialEq, Eq)]
pub struct WithdrawableResponse {
    pub withdrawable: bool,
}

#[derive(Clone, Debug, PartialEq, Eq)]
pub struct RefundableResponse {
    pub refundable: bool,
}

/// The answer to a [`QueryMsg`], one variant per request.
#[derive(Clone, Debug, PartialEq, Eq)]
pub enum QueryResponse {
    Swap(SwapResponse),
    UserSwaps(UserSwapsResponse),
    Withdrawable(WithdrawableResponse),
    Refundable(RefundableResponse),
}

/// The execution context: the current block time, in epoch seconds.
#[derive(Clone, Debug, PartialEq, Eq)]
pub struct Env {
    pub block_time: u64,
}

/// An amount of one asset.
#[derive(Clone, Debug, PartialEq, Eq)]
pub struct Coin {
    pub denom: String,
    pub amount: u128,
}

/// Who calls, and the funds attached to the call.
#[derive(Clone, Debug, PartialEq, Eq)]
pub struct MessageInfo {
    pub sender: String,
    pub funds: Vec<Coin>,
}

/// A directive to release `amount` of `denom` to `to_address`.
#[derive(Clone, Debug, PartialEq, Eq)]
pub struct BankMsg {
    pub to_address: String,
    pub denom: String,
    pub amount: u128,
}

/// One key-value pair of an operation's observability record.
#[derive(Clone, Debug, PartialEq, Eq)]
pub struct Attribute {
    pub key: String,
    pub value: String,
}

/// What a successful operation hands back: release directives and attributes.
#[derive(Clone, Debug, PartialEq, Eq)]
pub struct Response {
    pub messages: Vec<BankMsg>,
    pub attributes: Vec<Attribute>,
}

impl Response {
    pub open spec fn attrs(self) -> Seq<(Seq<char>, Seq<char>)> {
        self.attributes@.map_values(|a: Attribute| (a.key@, a.value@))
    }

    pub open spec fn releases(self) -> Seq<(Seq<char>, Seq<char>, u128)> {
        self.messages@.map_values(|m: BankMsg| (m.to_address@, m.denom@, m.amount))
    }
}

pub fn attribute(key: &str, value: String) -> (r: Attribute)
    ensures
        r.key@ == key@,
        r.value@ == value@,
{
    Attribute { key: String::from_str(key), value }
}

} // verus!
