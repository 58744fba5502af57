use sha2::{Digest, Sha256};
use vstd::prelude::*;

verus! {

/// Lower-case hex of the SHA-256 digest of the UTF-8 encoding of a string.
pub uninterp spec fn sha256_hex(s: Seq<char>) -> Seq<char>;

/// The decimal digit character for `d < 10`.
pub open spec fn digit_char(d: nat) -> char {
    ((d + 48) as u8) as char
}

/// Plain decimal notation of a natural number: no sign, no separators,
/// no leading zeros ("0" for zero).
pub open spec fn decimal(n: nat) -> Seq<char>
    decreases n,
{
    if n < 10 {
        seq![digit_char(n)]
    } else {
        decimal(n / 10).push(digit_char(n % 10))
    }
}

/// Relies on sha2's `Sha256::digest` over the string's bytes, printed with
/// `{:x}` (lower-case hex); the result depends on the characters alone.
#[verifier::external_body]
pub(crate) fn sha256_hex_of(s: &str) -> (r: String)
    ensures
        r@ == sha256_hex(s@),
{
    format!("{:x}", Sha256::digest(s.as_bytes()))
}

/// Relies on std's `Display` for `u128`: plain decimal digits.
#[verifier::external_body]
pub(crate) fn u128_decimal(n: u128) -> (r: String)
    ensures
        r@ == decimal(n as nat),
{
    n.to_string()
}

/// Relies on std's `Display` for `u64`: plain decimal digits.
#[verifier::external_body]
pub(crate) fn u64_decimal(n: u64) -> (r: String)
    ensures
        r@ == decimal(n as nat),
{
    n.to_string()
}

/// The canonical text that a swap's identifier is the digest of: the creation
/// parameters in fixed order, joined by `:`.
pub open spec fn swap_id_text(
    sender: Seq<char>,
    receiver: Seq<char>,
    denom: Seq<char>,
    amount: u128,
    hashlock: Seq<char>,
    timelock: u64,
    created: u64,
) -> Seq<char> {
    sender + seq![':'] + receiver + seq![':'] + denom + seq![':'] + decimal(amount as nat)
        + seq![':'] + hashlock + seq![':'] + decimal(timelock as nat) + seq![':'] + decimal(
        created as nat,
    )
}

/// The identifier of a swap created with these parameters.
pub open spec fn swap_id_spec(
    sender: Seq<char>,
    receiver: Seq<char>,
    denom: Seq<char>,
    amount: u128,
    hashlock: Seq<char>,
    timelock: u64,
    created: u64,
) -> Seq<char> {
    sha256_hex(swap_id_text(sender, receiver, denom, amount, hashlock, timelock, created))
}

/// Builds the canonical text of a swap's creation parameters.
pub fn swap_id_preimage(
    sender: &str,
    receiver: &str,
    denom: &str,
    amount: u128,
    hashlock: &str,
    timelock: u64,
    created: u64,
) -> (r: String)
    ensures
        r@ == swap_id_text(sender@, receiver@, denom@, amount, hashlock@, timelock, created),
{
    let mut s = String::from_str(sender);
    s.append(":");
    s.append(receiver);
    s.append(":");
    s.append(denom);
    s.append(":");
    let a = u128_decimal(amount);
    s.append(a.as_str());
    s.append(":");
    s.append(hashlock);
    s.append(":");
    let t = u64_decimal(timelock);
    s.append(t.as_str());
    s.append(":");
    let c = u64_decimal(created);
    s.append(c.as_str());
    proof {
        reveal_strlit(":");
        assert(s@ =~= swap_id_text(sender@, receiver@, denom@, amount, hashlock@, timelock, created));
    }
    s
}

/// The deterministic identifier of a swap: the hex SHA-256 digest of its
/// canonical creation text.
pub fn swap_id(
    sender: &str,
    receiver: &str,
    denom: &str,
    amount: u128,
    hashlock: &str,
    timelock: u64,
    created: u64,
) -> (r: String)
    ensures
        r@ == swap_id_spec(sender@, receiver@, denom@, amount, hashlock@, timelock, created),
{
    let text = swap_id_preimage(sender, receiver, denom, amount, hashlock, timelock, created);
    sha256_hex_of(text.as_str())
}

/// The hex digest that a preimage must match.
pub fn preimage_hash(preimage: &str) -> (r: String)
    ensures
        r@ == sha256_hex(preimage@),
{
    sha256_hex_of(preimage)
}

} // verus!
