//! Plain-value models of the host's invocation context.
//!
//! The host execution environment delivers, with every invocation, the
//! caller's identity, the coins attached to the message, the block time and
//! the contract's own address.  These records carry exactly what the
//! contract logic reads from that context.

use vstd::prelude::*;

verus! {

/// One denomination and the amount of it attached to a message.
#[derive(Clone, Debug)]
pub struct Coin {
    pub denom: String,
    pub amount: u128,
}

/// What the host knows about the block this invocation runs in:
/// the block time in seconds and the address of this contract instance.
#[derive(Clone, Debug)]
pub struct Env {
    pub block_time: u64,
    pub contract_address: String,
}

/// The caller's identity and the funds sent along with the message.
#[derive(Clone, Debug)]
pub struct MessageInfo {
    pub sender: String,
    pub funds: Vec<Coin>,
}

/// The host's callback after a requested child instantiation completed:
/// the id of the request it answers and the acknowledgment payload, if the
/// host attached one.
#[derive(Clone, Debug)]
pub struct Reply {
    pub id: u64,
    pub data: Option<Vec<u8>>,
}

/// The amount of the designated funding denomination among `funds`:
/// the amount of the first coin whose denomination matches, zero if none does.
pub open spec fn spec_denom_amount(funds: Seq<Coin>, denom: Seq<char>) -> u128
    decreases funds.len(),
{
    if funds.len() == 0 {
        0
    } else if funds[0].denom@ == denom {
        funds[0].amount
    } else {
        spec_denom_amount(funds.skip(1), denom)
    }
}

/// Finds the amount sent in the given denomination, as the host reports
/// funds: the first matching coin counts, and no matching coin means zero.
pub fn denom_amount(funds: &Vec<Coin>, denom: &String) -> (r: u128)
    ensures
        r == spec_denom_amount(funds@, denom@),
{
    let n = funds.len();
    let mut i: usize = 0;
    assert(funds@.skip(0) =~= funds@);
    while i < n
        invariant
            i <= n,
            n == funds@.len(),
            spec_denom_amount(funds@, denom@) == spec_denom_amount(funds@.skip(i as int), denom@),
        decreases n - i,
    {
        assert(funds@.skip(i as int)[0] == funds@[i as int]);
        if funds[i].denom == *denom {
            return funds[i].amount;
        }
        assert(funds@.skip(i as int).skip(1) =~= funds@.skip(i + 1));
        i = i + 1;
    }
    assert(funds@.skip(n as int).len() == 0);
    0
}

/// Whether `caller` is the admin currently held in `current`.
/// An empty admin slot authorizes nobody.
pub fn is_admin(current: &Option<String>, caller: &String) -> (r: bool)
    ensures
        r == (current is Some && current->0@ == caller@),
{
    match current {
        Some(a) => *a == *caller,
        None => false,
    }
}

} // verus!
