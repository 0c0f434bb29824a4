//! Block helpers of the chain client.

use vstd::prelude::*;

use crate::types::{BlockNumber, H256};

verus! {

/// Index of a session.
pub type SessionIndex = u32;

/// The number of the first block of `session`, for sessions of
/// `session_period` blocks.
pub fn first_block_of_session(session_period: u32, session: SessionIndex) -> (r: BlockNumber)
    requires
        session_period * session <= u32::MAX,
    ensures
        r == session_period * session,
{
    session_period * session
}

/// Whether two hashes are the same.
pub fn h256_eq(a: &H256, b: &H256) -> (r: bool)
    ensures
        r == (a.0@ == b.0@),
{
    let mut i: usize = 0;
    while i < 32
        invariant
            i <= 32,
            forall|j: int| 0 <= j < i ==> a.0@[j] == b.0@[j],
        decreases 32 - i,
    {
        if a.0[i] != b.0[i] {
            return false;
        }
        i = i + 1;
    }
    assert(a.0@ =~= b.0@);
    true
}

/// The position of the transaction with hash `tx_hash` in a block whose
/// extrinsics hash to `extrinsic_hashes`, in order: the first match, if any.
pub fn find_transaction(extrinsic_hashes: &Vec<H256>, tx_hash: &H256) -> (r: Option<usize>)
    ensures
        match r {
            Some(i) => i < extrinsic_hashes@.len() && extrinsic_hashes@[i as int].0@ == tx_hash.0@
                && forall|j: int| 0 <= j < i ==> extrinsic_hashes@[j].0@ != tx_hash.0@,
            None => forall|j: int|
                0 <= j < extrinsic_hashes@.len() ==> extrinsic_hashes@[j].0@ != tx_hash.0@,
        },
{
    let n = extrinsic_hashes.len();
    let mut i: usize = 0;
    while i < n
        invariant
            n == extrinsic_hashes@.len(),
            i <= n,
            forall|j: int| 0 <= j < i ==> extrinsic_hashes@[j].0@ != tx_hash.0@,
        decreases n - i,
    {
        if h256_eq(&extrinsic_hashes[i], tx_hash) {
            return Some(i);
        }
        i = i + 1;
    }
    None
}

} // verus!
