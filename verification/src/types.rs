//! Plain values shared by the marketplace and the chain queries.

use vstd::prelude::*;

verus! {

/// Token amounts, as in the default contract environment.
pub type Balance = u128;

/// Block numbers.
pub type BlockNumber = u32;

/// A 32-byte account identifier.
#[derive(Clone, Copy, Debug, PartialEq, Eq)]
pub struct AccountId(pub [u8; 32]);

/// A 32-byte hash (of a block, of code, of a transaction).
#[derive(Clone, Copy, Debug, PartialEq, Eq)]
pub struct H256(pub [u8; 32]);

} // verus!
