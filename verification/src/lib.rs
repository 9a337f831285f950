//! Payment verification and settlement for a token presale.
//!
//! A buyer pays on a public ledger network; once that payment is verified
//! against the claim (buyer, amount, recipient), the settlement coordinator
//! records it exactly once, has tokens minted and delivered, and credits an
//! optional referrer. The modules here hold the verified core: the amount
//! arithmetic, the payment verifier, the retry and mint decision logic of the
//! ledger gateway, the record store with its uniqueness invariant, and the
//! settlement state machine with its idempotency guarantee.

use vstd::prelude::*;

pub mod amounts;
pub mod bytes;
pub mod claim;
pub mod eligibility;
pub mod errors;
pub mod ledger;
pub mod settlement;
pub mod store;
pub mod user;
pub mod verify;

verus! {

} // verus!
