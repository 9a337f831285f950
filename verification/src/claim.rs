//! Purchase claims and their validation.
//!
//! A claim arrives from the buyer and is pure input: an opaque payment
//! identifier naming a ledger transaction, the buyer's ledger address, and
//! the claimed token amount. Identifiers and addresses are kept as byte
//! strings; a well-formed one is non-empty, bounded in length, and drawn
//! from the alphanumeric alphabet that ledger references use. A malformed
//! claim is rejected before any ledger call.

use vstd::prelude::*;
use crate::errors::InputError;

verus! {

/// The longest payment identifier the pipeline accepts.
pub const MAX_IDENTIFIER_LEN: usize = 128;

/// The longest ledger address the pipeline accepts.
pub const MAX_ADDRESS_LEN: usize = 64;

/// How the buyer paid. The presale settles payments made in the ledger's
/// native currency.
#[derive(Clone, Copy, PartialEq, Eq, Structural, Debug)]
pub enum PaymentMethod {
    Native,
}

/// A buyer's assertion that a payment happened on the ledger. Immutable
/// input to the pipeline; validated before use, never persisted as-is.
#[derive(Debug)]
pub struct PurchaseClaim {
    /// Reference to the ledger transaction that carried the payment.
    pub payment_identifier: Vec<u8>,
    /// The address the buyer claims to have paid from, and to which the
    /// purchased tokens are delivered.
    pub buyer_address: Vec<u8>,
    /// How many whole presale tokens the payment is claimed to buy.
    pub claimed_token_amount: u64,
    pub payment_method: PaymentMethod,
}

/// A byte that may appear in a ledger transaction reference or address.
pub open spec fn reference_byte(b: u8) -> bool {
    (48 <= b <= 57) || (65 <= b <= 90) || (97 <= b <= 122)
}

/// A well-formed payment identifier: non-empty, bounded, alphanumeric.
pub open spec fn valid_identifier(s: Seq<u8>) -> bool {
    &&& 1 <= s.len() <= MAX_IDENTIFIER_LEN
    &&& forall|i: int| 0 <= i < s.len() ==> reference_byte(#[trigger] s[i])
}

/// A well-formed ledger address: non-empty, bounded, alphanumeric.
pub open spec fn valid_address(s: Seq<u8>) -> bool {
    &&& 1 <= s.len() <= MAX_ADDRESS_LEN
    &&& forall|i: int| 0 <= i < s.len() ==> reference_byte(#[trigger] s[i])
}

/// A claim whose fields are all well-formed.
pub open spec fn valid_claim(c: &PurchaseClaim) -> bool {
    &&& valid_identifier(c.payment_identifier@)
    &&& valid_address(c.buyer_address@)
    &&& c.claimed_token_amount >= 1
}

/// Whether every byte of `v` may appear in a reference or address.
pub fn all_reference_bytes(v: &Vec<u8>) -> (r: bool)
    ensures
        r == forall|i: int| 0 <= i < v@.len() ==> reference_byte(#[trigger] v@[i]),
{
    let mut k: usize = 0;
    while k < v.len()
        invariant
            k <= v@.len(),
            forall|i: int| 0 <= i < k ==> reference_byte(#[trigger] v@[i]),
        decreases v@.len() - k,
    {
        let b = v[k];
        if !((48 <= b && b <= 57) || (65 <= b && b <= 90) || (97 <= b && b <= 122)) {
            return false;
        }
        k = k + 1;
    }
    true
}

impl PurchaseClaim {
    /// Rejects a malformed claim before anything else looks at it: first a
    /// bad identifier, then a bad address, then a zero amount.
    pub fn validate(&self) -> (r: Result<(), InputError>)
        ensures
            r == Ok::<(), InputError>(()) <==> valid_claim(self),
            r == Err::<(), InputError>(InputError::MalformedIdentifier) <==> !valid_identifier(
                self.payment_identifier@,
            ),
            r == Err::<(), InputError>(InputError::MalformedAddress) <==> valid_identifier(
                self.payment_identifier@,
            ) && !valid_address(self.buyer_address@),
            r == Err::<(), InputError>(InputError::AmountZero) <==> valid_identifier(
                self.payment_identifier@,
            ) && valid_address(self.buyer_address@) && self.claimed_token_amount == 0,
    {
        if self.payment_identifier.len() == 0 || self.payment_identifier.len()
            > MAX_IDENTIFIER_LEN || !all_reference_bytes(&self.payment_identifier) {
            return Err(InputError::MalformedIdentifier);
        }
        if self.buyer_address.len() == 0 || self.buyer_address.len() > MAX_ADDRESS_LEN
            || !all_reference_bytes(&self.buyer_address) {
            return Err(InputError::MalformedAddress);
        }
        if self.claimed_token_amount == 0 {
            return Err(InputError::AmountZero);
        }
        Ok(())
    }
}

} // verus!
