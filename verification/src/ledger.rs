//! The ledger gateway's decision logic and its model of ledger data.
//!
//! The gateway talks to the ledger network: it fetches a finalized
//! transaction by identifier, reads mint metadata, and submits a
//! mint-and-transfer operation. The network calls themselves are plain
//! input/output and live with the caller; this module holds everything
//! that can be decided from their results: the bounded retry policy for
//! fetches, the signed balance delta of one address across a transaction,
//! the parsed mint metadata, and the plan for a mint-and-deliver
//! operation.

use vstd::prelude::*;
use spl_token::solana_program::program_option::COption;
use spl_token::solana_program::program_pack::Pack;
use crate::amounts::{pow10, to_base_units};
use crate::bytes::bytes_eq;
use crate::errors::InputError;

verus! {

/// A finalized ledger transaction, reduced to the facts the verifier
/// reads: the slot it landed in, whether its on-chain execution failed,
/// its participant addresses in declaration order (the first one is the
/// fee-paying sender), and each participant's balance before and after.
pub struct LedgerTransaction {
    pub slot: u64,
    pub failed: bool,
    pub account_keys: Vec<Vec<u8>>,
    pub pre_balances: Vec<u64>,
    pub post_balances: Vec<u64>,
}

/// The participant addresses of `tx`, as byte sequences.
pub open spec fn spec_keys(tx: &LedgerTransaction) -> Seq<Seq<u8>> {
    tx.account_keys@.map_values(|k: Vec<u8>| k@)
}

/// `i` is the position of `addr`'s first occurrence among `keys`.
pub open spec fn is_first_key_index(keys: Seq<Seq<u8>>, addr: Seq<u8>, i: int) -> bool {
    &&& 0 <= i < keys.len()
    &&& keys[i] == addr
    &&& forall|j: int| 0 <= j < i ==> keys[j] != addr
}

/// `addr` occurs among `keys` and its first occurrence has balance data.
pub open spec fn address_has_balance_data(tx: &LedgerTransaction, addr: Seq<u8>) -> bool {
    exists|i: int|
        #[trigger] is_first_key_index(spec_keys(tx), addr, i) && i < tx.pre_balances@.len() && i
            < tx.post_balances@.len()
}

/// The signed balance change of `addr`'s first occurrence in `tx`.
pub open spec fn spec_balance_delta(tx: &LedgerTransaction, addr: Seq<u8>) -> int {
    let i = choose|i: int| is_first_key_index(spec_keys(tx), addr, i);
    tx.post_balances@[i] - tx.pre_balances@[i]
}

/// The address is not a participant of the transaction (or carries no
/// balance data there), so no delta can be computed for it.
#[derive(Clone, Copy, PartialEq, Eq, Structural, Debug)]
pub enum DeltaError {
    AddressNotInTransaction,
}

/// Computes the signed balance change of one address across the
/// transaction's pre/post state. Fails exactly when the address is absent
/// from the participants with balance data.
pub fn get_account_balance_delta(tx: &LedgerTransaction, address: &Vec<u8>) -> (r: Result<
    i128,
    DeltaError,
>)
    ensures
        r is Ok <==> address_has_balance_data(tx, address@),
        r matches Ok(d) ==> d == spec_balance_delta(tx, address@),
{
    let ghost keys = spec_keys(tx);
    let mut k: usize = 0;
    while k < tx.account_keys.len()
        invariant
            k <= tx.account_keys@.len(),
            keys == spec_keys(tx),
            forall|j: int| 0 <= j < k ==> keys[j] != address@,
        decreases tx.account_keys@.len() - k,
    {
        if bytes_eq(&tx.account_keys[k], address) {
            proof {
                assert(keys[k as int] == tx.account_keys@[k as int]@);
                assert(is_first_key_index(keys, address@, k as int));
            }
            if k < tx.pre_balances.len() && k < tx.post_balances.len() {
                let pre = tx.pre_balances[k];
                let post = tx.post_balances[k];
                proof {
                    let i = choose|i: int| is_first_key_index(keys, address@, i);
                    assert(i == k as int);
                }
                return Ok(post as i128 - pre as i128);
            } else {
                return Err(DeltaError::AddressNotInTransaction);
            }
        }
        proof {
            assert(keys[k as int] == tx.account_keys@[k as int]@);
        }
        k = k + 1;
    }
    proof {
        assert forall|i: int| !is_first_key_index(keys, address@, i) by {
            if 0 <= i < keys.len() {
                assert(keys[i] != address@);
            }
        }
    }
    Err(DeltaError::AddressNotInTransaction)
}

/// The bounded retry policy for transaction fetches: at most
/// `max_attempts` attempts, a fixed `delay_ms` between them. Fixed rather
/// than exponential, because ledger confirmation latency is roughly
/// constant.
#[derive(Clone, Copy, PartialEq, Eq, Structural, Debug)]
pub struct RetryPolicy {
    pub max_attempts: u32,
    pub delay_ms: u64,
}

impl RetryPolicy {
    /// The standard fetch policy: five attempts, two seconds apart.
    pub fn standard() -> (p: RetryPolicy)
        ensures
            p.max_attempts == 5,
            p.delay_ms == 2000,
    {
        RetryPolicy { max_attempts: 5, delay_ms: 2000 }
    }
}

/// What one fetch attempt against the ledger produced.
pub enum FetchAttemptOutcome {
    /// The transaction was found, finalized.
    Finalized(LedgerTransaction),
    /// The ledger answered definitively that no such transaction exists.
    NotFound,
    /// A transient failure (not yet propagated, connection trouble); the
    /// same fetch may succeed if tried again.
    Transient,
}

/// What the gateway does after a fetch attempt.
pub enum FetchAction {
    /// Hand the finalized transaction to the verifier.
    Accept(LedgerTransaction),
    /// Surface a definitive not-found; never retried.
    RejectNotFound,
    /// Wait this many milliseconds and fetch again.
    RetryAfter(u64),
    /// The retry bound is exhausted; surface a retryable
    /// gateway-unavailable error.
    GiveUp,
}

/// Decides the gateway's next step after its `attempts_made`-th fetch
/// attempt came back with `outcome`. A definitive not-found is never
/// retried; a transient failure is retried with a fixed delay until the
/// bound is reached, so no fetch retries indefinitely.
pub fn next_fetch_action(
    policy: &RetryPolicy,
    attempts_made: u32,
    outcome: FetchAttemptOutcome,
) -> (r: FetchAction)
    requires
        attempts_made >= 1,
    ensures
        outcome matches FetchAttemptOutcome::Finalized(tx) ==> r == FetchAction::Accept(tx),
        outcome is NotFound ==> r == FetchAction::RejectNotFound,
        outcome is Transient && attempts_made < policy.max_attempts ==> r == FetchAction::RetryAfter(
            policy.delay_ms,
        ),
        outcome is Transient && attempts_made >= policy.max_attempts ==> r == FetchAction::GiveUp,
        r is RetryAfter ==> attempts_made < policy.max_attempts,
{
    match outcome {
        FetchAttemptOutcome::Finalized(tx) => FetchAction::Accept(tx),
        FetchAttemptOutcome::NotFound => FetchAction::RejectNotFound,
        FetchAttemptOutcome::Transient => {
            if attempts_made < policy.max_attempts {
                FetchAction::RetryAfter(policy.delay_ms)
            } else {
                FetchAction::GiveUp
            }
        },
    }
}

/// What a whole bounded fetch produced: the gateway's final answer for
/// one payment identifier, handed to the verifier.
pub enum FetchResult {
    /// The transaction was found, finalized.
    Finalized(LedgerTransaction),
    /// The ledger answered definitively that no such transaction exists.
    NotFound,
    /// Every attempt within the retry bound failed transiently.
    Unavailable,
}

/// The mint metadata the gateway reads: total supply, decimal precision,
/// and the optional mint and freeze authorities (32-byte keys).
pub struct MintInfo {
    pub supply: u64,
    pub decimals: u8,
    pub mint_authority: Option<Vec<u8>>,
    pub freeze_authority: Option<Vec<u8>>,
}

/// The four tag bytes of an optional key slot say "absent".
pub open spec fn coption_none_tag(s: Seq<u8>, off: int) -> bool {
    s[off] == 0 && s[off + 1] == 0 && s[off + 2] == 0 && s[off + 3] == 0
}

/// The four tag bytes of an optional key slot say "present".
pub open spec fn coption_some_tag(s: Seq<u8>, off: int) -> bool {
    s[off] == 1 && s[off + 1] == 0 && s[off + 2] == 0 && s[off + 3] == 0
}

/// The unsigned little-endian 64-bit integer at offset `off`.
pub open spec fn le_u64_at(s: Seq<u8>, off: int) -> int {
    (s[off] as int) + 0x100 * (s[off + 1] as int) + 0x1_0000 * (s[off + 2] as int) + 0x100_0000 * (
    s[off + 3] as int) + 0x1_0000_0000 * (s[off + 4] as int) + 0x100_0000_0000 * (s[off + 5] as int)
        + 0x1_0000_0000_0000 * (s[off + 6] as int) + 0x100_0000_0000_0000 * (s[off + 7] as int)
}

/// A byte string that parses as initialized mint metadata: exactly 82
/// bytes, a valid tag on each of the two optional key slots (offsets 0
/// and 46), and the initialized flag (offset 45) set to one.
pub open spec fn mint_data_well_formed(s: Seq<u8>) -> bool {
    &&& s.len() == 82
    &&& coption_none_tag(s, 0) || coption_some_tag(s, 0)
    &&& s[45] == 1
    &&& coption_none_tag(s, 46) || coption_some_tag(s, 46)
}

/// Relies on `spl_token::state::Mint::unpack` (an initialized-checking
/// parse of the 82-byte mint account layout: optional mint authority at
/// offset 0, little-endian supply at offset 36, decimals at offset 44,
/// initialized flag at offset 45, optional freeze authority at offset
/// 46). Returns the parsed fields as plain values, `None` exactly when
/// the bytes do not parse as an initialized mint.
#[verifier::external_body]
fn unpack_mint(data: &Vec<u8>) -> (r: Option<MintInfo>)
    ensures
        r is Some <==> mint_data_well_formed(data@),
        r matches Some(m) ==> {
            &&& m.supply == le_u64_at(data@, 36)
            &&& m.decimals == data@[44]
            &&& (m.mint_authority is Some <==> coption_some_tag(data@, 0))
            &&& (m.mint_authority matches Some(k) ==> k@ == data@.subrange(4, 36))
            &&& (m.freeze_authority is Some <==> coption_some_tag(data@, 46))
            &&& (m.freeze_authority matches Some(k) ==> k@ == data@.subrange(50, 82))
        },
{
    let m = spl_token::state::Mint::unpack(data.as_slice()).ok()?;
    Some(MintInfo {
        supply: m.supply,
        decimals: m.decimals,
        mint_authority: match m.mint_authority {
            COption::Some(k) => Some(k.to_bytes().to_vec()),
            COption::None => None,
        },
        freeze_authority: match m.freeze_authority {
            COption::Some(k) => Some(k.to_bytes().to_vec()),
            COption::None => None,
        },
    })
}

/// The decimal precision of the presale token's mint, read from the raw
/// account data the gateway fetched. `None` exactly when the data does
/// not parse as an initialized mint.
pub fn mint_decimals(data: &Vec<u8>) -> (r: Option<u8>)
    ensures
        r is Some <==> mint_data_well_formed(data@),
        r matches Some(d) ==> d == data@[44],
{
    match unpack_mint(data) {
        Some(m) => Some(m.decimals),
        None => None,
    }
}

/// Supply and precision of the presale token, as reported to operators.
pub struct TokenStats {
    pub mint_address: Vec<u8>,
    pub supply: u64,
    pub decimals: u8,
    pub mint_authority: Option<Vec<u8>>,
    pub freeze_authority: Option<Vec<u8>>,
}

/// Assembles the operator-facing token statistics from the mint address
/// and the raw mint account data. `None` exactly when the data does not
/// parse as an initialized mint.
pub fn token_stats(mint_address: Vec<u8>, data: &Vec<u8>) -> (r: Option<TokenStats>)
    ensures
        r is Some <==> mint_data_well_formed(data@),
        r matches Some(t) ==> {
            &&& t.mint_address@ == mint_address@
            &&& t.supply == le_u64_at(data@, 36)
            &&& t.decimals == data@[44]
            &&& (t.mint_authority is Some <==> coption_some_tag(data@, 0))
            &&& (t.mint_authority matches Some(k) ==> k@ == data@.subrange(4, 36))
            &&& (t.freeze_authority is Some <==> coption_some_tag(data@, 46))
            &&& (t.freeze_authority matches Some(k) ==> k@ == data@.subrange(50, 82))
        },
{
    match unpack_mint(data) {
        Some(m) => Some(
            TokenStats {
                mint_address,
                supply: m.supply,
                decimals: m.decimals,
                mint_authority: m.mint_authority,
                freeze_authority: m.freeze_authority,
            },
        ),
        None => None,
    }
}

/// The single atomic operation the gateway submits to deliver tokens:
/// create the recipient's receiving account if it has none, then mint
/// `base_units` to it.
#[derive(Clone, Copy, PartialEq, Eq, Structural, Debug)]
pub struct MintPlan {
    pub create_recipient_account: bool,
    pub base_units: u64,
}

/// Plans the mint-and-deliver operation for `token_amount` whole tokens
/// on a mint with `decimals` decimal places, given whether the recipient
/// already has a receiving account. Fails exactly when the minted amount
/// does not fit the ledger's 64-bit base units.
pub fn plan_mint(token_amount: u64, decimals: u8, recipient_has_account: bool) -> (r: Result<
    MintPlan,
    InputError,
>)
    ensures
        r matches Ok(p) ==> {
            &&& p.create_recipient_account == !recipient_has_account
            &&& p.base_units == token_amount * pow10(decimals as nat)
        },
        r is Err <==> token_amount * pow10(decimals as nat) > u64::MAX,
        r matches Err(e) ==> e == InputError::AmountOverflow,
{
    match to_base_units(token_amount, decimals) {
        Some(base_units) => Ok(
            MintPlan { create_recipient_account: !recipient_has_account, base_units },
        ),
        None => Err(InputError::AmountOverflow),
    }
}

/// How a submitted mint-and-deliver operation ended.
pub enum MintOutcome {
    /// The network confirmed the operation; its signature is the
    /// delivery proof.
    Delivered { signature: Vec<u8> },
    /// Submission or confirmation failed definitively: no tokens moved.
    TransferFailed,
    /// The network accepted the submission but confirmation timed out:
    /// the mint may or may not have happened, so the outcome needs an
    /// operator's reconciliation, never a blind retry.
    TransferUnconfirmed,
}

} // verus!
