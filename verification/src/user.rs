//! Buyer accounts and referral codes.
//!
//! A buyer account is created lazily the first time a wallet submits a
//! claim; each account carries a referral code drawn from a fixed
//! alphabet, and an optional non-owning reference to the account that
//! referred it.

use vstd::prelude::*;
use rand::Rng;

verus! {

/// A buyer known to the pipeline, keyed by wallet address.
pub struct UserAccount {
    pub id: u64,
    pub wallet_address: Vec<u8>,
    pub is_whitelisted: bool,
    pub whitelist_tier: u32,
    /// Non-owning reference to the referring account, if any.
    pub referred_by: Option<u64>,
    pub referral_code: Vec<u8>,
}

/// A request to register a buyer account directly (outside a claim).
pub struct CreateUserRequest {
    pub wallet_address: Vec<u8>,
    pub email: Option<Vec<u8>>,
    pub discord_username: Option<Vec<u8>>,
    pub twitter_username: Option<Vec<u8>>,
    pub referral_code: Option<Vec<u8>>,
}

/// A request to update a buyer account's contact details.
pub struct UpdateUserRequest {
    pub email: Option<Vec<u8>>,
    pub discord_username: Option<Vec<u8>>,
    pub twitter_username: Option<Vec<u8>>,
}

/// How many characters a referral code has.
pub const REFERRAL_CODE_LEN: usize = 8;

/// Bytes a referral code is drawn from: the upper-case letters followed
/// by the ten digits.
pub open spec fn referral_alphabet_byte(b: u8) -> bool {
    (65 <= b <= 90) || (48 <= b <= 57)
}

/// A well-formed referral code: fixed length, drawn from the alphabet.
pub open spec fn valid_referral_code(s: Seq<u8>) -> bool {
    &&& s.len() == REFERRAL_CODE_LEN
    &&& forall|i: int| 0 <= i < s.len() ==> referral_alphabet_byte(#[trigger] s[i])
}

/// Relies on `rand::Rng::gen_range` on a thread-local generator: for a
/// non-empty range `0..bound` it returns a value of the range (and would
/// panic on an empty one, which the precondition rules out). Nothing more
/// is assumed: the result is random.
#[verifier::external_body]
fn random_below(bound: usize) -> (r: usize)
    requires
        bound > 0,
    ensures
        r < bound,
{
    rand::thread_rng().gen_range(0..bound)
}

/// The referral-code alphabet as an indexable table.
fn referral_alphabet() -> (v: Vec<u8>)
    ensures
        v@.len() == 36,
        forall|i: int| 0 <= i < v@.len() ==> referral_alphabet_byte(#[trigger] v@[i]),
{
    let mut v: Vec<u8> = Vec::new();
    let mut b: u8 = 65;
    while b <= 90
        invariant
            65 <= b <= 91,
            v@.len() == b - 65,
            forall|i: int| 0 <= i < v@.len() ==> referral_alphabet_byte(#[trigger] v@[i]),
        decreases 91 - b,
    {
        v.push(b);
        b = b + 1;
    }
    let mut d: u8 = 48;
    while d <= 57
        invariant
            48 <= d <= 58,
            v@.len() == 26 + d - 48,
            forall|i: int| 0 <= i < v@.len() ==> referral_alphabet_byte(#[trigger] v@[i]),
        decreases 58 - d,
    {
        v.push(d);
        d = d + 1;
    }
    v
}

impl UserAccount {
    /// Draws a fresh referral code: eight characters, each picked at
    /// random from the upper-case letters and digits.
    pub fn generate_referral_code() -> (code: Vec<u8>)
        ensures
            valid_referral_code(code@),
    {
        let alphabet = referral_alphabet();
        let mut code: Vec<u8> = Vec::new();
        let mut k: usize = 0;
        while k < REFERRAL_CODE_LEN
            invariant
                k <= REFERRAL_CODE_LEN,
                code@.len() == k,
                alphabet@.len() == 36,
                forall|i: int|
                    0 <= i < alphabet@.len() ==> referral_alphabet_byte(#[trigger] alphabet@[i]),
                forall|i: int| 0 <= i < code@.len() ==> referral_alphabet_byte(#[trigger] code@[i]),
            decreases REFERRAL_CODE_LEN - k,
        {
            let idx = random_below(alphabet.len());
            code.push(alphabet[idx]);
            k = k + 1;
        }
        code
    }
}

} // verus!
