//! Whitelist and allocation checks.
//!
//! Eligibility is decided before any ledger work, so an ineligible claim
//! costs no verification. When the whitelist is disabled every buyer is
//! eligible; when it is enabled, the buyer must be whitelisted and the
//! claim must fit what is left of the buyer's allocation.

use vstd::prelude::*;
use crate::errors::EligibilityError;

verus! {

/// A buyer's allocation on the whitelist: how much they may buy in total
/// and how much of that is already used. The invariant
/// `used_allocation <= max_allocation` holds at all times.
#[derive(Clone, Copy, PartialEq, Eq, Structural, Debug)]
pub struct AllocationEntry {
    pub user_id: u64,
    pub max_allocation: u64,
    pub used_allocation: u64,
}

impl AllocationEntry {
    /// The allocation invariant: never more used than granted.
    pub open spec fn wf(&self) -> bool {
        self.used_allocation <= self.max_allocation
    }

    /// What is left of the allocation.
    pub open spec fn spec_remaining(&self) -> int {
        self.max_allocation - self.used_allocation
    }

    /// What is left of the allocation.
    pub fn remaining(&self) -> (r: u64)
        requires
            self.wf(),
        ensures
            r == self.spec_remaining(),
    {
        self.max_allocation - self.used_allocation
    }

    /// Books a confirmed purchase against the allocation. Fails exactly
    /// when the amount exceeds what is left, and then changes nothing, so
    /// the invariant is preserved either way.
    pub fn consume(&mut self, token_amount: u64) -> (r: Result<(), EligibilityError>)
        requires
            old(self).wf(),
        ensures
            final(self).wf(),
            r is Ok <==> token_amount <= old(self).spec_remaining(),
            r is Ok ==> *final(self) == (AllocationEntry {
                used_allocation: (old(self).used_allocation + token_amount) as u64,
                ..*old(self)
            }),
            r is Err ==> *final(self) == *old(self) && r == Err::<(), EligibilityError>(
                EligibilityError::ExceedsAllocation {
                    remaining: (old(self).max_allocation - old(self).used_allocation) as u64,
                },
            ),
    {
        let rem = self.remaining();
        if token_amount <= rem {
            self.used_allocation = self.used_allocation + token_amount;
            Ok(())
        } else {
            Err(EligibilityError::ExceedsAllocation { remaining: rem })
        }
    }
}

/// Whether a claim for `token_amount` tokens is eligible: the whitelist
/// is disabled, or the buyer is whitelisted and the amount fits whatever
/// allocation entry the whitelist holds for them.
pub open spec fn spec_eligible(
    whitelist_enabled: bool,
    is_whitelisted: bool,
    allocation: Option<AllocationEntry>,
    token_amount: u64,
) -> bool {
    !whitelist_enabled || (is_whitelisted && (allocation matches Some(a) ==> token_amount
        <= a.spec_remaining()))
}

/// Decides eligibility. Rejects exactly the ineligible claims: first a
/// buyer missing from an enabled whitelist, then an amount over the
/// remaining allocation (reported so the buyer can resize the claim).
pub fn check_eligible(
    whitelist_enabled: bool,
    is_whitelisted: bool,
    allocation: Option<&AllocationEntry>,
    token_amount: u64,
) -> (r: Result<(), EligibilityError>)
    requires
        allocation matches Some(a) ==> a.wf(),
    ensures
        r is Ok <==> spec_eligible(
            whitelist_enabled,
            is_whitelisted,
            match allocation {
                Some(a) => Some(*a),
                None => None,
            },
            token_amount,
        ),
        r == Err::<(), EligibilityError>(EligibilityError::NotWhitelisted) <==> whitelist_enabled
            && !is_whitelisted,
        r matches Err(EligibilityError::ExceedsAllocation { remaining }) ==> {
            &&& whitelist_enabled
            &&& is_whitelisted
            &&& allocation matches Some(a) && token_amount > a.spec_remaining() && remaining
                == a.spec_remaining()
        },
{
    if !whitelist_enabled {
        return Ok(());
    }
    if !is_whitelisted {
        return Err(EligibilityError::NotWhitelisted);
    }
    match allocation {
        Some(entry) => {
            let rem = entry.remaining();
            if token_amount > rem {
                Err(EligibilityError::ExceedsAllocation { remaining: rem })
            } else {
                Ok(())
            }
        },
        None => Ok(()),
    }
}

} // verus!
