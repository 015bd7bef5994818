//! The peripheral-ownership singleton.
//!
//! The hardware of a board can be claimed once. Instead of a flag in ambient
//! global state, the claim is an owned value: it is built once, around the
//! hardware, and it gives the hardware away to the first claimant. Every later
//! claim reports a conflict.

use vstd::prelude::*;

verus! {

/// The hardware was already claimed.
#[derive(Clone, Copy, Debug, PartialEq, Eq, Structural)]
pub struct OwnershipConflict;

/// Holds the hardware until somebody claims it.
pub struct OwnershipSingleton<P> {
    hardware: Option<P>,
}

impl<P> View for OwnershipSingleton<P> {
    type V = Option<P>;

    /// The hardware that is still waiting to be claimed, if any.
    closed spec fn view(&self) -> Option<P> {
        self.hardware
    }
}

/// What a claim reports, given the hardware that is still unclaimed.
pub open spec fn claim_outcome<P>(unclaimed: Option<P>) -> Result<P, OwnershipConflict> {
    match unclaimed {
        Some(hardware) => Ok(hardware),
        None => Err(OwnershipConflict),
    }
}

/// What is left unclaimed after `claims` claims.
pub open spec fn after_claims<P>(unclaimed: Option<P>, claims: nat) -> Option<P> {
    if claims == 0 {
        unclaimed
    } else {
        None
    }
}

impl<P> OwnershipSingleton<P> {
    /// The single entry point: wraps the hardware, unclaimed.
    pub fn new(hardware: P) -> (singleton: Self)
        ensures
            singleton@ == Some(hardware),
    {
        OwnershipSingleton { hardware: Some(hardware) }
    }

    /// Whether the hardware has been claimed.
    pub fn is_claimed(&self) -> (claimed: bool)
        ensures
            claimed == (self@ is None),
    {
        self.hardware.is_none()
    }

    /// Claims the hardware. The first claim gets it; every claim after that
    /// reports the conflict, and nothing can make the hardware claimable
    /// again.
    pub fn claim(&mut self) -> (claim: Result<P, OwnershipConflict>)
        ensures
            claim == claim_outcome(old(self)@),
            final(self)@ == after_claims(old(self)@, 1),
            final(self)@ is None,
    {
        match self.hardware.take() {
            Some(hardware) => Ok(hardware),
            None => Err(OwnershipConflict),
        }
    }
}

/// The single-claim law: once one claim has been made, whether it succeeded or
/// not, every further claim reports the ownership conflict, however many
/// claims came in between.
pub proof fn second_claim_always_conflicts<P>(unclaimed: Option<P>, earlier_claims: nat)
    requires
        earlier_claims >= 1,
    ensures
        claim_outcome(after_claims(unclaimed, earlier_claims)) == Err::<P, OwnershipConflict>(
            OwnershipConflict,
        ),
        after_claims(after_claims(unclaimed, earlier_claims), 1) == after_claims(
            unclaimed,
            earlier_claims + 1,
        ),
{
}

/// At most one claim succeeds: if the claim after `first` earlier claims
/// succeeds and so does the claim after `second` earlier claims, they are the
/// same claim, the very first one.
pub proof fn at_most_one_claim_succeeds<P>(unclaimed: Option<P>, first: nat, second: nat)
    requires
        claim_outcome(after_claims(unclaimed, first)) is Ok,
        claim_outcome(after_claims(unclaimed, second)) is Ok,
    ensures
        first == 0,
        second == 0,
{
}

} // verus!
