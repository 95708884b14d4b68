//! Delegation lifecycle manager: tracks whether the authoritative copy of an
//! account lives on the persistent base layer or on a transient execution
//! layer, and performs the three transitions between the two.

use vstd::prelude::*;
use crate::Pubkey;

verus! {

/// Which layer holds the authoritative copy of an account.
#[derive(Clone, Copy, Debug, PartialEq, Eq, Structural)]
pub enum DelegationState {
    /// The base layer is authoritative.
    Local,
    /// An execution layer is authoritative; the base layer holds a stale
    /// snapshot.
    Delegated,
}

/// A lifecycle transition was attempted from the wrong delegation state.
/// Fatal to the caller: no corrective retry with the same state can succeed.
#[derive(Clone, Copy, Debug, PartialEq, Eq, Structural)]
pub enum LifecycleError {
    InvalidState,
}

/// A state account as the two layers together see it: `payload` is the
/// authoritative working copy (held by the execution layer while delegated),
/// `base_snapshot` is what the base layer durably stores.
#[verifier::ext_equal]
#[derive(Clone, Copy, Debug)]
pub struct StateAccount<T> {
    /// Deterministic address derived from the owning authority.
    pub address: Pubkey,
    /// The authoritative working copy of the account's data.
    pub payload: T,
    /// The copy the base layer durably stores; equal to `payload` unless the
    /// account is delegated and commits are pending.
    pub base_snapshot: T,
    /// Which layer is authoritative.
    pub delegation_state: DelegationState,
    /// The execution-layer validator the account is pinned to while
    /// delegated, if one was named.
    pub validator: Option<Pubkey>,
}

/// Effect of `delegate`: only a Local account may be delegated; re-delegating
/// is rejected rather than treated as a no-op, since it could silently retarget
/// a different execution layer.
pub open spec fn spec_delegate<T>(a: StateAccount<T>, validator: Option<Pubkey>) -> (StateAccount<
    T,
>, Result<(), LifecycleError>) {
    if a.delegation_state is Delegated {
        (a, Err(LifecycleError::InvalidState))
    } else {
        (
            StateAccount {
                address: a.address,
                payload: a.payload,
                base_snapshot: a.base_snapshot,
                delegation_state: DelegationState::Delegated,
                validator,
            },
            Ok(()),
        )
    }
}

/// Effect of `commit`: publish the working copy to the base layer while
/// remaining delegated. Only legal while delegated.
pub open spec fn spec_commit<T>(a: StateAccount<T>) -> (StateAccount<T>, Result<
    (),
    LifecycleError,
>) {
    if a.delegation_state is Local {
        (a, Err(LifecycleError::InvalidState))
    } else {
        (
            StateAccount {
                address: a.address,
                payload: a.payload,
                base_snapshot: a.payload,
                delegation_state: DelegationState::Delegated,
                validator: a.validator,
            },
            Ok(()),
        )
    }
}

/// Effect of `commit_and_undelegate`: publish the working copy, then return
/// authoritative status to the base layer. Only legal while delegated.
pub open spec fn spec_commit_and_undelegate<T>(a: StateAccount<T>) -> (StateAccount<T>, Result<
    (),
    LifecycleError,
>) {
    if a.delegation_state is Local {
        (a, Err(LifecycleError::InvalidState))
    } else {
        (
            StateAccount {
                address: a.address,
                payload: a.payload,
                base_snapshot: a.payload,
                delegation_state: DelegationState::Local,
                validator: None,
            },
            Ok(()),
        )
    }
}

/// Effect of storing a mutated payload: while Local the base layer is
/// authoritative, so the stored copy moves with the working copy; while
/// delegated the base layer keeps its stale snapshot.
pub open spec fn spec_store<T>(a: StateAccount<T>, p: T) -> StateAccount<T> {
    StateAccount {
        address: a.address,
        payload: p,
        base_snapshot: if a.delegation_state is Local {
            p
        } else {
            a.base_snapshot
        },
        delegation_state: a.delegation_state,
        validator: a.validator,
    }
}

impl<T: Copy> StateAccount<T> {
    /// Exactly one layer is authoritative: while Local, the base layer's
    /// stored copy is the working copy and no validator is pinned.
    pub open spec fn wf(self) -> bool {
        self.delegation_state is Local ==> (self.base_snapshot == self.payload
            && self.validator is None)
    }

    /// A freshly created account: Local, with the base layer storing the
    /// initial payload.
    pub fn new(address: Pubkey, payload: T) -> (a: Self)
        ensures
            a.address == address,
            a.payload == payload,
            a.base_snapshot == payload,
            a.delegation_state is Local,
            a.validator is None,
            a.wf(),
    {
        StateAccount {
            address,
            payload,
            base_snapshot: payload,
            delegation_state: DelegationState::Local,
            validator: None,
        }
    }

    /// Move authoritative status to an execution layer, optionally pinning a
    /// specific validator. Rejected if the account is already delegated.
    pub fn delegate(&mut self, validator: Option<Pubkey>) -> (r: Result<(), LifecycleError>)
        ensures
            (*final(self), r) == spec_delegate(*old(self), validator),
            old(self).wf() ==> final(self).wf(),
    {
        match self.delegation_state {
            DelegationState::Delegated => Err(LifecycleError::InvalidState),
            DelegationState::Local => {
                self.delegation_state = DelegationState::Delegated;
                self.validator = validator;
                proof {
                    assert((*self, Ok::<(), LifecycleError>(())) =~= spec_delegate(
                        *old(self),
                        validator,
                    ));
                }
                Ok(())
            },
        }
    }

    /// Publish the current working copy to the base layer, staying delegated.
    /// Safe to repeat: with no intervening mutation it republishes the same
    /// snapshot. Rejected while Local.
    pub fn commit(&mut self) -> (r: Result<(), LifecycleError>)
        ensures
            (*final(self), r) == spec_commit(*old(self)),
            old(self).wf() ==> final(self).wf(),
    {
        match self.delegation_state {
            DelegationState::Local => Err(LifecycleError::InvalidState),
            DelegationState::Delegated => {
                self.base_snapshot = self.payload;
                proof {
                    assert((*self, Ok::<(), LifecycleError>(())) =~= spec_commit(*old(self)));
                }
                Ok(())
            },
        }
    }

    /// Publish the current working copy and return authoritative status to
    /// the base layer in one step. Rejected while Local.
    pub fn commit_and_undelegate(&mut self) -> (r: Result<(), LifecycleError>)
        ensures
            (*final(self), r) == spec_commit_and_undelegate(*old(self)),
            old(self).wf() ==> final(self).wf(),
    {
        match self.delegation_state {
            DelegationState::Local => Err(LifecycleError::InvalidState),
            DelegationState::Delegated => {
                self.base_snapshot = self.payload;
                self.delegation_state = DelegationState::Local;
                self.validator = None;
                proof {
                    assert((*self, Ok::<(), LifecycleError>(())) =~= spec_commit_and_undelegate(
                        *old(self),
                    ));
                }
                Ok(())
            },
        }
    }

    /// Record a mutated payload on the authoritative layer, mirroring it into
    /// the base layer's copy exactly when that layer is authoritative.
    pub fn store(&mut self, p: T)
        ensures
            *final(self) == spec_store(*old(self), p),
            old(self).wf() ==> final(self).wf(),
    {
        self.payload = p;
        match self.delegation_state {
            DelegationState::Local => {
                self.base_snapshot = p;
            },
            DelegationState::Delegated => {},
        }
        proof {
            assert(*self =~= spec_store(*old(self), p));
        }
    }
}

/// Committing is safe to repeat: with no intervening mutation a second
/// commit succeeds and republishes identical data, a no-op at the data
/// level.
pub proof fn lemma_commit_repeatable<T>(a: StateAccount<T>)
    requires
        a.delegation_state is Delegated,
    ensures
        ({
            let (a1, r1) = spec_commit(a);
            let (a2, r2) = spec_commit(a1);
            &&& r1 is Ok
            &&& r2 is Ok
            &&& a1.base_snapshot == a.payload
            &&& a2 == a1
        }),
{
}

/// After commit-and-undelegate the base layer is authoritative again: an
/// immediate further commit is refused as a wrong-state transition, while a
/// fresh delegation succeeds and makes the account Delegated once more.
pub proof fn lemma_undelegate_then_recommit<T>(a: StateAccount<T>, validator: Option<Pubkey>)
    requires
        a.delegation_state is Delegated,
    ensures
        ({
            let (a1, r1) = spec_commit_and_undelegate(a);
            let (a2, r2) = spec_commit(a1);
            let (a3, r3) = spec_delegate(a1, validator);
            &&& r1 is Ok
            &&& a1.delegation_state is Local
            &&& a1.base_snapshot == a.payload
            &&& r2 == Err::<(), LifecycleError>(LifecycleError::InvalidState)
            &&& a2 == a1
            &&& r3 is Ok
            &&& a3.delegation_state is Delegated
        }),
{
}

} // verus!
