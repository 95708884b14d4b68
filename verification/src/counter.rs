//! The counter entity: a bounded unsigned counter owned by an authority,
//! mutable directly or through a session credential, and delegable to an
//! execution layer.

use vstd::prelude::*;
use crate::Pubkey;
use crate::auth::{authorize, authorized, SessionCredential};
use crate::lifecycle::{
    spec_commit, spec_commit_and_undelegate, spec_delegate, spec_store, LifecycleError,
    StateAccount,
};

verus! {

/// Counting past this value wraps the counter back to zero.
pub const COUNT_CEILING: u64 = 1000;

/// The counter account's payload.
#[derive(Clone, Copy, Debug)]
pub struct Counter {
    /// The current count value.
    pub count: u64,
    /// The authority who can update the counter.
    pub authority: Pubkey,
}

/// Errors of the counter's own mutation rules.
#[derive(Clone, Copy, Debug, PartialEq, Eq, Structural)]
pub enum CounterError {
    /// The counter cannot go below zero.
    CounterUnderflow,
    /// The signer is not the authority and holds no valid session credential.
    InvalidAuth,
}

/// Inputs for creating a counter account.
pub struct Initialize {
    /// The derived address the account will live at.
    pub address: Pubkey,
    /// The authority who will own the account.
    pub authority: Pubkey,
}

/// Per-call context of a mutation request.
pub struct Update {
    /// The key that signed this request.
    pub signer: Pubkey,
    /// An optional session credential presented with the request.
    pub session_token: Option<SessionCredential>,
    /// The program the request targets; session credentials are scoped to it.
    pub program: Pubkey,
    /// The current unix timestamp, for credential expiry.
    pub now: i64,
}

/// Inputs for delegating the counter account.
pub struct DelegateInput {
    /// The authority requesting the delegation.
    pub payer: Pubkey,
    /// An optional specific execution-layer validator to pin.
    pub validator: Option<Pubkey>,
}

/// Inputs for commit and undelegate operations.
pub struct CommitInput {
    /// The authority requesting the commit.
    pub payer: Pubkey,
}

/// Whether the request context authorizes mutating this counter account.
pub open spec fn update_authorized(a: StateAccount<Counter>, ctx: Update) -> bool {
    authorized(a.payload.authority, ctx.signer, ctx.session_token, ctx.program, ctx.now)
}

/// One increment step: adds one, wrapping to zero past the ceiling.
pub open spec fn wrapped_increment(n: u64) -> u64 {
    if n + 1 > COUNT_CEILING {
        0u64
    } else {
        (n + 1) as u64
    }
}

/// Create a counter account with count zero, owned by the caller's authority.
pub fn initialize(ctx: &Initialize) -> (a: StateAccount<Counter>)
    ensures
        a.address == ctx.address,
        a.payload == (Counter { count: 0, authority: ctx.authority }),
        a.base_snapshot == a.payload,
        a.delegation_state is Local,
        a.validator is None,
        a.wf(),
{
    StateAccount::new(ctx.address, Counter { count: 0, authority: ctx.authority })
}

/// Increment the counter by one, wrapping to zero past the ceiling.
pub fn increment(account: &mut StateAccount<Counter>, ctx: &Update) -> (r: Result<
    (),
    CounterError,
>)
    requires
        old(account).payload.count < u64::MAX,
    ensures
        ({
            let a0 = *old(account);
            if update_authorized(a0, *ctx) {
                &&& r is Ok
                &&& *final(account) == spec_store(
                    a0,
                    (Counter {
                        count: wrapped_increment(a0.payload.count),
                        authority: a0.payload.authority,
                    }),
                )
            } else {
                &&& r == Err::<(), CounterError>(CounterError::InvalidAuth)
                &&& *final(account) == a0
            }
        }),
        old(account).wf() ==> final(account).wf(),
{
    if !authorize(&account.payload.authority, &ctx.signer, &ctx.session_token, &ctx.program, ctx.now) {
        return Err(CounterError::InvalidAuth);
    }
    let mut c = account.payload;
    c.count = c.count + 1;
    if c.count > COUNT_CEILING {
        c.count = 0;
    }
    account.store(c);
    Ok(())
}

/// Decrement the counter by one; fails at zero with `CounterUnderflow`.
pub fn decrement(account: &mut StateAccount<Counter>, ctx: &Update) -> (r: Result<
    (),
    CounterError,
>)
    ensures
        ({
            let a0 = *old(account);
            if !update_authorized(a0, *ctx) {
                &&& r == Err::<(), CounterError>(CounterError::InvalidAuth)
                &&& *final(account) == a0
            } else if a0.payload.count == 0 {
                &&& r == Err::<(), CounterError>(CounterError::CounterUnderflow)
                &&& *final(account) == a0
            } else {
                &&& r is Ok
                &&& *final(account) == spec_store(
                    a0,
                    (Counter {
                        count: (a0.payload.count - 1) as u64,
                        authority: a0.payload.authority,
                    }),
                )
            }
        }),
        old(account).wf() ==> final(account).wf(),
{
    if !authorize(&account.payload.authority, &ctx.signer, &ctx.session_token, &ctx.program, ctx.now) {
        return Err(CounterError::InvalidAuth);
    }
    if account.payload.count == 0 {
        return Err(CounterError::CounterUnderflow);
    }
    let mut c = account.payload;
    c.count = c.count - 1;
    account.store(c);
    Ok(())
}

/// Set the counter to an arbitrary value, with no ceiling check: an
/// authority-level override.
pub fn set(account: &mut StateAccount<Counter>, ctx: &Update, value: u64) -> (r: Result<
    (),
    CounterError,
>)
    ensures
        ({
            let a0 = *old(account);
            if update_authorized(a0, *ctx) {
                &&& r is Ok
                &&& *final(account) == spec_store(
                    a0,
                    (Counter { count: value, authority: a0.payload.authority }),
                )
            } else {
                &&& r == Err::<(), CounterError>(CounterError::InvalidAuth)
                &&& *final(account) == a0
            }
        }),
        old(account).wf() ==> final(account).wf(),
{
    if !authorize(&account.payload.authority, &ctx.signer, &ctx.session_token, &ctx.program, ctx.now) {
        return Err(CounterError::InvalidAuth);
    }
    let mut c = account.payload;
    c.count = value;
    account.store(c);
    Ok(())
}

/// Delegate the counter account to an execution layer.
pub fn delegate(account: &mut StateAccount<Counter>, ctx: &DelegateInput) -> (r: Result<
    (),
    LifecycleError,
>)
    requires
        ctx.payer == old(account).payload.authority,
    ensures
        (*final(account), r) == spec_delegate(*old(account), ctx.validator),
        old(account).wf() ==> final(account).wf(),
{
    account.delegate(ctx.validator)
}

/// Publish the counter's working copy to the base layer, staying delegated.
pub fn commit(account: &mut StateAccount<Counter>, ctx: &CommitInput) -> (r: Result<
    (),
    LifecycleError,
>)
    requires
        ctx.payer == old(account).payload.authority,
    ensures
        (*final(account), r) == spec_commit(*old(account)),
        old(account).wf() ==> final(account).wf(),
{
    account.commit()
}

/// Publish the counter's working copy and return it to the base layer.
pub fn undelegate(account: &mut StateAccount<Counter>, ctx: &CommitInput) -> (r: Result<
    (),
    LifecycleError,
>)
    requires
        ctx.payer == old(account).payload.authority,
    ensures
        (*final(account), r) == spec_commit_and_undelegate(*old(account)),
        old(account).wf() ==> final(account).wf(),
{
    account.commit_and_undelegate()
}

} // verus!
