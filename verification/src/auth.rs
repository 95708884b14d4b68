//! Authorization engine: a mutation request is allowed when its signer is the
//! account's primary authority, or when it carries a valid, unexpired session
//! credential scoped to that authority and program.

use vstd::prelude::*;
use crate::{key_eq, Pubkey};

verus! {

/// A time- and scope-limited signing right issued on behalf of an authority.
/// Mirrors the fields a session token carries on chain; this crate only reads
/// such credentials, it never creates them.
#[derive(Clone, Copy, Debug)]
pub struct SessionCredential {
    /// The primary authority the credential was issued for.
    pub authority: Pubkey,
    /// The program the credential is scoped to.
    pub target_program: Pubkey,
    /// The key allowed to sign on the authority's behalf.
    pub session_signer: Pubkey,
    /// The credential is valid strictly before this unix timestamp.
    pub valid_until: i64,
}

/// A credential authorizes `signer` to act for `account_authority` on
/// `program` at time `now`: issued for that authority, naming that signer,
/// scoped to that program, and not yet expired.
pub open spec fn session_valid(
    credential: SessionCredential,
    account_authority: Pubkey,
    signer: Pubkey,
    program: Pubkey,
    now: i64,
) -> bool {
    &&& credential.authority == account_authority
    &&& credential.session_signer == signer
    &&& credential.target_program == program
    &&& now < credential.valid_until
}

/// A request is authorized when the signer is the primary authority itself,
/// or a presented credential validly delegates to the signer.
pub open spec fn authorized(
    account_authority: Pubkey,
    signer: Pubkey,
    credential: Option<SessionCredential>,
    program: Pubkey,
    now: i64,
) -> bool {
    ||| signer == account_authority
    ||| (credential matches Some(c) && session_valid(c, account_authority, signer, program, now))
}

/// Gate for every state-mutating operation. Decides, without side effects,
/// whether the presented signer may mutate an account owned by
/// `account_authority`.
pub fn authorize(
    account_authority: &Pubkey,
    signer: &Pubkey,
    credential: &Option<SessionCredential>,
    program: &Pubkey,
    now: i64,
) -> (r: bool)
    ensures
        r == authorized(*account_authority, *signer, *credential, *program, now),
{
    if key_eq(signer, account_authority) {
        return true;
    }
    match credential {
        Some(c) => key_eq(&c.authority, account_authority) && key_eq(&c.session_signer, signer)
            && key_eq(&c.target_program, program) && now < c.valid_until,
        None => false,
    }
}

/// The primary authority always passes, whatever credential (or none)
/// accompanies the request.
pub proof fn lemma_authority_always_allowed(
    authority: Pubkey,
    credential: Option<SessionCredential>,
    program: Pubkey,
    now: i64,
)
    ensures
        authorized(authority, authority, credential, program, now),
{
}

} // verus!
