//! Password-to-seed derivation: a memory-hard function turns an operator
//! password and a persisted salt into a deterministic fixed-length seed, from
//! which the long-term identity keypair is expanded.

use vstd::prelude::*;

use crate::Error;
use crate::secret::SecretBuf;

verus! {

/// Length in bytes of a derived seed.
pub const SEED_LEN: usize = 32;

/// Memory cost of the identity derivation, in KiB (128 MiB), chosen to resist
/// offline brute-forcing of weak passwords at interactive-login cost.
pub const IDENTITY_M_COST: u32 = 131072;

/// Iteration count of the identity derivation.
pub const IDENTITY_T_COST: u32 = 16;

/// Parallelism factor of the identity derivation.
pub const IDENTITY_P_COST: u32 = 8;

/// The seed that the memory-hard derivation assigns to a password, a salt and
/// a cost triple; a pure function of those arguments alone.
pub uninterp spec fn argon2id_seed(
    password: Seq<u8>,
    salt: Seq<u8>,
    m_cost: u32,
    t_cost: u32,
    p_cost: u32,
) -> Seq<u8>;

/// The inputs the derivation function is defined on: in-range costs, at least
/// eight bytes of salt, and password and salt lengths that fit the function's
/// 32-bit size fields.
pub open spec fn derivation_accepts(
    password_len: nat,
    salt_len: nat,
    m_cost: u32,
    t_cost: u32,
    p_cost: u32,
) -> bool {
    &&& 8 <= m_cost
    &&& 1 <= p_cost <= 0xFFFFFF
    &&& 8 * (p_cost as int) <= m_cost as int
    &&& 1 <= t_cost
    &&& 8 <= salt_len <= 0xFFFFFFFF
    &&& password_len <= 0xFFFFFFFF
}

/// Relies on `argon2::Argon2::hash_password_into` (algorithm Argon2id,
/// version 0x13), with `argon2::Params::new` validating the cost triple: the
/// output is a pure function of (password, salt, costs); out-of-range costs
/// or lengths are rejected; the computation itself can still fail (the
/// function's memory blocks cannot be allocated), so success is not promised.
#[verifier::external_body]
fn argon2id_derive(
    password: &[u8],
    salt: &[u8],
    m_cost: u32,
    t_cost: u32,
    p_cost: u32,
) -> (r: Result<Vec<u8>, ()>)
    ensures
        r matches Ok(seed) ==> seed@.len() == SEED_LEN,
        r matches Ok(seed) ==> seed@ == argon2id_seed(password@, salt@, m_cost, t_cost, p_cost),
        r is Ok ==> derivation_accepts(password@.len(), salt@.len(), m_cost, t_cost, p_cost),
        !derivation_accepts(password@.len(), salt@.len(), m_cost, t_cost, p_cost) ==> r is Err,
{
    let params = match argon2::Params::new(m_cost, t_cost, p_cost, None) {
        Ok(params) => params,
        Err(_) => return Err(()),
    };
    let ctx = argon2::Argon2::new(argon2::Algorithm::Argon2id, argon2::Version::V0x13, params);
    let mut seed = [0u8; 32];
    match ctx.hash_password_into(password, salt, &mut seed) {
        Ok(()) => Ok(seed.to_vec()),
        Err(_) => Err(()),
    }
}

/// Derives a fixed-length seed from (password, salt) at the given costs.
/// The result is pinned to the derivation function's value for exactly those
/// inputs; every failure is a key-derivation failure, and inputs outside the
/// derivation function's domain always fail.
pub fn derive_seed(
    password: &SecretBuf,
    salt: &SecretBuf,
    m_cost: u32,
    t_cost: u32,
    p_cost: u32,
) -> (r: Result<SecretBuf, Error>)
    ensures
        r matches Ok(seed) ==> seed@ == argon2id_seed(password@, salt@, m_cost, t_cost, p_cost),
        r matches Ok(seed) ==> seed@.len() == SEED_LEN,
        r is Ok ==> derivation_accepts(password@.len(), salt@.len(), m_cost, t_cost, p_cost),
        !derivation_accepts(password@.len(), salt@.len(), m_cost, t_cost, p_cost) ==> r is Err,
        r matches Err(e) ==> e == Error::KeyDerivation,
{
    match argon2id_derive(password.bytes().as_slice(), salt.bytes().as_slice(), m_cost, t_cost, p_cost) {
        Ok(seed) => Ok(SecretBuf::new(seed)),
        Err(()) => Err(Error::KeyDerivation),
    }
}

/// The seed of the long-term identity for (password, salt) at the fixed
/// interactive-login cost setting.
pub open spec fn identity_seed(password: Seq<u8>, salt: Seq<u8>) -> Seq<u8> {
    argon2id_seed(password, salt, IDENTITY_M_COST, IDENTITY_T_COST, IDENTITY_P_COST)
}

/// Law: seed derivation is deterministic. Two seeds derived from an identical
/// password and an identical salt are byte-identical; the same then holds of
/// the keypairs expanded from them, since the expansion reads the seed alone.
pub proof fn lemma_identity_seed_deterministic(
    password: Seq<u8>,
    salt: Seq<u8>,
    seed1: Seq<u8>,
    seed2: Seq<u8>,
)
    requires
        seed1 == identity_seed(password, salt),
        seed2 == identity_seed(password, salt),
    ensures
        seed1 == seed2,
{
}

} // verus!
