use netprotocol::Error;
use netprotocol::kdf::{
    derive_seed, IDENTITY_M_COST, IDENTITY_P_COST, IDENTITY_T_COST, SEED_LEN,
};
use netprotocol::secret::SecretBuf;

// Small costs keep the memory-hard function affordable in a test while
// exercising the same code path as the identity setting.
const M: u32 = 1024;
const T: u32 = 2;
const P: u32 = 1;

fn buf(bytes: &[u8]) -> SecretBuf {
    SecretBuf::new(bytes.to_vec())
}

#[test]
fn identity_costs_are_fixed() {
    assert_eq!(IDENTITY_M_COST, 131072);
    assert_eq!(IDENTITY_T_COST, 16);
    assert_eq!(IDENTITY_P_COST, 8);
    assert_eq!(SEED_LEN, 32);
}

#[test]
fn derivation_is_deterministic() {
    let a = derive_seed(&buf(b"correct horse"), &buf(&[7u8; 32]), M, T, P).unwrap();
    let b = derive_seed(&buf(b"correct horse"), &buf(&[7u8; 32]), M, T, P).unwrap();
    assert_eq!(a.bytes(), b.bytes());
    assert_eq!(a.bytes().len(), SEED_LEN);
}

#[test]
fn differing_salt_changes_the_seed() {
    let a = derive_seed(&buf(b"correct horse"), &buf(&[7u8; 32]), M, T, P).unwrap();
    let b = derive_seed(&buf(b"correct horse"), &buf(&[8u8; 32]), M, T, P).unwrap();
    assert_ne!(a.bytes(), b.bytes());
}

#[test]
fn differing_password_changes_the_seed() {
    let a = derive_seed(&buf(b"correct horse"), &buf(&[7u8; 32]), M, T, P).unwrap();
    let b = derive_seed(&buf(b"battery staple"), &buf(&[7u8; 32]), M, T, P).unwrap();
    assert_ne!(a.bytes(), b.bytes());
}

#[test]
fn derivation_matches_the_underlying_function() {
    // The same inputs handed to the derivation crate directly must reproduce
    // the library's output byte for byte.
    let seed = derive_seed(&buf(b"pw"), &buf(&[1u8; 32]), M, T, P).unwrap();
    let params = argon2::Params::new(M, T, P, None).unwrap();
    let ctx = argon2::Argon2::new(argon2::Algorithm::Argon2id, argon2::Version::V0x13, params);
    let mut expected = [0u8; 32];
    ctx.hash_password_into(b"pw", &[1u8; 32], &mut expected).unwrap();
    assert_eq!(seed.bytes().as_slice(), &expected);
}

#[test]
fn short_salt_is_a_derivation_failure() {
    let r = derive_seed(&buf(b"pw"), &buf(&[1u8; 4]), M, T, P);
    assert_eq!(r.err(), Some(Error::KeyDerivation));
}

#[test]
fn out_of_range_costs_are_a_derivation_failure() {
    // Memory cost below the function's floor.
    let r = derive_seed(&buf(b"pw"), &buf(&[1u8; 32]), 4, T, P);
    assert_eq!(r.err(), Some(Error::KeyDerivation));
    // Zero iterations.
    let r = derive_seed(&buf(b"pw"), &buf(&[1u8; 32]), M, 0, P);
    assert_eq!(r.err(), Some(Error::KeyDerivation));
    // Zero parallelism.
    let r = derive_seed(&buf(b"pw"), &buf(&[1u8; 32]), M, T, 0);
    assert_eq!(r.err(), Some(Error::KeyDerivation));
}

#[test]
fn secret_buf_holds_its_bytes() {
    let b = SecretBuf::new(vec![1, 2, 3]);
    assert_eq!(b.bytes().as_slice(), &[1, 2, 3]);
    assert_eq!(b.len(), 3);
}
