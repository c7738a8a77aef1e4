use netprotocol::Error;
use netprotocol::kdf::derive_seed;
use netprotocol::salt::{resolve_salt, SaltLoad, SALT_LEN};
use netprotocol::secret::SecretBuf;

#[test]
fn stored_salt_is_reused_verbatim() {
    let stored = vec![5u8; SALT_LEN];
    let (salt, persist) = resolve_salt(SaltLoad::Found(stored.clone()), vec![9u8; SALT_LEN]).unwrap();
    assert_eq!(salt.bytes(), &stored);
    assert!(!persist);
}

#[test]
fn missing_salt_takes_the_fresh_bytes_and_persists() {
    let fresh = vec![9u8; SALT_LEN];
    let (salt, persist) = resolve_salt(SaltLoad::Missing, fresh.clone()).unwrap();
    assert_eq!(salt.bytes(), &fresh);
    assert!(persist);
}

#[test]
fn wrong_size_stored_salt_is_a_storage_failure() {
    let r = resolve_salt(SaltLoad::Found(vec![5u8; SALT_LEN - 1]), vec![9u8; SALT_LEN]);
    assert_eq!(r.err(), Some(Error::Storage));
}

#[test]
fn unreadable_salt_is_a_storage_failure() {
    let r = resolve_salt(SaltLoad::Failed, vec![9u8; SALT_LEN]);
    assert_eq!(r.err(), Some(Error::Storage));
}

#[test]
fn two_runs_share_one_salt_and_one_seed() {
    // First run: no salt is stored yet; the fresh bytes are adopted and must
    // be persisted. Second run: the stored salt is read back and reused, so
    // the same password derives the identical seed.
    let password = SecretBuf::new(b"open sesame".to_vec());
    let fresh = vec![42u8; SALT_LEN];

    let (salt1, persist1) = resolve_salt(SaltLoad::Missing, fresh.clone()).unwrap();
    assert!(persist1);
    let seed1 = derive_seed(&password, &salt1, 1024, 2, 1).unwrap();

    let stored = salt1.bytes().clone();
    let (salt2, persist2) = resolve_salt(SaltLoad::Found(stored), vec![7u8; SALT_LEN]).unwrap();
    assert!(!persist2);
    let seed2 = derive_seed(&password, &salt2, 1024, 2, 1).unwrap();

    assert_eq!(seed1.bytes(), seed2.bytes());
}
