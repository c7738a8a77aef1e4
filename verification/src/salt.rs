//! The salt store's decision logic: a fixed-size random value is persisted on
//! first use and thereafter reused verbatim. Reading and writing the file is
//! the caller's; the choice of which bytes become the salt, and whether they
//! must be persisted, is decided and verified here.

use vstd::prelude::*;

use crate::Error;
use crate::secret::SecretBuf;

verus! {

/// Length in bytes of the persisted salt.
pub const SALT_LEN: usize = 32;

/// What reading the persisted salt yielded: the stored bytes, nothing (the
/// file is absent), or a failure for any other reason.
pub enum SaltLoad {
    Found(Vec<u8>),
    Missing,
    Failed,
}

/// Settles the salt for this run. A stored salt of the right size is reused
/// verbatim and nothing needs to be persisted. An absent salt is replaced by
/// the caller-supplied fresh random bytes, which must then be persisted. A
/// stored salt of the wrong size, or any other read failure, is a storage
/// failure and yields no salt.
pub fn resolve_salt(load: SaltLoad, fresh: Vec<u8>) -> (r: Result<(SecretBuf, bool), Error>)
    requires
        fresh@.len() == SALT_LEN,
    ensures
        load matches SaltLoad::Found(stored) ==> ((stored@.len() == SALT_LEN ==> (r matches Ok(p)
            && p.0@ == stored@ && p.1 == false)) && (stored@.len() != SALT_LEN ==> (
            r matches Err(e) && e == Error::Storage))),
        load is Missing ==> (r matches Ok(p) && p.0@ == fresh@ && p.1 == true),
        load is Failed ==> (r matches Err(e) && e == Error::Storage),
        r matches Ok(p) ==> p.0@.len() == SALT_LEN,
{
    match load {
        SaltLoad::Found(stored) => {
            if stored.len() == SALT_LEN {
                Ok((SecretBuf::new(stored), false))
            } else {
                Err(Error::Storage)
            }
        }
        SaltLoad::Missing => Ok((SecretBuf::new(fresh), true)),
        SaltLoad::Failed => Err(Error::Storage),
    }
}

} // verus!
