//! Scoped secret buffers: byte buffers whose backing memory is zeroed on every
//! exit path, used for passwords, salts and derived seeds.

use vstd::prelude::*;

verus! {

/// A secret byte buffer. The backing memory is wiped when the buffer is
/// dropped, on normal and error paths alike, to minimize how long the secret
/// stays in process memory. The field is opaque to the verifier: the buffer
/// type's `Zeroize` bound cannot be declared here, so the wrapper is held
/// behind this struct and described by [`guarded_bytes`].
#[verifier::external_body]
pub struct SecretBuf {
    buf: zeroize::Zeroizing<Vec<u8>>,
}

/// The bytes a [`SecretBuf`] holds.
pub uninterp spec fn guarded_bytes(b: &SecretBuf) -> Seq<u8>;

impl View for SecretBuf {
    type V = Seq<u8>;

    open spec fn view(&self) -> Seq<u8> {
        guarded_bytes(self)
    }
}

impl SecretBuf {
    /// Relies on `zeroize::Zeroizing::new`: wraps the buffer with its contents
    /// unchanged; the backing memory is zeroed when the buffer is dropped.
    #[verifier::external_body]
    pub fn new(bytes: Vec<u8>) -> (r: SecretBuf)
        ensures
            guarded_bytes(&r) == bytes@,
    {
        SecretBuf { buf: zeroize::Zeroizing::new(bytes) }
    }

    /// Relies on `zeroize::Zeroizing`'s `Deref` impl: hands out the guarded
    /// bytes unchanged.
    #[verifier::external_body]
    pub fn bytes(&self) -> (r: &Vec<u8>)
        ensures
            r@ == guarded_bytes(self),
    {
        &*self.buf
    }

    /// Length of the guarded bytes.
    pub fn len(&self) -> (r: usize)
        ensures
            r == self@.len(),
    {
        self.bytes().len()
    }
}

} // verus!
