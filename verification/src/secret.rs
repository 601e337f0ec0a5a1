//! Secret-bearing byte buffers.
//!
//! Buffers holding secret-adjacent material (plaintext, MAC values and the
//! like) are owned exclusively by the payload that carries them. They are
//! kept in [`zeroize::Zeroizing`], whose drop handler actively overwrites
//! the backing storage on every exit path, error paths included. The
//! wrapper type cannot be declared to the verifier (its type parameter is
//! bound by the outside crate's `Zeroize` trait), so it sits in a private
//! field of [`SecretBytes`]; what the buffer holds is named by
//! [`secret_bytes`], and the few operations the library needs are trusted
//! wrappers around the outside crate.

use vstd::prelude::*;
use zeroize::Zeroize;
use zeroize::Zeroizing;

verus! {

/// An owned byte buffer whose backing storage is actively erased when the
/// buffer is dropped.
#[verifier::external_body]
#[derive(Debug)]
pub struct SecretBytes {
    data: Zeroizing<Vec<u8>>,
}

/// The bytes a secret buffer holds.
pub uninterp spec fn secret_bytes(z: SecretBytes) -> Seq<u8>;

impl View for SecretBytes {
    type V = Seq<u8>;

    open spec fn view(&self) -> Seq<u8> {
        secret_bytes(*self)
    }
}

impl SecretBytes {
    /// Relies on `zeroize::Zeroizing::new`: the wrapper holds exactly the
    /// value it was given, and zeroizes it on drop.
    #[verifier::external_body]
    pub fn new(v: Vec<u8>) -> (z: SecretBytes)
        ensures
            secret_bytes(z) == v@,
    {
        SecretBytes { data: Zeroizing::new(v) }
    }

    /// Relies on `zeroize::Zeroizing`'s `Deref` to the wrapped `Vec<u8>`:
    /// reading gives the held bytes back, as a fresh unwrapped copy.
    #[verifier::external_body]
    pub fn to_vec(&self) -> (v: Vec<u8>)
        ensures
            v@ == secret_bytes(*self),
    {
        (*self.data).clone()
    }
}

impl PartialEq for SecretBytes {
    /// Two buffers are equal exactly when they hold the same bytes.
    fn eq(&self, other: &SecretBytes) -> (r: bool) {
        let a = self.to_vec();
        let b = other.to_vec();
        let r = a == b;
        proof {
            if r {
                assert(a@ =~= b@);
            }
            if self@ == other@ {
                assert(a@ =~= b@);
            }
        }
        r
    }
}

impl vstd::std_specs::cmp::PartialEqSpecImpl for SecretBytes {
    open spec fn obeys_eq_spec() -> bool {
        true
    }

    open spec fn eq_spec(&self, other: &SecretBytes) -> bool {
        self@ == other@
    }
}

/// Relies on `zeroize::Zeroize` for `Vec<u8>`: zeroizing overwrites the
/// vector's backing storage, its spare capacity included, and empties it.
#[verifier::external_body]
pub fn zeroize_vec(v: &mut Vec<u8>)
    ensures
        final(v)@ == Seq::<u8>::empty(),
{
    v.zeroize()
}

} // verus!
