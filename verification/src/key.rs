//! The public key of a signer, as this crate hands it out.

use crate::wire::PUBLIC_KEY_LEN;
use vstd::prelude::*;

verus! {

/// The 32 bytes of an Ed25519 public key.
///
/// This crate locates and copies the bytes and gives them no further
/// meaning; a caller turns them into the key type of its own platform.
#[derive(Clone, Copy, Debug, PartialEq, Eq)]
pub struct PublicKey(pub [u8; PUBLIC_KEY_LEN]);

impl View for PublicKey {
    type V = Seq<u8>;

    open spec fn view(&self) -> Seq<u8> {
        self.0@
    }
}

} // verus!
