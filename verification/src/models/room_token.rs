//! Random tokens that name rooms. A token is only made by the random draw:
//! its bytes are private and no other constructor exists, so a room that is
//! stated to be named by some token is named by a drawn one.

use vstd::prelude::*;
use crate::models::room::is_ascii_alphanumeric;
use rand::Rng;

verus! {

/// A token drawn at random.
pub struct RoomToken {
    bytes: Vec<u8>,
}

impl RoomToken {
    /// The bytes of the token.
    pub closed spec fn bytes_view(&self) -> Seq<u8> {
        self.bytes@
    }

    /// The bytes of the token.
    pub fn bytes(&self) -> (b: &Vec<u8>)
        ensures
            b@ == self.bytes_view(),
    {
        &self.bytes
    }
}

/// Draws `len` random ASCII letters and digits with `rand`'s thread-local
/// generator and its `Alphanumeric` distribution, as a token. Which
/// characters come out is chance; the contract states only the length and
/// the alphabet, which the distribution's source fixes. `thread_rng` panics
/// where the operating system gives it no seed; nothing here rules that out.
#[verifier::external_body]
pub(crate) fn random_alphanumeric(len: usize) -> (token: RoomToken)
    ensures
        token.bytes_view().len() == len,
        forall|i: int| 0 <= i < len ==> is_ascii_alphanumeric(#[trigger] token.bytes_view()[i]),
{
    RoomToken {
        bytes: rand::thread_rng().sample_iter(&rand::distributions::Alphanumeric).take(len).collect(),
    }
}

} // verus!
