//! Public keys of Lightning nodes.
use vstd::prelude::*;

use crate::hex::{hex, to_hex};

verus! {

/// What `text` says as a public key: the 33 bytes of the compressed point, or nothing where the
/// text is no hexadecimal encoding of a point on the curve.
pub uninterp spec fn key_of_text(text: Seq<char>) -> Option<Seq<u8>>;

/// A public key on the curve secp256k1, held in its compressed form.
#[derive(Clone, Copy, Debug, PartialEq, Eq, PartialOrd, Ord, Hash)]
pub struct PublicKey {
    bytes: [u8; 33],
}

impl View for PublicKey {
    type V = Seq<u8>;

    closed spec fn view(&self) -> Seq<u8> {
        self.bytes@
    }
}

/// The bytes of a compressed point: their text is read back as the same bytes.
pub open spec fn is_point(bytes: Seq<u8>) -> bool {
    key_of_text(hex(bytes)) == Some(bytes)
}

/// Calls `bitcoin::secp256k1::PublicKey::from_str`, and `serialize` on the key it gives.
///
/// Which texts are keys, and of which point, is left to the name `key_of_text`: `from_str` takes
/// the hexadecimal text of 33 or 65 bytes and has the curve library decode the point. Claimed
/// besides: what `serialize` gives are the 33 bytes of the compressed point, and their own
/// hexadecimal text is read back as that point.
#[verifier::external_body]
fn parse_point(text: &str) -> (bytes: Option<[u8; 33]>)
    ensures
        match bytes {
            Some(bytes) => key_of_text(text@) == Some(bytes@) && is_point(bytes@),
            None => key_of_text(text@) is None,
        },
{
    let key: Option<bitcoin::secp256k1::PublicKey> = text.parse().ok();
    key.map(|key| key.serialize())
}

impl PublicKey {
    #[verifier::type_invariant]
    spec fn on_curve(self) -> bool {
        is_point(self.bytes@)
    }

    /// Reads a key from hexadecimal text.
    pub fn parse(text: &str) -> (key: Option<PublicKey>)
        ensures
            match key {
                Some(key) => key_of_text(text@) == Some(key@) && is_point(key@),
                None => key_of_text(text@) is None,
            },
    {
        match parse_point(text) {
            Some(bytes) => Some(PublicKey { bytes }),
            None => None,
        }
    }

    /// The compressed point.
    pub fn serialize(&self) -> (bytes: [u8; 33])
        ensures
            bytes@ == self@,
    {
        self.bytes
    }

    /// The compressed point as hexadecimal text.
    pub fn to_hex(&self) -> (text: String)
        ensures
            text@ == hex(self@),
            key_of_text(text@) == Some(self@),
    {
        proof {
            use_type_invariant(self);
        }
        to_hex(self.bytes.as_slice())
    }

    /// Whether the two keys are the same point.
    pub fn same(&self, other: &PublicKey) -> (same: bool)
        ensures
            same == (self@ == other@),
            same == (*self == *other),
    {
        let mut i: usize = 0;
        while i < 33
            invariant
                i <= 33,
                forall|j: int| 0 <= j < i ==> self.bytes@[j] == other.bytes@[j],
            decreases 33 - i,
        {
            if self.bytes[i] != other.bytes[i] {
                assert(self.bytes@[i as int] != other.bytes@[i as int]);
                return false;
            }
            i = i + 1;
        }
        assert(self.bytes@ =~= other.bytes@);
        assert(self.bytes =~= other.bytes);
        true
    }
}

} // verus!
