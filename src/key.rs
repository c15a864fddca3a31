//! Full public keys, held by their SEC encoding.

use vstd::prelude::*;
use crate::bytes::to_vec;
use crate::primitives::{full_key_valid, parse_full_key, parse_key_text};
use crate::text::{all_hex, hex_decode, lemma_hex_len, hex_encode, push_hex, string_of};

verus! {

/// A public key in its SEC encoding: 33 bytes when compressed, 65 when not.
#[derive(Debug, PartialEq, Eq, Hash, PartialOrd, Ord)]
pub struct PublicKey {
    bytes: Vec<u8>,
}

impl View for PublicKey {
    type V = Seq<u8>;

    closed spec fn view(&self) -> Seq<u8> {
        self.bytes@
    }
}

impl Clone for PublicKey {
    fn clone(&self) -> (r: PublicKey)
        ensures
            r@ == self@,
    {
        proof {
            use_type_invariant(self);
        }
        PublicKey { bytes: to_vec(self.bytes.as_slice()) }
    }
}

/// Whether a text is a key: 66 or 130 hexadecimal digits that encode one.
pub open spec fn key_text_valid(s: Seq<char>) -> bool {
    (s.len() == 66 || s.len() == 130) && all_hex(s) && full_key_valid(hex_decode(s))
}

impl PublicKey {
    #[verifier::type_invariant]
    pub closed spec fn wf(&self) -> bool {
        full_key_valid(self.bytes@) && (self.bytes@.len() == 33 || self.bytes@.len() == 65)
    }

    /// The key that the bytes encode, if they encode one.
    pub fn from_slice(b: &[u8]) -> (r: Option<PublicKey>)
        ensures
            r is Some == full_key_valid(b@),
            r matches Some(k) ==> k@ == b@ && k.valid(),
    {
        match parse_full_key(b) {
            None => None,
            Some(_) => Some(PublicKey { bytes: to_vec(b) }),
        }
    }

    /// The key written as hexadecimal text.
    pub fn from_str(s: &str) -> (r: Option<PublicKey>)
        ensures
            r is Some == key_text_valid(s@),
            r matches Some(k) ==> k@ == hex_decode(s@) && k.valid(),
    {
        match parse_key_text(s) {
            None => None,
            Some(b) => {
                proof {
                    lemma_hex_len(s@);
                }
                Some(PublicKey { bytes: b })
            },
        }
    }

    pub fn from_chars(s: &[char]) -> (r: Option<PublicKey>)
        ensures
            r is Some == key_text_valid(s@),
            r matches Some(k) ==> k@ == hex_decode(s@) && k.valid(),
    {
        let text = string_of(s);
        PublicKey::from_str(text.as_str())
    }

    /// Whether the encoding is one that decodes as a key; every key built
    /// here is.
    pub open spec fn valid(&self) -> bool {
        full_key_valid(self@) && (self@.len() == 33 || self@.len() == 65)
    }

    pub fn as_bytes(&self) -> (r: &[u8])
        ensures
            r@ == self@,
            self.valid(),
    {
        proof {
            use_type_invariant(self);
        }
        self.bytes.as_slice()
    }

    pub fn to_bytes(&self) -> (r: Vec<u8>)
        ensures
            r@ == self@,
    {
        to_vec(self.bytes.as_slice())
    }

    pub fn is_compressed(&self) -> (r: bool)
        ensures
            r == (self@.len() == 33),
    {
        self.bytes.len() == 33
    }

    /// Lowercase hexadecimal text of the encoding.
    pub fn to_chars(&self) -> (r: Vec<char>)
        ensures
            r@ == hex_encode(self@),
    {
        let mut out: Vec<char> = Vec::new();
        push_hex(&mut out, self.bytes.as_slice());
        assert(out@ =~= hex_encode(self@));
        out
    }

    pub fn to_string(&self) -> (r: String)
        ensures
            r@ == hex_encode(self@),
    {
        string_of(self.to_chars().as_slice())
    }
}

/// Asks the predicate of each key in turn, stopping at the first it refuses;
/// whether it accepted them all.
pub fn for_each_key_in<F: Fn(&Vec<u8>) -> bool>(keys: &Vec<Vec<u8>>, pred: &F) -> (r: bool)
    requires
        forall|i: int| 0 <= i < keys@.len() ==> call_requires(*pred, (&keys@[i],)),
    ensures
        r ==> forall|i: int| 0 <= i < keys@.len() ==> call_ensures(*pred, (&keys@[i],), true),
        !r ==> exists|i: int| 0 <= i < keys@.len() && call_ensures(*pred, (&keys@[i],), false),
{
    let mut i: usize = 0;
    while i < keys.len()
        invariant
            0 <= i <= keys@.len(),
            forall|j: int| 0 <= j < keys@.len() ==> call_requires(*pred, (&keys@[j],)),
            forall|j: int| 0 <= j < i ==> call_ensures(*pred, (&keys@[j],), true),
        decreases keys@.len() - i,
    {
        if !pred(&keys[i]) {
            return false;
        }
        i = i + 1;
    }
    true
}

} // verus!
