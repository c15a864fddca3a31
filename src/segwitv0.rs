//! Segwit v0 descriptors: a key behind its hash, and a Miniscript behind the
//! hash of its encoding.

use vstd::prelude::*;
use crate::key::for_each_key_in;
use crate::bytes::to_vec;
use crate::checksum::{lemma_checksum_exists, spec_desc_checksum};
use crate::covenant::{varint_len, witness_view};
use crate::descriptor::{
    add_checksum, single_arg, spec_single_arg, spec_verify_checksum, verify_checksum,
    with_checksum, Error, ErrorView,
};
use crate::key::{key_text_valid, PublicKey};
use crate::primitives::{
    full_key_valid, hash160, hash160_of, p2wpkh_address, p2wpkh_address_of, p2wsh_address,
    p2wsh_address_of, parse_segwitv0_text, segwitv0_text_decode, sha256, sha256_of,
    AddressParams, MiniscriptInfo, MiniscriptInfoView,
};
use crate::script::{new_p2pkh, new_v0_wpkh, new_v0_wsh, p2pkh_script, v0_wpkh_script, v0_wsh_script};
use crate::text::{chars_eq, chars_of, chars_slice, hex_decode, hex_encode, push_chars, string_of};

verus! {

/// `elwpkh(`
pub open spec fn wpkh_prefix() -> Seq<char> {
    seq!['e', 'l', 'w', 'p', 'k', 'h', '(']
}

/// The text of a segwit key-hash descriptor, before its checksum.
pub open spec fn wpkh_text(key: Seq<u8>) -> Seq<char> {
    wpkh_prefix() + hex_encode(key) + seq![')']
}

/// The key of a segwit key-hash descriptor text without its checksum: a top
/// node `wpkh`, with or without the `el` namespace, whose one argument is a
/// compressed key.
pub open spec fn spec_parse_wpkh(d: Seq<char>) -> Result<Seq<u8>, ErrorView> {
    match spec_single_arg(d, "wpkh"@) {
        Err(e) => Err(e),
        Ok(k) => if !key_text_valid(k) {
            Err(ErrorView::BadKey)
        } else if hex_decode(k).len() != 33 {
            Err(ErrorView::CompressedOnly)
        } else {
            Ok(hex_decode(k))
        },
    }
}

pub open spec fn spec_wpkh_from_str(s: Seq<char>) -> Result<Seq<u8>, ErrorView> {
    match spec_verify_checksum(s) {
        Err(e) => Err(e),
        Ok(d) => spec_parse_wpkh(d),
    }
}

/// `elwsh(`
pub open spec fn wsh_prefix() -> Seq<char> {
    seq!['e', 'l', 'w', 's', 'h', '(']
}

/// The text of a segwit script-hash descriptor, before its checksum.
pub open spec fn wsh_text(ms_text: Seq<char>) -> Seq<char> {
    wsh_prefix() + ms_text + seq![')']
}

/// The Miniscript of a segwit script-hash descriptor text without its
/// checksum: a top node `wsh`, with or without the `el` namespace, whose one
/// argument is the Miniscript.
pub open spec fn spec_parse_wsh(d: Seq<char>) -> Result<MiniscriptInfoView, ErrorView> {
    match spec_single_arg(d, "wsh"@) {
        Err(e) => Err(e),
        Ok(t) => match segwitv0_text_decode(t) {
            Err(x) => Err(ErrorView::Miniscript(x)),
            Ok(m) => Ok(m),
        },
    }
}

pub open spec fn spec_wsh_from_str(s: Seq<char>) -> Result<MiniscriptInfoView, ErrorView> {
    match spec_verify_checksum(s) {
        Err(e) => Err(e),
        Ok(d) => spec_parse_wsh(d),
    }
}

/// The largest weight a segwit script-hash spend adds: the witness script
/// with its length, and the largest satisfaction with its item count.
pub open spec fn spec_wsh_max_weight(m: MiniscriptInfoView) -> Option<nat> {
    match (m.max_sat_elems, m.max_sat_size) {
        (Some(elems), Some(size)) => Some(
            (4 + varint_len(m.script_size as nat) + m.script_size + varint_len(elems as nat) + size) as nat,
        ),
        _ => None,
    }
}

/// A segwit v0 pay-to-witness-pubkey-hash descriptor.
#[derive(Clone, Debug, PartialEq, Eq)]
pub struct Wpkh {
    pk: PublicKey,
}

impl View for Wpkh {
    type V = Seq<u8>;

    closed spec fn view(&self) -> Seq<u8> {
        self.pk@
    }
}

impl Wpkh {
    /// Asks the predicate of the key.
    pub fn for_each_key<F: Fn(&Vec<u8>) -> bool>(&self, pred: &F) -> (r: bool)
        requires
            forall|k: Vec<u8>| #[trigger] call_requires(*pred, (&k,)),
        ensures
            exists|k: Vec<u8>| k@ == self@ && #[trigger] call_ensures(*pred, (&k,), r),
    {
        let k = self.pk.to_bytes();
        pred(&k)
    }

    /// A descriptor of the key, which must be compressed.
    pub fn new(pk: PublicKey) -> (r: Result<Wpkh, Error>)
        ensures
            r is Ok <==> pk@.len() == 33,
            r matches Ok(w) ==> w@ == pk@,
            r matches Err(e) ==> e == Error::CompressedOnly,
    {
        if pk.is_compressed() {
            Ok(Wpkh { pk })
        } else {
            Err(Error::CompressedOnly)
        }
    }

    pub fn as_inner(&self) -> (r: &PublicKey)
        ensures
            r@ == self@,
    {
        &self.pk
    }

    /// The output script: `0 <hash160(key)>`.
    pub fn script_pubkey(&self) -> (r: Vec<u8>)
        ensures
            r@ == v0_wpkh_script(hash160_of(self@)),
            r@.len() == 22,
    {
        let h = hash160(self.pk.as_bytes());
        new_v0_wpkh(h.as_slice())
    }

    pub fn explicit_script(&self) -> (r: Vec<u8>)
        ensures
            r@ == v0_wpkh_script(hash160_of(self@)),
    {
        self.script_pubkey()
    }

    /// The script code signatures commit to: the pay-to-pubkey-hash script
    /// of the key.
    pub fn script_code(&self) -> (r: Vec<u8>)
        ensures
            r@ == p2pkh_script(hash160_of(self@)),
    {
        let h = hash160(self.pk.as_bytes());
        new_p2pkh(h.as_slice())
    }

    pub fn unsigned_script_sig(&self) -> (r: Vec<u8>)
        ensures
            r@.len() == 0,
    {
        Vec::new()
    }

    pub fn address(&self, params: AddressParams) -> (r: String)
        ensures
            r@ == p2wpkh_address_of(self@, params),
    {
        p2wpkh_address(self.pk.as_bytes(), params)
    }

    /// The witness `[sig, key]` and an empty unlocking script, given the
    /// signature found for the key, if one was.
    pub fn get_satisfaction(&self, sig: Option<Vec<u8>>) -> (r: Result<(Vec<Vec<u8>>, Vec<u8>), Error>)
        ensures
            sig is None ==> (r matches Err(e) && e == Error::MissingSig),
            sig matches Some(s) ==> (r matches Ok((w, ss)) && ss@.len() == 0 && witness_view(w@)
                == seq![s@, self@]),
    {
        match sig {
            None => Err(Error::MissingSig),
            Some(s) => {
                let w = vec![s, self.pk.to_bytes()];
                assert(witness_view(w@) =~= seq![w@[0]@, self@]);
                Ok((w, Vec::new()))
            },
        }
    }

    /// A 73-byte signature and a 33-byte key, each with its length, and the
    /// item count.
    pub fn max_satisfaction_weight(&self) -> (r: usize)
        ensures
            r == 4 + 1 + 73 + 34,
    {
        4 + 1 + 73 + 34
    }

    fn text(&self) -> (r: Vec<char>)
        ensures
            r@ == wpkh_text(self@),
    {
        let mut out = vec!['e', 'l', 'w', 'p', 'k', 'h', '('];
        let k = self.pk.to_chars();
        push_chars(&mut out, k.as_slice());
        out.push(')');
        assert(out@ =~= wpkh_text(self@));
        out
    }

    /// The descriptor string `elwpkh(<key>)#<checksum>`.
    pub fn to_string(&self) -> (r: String)
        ensures
            r@ == with_checksum(wpkh_text(self@)),
    {
        proof {
            lemma_wpkh_text_in_alphabet(self@);
            lemma_checksum_exists(wpkh_text(self@));
        }
        match add_checksum(self.text()) {
            Ok(v) => string_of(v.as_slice()),
            Err(_) => {
                assert(false);
                String::new()
            },
        }
    }

    /// Reads a descriptor string `wpkh(<key>)#<checksum>`, with or without
    /// the `el` namespace.
    pub fn from_str(s: &str) -> (r: Result<Wpkh, Error>)
        ensures
            r matches Ok(w) ==> spec_wpkh_from_str(s@) == Ok::<Seq<u8>, ErrorView>(w@),
            r matches Err(e) ==> spec_wpkh_from_str(s@) == Err::<Seq<u8>, ErrorView>(e@),
    {
        let chars = chars_of(s);
        let d = match verify_checksum(chars.as_slice()) {
            Err(e) => return Err(e),
            Ok(d) => d,
        };
        Wpkh::from_text(d.as_slice())
    }

    /// Reads a descriptor text without its checksum.
    pub fn from_text(d: &[char]) -> (r: Result<Wpkh, Error>)
        ensures
            r matches Ok(w) ==> spec_parse_wpkh(d@) == Ok::<Seq<u8>, ErrorView>(w@),
            r matches Err(e) ==> spec_parse_wpkh(d@) == Err::<Seq<u8>, ErrorView>(e@),
    {
        match single_arg(d, "wpkh") {
            Err(e) => Err(e),
            Ok(k) => match PublicKey::from_chars(k.as_slice()) {
                None => Err(Error::BadKey),
                Some(pk) => Wpkh::new(pk),
            },
        }
    }
}

pub proof fn lemma_wpkh_text_in_alphabet(key: Seq<u8>)
    ensures
        forall|i: int| 0 <= i < wpkh_text(key).len() ==> #[trigger] crate::checksum::input_pos(wpkh_text(key)[i]) is Some,
        crate::descriptor::count_char(wpkh_text(key), '#') == 0,
{
    let t = wpkh_text(key);
    let h = hex_encode(key);
    assert forall|i: int| 0 <= i < t.len() implies #[trigger] crate::checksum::input_pos(t[i]) is Some && t[i] != '#' by {
        if 7 <= i < 7 + h.len() {
            assert(t[i] == h[i - 7]);
            let j = i - 7;
            if j % 2 == 0 {
                crate::text::lemma_hex_digit(key[j / 2] / 16);
            } else {
                crate::text::lemma_hex_digit(key[j / 2] % 16);
            }
        }
    }
    crate::descriptor::lemma_count_none(t, '#');
}

/// A segwit v0 pay-to-witness-script-hash descriptor.
#[derive(Clone, Debug, PartialEq, Eq)]
pub struct Wsh {
    ms: MiniscriptInfo,
}

impl View for Wsh {
    type V = MiniscriptInfoView;

    closed spec fn view(&self) -> MiniscriptInfoView {
        self.ms@
    }
}

impl Wsh {
    /// The Miniscript the descriptor holds.
    pub closed spec fn spec_ms(&self) -> MiniscriptInfo {
        self.ms
    }

    /// Asks the predicate of each key the Miniscript names, in turn,
    /// stopping at the first it refuses; whether it accepted them all.
    pub fn for_each_key<F: Fn(&Vec<u8>) -> bool>(&self, pred: &F) -> (r: bool)
        requires
            forall|k: Vec<u8>| #[trigger] call_requires(*pred, (&k,)),
        ensures
            r ==> forall|i: int| 0 <= i < self.spec_ms().keys@.len() ==> call_ensures(*pred, (&self.spec_ms().keys@[i],), true),
            !r ==> exists|i: int| 0 <= i < self.spec_ms().keys@.len() && call_ensures(*pred, (&self.spec_ms().keys@[i],), false),
    {
        for_each_key_in(&self.ms.keys, pred)
    }

    /// A descriptor holding the Miniscript, which must read under the segwit
    /// v0 rules and pass their top-level checks.
    pub fn new(ms: MiniscriptInfo) -> (r: Result<Wsh, Error>)
        ensures
            r is Ok <==> segwitv0_text_decode(ms@.ms.text) is Ok,
            r matches Ok(w) ==> w@ == ms@,
            r matches Err(e) ==> segwitv0_text_decode(ms@.ms.text) is Err && e@ == ErrorView::Miniscript(
                segwitv0_text_decode(ms@.ms.text)->Err_0,
            ),
    {
        match parse_segwitv0_text(ms.ms.text.as_str()) {
            Ok(_) => Ok(Wsh { ms }),
            Err(t) => Err(Error::Miniscript(t)),
        }
    }

    pub fn as_inner(&self) -> (r: &MiniscriptInfo)
        ensures
            r@ == self@,
    {
        &self.ms
    }

    /// The witness script: the Miniscript's encoding.
    pub fn explicit_script(&self) -> (r: Vec<u8>)
        ensures
            r@ == self@.ms.script,
    {
        to_vec(self.ms.ms.script.as_slice())
    }

    pub fn script_code(&self) -> (r: Vec<u8>)
        ensures
            r@ == self@.ms.script,
    {
        self.explicit_script()
    }

    /// The output script: `0 <sha256(witness script)>`.
    pub fn script_pubkey(&self) -> (r: Vec<u8>)
        ensures
            r@ == v0_wsh_script(sha256_of(self@.ms.script)),
            r@.len() == 34,
    {
        let h = sha256(self.ms.ms.script.as_slice());
        new_v0_wsh(h.as_slice())
    }

    pub fn unsigned_script_sig(&self) -> (r: Vec<u8>)
        ensures
            r@.len() == 0,
    {
        Vec::new()
    }

    pub fn address(&self, params: AddressParams) -> (r: String)
        ensures
            r@ == p2wsh_address_of(self@.ms.script, params),
    {
        p2wsh_address(self.ms.ms.script.as_slice(), params)
    }

    /// The witness — the Miniscript's satisfaction, if one was found,
    /// followed by the witness script — and an empty unlocking script.
    pub fn get_satisfaction(&self, ms_witness: Option<Vec<Vec<u8>>>) -> (r: Result<(Vec<Vec<u8>>, Vec<u8>), Error>)
        ensures
            ms_witness is None ==> (r matches Err(e) && e == Error::ImpossibleSatisfaction),
            ms_witness matches Some(w) ==> (r matches Ok((wit, ss)) && ss@.len() == 0 && witness_view(wit@)
                == witness_view(w@).push(self@.ms.script)),
    {
        match ms_witness {
            None => Err(Error::ImpossibleSatisfaction),
            Some(w) => {
                let mut wit = w;
                let ghost before = wit@;
                wit.push(self.explicit_script());
                assert(witness_view(wit@) =~= witness_view(before).push(self@.ms.script));
                Ok((wit, Vec::new()))
            },
        }
    }

    /// An upper bound on the weight the spend adds; `None` where the
    /// Miniscript cannot be satisfied or the figure does not fit a `usize`.
    pub fn max_satisfaction_weight(&self) -> (r: Option<usize>)
        ensures
            r matches Some(w) ==> spec_wsh_max_weight(self@) == Some(w as nat),
            r is None ==> (spec_wsh_max_weight(self@) matches Some(w) ==> w > usize::MAX),
    {
        let elems: u128 = match self.ms.max_sat_elems {
            None => return None,
            Some(e) => e as u128,
        };
        let size: u128 = match self.ms.max_sat_size {
            None => return None,
            Some(s) => s as u128,
        };
        let script_size: u128 = self.ms.script_size as u128;
        let a: u128 = if script_size < 0xfd {
            1
        } else if script_size <= 0xffff {
            3
        } else if script_size <= 0xffff_ffff {
            5
        } else {
            9
        };
        let b: u128 = if elems < 0xfd {
            1
        } else if elems <= 0xffff {
            3
        } else if elems <= 0xffff_ffff {
            5
        } else {
            9
        };
        let total: u128 = 4 + a + script_size + b + size;
        if total > usize::MAX as u128 {
            None
        } else {
            Some(total as usize)
        }
    }

    fn text(&self) -> (r: Vec<char>)
        ensures
            r@ == wsh_text(self@.ms.text),
    {
        let mut out = vec!['e', 'l', 'w', 's', 'h', '('];
        let m = chars_of(self.ms.ms.text.as_str());
        push_chars(&mut out, m.as_slice());
        out.push(')');
        assert(out@ =~= wsh_text(self@.ms.text));
        out
    }

    /// The descriptor string `elwsh(<miniscript>)#<checksum>`, or `None`
    /// where the Miniscript text has a character the checksum cannot take.
    pub fn to_string(&self) -> (r: Option<String>)
        ensures
            r matches Some(t) ==> t@ == with_checksum(wsh_text(self@.ms.text)),
            r is None <==> spec_desc_checksum(wsh_text(self@.ms.text)) is None,
    {
        match add_checksum(self.text()) {
            Ok(v) => Some(string_of(v.as_slice())),
            Err(_) => None,
        }
    }

    /// Reads a descriptor string `wsh(<miniscript>)#<checksum>`, with or
    /// without the `el` namespace.
    pub fn from_str(s: &str) -> (r: Result<Wsh, Error>)
        ensures
            r matches Ok(w) ==> spec_wsh_from_str(s@) == Ok::<MiniscriptInfoView, ErrorView>(w@),
            r matches Err(e) ==> spec_wsh_from_str(s@) == Err::<MiniscriptInfoView, ErrorView>(e@),
    {
        let chars = chars_of(s);
        let d = match verify_checksum(chars.as_slice()) {
            Err(e) => return Err(e),
            Ok(d) => d,
        };
        Wsh::from_text(d.as_slice())
    }

    /// Reads a descriptor text without its checksum.
    pub fn from_text(d: &[char]) -> (r: Result<Wsh, Error>)
        ensures
            r matches Ok(w) ==> spec_parse_wsh(d@) == Ok::<MiniscriptInfoView, ErrorView>(w@),
            r matches Err(e) ==> spec_parse_wsh(d@) == Err::<MiniscriptInfoView, ErrorView>(e@),
    {
        match single_arg(d, "wsh") {
            Err(e) => Err(e),
            Ok(m) => {
                let mtext = string_of(m.as_slice());
                match parse_segwitv0_text(mtext.as_str()) {
                    Err(t) => Err(Error::Miniscript(t)),
                    Ok(ms) => Ok(Wsh { ms }),
                }
            },
        }
    }
}

} // verus!
