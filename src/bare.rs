//! The bare descriptor: a Miniscript whose encoding is the output script
//! itself.

use vstd::prelude::*;
use crate::key::for_each_key_in;
use crate::checksum::spec_desc_checksum;
use crate::covenant::varint_len;
use crate::descriptor::{add_checksum, spec_verify_checksum, verify_checksum, with_checksum, Error, ErrorView};
use crate::primitives::{bare_text_decode, parse_bare_text, MiniscriptInfo, MiniscriptInfoView};
use crate::bytes::to_vec;
use crate::script::{spec_witness_to_scriptsig, witness_to_scriptsig};
use crate::node::{strip_namespace, strip_namespace_exec};
use crate::text::{chars_of, chars_slice, push_chars, string_of};

verus! {

/// The text of a bare descriptor, before its checksum: `el` and the
/// Miniscript.
pub open spec fn bare_text(ms_text: Seq<char>) -> Seq<char> {
    seq!['e', 'l'] + ms_text
}

/// The Miniscript of a bare descriptor text without its checksum: the text,
/// with or without the `el` namespace, is the Miniscript.
pub open spec fn spec_parse_bare(d: Seq<char>) -> Result<MiniscriptInfoView, ErrorView> {
    match bare_text_decode(strip_namespace(d)) {
        Err(t) => Err(ErrorView::Miniscript(t)),
        Ok(m) => Ok(m),
    }
}

/// The Miniscript of a bare descriptor string.
pub open spec fn spec_bare_from_str(s: Seq<char>) -> Result<MiniscriptInfoView, ErrorView> {
    match spec_verify_checksum(s) {
        Err(e) => Err(e),
        Ok(d) => spec_parse_bare(d),
    }
}

/// The largest weight a bare spend adds: the largest unlocking script with
/// its length, all of it counted four times.
pub open spec fn bare_max_weight(max_sat_size: nat) -> nat {
    4 * (varint_len(max_sat_size) + max_sat_size)
}

/// A bare descriptor: the output script is the Miniscript's encoding.
#[derive(Clone, Debug, PartialEq, Eq)]
pub struct Bare {
    ms: MiniscriptInfo,
}

impl View for Bare {
    type V = MiniscriptInfoView;

    closed spec fn view(&self) -> MiniscriptInfoView {
        self.ms@
    }
}

impl Bare {
    /// The Miniscript the descriptor holds.
    pub closed spec fn spec_ms(&self) -> MiniscriptInfo {
        self.ms
    }

    /// Asks the predicate of each key the Miniscript names, in turn,
    /// stopping at the first it refuses; whether it accepted them all.
    pub fn for_each_key<F: Fn(&Vec<u8>) -> bool>(&self, pred: &F) -> (r: bool)
        requires
            forall|k: Vec<u8>| #[trigger] call_requires(*pred, (&k,)),
        ensures
            r ==> forall|i: int| 0 <= i < self.spec_ms().keys@.len() ==> call_ensures(*pred, (&self.spec_ms().keys@[i],), true),
            !r ==> exists|i: int| 0 <= i < self.spec_ms().keys@.len() && call_ensures(*pred, (&self.spec_ms().keys@[i],), false),
    {
        for_each_key_in(&self.ms.keys, pred)
    }

    /// A bare descriptor holding the Miniscript, which must read under the
    /// bare-output rules and pass their top-level checks.
    pub fn new(ms: MiniscriptInfo) -> (r: Result<Bare, Error>)
        ensures
            r is Ok <==> bare_text_decode(ms@.ms.text) is Ok,
            r matches Ok(b) ==> b@ == ms@,
            r matches Err(e) ==> bare_text_decode(ms@.ms.text) is Err && e@ == ErrorView::Miniscript(
                bare_text_decode(ms@.ms.text)->Err_0,
            ),
    {
        match parse_bare_text(ms.ms.text.as_str()) {
            Ok(_) => Ok(Bare { ms }),
            Err(t) => Err(Error::Miniscript(t)),
        }
    }

    pub fn as_inner(&self) -> (r: &MiniscriptInfo)
        ensures
            r@ == self@,
    {
        &self.ms
    }

    pub fn into_inner(self) -> (r: MiniscriptInfo)
        ensures
            r@ == self@,
    {
        self.ms
    }

    /// The output script: the Miniscript's encoding.
    pub fn spk(&self) -> (r: Vec<u8>)
        ensures
            r@ == self@.ms.script,
    {
        to_vec(self.ms.ms.script.as_slice())
    }

    pub fn script_pubkey(&self) -> (r: Vec<u8>)
        ensures
            r@ == self@.ms.script,
    {
        self.spk()
    }

    pub fn inner_script(&self) -> (r: Vec<u8>)
        ensures
            r@ == self@.ms.script,
    {
        self.spk()
    }

    pub fn explicit_script(&self) -> (r: Vec<u8>)
        ensures
            r@ == self@.ms.script,
    {
        self.spk()
    }

    pub fn ecdsa_sighash_script_code(&self) -> (r: Vec<u8>)
        ensures
            r@ == self@.ms.script,
    {
        self.spk()
    }

    pub fn script_code(&self) -> (r: Vec<u8>)
        ensures
            r@ == self@.ms.script,
    {
        self.spk()
    }

    pub fn unsigned_script_sig(&self) -> (r: Vec<u8>)
        ensures
            r@.len() == 0,
    {
        Vec::new()
    }

    /// A raw script output has no address.
    pub fn address(&self) -> (r: Result<String, Error>)
        ensures
            r == Err::<String, Error>(Error::BareDescriptorAddr),
    {
        Err(Error::BareDescriptorAddr)
    }

    /// The Miniscript's own sanity checks.
    pub fn sanity_check(&self) -> (r: Result<(), Error>)
        ensures
            self@.insane is None ==> r is Ok,
            self@.insane matches Some(t) ==> (r matches Err(e) && e@ == ErrorView::Miniscript(t)),
    {
        match &self.ms.insane {
            Some(t) => Err(Error::Miniscript(t.clone())),
            None => Ok(()),
        }
    }

    /// An upper bound on the weight the spend adds; `None` where the
    /// Miniscript cannot be satisfied or the figure does not fit a `usize`.
    pub fn max_satisfaction_weight(&self) -> (r: Option<usize>)
        ensures
            r matches Some(w) ==> self@.max_sat_size matches Some(n) && w == bare_max_weight(n as nat),
            r is None ==> (self@.max_sat_size matches Some(n) ==> bare_max_weight(n as nat) > usize::MAX),
    {
        let n: u128 = match self.ms.max_sat_size {
            None => return None,
            Some(n) => n as u128,
        };
        let v: u128 = if n < 0xfd {
            1
        } else if n <= 0xffff {
            3
        } else if n <= 0xffff_ffff {
            5
        } else {
            9
        };
        let w: u128 = 4 * (v + n);
        if w > usize::MAX as u128 {
            None
        } else {
            Some(w as usize)
        }
    }

    /// The witness and unlocking script that spend the output, given the
    /// Miniscript's satisfaction if one was found: an empty witness, and an
    /// unlocking script that pushes the satisfaction's items in order.
    pub fn get_satisfaction(&self, ms_witness: Option<Vec<Vec<u8>>>) -> (r: Result<(Vec<Vec<u8>>, Vec<u8>), Error>)
        requires
            ms_witness matches Some(w) ==> forall|i: int| 0 <= i < w@.len() ==> #[trigger] w@[i]@.len() < 0x1_0000_0000,
        ensures
            ms_witness is None ==> (r matches Err(e) && e == Error::ImpossibleSatisfaction),
            ms_witness matches Some(w) ==> (r matches Ok((wit, ss)) && wit@.len() == 0
                && ss@ == spec_witness_to_scriptsig(w@.map_values(|x: Vec<u8>| x@))),
    {
        match ms_witness {
            None => Err(Error::ImpossibleSatisfaction),
            Some(w) => {
                let script_sig = witness_to_scriptsig(w.as_slice());
                Ok((Vec::new(), script_sig))
            },
        }
    }

    /// The same for a satisfaction that may be malleable.
    pub fn get_satisfaction_mall(&self, ms_witness: Option<Vec<Vec<u8>>>) -> (r: Result<(Vec<Vec<u8>>, Vec<u8>), Error>)
        requires
            ms_witness matches Some(w) ==> forall|i: int| 0 <= i < w@.len() ==> #[trigger] w@[i]@.len() < 0x1_0000_0000,
        ensures
            ms_witness is None ==> (r matches Err(e) && e == Error::ImpossibleSatisfaction),
            ms_witness matches Some(w) ==> (r matches Ok((wit, ss)) && wit@.len() == 0
                && ss@ == spec_witness_to_scriptsig(w@.map_values(|x: Vec<u8>| x@))),
    {
        self.get_satisfaction(ms_witness)
    }

    fn text(&self) -> (r: Vec<char>)
        ensures
            r@ == bare_text(self@.ms.text),
    {
        let mut out: Vec<char> = vec!['e', 'l'];
        let m = chars_of(self.ms.ms.text.as_str());
        push_chars(&mut out, m.as_slice());
        assert(out@ =~= bare_text(self@.ms.text));
        out
    }

    /// The descriptor string `el<miniscript>#<checksum>`, or `None` where the
    /// Miniscript text has a character the checksum cannot take.
    pub fn to_string(&self) -> (r: Option<String>)
        ensures
            r matches Some(t) ==> t@ == with_checksum(bare_text(self@.ms.text)),
            r is None <==> spec_desc_checksum(bare_text(self@.ms.text)) is None,
    {
        match add_checksum(self.text()) {
            Ok(v) => Some(string_of(v.as_slice())),
            Err(_) => None,
        }
    }

    /// Reads a descriptor string `<miniscript>#<checksum>`, with or without
    /// the `el` namespace.
    pub fn from_str(s: &str) -> (r: Result<Bare, Error>)
        ensures
            r matches Ok(b) ==> spec_bare_from_str(s@) == Ok::<MiniscriptInfoView, ErrorView>(b@),
            r matches Err(e) ==> spec_bare_from_str(s@) == Err::<MiniscriptInfoView, ErrorView>(e@),
    {
        let chars = chars_of(s);
        let d = match verify_checksum(chars.as_slice()) {
            Err(e) => return Err(e),
            Ok(d) => d,
        };
        let m = strip_namespace_exec(d.as_slice());
        let mtext = string_of(m.as_slice());
        match parse_bare_text(mtext.as_str()) {
            Err(t) => Err(Error::Miniscript(t)),
            Ok(ms) => Ok(Bare { ms }),
        }
    }
}

} // verus!
