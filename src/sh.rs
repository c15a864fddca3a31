//! The pay-to-script-hash descriptor: a redeem script behind its hash, which
//! is a nested segwit key hash, a nested segwit script hash, or a legacy
//! Miniscript.

use vstd::prelude::*;
use crate::bytes::to_vec;
use crate::checksum::spec_desc_checksum;
use crate::descriptor::{
    add_checksum, single_arg, spec_single_arg, spec_verify_checksum, verify_checksum, with_checksum,
    Error, ErrorView,
};
use crate::node::{names, spec_top_arity, strip_namespace, top_name, top_node};
use crate::primitives::{
    hash160, hash160_of, legacy_text_decode, p2sh_address, p2sh_address_of, parse_legacy_text,
    sha256_of, AddressParams, MiniscriptInfo, MiniscriptInfoView,
};
use crate::covenant::witness_view;
use crate::script::{p2pkh_script, spec_witness_to_scriptsig, witness_to_scriptsig, new_p2sh, p2sh_script, push_encoding, push_slice, v0_wpkh_script, v0_wsh_script};
use crate::segwitv0::{spec_parse_wpkh, spec_parse_wsh, Wpkh, Wsh};
use crate::node::strip_namespace_exec;
use crate::key::PublicKey;
use crate::text::{chars_of, push_chars, string_of, hex_encode};

verus! {

/// What a p2sh descriptor wraps.
#[derive(Clone, Debug, PartialEq, Eq)]
pub enum ShInner {
    Wpkh(Wpkh),
    Wsh(Wsh),
    Ms(MiniscriptInfo),
}

pub enum ShView {
    Wpkh(Seq<u8>),
    Wsh(MiniscriptInfoView),
    Ms(MiniscriptInfoView),
}

/// What a p2sh descriptor text without its checksum wraps: a top node `sh`,
/// with or without the `el` namespace, of one argument, which is a `wpkh` or
/// `wsh` node of one argument, or else a legacy Miniscript.
pub open spec fn spec_parse_sh(d: Seq<char>) -> Result<ShView, ErrorView> {
    match spec_single_arg(d, "sh"@) {
        Err(e) => Err(e),
        Ok(a) => {
            let base = strip_namespace(top_name(a));
            let n = spec_top_arity(a);
            if base == "wpkh"@ && n == 1 {
                match spec_parse_wpkh(a) {
                    Err(e) => Err(e),
                    Ok(k) => Ok(ShView::Wpkh(k)),
                }
            } else if base == "wsh"@ && n == 1 {
                match spec_parse_wsh(a) {
                    Err(e) => Err(e),
                    Ok(m) => Ok(ShView::Wsh(m)),
                }
            } else {
                match legacy_text_decode(a) {
                    Err(t) => Err(ErrorView::Miniscript(t)),
                    Ok(m) => Ok(ShView::Ms(m)),
                }
            }
        },
    }
}

pub open spec fn spec_sh_from_str(s: Seq<char>) -> Result<ShView, ErrorView> {
    match spec_verify_checksum(s) {
        Err(e) => Err(e),
        Ok(d) => spec_parse_sh(d),
    }
}

/// The redeem script: the nested witness program, or the Miniscript's
/// encoding.
pub open spec fn spec_redeem_script(v: ShView) -> Seq<u8> {
    match v {
        ShView::Wpkh(k) => v0_wpkh_script(hash160_of(k)),
        ShView::Wsh(m) => v0_wsh_script(sha256_of(m.ms.script)),
        ShView::Ms(m) => m.ms.script,
    }
}

/// The text a p2sh descriptor is written with, before its checksum.
pub open spec fn sh_text(v: ShView) -> Seq<char> {
    "elsh("@ + match v {
        ShView::Wpkh(k) => "wpkh("@ + hex_encode(k) + ")"@,
        ShView::Wsh(m) => "wsh("@ + m.ms.text + ")"@,
        ShView::Ms(m) => m.ms.text,
    } + ")"@
}

/// A pay-to-script-hash descriptor.
#[derive(Clone, Debug, PartialEq, Eq)]
pub struct Sh {
    inner: ShInner,
}

impl View for Sh {
    type V = ShView;

    closed spec fn view(&self) -> ShView {
        match self.inner {
            ShInner::Wpkh(w) => ShView::Wpkh(w@),
            ShInner::Wsh(w) => ShView::Wsh(w@),
            ShInner::Ms(m) => ShView::Ms(m@),
        }
    }
}

impl Sh {
    /// What the descriptor wraps.
    pub fn as_inner(&self) -> (r: &ShInner)
        ensures
            match *r {
                ShInner::Wpkh(w) => self@ == ShView::Wpkh(w@),
                ShInner::Wsh(w) => self@ == ShView::Wsh(w@),
                ShInner::Ms(m) => self@ == ShView::Ms(m@),
            },
    {
        &self.inner
    }

    /// A p2sh descriptor holding a legacy Miniscript, which must read under
    /// the legacy rules and pass their top-level checks.
    pub fn new(ms: MiniscriptInfo) -> (r: Result<Sh, Error>)
        ensures
            r is Ok <==> legacy_text_decode(ms@.ms.text) is Ok,
            r matches Ok(x) ==> x@ == ShView::Ms(ms@),
            r matches Err(e) ==> legacy_text_decode(ms@.ms.text) is Err && e@ == ErrorView::Miniscript(
                legacy_text_decode(ms@.ms.text)->Err_0,
            ),
    {
        match parse_legacy_text(ms.ms.text.as_str()) {
            Ok(_) => Ok(Sh { inner: ShInner::Ms(ms) }),
            Err(t) => Err(Error::Miniscript(t)),
        }
    }

    /// A p2sh descriptor that nests a segwit key hash.
    pub fn new_wpkh(w: Wpkh) -> (r: Sh)
        ensures
            r@ == ShView::Wpkh(w@),
    {
        Sh { inner: ShInner::Wpkh(w) }
    }

    /// A p2sh descriptor that nests a segwit script hash.
    pub fn new_wsh(w: Wsh) -> (r: Sh)
        ensures
            r@ == ShView::Wsh(w@),
    {
        Sh { inner: ShInner::Wsh(w) }
    }

    /// The redeem script the output commits to.
    pub fn redeem_script(&self) -> (r: Vec<u8>)
        ensures
            r@ == spec_redeem_script(self@),
            !(self@ is Ms) ==> r@.len() <= 34,
    {
        match &self.inner {
            ShInner::Wpkh(w) => w.script_pubkey(),
            ShInner::Wsh(w) => w.script_pubkey(),
            ShInner::Ms(m) => to_vec(m.ms.script.as_slice()),
        }
    }

    /// The output script: `HASH160 <hash160(redeem script)> EQUAL`.
    pub fn script_pubkey(&self) -> (r: Vec<u8>)
        ensures
            r@ == p2sh_script(hash160_of(spec_redeem_script(self@))),
    {
        let rs = self.redeem_script();
        let h = hash160(rs.as_slice());
        new_p2sh(h.as_slice())
    }

    /// The script before any hashing: the witness script of a nested script
    /// hash, else the redeem script.
    pub fn explicit_script(&self) -> (r: Vec<u8>)
        ensures
            self@ matches ShView::Wsh(m) ==> r@ == m.ms.script,
            !(self@ is Wsh) ==> r@ == spec_redeem_script(self@),
    {
        match &self.inner {
            ShInner::Wsh(w) => w.explicit_script(),
            _ => self.redeem_script(),
        }
    }

    /// The script code signatures commit to: for a nested segwit key hash,
    /// the pay-to-pubkey-hash script of the key; for a nested script hash,
    /// the witness script; for a legacy Miniscript, its encoding.
    pub fn script_code(&self) -> (r: Vec<u8>)
        ensures
            match self@ {
                ShView::Wpkh(k) => r@ == p2pkh_script(hash160_of(k)),
                ShView::Wsh(m) => r@ == m.ms.script,
                ShView::Ms(m) => r@ == m.ms.script,
            },
    {
        match &self.inner {
            ShInner::Wpkh(w) => w.script_code(),
            ShInner::Wsh(w) => w.script_code(),
            ShInner::Ms(m) => to_vec(m.ms.script.as_slice()),
        }
    }

    /// The unlocking script of an unsigned spend: the push of the redeem
    /// script for a nested segwit descriptor, else empty.
    pub fn unsigned_script_sig(&self) -> (r: Vec<u8>)
        ensures
            self@ is Ms ==> r@.len() == 0,
            !(self@ is Ms) ==> r@ == push_encoding(spec_redeem_script(self@)),
    {
        match &self.inner {
            ShInner::Ms(_) => Vec::new(),
            _ => {
                let rs = self.redeem_script();
                let mut out: Vec<u8> = Vec::new();
                push_slice(&mut out, rs.as_slice());
                assert(out@ =~= push_encoding(spec_redeem_script(self@)));
                out
            },
        }
    }

    pub fn address(&self, params: AddressParams) -> (r: String)
        ensures
            r@ == p2sh_address_of(spec_redeem_script(self@), params),
    {
        let rs = self.redeem_script();
        p2sh_address(rs.as_slice(), params)
    }

    /// The witness and unlocking script that spend the output: for a nested
    /// key hash, the witness `[sig, key]` from the signature found; for a
    /// nested script hash, the Miniscript's satisfaction and then the witness
    /// script; for a legacy Miniscript, no witness and its satisfaction
    /// pushed item by item. The unlocking script ends with the push of the
    /// redeem script.
    pub fn get_satisfaction(&self, sig: Option<Vec<u8>>, ms_witness: Option<Vec<Vec<u8>>>) -> (r: Result<(Vec<Vec<u8>>, Vec<u8>), Error>)
        requires
            ms_witness matches Some(w) ==> forall|i: int| 0 <= i < w@.len() ==> #[trigger] w@[i]@.len() < 0x1_0000_0000,
            spec_redeem_script(self@).len() < 0x1_0000_0000,
        ensures
            self@ is Wpkh ==> (sig is None <==> r is Err),
            !(self@ is Wpkh) ==> (ms_witness is None <==> r is Err),
            r is Err ==> (r matches Err(e) && (e == Error::MissingSig || e == Error::ImpossibleSatisfaction)),
            r matches Ok((w, ss)) ==> match self@ {
                ShView::Wpkh(k) => sig matches Some(s) && witness_view(w@) == seq![s@, k]
                    && ss@ == push_encoding(spec_redeem_script(self@)),
                ShView::Wsh(m) => ms_witness matches Some(x) && witness_view(w@) == witness_view(x@).push(m.ms.script)
                    && ss@ == push_encoding(spec_redeem_script(self@)),
                ShView::Ms(m) => ms_witness matches Some(x) && w@.len() == 0
                    && ss@ == spec_witness_to_scriptsig(x@.map_values(|v: Vec<u8>| v@)) + push_encoding(m.ms.script),
            },
    {
        let rs = self.redeem_script();
        match &self.inner {
            ShInner::Wpkh(wp) => match wp.get_satisfaction(sig) {
                Err(e) => Err(e),
                Ok((w, _)) => {
                    let mut ss: Vec<u8> = Vec::new();
                    push_slice(&mut ss, rs.as_slice());
                    Ok((w, ss))
                },
            },
            ShInner::Wsh(ws) => match ws.get_satisfaction(ms_witness) {
                Err(e) => Err(e),
                Ok((w, _)) => {
                    let mut ss: Vec<u8> = Vec::new();
                    push_slice(&mut ss, rs.as_slice());
                    Ok((w, ss))
                },
            },
            ShInner::Ms(_) => match ms_witness {
                None => Err(Error::ImpossibleSatisfaction),
                Some(x) => {
                    let mut ss = witness_to_scriptsig(x.as_slice());
                    push_slice(&mut ss, rs.as_slice());
                    Ok((Vec::new(), ss))
                },
            },
        }
    }

    fn text(&self) -> (r: Vec<char>)
        ensures
            r@ == sh_text(self@),
    {
        let mut out = chars_of("elsh(");
        match &self.inner {
            ShInner::Wpkh(w) => {
                let a = chars_of("wpkh(");
                push_chars(&mut out, a.as_slice());
                let k = w.as_inner().to_chars();
                push_chars(&mut out, k.as_slice());
                let c = chars_of(")");
                push_chars(&mut out, c.as_slice());
            },
            ShInner::Wsh(w) => {
                let a = chars_of("wsh(");
                push_chars(&mut out, a.as_slice());
                let m = chars_of(w.as_inner().ms.text.as_str());
                push_chars(&mut out, m.as_slice());
                let c = chars_of(")");
                push_chars(&mut out, c.as_slice());
            },
            ShInner::Ms(m) => {
                let t = chars_of(m.ms.text.as_str());
                push_chars(&mut out, t.as_slice());
            },
        }
        let c = chars_of(")");
        push_chars(&mut out, c.as_slice());
        assert(out@ =~= sh_text(self@));
        out
    }

    /// The descriptor string `elsh(...)#<checksum>`, or `None` where a
    /// Miniscript text has a character the checksum cannot take.
    pub fn to_string(&self) -> (r: Option<String>)
        ensures
            r matches Some(t) ==> t@ == with_checksum(sh_text(self@)),
            r is None <==> spec_desc_checksum(sh_text(self@)) is None,
    {
        match add_checksum(self.text()) {
            Ok(v) => Some(string_of(v.as_slice())),
            Err(_) => None,
        }
    }

    /// Reads a descriptor string `sh(...)#<checksum>`, with or without the
    /// `el` namespace.
    pub fn from_str(s: &str) -> (r: Result<Sh, Error>)
        ensures
            r matches Ok(x) ==> spec_sh_from_str(s@) == Ok::<ShView, ErrorView>(x@),
            r matches Err(e) ==> spec_sh_from_str(s@) == Err::<ShView, ErrorView>(e@),
    {
        let chars = chars_of(s);
        let d = match verify_checksum(chars.as_slice()) {
            Err(e) => return Err(e),
            Ok(d) => d,
        };
        let a = match single_arg(d.as_slice(), "sh") {
            Err(e) => return Err(e),
            Ok(a) => a,
        };
        let (name, n) = top_node(a.as_slice());
        let base = strip_namespace_exec(name.as_slice());
        if names(base.as_slice(), "wpkh") && n == 1 {
            match Wpkh::from_text(a.as_slice()) {
                Err(e) => Err(e),
                Ok(w) => Ok(Sh { inner: ShInner::Wpkh(w) }),
            }
        } else if names(base.as_slice(), "wsh") && n == 1 {
            match Wsh::from_text(a.as_slice()) {
                Err(e) => Err(e),
                Ok(w) => Ok(Sh { inner: ShInner::Wsh(w) }),
            }
        } else {
            let t = string_of(a.as_slice());
            match parse_legacy_text(t.as_str()) {
                Err(x) => Err(Error::Miniscript(x)),
                Ok(m) => Ok(Sh { inner: ShInner::Ms(m) }),
            }
        }
    }
}

} // verus!
