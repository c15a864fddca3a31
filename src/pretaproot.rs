//! Descriptors of the outputs that predate taproot, read by the name of
//! their top node.

use vstd::prelude::*;
use crate::bare::{spec_bare_from_str, Bare};
use crate::node::{names, spec_top_arity, strip_namespace, strip_namespace_exec, top_name, top_node};
use crate::sh::{spec_sh_from_str, Sh, ShView};
use crate::descriptor::{spec_pkh_from_str, spec_verify_checksum, verify_checksum, Error, ErrorView, Pkh};
use crate::primitives::MiniscriptInfoView;
use crate::segwitv0::{spec_wpkh_from_str, spec_wsh_from_str, Wpkh, Wsh};
use crate::text::{chars_eq, chars_of};

verus! {

/// Which descriptor a top-level name stands for.
#[derive(Copy, Clone, Debug, PartialEq, Eq)]
pub enum DescriptorKind {
    Pkh,
    Wpkh,
    Sh,
    Wsh,
    Bare,
}

/// The named wrappers are tried in the order pkh, wpkh, sh, wsh, each by its
/// name, with or without the `el` namespace, and one argument; every other
/// node is a bare script.
pub open spec fn spec_descriptor_kind(name: Seq<char>, nargs: nat) -> DescriptorKind {
    let base = strip_namespace(name);
    if base == "pkh"@ && nargs == 1 {
        DescriptorKind::Pkh
    } else if base == "wpkh"@ && nargs == 1 {
        DescriptorKind::Wpkh
    } else if base == "sh"@ && nargs == 1 {
        DescriptorKind::Sh
    } else if base == "wsh"@ && nargs == 1 {
        DescriptorKind::Wsh
    } else {
        DescriptorKind::Bare
    }
}

/// Which descriptor a top node of this name and number of arguments is.
pub fn descriptor_kind(name: &[char], nargs: usize) -> (r: DescriptorKind)
    ensures
        r == spec_descriptor_kind(name@, nargs as nat),
{
    let base = strip_namespace_exec(name);
    if names(base.as_slice(), "pkh") && nargs == 1 {
        DescriptorKind::Pkh
    } else if names(base.as_slice(), "wpkh") && nargs == 1 {
        DescriptorKind::Wpkh
    } else if names(base.as_slice(), "sh") && nargs == 1 {
        DescriptorKind::Sh
    } else if names(base.as_slice(), "wsh") && nargs == 1 {
        DescriptorKind::Wsh
    } else {
        DescriptorKind::Bare
    }
}

/// A descriptor of an output that predates taproot.
#[derive(Clone, Debug, PartialEq, Eq)]
pub enum PreTaprootDescriptor {
    Bare(Bare),
    Pkh(Pkh),
    Wpkh(Wpkh),
    Sh(Sh),
    Wsh(Wsh),
}

impl PreTaprootDescriptor {
    /// Reads a descriptor string, choosing the descriptor by the name and
    /// arity of its top node.
    pub fn from_str(s: &str) -> (r: Result<PreTaprootDescriptor, Error>)
        ensures
            spec_verify_checksum(s@) matches Err(e) ==> (r matches Err(x) && x@ == e),
            spec_verify_checksum(s@) matches Ok(d) ==> {
                match spec_descriptor_kind(top_name(d), spec_top_arity(d)) {
                    DescriptorKind::Pkh => match r {
                        Ok(PreTaprootDescriptor::Pkh(p)) => spec_pkh_from_str(s@) == Ok::<Seq<u8>, ErrorView>(p@),
                        Err(e) => spec_pkh_from_str(s@) == Err::<Seq<u8>, ErrorView>(e@),
                        _ => false,
                    },
                    DescriptorKind::Wpkh => match r {
                        Ok(PreTaprootDescriptor::Wpkh(w)) => spec_wpkh_from_str(s@) == Ok::<Seq<u8>, ErrorView>(w@),
                        Err(e) => spec_wpkh_from_str(s@) == Err::<Seq<u8>, ErrorView>(e@),
                        _ => false,
                    },
                    DescriptorKind::Wsh => match r {
                        Ok(PreTaprootDescriptor::Wsh(w)) => spec_wsh_from_str(s@) == Ok::<MiniscriptInfoView, ErrorView>(w@),
                        Err(e) => spec_wsh_from_str(s@) == Err::<MiniscriptInfoView, ErrorView>(e@),
                        _ => false,
                    },
                    DescriptorKind::Bare => match r {
                        Ok(PreTaprootDescriptor::Bare(b)) => spec_bare_from_str(s@) == Ok::<MiniscriptInfoView, ErrorView>(b@),
                        Err(e) => spec_bare_from_str(s@) == Err::<MiniscriptInfoView, ErrorView>(e@),
                        _ => false,
                    },
                    DescriptorKind::Sh => match r {
                        Ok(PreTaprootDescriptor::Sh(x)) => spec_sh_from_str(s@) == Ok::<ShView, ErrorView>(x@),
                        Err(e) => spec_sh_from_str(s@) == Err::<ShView, ErrorView>(e@),
                        _ => false,
                    },
                }
            },
    {
        let chars = chars_of(s);
        let d = match verify_checksum(chars.as_slice()) {
            Err(e) => return Err(e),
            Ok(d) => d,
        };
        let (name, nargs) = top_node(d.as_slice());
        match descriptor_kind(name.as_slice(), nargs) {
            DescriptorKind::Pkh => match Pkh::from_str(s) {
                Ok(p) => Ok(PreTaprootDescriptor::Pkh(p)),
                Err(e) => Err(e),
            },
            DescriptorKind::Wpkh => match Wpkh::from_str(s) {
                Ok(w) => Ok(PreTaprootDescriptor::Wpkh(w)),
                Err(e) => Err(e),
            },
            DescriptorKind::Wsh => match Wsh::from_str(s) {
                Ok(w) => Ok(PreTaprootDescriptor::Wsh(w)),
                Err(e) => Err(e),
            },
            DescriptorKind::Bare => match Bare::from_str(s) {
                Ok(b) => Ok(PreTaprootDescriptor::Bare(b)),
                Err(e) => Err(e),
            },
            DescriptorKind::Sh => match Sh::from_str(s) {
                Ok(x) => Ok(PreTaprootDescriptor::Sh(x)),
                Err(e) => Err(e),
            },
        }
    }

    /// The output script of the descriptor.
    pub fn script_pubkey(&self) -> (r: Vec<u8>)
        ensures
            match self {
                PreTaprootDescriptor::Bare(b) => r@ == b@.ms.script,
                PreTaprootDescriptor::Pkh(p) => r@ == crate::script::p2pkh_script(crate::primitives::hash160_of(p@)),
                PreTaprootDescriptor::Wpkh(w) => r@ == crate::script::v0_wpkh_script(crate::primitives::hash160_of(w@)),
                PreTaprootDescriptor::Wsh(w) => r@ == crate::script::v0_wsh_script(crate::primitives::sha256_of(w@.ms.script)),
                PreTaprootDescriptor::Sh(x) => r@ == crate::script::p2sh_script(crate::primitives::hash160_of(crate::sh::spec_redeem_script(x@))),
            },
    {
        match self {
            PreTaprootDescriptor::Bare(b) => b.script_pubkey(),
            PreTaprootDescriptor::Pkh(p) => p.script_pubkey(),
            PreTaprootDescriptor::Wpkh(w) => w.script_pubkey(),
            PreTaprootDescriptor::Wsh(w) => w.script_pubkey(),
            PreTaprootDescriptor::Sh(x) => x.script_pubkey(),
        }
    }

    /// The script before any hashing: the output script for a bare or key
    /// descriptor, the witness script for a script hash.
    pub fn explicit_script(&self) -> (r: Vec<u8>)
        ensures
            match self {
                PreTaprootDescriptor::Bare(b) => r@ == b@.ms.script,
                PreTaprootDescriptor::Pkh(p) => r@ == crate::script::p2pkh_script(crate::primitives::hash160_of(p@)),
                PreTaprootDescriptor::Wpkh(w) => r@ == crate::script::v0_wpkh_script(crate::primitives::hash160_of(w@)),
                PreTaprootDescriptor::Wsh(w) => r@ == w@.ms.script,
                PreTaprootDescriptor::Sh(x) => (x@ matches crate::sh::ShView::Wsh(m) ==> r@ == m.ms.script)
                    && (!(x@ is Wsh) ==> r@ == crate::sh::spec_redeem_script(x@)),
            },
    {
        match self {
            PreTaprootDescriptor::Bare(b) => b.explicit_script(),
            PreTaprootDescriptor::Pkh(p) => p.explicit_script(),
            PreTaprootDescriptor::Wpkh(w) => w.explicit_script(),
            PreTaprootDescriptor::Wsh(w) => w.explicit_script(),
            PreTaprootDescriptor::Sh(x) => x.explicit_script(),
        }
    }

    /// The script code signatures commit to; for a segwit key hash, the
    /// pay-to-pubkey-hash script of the key.
    pub fn script_code(&self) -> (r: Vec<u8>)
        ensures
            match self {
                PreTaprootDescriptor::Bare(b) => r@ == b@.ms.script,
                PreTaprootDescriptor::Pkh(p) => r@ == crate::script::p2pkh_script(crate::primitives::hash160_of(p@)),
                PreTaprootDescriptor::Wpkh(w) => r@ == crate::script::p2pkh_script(crate::primitives::hash160_of(w@)),
                PreTaprootDescriptor::Wsh(w) => r@ == w@.ms.script,
                PreTaprootDescriptor::Sh(x) => match x@ {
                    crate::sh::ShView::Wpkh(k) => r@ == crate::script::p2pkh_script(crate::primitives::hash160_of(k)),
                    crate::sh::ShView::Wsh(m) => r@ == m.ms.script,
                    crate::sh::ShView::Ms(m) => r@ == m.ms.script,
                },
            },
    {
        match self {
            PreTaprootDescriptor::Bare(b) => b.script_code(),
            PreTaprootDescriptor::Pkh(p) => p.script_code(),
            PreTaprootDescriptor::Wpkh(w) => w.script_code(),
            PreTaprootDescriptor::Wsh(w) => w.script_code(),
            PreTaprootDescriptor::Sh(x) => x.script_code(),
        }
    }

    /// The unlocking script of an unsigned spend: empty but for a p2sh
    /// descriptor that nests a segwit one, where it pushes the redeem script.
    pub fn unsigned_script_sig(&self) -> (r: Vec<u8>)
        ensures
            match self {
                PreTaprootDescriptor::Sh(x) => !(x@ is Ms) ==> r@ == crate::script::push_encoding(crate::sh::spec_redeem_script(x@)),
                _ => r@.len() == 0,
            },
    {
        match self {
            PreTaprootDescriptor::Bare(b) => b.unsigned_script_sig(),
            PreTaprootDescriptor::Pkh(p) => p.unsigned_script_sig(),
            PreTaprootDescriptor::Wpkh(w) => w.unsigned_script_sig(),
            PreTaprootDescriptor::Wsh(w) => w.unsigned_script_sig(),
            PreTaprootDescriptor::Sh(x) => x.unsigned_script_sig(),
        }
    }

    /// The address on the given chain; a bare script has none.
    pub fn address(&self, params: crate::primitives::AddressParams) -> (r: Result<String, Error>)
        ensures
            match self {
                PreTaprootDescriptor::Bare(_) => r matches Err(e) && e == Error::BareDescriptorAddr,
                PreTaprootDescriptor::Pkh(p) => r matches Ok(a) && a@ == crate::primitives::p2pkh_address_of(p@, params),
                PreTaprootDescriptor::Wpkh(w) => r matches Ok(a) && a@ == crate::primitives::p2wpkh_address_of(w@, params),
                PreTaprootDescriptor::Wsh(w) => r matches Ok(a) && a@ == crate::primitives::p2wsh_address_of(w@.ms.script, params),
                PreTaprootDescriptor::Sh(x) => r matches Ok(a) && a@ == crate::primitives::p2sh_address_of(crate::sh::spec_redeem_script(x@), params),
            },
    {
        match self {
            PreTaprootDescriptor::Bare(b) => b.address(),
            PreTaprootDescriptor::Pkh(p) => Ok(p.address(params)),
            PreTaprootDescriptor::Wpkh(w) => Ok(w.address(params)),
            PreTaprootDescriptor::Wsh(w) => Ok(w.address(params)),
            PreTaprootDescriptor::Sh(x) => Ok(x.address(params)),
        }
    }

    /// The descriptor string with its checksum, or `None` where a Miniscript
    /// text has a character the checksum cannot take.
    pub fn to_string(&self) -> (r: Option<String>)
        ensures
            match self {
                PreTaprootDescriptor::Bare(b) => r matches Some(t) ==> t@ == crate::descriptor::with_checksum(crate::bare::bare_text(b@.ms.text)),
                PreTaprootDescriptor::Pkh(p) => r matches Some(t) && t@ == crate::descriptor::with_checksum(crate::descriptor::pkh_text(p@)),
                PreTaprootDescriptor::Wpkh(w) => r matches Some(t) && t@ == crate::descriptor::with_checksum(crate::segwitv0::wpkh_text(w@)),
                PreTaprootDescriptor::Wsh(w) => r matches Some(t) ==> t@ == crate::descriptor::with_checksum(crate::segwitv0::wsh_text(w@.ms.text)),
                PreTaprootDescriptor::Sh(x) => r matches Some(t) ==> t@ == crate::descriptor::with_checksum(crate::sh::sh_text(x@)),
            },
    {
        match self {
            PreTaprootDescriptor::Bare(b) => b.to_string(),
            PreTaprootDescriptor::Pkh(p) => Some(p.to_string()),
            PreTaprootDescriptor::Wpkh(w) => Some(w.to_string()),
            PreTaprootDescriptor::Wsh(w) => w.to_string(),
            PreTaprootDescriptor::Sh(x) => x.to_string(),
        }
    }
}

} // verus!
