//! Classification of a spend from its transaction data: given the output
//! script being spent, the unlocking script and the witness, which kind of
//! output it is, the key or Miniscript it reveals, what is left on the stack
//! and which script code signatures commit to.

use vstd::prelude::*;
use crate::bytes::{bytes_eq, to_vec};
use crate::text::{chars_of, push_chars, string_of};
use crate::covenant::{cov_components, parse_cov_components, post_codesep_script, post_codesep_spec};
use crate::primitives::{
    control_block_valid, full_key_valid, hash160, hash160_of, instructions_view,
    legacy_decode, minimal_instructions, parse_bare, parse_control_block, parse_full_key,
    parse_legacy, parse_segwitv0, parse_tap, parse_xonly_key, script_instructions, segwitv0_decode,
    sha256, sha256_of, tap_decode, taproot_commits, verify_taproot_commitment, xonly_key_valid,
    bare_decode, InstructionView, Miniscript, MiniscriptView,
};
use crate::script::{
    is_p2pk, is_p2pkh, is_p2sh, is_v0_p2wpkh, is_v0_p2wsh, is_v1_p2tr, new_p2pkh, new_p2sh,
    new_v0_wpkh, new_v0_wsh, p2pkh_script, p2sh_script, spec_is_p2pk, spec_is_p2pkh, spec_is_p2sh,
    spec_is_v0_p2wpkh, spec_is_v0_p2wsh, spec_is_v1_p2tr, v0_wpkh_script, v0_wsh_script,
};
use crate::stack::{element_of, element_of_instruction, elements_view, Element, ElementView, Stack};

verus! {

/// The first byte of a taproot annex.
pub const TAPROOT_ANNEX_PREFIX: u8 = 0x50;

/// A key as the interpreter found it: a full SEC key or an x-only key, each
/// by its encoding.
#[derive(Clone, Debug, PartialEq, Eq)]
pub enum BitcoinKey {
    Fullkey(Vec<u8>),
    XOnlyPublicKey(Vec<u8>),
}

pub enum KeyView {
    Fullkey(Seq<u8>),
    XOnlyPublicKey(Seq<u8>),
}

impl View for BitcoinKey {
    type V = KeyView;

    open spec fn view(&self) -> KeyView {
        match self {
            BitcoinKey::Fullkey(k) => KeyView::Fullkey(k@),
            BitcoinKey::XOnlyPublicKey(k) => KeyView::XOnlyPublicKey(k@),
        }
    }
}

/// Which output shape a bare key was revealed by.
#[derive(Copy, Clone, PartialEq, Eq, Debug)]
pub enum PubkeyType {
    Pk,
    Pkh,
    Wpkh,
    ShWpkh,
    /// Taproot key spend.
    Tr,
}

/// Which output shape a Miniscript was revealed by.
#[derive(Copy, Clone, PartialEq, Eq, Debug)]
pub enum ScriptType {
    Bare,
    Sh,
    Wsh,
    ShWsh,
    /// Taproot script spend.
    Tr,
}

/// What a spend reveals: a bare key, a Miniscript, or a covenant's key and
/// Miniscript.
#[derive(Clone, PartialEq, Eq, Debug)]
pub enum Inner {
    PublicKey(BitcoinKey, PubkeyType),
    Script(Miniscript, ScriptType),
    CovScript(BitcoinKey, Miniscript),
}

pub enum InnerView {
    PublicKey(KeyView, PubkeyType),
    Script(MiniscriptView, ScriptType),
    CovScript(KeyView, MiniscriptView),
}

impl View for Inner {
    type V = InnerView;

    open spec fn view(&self) -> InnerView {
        match self {
            Inner::PublicKey(k, t) => InnerView::PublicKey(k@, *t),
            Inner::Script(m, t) => InnerView::Script(m@, *t),
            Inner::CovScript(k, m) => InnerView::CovScript(k@, m@),
        }
    }
}

/// Why transaction data could not be classified.
#[derive(Clone, PartialEq, Eq, Debug)]
pub enum Error {
    NonEmptyWitness,
    NonEmptyScriptSig,
    UnexpectedStackEnd,
    UnexpectedStackBoolean,
    IncorrectPubkeyHash,
    IncorrectWPubkeyHash,
    IncorrectScriptHash,
    IncorrectWScriptHash,
    UncompressedPubkey,
    PubkeyParseError,
    XOnlyPublicKeyParseError,
    ExpectedPush,
    TapAnnexUnsupported,
    ControlBlockParse,
    ControlBlockVerificationError,
    /// A Miniscript did not decode; the text says why.
    Miniscript(String),
}

pub enum ErrorView {
    NonEmptyWitness,
    NonEmptyScriptSig,
    UnexpectedStackEnd,
    UnexpectedStackBoolean,
    IncorrectPubkeyHash,
    IncorrectWPubkeyHash,
    IncorrectScriptHash,
    IncorrectWScriptHash,
    UncompressedPubkey,
    PubkeyParseError,
    XOnlyPublicKeyParseError,
    ExpectedPush,
    TapAnnexUnsupported,
    ControlBlockParse,
    ControlBlockVerificationError,
    Miniscript(Seq<char>),
}

impl View for Error {
    type V = ErrorView;

    open spec fn view(&self) -> ErrorView {
        match self {
            Error::NonEmptyWitness => ErrorView::NonEmptyWitness,
            Error::NonEmptyScriptSig => ErrorView::NonEmptyScriptSig,
            Error::UnexpectedStackEnd => ErrorView::UnexpectedStackEnd,
            Error::UnexpectedStackBoolean => ErrorView::UnexpectedStackBoolean,
            Error::IncorrectPubkeyHash => ErrorView::IncorrectPubkeyHash,
            Error::IncorrectWPubkeyHash => ErrorView::IncorrectWPubkeyHash,
            Error::IncorrectScriptHash => ErrorView::IncorrectScriptHash,
            Error::IncorrectWScriptHash => ErrorView::IncorrectWScriptHash,
            Error::UncompressedPubkey => ErrorView::UncompressedPubkey,
            Error::PubkeyParseError => ErrorView::PubkeyParseError,
            Error::XOnlyPublicKeyParseError => ErrorView::XOnlyPublicKeyParseError,
            Error::ExpectedPush => ErrorView::ExpectedPush,
            Error::TapAnnexUnsupported => ErrorView::TapAnnexUnsupported,
            Error::ControlBlockParse => ErrorView::ControlBlockParse,
            Error::ControlBlockVerificationError => ErrorView::ControlBlockVerificationError,
            Error::Miniscript(e) => ErrorView::Miniscript(e@),
        }
    }
}

impl Error {
    /// A sentence that says what went wrong.
    pub fn message(&self) -> (r: String)
        ensures
            self matches Error::Miniscript(t) ==> r@ == "parse error: "@ + t@,
    {
        match self {
            Error::NonEmptyWitness => "legacy spend had nonempty witness".to_owned(),
            Error::NonEmptyScriptSig => "segwit spend had nonempty scriptsig".to_owned(),
            Error::UnexpectedStackEnd => "unexpected end of stack".to_owned(),
            Error::UnexpectedStackBoolean => "Expected Stack Push operation, found stack bool".to_owned(),
            Error::IncorrectPubkeyHash => "public key did not match scriptpubkey".to_owned(),
            Error::IncorrectWPubkeyHash => "public key did not match scriptpubkey (segwit v0)".to_owned(),
            Error::IncorrectScriptHash => "redeem script did not match scriptpubkey".to_owned(),
            Error::IncorrectWScriptHash => "witness script did not match scriptpubkey".to_owned(),
            Error::UncompressedPubkey => "uncompressed pubkey in non-legacy descriptor".to_owned(),
            Error::PubkeyParseError => "could not parse pubkey".to_owned(),
            Error::XOnlyPublicKeyParseError => "could not parse x-only pubkey".to_owned(),
            Error::ExpectedPush => "expected push in script".to_owned(),
            Error::TapAnnexUnsupported => "Encountered annex element".to_owned(),
            Error::ControlBlockParse => "Control block parse error".to_owned(),
            Error::ControlBlockVerificationError => "Control block verification failed".to_owned(),
            Error::Miniscript(t) => {
                let mut out = chars_of("parse error: ");
                let detail = chars_of(t.as_str());
                push_chars(&mut out, detail.as_slice());
                string_of(out.as_slice())
            },
        }
    }
}

/// The rules a revealed script is decoded under.
#[derive(Copy, Clone, PartialEq, Eq, Debug)]
pub enum ScriptContext {
    Legacy,
    Segwitv0,
    Tap,
}

/// What a classification yields: the revealed content, the remaining stack
/// and the script code.
pub type Classified = (InnerView, Seq<ElementView>, Option<Seq<u8>>);

pub open spec fn true_ms() -> MiniscriptView {
    MiniscriptView { text: seq!['1'], script: seq![0x51u8] }
}

pub open spec fn false_ms() -> MiniscriptView {
    MiniscriptView { text: seq!['0'], script: seq![0x00u8] }
}

pub open spec fn decode_in(ctx: ScriptContext, b: Seq<u8>) -> Result<MiniscriptView, Seq<char>> {
    match ctx {
        ScriptContext::Legacy => legacy_decode(b),
        ScriptContext::Segwitv0 => segwitv0_decode(b),
        ScriptContext::Tap => tap_decode(b),
    }
}

/// The Miniscript a stack item holds under the given rules: pushed data is
/// decoded, and the two booleans stand for the Miniscripts `1` and `0`.
pub open spec fn decode_element(ctx: ScriptContext, e: ElementView) -> Result<MiniscriptView, ErrorView> {
    match e {
        ElementView::Push(d) => match decode_in(ctx, d) {
            Ok(m) => Ok(m),
            Err(t) => Err(ErrorView::Miniscript(t)),
        },
        ElementView::Satisfied => Ok(true_ms()),
        ElementView::Dissatisfied => Ok(false_ms()),
    }
}

/// The key a stack item holds: pushed data that decodes as a full key, and a
/// compressed one where that is required.
pub open spec fn key_from_element(e: ElementView, require_compressed: bool) -> Result<Seq<u8>, ErrorView> {
    match e {
        ElementView::Push(d) => key_from_bytes(d, require_compressed),
        _ => Err(ErrorView::PubkeyParseError),
    }
}

/// The key some bytes encode, compressed where that is required.
pub open spec fn key_from_bytes(d: Seq<u8>, require_compressed: bool) -> Result<Seq<u8>, ErrorView> {
    if !full_key_valid(d) {
        Err(ErrorView::PubkeyParseError)
    } else if require_compressed && d.len() != 33 {
        Err(ErrorView::UncompressedPubkey)
    } else {
        Ok(d)
    }
}

/// The items of an unlocking script: each instruction must be a minimal push
/// or `OP_1`.
pub open spec fn script_sig_elements(ssig: Seq<u8>) -> Option<Seq<ElementView>> {
    match minimal_instructions(ssig) {
        None => None,
        Some(ins) => if forall|i: int| 0 <= i < ins.len() ==> #[trigger] element_of_instruction(ins[i]) is Some {
            Some(ins.map_values(|i: InstructionView| element_of_instruction(i)->0))
        } else {
            None
        },
    }
}

/// The items of a witness, the last one on top.
pub open spec fn witness_elements(wit: Seq<Seq<u8>>) -> Seq<ElementView> {
    wit.map_values(|w: Seq<u8>| element_of(w))
}

pub open spec fn classify_p2pk(spk: Seq<u8>, ss: Seq<ElementView>, ws: Seq<ElementView>) -> Result<Classified, ErrorView> {
    if ws.len() > 0 {
        Err(ErrorView::NonEmptyWitness)
    } else {
        match key_from_bytes(spk.subrange(1, spk.len() - 1), false) {
            Err(e) => Err(e),
            Ok(k) => Ok((InnerView::PublicKey(KeyView::Fullkey(k), PubkeyType::Pk), ss, Some(spk))),
        }
    }
}

pub open spec fn classify_p2pkh(spk: Seq<u8>, ss: Seq<ElementView>, ws: Seq<ElementView>) -> Result<Classified, ErrorView> {
    if ws.len() > 0 {
        Err(ErrorView::NonEmptyWitness)
    } else if ss.len() == 0 {
        Err(ErrorView::UnexpectedStackEnd)
    } else {
        match key_from_element(ss.last(), false) {
            Err(e) => Err(e),
            Ok(k) => if spk == p2pkh_script(hash160_of(k)) {
                Ok((InnerView::PublicKey(KeyView::Fullkey(k), PubkeyType::Pkh), ss.drop_last(), Some(spk)))
            } else {
                Err(ErrorView::IncorrectPubkeyHash)
            },
        }
    }
}

pub open spec fn classify_p2wpkh(spk: Seq<u8>, ss: Seq<ElementView>, ws: Seq<ElementView>) -> Result<Classified, ErrorView> {
    if ss.len() > 0 {
        Err(ErrorView::NonEmptyScriptSig)
    } else if ws.len() == 0 {
        Err(ErrorView::UnexpectedStackEnd)
    } else {
        match key_from_element(ws.last(), true) {
            Err(e) => Err(e),
            Ok(k) => if spk == v0_wpkh_script(hash160_of(k)) {
                Ok((InnerView::PublicKey(KeyView::Fullkey(k), PubkeyType::Wpkh), ws.drop_last(), Some(p2pkh_script(hash160_of(k)))))
            } else {
                Err(ErrorView::IncorrectWPubkeyHash)
            },
        }
    }
}

/// A covenant script is recognised before any other decoding; its output
/// hash is not compared.
pub open spec fn classify_p2wsh(spk: Seq<u8>, ss: Seq<ElementView>, ws: Seq<ElementView>) -> Result<Classified, ErrorView> {
    if ss.len() > 0 {
        Err(ErrorView::NonEmptyScriptSig)
    } else if ws.len() == 0 {
        Err(ErrorView::UnexpectedStackEnd)
    } else {
        let top = ws.last();
        if top is Push && cov_components(top->Push_0) is Some {
            let (k, m) = cov_components(top->Push_0)->0;
            Ok((InnerView::CovScript(KeyView::Fullkey(k), m), ws.drop_last(), Some(post_codesep_spec())))
        } else {
            match decode_element(ScriptContext::Segwitv0, top) {
                Err(e) => Err(e),
                Ok(m) => if spk == v0_wsh_script(sha256_of(m.script)) {
                    Ok((InnerView::Script(m, ScriptType::Wsh), ws.drop_last(), Some(m.script)))
                } else {
                    Err(ErrorView::IncorrectWScriptHash)
                },
            }
        }
    }
}

/// Whether the top witness item is a push that starts with the annex byte.
pub open spec fn top_is_annex(ws: Seq<ElementView>) -> bool {
    ws.len() > 0 && ws.last() is Push && ws.last()->Push_0.len() > 0
        && ws.last()->Push_0[0] == TAPROOT_ANNEX_PREFIX
}

pub open spec fn classify_p2tr(spk: Seq<u8>, ss: Seq<ElementView>, ws: Seq<ElementView>) -> Result<Classified, ErrorView> {
    let output_key = spk.subrange(2, spk.len() as int);
    if ss.len() > 0 {
        Err(ErrorView::NonEmptyScriptSig)
    } else if !xonly_key_valid(output_key) {
        Err(ErrorView::XOnlyPublicKeyParseError)
    } else if ws.len() >= 2 && top_is_annex(ws) {
        Err(ErrorView::TapAnnexUnsupported)
    } else if ws.len() == 0 {
        Err(ErrorView::UnexpectedStackEnd)
    } else if ws.len() == 1 {
        Ok((InnerView::PublicKey(KeyView::XOnlyPublicKey(output_key), PubkeyType::Tr), ws, None))
    } else {
        let control = ws.last();
        let leaf = ws[ws.len() - 2];
        let rest = ws.subrange(0, ws.len() - 2);
        if !(control is Push) {
            Err(ErrorView::UnexpectedStackBoolean)
        } else if !control_block_valid(control->Push_0) {
            Err(ErrorView::ControlBlockParse)
        } else {
            match decode_element(ScriptContext::Tap, leaf) {
                Err(e) => Err(e),
                Ok(m) => if taproot_commits(control->Push_0, output_key, m.script) {
                    Ok((InnerView::Script(m, ScriptType::Tr), rest, Some(m.script)))
                } else {
                    Err(ErrorView::ControlBlockVerificationError)
                },
            }
        }
    }
}

/// A redeem script of the nested witness key-hash shape: `0 <20 bytes>`.
pub open spec fn is_nested_wpkh(slice: Seq<u8>) -> bool {
    slice.len() == 22 && slice[0] == 0 && slice[1] == 20
}

/// A redeem script of the nested witness script-hash shape: `0 <32 bytes>`.
pub open spec fn is_nested_wsh(slice: Seq<u8>) -> bool {
    slice.len() == 34 && slice[0] == 0 && slice[1] == 32
}

pub open spec fn classify_sh_legacy(spk: Seq<u8>, redeem: ElementView, ss: Seq<ElementView>, ws: Seq<ElementView>) -> Result<Classified, ErrorView> {
    match decode_element(ScriptContext::Legacy, redeem) {
        Err(e) => Err(e),
        Ok(m) => if ws.len() > 0 {
            Err(ErrorView::NonEmptyWitness)
        } else if spk == p2sh_script(hash160_of(m.script)) {
            Ok((InnerView::Script(m, ScriptType::Sh), ss, Some(m.script)))
        } else {
            Err(ErrorView::IncorrectScriptHash)
        },
    }
}

pub open spec fn classify_sh_wpkh(slice: Seq<u8>, ss: Seq<ElementView>, ws: Seq<ElementView>) -> Result<Classified, ErrorView> {
    if ws.len() == 0 {
        Err(ErrorView::UnexpectedStackEnd)
    } else if ss.len() > 0 {
        Err(ErrorView::NonEmptyScriptSig)
    } else {
        match key_from_element(ws.last(), true) {
            Err(e) => Err(e),
            Ok(k) => if slice == v0_wpkh_script(hash160_of(k)) {
                Ok((InnerView::PublicKey(KeyView::Fullkey(k), PubkeyType::ShWpkh), ws.drop_last(), Some(p2pkh_script(hash160_of(k)))))
            } else {
                Err(ErrorView::IncorrectWScriptHash)
            },
        }
    }
}

pub open spec fn classify_sh_wsh(slice: Seq<u8>, ss: Seq<ElementView>, ws: Seq<ElementView>) -> Result<Classified, ErrorView> {
    if ws.len() == 0 {
        Err(ErrorView::UnexpectedStackEnd)
    } else if ss.len() > 0 {
        Err(ErrorView::NonEmptyScriptSig)
    } else {
        match decode_element(ScriptContext::Segwitv0, ws.last()) {
            Err(e) => Err(e),
            Ok(m) => if slice == v0_wsh_script(sha256_of(m.script)) {
                Ok((InnerView::Script(m, ScriptType::ShWsh), ws.drop_last(), Some(m.script)))
            } else {
                Err(ErrorView::IncorrectWScriptHash)
            },
        }
    }
}

/// p2sh: the top unlocking item is the redeem script, which must hash to the
/// output; the nested witness shapes are then told apart from a legacy script.
pub open spec fn classify_p2sh(spk: Seq<u8>, ss: Seq<ElementView>, ws: Seq<ElementView>) -> Result<Classified, ErrorView> {
    if ss.len() == 0 {
        Err(ErrorView::UnexpectedStackEnd)
    } else {
        let redeem = ss.last();
        let rest = ss.drop_last();
        match redeem {
            ElementView::Push(slice) => if spk != p2sh_script(hash160_of(slice)) {
                Err(ErrorView::IncorrectScriptHash)
            } else if is_nested_wpkh(slice) {
                classify_sh_wpkh(slice, rest, ws)
            } else if is_nested_wsh(slice) {
                classify_sh_wsh(slice, rest, ws)
            } else {
                classify_sh_legacy(spk, redeem, rest, ws)
            },
            _ => classify_sh_legacy(spk, redeem, rest, ws),
        }
    }
}

pub open spec fn classify_bare(spk: Seq<u8>, ss: Seq<ElementView>, ws: Seq<ElementView>) -> Result<Classified, ErrorView> {
    if ws.len() > 0 {
        Err(ErrorView::NonEmptyWitness)
    } else {
        match bare_decode(spk) {
            Err(t) => Err(ErrorView::Miniscript(t)),
            Ok(m) => Ok((InnerView::Script(m, ScriptType::Bare), ss, Some(spk))),
        }
    }
}

/// The classification of a spend over its stacks: the first output shape
/// that matches decides.
pub open spec fn classify(spk: Seq<u8>, ss: Seq<ElementView>, ws: Seq<ElementView>) -> Result<Classified, ErrorView> {
    if spec_is_p2pk(spk) {
        classify_p2pk(spk, ss, ws)
    } else if spec_is_p2pkh(spk) {
        classify_p2pkh(spk, ss, ws)
    } else if spec_is_v0_p2wpkh(spk) {
        classify_p2wpkh(spk, ss, ws)
    } else if spec_is_v0_p2wsh(spk) {
        classify_p2wsh(spk, ss, ws)
    } else if spec_is_v1_p2tr(spk) {
        classify_p2tr(spk, ss, ws)
    } else if spec_is_p2sh(spk) {
        classify_p2sh(spk, ss, ws)
    } else {
        classify_bare(spk, ss, ws)
    }
}

/// The classification of a spend from its transaction data.
pub open spec fn spec_from_txdata(spk: Seq<u8>, ssig: Seq<u8>, wit: Seq<Seq<u8>>) -> Result<Classified, ErrorView> {
    match script_sig_elements(ssig) {
        None => Err(ErrorView::ExpectedPush),
        Some(ss) => classify(spk, ss, witness_elements(wit)),
    }
}

pub open spec fn classified_view(r: Result<(Inner, Stack, Option<Vec<u8>>), Error>) -> Result<Classified, ErrorView> {
    match r {
        Ok((i, s, c)) => Ok((i@, s@, match c {
            Some(v) => Some(v@),
            None => None,
        })),
        Err(e) => Err(e@),
    }
}

pub open spec fn witness_view(w: Seq<Vec<u8>>) -> Seq<Seq<u8>> {
    w.map_values(|v: Vec<u8>| v@)
}

pub open spec fn bytes_result_view(r: Result<Vec<u8>, Error>) -> Result<Seq<u8>, ErrorView> {
    match r {
        Ok(v) => Ok(v@),
        Err(e) => Err(e@),
    }
}

pub open spec fn ms_result_view(r: Result<Miniscript, Error>) -> Result<MiniscriptView, ErrorView> {
    match r {
        Ok(m) => Ok(m@),
        Err(e) => Err(e@),
    }
}

/// Decodes a full key, checking that it is compressed where that is asked for.
fn pk_from_slice(slice: &[u8], require_compressed: bool) -> (r: Result<Vec<u8>, Error>)
    ensures
        bytes_result_view(r) == key_from_bytes(slice@, require_compressed),
{
    match parse_full_key(slice) {
        None => Err(Error::PubkeyParseError),
        Some(compressed) => if require_compressed && !compressed {
            Err(Error::UncompressedPubkey)
        } else {
            Ok(to_vec(slice))
        },
    }
}

fn pk_from_stack_elem(elem: &Element, require_compressed: bool) -> (r: Result<Vec<u8>, Error>)
    ensures
        bytes_result_view(r) == key_from_element(elem@, require_compressed),
{
    match elem {
        Element::Push(d) => pk_from_slice(d.as_slice(), require_compressed),
        _ => Err(Error::PubkeyParseError),
    }
}

fn true_miniscript() -> (r: Miniscript)
    ensures
        r@ == true_ms(),
{
    let text = "1".to_owned();
    proof {
        reveal_strlit("1");
    }
    assert(text@ =~= seq!['1']);
    let script: Vec<u8> = vec![0x51u8];
    assert(script@ =~= seq![0x51u8]);
    Miniscript { text, script }
}

fn false_miniscript() -> (r: Miniscript)
    ensures
        r@ == false_ms(),
{
    let text = "0".to_owned();
    proof {
        reveal_strlit("0");
    }
    assert(text@ =~= seq!['0']);
    let script: Vec<u8> = vec![0x00u8];
    assert(script@ =~= seq![0x00u8]);
    Miniscript { text, script }
}

/// Decodes the Miniscript a stack item holds under the given rules.
fn script_from_stack_elem(ctx: ScriptContext, elem: &Element) -> (r: Result<Miniscript, Error>)
    ensures
        ms_result_view(r) == decode_element(ctx, elem@),
{
    match elem {
        Element::Push(d) => {
            let parsed = match ctx {
                ScriptContext::Legacy => parse_legacy(d.as_slice()),
                ScriptContext::Segwitv0 => parse_segwitv0(d.as_slice()),
                ScriptContext::Tap => parse_tap(d.as_slice()),
            };
            match parsed {
                Ok(m) => Ok(m),
                Err(t) => Err(Error::Miniscript(t)),
            }
        },
        Element::Satisfied => Ok(true_miniscript()),
        Element::Dissatisfied => Ok(false_miniscript()),
    }
}

/// The stack an unlocking script leaves: one item per instruction.
fn script_sig_stack(ssig: &[u8]) -> (r: Result<Stack, Error>)
    ensures
        r matches Ok(s) ==> script_sig_elements(ssig@) == Some(s@),
        r matches Err(e) ==> script_sig_elements(ssig@) is None && e@ == ErrorView::ExpectedPush,
{
    let ins = match script_instructions(ssig) {
        None => return Err(Error::ExpectedPush),
        Some(ins) => ins,
    };
    let ghost iv = instructions_view(ins@);
    let mut out: Vec<Element> = Vec::new();
    let mut i: usize = 0;
    while i < ins.len()
        invariant
            0 <= i <= ins@.len(),
            out@.len() == i,
            iv == instructions_view(ins@),
            minimal_instructions(ssig@) == Some(iv),
            forall|j: int| 0 <= j < i ==> #[trigger] element_of_instruction(iv[j]) is Some,
            elements_view(out@) =~= iv.subrange(0, i as int).map_values(
                |x: InstructionView| element_of_instruction(x)->0,
            ),
        decreases ins@.len() - i,
    {
        match Element::from_instruction(&ins[i]) {
            Some(e) => {
                let ghost prev = out@;
                out.push(e);
                proof {
                    assert(out@ == prev.push(e));
                    assert(iv[i as int] == ins@[i as int]@);
                    let target = iv.subrange(0, i + 1).map_values(
                        |x: InstructionView| element_of_instruction(x)->0,
                    );
                    assert forall|j: int| 0 <= j < i + 1 implies elements_view(out@)[j] == target[j] by {
                        if j < i {
                            assert(out@[j] == prev[j]);
                            assert(elements_view(prev)[j] == prev[j]@);
                        }
                    }
                }
            },
            None => {
                assert(element_of_instruction(iv[i as int]) is None);
                return Err(Error::ExpectedPush);
            },
        }
        i = i + 1;
        assert(elements_view(out@) =~= iv.subrange(0, i as int).map_values(
            |x: InstructionView| element_of_instruction(x)->0,
        ));
    }
    assert(iv.subrange(0, i as int) =~= iv);
    Ok(Stack::from_elements(out))
}

/// The stack a witness leaves, its last item on top.
fn witness_stack(wit: &[Vec<u8>]) -> (r: Stack)
    ensures
        r@ == witness_elements(witness_view(wit@)),
{
    let mut out: Vec<Element> = Vec::new();
    let mut i: usize = 0;
    while i < wit.len()
        invariant
            0 <= i <= wit@.len(),
            out@.len() == i,
            elements_view(out@) =~= witness_elements(witness_view(wit@)).subrange(0, i as int),
        decreases wit@.len() - i,
    {
        let e = Element::from_bytes(wit[i].as_slice());
        let ghost prev = out@;
        out.push(e);
        proof {
            assert(out@ == prev.push(e));
            let target = witness_elements(witness_view(wit@)).subrange(0, i + 1);
            assert forall|j: int| 0 <= j < i + 1 implies elements_view(out@)[j] == target[j] by {
                if j < i {
                    assert(out@[j] == prev[j]);
                    assert(elements_view(prev)[j] == prev[j]@);
                }
            }
        }
        i = i + 1;
        assert(elements_view(out@) =~= witness_elements(witness_view(wit@)).subrange(0, i as int));
    }
    assert(witness_elements(witness_view(wit@)).subrange(0, i as int) =~= witness_elements(
        witness_view(wit@),
    ));
    Stack::from_elements(out)
}

fn from_p2pk(spk: &[u8], ss: Stack, ws: Stack) -> (r: Result<(Inner, Stack, Option<Vec<u8>>), Error>)
    requires
        spec_is_p2pk(spk@),
    ensures
        classified_view(r) == classify_p2pk(spk@, ss@, ws@),
{
    if !ws.is_empty() {
        return Err(Error::NonEmptyWitness);
    }
    let n = spk.len();
    match pk_from_slice(&spk[1..n - 1], false) {
        Err(e) => Err(e),
        Ok(k) => Ok((Inner::PublicKey(BitcoinKey::Fullkey(k), PubkeyType::Pk), ss, Some(to_vec(spk)))),
    }
}

fn from_p2pkh(spk: &[u8], ss: Stack, ws: Stack) -> (r: Result<(Inner, Stack, Option<Vec<u8>>), Error>)
    requires
        spec_is_p2pkh(spk@),
    ensures
        classified_view(r) == classify_p2pkh(spk@, ss@, ws@),
{
    if !ws.is_empty() {
        return Err(Error::NonEmptyWitness);
    }
    let mut ss = ss;
    match ss.pop() {
        None => Err(Error::UnexpectedStackEnd),
        Some(elem) => match pk_from_stack_elem(&elem, false) {
            Err(e) => Err(e),
            Ok(k) => {
                let h = hash160(k.as_slice());
                let expected = new_p2pkh(h.as_slice());
                if bytes_eq(spk, expected.as_slice()) {
                    Ok((Inner::PublicKey(BitcoinKey::Fullkey(k), PubkeyType::Pkh), ss, Some(to_vec(spk))))
                } else {
                    Err(Error::IncorrectPubkeyHash)
                }
            },
        },
    }
}

fn from_p2wpkh(spk: &[u8], ss: Stack, ws: Stack) -> (r: Result<(Inner, Stack, Option<Vec<u8>>), Error>)
    requires
        spec_is_v0_p2wpkh(spk@),
    ensures
        classified_view(r) == classify_p2wpkh(spk@, ss@, ws@),
{
    if !ss.is_empty() {
        return Err(Error::NonEmptyScriptSig);
    }
    let mut ws = ws;
    match ws.pop() {
        None => Err(Error::UnexpectedStackEnd),
        Some(elem) => match pk_from_stack_elem(&elem, true) {
            Err(e) => Err(e),
            Ok(k) => {
                let h = hash160(k.as_slice());
                let expected = new_v0_wpkh(h.as_slice());
                if bytes_eq(spk, expected.as_slice()) {
                    // segwit v0 signatures commit to the p2pkh script of the key
                    let code = new_p2pkh(h.as_slice());
                    Ok((Inner::PublicKey(BitcoinKey::Fullkey(k), PubkeyType::Wpkh), ws, Some(code)))
                } else {
                    Err(Error::IncorrectWPubkeyHash)
                }
            },
        },
    }
}

fn from_p2wsh(spk: &[u8], ss: Stack, ws: Stack) -> (r: Result<(Inner, Stack, Option<Vec<u8>>), Error>)
    requires
        spec_is_v0_p2wsh(spk@),
    ensures
        classified_view(r) == classify_p2wsh(spk@, ss@, ws@),
{
    if !ss.is_empty() {
        return Err(Error::NonEmptyScriptSig);
    }
    let mut ws = ws;
    match ws.pop() {
        None => Err(Error::UnexpectedStackEnd),
        Some(elem) => {
            if let Element::Push(d) = &elem {
                if let Ok((k, m)) = parse_cov_components(d.as_slice()) {
                    return Ok((Inner::CovScript(BitcoinKey::Fullkey(k), m), ws, Some(post_codesep_script())));
                }
            }
            match script_from_stack_elem(ScriptContext::Segwitv0, &elem) {
                Err(e) => Err(e),
                Ok(m) => {
                    let h = sha256(m.script.as_slice());
                    let expected = new_v0_wsh(h.as_slice());
                    if bytes_eq(spk, expected.as_slice()) {
                        let code = to_vec(m.script.as_slice());
                        Ok((Inner::Script(m, ScriptType::Wsh), ws, Some(code)))
                    } else {
                        Err(Error::IncorrectWScriptHash)
                    }
                },
            }
        },
    }
}

/// Whether the top of the witness is a push that starts with the annex byte.
fn has_annex(ws: &Stack) -> (r: bool)
    ensures
        r == top_is_annex(ws@),
{
    match ws.last() {
        None => false,
        Some(e) => match e.as_push() {
            None => false,
            Some(d) => d.len() > 0 && d[0] == TAPROOT_ANNEX_PREFIX,
        },
    }
}

fn from_p2tr(spk: &[u8], ss: Stack, ws: Stack) -> (r: Result<(Inner, Stack, Option<Vec<u8>>), Error>)
    requires
        spec_is_v1_p2tr(spk@),
    ensures
        classified_view(r) == classify_p2tr(spk@, ss@, ws@),
{
    if !ss.is_empty() {
        return Err(Error::NonEmptyScriptSig);
    }
    let output_key = &spk[2..spk.len()];
    if !parse_xonly_key(output_key) {
        return Err(Error::XOnlyPublicKeyParseError);
    }
    // The annex is valid on chain but not supported here.
    if ws.len() >= 2 && has_annex(&ws) {
        return Err(Error::TapAnnexUnsupported);
    }
    let n = ws.len();
    if n == 0 {
        return Err(Error::UnexpectedStackEnd);
    }
    if n == 1 {
        return Ok((Inner::PublicKey(BitcoinKey::XOnlyPublicKey(to_vec(output_key)), PubkeyType::Tr), ws, None));
    }
    let mut ws = ws;
    let ghost w0 = ws@;
    let control = ws.pop().unwrap();
    let control = match control.as_push() {
        None => return Err(Error::UnexpectedStackBoolean),
        Some(c) => to_vec(c.as_slice()),
    };
    let leaf = ws.pop().unwrap();
    assert(ws@ =~= w0.subrange(0, w0.len() - 2));
    if !parse_control_block(control.as_slice()) {
        return Err(Error::ControlBlockParse);
    }
    match script_from_stack_elem(ScriptContext::Tap, &leaf) {
        Err(e) => Err(e),
        Ok(m) => {
            if verify_taproot_commitment(control.as_slice(), output_key, m.script.as_slice()) {
                // The leaf script stands where a script code would.
                let code = to_vec(m.script.as_slice());
                Ok((Inner::Script(m, ScriptType::Tr), ws, Some(code)))
            } else {
                Err(Error::ControlBlockVerificationError)
            }
        },
    }
}

fn from_sh_legacy(spk: &[u8], redeem: &Element, ss: Stack, ws: Stack) -> (r: Result<(Inner, Stack, Option<Vec<u8>>), Error>)
    ensures
        classified_view(r) == classify_sh_legacy(spk@, redeem@, ss@, ws@),
{
    match script_from_stack_elem(ScriptContext::Legacy, redeem) {
        Err(e) => Err(e),
        Ok(m) => {
            if !ws.is_empty() {
                return Err(Error::NonEmptyWitness);
            }
            let h = hash160(m.script.as_slice());
            let expected = new_p2sh(h.as_slice());
            if bytes_eq(spk, expected.as_slice()) {
                let code = to_vec(m.script.as_slice());
                Ok((Inner::Script(m, ScriptType::Sh), ss, Some(code)))
            } else {
                Err(Error::IncorrectScriptHash)
            }
        },
    }
}

fn from_sh_wpkh(slice: &[u8], ss: Stack, ws: Stack) -> (r: Result<(Inner, Stack, Option<Vec<u8>>), Error>)
    ensures
        classified_view(r) == classify_sh_wpkh(slice@, ss@, ws@),
{
    let mut ws = ws;
    match ws.pop() {
        None => Err(Error::UnexpectedStackEnd),
        Some(elem) => {
            if !ss.is_empty() {
                return Err(Error::NonEmptyScriptSig);
            }
            match pk_from_stack_elem(&elem, true) {
                Err(e) => Err(e),
                Ok(k) => {
                    let h = hash160(k.as_slice());
                    let expected = new_v0_wpkh(h.as_slice());
                    if bytes_eq(slice, expected.as_slice()) {
                        let code = new_p2pkh(h.as_slice());
                        Ok((Inner::PublicKey(BitcoinKey::Fullkey(k), PubkeyType::ShWpkh), ws, Some(code)))
                    } else {
                        Err(Error::IncorrectWScriptHash)
                    }
                },
            }
        },
    }
}

fn from_sh_wsh(slice: &[u8], ss: Stack, ws: Stack) -> (r: Result<(Inner, Stack, Option<Vec<u8>>), Error>)
    ensures
        classified_view(r) == classify_sh_wsh(slice@, ss@, ws@),
{
    let mut ws = ws;
    match ws.pop() {
        None => Err(Error::UnexpectedStackEnd),
        Some(elem) => {
            if !ss.is_empty() {
                return Err(Error::NonEmptyScriptSig);
            }
            match script_from_stack_elem(ScriptContext::Segwitv0, &elem) {
                Err(e) => Err(e),
                Ok(m) => {
                    let h = sha256(m.script.as_slice());
                    let expected = new_v0_wsh(h.as_slice());
                    if bytes_eq(slice, expected.as_slice()) {
                        let code = to_vec(m.script.as_slice());
                        Ok((Inner::Script(m, ScriptType::ShWsh), ws, Some(code)))
                    } else {
                        Err(Error::IncorrectWScriptHash)
                    }
                },
            }
        },
    }
}

fn from_p2sh(spk: &[u8], ss: Stack, ws: Stack) -> (r: Result<(Inner, Stack, Option<Vec<u8>>), Error>)
    requires
        spec_is_p2sh(spk@),
    ensures
        classified_view(r) == classify_p2sh(spk@, ss@, ws@),
{
    let mut ss = ss;
    let redeem = match ss.pop() {
        None => return Err(Error::UnexpectedStackEnd),
        Some(e) => e,
    };
    if let Element::Push(slice) = &redeem {
        let h = hash160(slice.as_slice());
        let expected = new_p2sh(h.as_slice());
        if !bytes_eq(spk, expected.as_slice()) {
            return Err(Error::IncorrectScriptHash);
        }
        if slice.len() == 22 && slice[0] == 0 && slice[1] == 20 {
            return from_sh_wpkh(slice.as_slice(), ss, ws);
        } else if slice.len() == 34 && slice[0] == 0 && slice[1] == 32 {
            return from_sh_wsh(slice.as_slice(), ss, ws);
        }
    }
    from_sh_legacy(spk, &redeem, ss, ws)
}

fn from_bare(spk: &[u8], ss: Stack, ws: Stack) -> (r: Result<(Inner, Stack, Option<Vec<u8>>), Error>)
    ensures
        classified_view(r) == classify_bare(spk@, ss@, ws@),
{
    if !ws.is_empty() {
        return Err(Error::NonEmptyWitness);
    }
    match parse_bare(spk) {
        Err(t) => Err(Error::Miniscript(t)),
        Ok(m) => Ok((Inner::Script(m, ScriptType::Bare), ss, Some(to_vec(spk)))),
    }
}

/// Classifies a spend from the output script it spends (`spk`), its
/// unlocking script (`script_sig`) and its witness. Returns what the spend
/// reveals, the stack left for evaluation, and the script code that
/// signatures commit to (none for a taproot key spend).
pub fn from_txdata(spk: &[u8], script_sig: &[u8], witness: &[Vec<u8>]) -> (r: Result<(Inner, Stack, Option<Vec<u8>>), Error>)
    ensures
        classified_view(r) == spec_from_txdata(spk@, script_sig@, witness_view(witness@)),
{
    let ss = match script_sig_stack(script_sig) {
        Err(e) => return Err(e),
        Ok(s) => s,
    };
    let ws = witness_stack(witness);
    if is_p2pk(spk) {
        from_p2pk(spk, ss, ws)
    } else if is_p2pkh(spk) {
        from_p2pkh(spk, ss, ws)
    } else if is_v0_p2wpkh(spk) {
        from_p2wpkh(spk, ss, ws)
    } else if is_v0_p2wsh(spk) {
        from_p2wsh(spk, ss, ws)
    } else if is_v1_p2tr(spk) {
        from_p2tr(spk, ss, ws)
    } else if is_p2sh(spk) {
        from_p2sh(spk, ss, ws)
    } else {
        from_bare(spk, ss, ws)
    }
}

} // verus!
