//! The calls this library makes into bitcoin, elements and miniscript. Each
//! function here is trusted: its contract restates what the called function
//! documents, and the results that take pages to define (hashes, curve-point
//! validity, Miniscript decoding) are given names instead.

use vstd::prelude::*;
use miniscript::Miniscript as MsAst;
use miniscript::{BareCtx, Legacy, ScriptContext, Segwitv0, Tap};
use crate::text::{all_hex, hex_decode};

verus! {

/// RIPEMD160 of SHA256 of the given bytes.
pub uninterp spec fn hash160_of(b: Seq<u8>) -> Seq<u8>;

/// SHA256 of the given bytes.
pub uninterp spec fn sha256_of(b: Seq<u8>) -> Seq<u8>;

/// Whether the bytes are a SEC encoding of a point on secp256k1 that
/// `bitcoin::PublicKey::from_slice` accepts.
pub uninterp spec fn full_key_valid(b: Seq<u8>) -> bool;

/// Whether the bytes are a BIP340 x-only encoding of a point on secp256k1.
pub uninterp spec fn xonly_key_valid(b: Seq<u8>) -> bool;

/// Whether the bytes are a taproot control block that
/// `elements::taproot::ControlBlock::from_slice` accepts.
pub uninterp spec fn control_block_valid(b: Seq<u8>) -> bool;

/// Whether the control block commits the leaf script to the output key.
pub uninterp spec fn taproot_commits(control: Seq<u8>, output_key: Seq<u8>, script: Seq<u8>) -> bool;

/// The first instruction of a non-empty script read with minimal pushes
/// enforced, and how many bytes it takes: `OP_PUSHBYTES_n` for n below 76,
/// where a single byte 1 to 16 or 0x81 must use its own opcode;
/// `OP_PUSHDATA1`, `OP_PUSHDATA2` and `OP_PUSHDATA4` with a little-endian
/// length that the shorter forms could not hold; any other byte is an
/// opcode. Nothing where the bytes run out or a push is not minimal.
pub open spec fn next_instruction(b: Seq<u8>) -> Option<(InstructionView, int)> {
    let len = b.len() as int;
    let op = b[0];
    if op < 0x4c {
        let n = op as int;
        if len < n + 1 {
            None
        } else if n == 1 && (b[1] == 0x81 || (b[1] > 0 && b[1] <= 16)) {
            None
        } else {
            Some((InstructionView::Push(b.subrange(1, n + 1)), n + 1))
        }
    } else if op == 0x4c {
        if len < 2 {
            None
        } else {
            let n = b[1] as int;
            if len < n + 2 || n < 76 {
                None
            } else {
                Some((InstructionView::Push(b.subrange(2, n + 2)), n + 2))
            }
        }
    } else if op == 0x4d {
        if len < 3 {
            None
        } else {
            let n = b[1] as int + 256 * (b[2] as int);
            if n < 0x100 || len < n + 3 {
                None
            } else {
                Some((InstructionView::Push(b.subrange(3, n + 3)), n + 3))
            }
        }
    } else if op == 0x4e {
        if len < 5 {
            None
        } else {
            let n = b[1] as int + 256 * (b[2] as int) + 65536 * (b[3] as int) + 16777216 * (b[4] as int);
            if n < 0x10000 || len < n + 5 {
                None
            } else {
                Some((InstructionView::Push(b.subrange(5, n + 5)), n + 5))
            }
        }
    } else {
        Some((InstructionView::Op(op), 1))
    }
}

/// The instructions of a script read with minimal pushes enforced, or
/// nothing when the bytes do not decode that way.
pub open spec fn minimal_instructions(b: Seq<u8>) -> Option<Seq<InstructionView>>
    decreases b.len(),
{
    if b.len() == 0 {
        Some(Seq::empty())
    } else {
        match next_instruction(b) {
            None => None,
            Some((ins, used)) => if used < 1 || used > b.len() {
                None
            } else {
                match minimal_instructions(b.subrange(used, b.len() as int)) {
                    None => None,
                    Some(rest) => Some(seq![ins] + rest),
                }
            },
        }
    }
}

/// The Miniscript decoding of a script under the legacy (p2sh) rules.
pub uninterp spec fn legacy_decode(b: Seq<u8>) -> Result<MiniscriptView, Seq<char>>;

/// The Miniscript decoding of a script under the segwit v0 rules.
pub uninterp spec fn segwitv0_decode(b: Seq<u8>) -> Result<MiniscriptView, Seq<char>>;

/// The Miniscript decoding of a script under the tapscript rules.
pub uninterp spec fn tap_decode(b: Seq<u8>) -> Result<MiniscriptView, Seq<char>>;

/// The Miniscript decoding of a script under the bare-output rules.
pub uninterp spec fn bare_decode(b: Seq<u8>) -> Result<MiniscriptView, Seq<char>>;

/// One instruction of a script: a data push or another opcode.
#[derive(Clone, Debug, PartialEq, Eq)]
pub enum Instruction {
    Push(Vec<u8>),
    Op(u8),
}

pub enum InstructionView {
    Push(Seq<u8>),
    Op(u8),
}

impl View for Instruction {
    type V = InstructionView;

    open spec fn view(&self) -> InstructionView {
        match self {
            Instruction::Push(d) => InstructionView::Push(d@),
            Instruction::Op(o) => InstructionView::Op(*o),
        }
    }
}

pub open spec fn instructions_view(v: Seq<Instruction>) -> Seq<InstructionView> {
    v.map_values(|i: Instruction| i@)
}

/// A Miniscript as this library handles it: its text, with keys written out,
/// and its encoding as a script.
#[derive(Clone, Debug, PartialEq, Eq)]
pub struct Miniscript {
    pub text: String,
    pub script: Vec<u8>,
}

pub struct MiniscriptView {
    pub text: Seq<char>,
    pub script: Seq<u8>,
}

impl View for Miniscript {
    type V = MiniscriptView;

    open spec fn view(&self) -> MiniscriptView {
        MiniscriptView { text: self.text@, script: self.script@ }
    }
}

pub open spec fn decode_view(r: Result<Miniscript, String>) -> Result<MiniscriptView, Seq<char>> {
    match r {
        Ok(m) => Ok(m@),
        Err(e) => Err(e@),
    }
}

/// Relies on `hash160::Hash::hash` of bitcoin_hashes: a 20-byte digest.
#[verifier::external_body]
pub fn hash160(b: &[u8]) -> (r: Vec<u8>)
    ensures
        r@ == hash160_of(b@),
        r@.len() == 20,
{
    let h = <elements::hashes::hash160::Hash as elements::hashes::Hash>::hash(b);
    <elements::hashes::hash160::Hash as elements::hashes::Hash>::into_inner(h).to_vec()
}

/// Relies on `sha256::Hash::hash` of bitcoin_hashes: a 32-byte digest.
#[verifier::external_body]
pub fn sha256(b: &[u8]) -> (r: Vec<u8>)
    ensures
        r@ == sha256_of(b@),
        r@.len() == 32,
{
    let h = <elements::hashes::sha256::Hash as elements::hashes::Hash>::hash(b);
    <elements::hashes::sha256::Hash as elements::hashes::Hash>::into_inner(h).to_vec()
}

/// Relies on `bitcoin::PublicKey::from_slice`: it accepts 33 bytes as a
/// compressed key and 65 bytes starting with 0x04 as an uncompressed one, when
/// they encode a curve point; the result is whether the key is compressed.
#[verifier::external_body]
pub(crate) fn parse_full_key(b: &[u8]) -> (r: Option<bool>)
    ensures
        r is Some == full_key_valid(b@),
        r is Some ==> (b@.len() == 33 || (b@.len() == 65 && b@[0] == 4)),
        r is Some ==> r->0 == (b@.len() == 33),
{
    bitcoin::PublicKey::from_slice(b).ok().map(|k| k.compressed)
}

/// Relies on `bitcoin::XOnlyPublicKey::from_slice`: 32 bytes that encode a
/// curve point.
#[verifier::external_body]
pub(crate) fn parse_xonly_key(b: &[u8]) -> (r: bool)
    ensures
        r == xonly_key_valid(b@),
        r ==> b@.len() == 32,
{
    bitcoin::XOnlyPublicKey::from_slice(b).is_ok()
}

/// Relies on `elements::taproot::ControlBlock::from_slice`.
#[verifier::external_body]
pub(crate) fn parse_control_block(b: &[u8]) -> (r: bool)
    ensures
        r == control_block_valid(b@),
{
    elements::taproot::ControlBlock::from_slice(b).is_ok()
}

/// Relies on `ControlBlock::verify_taproot_commitment`: whether the control
/// block proves that the leaf script is committed to by the output key. The
/// two keys, already checked to decode, are decoded again to call it.
#[verifier::external_body]
pub(crate) fn verify_taproot_commitment(control: &[u8], output_key: &[u8], script: &[u8]) -> (r: bool)
    requires
        control_block_valid(control@),
        xonly_key_valid(output_key@),
    ensures
        r == taproot_commits(control@, output_key@, script@),
{
    let cb = elements::taproot::ControlBlock::from_slice(control).expect("checked by the caller");
    let key = bitcoin::XOnlyPublicKey::from_slice(output_key).expect("checked by the caller");
    let secp = elements::secp256k1_zkp::Secp256k1::verification_only();
    cb.verify_taproot_commitment(&secp, &<bitcoin::XOnlyPublicKey as elements::schnorr::TapTweak>::dangerous_assume_tweaked(key), &elements::Script::from(script.to_vec()))
}

/// Relies on `elements::Script::instructions_minimal`: the script's
/// instructions in order as `minimal_instructions` reads them, stopping with
/// nothing at the first that does not decode or is not a minimal push.
#[verifier::external_body]
pub(crate) fn script_instructions(b: &[u8]) -> (r: Option<Vec<Instruction>>)
    ensures
        match r {
            Some(v) => minimal_instructions(b@) == Some(instructions_view(v@)),
            None => minimal_instructions(b@) is None,
        },
{
    let script = elements::Script::from(b.to_vec());
    let mut out = Vec::new();
    for ins in script.instructions_minimal() {
        match ins {
            Ok(elements::script::Instruction::PushBytes(d)) => out.push(Instruction::Push(d.to_vec())),
            Ok(elements::script::Instruction::Op(op)) => out.push(Instruction::Op(op.into_u8())),
            Err(_) => return None,
        }
    }
    Some(out)
}

/// Relies on `miniscript::Miniscript::<bitcoin::PublicKey, Legacy>::parse_insane`,
/// returning the parsed Miniscript as text and as its encoding.
#[verifier::external_body]
pub(crate) fn parse_legacy(b: &[u8]) -> (r: Result<Miniscript, String>)
    ensures
        decode_view(r) == legacy_decode(b@),
{
    let script = bitcoin::Script::from(b.to_vec());
    match MsAst::<bitcoin::PublicKey, Legacy>::parse_insane(&script) {
        Ok(ms) => Ok(Miniscript { text: ms.to_string(), script: ms.encode().into_bytes() }),
        Err(e) => Err(e.to_string()),
    }
}

/// Relies on `miniscript::Miniscript::<bitcoin::PublicKey, Segwitv0>::parse_insane`,
/// returning the parsed Miniscript as text and as its encoding.
#[verifier::external_body]
pub(crate) fn parse_segwitv0(b: &[u8]) -> (r: Result<Miniscript, String>)
    ensures
        decode_view(r) == segwitv0_decode(b@),
{
    let script = bitcoin::Script::from(b.to_vec());
    match MsAst::<bitcoin::PublicKey, Segwitv0>::parse_insane(&script) {
        Ok(ms) => Ok(Miniscript { text: ms.to_string(), script: ms.encode().into_bytes() }),
        Err(e) => Err(e.to_string()),
    }
}

/// Relies on `miniscript::Miniscript::<bitcoin::XOnlyPublicKey, Tap>::parse_insane`,
/// returning the parsed Miniscript as text and as its encoding.
#[verifier::external_body]
pub(crate) fn parse_tap(b: &[u8]) -> (r: Result<Miniscript, String>)
    ensures
        decode_view(r) == tap_decode(b@),
{
    let script = bitcoin::Script::from(b.to_vec());
    match MsAst::<bitcoin::XOnlyPublicKey, Tap>::parse_insane(&script) {
        Ok(ms) => Ok(Miniscript { text: ms.to_string(), script: ms.encode().into_bytes() }),
        Err(e) => Err(e.to_string()),
    }
}

/// Relies on `miniscript::Miniscript::<bitcoin::PublicKey, BareCtx>::parse_insane`,
/// returning the parsed Miniscript as text and as its encoding.
#[verifier::external_body]
pub(crate) fn parse_bare(b: &[u8]) -> (r: Result<Miniscript, String>)
    ensures
        decode_view(r) == bare_decode(b@),
{
    let script = bitcoin::Script::from(b.to_vec());
    match MsAst::<bitcoin::PublicKey, BareCtx>::parse_insane(&script) {
        Ok(ms) => Ok(Miniscript { text: ms.to_string(), script: ms.encode().into_bytes() }),
        Err(e) => Err(e.to_string()),
    }
}

/// Relies on `bitcoin::PublicKey::from_str`: 66 or 130 hexadecimal digits of
/// either case whose bytes `PublicKey::from_slice` accepts; the key is
/// returned by its encoding, which is those bytes.
#[verifier::external_body]
pub(crate) fn parse_key_text(s: &str) -> (r: Option<Vec<u8>>)
    ensures
        r is Some <==> ((s@.len() == 66 || s@.len() == 130) && all_hex(s@) && full_key_valid(
            hex_decode(s@),
        )),
        r matches Some(k) ==> k@ == hex_decode(s@),
{
    s.parse::<bitcoin::PublicKey>().ok().map(|k| k.to_bytes())
}

/// The chain whose address format an address is written in.
#[derive(Copy, Clone, Debug, PartialEq, Eq)]
pub enum AddressParams {
    Liquid,
    LiquidTestnet,
    Elements,
}

/// A Bitcoin network, for addresses in Bitcoin's own format.
#[derive(Copy, Clone, Debug, PartialEq, Eq)]
pub enum Network {
    Bitcoin,
    Testnet,
    Signet,
    Regtest,
}

/// The Bitcoin pay-to-pubkey-hash address of a key on a network.
pub uninterp spec fn bitcoin_p2pkh_address_of(key: Seq<u8>, network: Network) -> Seq<char>;

/// Relies on `bitcoin::Address::p2pkh`, written out by its `Display`; the
/// key, already checked to decode, is decoded again.
#[verifier::external_body]
pub(crate) fn bitcoin_p2pkh_address(key: &[u8], network: Network) -> (r: String)
    requires
        full_key_valid(key@),
    ensures
        r@ == bitcoin_p2pkh_address_of(key@, network),
{
    let pk = bitcoin::PublicKey::from_slice(key).expect("checked by the caller");
    let network = match network {
        Network::Bitcoin => bitcoin::Network::Bitcoin,
        Network::Testnet => bitcoin::Network::Testnet,
        Network::Signet => bitcoin::Network::Signet,
        Network::Regtest => bitcoin::Network::Regtest,
    };
    bitcoin::Address::p2pkh(&pk, network).to_string()
}

/// The unblinded pay-to-pubkey-hash address of a key on a chain.
pub uninterp spec fn p2pkh_address_of(key: Seq<u8>, params: AddressParams) -> Seq<char>;

/// The unblinded pay-to-witness-pubkey-hash address of a key on a chain.
pub uninterp spec fn p2wpkh_address_of(key: Seq<u8>, params: AddressParams) -> Seq<char>;

/// The unblinded pay-to-witness-script-hash address of a script on a chain.
pub uninterp spec fn p2wsh_address_of(script: Seq<u8>, params: AddressParams) -> Seq<char>;

/// Relies on `elements::Address::p2pkh` with no blinding key, written out by
/// its `Display`; the key, already checked to decode, is decoded again.
#[verifier::external_body]
pub(crate) fn p2pkh_address(key: &[u8], params: AddressParams) -> (r: String)
    requires
        full_key_valid(key@),
    ensures
        r@ == p2pkh_address_of(key@, params),
{
    let pk = bitcoin::PublicKey::from_slice(key).expect("checked by the caller");
    let params = match params {
        AddressParams::Liquid => &elements::AddressParams::LIQUID,
        AddressParams::LiquidTestnet => &elements::AddressParams::LIQUID_TESTNET,
        AddressParams::Elements => &elements::AddressParams::ELEMENTS,
    };
    elements::Address::p2pkh(&pk, None, params).to_string()
}

/// Relies on `elements::Address::p2wpkh` with no blinding key, written out
/// by its `Display`; the key, already checked to decode, is decoded again.
#[verifier::external_body]
pub(crate) fn p2wpkh_address(key: &[u8], params: AddressParams) -> (r: String)
    requires
        full_key_valid(key@),
    ensures
        r@ == p2wpkh_address_of(key@, params),
{
    let pk = bitcoin::PublicKey::from_slice(key).expect("checked by the caller");
    let params = match params {
        AddressParams::Liquid => &elements::AddressParams::LIQUID,
        AddressParams::LiquidTestnet => &elements::AddressParams::LIQUID_TESTNET,
        AddressParams::Elements => &elements::AddressParams::ELEMENTS,
    };
    elements::Address::p2wpkh(&pk, None, params).to_string()
}

/// Relies on `elements::Address::p2wsh` with no blinding key, written out by
/// its `Display`.
#[verifier::external_body]
pub(crate) fn p2wsh_address(script: &[u8], params: AddressParams) -> (r: String)
    ensures
        r@ == p2wsh_address_of(script@, params),
{
    let params = match params {
        AddressParams::Liquid => &elements::AddressParams::LIQUID,
        AddressParams::LiquidTestnet => &elements::AddressParams::LIQUID_TESTNET,
        AddressParams::Elements => &elements::AddressParams::ELEMENTS,
    };
    elements::Address::p2wsh(&elements::Script::from(script.to_vec()), None, params).to_string()
}

/// A Miniscript read from text, with what the descriptors need of its
/// analysis.
#[derive(Clone, Debug, PartialEq, Eq)]
pub struct MiniscriptInfo {
    /// The Miniscript's canonical text and its encoding.
    pub ms: Miniscript,
    /// Size in bytes of the encoding, as the analysis counts it.
    pub script_size: usize,
    /// Worst-case count of executed opcodes when satisfied, if it can be.
    pub ops_sat: Option<usize>,
    /// Whether the top fragment ends in an opcode with a `VERIFY` form.
    pub has_free_verify: bool,
    /// Largest satisfaction size in bytes, if it can be satisfied.
    pub max_sat_size: Option<usize>,
    /// Largest number of witness elements of a satisfaction, the script
    /// included, if it can be satisfied.
    pub max_sat_elems: Option<usize>,
    /// Why the Miniscript fails the sanity checks, if it does.
    pub insane: Option<String>,
    /// The encodings of the keys the Miniscript names, in the order its
    /// fragments are walked.
    pub keys: Vec<Vec<u8>>,
}

pub struct MiniscriptInfoView {
    pub ms: MiniscriptView,
    pub script_size: usize,
    pub ops_sat: Option<usize>,
    pub has_free_verify: bool,
    pub max_sat_size: Option<usize>,
    pub max_sat_elems: Option<usize>,
    pub insane: Option<Seq<char>>,
    pub keys: Seq<Seq<u8>>,
}

impl View for MiniscriptInfo {
    type V = MiniscriptInfoView;

    open spec fn view(&self) -> MiniscriptInfoView {
        MiniscriptInfoView {
            ms: self.ms@,
            script_size: self.script_size,
            ops_sat: self.ops_sat,
            has_free_verify: self.has_free_verify,
            max_sat_size: self.max_sat_size,
            max_sat_elems: self.max_sat_elems,
            insane: match self.insane {
                Some(t) => Some(t@),
                None => None,
            },
            keys: self.keys@.map_values(|k: Vec<u8>| k@),
        }
    }
}

pub open spec fn info_view(r: Result<MiniscriptInfo, String>) -> Result<MiniscriptInfoView, Seq<char>> {
    match r {
        Ok(m) => Ok(m@),
        Err(e) => Err(e@),
    }
}

/// The segwit v0 Miniscript a text describes, after the top-level checks.
pub uninterp spec fn segwitv0_text_decode(t: Seq<char>) -> Result<MiniscriptInfoView, Seq<char>>;

/// The legacy (p2sh) Miniscript a text describes, after the top-level checks.
pub uninterp spec fn legacy_text_decode(t: Seq<char>) -> Result<MiniscriptInfoView, Seq<char>>;

/// The unblinded pay-to-script-hash address of a redeem script on a chain.
pub uninterp spec fn p2sh_address_of(script: Seq<u8>, params: AddressParams) -> Seq<char>;

/// The bare-output Miniscript a text describes, after the top-level checks.
pub uninterp spec fn bare_text_decode(t: Seq<char>) -> Result<MiniscriptInfoView, Seq<char>>;

/// SHA256 applied twice.
pub uninterp spec fn hash256_of(b: Seq<u8>) -> Seq<u8>;

/// Relies on `sha256d::Hash::hash` of bitcoin_hashes: a 32-byte digest.
#[verifier::external_body]
pub fn hash256(b: &[u8]) -> (r: Vec<u8>)
    ensures
        r@ == hash256_of(b@),
        r@.len() == 32,
{
    let h = <elements::hashes::sha256d::Hash as elements::hashes::Hash>::hash(b);
    <elements::hashes::sha256d::Hash as elements::hashes::Hash>::into_inner(h).to_vec()
}

/// Relies on `Miniscript::<bitcoin::PublicKey, Segwitv0>::from_str_insane`
/// followed by `Segwitv0::top_level_checks`; the parsed Miniscript is handed
/// back as its text, its encoding and the figures of its analysis.
#[verifier::external_body]
pub(crate) fn parse_segwitv0_text(t: &str) -> (r: Result<MiniscriptInfo, String>)
    ensures
        info_view(r) == segwitv0_text_decode(t@),
{
    let ms = MsAst::<bitcoin::PublicKey, Segwitv0>::from_str_insane(t).map_err(|e| e.to_string())?;
    Segwitv0::top_level_checks(&ms).map_err(|e| e.to_string())?;
    Ok(MiniscriptInfo {
        ms: Miniscript { text: ms.to_string(), script: ms.encode().into_bytes() },
        script_size: ms.script_size(), ops_sat: ms.ext.ops.op_count(), has_free_verify: ms.ext.has_free_verify,
        max_sat_size: ms.max_satisfaction_size().ok(), max_sat_elems: ms.max_satisfaction_witness_elements().ok(),
        insane: ms.sanity_check().err().map(|e| e.to_string()),
        keys: ms.iter_pk().map(|k| k.to_bytes()).collect(),
    })
}

/// Relies on `Miniscript::<bitcoin::PublicKey, Legacy>::from_str_insane`
/// followed by `Legacy::top_level_checks`; the parsed Miniscript is handed
/// back as its text, its encoding and the figures of its analysis.
#[verifier::external_body]
pub(crate) fn parse_legacy_text(t: &str) -> (r: Result<MiniscriptInfo, String>)
    ensures
        info_view(r) == legacy_text_decode(t@),
{
    let ms = MsAst::<bitcoin::PublicKey, Legacy>::from_str_insane(t).map_err(|e| e.to_string())?;
    Legacy::top_level_checks(&ms).map_err(|e| e.to_string())?;
    Ok(MiniscriptInfo {
        ms: Miniscript { text: ms.to_string(), script: ms.encode().into_bytes() },
        script_size: ms.script_size(), ops_sat: ms.ext.ops.op_count(), has_free_verify: ms.ext.has_free_verify,
        max_sat_size: ms.max_satisfaction_size().ok(), max_sat_elems: ms.max_satisfaction_witness_elements().ok(),
        insane: ms.sanity_check().err().map(|e| e.to_string()),
        keys: ms.iter_pk().map(|k| k.to_bytes()).collect(),
    })
}

/// Relies on `elements::Address::p2sh` with no blinding key, written out by
/// its `Display`.
#[verifier::external_body]
pub(crate) fn p2sh_address(script: &[u8], params: AddressParams) -> (r: String)
    ensures
        r@ == p2sh_address_of(script@, params),
{
    let params = match params {
        AddressParams::Liquid => &elements::AddressParams::LIQUID,
        AddressParams::LiquidTestnet => &elements::AddressParams::LIQUID_TESTNET,
        AddressParams::Elements => &elements::AddressParams::ELEMENTS,
    };
    elements::Address::p2sh(&elements::Script::from(script.to_vec()), None, params).to_string()
}

/// Relies on `Miniscript::<bitcoin::PublicKey, BareCtx>::from_str_insane`
/// followed by `BareCtx::top_level_checks`; the parsed Miniscript is handed
/// back as its text, its encoding and the figures of its analysis.
#[verifier::external_body]
pub(crate) fn parse_bare_text(t: &str) -> (r: Result<MiniscriptInfo, String>)
    ensures
        info_view(r) == bare_text_decode(t@),
{
    let ms = MsAst::<bitcoin::PublicKey, BareCtx>::from_str_insane(t).map_err(|e| e.to_string())?;
    BareCtx::top_level_checks(&ms).map_err(|e| e.to_string())?;
    Ok(MiniscriptInfo {
        ms: Miniscript { text: ms.to_string(), script: ms.encode().into_bytes() },
        script_size: ms.script_size(), ops_sat: ms.ext.ops.op_count(), has_free_verify: ms.ext.has_free_verify,
        max_sat_size: ms.max_satisfaction_size().ok(), max_sat_elems: ms.max_satisfaction_witness_elements().ok(),
        insane: ms.sanity_check().err().map(|e| e.to_string()),
        keys: ms.iter_pk().map(|k| k.to_bytes()).collect(),
    })
}

/// Relies on `elements::script::read_scriptint`: up to four bytes read as a
/// little-endian magnitude with the sign in the top bit of the last byte;
/// longer input is refused.
#[verifier::external_body]
pub(crate) fn script_int(v: &[u8]) -> (r: Option<i64>)
    ensures
        r matches Some(n) ==> crate::script::read_scriptint(v@) == Some(n as int),
        r is None <==> crate::script::read_scriptint(v@) is None,
{
    elements::script::read_scriptint(v).ok()
}

/// Relies on `elements::script::Builder::push_int`: `OP_1NEGATE`, `OP_0`
/// and `OP_1` to `OP_16` where one exists, else the push of the shortest
/// script-number bytes.
#[verifier::external_body]
pub(crate) fn push_int_script(n: i64) -> (r: Vec<u8>)
    requires
        -0x1_0000_0000 < n < 0x1_0000_0000,
    ensures
        r@ == crate::script::push_int_encoding(n as int),
{
    elements::script::Builder::new().push_int(n).into_script().into_bytes()
}

} // verus!
