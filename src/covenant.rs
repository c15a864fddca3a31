//! The covenant construction at the script level: the fixed opcode sequence
//! appended to a Miniscript, which checks a signature over the concatenated
//! sighash items against the covenant key, and its recognition in a script.

use vstd::prelude::*;
use crate::bytes::{append_bytes, bytes_eq, to_vec};
use crate::checksum::{desc_checksum, spec_desc_checksum};
use crate::descriptor::{
    add_checksum, first_index, spec_verify_checksum, verify_checksum, with_checksum, Error, ErrorView,
};
use crate::key::{for_each_key_in, key_text_valid, PublicKey};
use crate::primitives::{
    full_key_valid, hash256, hash256_of, parse_full_key, parse_segwitv0, parse_segwitv0_text,
    p2wsh_address, p2wsh_address_of, segwitv0_decode, segwitv0_text_decode, sha256, sha256_of,
    AddressParams, Miniscript, MiniscriptInfo, MiniscriptInfoView, MiniscriptView,
};
use crate::node::{
    lemma_first_index_bound, spec_top_arity, strip_namespace, strip_namespace_exec, top_name, top_node,
    unexpected, unexpected_message,
};
use crate::text::{chars_eq, chars_of, chars_slice, hex_decode, hex_encode, push_chars, string_of};
use crate::script::{
    new_v0_wsh, v0_wsh_script, push_encoding, push_slice, OP_CAT, OP_CHECKMULTISIG, OP_CHECKMULTISIGVERIFY, OP_CHECKSIG,
    OP_CHECKSIGFROMSTACK, OP_CHECKSIGFROMSTACKVERIFY, OP_CHECKSIGVERIFY, OP_CODESEPARATOR, OP_DUP,
    OP_EQUAL, OP_EQUALVERIFY, OP_FROMALTSTACK, OP_LEFT, OP_NUMEQUAL, OP_NUMEQUALVERIFY, OP_OVER,
    OP_PICK, OP_PUSHNUM_1, OP_PUSHNUM_11, OP_SHA256, OP_TOALTSTACK, OP_VERIFY,
};

verus! {

/// Number of `OP_CAT`s that join the sighash items after the covenant
/// signature check.
pub const COV_CAT_COUNT: usize = 10;

/// `CHECKSIGVERIFY CAT*10 SHA256 FROMALTSTACK CHECKSIGFROMSTACK`: the part of
/// the covenant after its code separator, which is the script code that the
/// covenant key signs.
pub open spec fn post_codesep_spec() -> Seq<u8> {
    seq![OP_CHECKSIGVERIFY] + Seq::new(10, |i: int| OP_CAT) + seq![
        OP_SHA256,
        OP_FROMALTSTACK,
        OP_CHECKSIGFROMSTACK,
    ]
}

/// `DUP TOALTSTACK CODESEPARATOR` followed by the post-separator part.
pub open spec fn cov_tail() -> Seq<u8> {
    seq![OP_DUP, OP_TOALTSTACK, OP_CODESEPARATOR] + post_codesep_spec()
}

/// `11 PICK OVER 1 LEFT CAT`: picks the signature and appends the sighash
/// type byte to it.
pub open spec fn cov_pick() -> Seq<u8> {
    seq![OP_PUSHNUM_11, OP_PICK, OP_OVER, OP_PUSHNUM_1, OP_LEFT, OP_CAT]
}

/// Everything the covenant appends after the verify that closes the Miniscript.
pub open spec fn cov_suffix(key: Seq<u8>) -> Seq<u8> {
    cov_pick() + push_encoding(key) + cov_tail()
}

/// The `VERIFY` form of an opcode that has one.
pub open spec fn verify_form(op: u8) -> Option<u8> {
    if op == OP_EQUAL {
        Some(OP_EQUALVERIFY)
    } else if op == OP_NUMEQUAL {
        Some(OP_NUMEQUALVERIFY)
    } else if op == OP_CHECKSIG {
        Some(OP_CHECKSIGVERIFY)
    } else if op == OP_CHECKMULTISIG {
        Some(OP_CHECKMULTISIGVERIFY)
    } else if op == OP_CHECKSIGFROMSTACK {
        Some(OP_CHECKSIGFROMSTACKVERIFY)
    } else {
        None
    }
}

/// The opcode whose `VERIFY` form is `op`.
pub open spec fn plain_form(op: u8) -> Option<u8> {
    if op == OP_EQUALVERIFY {
        Some(OP_EQUAL)
    } else if op == OP_NUMEQUALVERIFY {
        Some(OP_NUMEQUAL)
    } else if op == OP_CHECKSIGVERIFY {
        Some(OP_CHECKSIG)
    } else if op == OP_CHECKMULTISIGVERIFY {
        Some(OP_CHECKMULTISIG)
    } else if op == OP_CHECKSIGFROMSTACKVERIFY {
        Some(OP_CHECKSIGFROMSTACK)
    } else {
        None
    }
}

/// Appends a verify to a script: its last opcode turns into its `VERIFY` form
/// where it has one (a "free" verify), else `OP_VERIFY` is added.
pub open spec fn push_verify(s: Seq<u8>) -> Seq<u8> {
    if s.len() > 0 && verify_form(s.last()) is Some {
        s.drop_last().push(verify_form(s.last())->0)
    } else {
        s.push(OP_VERIFY)
    }
}

/// Whether the last opcode of the script takes the verify for free.
pub open spec fn spec_has_free_verify(s: Seq<u8>) -> bool {
    s.len() > 0 && verify_form(s.last()) is Some
}

/// Takes the closing verify off a script: the inverse of `push_verify`.
pub open spec fn unverify(p: Seq<u8>) -> Option<Seq<u8>> {
    if p.len() == 0 {
        None
    } else if p.last() == OP_VERIFY {
        Some(p.drop_last())
    } else if plain_form(p.last()) is Some {
        Some(p.drop_last().push(plain_form(p.last())->0))
    } else {
        None
    }
}

/// The covenant script over a Miniscript encoding and a covenant key.
pub open spec fn cov_script(ms: Seq<u8>, key: Seq<u8>) -> Seq<u8> {
    push_verify(ms) + cov_suffix(key)
}

/// Length of the covenant suffix with a compressed key.
pub const COV_SUFFIX_LEN_COMPRESSED: usize = 57;

/// Length of the covenant suffix with an uncompressed key.
pub const COV_SUFFIX_LEN_UNCOMPRESSED: usize = 89;

/// Splits a script into the covenant key and the Miniscript encoding before
/// the covenant suffix, trying a 33-byte key first and then a 65-byte one.
pub open spec fn cov_split(d: Seq<u8>) -> Option<(Seq<u8>, Seq<u8>)> {
    let n = d.len() as int;
    if n >= 58 && d.subrange(n - 57, n) == cov_suffix(d.subrange(n - 50, n - 17)) {
        match unverify(d.subrange(0, n - 57)) {
            Some(ms) => Some((d.subrange(n - 50, n - 17), ms)),
            None => None,
        }
    } else if n >= 90 && d.subrange(n - 89, n) == cov_suffix(d.subrange(n - 82, n - 17)) {
        match unverify(d.subrange(0, n - 89)) {
            Some(ms) => Some((d.subrange(n - 82, n - 17), ms)),
            None => None,
        }
    } else {
        None
    }
}

/// The covenant key and Miniscript of a covenant script: the script must
/// end in the covenant construction, its key must decode, and the
/// Miniscript before it must decode under the segwit v0 rules.
pub open spec fn spec_cov_components(d: Seq<u8>) -> Result<(Seq<u8>, MiniscriptView), ErrorView> {
    match cov_split(d) {
        None => Err(ErrorView::BadCovDescriptor),
        Some((key, ms)) => if !full_key_valid(key) {
            Err(ErrorView::BadKey)
        } else {
            match segwitv0_decode(ms) {
                Err(t) => Err(ErrorView::Miniscript(t)),
                Ok(m) => Ok((key, m)),
            }
        },
    }
}

/// The covenant key and Miniscript of a script, where it is a covenant.
pub open spec fn cov_components(d: Seq<u8>) -> Option<(Seq<u8>, MiniscriptView)> {
    match spec_cov_components(d) {
        Ok(c) => Some(c),
        Err(_) => None,
    }
}

fn verify_form_exec(op: u8) -> (r: Option<u8>)
    ensures
        r == verify_form(op),
{
    if op == OP_EQUAL {
        Some(OP_EQUALVERIFY)
    } else if op == OP_NUMEQUAL {
        Some(OP_NUMEQUALVERIFY)
    } else if op == OP_CHECKSIG {
        Some(OP_CHECKSIGVERIFY)
    } else if op == OP_CHECKMULTISIG {
        Some(OP_CHECKMULTISIGVERIFY)
    } else if op == OP_CHECKSIGFROMSTACK {
        Some(OP_CHECKSIGFROMSTACKVERIFY)
    } else {
        None
    }
}

fn plain_form_exec(op: u8) -> (r: Option<u8>)
    ensures
        r == plain_form(op),
{
    if op == OP_EQUALVERIFY {
        Some(OP_EQUAL)
    } else if op == OP_NUMEQUALVERIFY {
        Some(OP_NUMEQUAL)
    } else if op == OP_CHECKSIGVERIFY {
        Some(OP_CHECKSIG)
    } else if op == OP_CHECKMULTISIGVERIFY {
        Some(OP_CHECKMULTISIG)
    } else if op == OP_CHECKSIGFROMSTACKVERIFY {
        Some(OP_CHECKSIGFROMSTACK)
    } else {
        None
    }
}

/// Whether a Miniscript encoding ends in an opcode that takes a verify for free.
pub fn has_free_verify(s: &[u8]) -> (r: bool)
    ensures
        r == spec_has_free_verify(s@),
{
    s.len() > 0 && verify_form_exec(s[s.len() - 1]).is_some()
}

/// Appends the post-separator part of the covenant to `v`.
fn push_post_codesep(v: &mut Vec<u8>)
    ensures
        final(v)@ == old(v)@ + post_codesep_spec(),
{
    let ghost start = v@;
    v.push(OP_CHECKSIGVERIFY);
    let mut i: usize = 0;
    while i < COV_CAT_COUNT
        invariant
            0 <= i <= COV_CAT_COUNT,
            v@ == start + seq![OP_CHECKSIGVERIFY] + Seq::new(i as nat, |j: int| OP_CAT),
        decreases COV_CAT_COUNT - i,
    {
        v.push(OP_CAT);
        i = i + 1;
        assert(v@ =~= start + seq![OP_CHECKSIGVERIFY] + Seq::new(i as nat, |j: int| OP_CAT));
    }
    v.push(OP_SHA256);
    v.push(OP_FROMALTSTACK);
    v.push(OP_CHECKSIGFROMSTACK);
    assert(v@ =~= start + post_codesep_spec());
}

/// The script code for signatures by the covenant key: the part of the
/// covenant after its code separator.
pub fn post_codesep_script() -> (r: Vec<u8>)
    ensures
        r@ == post_codesep_spec(),
{
    let mut v: Vec<u8> = Vec::new();
    push_post_codesep(&mut v);
    assert(v@ =~= post_codesep_spec());
    v
}

/// Appends the covenant suffix for `key` to `v`.
fn push_cov_suffix(v: &mut Vec<u8>, key: &[u8])
    requires
        key@.len() < 0x1_0000_0000,
    ensures
        final(v)@ == old(v)@ + cov_suffix(key@),
{
    let ghost start = v@;
    v.push(OP_PUSHNUM_11);
    v.push(OP_PICK);
    v.push(OP_OVER);
    v.push(OP_PUSHNUM_1);
    v.push(OP_LEFT);
    v.push(OP_CAT);
    push_slice(v, key);
    v.push(OP_DUP);
    v.push(OP_TOALTSTACK);
    v.push(OP_CODESEPARATOR);
    push_post_codesep(v);
    assert(v@ =~= start + cov_suffix(key@));
}

/// The covenant script over a Miniscript encoding `ms` and the key `key`.
pub fn encode_cov_script(ms: &[u8], key: &[u8]) -> (r: Vec<u8>)
    requires
        key@.len() < 0x1_0000_0000,
    ensures
        r@ == cov_script(ms@, key@),
{
    let mut v = to_vec(ms);
    if has_free_verify(ms) {
        let last = v.pop().unwrap();
        let op = verify_form_exec(last).unwrap();
        v.push(op);
    } else {
        v.push(OP_VERIFY);
    }
    assert(v@ =~= push_verify(ms@));
    push_cov_suffix(&mut v, key);
    v
}

fn unverify_exec(p: &[u8]) -> (r: Option<Vec<u8>>)
    ensures
        r matches Some(v) ==> unverify(p@) == Some(v@),
        r is None ==> unverify(p@) is None,
{
    let n = p.len();
    if n == 0 {
        return None;
    }
    let last = p[n - 1];
    let mut v = to_vec(&p[0..n - 1]);
    assert(v@ =~= p@.drop_last());
    if last == OP_VERIFY {
        Some(v)
    } else {
        match plain_form_exec(last) {
            Some(op) => {
                v.push(op);
                Some(v)
            },
            None => None,
        }
    }
}

/// Whether the last `suffix_len` bytes of `d` are the covenant suffix for
/// the key at `key_start..n - 17`.
fn suffix_matches(d: &[u8], suffix_len: usize, key_start: usize) -> (r: bool)
    requires
        suffix_len <= d@.len(),
        suffix_len <= 89,
        d@.len() - suffix_len <= key_start <= d@.len() - 17,
    ensures
        r == (d@.subrange(d@.len() - suffix_len, d@.len() as int) == cov_suffix(
            d@.subrange(key_start as int, d@.len() - 17),
        )),
{
    let n = d.len();
    let key = &d[key_start..n - 17];
    let mut expected: Vec<u8> = Vec::new();
    push_cov_suffix(&mut expected, key);
    assert(expected@ =~= cov_suffix(key@));
    bytes_eq(&d[n - suffix_len..n], expected.as_slice())
}

/// Splits a covenant script into its key and the Miniscript encoding before
/// the covenant suffix.
pub fn split_cov_script(d: &[u8]) -> (r: Option<(Vec<u8>, Vec<u8>)>)
    ensures
        r matches Some((k, m)) ==> cov_split(d@) == Some((k@, m@)),
        r is None ==> cov_split(d@) is None,
{
    let n = d.len();
    if n >= 58 && suffix_matches(d, COV_SUFFIX_LEN_COMPRESSED, n - 50) {
        match unverify_exec(&d[0..n - 57]) {
            Some(ms) => Some((to_vec(&d[n - 50..n - 17]), ms)),
            None => None,
        }
    } else if n >= 90 && suffix_matches(d, COV_SUFFIX_LEN_UNCOMPRESSED, n - 82) {
        match unverify_exec(&d[0..n - 89]) {
            Some(ms) => Some((to_vec(&d[n - 82..n - 17]), ms)),
            None => None,
        }
    } else {
        None
    }
}

/// Recognises a covenant script: its key and its Miniscript, or why it is
/// not one.
pub fn parse_cov_components(d: &[u8]) -> (r: Result<(Vec<u8>, Miniscript), Error>)
    ensures
        r matches Ok((k, m)) ==> spec_cov_components(d@) == Ok::<(Seq<u8>, MiniscriptView), ErrorView>((k@, m@)),
        r matches Err(e) ==> spec_cov_components(d@) == Err::<(Seq<u8>, MiniscriptView), ErrorView>(e@),
{
    match split_cov_script(d) {
        Some((key, ms)) => {
            if parse_full_key(key.as_slice()).is_none() {
                return Err(Error::BadKey);
            }
            match parse_segwitv0(ms.as_slice()) {
                Ok(m) => Ok((key, m)),
                Err(t) => Err(Error::Miniscript(t)),
            }
        },
        None => Err(Error::BadCovDescriptor),
    }
}

/// Consensus limit on executed opcodes in a script.
pub const MAX_OPS_PER_SCRIPT: usize = 201;

/// Consensus limit on the size of a script.
pub const MAX_SCRIPT_SIZE: usize = 10000;

/// Standardness limit on the size of a witness script.
pub const MAX_STANDARD_P2WSH_SCRIPT_SIZE: usize = 3600;

/// Opcodes the covenant suffix executes, its closing verify included.
pub const COV_SCRIPT_OPS: usize = 24;

/// Bytes of the covenant suffix with a compressed key, its closing verify
/// included.
pub const COV_SCRIPT_SIZE: usize = 58;

/// One less when the Miniscript takes the closing verify for free.
pub open spec fn free_verify_discount(fv: bool) -> int {
    if fv { 1 } else { 0 }
}

/// The limits a covenant must stay within: its worst-case opcode count, the
/// Miniscript's plus the suffix's, must not exceed the consensus limit, and
/// the whole script must fit the consensus size limit.
pub open spec fn spec_check_cov_limits(ops_sat: Option<usize>, fv: bool, script_size: usize) -> Result<(), ErrorView> {
    match ops_sat {
        None => Err(ErrorView::ImpossibleSatisfaction),
        Some(ops) => if ops + COV_SCRIPT_OPS - free_verify_discount(fv) > MAX_OPS_PER_SCRIPT {
            Err(ErrorView::ImpossibleSatisfaction)
        } else if script_size + COV_SCRIPT_SIZE - free_verify_discount(fv) > MAX_SCRIPT_SIZE {
            Err(ErrorView::ScriptSizeTooLarge)
        } else {
            Ok(())
        },
    }
}

pub open spec fn unit_result_view(r: Result<(), Error>) -> Result<(), ErrorView> {
    match r {
        Ok(()) => Ok(()),
        Err(e) => Err(e@),
    }
}

/// Checks a covenant's Miniscript figures against the opcode and size limits.
pub fn check_cov_limits(ops_sat: Option<usize>, has_free_verify: bool, script_size: usize) -> (r: Result<(), Error>)
    ensures
        unit_result_view(r) == spec_check_cov_limits(ops_sat, has_free_verify, script_size),
{
    let fv: usize = if has_free_verify { 1 } else { 0 };
    match ops_sat {
        None => Err(Error::ImpossibleSatisfaction),
        Some(ops) => if ops > MAX_OPS_PER_SCRIPT - COV_SCRIPT_OPS + fv {
            Err(Error::ImpossibleSatisfaction)
        } else if script_size > MAX_SCRIPT_SIZE - COV_SCRIPT_SIZE + fv {
            Err(Error::ScriptSizeTooLarge)
        } else {
            Ok(())
        },
    }
}

/// The four little-endian bytes of a 32-bit value.
pub open spec fn u32_le(v: u32) -> Seq<u8> {
    seq![(v % 256) as u8, ((v / 256) % 256) as u8, ((v / 65536) % 256) as u8, (v / 16777216) as u8]
}

pub fn u32_le_bytes(v: u32) -> (r: Vec<u8>)
    ensures
        r@ == u32_le(v),
{
    let r = vec![(v % 256) as u8, ((v / 256) % 256) as u8, ((v / 65536) % 256) as u8, (v / 16777216) as u8];
    assert(r@ =~= u32_le(v));
    r
}

/// The sighash items a covenant spend puts on the stack, as the caller found
/// them, each serialized; `None` where one was not found.
#[derive(Clone, Debug, PartialEq, Eq)]
pub struct CovSighashItems {
    pub n_version: Option<u32>,
    pub hash_prevouts: Option<Vec<u8>>,
    pub hash_sequence: Option<Vec<u8>>,
    pub hash_issuances: Option<Vec<u8>>,
    pub outpoint: Option<Vec<u8>>,
    pub script_code: Option<Vec<u8>>,
    pub value: Option<Vec<u8>>,
    pub n_sequence: Option<u32>,
    /// The serialized outputs, one after the other; they are hashed here.
    pub outputs: Option<Vec<u8>>,
    pub n_locktime: Option<u32>,
    pub sighash_type: Option<u32>,
    /// The DER signature by the covenant key and the hash type it was made with.
    pub signature: Option<(Vec<u8>, u32)>,
}

/// The first missing sighash item, numbered from 1 in the order the items
/// stand in the witness after the signature.
pub open spec fn first_missing_item(it: CovSighashItems) -> Option<u8> {
    if it.n_version is None {
        Some(1)
    } else if it.hash_prevouts is None {
        Some(2)
    } else if it.hash_sequence is None {
        Some(3)
    } else if it.hash_issuances is None {
        Some(4)
    } else if it.outpoint is None {
        Some(5)
    } else if it.script_code is None {
        Some(6)
    } else if it.value is None {
        Some(7)
    } else if it.n_sequence is None {
        Some(8)
    } else if it.outputs is None {
        Some(9)
    } else if it.n_locktime is None {
        Some(10)
    } else if it.sighash_type is None {
        Some(11)
    } else {
        None
    }
}

pub open spec fn sig_bytes(it: CovSighashItems) -> Seq<u8> {
    match it.signature {
        Some((s, _)) => s@,
        None => Seq::empty(),
    }
}

pub open spec fn sig_hash_type(it: CovSighashItems) -> u32 {
    match it.signature {
        Some((_, t)) => t,
        None => 0,
    }
}

/// The covenant part of the witness, in its fixed order: signature, version,
/// prevouts hash, sequences hash, issuances hash, outpoint, script code,
/// value, sequence, outputs hash, locktime, sighash type.
pub open spec fn cov_witness_items(it: CovSighashItems) -> Seq<Seq<u8>> {
    seq![
        sig_bytes(it),
        u32_le(it.n_version->0),
        it.hash_prevouts->0@,
        it.hash_sequence->0@,
        it.hash_issuances->0@,
        it.outpoint->0@,
        it.script_code->0@,
        it.value->0@,
        u32_le(it.n_sequence->0),
        hash256_of(it.outputs->0@),
        u32_le(it.n_locktime->0),
        u32_le(it.sighash_type->0),
    ]
}

pub open spec fn witness_view(w: Seq<Vec<u8>>) -> Seq<Seq<u8>> {
    w.map_values(|v: Vec<u8>| v@)
}

/// The witness that satisfies a covenant, before its witness script: the
/// covenant items followed by the Miniscript's own satisfaction.
pub open spec fn spec_cov_satisfy(it: CovSighashItems, ms_witness: Option<Seq<Seq<u8>>>) -> Result<Seq<Seq<u8>>, ErrorView> {
    if first_missing_item(it) is Some {
        Err(ErrorView::MissingSighashItem(first_missing_item(it)->0))
    } else if it.signature is None {
        Err(ErrorView::MissingCovSignature)
    } else if sig_hash_type(it) != it.sighash_type->0 {
        Err(ErrorView::CovenantSighashTypeMismatch)
    } else {
        match ms_witness {
            None => Err(ErrorView::ImpossibleSatisfaction),
            Some(w) => Ok(cov_witness_items(it) + w),
        }
    }
}

pub open spec fn witness_result_view(r: Result<Vec<Vec<u8>>, Error>) -> Result<Seq<Seq<u8>>, ErrorView> {
    match r {
        Ok(w) => Ok(witness_view(w@)),
        Err(e) => Err(e@),
    }
}

fn clone_bytes(v: &Option<Vec<u8>>) -> (r: Vec<u8>)
    requires
        v is Some,
    ensures
        r@ == v->0@,
{
    match v {
        Some(b) => to_vec(b.as_slice()),
        None => Vec::new(),
    }
}

/// `elcovwsh(`
pub open spec fn cov_prefix() -> Seq<char> {
    seq!['e', 'l', 'c', 'o', 'v', 'w', 's', 'h', '(']
}

/// The text of a covenant descriptor, before its checksum.
pub open spec fn cov_text(key: Seq<u8>, ms_text: Seq<char>) -> Seq<char> {
    cov_prefix() + hex_encode(key) + seq![','] + ms_text + seq![')']
}

/// The key and Miniscript of a covenant descriptor text without its
/// checksum: a top node `covwsh`, with or without the `el` namespace, of two
/// arguments, the key and the Miniscript; the covenant must stay within the
/// opcode and size limits.
pub open spec fn spec_parse_cov(d: Seq<char>) -> Result<(Seq<u8>, MiniscriptInfoView), ErrorView> {
    let name = top_name(d);
    let n = spec_top_arity(d);
    if strip_namespace(name) == "covwsh"@ && n == 2 && d.last() == ')' {
        let body = d.subrange(name.len() as int + 1, d.len() - 1);
        let i = first_index(body, ',');
        if i >= body.len() {
            Err(ErrorView::Unexpected(unexpected_message(name, n, "elcovwsh"@)))
        } else if !key_text_valid(body.subrange(0, i)) {
            Err(ErrorView::BadKey)
        } else {
            match segwitv0_text_decode(body.subrange(i + 1, body.len() as int)) {
                Err(t) => Err(ErrorView::Miniscript(t)),
                Ok(m) => match spec_check_cov_limits(m.ops_sat, m.has_free_verify, m.script_size) {
                    Err(e) => Err(e),
                    Ok(()) => Ok((hex_decode(body.subrange(0, i)), m)),
                },
            }
        }
    } else {
        Err(ErrorView::Unexpected(unexpected_message(name, n, "elcovwsh"@)))
    }
}

/// A covenant read from its script: its key, and its Miniscript read again
/// from the Miniscript's text, within the opcode and size limits.
pub open spec fn spec_cov_parse_insane(script: Seq<u8>) -> Result<(Seq<u8>, MiniscriptInfoView), ErrorView> {
    match spec_cov_components(script) {
        Err(e) => Err(e),
        Ok((k, m)) => match segwitv0_text_decode(m.text) {
            Err(t) => Err(ErrorView::Miniscript(t)),
            Ok(i) => match spec_check_cov_limits(i.ops_sat, i.has_free_verify, i.script_size) {
                Err(e) => Err(e),
                Ok(()) => Ok((k, i)),
            },
        },
    }
}

/// A covenant read from its script as above, whose Miniscript must also
/// pass the sanity checks.
pub open spec fn spec_cov_parse(script: Seq<u8>) -> Result<(Seq<u8>, MiniscriptInfoView), ErrorView> {
    match spec_cov_parse_insane(script) {
        Err(e) => Err(e),
        Ok((k, i)) => match i.insane {
            Some(t) => Err(ErrorView::Miniscript(t)),
            None => Ok((k, i)),
        },
    }
}

/// The key and Miniscript of a covenant descriptor string.
pub open spec fn spec_cov_from_str(s: Seq<char>) -> Result<(Seq<u8>, MiniscriptInfoView), ErrorView> {
    match spec_verify_checksum(s) {
        Err(e) => Err(e),
        Ok(d) => spec_parse_cov(d),
    }
}

fn cov_prefix_chars() -> (r: Vec<char>)
    ensures
        r@ == cov_prefix(),
{
    let r = vec!['e', 'l', 'c', 'o', 'v', 'w', 's', 'h', '('];
    assert(r@ =~= cov_prefix());
    r
}

/// The index of the first comma in `s`, or its length.
fn find_comma(s: &[char]) -> (r: usize)
    ensures
        r == first_index(s@, ','),
{
    let mut i: usize = 0;
    assert(s@.subrange(0, s@.len() as int) =~= s@);
    while i < s.len()
        invariant
            0 <= i <= s@.len(),
            first_index(s@, ',') == i + first_index(s@.subrange(i as int, s@.len() as int), ','),
        decreases s@.len() - i,
    {
        if s[i] == ',' {
            return i;
        }
        assert(s@.subrange(i as int, s@.len() as int).subrange(1, s@.len() - i) =~= s@.subrange(
            i + 1,
            s@.len() as int,
        ));
        i = i + 1;
    }
    i
}

/// The smallest number of bytes a `VarInt` for `n` takes.
pub open spec fn varint_len(n: nat) -> nat {
    if n < 0xfd {
        1
    } else if n <= 0xffff {
        3
    } else if n <= 0xffff_ffff {
        5
    } else {
        9
    }
}

/// The largest weight a covenant spend adds: the witness script with its
/// length, and the largest satisfaction with the covenant items and their
/// count; `None` where the Miniscript cannot be satisfied.
pub open spec fn spec_cov_max_weight(m: MiniscriptInfoView) -> Option<nat> {
    match (m.max_sat_elems, m.max_sat_size) {
        (Some(elems), Some(size)) => {
            let script_size = (m.script_size + COV_SCRIPT_SIZE - free_verify_discount(m.has_free_verify)) as nat;
            let n_elems = (elems + 12) as nat;
            let sat_size = (size + 275) as nat;
            Some(4 + varint_len(script_size) + script_size + varint_len(n_elems) + sat_size)
        },
        _ => None,
    }
}

/// A covenant descriptor: a key that must sign the spending transaction's
/// sighash items, and a segwit v0 Miniscript, spent through p2wsh.
#[derive(Clone, Debug, PartialEq, Eq)]
pub struct CovenantDescriptor {
    pk: PublicKey,
    ms: MiniscriptInfo,
}

impl View for CovenantDescriptor {
    type V = (Seq<u8>, MiniscriptInfoView);

    closed spec fn view(&self) -> (Seq<u8>, MiniscriptInfoView) {
        (self.pk@, self.ms@)
    }
}

impl CovenantDescriptor {
    /// The Miniscript the covenant holds.
    pub closed spec fn spec_ms(&self) -> MiniscriptInfo {
        self.ms
    }

    /// Asks the predicate of the covenant key, then of each key the
    /// Miniscript names, stopping at the first it refuses; whether it
    /// accepted them all.
    pub fn for_each_key<F: Fn(&Vec<u8>) -> bool>(&self, pred: &F) -> (r: bool)
        requires
            forall|k: Vec<u8>| #[trigger] call_requires(*pred, (&k,)),
        ensures
            r ==> (exists|k: Vec<u8>| k@ == self@.0 && #[trigger] call_ensures(*pred, (&k,), true)),
            r ==> forall|i: int| 0 <= i < self.spec_ms().keys@.len() ==> call_ensures(*pred, (&self.spec_ms().keys@[i],), true),
            !r ==> (exists|k: Vec<u8>| k@ == self@.0 && #[trigger] call_ensures(*pred, (&k,), false))
                || exists|i: int| 0 <= i < self.spec_ms().keys@.len() && call_ensures(*pred, (&self.spec_ms().keys@[i],), false),
    {
        let k = self.pk.to_bytes();
        pred(&k) && for_each_key_in(&self.ms.keys, pred)
    }

    /// Whether the key is one that decodes; every descriptor built here
    /// holds one.
    pub open spec fn valid(&self) -> bool {
        full_key_valid(self@.0) && (self@.0.len() == 33 || self@.0.len() == 65)
    }

    /// The covenant script: the Miniscript, its closing verify and the
    /// covenant suffix.
    pub open spec fn spec_encode(&self) -> Seq<u8> {
        cov_script(self@.1.ms.script, self@.0)
    }

    /// A covenant of the key and the Miniscript, if they stay within the
    /// opcode and size limits.
    pub fn new(pk: PublicKey, ms: MiniscriptInfo) -> (r: Result<CovenantDescriptor, Error>)
        ensures
            spec_check_cov_limits(ms.ops_sat, ms.has_free_verify, ms.script_size) is Ok <==> r is Ok,
            r matches Ok(d) ==> d@ == (pk@, ms@),
            r matches Err(e) ==> spec_check_cov_limits(ms.ops_sat, ms.has_free_verify, ms.script_size)
                == Err::<(), ErrorView>(e@),
    {
        match check_cov_limits(ms.ops_sat, ms.has_free_verify, ms.script_size) {
            Err(e) => Err(e),
            Ok(()) => Ok(CovenantDescriptor { pk, ms }),
        }
    }

    pub fn pk(&self) -> (r: &PublicKey)
        ensures
            r@ == self@.0,
    {
        &self.pk
    }

    pub fn to_ms(&self) -> (r: &MiniscriptInfo)
        ensures
            r@ == self@.1,
    {
        &self.ms
    }

    pub fn into_ms(self) -> (r: MiniscriptInfo)
        ensures
            r@ == self@.1,
    {
        self.ms
    }

    pub fn encode(&self) -> (r: Vec<u8>)
        ensures
            r@ == self.spec_encode(),
    {
        let key = self.pk.as_bytes();
        encode_cov_script(self.ms.ms.script.as_slice(), key)
    }

    /// The witness script; the script code for signatures by keys inside the
    /// Miniscript.
    pub fn explicit_script(&self) -> (r: Vec<u8>)
        ensures
            r@ == self.spec_encode(),
    {
        self.encode()
    }

    pub fn script_code(&self) -> (r: Vec<u8>)
        ensures
            r@ == self.spec_encode(),
    {
        self.encode()
    }

    /// The script code for signatures by the covenant key: the part after
    /// the code separator.
    pub fn cov_script_code(&self) -> (r: Vec<u8>)
        ensures
            r@ == post_codesep_spec(),
    {
        post_codesep_script()
    }

    /// The output script: p2wsh of the covenant script.
    pub fn script_pubkey(&self) -> (r: Vec<u8>)
        ensures
            r@ == v0_wsh_script(sha256_of(self.spec_encode())),
    {
        let s = self.encode();
        let h = sha256(s.as_slice());
        new_v0_wsh(h.as_slice())
    }

    pub fn unsigned_script_sig(&self) -> (r: Vec<u8>)
        ensures
            r@.len() == 0,
    {
        Vec::new()
    }

    pub fn address(&self, params: AddressParams) -> (r: String)
        ensures
            r@ == p2wsh_address_of(self.spec_encode(), params),
    {
        let s = self.encode();
        p2wsh_address(s.as_slice(), params)
    }

    /// The Miniscript's own sanity checks, then the standardness limit on
    /// the size of the witness script.
    pub fn sanity_check(&self) -> (r: Result<(), Error>)
        ensures
            self@.1.insane matches Some(t) ==> unit_result_view(r) == Err::<(), ErrorView>(ErrorView::Miniscript(t)),
            self@.1.insane is None ==> (r is Ok <==> self@.1.script_size + COV_SCRIPT_SIZE
                - free_verify_discount(self@.1.has_free_verify) <= MAX_STANDARD_P2WSH_SCRIPT_SIZE),
            self@.1.insane is None && r is Err ==> unit_result_view(r) == Err::<(), ErrorView>(ErrorView::ScriptSizeTooLarge),
    {
        match &self.ms.insane {
            Some(t) => Err(Error::Miniscript(t.clone())),
            None => {
                let fv: usize = if self.ms.has_free_verify { 1 } else { 0 };
                if self.ms.script_size > MAX_STANDARD_P2WSH_SCRIPT_SIZE - COV_SCRIPT_SIZE + fv {
                    Err(Error::ScriptSizeTooLarge)
                } else {
                    Ok(())
                }
            },
        }
    }

    /// The witness that satisfies the covenant before its witness script,
    /// from the sighash items and signature the caller found and the
    /// satisfaction of the Miniscript, if one was found.
    pub fn satisfy(&self, items: &CovSighashItems, ms_witness: Option<Vec<Vec<u8>>>) -> (r: Result<Vec<Vec<u8>>, Error>)
        ensures
            witness_result_view(r) == spec_cov_satisfy(*items, match ms_witness {
                Some(w) => Some(witness_view(w@)),
                None => None,
            }),
    {
        let n_version = match items.n_version {
            None => return Err(Error::MissingSighashItem(1)),
            Some(v) => v,
        };
        if items.hash_prevouts.is_none() {
            return Err(Error::MissingSighashItem(2));
        }
        if items.hash_sequence.is_none() {
            return Err(Error::MissingSighashItem(3));
        }
        if items.hash_issuances.is_none() {
            return Err(Error::MissingSighashItem(4));
        }
        if items.outpoint.is_none() {
            return Err(Error::MissingSighashItem(5));
        }
        if items.script_code.is_none() {
            return Err(Error::MissingSighashItem(6));
        }
        if items.value.is_none() {
            return Err(Error::MissingSighashItem(7));
        }
        let n_sequence = match items.n_sequence {
            None => return Err(Error::MissingSighashItem(8)),
            Some(v) => v,
        };
        let hash_outputs = match &items.outputs {
            None => return Err(Error::MissingSighashItem(9)),
            Some(o) => hash256(o.as_slice()),
        };
        let n_locktime = match items.n_locktime {
            None => return Err(Error::MissingSighashItem(10)),
            Some(v) => v,
        };
        let sighash_ty = match items.sighash_type {
            None => return Err(Error::MissingSighashItem(11)),
            Some(v) => v,
        };
        let (sig, hash_ty) = match &items.signature {
            None => return Err(Error::MissingCovSignature),
            Some((s, t)) => (to_vec(s.as_slice()), *t),
        };
        if sighash_ty != hash_ty {
            return Err(Error::CovenantSighashTypeMismatch);
        }
        let ms_wit = match ms_witness {
            None => return Err(Error::ImpossibleSatisfaction),
            Some(w) => w,
        };
        let mut wit: Vec<Vec<u8>> = Vec::new();
        wit.push(sig);
        wit.push(u32_le_bytes(n_version));
        wit.push(clone_bytes(&items.hash_prevouts));
        wit.push(clone_bytes(&items.hash_sequence));
        wit.push(clone_bytes(&items.hash_issuances));
        wit.push(clone_bytes(&items.outpoint));
        wit.push(clone_bytes(&items.script_code));
        wit.push(clone_bytes(&items.value));
        wit.push(u32_le_bytes(n_sequence));
        wit.push(hash_outputs);
        wit.push(u32_le_bytes(n_locktime));
        wit.push(u32_le_bytes(sighash_ty));
        assert(witness_view(wit@) =~= cov_witness_items(*items));
        let ghost head = wit@;
        let mut i: usize = 0;
        while i < ms_wit.len()
            invariant
                0 <= i <= ms_wit@.len(),
                wit@.len() == head.len() + i,
                witness_view(wit@) =~= witness_view(head) + witness_view(ms_wit@).subrange(0, i as int),
            decreases ms_wit@.len() - i,
        {
            let item = to_vec(ms_wit[i].as_slice());
            let ghost prev = wit@;
            wit.push(item);
            proof {
                assert(wit@ == prev.push(item));
                let target = witness_view(head) + witness_view(ms_wit@).subrange(0, i + 1);
                assert forall|j: int| 0 <= j < wit@.len() implies witness_view(wit@)[j] == target[j] by {
                    if j < prev.len() {
                        assert(wit@[j] == prev[j]);
                        assert(witness_view(prev)[j] == prev[j]@);
                    } else {
                        assert(j == head.len() + i);
                        assert(witness_view(ms_wit@).subrange(0, i + 1)[i as int] == ms_wit@[i as int]@);
                    }
                }
            }
            i = i + 1;
            assert(witness_view(wit@) =~= witness_view(head) + witness_view(ms_wit@).subrange(0, i as int));
        }
        assert(witness_view(ms_wit@).subrange(0, i as int) =~= witness_view(ms_wit@));
        Ok(wit)
    }

    /// The witness and unlocking script that spend the covenant output: the
    /// satisfaction followed by the witness script, and an empty unlocking
    /// script.
    pub fn get_satisfaction(&self, items: &CovSighashItems, ms_witness: Option<Vec<Vec<u8>>>) -> (r: Result<(Vec<Vec<u8>>, Vec<u8>), Error>)
        ensures
            r matches Ok((w, ss)) ==> ss@.len() == 0 && spec_cov_satisfy(*items, match ms_witness {
                Some(x) => Some(witness_view(x@)),
                None => None,
            }) == Ok::<Seq<Seq<u8>>, ErrorView>(witness_view(w@).drop_last()) && w@.last()@ == self.spec_encode()
                && w@.len() > 0,
            r matches Err(e) ==> spec_cov_satisfy(*items, match ms_witness {
                Some(x) => Some(witness_view(x@)),
                None => None,
            }) == Err::<Seq<Seq<u8>>, ErrorView>(e@),
    {
        match self.satisfy(items, ms_witness) {
            Err(e) => Err(e),
            Ok(w) => {
                let mut w = w;
                let ghost before = w@;
                w.push(self.encode());
                assert(witness_view(w@).drop_last() =~= witness_view(before));
                Ok((w, Vec::new()))
            },
        }
    }

    /// An upper bound on the weight the spend adds; `None` where the
    /// Miniscript cannot be satisfied or the figure does not fit in a `usize`.
    pub fn max_satisfaction_weight(&self) -> (r: Option<usize>)
        ensures
            r matches Some(w) ==> spec_cov_max_weight(self@.1) == Some(w as nat),
            r is None ==> (spec_cov_max_weight(self@.1) matches Some(w) ==> w > usize::MAX),
    {
        let fv: usize = if self.ms.has_free_verify { 1 } else { 0 };
        let elems = match self.ms.max_sat_elems {
            None => return None,
            Some(e) => e,
        };
        let size = match self.ms.max_sat_size {
            None => return None,
            Some(s) => s,
        };
        let script_size: u128 = self.ms.script_size as u128 + COV_SCRIPT_SIZE as u128 - fv as u128;
        let n_elems: u128 = elems as u128 + 12;
        let sat_size: u128 = size as u128 + 275;
        let a: u128 = if script_size < 0xfd {
            1
        } else if script_size <= 0xffff {
            3
        } else if script_size <= 0xffff_ffff {
            5
        } else {
            9
        };
        let b: u128 = if n_elems < 0xfd {
            1
        } else if n_elems <= 0xffff {
            3
        } else if n_elems <= 0xffff_ffff {
            5
        } else {
            9
        };
        let total: u128 = 4 + a + script_size + b + sat_size;
        if total > usize::MAX as u128 {
            None
        } else {
            Some(total as usize)
        }
    }

    fn text(&self) -> (r: Vec<char>)
        ensures
            r@ == cov_text(self@.0, self@.1.ms.text),
    {
        let mut out = cov_prefix_chars();
        let k = self.pk.to_chars();
        push_chars(&mut out, k.as_slice());
        out.push(',');
        let m = chars_of(self.ms.ms.text.as_str());
        push_chars(&mut out, m.as_slice());
        out.push(')');
        assert(out@ =~= cov_text(self@.0, self@.1.ms.text));
        out
    }

    /// The descriptor string `elcovwsh(<key>,<miniscript>)#<checksum>`, or
    /// `None` where the Miniscript text has a character the checksum cannot
    /// take.
    pub fn to_string(&self) -> (r: Option<String>)
        ensures
            r matches Some(t) ==> t@ == with_checksum(cov_text(self@.0, self@.1.ms.text)),
            r is None <==> spec_desc_checksum(cov_text(self@.0, self@.1.ms.text)) is None,
    {
        match add_checksum(self.text()) {
            Ok(v) => Some(string_of(v.as_slice())),
            Err(_) => None,
        }
    }

    /// Reads a covenant from its script: the script must be a covenant
    /// script, whose Miniscript text, read again, stays within the limits.
    /// Insane Miniscripts are accepted.
    pub fn parse_insane(script: &[u8]) -> (r: Result<CovenantDescriptor, Error>)
        ensures
            r matches Ok(d) ==> spec_cov_parse_insane(script@) == Ok::<(Seq<u8>, MiniscriptInfoView), ErrorView>(d@),
            r matches Err(e) ==> spec_cov_parse_insane(script@) == Err::<(Seq<u8>, MiniscriptInfoView), ErrorView>(e@),
    {
        let (key, ms) = match parse_cov_components(script) {
            Err(e) => return Err(e),
            Ok(c) => c,
        };
        let pk = match PublicKey::from_slice(key.as_slice()) {
            None => return Err(Error::BadKey),
            Some(pk) => pk,
        };
        let info = match parse_segwitv0_text(ms.text.as_str()) {
            Err(t) => return Err(Error::Miniscript(t)),
            Ok(info) => info,
        };
        CovenantDescriptor::new(pk, info)
    }

    /// Reads a covenant from its script as `parse_insane` does, and refuses
    /// one whose Miniscript fails the sanity checks.
    pub fn parse(script: &[u8]) -> (r: Result<CovenantDescriptor, Error>)
        ensures
            r matches Ok(d) ==> spec_cov_parse(script@) == Ok::<(Seq<u8>, MiniscriptInfoView), ErrorView>(d@),
            r matches Err(e) ==> spec_cov_parse(script@) == Err::<(Seq<u8>, MiniscriptInfoView), ErrorView>(e@),
    {
        let cov = CovenantDescriptor::parse_insane(script)?;
        match &cov.ms.insane {
            Some(t) => Err(Error::Miniscript(t.clone())),
            None => Ok(cov),
        }
    }

    /// Reads a descriptor string `covwsh(<key>,<miniscript>)#<checksum>`,
    /// with or without the `el` namespace; the covenant must stay within the
    /// opcode and size limits.
    pub fn from_str(s: &str) -> (r: Result<CovenantDescriptor, Error>)
        ensures
            r matches Ok(d) ==> spec_cov_from_str(s@) == Ok::<(Seq<u8>, MiniscriptInfoView), ErrorView>(d@) && d.valid()
                && spec_check_cov_limits(d@.1.ops_sat, d@.1.has_free_verify, d@.1.script_size) is Ok,
            r matches Err(e) ==> spec_cov_from_str(s@) == Err::<(Seq<u8>, MiniscriptInfoView), ErrorView>(e@),
    {
        let chars = chars_of(s);
        let d = match verify_checksum(chars.as_slice()) {
            Err(e) => return Err(e),
            Ok(d) => d,
        };
        let (name, n) = top_node(d.as_slice());
        let bare = strip_namespace_exec(name.as_slice());
        let w = chars_of("covwsh");
        let len = d.len();
        proof {
            lemma_first_index_bound(d@, '(');
            assert(bare@.subrange(0, bare@.len() as int) =~= bare@);
        }
        if chars_eq(bare.as_slice(), 0, bare.len(), w.as_slice()) && n == 2 && d[len - 1] == ')' {
            assert(first_index(d@, '(') < d@.len());
            let body = chars_slice(d.as_slice(), name.len() + 1, len - 1);
            let i = find_comma(body.as_slice());
            if i >= body.len() {
                return Err(unexpected(name.as_slice(), n, "elcovwsh"));
            }
            let k = chars_slice(body.as_slice(), 0, i);
            let pk = match PublicKey::from_chars(k.as_slice()) {
                None => return Err(Error::BadKey),
                Some(pk) => pk,
            };
            let m = chars_slice(body.as_slice(), i + 1, body.len());
            let mtext = string_of(m.as_slice());
            match parse_segwitv0_text(mtext.as_str()) {
                Err(t) => Err(Error::Miniscript(t)),
                Ok(ms) => CovenantDescriptor::new(pk, ms),
            }
        } else {
            Err(unexpected(name.as_slice(), n, "elcovwsh"))
        }
    }
}

} // verus!
