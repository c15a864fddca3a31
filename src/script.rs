//! Byte-level shapes of output scripts: the standard templates, how they are
//! recognised and how they are built.

use vstd::prelude::*;
use crate::bytes::append_bytes;
use crate::primitives::{push_int_script, script_int};

verus! {

pub const OP_0: u8 = 0x00;
pub const OP_PUSHBYTES_20: u8 = 0x14;
pub const OP_PUSHBYTES_32: u8 = 0x20;
pub const OP_PUSHBYTES_33: u8 = 0x21;
pub const OP_PUSHBYTES_65: u8 = 0x41;
pub const OP_PUSHDATA1: u8 = 0x4c;
pub const OP_PUSHDATA2: u8 = 0x4d;
pub const OP_PUSHDATA4: u8 = 0x4e;
pub const OP_PUSHNUM_1: u8 = 0x51;
pub const OP_PUSHNUM_11: u8 = 0x5b;
pub const OP_VERIFY: u8 = 0x69;
pub const OP_TOALTSTACK: u8 = 0x6b;
pub const OP_FROMALTSTACK: u8 = 0x6c;
pub const OP_OVER: u8 = 0x78;
pub const OP_PICK: u8 = 0x79;
pub const OP_DUP: u8 = 0x76;
pub const OP_CAT: u8 = 0x7e;
pub const OP_LEFT: u8 = 0x80;
pub const OP_EQUAL: u8 = 0x87;
pub const OP_EQUALVERIFY: u8 = 0x88;
pub const OP_NUMEQUAL: u8 = 0x9c;
pub const OP_NUMEQUALVERIFY: u8 = 0x9d;
pub const OP_SHA256: u8 = 0xa8;
pub const OP_HASH160: u8 = 0xa9;
pub const OP_CODESEPARATOR: u8 = 0xab;
pub const OP_CHECKSIG: u8 = 0xac;
pub const OP_CHECKSIGVERIFY: u8 = 0xad;
pub const OP_CHECKMULTISIG: u8 = 0xae;
pub const OP_CHECKMULTISIGVERIFY: u8 = 0xaf;
pub const OP_CHECKSIGFROMSTACK: u8 = 0xc1;
pub const OP_CHECKSIGFROMSTACKVERIFY: u8 = 0xc2;

/// Pay-to-pubkey: a push of a 65- or 33-byte key followed by `OP_CHECKSIG`.
pub open spec fn spec_is_p2pk(s: Seq<u8>) -> bool {
    (s.len() == 67 && s[0] == OP_PUSHBYTES_65 && s[66] == OP_CHECKSIG) || (s.len() == 35
        && s[0] == OP_PUSHBYTES_33 && s[34] == OP_CHECKSIG)
}

/// Pay-to-pubkey-hash: `DUP HASH160 <20 bytes> EQUALVERIFY CHECKSIG`.
pub open spec fn spec_is_p2pkh(s: Seq<u8>) -> bool {
    s.len() == 25 && s[0] == OP_DUP && s[1] == OP_HASH160 && s[2] == OP_PUSHBYTES_20 && s[23]
        == OP_EQUALVERIFY && s[24] == OP_CHECKSIG
}

/// Pay-to-script-hash: `HASH160 <20 bytes> EQUAL`.
pub open spec fn spec_is_p2sh(s: Seq<u8>) -> bool {
    s.len() == 23 && s[0] == OP_HASH160 && s[1] == OP_PUSHBYTES_20 && s[22] == OP_EQUAL
}

/// Segwit v0 key-hash program: `0 <20 bytes>`.
pub open spec fn spec_is_v0_p2wpkh(s: Seq<u8>) -> bool {
    s.len() == 22 && s[0] == OP_0 && s[1] == OP_PUSHBYTES_20
}

/// Segwit v0 script-hash program: `0 <32 bytes>`.
pub open spec fn spec_is_v0_p2wsh(s: Seq<u8>) -> bool {
    s.len() == 34 && s[0] == OP_0 && s[1] == OP_PUSHBYTES_32
}

/// Taproot output: `1 <32 bytes>`.
pub open spec fn spec_is_v1_p2tr(s: Seq<u8>) -> bool {
    s.len() == 34 && s[0] == OP_PUSHNUM_1 && s[1] == OP_PUSHBYTES_32
}

pub fn is_p2pk(s: &[u8]) -> (r: bool)
    ensures
        r == spec_is_p2pk(s@),
{
    (s.len() == 67 && s[0] == OP_PUSHBYTES_65 && s[66] == OP_CHECKSIG) || (s.len() == 35 && s[0]
        == OP_PUSHBYTES_33 && s[34] == OP_CHECKSIG)
}

pub fn is_p2pkh(s: &[u8]) -> (r: bool)
    ensures
        r == spec_is_p2pkh(s@),
{
    s.len() == 25 && s[0] == OP_DUP && s[1] == OP_HASH160 && s[2] == OP_PUSHBYTES_20 && s[23]
        == OP_EQUALVERIFY && s[24] == OP_CHECKSIG
}

pub fn is_p2sh(s: &[u8]) -> (r: bool)
    ensures
        r == spec_is_p2sh(s@),
{
    s.len() == 23 && s[0] == OP_HASH160 && s[1] == OP_PUSHBYTES_20 && s[22] == OP_EQUAL
}

pub fn is_v0_p2wpkh(s: &[u8]) -> (r: bool)
    ensures
        r == spec_is_v0_p2wpkh(s@),
{
    s.len() == 22 && s[0] == OP_0 && s[1] == OP_PUSHBYTES_20
}

pub fn is_v0_p2wsh(s: &[u8]) -> (r: bool)
    ensures
        r == spec_is_v0_p2wsh(s@),
{
    s.len() == 34 && s[0] == OP_0 && s[1] == OP_PUSHBYTES_32
}

pub fn is_v1_p2tr(s: &[u8]) -> (r: bool)
    ensures
        r == spec_is_v1_p2tr(s@),
{
    s.len() == 34 && s[0] == OP_PUSHNUM_1 && s[1] == OP_PUSHBYTES_32
}

/// The instruction that pushes `d` onto the stack, with the shortest push
/// opcode for its length.
pub open spec fn push_encoding(d: Seq<u8>) -> Seq<u8> {
    let n = d.len();
    if n < 0x4c {
        seq![n as u8] + d
    } else if n < 0x100 {
        seq![OP_PUSHDATA1, n as u8] + d
    } else if n < 0x10000 {
        seq![OP_PUSHDATA2, (n % 0x100) as u8, (n / 0x100) as u8] + d
    } else {
        seq![
            OP_PUSHDATA4,
            (n % 0x100) as u8,
            ((n / 0x100) % 0x100) as u8,
            ((n / 0x10000) % 0x100) as u8,
            (n / 0x1000000) as u8,
        ] + d
    }
}

/// Appends the push of `d` to the script `v`.
pub fn push_slice(v: &mut Vec<u8>, d: &[u8])
    requires
        d@.len() < 0x1_0000_0000,
    ensures
        final(v)@ == old(v)@ + push_encoding(d@),
{
    let n = d.len();
    let ghost start = v@;
    if n < 0x4c {
        v.push(n as u8);
    } else if n < 0x100 {
        v.push(OP_PUSHDATA1);
        v.push(n as u8);
    } else if n < 0x10000 {
        v.push(OP_PUSHDATA2);
        v.push((n % 0x100) as u8);
        v.push((n / 0x100) as u8);
    } else {
        v.push(OP_PUSHDATA4);
        v.push((n % 0x100) as u8);
        v.push(((n / 0x100) % 0x100) as u8);
        v.push(((n / 0x10000) % 0x100) as u8);
        v.push((n / 0x1000000) as u8);
    }
    append_bytes(v, d);
    assert(v@ =~= start + push_encoding(d@));
}

/// `DUP HASH160 <h> EQUALVERIFY CHECKSIG`
pub open spec fn p2pkh_script(h: Seq<u8>) -> Seq<u8> {
    seq![OP_DUP, OP_HASH160, OP_PUSHBYTES_20] + h + seq![OP_EQUALVERIFY, OP_CHECKSIG]
}

/// `HASH160 <h> EQUAL`
pub open spec fn p2sh_script(h: Seq<u8>) -> Seq<u8> {
    seq![OP_HASH160, OP_PUSHBYTES_20] + h + seq![OP_EQUAL]
}

/// `0 <h>` with a 20-byte key hash.
pub open spec fn v0_wpkh_script(h: Seq<u8>) -> Seq<u8> {
    seq![OP_0, OP_PUSHBYTES_20] + h
}

/// `0 <h>` with a 32-byte script hash.
pub open spec fn v0_wsh_script(h: Seq<u8>) -> Seq<u8> {
    seq![OP_0, OP_PUSHBYTES_32] + h
}

/// `<key> CHECKSIG`
pub open spec fn p2pk_script(key: Seq<u8>) -> Seq<u8> {
    push_encoding(key) + seq![OP_CHECKSIG]
}

pub fn new_p2pkh(h: &[u8]) -> (r: Vec<u8>)
    requires
        h@.len() == 20,
    ensures
        r@ == p2pkh_script(h@),
{
    let mut v: Vec<u8> = Vec::new();
    v.push(OP_DUP);
    v.push(OP_HASH160);
    v.push(OP_PUSHBYTES_20);
    append_bytes(&mut v, h);
    v.push(OP_EQUALVERIFY);
    v.push(OP_CHECKSIG);
    assert(v@ =~= p2pkh_script(h@));
    v
}

pub fn new_p2sh(h: &[u8]) -> (r: Vec<u8>)
    requires
        h@.len() == 20,
    ensures
        r@ == p2sh_script(h@),
{
    let mut v: Vec<u8> = Vec::new();
    v.push(OP_HASH160);
    v.push(OP_PUSHBYTES_20);
    append_bytes(&mut v, h);
    v.push(OP_EQUAL);
    assert(v@ =~= p2sh_script(h@));
    v
}

pub fn new_v0_wpkh(h: &[u8]) -> (r: Vec<u8>)
    requires
        h@.len() == 20,
    ensures
        r@ == v0_wpkh_script(h@),
{
    let mut v: Vec<u8> = Vec::new();
    v.push(OP_0);
    v.push(OP_PUSHBYTES_20);
    append_bytes(&mut v, h);
    assert(v@ =~= v0_wpkh_script(h@));
    v
}

pub fn new_v0_wsh(h: &[u8]) -> (r: Vec<u8>)
    requires
        h@.len() == 32,
    ensures
        r@ == v0_wsh_script(h@),
{
    let mut v: Vec<u8> = Vec::new();
    v.push(OP_0);
    v.push(OP_PUSHBYTES_32);
    append_bytes(&mut v, h);
    assert(v@ =~= v0_wsh_script(h@));
    v
}

pub fn new_p2pk(key: &[u8]) -> (r: Vec<u8>)
    requires
        key@.len() < 0x1_0000_0000,
    ensures
        r@ == p2pk_script(key@),
{
    let mut v: Vec<u8> = Vec::new();
    push_slice(&mut v, key);
    v.push(OP_CHECKSIG);
    assert(v@ =~= p2pk_script(key@));
    v
}

/// The number the little-endian bytes stand for.
pub open spec fn le_magnitude(v: Seq<u8>) -> nat
    decreases v.len(),
{
    if v.len() == 0 {
        0
    } else {
        v[0] as nat + 256 * le_magnitude(v.subrange(1, v.len() as int))
    }
}

/// A script number of at most four bytes: little-endian magnitude with the
/// sign in the top bit of the last byte; longer strings are no number.
pub open spec fn read_scriptint(v: Seq<u8>) -> Option<int> {
    if v.len() == 0 {
        Some(0)
    } else if v.len() > 4 {
        None
    } else if v.last() >= 0x80 {
        Some(-(le_magnitude(v.drop_last().push((v.last() - 0x80) as u8)) as int))
    } else {
        Some(le_magnitude(v) as int)
    }
}

/// The shortest little-endian bytes of a magnitude.
pub open spec fn magnitude_bytes(a: nat) -> Seq<u8>
    decreases a,
{
    if a == 0 {
        Seq::empty()
    } else {
        seq![(a % 256) as u8] + magnitude_bytes(a / 256)
    }
}

/// The shortest script-number bytes of a non-zero integer.
pub open spec fn scriptint_bytes(n: int) -> Seq<u8> {
    let m = magnitude_bytes(if n < 0 { (-n) as nat } else { n as nat });
    let sign: u8 = if n < 0 { 0x80 } else { 0 };
    if m.last() >= 0x80 {
        m.push(sign)
    } else {
        m.drop_last().push((m.last() + sign) as u8)
    }
}

/// The instruction that pushes an integer: `OP_1NEGATE`, `OP_0` or `OP_1` to
/// `OP_16` where one exists, else a push of its script-number bytes.
pub open spec fn push_int_encoding(n: int) -> Seq<u8> {
    if n == -1 || (1 <= n && n <= 16) {
        seq![(n + 0x50) as u8]
    } else if n == 0 {
        seq![OP_0]
    } else {
        push_encoding(scriptint_bytes(n))
    }
}

/// The unlocking-script form of one witness item: an item that reads as a
/// script number is pushed as that number, any other as data.
pub open spec fn item_push(e: Seq<u8>) -> Seq<u8> {
    match read_scriptint(e) {
        Some(n) => push_int_encoding(n),
        None => push_encoding(e),
    }
}

/// The unlocking script that pushes the witness items in order.
pub open spec fn spec_witness_to_scriptsig(w: Seq<Seq<u8>>) -> Seq<u8>
    decreases w.len(),
{
    if w.len() == 0 {
        Seq::empty()
    } else {
        spec_witness_to_scriptsig(w.drop_last()) + item_push(w.last())
    }
}

pub open spec fn pow256(k: nat) -> nat
    decreases k,
{
    if k == 0 {
        1
    } else {
        256 * pow256((k - 1) as nat)
    }
}

proof fn lemma_pow256_values()
    ensures
        pow256(0) == 1,
        pow256(1) == 256,
        pow256(2) == 65536,
        pow256(3) == 16777216,
        pow256(4) == 0x1_0000_0000,
{
    reveal_with_fuel(pow256, 5);
}

proof fn lemma_le_magnitude_bound(v: Seq<u8>)
    ensures
        le_magnitude(v) < pow256(v.len()),
    decreases v.len(),
{
    if v.len() > 0 {
        let t = v.subrange(1, v.len() as int);
        lemma_le_magnitude_bound(t);
        assert(pow256(v.len()) == 256 * pow256(t.len()));
        let m = le_magnitude(t);
        let p = pow256(t.len());
        assert(v[0] as nat + 256 * m < 256 * p) by (nonlinear_arith)
            requires
                v[0] < 256,
                m < p,
        ;
    }
}

/// A script number stays within four bytes of magnitude.
pub proof fn lemma_read_scriptint_bound(v: Seq<u8>)
    requires
        read_scriptint(v) is Some,
    ensures
        -0x1_0000_0000 < read_scriptint(v)->0 < 0x1_0000_0000,
{
    lemma_pow256_values();
    if v.len() > 0 {
        let t = v.drop_last().push((v.last() - 0x80) as u8);
        lemma_le_magnitude_bound(v);
        lemma_le_magnitude_bound(t);
        if v.len() == 1 {
        } else if v.len() == 2 {
        } else if v.len() == 3 {
        } else {
        }
    }
}

/// The unlocking script that pushes the witness items in order, each that
/// reads as a script number pushed as that number.
pub fn witness_to_scriptsig(w: &[Vec<u8>]) -> (r: Vec<u8>)
    requires
        forall|i: int| 0 <= i < w@.len() ==> #[trigger] w@[i]@.len() < 0x1_0000_0000,
    ensures
        r@ == spec_witness_to_scriptsig(w@.map_values(|x: Vec<u8>| x@)),
{
    let ghost wv = w@.map_values(|x: Vec<u8>| x@);
    let mut out: Vec<u8> = Vec::new();
    let mut i: usize = 0;
    while i < w.len()
        invariant
            0 <= i <= w@.len(),
            wv == w@.map_values(|x: Vec<u8>| x@),
            forall|j: int| 0 <= j < w@.len() ==> #[trigger] w@[j]@.len() < 0x1_0000_0000,
            out@ == spec_witness_to_scriptsig(wv.subrange(0, i as int)),
        decreases w@.len() - i,
    {
        let item = w[i].as_slice();
        proof {
            assert(wv.subrange(0, i + 1).drop_last() =~= wv.subrange(0, i as int));
            assert(wv.subrange(0, i + 1).last() == item@);
            assert(item@.len() < 0x1_0000_0000);
        }
        match script_int(item) {
            Some(n) => {
                proof {
                    lemma_read_scriptint_bound(item@);
                }
                let p = push_int_script(n);
                append_bytes(&mut out, p.as_slice());
            },
            None => push_slice(&mut out, item),
        }
        i = i + 1;
    }
    assert(wv.subrange(0, i as int) =~= wv);
    out
}

} // verus!
