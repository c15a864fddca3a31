//! Properties that relate several functions of the library, stated over the
//! same specifications their contracts use, and proved.

use vstd::prelude::*;
use crate::checksum::spec_desc_checksum;
use crate::covenant::{cov_prefix, cov_text, spec_cov_from_str, free_verify_discount, spec_check_cov_limits, COV_SCRIPT_OPS, COV_SCRIPT_SIZE, MAX_OPS_PER_SCRIPT, MAX_SCRIPT_SIZE};
use crate::descriptor::{
    count_char, first_index, lemma_verify_with_checksum, pkh_prefix, pkh_text, spec_parse_pkh,
    spec_pkh_from_str, spec_verify_checksum, with_checksum, ErrorView as DescErrorView,
};
use crate::interpreter::{
    classify, classify_sh_legacy, script_sig_elements, spec_from_txdata, witness_elements, classify_sh_wpkh, classify_sh_wsh, is_nested_wpkh, is_nested_wsh,
    Classified, ErrorView, InnerView, KeyView, PubkeyType, TAPROOT_ANNEX_PREFIX,
};
use crate::key::key_text_valid;
use crate::descriptor::Pkh;
use crate::pretaproot::{spec_descriptor_kind, DescriptorKind};
use crate::node::{commas_at_depth_one, lemma_commas_shift, lemma_no_commas, lemma_node_parts, spec_top_arity, top_name};
use crate::descriptor::spec_single_arg;
use crate::segwitv0::spec_parse_wpkh;
use crate::node::strip_namespace;
use crate::bare::{bare_text, spec_bare_from_str};
use crate::segwitv0::{
    lemma_wpkh_text_in_alphabet, spec_wpkh_from_str, spec_wsh_from_str, wpkh_prefix, wpkh_text, wsh_prefix,
    wsh_text,
};
use crate::checksum::lemma_checksum_exists;
use crate::primitives::{bare_text_decode, full_key_valid, hash160_of, segwitv0_text_decode, xonly_key_valid, MiniscriptInfoView};
use crate::script::{p2pk_script, p2sh_script, push_encoding, v0_wpkh_script, OP_PUSHBYTES_32, OP_PUSHNUM_1};
use crate::stack::{element_of_instruction, ElementView};
use crate::primitives::InstructionView;
use crate::text::{hex_decode, hex_encode, lemma_hex_round_trip};

verus! {

/// Reading a pay-to-pubkey-hash descriptor string, writing it out again with
/// its checksum, and reading that gives the same key; the written checksum
/// validates.
pub proof fn lemma_pkh_round_trip(s: Seq<char>, key: Seq<u8>)
    requires
        spec_pkh_from_str(s) == Ok::<Seq<u8>, DescErrorView>(key),
    ensures
        spec_verify_checksum(with_checksum(pkh_text(key))) == Ok::<Seq<char>, DescErrorView>(pkh_text(key)),
        spec_pkh_from_str(with_checksum(pkh_text(key))) == Ok::<Seq<u8>, DescErrorView>(key),
{
    let d = spec_verify_checksum(s)->Ok_0;
    let k = spec_single_arg(d, "pkh"@)->Ok_0;
    assert(key_text_valid(k));
    crate::text::lemma_hex_len(k);
    lemma_pkh_text_reads(key);
}

/// Every pay-to-pubkey-hash descriptor, written out with its checksum,
/// reads back as itself, and the written checksum validates.
pub proof fn lemma_pkh_value_round_trip(p: Pkh)
    requires
        p.valid(),
    ensures
        spec_verify_checksum(with_checksum(pkh_text(p@))) == Ok::<Seq<char>, DescErrorView>(pkh_text(p@)),
        spec_pkh_from_str(with_checksum(pkh_text(p@))) == Ok::<Seq<u8>, DescErrorView>(p@),
{
    lemma_pkh_text_reads(p@);
}

proof fn lemma_pkh_text_reads(key: Seq<u8>)
    requires
        full_key_valid(key),
        key.len() == 33 || key.len() == 65,
    ensures
        spec_verify_checksum(with_checksum(pkh_text(key))) == Ok::<Seq<char>, DescErrorView>(pkh_text(key)),
        spec_pkh_from_str(with_checksum(pkh_text(key))) == Ok::<Seq<u8>, DescErrorView>(key),
{
    crate::descriptor::lemma_pkh_text_facts(key);
    lemma_verify_with_checksum(pkh_text(key));
    lemma_hex_round_trip(key);
    let h = hex_encode(key);
    let name = seq!['e', 'l', 'p', 'k', 'h'];
    let t = pkh_text(key);
    assert(t =~= name + seq!['('] + h + seq![')']);
    lemma_key_node(name, h, key);
    proof_strlit_pkh();
    assert(strip_namespace(name) =~= seq!['p', 'k', 'h']);
    assert(t.len() == name.len() + 1 + h.len() + 1);
    assert(spec_single_arg(t, "pkh"@) == Ok::<Seq<char>, DescErrorView>(h));
    assert(spec_parse_pkh(t) == Ok::<Seq<u8>, DescErrorView>(key));
}

/// `pkh(<key>)`, without the namespace.
pub open spec fn plain_pkh_text(key: Seq<u8>) -> Seq<char> {
    seq!['p', 'k', 'h', '('] + hex_encode(key) + seq![')']
}

/// The descriptor `pkh(<hex key>)` followed by its checksum, written without
/// the `el` namespace, is read as a pay-to-pubkey-hash descriptor of that
/// key, and the pre-taproot reader picks that descriptor for it.
pub proof fn lemma_plain_pkh_reads(key: Seq<u8>)
    requires
        full_key_valid(key),
        key.len() == 33 || key.len() == 65,
    ensures
        spec_verify_checksum(with_checksum(plain_pkh_text(key)))
            == Ok::<Seq<char>, DescErrorView>(plain_pkh_text(key)),
        spec_pkh_from_str(with_checksum(plain_pkh_text(key))) == Ok::<Seq<u8>, DescErrorView>(key),
        spec_descriptor_kind(top_name(plain_pkh_text(key)), spec_top_arity(plain_pkh_text(key)))
            == DescriptorKind::Pkh,
{
    let t = plain_pkh_text(key);
    let h = hex_encode(key);
    assert forall|i: int| 0 <= i < t.len() implies #[trigger] crate::checksum::input_pos(t[i]) is Some && t[i] != '#' by {
        if 4 <= i < 4 + h.len() {
            assert(t[i] == h[i - 4]);
            let j = i - 4;
            if j % 2 == 0 {
                crate::text::lemma_hex_digit(key[j / 2] / 16);
            } else {
                crate::text::lemma_hex_digit(key[j / 2] % 16);
            }
        }
    }
    crate::descriptor::lemma_count_none(t, '#');
    lemma_checksum_exists(t);
    lemma_verify_with_checksum(t);
    lemma_hex_round_trip(key);
    let name = seq!['p', 'k', 'h'];
    assert(t =~= name + seq!['('] + h + seq![')']);
    lemma_key_node(name, h, key);
    proof_strlit_pkh();
    assert(strip_namespace(name) =~= name);
    assert(t.len() == name.len() + 1 + h.len() + 1);
    assert(spec_single_arg(t, "pkh"@) == Ok::<Seq<char>, DescErrorView>(h));
    assert(spec_parse_pkh(t) == Ok::<Seq<u8>, DescErrorView>(key));
}

proof fn proof_strlit_pkh()
    ensures
        "pkh"@ == seq!['p', 'k', 'h'],
        "wpkh"@ == seq!['w', 'p', 'k', 'h'],
        "wsh"@ == seq!['w', 's', 'h'],
        "covwsh"@ == seq!['c', 'o', 'v', 'w', 's', 'h'],
{
    reveal_strlit("pkh");
    reveal_strlit("wpkh");
    reveal_strlit("wsh");
    reveal_strlit("covwsh");
}

/// The node `name(<hex of key>)`: its name, its one argument.
proof fn lemma_key_node(name: Seq<char>, h: Seq<char>, key: Seq<u8>)
    requires
        forall|k: int| 0 <= k < name.len() ==> name[k] != '(',
        h == hex_encode(key),
    ensures
        top_name(name + seq!['('] + h + seq![')']) == name,
        spec_top_arity(name + seq!['('] + h + seq![')']) == 1,
        (name + seq!['('] + h + seq![')']).last() == ')',
        (name + seq!['('] + h + seq![')']).subrange(name.len() as int + 1, name.len() + 1 + h.len() as int) == h,
{
    let d = name + seq!['('] + h + seq![')'];
    lemma_node_parts(name, h);
    crate::descriptor::lemma_hex_has_no(key, ',');
    crate::descriptor::lemma_count_zero(h, ',');
    lemma_no_commas(h + seq![')'], 0, 1);
}

/// Changing one character of the checksum tag of a descriptor string makes
/// reading it fail: with a checksum mismatch, or with a bad separator when
/// the new character is a `#`.
pub proof fn lemma_tag_mutation_rejected(desc: Seq<char>, j: int, c: char)
    requires
        spec_desc_checksum(desc) is Some,
        count_char(desc, '#') == 0,
        desc.len() < j < with_checksum(desc).len(),
        with_checksum(desc)[j] != c,
    ensures
        spec_verify_checksum(with_checksum(desc).update(j, c)) is Err,
        c != '#' ==> spec_verify_checksum(with_checksum(desc).update(j, c))
            == Err::<Seq<char>, DescErrorView>(DescErrorView::ChecksumMismatch),
{
    let s = with_checksum(desc);
    let m = s.update(j, c);
    let tag = spec_desc_checksum(desc)->0;
    lemma_verify_with_checksum(desc);
    crate::descriptor::lemma_tag_has_no_hash(desc);
    let n = desc.len() as int;
    let mtag = m.subrange(n + 1, m.len() as int);
    assert(m.subrange(0, n + 1) =~= s.subrange(0, n + 1));
    assert(m =~= s.subrange(0, n + 1) + mtag);
    assert(s =~= s.subrange(0, n + 1) + tag);
    crate::descriptor::lemma_count_append(s.subrange(0, n + 1), mtag, '#');
    crate::descriptor::lemma_count_append(s.subrange(0, n + 1), tag, '#');
    if c == '#' {
        crate::descriptor::lemma_count_positive(mtag, '#', j - n - 1);
        assert(count_char(m, '#') >= 2);
    } else {
        crate::descriptor::lemma_count_update(tag, j - n - 1, c, '#');
        assert(mtag =~= tag.update(j - n - 1, c));
        assert(count_char(m, '#') == 1);
        assert(s.subrange(0, n) =~= desc);
        crate::descriptor::lemma_first_index_prefix(m, s, n);
        assert(m.subrange(0, n) =~= desc);
        assert(mtag != tag) by {
            assert(mtag[j - n - 1] != tag[j - n - 1]);
        }
    }
}

/// A covenant whose script stays within the size limit is accepted exactly
/// when its opcode count, the Miniscript's plus the covenant's 24 less a
/// free verify, is at most 201.
pub proof fn lemma_cov_op_boundary(ops: usize, has_free_verify: bool, script_size: usize)
    requires
        script_size + COV_SCRIPT_SIZE - free_verify_discount(has_free_verify) <= MAX_SCRIPT_SIZE,
    ensures
        spec_check_cov_limits(Some(ops), has_free_verify, script_size) is Ok
            <==> ops + COV_SCRIPT_OPS - free_verify_discount(has_free_verify) <= MAX_OPS_PER_SCRIPT,
        ops + COV_SCRIPT_OPS - free_verify_discount(has_free_verify) > MAX_OPS_PER_SCRIPT ==>
            spec_check_cov_limits(Some(ops), has_free_verify, script_size)
            == Err::<(), DescErrorView>(DescErrorView::ImpossibleSatisfaction),
{
}

/// A pay-to-pubkey output spent with empty unlocking data classifies as that
/// key, compressed or not, with an empty stack and the output script as the
/// script code.
pub proof fn lemma_p2pk_classification(key: Seq<u8>)
    requires
        full_key_valid(key),
        key.len() == 33 || key.len() == 65,
    ensures
        classify(p2pk_script(key), Seq::empty(), Seq::empty()) == Ok::<Classified, ErrorView>(
            (InnerView::PublicKey(KeyView::Fullkey(key), PubkeyType::Pk), Seq::empty(), Some(p2pk_script(key))),
        ),
{
    let spk = p2pk_script(key);
    assert(push_encoding(key) =~= seq![key.len() as u8] + key);
    assert(spk.subrange(1, spk.len() - 1) =~= key);
}

/// With an empty unlocking script and no witness, classifying a pay-to-pubkey
/// output from its transaction data gives that key.
pub proof fn lemma_p2pk_from_txdata(key: Seq<u8>)
    requires
        full_key_valid(key),
        key.len() == 33 || key.len() == 65,
    ensures
        spec_from_txdata(p2pk_script(key), Seq::empty(), Seq::empty()) == Ok::<Classified, ErrorView>(
            (InnerView::PublicKey(KeyView::Fullkey(key), PubkeyType::Pk), Seq::empty(), Some(p2pk_script(key))),
        ),
{
    lemma_p2pk_classification(key);
    assert(script_sig_elements(Seq::empty()) == Some(Seq::<ElementView>::empty())) by {
        assert(Seq::<InstructionView>::empty().map_values(|i: InstructionView| element_of_instruction(i)->0)
            =~= Seq::<ElementView>::empty());
    }
    assert(witness_elements(Seq::<Seq<u8>>::empty()) =~= Seq::<ElementView>::empty());
}

/// A segwit v0 key-hash output whose witness ends in an uncompressed key
/// fails with the uncompressed-key error, whatever hash it commits to.
pub proof fn lemma_wpkh_rejects_uncompressed(h: Seq<u8>, ws: Seq<ElementView>, key: Seq<u8>)
    requires
        h.len() == 20,
        full_key_valid(key),
        key.len() == 65,
        ws.len() > 0,
        ws.last() == ElementView::Push(key),
    ensures
        classify(v0_wpkh_script(h), Seq::empty(), ws) == Err::<Classified, ErrorView>(ErrorView::UncompressedPubkey),
{
}

/// A taproot spend whose witness has two or more items, the top one an
/// annex, fails with the annex error, whatever the other items hold.
pub proof fn lemma_taproot_annex_rejected(output_key: Seq<u8>, ws: Seq<ElementView>)
    requires
        output_key.len() == 32,
        xonly_key_valid(output_key),
        ws.len() >= 2,
        ws.last() is Push,
        ws.last()->Push_0.len() > 0,
        ws.last()->Push_0[0] == TAPROOT_ANNEX_PREFIX,
    ensures
        classify(seq![OP_PUSHNUM_1, OP_PUSHBYTES_32] + output_key, Seq::empty(), ws)
            == Err::<Classified, ErrorView>(ErrorView::TapAnnexUnsupported),
{
    let spk = seq![OP_PUSHNUM_1, OP_PUSHBYTES_32] + output_key;
    assert(spk.subrange(2, spk.len() as int) =~= output_key);
}

/// A p2sh spend whose redeem script is `0 <20 bytes>` goes to the nested
/// key-hash path, and one whose redeem script is `0 <32 bytes>` to the
/// nested script-hash path; neither is read as a legacy script.
pub proof fn lemma_p2sh_nested_dispatch(slice: Seq<u8>, ss: Seq<ElementView>, ws: Seq<ElementView>)
    requires
        hash160_of(slice).len() == 20,
        ss.len() > 0,
        ss.last() == ElementView::Push(slice),
    ensures
        is_nested_wpkh(slice) ==> classify(p2sh_script(hash160_of(slice)), ss, ws)
            == classify_sh_wpkh(slice, ss.drop_last(), ws),
        is_nested_wsh(slice) ==> classify(p2sh_script(hash160_of(slice)), ss, ws)
            == classify_sh_wsh(slice, ss.drop_last(), ws),
        !is_nested_wpkh(slice) && !is_nested_wsh(slice) ==> classify(p2sh_script(hash160_of(slice)), ss, ws)
            == classify_sh_legacy(p2sh_script(hash160_of(slice)), ss.last(), ss.drop_last(), ws),
{
}

proof fn lemma_cov_key_valid(s: Seq<char>, key: Seq<u8>, m: MiniscriptInfoView)
    requires
        spec_cov_from_str(s) == Ok::<(Seq<u8>, MiniscriptInfoView), DescErrorView>((key, m)),
    ensures
        full_key_valid(key),
        key.len() == 33 || key.len() == 65,
        spec_check_cov_limits(m.ops_sat, m.has_free_verify, m.script_size) is Ok,
{
    let d = spec_verify_checksum(s)->Ok_0;
    let name = top_name(d);
    let body0 = d.subrange(name.len() as int + 1, d.len() - 1);
    let i0 = first_index(body0, ',');
    let k = body0.subrange(0, i0);
    assert(key_text_valid(k));
    assert(key == hex_decode(k));
    crate::text::lemma_hex_len(k);
}

/// Reading a covenant descriptor string and writing it out again with its
/// checksum gives a string that reads back as the same covenant, where the
/// Miniscript's written form reads back as the same Miniscript, holds no `#`
/// and no character outside the checksum alphabet, and keeps its commas
/// inside parentheses.
pub proof fn lemma_cov_round_trip(s: Seq<char>, key: Seq<u8>, m: MiniscriptInfoView)
    requires
        spec_cov_from_str(s) == Ok::<(Seq<u8>, MiniscriptInfoView), DescErrorView>((key, m)),
        segwitv0_text_decode(m.ms.text) == Ok::<MiniscriptInfoView, Seq<char>>(m),
        spec_desc_checksum(cov_text(key, m.ms.text)) is Some,
        count_char(m.ms.text, '#') == 0,
        commas_at_depth_one(m.ms.text + seq![')'], 0, 1) == 0,
    ensures
        spec_verify_checksum(with_checksum(cov_text(key, m.ms.text)))
            == Ok::<Seq<char>, DescErrorView>(cov_text(key, m.ms.text)),
        spec_cov_from_str(with_checksum(cov_text(key, m.ms.text)))
            == Ok::<(Seq<u8>, MiniscriptInfoView), DescErrorView>((key, m)),
{
    lemma_cov_key_valid(s, key, m);
    let t = cov_text(key, m.ms.text);
    let h = hex_encode(key);
    let name = seq!['e', 'l', 'c', 'o', 'v', 'w', 's', 'h'];
    let arg = h + seq![','] + m.ms.text;
    assert(t =~= name + seq!['('] + arg + seq![')']);
    crate::descriptor::lemma_hex_has_no(key, '#');
    crate::descriptor::lemma_hex_has_no(key, ',');
    crate::descriptor::lemma_count_append(h, seq![','], '#');
    crate::descriptor::lemma_count_append(h + seq![','], m.ms.text, '#');
    crate::descriptor::lemma_count_none(seq![','], '#');
    crate::descriptor::lemma_count_append(name + seq!['('], arg, '#');
    crate::descriptor::lemma_count_append(name + seq!['('] + arg, seq![')'], '#');
    crate::descriptor::lemma_count_none(name + seq!['('], '#');
    crate::descriptor::lemma_count_none(seq![')'], '#');
    lemma_verify_with_checksum(t);
    lemma_node_parts(name, arg);
    crate::descriptor::lemma_count_zero(h, ',');
    assert(arg + seq![')'] =~= h + (seq![','] + m.ms.text + seq![')']));
    lemma_commas_prefix(h, seq![','] + m.ms.text + seq![')']);
    assert((seq![','] + m.ms.text + seq![')'])[0] == ',');
    lemma_commas_shift(seq![','] + m.ms.text + seq![')'], m.ms.text + seq![')'], 1, 0, 1);
    let body = t.subrange(name.len() as int + 1, t.len() - 1);
    assert(body =~= arg);
    assert(body.subrange(0, h.len() as int) =~= h);
    crate::descriptor::lemma_count_first(body, ',', h.len() as int);
    assert(body.subrange(h.len() as int + 1, body.len() as int) =~= m.ms.text);
    lemma_hex_round_trip(key);
    assert(key_text_valid(hex_encode(key)));
    proof_strlit_pkh();
    assert(strip_namespace(name) =~= seq!['c', 'o', 'v', 'w', 's', 'h']);
    assert(spec_top_arity(t) == 2);
    assert(t.len() == name.len() + 1 + arg.len() + 1);
}

/// A prefix without commas or parentheses leaves the count at depth one to
/// what follows it.
proof fn lemma_commas_prefix(h: Seq<char>, rest: Seq<char>)
    requires
        forall|k: int| 0 <= k < h.len() ==> h[k] != ',' && h[k] != '(' && h[k] != ')',
    ensures
        commas_at_depth_one(h + rest, 0, 1) == commas_at_depth_one(rest, 0, 1),
    decreases h.len(),
{
    if h.len() > 0 {
        let t = h.subrange(1, h.len() as int);
        lemma_commas_prefix(t, rest);
        lemma_commas_shift(h + rest, t + rest, 1, 0, 1);
    } else {
        assert(h + rest =~= rest);
    }
}

/// Reading a bare descriptor string and writing it out again with its
/// checksum gives a string that reads back as the same Miniscript, where the
/// Miniscript's written form reads back as itself and holds no `#` and no
/// character outside the checksum alphabet.
pub proof fn lemma_bare_round_trip(s: Seq<char>, m: MiniscriptInfoView)
    requires
        spec_bare_from_str(s) == Ok::<MiniscriptInfoView, DescErrorView>(m),
        bare_text_decode(m.ms.text) == Ok::<MiniscriptInfoView, Seq<char>>(m),
        spec_desc_checksum(bare_text(m.ms.text)) is Some,
        count_char(m.ms.text, '#') == 0,
    ensures
        spec_verify_checksum(with_checksum(bare_text(m.ms.text)))
            == Ok::<Seq<char>, DescErrorView>(bare_text(m.ms.text)),
        spec_bare_from_str(with_checksum(bare_text(m.ms.text))) == Ok::<MiniscriptInfoView, DescErrorView>(m),
{
    let t = bare_text(m.ms.text);
    crate::descriptor::lemma_count_append(seq!['e', 'l'], m.ms.text, '#');
    crate::descriptor::lemma_count_none(seq!['e', 'l'], '#');
    lemma_verify_with_checksum(t);
    assert(t.subrange(2, t.len() as int) =~= m.ms.text);
}

/// Reading a segwit key-hash descriptor string, writing it out again with its
/// checksum, and reading that gives the same key.
pub proof fn lemma_wpkh_round_trip(s: Seq<char>, key: Seq<u8>)
    requires
        spec_wpkh_from_str(s) == Ok::<Seq<u8>, DescErrorView>(key),
    ensures
        spec_wpkh_from_str(with_checksum(wpkh_text(key))) == Ok::<Seq<u8>, DescErrorView>(key),
{
    let d = spec_verify_checksum(s)->Ok_0;
    let k = spec_single_arg(d, "wpkh"@)->Ok_0;
    assert(key_text_valid(k));
    crate::text::lemma_hex_len(k);
    lemma_wpkh_text_in_alphabet(key);
    lemma_checksum_exists(wpkh_text(key));
    lemma_verify_with_checksum(wpkh_text(key));
    lemma_hex_round_trip(key);
    let h = hex_encode(key);
    let name = seq!['e', 'l', 'w', 'p', 'k', 'h'];
    let t = wpkh_text(key);
    assert(t =~= name + seq!['('] + h + seq![')']);
    lemma_key_node(name, h, key);
    proof_strlit_pkh();
    assert(strip_namespace(name) =~= seq!['w', 'p', 'k', 'h']);
    assert(t.len() == name.len() + 1 + h.len() + 1);
    assert(spec_single_arg(t, "wpkh"@) == Ok::<Seq<char>, DescErrorView>(h));
    assert(spec_parse_wpkh(t) == Ok::<Seq<u8>, DescErrorView>(key));
}

/// Reading a segwit script-hash descriptor string and writing it out again
/// with its checksum gives a string that reads back as the same Miniscript,
/// where the Miniscript's written form reads back as itself, holds no `#`
/// and no character outside the checksum alphabet, and keeps its commas
/// inside parentheses.
pub proof fn lemma_wsh_round_trip(s: Seq<char>, m: MiniscriptInfoView)
    requires
        spec_wsh_from_str(s) == Ok::<MiniscriptInfoView, DescErrorView>(m),
        segwitv0_text_decode(m.ms.text) == Ok::<MiniscriptInfoView, Seq<char>>(m),
        spec_desc_checksum(wsh_text(m.ms.text)) is Some,
        count_char(m.ms.text, '#') == 0,
        commas_at_depth_one(m.ms.text + seq![')'], 0, 1) == 0,
    ensures
        spec_wsh_from_str(with_checksum(wsh_text(m.ms.text))) == Ok::<MiniscriptInfoView, DescErrorView>(m),
{
    let t = wsh_text(m.ms.text);
    let name = seq!['e', 'l', 'w', 's', 'h'];
    assert(t =~= name + seq!['('] + m.ms.text + seq![')']);
    crate::descriptor::lemma_count_append(name + seq!['('], m.ms.text, '#');
    crate::descriptor::lemma_count_append(name + seq!['('] + m.ms.text, seq![')'], '#');
    crate::descriptor::lemma_count_none(name + seq!['('], '#');
    crate::descriptor::lemma_count_none(seq![')'], '#');
    lemma_verify_with_checksum(t);
    lemma_node_parts(name, m.ms.text);
    proof_strlit_pkh();
    assert(strip_namespace(name) =~= seq!['w', 's', 'h']);
    assert(spec_top_arity(t) == 1);
    assert(t.len() == name.len() + 1 + m.ms.text.len() + 1);
    assert(spec_single_arg(t, "wsh"@) == Ok::<Seq<char>, DescErrorView>(m.ms.text));
}

} // verus!
