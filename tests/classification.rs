use std::str::FromStr;

use elements_miniscript::covenant::{encode_cov_script, post_codesep_script};
use elements_miniscript::interpreter::{from_txdata, BitcoinKey, Error, Inner, PubkeyType};
use elements_miniscript::stack::{Element, Stack};

const KEY: &str = "025edd5cc23c51e87a497ca815d5dce0f8ab52554f849ed8995de64c5f34ce7143";

fn key_bytes() -> Vec<u8> {
    bitcoin::PublicKey::from_str(KEY).unwrap().to_bytes()
}

fn p2tr_spk() -> Vec<u8> {
    let mut spk = vec![0x51u8, 0x20];
    spk.extend_from_slice(&key_bytes()[1..33]);
    spk
}

fn hash160(b: &[u8]) -> Vec<u8> {
    let h = <elements::hashes::hash160::Hash as elements::hashes::Hash>::hash(b);
    h[..].to_vec()
}

fn p2sh_of(redeem: &[u8]) -> Vec<u8> {
    let mut spk = vec![0xa9u8, 0x14];
    spk.extend_from_slice(&hash160(redeem));
    spk.push(0x87);
    spk
}

fn push(data: &[u8]) -> Vec<u8> {
    elements::script::Builder::new().push_slice(data).into_script().to_bytes()
}

#[test]
fn taproot_annex_is_rejected() {
    let spk = p2tr_spk();
    let witness = vec![vec![7u8; 40], vec![0xc0u8; 33], vec![0x50u8, 1, 2]];
    let err = from_txdata(&spk, &[], &witness).unwrap_err();
    assert_eq!(err, Error::TapAnnexUnsupported);
    assert_eq!(err.message(), "Encountered annex element");
    // a single item that starts with the annex byte is a key spend signature
    let (inner, _, code) = from_txdata(&spk, &[], &[vec![0x50u8; 64]]).unwrap();
    assert_eq!(inner, Inner::PublicKey(BitcoinKey::XOnlyPublicKey(key_bytes()[1..33].to_vec()), PubkeyType::Tr));
    assert_eq!(code, None);
}

#[test]
fn taproot_key_spend() {
    let spk = p2tr_spk();
    let sig = vec![3u8; 64];
    let (inner, stack, code) = from_txdata(&spk, &[], &[sig.clone()]).unwrap();
    assert_eq!(inner, Inner::PublicKey(BitcoinKey::XOnlyPublicKey(key_bytes()[1..33].to_vec()), PubkeyType::Tr));
    assert_eq!(stack, Stack::from_elements(vec![Element::Push(sig)]));
    assert_eq!(code, None);
    assert_eq!(from_txdata(&spk, &[], &[]).unwrap_err(), Error::UnexpectedStackEnd);
    assert_eq!(from_txdata(&spk, &[0x51], &[vec![3u8; 64]]).unwrap_err(), Error::NonEmptyScriptSig);
}

#[test]
fn taproot_script_spend_checks_control_block() {
    let spk = p2tr_spk();
    let err = from_txdata(&spk, &[], &[vec![0x51u8], vec![0xc0u8; 5]]).unwrap_err();
    assert_eq!(err, Error::ControlBlockParse);
    let err = from_txdata(&spk, &[], &[vec![0x51u8], vec![1u8]]).unwrap_err();
    assert_eq!(err, Error::UnexpectedStackBoolean);
}

#[test]
fn p2sh_nested_shapes_never_reach_legacy_parsing() {
    let mut wpkh_redeem = vec![0u8, 20];
    wpkh_redeem.extend_from_slice(&hash160(&key_bytes()));
    let spk = p2sh_of(&wpkh_redeem);
    // without a witness the nested key-hash path asks for one
    let err = from_txdata(&spk, &push(&wpkh_redeem), &[]).unwrap_err();
    assert_eq!(err, Error::UnexpectedStackEnd);
    let (inner, _, _) = from_txdata(&spk, &push(&wpkh_redeem), &[key_bytes()]).unwrap();
    assert_eq!(inner, Inner::PublicKey(BitcoinKey::Fullkey(key_bytes()), PubkeyType::ShWpkh));

    let wsh_redeem = {
        let mut r = vec![0u8, 32];
        r.extend_from_slice(&[9u8; 32]);
        r
    };
    let spk = p2sh_of(&wsh_redeem);
    let err = from_txdata(&spk, &push(&wsh_redeem), &[]).unwrap_err();
    assert_eq!(err, Error::UnexpectedStackEnd);

    // a 22-byte redeem script of another shape is read as a legacy script
    let mut other = vec![1u8, 20];
    other.extend_from_slice(&[9u8; 20]);
    let spk = p2sh_of(&other);
    let err = from_txdata(&spk, &push(&other), &[]).unwrap_err();
    assert!(matches!(err, Error::Miniscript(_)));
}

#[test]
fn p2wsh_covenant_is_recognised_first() {
    let key = key_bytes();
    let mut ms = vec![0x21u8];
    ms.extend_from_slice(&key);
    ms.push(0xac);
    let cov = encode_cov_script(&ms, &key);
    let mut spk = vec![0u8, 0x20];
    spk.extend_from_slice(&[5u8; 32]);
    let (inner, stack, code) = from_txdata(&spk, &[], &[vec![4u8, 4], cov]).unwrap();
    match inner {
        Inner::CovScript(k, m) => {
            assert_eq!(k, BitcoinKey::Fullkey(key.clone()));
            assert_eq!(m.script, ms);
        },
        _ => panic!("expected a covenant"),
    }
    assert_eq!(stack, Stack::from_elements(vec![Element::Push(vec![4, 4])]));
    assert_eq!(code, Some(post_codesep_script()));
}

#[test]
fn script_sig_items_become_booleans_and_pushes() {
    let key = key_bytes();
    let mut spk = vec![0x21u8];
    spk.extend_from_slice(&key);
    spk.push(0xac);
    // OP_0, OP_1 and a push of two bytes
    let (_, stack, _) = from_txdata(&spk, &[0x00, 0x51, 0x02, 0xaa, 0xbb], &[]).unwrap();
    assert_eq!(
        stack,
        Stack::from_elements(vec![
            Element::Dissatisfied,
            Element::Satisfied,
            Element::Push(vec![0xaa, 0xbb]),
        ])
    );
    // in the witness, [1] and the empty string are the booleans
    let mut p2wpkh = vec![0u8, 20];
    p2wpkh.extend_from_slice(&hash160(&key));
    let (_, stack, _) = from_txdata(&p2wpkh, &[], &[vec![], vec![1], key.clone()]).unwrap();
    assert_eq!(stack, Stack::from_elements(vec![Element::Dissatisfied, Element::Satisfied]));
    // a non-minimal push is not accepted
    assert_eq!(from_txdata(&spk, &[0x4c, 0x01, 0x05], &[]).unwrap_err(), Error::ExpectedPush);
    // neither is another opcode
    assert_eq!(from_txdata(&spk, &[0x76], &[]).unwrap_err(), Error::ExpectedPush);
}
