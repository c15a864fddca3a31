use std::str::FromStr;

use elements::hashes::hex::FromHex;
use elements::script;
use elements_miniscript::interpreter::{from_txdata, BitcoinKey, Inner, PubkeyType, ScriptType};
use elements_miniscript::primitives::Miniscript;
use elements_miniscript::stack::{Element, Stack};

struct KeyTestData {
    pk_spk: elements::Script,
    pk_sig: elements::Script,
    pkh_spk: elements::Script,
    pkh_sig: elements::Script,
    pkh_sig_justkey: elements::Script,
    wpkh_spk: elements::Script,
    wpkh_stack: Vec<Vec<u8>>,
    wpkh_stack_justkey: Vec<Vec<u8>>,
    sh_wpkh_spk: elements::Script,
    sh_wpkh_sig: elements::Script,
    sh_wpkh_stack: Vec<Vec<u8>>,
    sh_wpkh_stack_justkey: Vec<Vec<u8>>,
}

fn hash160(b: &[u8]) -> elements::hashes::hash160::Hash {
    <elements::hashes::hash160::Hash as elements::hashes::Hash>::hash(b)
}

fn sha256(b: &[u8]) -> elements::hashes::sha256::Hash {
    <elements::hashes::sha256::Hash as elements::hashes::Hash>::hash(b)
}

impl KeyTestData {
    fn from_key(key: bitcoin::PublicKey) -> KeyTestData {
        // what a funny looking signature..
        let dummy_sig = Vec::from_hex(
            "\
            302e02153b78ce563f89a0ed9414f5aa28ad0d96d6795f9c63\
                02153b78ce563f89a0ed9414f5aa28ad0d96d6795f9c65\
        ",
        )
        .unwrap();

        let pkhash = elements::PubkeyHash::from(hash160(&key.to_bytes()));
        let wpkhash = elements::WPubkeyHash::from(hash160(&key.to_bytes()));
        let wpkh_spk = elements::Script::new_v0_wpkh(&wpkhash);
        let wpkh_scripthash = elements::ScriptHash::from(hash160(&wpkh_spk[..]));

        KeyTestData {
            pk_spk: elements::Script::new_p2pk(&key),
            pkh_spk: elements::Script::new_p2pkh(&pkhash),
            pk_sig: script::Builder::new().push_slice(&dummy_sig).into_script(),
            pkh_sig: script::Builder::new()
                .push_slice(&dummy_sig)
                .push_key(&key)
                .into_script(),
            pkh_sig_justkey: script::Builder::new().push_key(&key).into_script(),
            wpkh_spk: wpkh_spk.clone(),
            wpkh_stack: vec![dummy_sig.clone(), key.to_bytes()],
            wpkh_stack_justkey: vec![key.to_bytes()],
            sh_wpkh_spk: elements::Script::new_p2sh(&wpkh_scripthash),
            sh_wpkh_sig: script::Builder::new()
                .push_slice(&wpkh_spk[..])
                .into_script(),
            sh_wpkh_stack: vec![dummy_sig, key.to_bytes()],
            sh_wpkh_stack_justkey: vec![key.to_bytes()],
        }
    }
}

struct FixedTestData {
    pk_comp: bitcoin::PublicKey,
    pk_uncomp: bitcoin::PublicKey,
}

fn fixed_test_data() -> FixedTestData {
    FixedTestData {
        pk_comp: bitcoin::PublicKey::from_str(
            "\
            025edd5cc23c51e87a497ca815d5dce0f8ab52554f849ed8995de64c5f34ce7143\
        ",
        )
        .unwrap(),
        pk_uncomp: bitcoin::PublicKey::from_str(
            "\
            045edd5cc23c51e87a497ca815d5dce0f8ab52554f849ed8995de64c5f34ce7143\
              efae9c8dbc14130661e8cec030c89ad0c13c66c0d17a2905cdc706ab7399a868\
        ",
        )
        .unwrap(),
    }
}

fn full(key: &bitcoin::PublicKey) -> BitcoinKey {
    BitcoinKey::Fullkey(key.to_bytes())
}

fn stack(items: Vec<&[u8]>) -> Stack {
    Stack::from_elements(items.into_iter().map(Element::from_bytes).collect())
}

fn code(s: &elements::Script) -> Option<Vec<u8>> {
    Some(s.to_bytes())
}

#[test]
fn pubkey_pk() {
    let fixed = fixed_test_data();
    let comp = KeyTestData::from_key(fixed.pk_comp);
    let uncomp = KeyTestData::from_key(fixed.pk_uncomp);
    let blank_script = elements::Script::new();

    // Compressed pk, empty scriptsig
    let (inner, stack_left, script_code) =
        from_txdata(&comp.pk_spk[..], &blank_script[..], &[]).expect("parse txdata");
    assert_eq!(inner, Inner::PublicKey(full(&fixed.pk_comp), PubkeyType::Pk));
    assert_eq!(stack_left, stack(vec![]));
    assert_eq!(script_code, code(&comp.pk_spk));

    // Uncompressed pk, empty scriptsig
    let (inner, stack_left, script_code) =
        from_txdata(&uncomp.pk_spk[..], &blank_script[..], &[]).expect("parse txdata");
    assert_eq!(inner, Inner::PublicKey(full(&fixed.pk_uncomp), PubkeyType::Pk));
    assert_eq!(stack_left, stack(vec![]));
    assert_eq!(script_code, code(&uncomp.pk_spk));

    // Compressed pk, correct scriptsig
    let (inner, stack_left, script_code) =
        from_txdata(&comp.pk_spk[..], &comp.pk_sig[..], &[]).expect("parse txdata");
    assert_eq!(inner, Inner::PublicKey(full(&fixed.pk_comp), PubkeyType::Pk));
    assert_eq!(stack_left, stack(vec![&comp.pk_sig[1..]]));
    assert_eq!(script_code, code(&comp.pk_spk));

    // Uncompressed pk, correct scriptsig
    let (inner, stack_left, script_code) =
        from_txdata(&uncomp.pk_spk[..], &uncomp.pk_sig[..], &[]).expect("parse txdata");
    assert_eq!(inner, Inner::PublicKey(full(&fixed.pk_uncomp), PubkeyType::Pk));
    assert_eq!(stack_left, stack(vec![&uncomp.pk_sig[1..]]));
    assert_eq!(script_code, code(&uncomp.pk_spk));

    // Scriptpubkey has invalid key
    let mut spk = comp.pk_spk.to_bytes();
    spk[1] = 5;
    let err = from_txdata(&spk, &[], &[]).unwrap_err();
    assert_eq!(err.message(), "could not parse pubkey");

    // Scriptpubkey has invalid script
    let mut spk = comp.pk_spk.to_bytes();
    spk[0] = 100;
    let err = from_txdata(&spk, &[], &[]).unwrap_err();
    assert_eq!(&err.message()[0..12], "parse error:");

    // Witness is nonempty
    let err = from_txdata(&comp.pk_spk[..], &comp.pk_sig[..], &[vec![]]).unwrap_err();
    assert_eq!(err.message(), "legacy spend had nonempty witness");
}

#[test]
fn pubkey_pkh() {
    let fixed = fixed_test_data();
    let comp = KeyTestData::from_key(fixed.pk_comp);
    let uncomp = KeyTestData::from_key(fixed.pk_uncomp);

    // pkh, empty scriptsig; this time it errors out
    let err = from_txdata(&comp.pkh_spk[..], &[], &[]).unwrap_err();
    assert_eq!(err.message(), "unexpected end of stack");

    // pkh, wrong pubkey
    let err = from_txdata(&comp.pkh_spk[..], &uncomp.pkh_sig_justkey[..], &[]).unwrap_err();
    assert_eq!(err.message(), "public key did not match scriptpubkey");

    // pkh, right pubkey, no signature
    let (inner, stack_left, script_code) =
        from_txdata(&comp.pkh_spk[..], &comp.pkh_sig_justkey[..], &[]).expect("parse txdata");
    assert_eq!(inner, Inner::PublicKey(full(&fixed.pk_comp), PubkeyType::Pkh));
    assert_eq!(stack_left, stack(vec![]));
    assert_eq!(script_code, code(&comp.pkh_spk));

    let (inner, stack_left, script_code) =
        from_txdata(&uncomp.pkh_spk[..], &uncomp.pkh_sig_justkey[..], &[]).expect("parse txdata");
    assert_eq!(inner, Inner::PublicKey(full(&fixed.pk_uncomp), PubkeyType::Pkh));
    assert_eq!(stack_left, stack(vec![]));
    assert_eq!(script_code, code(&uncomp.pkh_spk));

    // pkh, right pubkey, signature
    let (inner, stack_left, script_code) =
        from_txdata(&comp.pkh_spk[..], &comp.pkh_sig_justkey[..], &[]).expect("parse txdata");
    assert_eq!(inner, Inner::PublicKey(full(&fixed.pk_comp), PubkeyType::Pkh));
    assert_eq!(stack_left, stack(vec![]));
    assert_eq!(script_code, code(&comp.pkh_spk));

    let (inner, stack_left, script_code) =
        from_txdata(&uncomp.pkh_spk[..], &uncomp.pkh_sig_justkey[..], &[]).expect("parse txdata");
    assert_eq!(inner, Inner::PublicKey(full(&fixed.pk_uncomp), PubkeyType::Pkh));
    assert_eq!(stack_left, stack(vec![]));
    assert_eq!(script_code, code(&uncomp.pkh_spk));

    // Witness is nonempty
    let err = from_txdata(&comp.pkh_spk[..], &comp.pkh_sig[..], &[vec![]]).unwrap_err();
    assert_eq!(err.message(), "legacy spend had nonempty witness");
}

#[test]
fn pubkey_wpkh() {
    let fixed = fixed_test_data();
    let comp = KeyTestData::from_key(fixed.pk_comp);
    let uncomp = KeyTestData::from_key(fixed.pk_uncomp);
    let blank_script = elements::Script::new();

    // wpkh, empty witness; this time it errors out
    let err = from_txdata(&comp.wpkh_spk[..], &blank_script[..], &[]).unwrap_err();
    assert_eq!(err.message(), "unexpected end of stack");

    // wpkh, uncompressed pubkey
    let err = from_txdata(&comp.wpkh_spk[..], &blank_script[..], &uncomp.wpkh_stack_justkey)
        .unwrap_err();
    assert_eq!(err.message(), "uncompressed pubkey in non-legacy descriptor");

    // wpkh, wrong pubkey
    let err = from_txdata(&uncomp.wpkh_spk[..], &blank_script[..], &comp.wpkh_stack_justkey)
        .unwrap_err();
    assert_eq!(err.message(), "public key did not match scriptpubkey (segwit v0)");

    // wpkh, right pubkey, no signature
    let (inner, stack_left, script_code) =
        from_txdata(&comp.wpkh_spk[..], &blank_script[..], &comp.wpkh_stack_justkey)
            .expect("parse txdata");
    assert_eq!(inner, Inner::PublicKey(full(&fixed.pk_comp), PubkeyType::Wpkh));
    assert_eq!(stack_left, stack(vec![]));
    assert_eq!(script_code, code(&comp.pkh_spk));

    // wpkh, right pubkey, signature
    let (inner, stack_left, script_code) =
        from_txdata(&comp.wpkh_spk[..], &blank_script[..], &comp.wpkh_stack)
            .expect("parse txdata");
    assert_eq!(inner, Inner::PublicKey(full(&fixed.pk_comp), PubkeyType::Wpkh));
    assert_eq!(
        stack_left,
        stack(vec![&comp.wpkh_stack[comp.wpkh_stack.len() - 2][..]])
    );
    assert_eq!(script_code, code(&comp.pkh_spk));

    assert_eq!(inner, Inner::PublicKey(full(&fixed.pk_comp), PubkeyType::Wpkh));
    assert_eq!(stack_left, stack(vec![&comp.wpkh_stack[0][..]]));
    assert_eq!(script_code, code(&comp.pkh_spk));

    // Scriptsig is nonempty
    let err = from_txdata(&comp.wpkh_spk[..], &comp.pk_sig[..], &comp.wpkh_stack_justkey)
        .unwrap_err();
    assert_eq!(err.message(), "segwit spend had nonempty scriptsig");
}

#[test]
fn pubkey_sh_wpkh() {
    let fixed = fixed_test_data();
    let comp = KeyTestData::from_key(fixed.pk_comp);
    let uncomp = KeyTestData::from_key(fixed.pk_uncomp);
    let blank_script = elements::Script::new();

    // sh_wpkh, missing witness or scriptsig
    let err = from_txdata(&comp.sh_wpkh_spk[..], &blank_script[..], &[]).unwrap_err();
    assert_eq!(err.message(), "unexpected end of stack");
    let err = from_txdata(&comp.sh_wpkh_spk[..], &comp.sh_wpkh_sig[..], &[]).unwrap_err();
    assert_eq!(err.message(), "unexpected end of stack");
    let err = from_txdata(&comp.sh_wpkh_spk[..], &blank_script[..], &comp.sh_wpkh_stack)
        .unwrap_err();
    assert_eq!(err.message(), "unexpected end of stack");

    // sh_wpkh, uncompressed pubkey
    let err = from_txdata(
        &uncomp.sh_wpkh_spk[..],
        &uncomp.sh_wpkh_sig[..],
        &uncomp.sh_wpkh_stack_justkey,
    )
    .unwrap_err();
    assert_eq!(err.message(), "uncompressed pubkey in non-legacy descriptor");

    // sh_wpkh, wrong redeem script for scriptpubkey
    let err = from_txdata(
        &uncomp.sh_wpkh_spk[..],
        &comp.sh_wpkh_sig[..],
        &comp.sh_wpkh_stack_justkey,
    )
    .unwrap_err();
    assert_eq!(err.message(), "redeem script did not match scriptpubkey");

    // sh_wpkh, wrong redeem script for witness script
    let err = from_txdata(
        &uncomp.sh_wpkh_spk[..],
        &uncomp.sh_wpkh_sig[..],
        &comp.sh_wpkh_stack_justkey,
    )
    .unwrap_err();
    assert_eq!(err.message(), "witness script did not match scriptpubkey");

    // sh_wpkh, right pubkey, no signature
    let (inner, stack_left, script_code) = from_txdata(
        &comp.sh_wpkh_spk[..],
        &comp.sh_wpkh_sig[..],
        &comp.sh_wpkh_stack_justkey,
    )
    .expect("parse txdata");
    assert_eq!(inner, Inner::PublicKey(full(&fixed.pk_comp), PubkeyType::ShWpkh));
    assert_eq!(stack_left, stack(vec![]));
    assert_eq!(script_code, code(&comp.pkh_spk));

    // sh_wpkh, right pubkey, signature
    let (inner, stack_left, script_code) =
        from_txdata(&comp.sh_wpkh_spk[..], &comp.sh_wpkh_sig[..], &comp.sh_wpkh_stack)
            .expect("parse txdata");
    assert_eq!(inner, Inner::PublicKey(full(&fixed.pk_comp), PubkeyType::ShWpkh));
    assert_eq!(
        stack_left,
        stack(vec![&comp.wpkh_stack[comp.wpkh_stack.len() - 2][..]])
    );
    assert_eq!(script_code, code(&comp.pkh_spk));
}

fn ms_inner_script(ms: &str) -> (Miniscript, elements::Script) {
    let ms =
        miniscript::Miniscript::<bitcoin::PublicKey, miniscript::Segwitv0>::from_str_insane(ms)
            .unwrap();
    let spk = elements::Script::from(ms.encode().into_bytes());
    let miniscript = Miniscript {
        text: ms.to_string(),
        script: ms.encode().into_bytes(),
    };
    (miniscript, spk)
}

#[test]
fn script_bare() {
    let preimage = b"12345678----____12345678----____";
    let hash = hash160(&preimage[..]);

    let (miniscript, spk) = ms_inner_script(&format!("hash160({})", hash));

    let blank_script = elements::Script::new();

    // bare script has no validity requirements beyond being a sane script
    let (inner, stack_left, script_code) =
        from_txdata(&spk[..], &blank_script[..], &[]).expect("parse txdata");
    assert_eq!(inner, Inner::Script(miniscript, ScriptType::Bare));
    assert_eq!(stack_left, stack(vec![]));
    assert_eq!(script_code, code(&spk));

    let err = from_txdata(&blank_script[..], &blank_script[..], &[]).unwrap_err();
    assert_eq!(&err.message()[0..12], "parse error:");

    // nonempty witness
    let err = from_txdata(&spk[..], &blank_script[..], &[vec![]]).unwrap_err();
    assert_eq!(&err.message(), "legacy spend had nonempty witness");
}

#[test]
fn script_sh() {
    let preimage = b"12345678----____12345678----____";
    let hash = hash160(&preimage[..]);
    let (miniscript, redeem_script) = ms_inner_script(&format!("hash160({})", hash));
    let rs_hash = elements::ScriptHash::from(hash160(&redeem_script[..]));

    let spk = elements::Script::new_p2sh(&rs_hash);
    let script_sig = script::Builder::new()
        .push_slice(&redeem_script[..])
        .into_script();
    let blank_script = elements::Script::new();

    // sh without scriptsig
    let err = from_txdata(&spk[..], &blank_script[..], &[]).unwrap_err();
    assert_eq!(&err.message(), "unexpected end of stack");

    // with incorrect scriptsig
    let err = from_txdata(&spk[..], &spk[..], &[]).unwrap_err();
    assert_eq!(&err.message(), "expected push in script");

    // with correct scriptsig
    let (inner, stack_left, script_code) =
        from_txdata(&spk[..], &script_sig[..], &[]).expect("parse txdata");
    assert_eq!(inner, Inner::Script(miniscript, ScriptType::Sh));
    assert_eq!(stack_left, stack(vec![]));
    assert_eq!(script_code, code(&redeem_script));

    // nonempty witness
    let err = from_txdata(&spk[..], &script_sig[..], &[vec![]]).unwrap_err();
    assert_eq!(&err.message(), "legacy spend had nonempty witness");
}

#[test]
fn script_wsh() {
    let preimage = b"12345678----____12345678----____";
    let hash = hash160(&preimage[..]);

    let (miniscript, witness_script) = ms_inner_script(&format!("hash160({})", hash));

    let wit_hash = elements::WScriptHash::from(sha256(&witness_script[..]));
    let wit_stack = vec![witness_script.to_bytes()];

    let spk = elements::Script::new_v0_wsh(&wit_hash);
    let blank_script = elements::Script::new();

    // wsh without witness
    let err = from_txdata(&spk[..], &blank_script[..], &[]).unwrap_err();
    assert_eq!(&err.message(), "unexpected end of stack");

    // with incorrect witness
    let err = from_txdata(&spk[..], &blank_script[..], &[spk.to_bytes()]).unwrap_err();
    assert_eq!(&err.message()[0..12], "parse error:");

    // with correct witness
    let (inner, stack_left, script_code) =
        from_txdata(&spk[..], &blank_script[..], &wit_stack).expect("parse txdata");
    assert_eq!(inner, Inner::Script(miniscript, ScriptType::Wsh));
    assert_eq!(stack_left, stack(vec![]));
    assert_eq!(script_code, code(&witness_script));

    // nonempty script_sig
    let script_sig = script::Builder::new()
        .push_slice(&witness_script[..])
        .into_script();
    let err = from_txdata(&spk[..], &script_sig[..], &wit_stack).unwrap_err();
    assert_eq!(&err.message(), "segwit spend had nonempty scriptsig");
}

#[test]
fn script_sh_wsh() {
    let preimage = b"12345678----____12345678----____";
    let hash = hash160(&preimage[..]);

    let (miniscript, witness_script) = ms_inner_script(&format!("hash160({})", hash));

    let wit_hash = elements::WScriptHash::from(sha256(&witness_script[..]));
    let wit_stack = vec![witness_script.to_bytes()];

    let redeem_script = elements::Script::new_v0_wsh(&wit_hash);
    let script_sig = script::Builder::new()
        .push_slice(&redeem_script[..])
        .into_script();
    let blank_script = elements::Script::new();

    let rs_hash = elements::ScriptHash::from(hash160(&redeem_script[..]));
    let spk = elements::Script::new_p2sh(&rs_hash);

    // shwsh without witness or scriptsig
    let err = from_txdata(&spk[..], &blank_script[..], &[]).unwrap_err();
    assert_eq!(&err.message(), "unexpected end of stack");
    let err = from_txdata(&spk[..], &script_sig[..], &[]).unwrap_err();
    assert_eq!(&err.message(), "unexpected end of stack");
    let err = from_txdata(&spk[..], &blank_script[..], &wit_stack).unwrap_err();
    assert_eq!(&err.message(), "unexpected end of stack");

    // with incorrect witness
    let err = from_txdata(&spk[..], &script_sig[..], &[spk.to_bytes()]).unwrap_err();
    assert_eq!(&err.message()[0..12], "parse error:");

    // with incorrect scriptsig
    let err = from_txdata(&spk[..], &redeem_script[..], &wit_stack).unwrap_err();
    assert_eq!(&err.message(), "redeem script did not match scriptpubkey");

    // with correct witness
    let (inner, stack_left, script_code) =
        from_txdata(&spk[..], &script_sig[..], &wit_stack).expect("parse txdata");
    assert_eq!(inner, Inner::Script(miniscript, ScriptType::ShWsh));
    assert_eq!(stack_left, stack(vec![]));
    assert_eq!(script_code, code(&witness_script));
}
