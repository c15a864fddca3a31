use std::str::FromStr;

use elements_miniscript::bare::Bare;
use elements_miniscript::checksum::desc_checksum;
use elements_miniscript::covenant::{
    check_cov_limits, encode_cov_script, parse_cov_components, post_codesep_script,
    CovSighashItems, CovenantDescriptor,
};
use elements_miniscript::descriptor::{verify_checksum, Error, Pkh};
use elements_miniscript::key::PublicKey;
use elements_miniscript::pretaproot::{descriptor_kind, DescriptorKind, PreTaprootDescriptor};
use elements_miniscript::primitives::AddressParams;
use elements_miniscript::segwitv0::{Wpkh, Wsh};
use elements_miniscript::sh::Sh;

const KEY: &str = "025edd5cc23c51e87a497ca815d5dce0f8ab52554f849ed8995de64c5f34ce7143";
const UNCOMPRESSED_KEY: &str = "045edd5cc23c51e87a497ca815d5dce0f8ab52554f849ed8995de64c5f34ce7143efae9c8dbc14130661e8cec030c89ad0c13c66c0d17a2905cdc706ab7399a868";

fn chars(s: &str) -> Vec<char> {
    s.chars().collect()
}

fn hash160(b: &[u8]) -> elements::hashes::hash160::Hash {
    <elements::hashes::hash160::Hash as elements::hashes::Hash>::hash(b)
}

#[test]
fn checksum_matches_known_vector() {
    let sum = desc_checksum(&chars("raw(deadbeef)")).unwrap();
    assert_eq!(sum.iter().collect::<String>(), "89f8spxm");
}

#[test]
fn checksum_refuses_characters_outside_alphabet() {
    assert_eq!(desc_checksum(&chars("raw(\u{e9})")), None);
}

#[test]
fn verify_checksum_accepts_and_splits() {
    let d = verify_checksum(&chars("raw(deadbeef)#89f8spxm")).unwrap();
    assert_eq!(d.iter().collect::<String>(), "raw(deadbeef)");
}

#[test]
fn verify_checksum_needs_exactly_one_separator() {
    assert_eq!(verify_checksum(&chars("raw(deadbeef)")), Err(Error::BadSeparator));
    assert_eq!(
        verify_checksum(&chars("raw(deadbeef)#89f8spxm#89f8spxm")),
        Err(Error::BadSeparator)
    );
}

#[test]
fn checksum_tag_mutation_is_rejected() {
    let good = "raw(deadbeef)#89f8spxm";
    for i in 14..good.len() {
        let mut c: Vec<char> = good.chars().collect();
        c[i] = if c[i] == 'q' { 'p' } else { 'q' };
        assert_eq!(verify_checksum(&c), Err(Error::ChecksumMismatch));
    }
    let mut c: Vec<char> = good.chars().collect();
    c[16] = '#';
    assert_eq!(verify_checksum(&c), Err(Error::BadSeparator));
}

#[test]
fn checksum_body_mutation_is_rejected() {
    assert_eq!(
        verify_checksum(&chars("raw(deadbeff)#89f8spxm")),
        Err(Error::ChecksumMismatch)
    );
}

#[test]
fn pkh_round_trip() {
    let pk = PublicKey::from_str(KEY).unwrap();
    let pkh = Pkh::new(pk);
    let s = pkh.to_string();
    assert!(s.starts_with(&format!("elpkh({})#", KEY)));
    assert_eq!(s.len(), "elpkh()#".len() + KEY.len() + 8);
    let back = Pkh::from_str(&s).unwrap();
    assert_eq!(back, pkh);
    assert_eq!(back.to_string(), s);
}

#[test]
fn pkh_round_trip_uncompressed_and_uppercase() {
    let pk = PublicKey::from_str(UNCOMPRESSED_KEY).unwrap();
    let pkh = Pkh::new(pk);
    let s = pkh.to_string();
    assert_eq!(Pkh::from_str(&s).unwrap(), pkh);
    let upper = format!("elpkh({})", KEY.to_uppercase());
    let sum: String = desc_checksum(&chars(&upper)).unwrap().into_iter().collect();
    let parsed = Pkh::from_str(&format!("{}#{}", upper, sum)).unwrap();
    assert_eq!(parsed.as_inner().to_bytes(), PublicKey::from_str(KEY).unwrap().to_bytes());
}

#[test]
fn pkh_parse_errors() {
    let s = Pkh::new(PublicKey::from_str(KEY).unwrap()).to_string();
    let body = s.split('#').next().unwrap();
    assert_eq!(Pkh::from_str(body), Err(Error::BadSeparator));
    let wrong_name = "elpk(".to_string() + KEY + ")";
    let sum: String = desc_checksum(&chars(&wrong_name)).unwrap().into_iter().collect();
    assert_eq!(
        Pkh::from_str(&format!("{}#{}", wrong_name, sum)),
        Err(Error::Unexpected("elpk(1 args) while parsing pkh descriptor".to_string()))
    );
    let two = format!("elpkh({},{})", KEY, KEY);
    assert_eq!(
        Pkh::from_str(&with_sum(&two)),
        Err(Error::Unexpected("elpkh(2 args) while parsing pkh descriptor".to_string()))
    );
    let bad_key = "elpkh(02)";
    let sum: String = desc_checksum(&chars(bad_key)).unwrap().into_iter().collect();
    assert_eq!(Pkh::from_str(&format!("{}#{}", bad_key, sum)), Err(Error::BadKey));
}

#[test]
fn pkh_end_to_end() {
    let key = bitcoin::PublicKey::from_str(KEY).unwrap();
    let text = format!("elpkh({})", KEY);
    let sum: String = desc_checksum(&chars(&text)).unwrap().into_iter().collect();
    let pkh = Pkh::from_str(&format!("{}#{}", text, sum)).unwrap();

    let pkhash = elements::PubkeyHash::from(hash160(&key.to_bytes()));
    let expected_spk = elements::Script::new_p2pkh(&pkhash);
    assert_eq!(pkh.script_pubkey(), expected_spk.to_bytes());
    assert_eq!(pkh.spk()[3..23], pkhash[..]);

    let expected_addr =
        elements::Address::p2pkh(&key, None, &elements::AddressParams::ELEMENTS).to_string();
    assert_eq!(pkh.address(AddressParams::Elements), expected_addr);

    let sig = vec![0x30u8, 0x44, 0x02, 0x20, 7, 7, 7, 0x01];
    let (witness, script_sig) = pkh.get_satisfaction(Some(sig.clone())).unwrap();
    assert!(witness.is_empty());
    let expected = elements::script::Builder::new()
        .push_slice(&sig)
        .push_key(&key)
        .into_script();
    assert_eq!(script_sig, expected.to_bytes());
    assert_eq!(pkh.get_satisfaction(None), Err(Error::MissingSig));
}

#[test]
fn pkh_weight() {
    let c = Pkh::new(PublicKey::from_str(KEY).unwrap());
    let u = Pkh::new(PublicKey::from_str(UNCOMPRESSED_KEY).unwrap());
    assert_eq!(c.max_satisfaction_weight(), 432);
    assert_eq!(u.max_satisfaction_weight(), 560);
}

#[test]
fn cov_limits_boundary() {
    // exactly at the opcode ceiling
    assert_eq!(check_cov_limits(Some(177), false, 100), Ok(()));
    assert_eq!(check_cov_limits(Some(178), true, 100), Ok(()));
    // one above it
    assert_eq!(check_cov_limits(Some(178), false, 100), Err(Error::ImpossibleSatisfaction));
    assert_eq!(check_cov_limits(Some(179), true, 100), Err(Error::ImpossibleSatisfaction));
    assert_eq!(check_cov_limits(None, false, 100), Err(Error::ImpossibleSatisfaction));
    // size ceiling
    assert_eq!(check_cov_limits(Some(1), false, 9942), Ok(()));
    assert_eq!(check_cov_limits(Some(1), false, 9943), Err(Error::ScriptSizeTooLarge));
    assert_eq!(check_cov_limits(Some(1), true, 9943), Ok(()));
}

fn cov_descriptor() -> CovenantDescriptor {
    let ms = format!("c:pk_k({})", KEY);
    let text = format!("elcovwsh({},{})", KEY, ms);
    let sum: String = desc_checksum(&chars(&text)).unwrap().into_iter().collect();
    CovenantDescriptor::from_str(&format!("{}#{}", text, sum)).unwrap()
}

#[test]
fn cov_round_trip_and_encoding() {
    let cov = cov_descriptor();
    let s = cov.to_string().unwrap();
    assert_eq!(CovenantDescriptor::from_str(&s).unwrap(), cov);

    let key = bitcoin::PublicKey::from_str(KEY).unwrap();
    let script = cov.encode();
    // the Miniscript ends in CHECKSIG, which takes the verify for free
    let mut expected = vec![0x21u8];
    expected.extend_from_slice(&key.to_bytes());
    expected.push(0xad);
    expected.extend_from_slice(&[0x5b, 0x79, 0x78, 0x51, 0x80, 0x7e, 0x21]);
    expected.extend_from_slice(&key.to_bytes());
    expected.extend_from_slice(&[0x76, 0x6b, 0xab]);
    expected.extend_from_slice(&post_codesep_script());
    assert_eq!(script, expected);
    assert_eq!(script.len(), 35 + 57);
    assert_eq!(cov.cov_script_code(), post_codesep_script());
    assert_eq!(post_codesep_script().len(), 14);

    let (k, ms) = parse_cov_components(&script).unwrap();
    assert_eq!(k, key.to_bytes());
    assert_eq!(ms.text, format!("pk({})", KEY));

    let wsh = elements::Script::from(script.clone()).to_v0_p2wsh();
    assert_eq!(cov.script_pubkey(), wsh.to_bytes());
}

#[test]
fn cov_encoding_without_free_verify() {
    let key = bitcoin::PublicKey::from_str(KEY).unwrap();
    let ms = [0x51u8];
    let script = encode_cov_script(&ms, &key.to_bytes());
    assert_eq!(script[0..2], [0x51, 0x69]);
    let (k, m) = parse_cov_components(&script).unwrap();
    assert_eq!(k, key.to_bytes());
    assert_eq!(m.script, vec![0x51]);
}

#[test]
fn cov_satisfaction_order_and_errors() {
    let cov = cov_descriptor();
    let items = CovSighashItems {
        n_version: Some(2),
        hash_prevouts: Some(vec![1; 32]),
        hash_sequence: Some(vec![2; 32]),
        hash_issuances: Some(vec![3; 32]),
        outpoint: Some(vec![4; 36]),
        script_code: Some(vec![5; 10]),
        value: Some(vec![6; 9]),
        n_sequence: Some(0xffff_fffe),
        outputs: Some(vec![7; 40]),
        n_locktime: Some(0x0102_0304),
        sighash_type: Some(1),
        signature: Some((vec![0x30, 0x06], 1)),
    };
    let wit = cov.satisfy(&items, Some(vec![vec![9, 9]])).unwrap();
    assert_eq!(wit.len(), 13);
    assert_eq!(wit[0], vec![0x30, 0x06]);
    assert_eq!(wit[1], vec![2, 0, 0, 0]);
    assert_eq!(wit[2], vec![1; 32]);
    assert_eq!(wit[5], vec![4; 36]);
    assert_eq!(wit[8], vec![0xfe, 0xff, 0xff, 0xff]);
    let hash_outputs = <elements::hashes::sha256d::Hash as elements::hashes::Hash>::hash(&[7u8; 40]);
    assert_eq!(wit[9], hash_outputs[..].to_vec());
    assert_ne!(wit[9], vec![7; 40]);
    assert_eq!(wit[10], vec![4, 3, 2, 1]);
    assert_eq!(wit[11], vec![1, 0, 0, 0]);
    assert_eq!(wit[12], vec![9, 9]);

    let (full, script_sig) = cov.get_satisfaction(&items, Some(vec![])).unwrap();
    assert!(script_sig.is_empty());
    assert_eq!(full.last().unwrap(), &cov.encode());

    let mut missing = items.clone();
    missing.value = None;
    assert_eq!(cov.satisfy(&missing, Some(vec![])), Err(Error::MissingSighashItem(7)));
    let mut missing = items.clone();
    missing.signature = None;
    assert_eq!(cov.satisfy(&missing, Some(vec![])), Err(Error::MissingCovSignature));
    let mut mismatch = items.clone();
    mismatch.signature = Some((vec![0x30], 3));
    assert_eq!(cov.satisfy(&mismatch, Some(vec![])), Err(Error::CovenantSighashTypeMismatch));
    assert_eq!(cov.satisfy(&items, None), Err(Error::ImpossibleSatisfaction));
}

#[test]
fn bare_descriptor() {
    let text = format!("elc:pk_k({})", KEY);
    let sum: String = desc_checksum(&chars(&text)).unwrap().into_iter().collect();
    let bare = Bare::from_str(&format!("{}#{}", text, sum)).unwrap();
    let key = bitcoin::PublicKey::from_str(KEY).unwrap();
    assert_eq!(bare.spk(), elements::Script::new_p2pk(&key).to_bytes());
    assert_eq!(bare.address(), Err(Error::BareDescriptorAddr));
    let s = bare.to_string().unwrap();
    assert_eq!(Bare::from_str(&s).unwrap(), bare);
    // a 73-byte signature and its push
    assert_eq!(bare.max_satisfaction_weight(), Some(4 * (1 + 73)));
}

#[test]
fn pretaproot_dispatch_priority() {
    assert_eq!(descriptor_kind(&chars("elpkh"), 1), DescriptorKind::Pkh);
    assert_eq!(descriptor_kind(&chars("elwpkh"), 1), DescriptorKind::Wpkh);
    assert_eq!(descriptor_kind(&chars("elsh"), 1), DescriptorKind::Sh);
    assert_eq!(descriptor_kind(&chars("elwsh"), 1), DescriptorKind::Wsh);
    assert_eq!(descriptor_kind(&chars("elpkh"), 2), DescriptorKind::Bare);
    assert_eq!(descriptor_kind(&chars("pkh"), 1), DescriptorKind::Pkh);
    assert_eq!(descriptor_kind(&chars("sh"), 1), DescriptorKind::Sh);
    assert_eq!(descriptor_kind(&chars("wsh"), 2), DescriptorKind::Bare);
    assert_eq!(descriptor_kind(&chars("elc:pk_k"), 1), DescriptorKind::Bare);

    let pkh = Pkh::new(PublicKey::from_str(KEY).unwrap());
    match PreTaprootDescriptor::from_str(&pkh.to_string()).unwrap() {
        PreTaprootDescriptor::Pkh(p) => assert_eq!(p, pkh),
        _ => panic!("expected pkh"),
    }
    let text = format!("elc:pk_k({})", KEY);
    let sum: String = desc_checksum(&chars(&text)).unwrap().into_iter().collect();
    match PreTaprootDescriptor::from_str(&format!("{}#{}", text, sum)).unwrap() {
        PreTaprootDescriptor::Bare(b) => {
            let s = b.to_string().unwrap();
            assert!(s.starts_with(&format!("elpk({})#", KEY)));
            assert_eq!(Bare::from_str(&s).unwrap(), b);
        },
        _ => panic!("expected bare"),
    }
}

#[test]
fn bare_satisfaction_pushes_items_as_numbers_or_data() {
    let text = format!("elc:pk_k({})", KEY);
    let sum: String = desc_checksum(&chars(&text)).unwrap().into_iter().collect();
    let bare = Bare::from_str(&format!("{}#{}", text, sum)).unwrap();
    let sig = vec![0x30u8; 72];
    let witness = vec![
        sig.clone(),
        vec![5],
        vec![],
        vec![0x81],
        vec![0x01, 0x00],
        vec![0xff, 0x00],
        vec![0x80],
    ];
    let (wit, script_sig) = bare.get_satisfaction(Some(witness)).unwrap();
    assert!(wit.is_empty());
    let mut expected = vec![72u8];
    expected.extend_from_slice(&sig);
    expected.extend_from_slice(&[0x55, 0x00, 0x4f, 0x51, 0x02, 0xff, 0x00, 0x00]);
    assert_eq!(script_sig, expected);
    assert_eq!(bare.get_satisfaction(None), Err(Error::ImpossibleSatisfaction));
}

fn with_sum(text: &str) -> String {
    let sum: String = desc_checksum(&chars(text)).unwrap().into_iter().collect();
    format!("{}#{}", text, sum)
}

#[test]
fn wpkh_descriptor() {
    let key = bitcoin::PublicKey::from_str(KEY).unwrap();
    let w = Wpkh::from_str(&with_sum(&format!("elwpkh({})", KEY))).unwrap();
    let wpkhash = elements::WPubkeyHash::from(hash160(&key.to_bytes()));
    assert_eq!(w.script_pubkey(), elements::Script::new_v0_wpkh(&wpkhash).to_bytes());
    let pkhash = elements::PubkeyHash::from(hash160(&key.to_bytes()));
    assert_eq!(w.script_code(), elements::Script::new_p2pkh(&pkhash).to_bytes());
    assert_eq!(
        w.address(AddressParams::Liquid),
        elements::Address::p2wpkh(&key, None, &elements::AddressParams::LIQUID).to_string()
    );
    let (wit, ss) = w.get_satisfaction(Some(vec![1, 2, 3])).unwrap();
    assert_eq!(wit, vec![vec![1, 2, 3], key.to_bytes()]);
    assert!(ss.is_empty());
    assert_eq!(w.max_satisfaction_weight(), 112);
    assert_eq!(Wpkh::from_str(&w.to_string()).unwrap(), w);
    assert_eq!(
        Wpkh::from_str(&with_sum(&format!("elwpkh({})", UNCOMPRESSED_KEY))),
        Err(Error::CompressedOnly)
    );
}

#[test]
fn wsh_descriptor() {
    let w = Wsh::from_str(&with_sum(&format!("elwsh(pk({}))", KEY))).unwrap();
    let script = w.explicit_script();
    let key = bitcoin::PublicKey::from_str(KEY).unwrap();
    assert_eq!(script, elements::Script::new_p2pk(&key).to_bytes());
    assert_eq!(w.script_pubkey(), elements::Script::from(script.clone()).to_v0_p2wsh().to_bytes());
    let (wit, ss) = w.get_satisfaction(Some(vec![vec![0x30; 71]])).unwrap();
    assert_eq!(wit, vec![vec![0x30; 71], script.clone()]);
    assert!(ss.is_empty());
    assert_eq!(Wsh::from_str(&w.to_string().unwrap()).unwrap(), w);
    assert_eq!(
        w.address(AddressParams::Elements),
        elements::Address::p2wsh(&elements::Script::from(script), None, &elements::AddressParams::ELEMENTS)
            .to_string()
    );
}

#[test]
fn pretaproot_dispatch_wrappers() {
    match PreTaprootDescriptor::from_str(&with_sum(&format!("elwpkh({})", KEY))).unwrap() {
        PreTaprootDescriptor::Wpkh(_) => {},
        _ => panic!("expected wpkh"),
    }
    match PreTaprootDescriptor::from_str(&with_sum(&format!("elwsh(pk({}))", KEY))).unwrap() {
        PreTaprootDescriptor::Wsh(_) => {},
        _ => panic!("expected wsh"),
    }
    let key = bitcoin::PublicKey::from_str(KEY).unwrap();
    match PreTaprootDescriptor::from_str(&with_sum(&format!("elsh(pk({}))", KEY))).unwrap() {
        PreTaprootDescriptor::Sh(x) => {
            let redeem = elements::Script::new_p2pk(&key);
            assert_eq!(x.redeem_script(), redeem.to_bytes());
            assert_eq!(x.script_pubkey(), redeem.to_p2sh().to_bytes());
            assert!(x.unsigned_script_sig().is_empty());
            assert_eq!(Sh::from_str(&x.to_string().unwrap()).unwrap(), x);
        },
        _ => panic!("expected sh"),
    }
    match PreTaprootDescriptor::from_str(&with_sum(&format!("sh(wpkh({}))", KEY))).unwrap() {
        PreTaprootDescriptor::Sh(x) => {
            let wpkhash = elements::WPubkeyHash::from(hash160(&key.to_bytes()));
            let redeem = elements::Script::new_v0_wpkh(&wpkhash);
            assert_eq!(x.redeem_script(), redeem.to_bytes());
            assert_eq!(x.script_pubkey(), redeem.to_p2sh().to_bytes());
            let push = elements::script::Builder::new().push_slice(&redeem[..]).into_script();
            assert_eq!(x.unsigned_script_sig(), push.to_bytes());
            assert_eq!(Sh::from_str(&x.to_string().unwrap()).unwrap(), x);
        },
        _ => panic!("expected sh"),
    }
    match PreTaprootDescriptor::from_str(&with_sum(&format!("elsh(wsh(pk({})))", KEY))).unwrap() {
        PreTaprootDescriptor::Sh(x) => {
            let ws = elements::Script::new_p2pk(&key);
            assert_eq!(x.explicit_script(), ws.to_bytes());
            assert_eq!(x.redeem_script(), ws.to_v0_p2wsh().to_bytes());
        },
        _ => panic!("expected sh"),
    }
    // two arguments do not make a pkh
    assert!(matches!(
        PreTaprootDescriptor::from_str(&with_sum(&format!("elpkh({},{})", KEY, KEY))),
        Err(Error::Miniscript(_))
    ));
}

#[test]
fn for_each_key_visits_every_key() {
    let pkh = Pkh::new(PublicKey::from_str(KEY).unwrap());
    assert!(pkh.for_each_key(&|k: &Vec<u8>| k.len() == 33));
    assert!(!pkh.for_each_key(&|k: &Vec<u8>| k.len() == 65));

    let cov = cov_descriptor();
    assert!(cov.for_each_key(&|k: &Vec<u8>| k[0] == 0x02));
    assert!(!cov.for_each_key(&|k: &Vec<u8>| k[0] == 0x03));

    let wsh = Wsh::from_str(&with_sum(&format!("elwsh(multi(1,{},{}))", KEY, UNCOMPRESSED_KEY)));
    // segwit v0 refuses uncompressed keys
    assert!(matches!(wsh, Err(Error::Miniscript(_))));
    let bare = Bare::from_str(&with_sum(&format!("elmulti(1,{},{})", KEY, UNCOMPRESSED_KEY))).unwrap();
    assert_eq!(bare.as_inner().keys.len(), 2);
    assert!(bare.for_each_key(&|k: &Vec<u8>| k.len() == 33 || k.len() == 65));
    assert!(!bare.for_each_key(&|k: &Vec<u8>| k.len() == 33));
}

#[test]
fn pkh_bitcoin_address() {
    let key = bitcoin::PublicKey::from_str(KEY).unwrap();
    let pkh = Pkh::new(PublicKey::from_str(KEY).unwrap());
    assert_eq!(
        pkh.addr(elements_miniscript::primitives::Network::Testnet),
        bitcoin::Address::p2pkh(&key, bitcoin::Network::Testnet).to_string()
    );
}

#[test]
fn unprefixed_names_are_read() {
    let key = bitcoin::PublicKey::from_str(KEY).unwrap();
    let s = with_sum(&format!("pkh({})", KEY));
    let pkh = Pkh::from_str(&s).unwrap();
    assert_eq!(pkh, Pkh::new(PublicKey::from_str(KEY).unwrap()));
    match PreTaprootDescriptor::from_str(&s).unwrap() {
        PreTaprootDescriptor::Pkh(p) => assert_eq!(p, pkh),
        _ => panic!("expected pkh"),
    }
    // the written form carries the namespace and reads back as the same
    assert_eq!(Pkh::from_str(&pkh.to_string()).unwrap(), pkh);
    let pkhash = elements::PubkeyHash::from(hash160(&key.to_bytes()));
    assert_eq!(pkh.script_pubkey(), elements::Script::new_p2pkh(&pkhash).to_bytes());

    match PreTaprootDescriptor::from_str(&with_sum(&format!("wpkh({})", KEY))).unwrap() {
        PreTaprootDescriptor::Wpkh(_) => {},
        _ => panic!("expected wpkh"),
    }
    match PreTaprootDescriptor::from_str(&with_sum(&format!("wsh(pk({}))", KEY))).unwrap() {
        PreTaprootDescriptor::Wsh(_) => {},
        _ => panic!("expected wsh"),
    }
    match PreTaprootDescriptor::from_str(&with_sum(&format!("pk({})", KEY))).unwrap() {
        PreTaprootDescriptor::Bare(b) => assert_eq!(b.spk(), elements::Script::new_p2pk(&key).to_bytes()),
        _ => panic!("expected bare"),
    }
    let cov = CovenantDescriptor::from_str(&with_sum(&format!("covwsh({},pk({}))", KEY, KEY))).unwrap();
    assert_eq!(cov, cov_descriptor());
}

#[test]
fn sighash_items_have_distinct_numbers() {
    let cov = cov_descriptor();
    let full = CovSighashItems {
        n_version: Some(2),
        hash_prevouts: Some(vec![1; 32]),
        hash_sequence: Some(vec![2; 32]),
        hash_issuances: Some(vec![3; 32]),
        outpoint: Some(vec![4; 36]),
        script_code: Some(vec![5; 10]),
        value: Some(vec![6; 9]),
        n_sequence: Some(1),
        outputs: Some(vec![7; 40]),
        n_locktime: Some(0),
        sighash_type: Some(1),
        signature: Some((vec![0x30], 1)),
    };
    for n in 1..=11u8 {
        let mut it = full.clone();
        match n {
            1 => it.n_version = None,
            2 => it.hash_prevouts = None,
            3 => it.hash_sequence = None,
            4 => it.hash_issuances = None,
            5 => it.outpoint = None,
            6 => it.script_code = None,
            7 => it.value = None,
            8 => it.n_sequence = None,
            9 => it.outputs = None,
            10 => it.n_locktime = None,
            _ => it.sighash_type = None,
        }
        assert_eq!(cov.satisfy(&it, Some(vec![])), Err(Error::MissingSighashItem(n)));
    }
}

#[test]
fn covenant_text_is_held_to_the_limits() {
    // n nested and_v(v:1) fragments over pk: n + 1 opcodes, one verify free,
    // so n + 24 in all
    let nested = |n: usize| {
        let mut ms = format!("pk({})", KEY);
        for _ in 0..n {
            ms = format!("and_v(v:1,{})", ms);
        }
        with_sum(&format!("elcovwsh({},{})", KEY, ms))
    };
    assert!(CovenantDescriptor::from_str(&nested(177)).is_ok());
    assert_eq!(CovenantDescriptor::from_str(&nested(178)), Err(Error::ImpossibleSatisfaction));
    // wrong node and arity are named
    let s = with_sum(&format!("elcovwsh({})", KEY));
    assert_eq!(
        CovenantDescriptor::from_str(&s),
        Err(Error::Unexpected("elcovwsh(1 args) while parsing elcovwsh descriptor".to_string()))
    );
}

#[test]
fn covenant_script_parse_reports_why() {
    let key = bitcoin::PublicKey::from_str(KEY).unwrap();
    assert_eq!(parse_cov_components(&[0x51]), Err(Error::BadCovDescriptor));
    assert_eq!(CovenantDescriptor::parse(&[0x51]), Err(Error::BadCovDescriptor));
    // a Miniscript that is not of the top-level type
    let script = encode_cov_script(&[0x76], &key.to_bytes());
    assert!(matches!(parse_cov_components(&script), Err(Error::Miniscript(_))));
    // a valid covenant reads back
    let cov = cov_descriptor();
    assert_eq!(CovenantDescriptor::parse_insane(&cov.encode()).unwrap(), cov);
    assert_eq!(CovenantDescriptor::parse(&cov.encode()).unwrap(), cov);
}

#[test]
fn sh_satisfaction_ends_with_redeem_script() {
    let key = bitcoin::PublicKey::from_str(KEY).unwrap();
    let x = Sh::from_str(&with_sum(&format!("sh(wpkh({}))", KEY))).unwrap();
    let (w, ss) = x.get_satisfaction(Some(vec![1, 2]), None).unwrap();
    assert_eq!(w, vec![vec![1, 2], key.to_bytes()]);
    let push = elements::script::Builder::new().push_slice(&x.redeem_script()).into_script();
    assert_eq!(ss, push.to_bytes());
    assert_eq!(x.get_satisfaction(None, None), Err(Error::MissingSig));

    let y = Sh::from_str(&with_sum(&format!("sh(pk({}))", KEY))).unwrap();
    let (w, ss) = y.get_satisfaction(None, Some(vec![vec![0x30; 71]])).unwrap();
    assert!(w.is_empty());
    let expected = elements::script::Builder::new()
        .push_slice(&[0x30; 71])
        .push_slice(&y.redeem_script())
        .into_script();
    assert_eq!(ss, expected.to_bytes());
}

#[test]
fn nested_wpkh_script_code_is_the_key_hash_script() {
    let key = bitcoin::PublicKey::from_str(KEY).unwrap();
    let pkhash = elements::PubkeyHash::from(hash160(&key.to_bytes()));
    let p2pkh = elements::Script::new_p2pkh(&pkhash).to_bytes();
    let x = Sh::from_str(&with_sum(&format!("sh(wpkh({}))", KEY))).unwrap();
    assert_eq!(x.script_code(), p2pkh);
    let d = PreTaprootDescriptor::from_str(&with_sum(&format!("elsh(wpkh({}))", KEY))).unwrap();
    assert_eq!(d.script_code(), p2pkh);
    let w = PreTaprootDescriptor::from_str(&with_sum(&format!("elsh(wsh(pk({})))", KEY))).unwrap();
    assert_eq!(w.script_code(), elements::Script::new_p2pk(&key).to_bytes());
}

#[test]
fn constructors_keep_the_miniscript_given() {
    let bare = Bare::from_str(&with_sum(&format!("elpk({})", KEY))).unwrap();
    let ms = bare.as_inner().clone();
    assert_eq!(Bare::new(ms.clone()).unwrap().as_inner(), &ms);
    assert_eq!(Wsh::new(ms.clone()).unwrap().as_inner(), &ms);
    let mut broken = ms.clone();
    broken.ms.text = "pk(".to_string();
    assert!(matches!(Bare::new(broken), Err(Error::Miniscript(_))));
}
