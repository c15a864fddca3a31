//! Descriptor text with its checksum, and the descriptors that bind a key to
//! an output: pay-to-pubkey-hash.

use vstd::prelude::*;
use crate::checksum::{desc_checksum, input_pos, lemma_checksum_exists, spec_desc_checksum};
use crate::key::{key_text_valid, PublicKey};
use crate::primitives::{
    bitcoin_p2pkh_address, bitcoin_p2pkh_address_of, full_key_valid, hash160, hash160_of, p2pkh_address,
    p2pkh_address_of, AddressParams, Network,
};
use crate::script::{new_p2pkh, p2pkh_script, push_encoding, push_slice};
use crate::node::{
    lemma_first_index_bound, spec_top_arity, strip_namespace, strip_namespace_exec, top_name, top_node,
    unexpected, unexpected_message,
};
use crate::text::{
    chars_eq, chars_of, chars_slice, hex_decode, hex_encode, lemma_hex_digit, push_chars, string_of,
};

verus! {

/// Why a descriptor could not be read, built or spent.
#[derive(Clone, Debug, PartialEq, Eq)]
pub enum Error {
    /// The text does not hold exactly one `#`.
    BadSeparator,
    /// A character of the text is outside the checksum alphabet.
    BadCharacter,
    /// The tag after `#` is not the checksum of the text before it.
    ChecksumMismatch,
    /// A segwit key-hash descriptor needs a compressed key.
    CompressedOnly,
    /// The top node is not the one the descriptor is written with; the text
    /// names the node and its number of arguments.
    Unexpected(String),
    /// The script does not end in the covenant construction.
    BadCovDescriptor,
    /// A key does not decode.
    BadKey,
    /// A Miniscript does not decode; the text says why.
    Miniscript(String),
    /// A bare script has no address.
    BareDescriptorAddr,
    /// No signature is known for the key.
    MissingSig,
    /// The script cannot be satisfied within the limits.
    ImpossibleSatisfaction,
    /// The script is larger than the limit on script size.
    ScriptSizeTooLarge,
    /// A covenant sighash item is missing; the number says which.
    MissingSighashItem(u8),
    /// No signature by the covenant key is known.
    MissingCovSignature,
    /// The covenant signature's hash type is not the sighash type item.
    CovenantSighashTypeMismatch,
}

pub enum ErrorView {
    BadSeparator,
    BadCharacter,
    ChecksumMismatch,
    CompressedOnly,
    Unexpected(Seq<char>),
    BadCovDescriptor,
    BadKey,
    Miniscript(Seq<char>),
    BareDescriptorAddr,
    MissingSig,
    ImpossibleSatisfaction,
    ScriptSizeTooLarge,
    MissingSighashItem(u8),
    MissingCovSignature,
    CovenantSighashTypeMismatch,
}

impl View for Error {
    type V = ErrorView;

    open spec fn view(&self) -> ErrorView {
        match self {
            Error::BadSeparator => ErrorView::BadSeparator,
            Error::BadCharacter => ErrorView::BadCharacter,
            Error::ChecksumMismatch => ErrorView::ChecksumMismatch,
            Error::CompressedOnly => ErrorView::CompressedOnly,
            Error::Unexpected(t) => ErrorView::Unexpected(t@),
            Error::BadCovDescriptor => ErrorView::BadCovDescriptor,
            Error::BadKey => ErrorView::BadKey,
            Error::Miniscript(t) => ErrorView::Miniscript(t@),
            Error::BareDescriptorAddr => ErrorView::BareDescriptorAddr,
            Error::MissingSig => ErrorView::MissingSig,
            Error::ImpossibleSatisfaction => ErrorView::ImpossibleSatisfaction,
            Error::ScriptSizeTooLarge => ErrorView::ScriptSizeTooLarge,
            Error::MissingSighashItem(n) => ErrorView::MissingSighashItem(*n),
            Error::MissingCovSignature => ErrorView::MissingCovSignature,
            Error::CovenantSighashTypeMismatch => ErrorView::CovenantSighashTypeMismatch,
        }
    }
}

/// How many times `c` occurs in `s`.
pub open spec fn count_char(s: Seq<char>, c: char) -> nat
    decreases s.len(),
{
    if s.len() == 0 {
        0
    } else {
        count_char(s.drop_last(), c) + if s.last() == c { 1nat } else { 0nat }
    }
}

/// The index of the first `c` in `s`, or its length where there is none.
pub open spec fn first_index(s: Seq<char>, c: char) -> int
    decreases s.len(),
{
    if s.len() == 0 {
        0
    } else if s[0] == c {
        0
    } else {
        1 + first_index(s.subrange(1, s.len() as int), c)
    }
}

/// The descriptor text before its checksum tag: the text must hold exactly
/// one `#`, and what follows it must be the checksum of what precedes it.
pub open spec fn spec_verify_checksum(s: Seq<char>) -> Result<Seq<char>, ErrorView> {
    if count_char(s, '#') != 1 {
        Err(ErrorView::BadSeparator)
    } else {
        let i = first_index(s, '#');
        let desc = s.subrange(0, i);
        let tag = s.subrange(i + 1, s.len() as int);
        match spec_desc_checksum(desc) {
            None => Err(ErrorView::BadCharacter),
            Some(t) => if t == tag {
                Ok(desc)
            } else {
                Err(ErrorView::ChecksumMismatch)
            },
        }
    }
}

/// A descriptor text followed by `#` and its checksum.
pub open spec fn with_checksum(desc: Seq<char>) -> Seq<char> {
    desc + seq!['#'] + spec_desc_checksum(desc)->0
}

pub proof fn lemma_count_first(s: Seq<char>, c: char, i: int)
    requires
        0 <= i <= s.len(),
        count_char(s.subrange(0, i), c) == 0,
    ensures
        i < s.len() && s[i] == c ==> first_index(s, c) == i,
        i == s.len() ==> first_index(s, c) == s.len(),
    decreases s.len(),
{
    lemma_count_zero(s.subrange(0, i), c);
    if s.len() > 0 && i > 0 {
        assert(s.subrange(0, i)[0] == s[0]);
        let t = s.subrange(1, s.len() as int);
        assert(t.subrange(0, i - 1) =~= s.subrange(0, i).subrange(1, i));
        lemma_count_zero_sub(s.subrange(0, i), c, 1);
        lemma_count_first(t, c, i - 1);
    }
}

pub proof fn lemma_count_zero(s: Seq<char>, c: char)
    requires
        count_char(s, c) == 0,
    ensures
        forall|j: int| 0 <= j < s.len() ==> s[j] != c,
    decreases s.len(),
{
    if s.len() > 0 {
        lemma_count_zero(s.drop_last(), c);
        assert forall|j: int| 0 <= j < s.len() implies s[j] != c by {
            if j < s.len() - 1 {
                assert(s.drop_last()[j] == s[j]);
            }
        }
    }
}

pub proof fn lemma_count_none(s: Seq<char>, c: char)
    requires
        forall|j: int| 0 <= j < s.len() ==> s[j] != c,
    ensures
        count_char(s, c) == 0,
    decreases s.len(),
{
    if s.len() > 0 {
        lemma_count_none(s.drop_last(), c);
    }
}

proof fn lemma_count_zero_sub(s: Seq<char>, c: char, k: int)
    requires
        count_char(s, c) == 0,
        0 <= k <= s.len(),
    ensures
        count_char(s.subrange(k, s.len() as int), c) == 0,
{
    lemma_count_zero(s, c);
    lemma_count_none(s.subrange(k, s.len() as int), c);
}

pub proof fn lemma_count_append(a: Seq<char>, b: Seq<char>, c: char)
    ensures
        count_char(a + b, c) == count_char(a, c) + count_char(b, c),
    decreases b.len(),
{
    if b.len() == 0 {
        assert(a + b =~= a);
    } else {
        assert((a + b).drop_last() =~= a + b.drop_last());
        lemma_count_append(a, b.drop_last(), c);
    }
}

/// The checksum tag never holds a `#`.
pub proof fn lemma_tag_has_no_hash(desc: Seq<char>)
    requires
        spec_desc_checksum(desc) is Some,
    ensures
        count_char(spec_desc_checksum(desc)->0, '#') == 0,
{
    let t = spec_desc_checksum(desc)->0;
    assert forall|j: int| 0 <= j < t.len() implies t[j] != '#' by {
        let table = seq![
            'q', 'p', 'z', 'r', 'y', '9', 'x', '8', 'g', 'f', '2', 't', 'v', 'd', 'w', '0',
            's', '3', 'j', 'n', '5', '4', 'k', 'h', 'c', 'e', '6', 'm', 'u', 'a', '7', 'l',
        ];
        assert(forall|k: int| 0 <= k < 32 ==> table[k] != '#');
    }
    lemma_count_none(t, '#');
}

/// Reading back a text written with its checksum gives the text.
pub proof fn lemma_verify_with_checksum(desc: Seq<char>)
    requires
        spec_desc_checksum(desc) is Some,
        count_char(desc, '#') == 0,
    ensures
        spec_verify_checksum(with_checksum(desc)) == Ok::<Seq<char>, ErrorView>(desc),
{
    let tag = spec_desc_checksum(desc)->0;
    let s = with_checksum(desc);
    lemma_tag_has_no_hash(desc);
    lemma_count_append(desc, seq!['#'], '#');
    assert(count_char(seq!['#'], '#') == 1) by {
        let one = seq!['#'];
        assert(one.drop_last() =~= Seq::<char>::empty());
        assert(one.last() == '#');
        assert(count_char(one.drop_last(), '#') == 0);
    }
    lemma_count_append(desc + seq!['#'], tag, '#');
    assert(s.subrange(0, desc.len() as int) =~= desc);
    lemma_count_first(s, '#', desc.len() as int);
    assert(s.subrange(desc.len() as int + 1, s.len() as int) =~= tag);
}

/// Splits a descriptor text at its `#` and checks the checksum tag; returns
/// the text before the `#`.
pub fn verify_checksum(s: &[char]) -> (r: Result<Vec<char>, Error>)
    ensures
        r matches Ok(d) ==> spec_verify_checksum(s@) == Ok::<Seq<char>, ErrorView>(d@),
        r matches Err(e) ==> spec_verify_checksum(s@) == Err::<Seq<char>, ErrorView>(e@),
{
    let mut count: usize = 0;
    let mut first: usize = s.len();
    let mut i: usize = 0;
    while i < s.len()
        invariant
            0 <= i <= s@.len(),
            count == count_char(s@.subrange(0, i as int), '#'),
            count <= i,
            count == 0 ==> first == s@.len(),
            count > 0 ==> first < i && s@[first as int] == '#' && count_char(
                s@.subrange(0, first as int),
                '#',
            ) == 0,
        decreases s@.len() - i,
    {
        assert(s@.subrange(0, i + 1).drop_last() =~= s@.subrange(0, i as int));
        if s[i] == '#' {
            if count == 0 {
                first = i;
            }
            count = count + 1;
        }
        i = i + 1;
    }
    assert(s@.subrange(0, i as int) =~= s@);
    if count != 1 {
        return Err(Error::BadSeparator);
    }
    proof {
        lemma_count_first(s@, '#', first as int);
    }
    let desc = chars_slice(s, 0, first);
    let tag = chars_slice(s, first + 1, s.len());
    match desc_checksum(desc.as_slice()) {
        None => Err(Error::BadCharacter),
        Some(t) => if chars_eq(t.as_slice(), 0, t.len(), tag.as_slice()) {
            assert(t@.subrange(0, t@.len() as int) =~= t@);
            Ok(desc)
        } else {
            assert(t@.subrange(0, t@.len() as int) =~= t@);
            Err(Error::ChecksumMismatch)
        },
    }
}

/// Appends `#` and the checksum to a descriptor text.
pub fn add_checksum(desc: Vec<char>) -> (r: Result<Vec<char>, Error>)
    ensures
        r matches Ok(v) ==> spec_desc_checksum(desc@) is Some && v@ == with_checksum(desc@),
        r is Err ==> spec_desc_checksum(desc@) is None,
{
    match desc_checksum(desc.as_slice()) {
        None => Err(Error::BadCharacter),
        Some(t) => {
            let mut out = desc;
            out.push('#');
            push_chars(&mut out, t.as_slice());
            Ok(out)
        },
    }
}

/// `elpkh(`
pub open spec fn pkh_prefix() -> Seq<char> {
    seq!['e', 'l', 'p', 'k', 'h', '(']
}

/// The text of a pay-to-pubkey-hash descriptor, before its checksum.
pub open spec fn pkh_text(key: Seq<u8>) -> Seq<char> {
    pkh_prefix() + hex_encode(key) + seq![')']
}

/// The key of a pay-to-pubkey-hash descriptor text without its checksum: a
/// top node `pkh`, with or without the `el` namespace, whose one argument is
/// the key.
pub open spec fn spec_parse_pkh(d: Seq<char>) -> Result<Seq<u8>, ErrorView> {
    match spec_single_arg(d, "pkh"@) {
        Err(e) => Err(e),
        Ok(k) => if key_text_valid(k) {
            Ok(hex_decode(k))
        } else {
            Err(ErrorView::BadKey)
        },
    }
}

/// The key of a pay-to-pubkey-hash descriptor string.
pub open spec fn spec_pkh_from_str(s: Seq<char>) -> Result<Seq<u8>, ErrorView> {
    match spec_verify_checksum(s) {
        Err(e) => Err(e),
        Ok(d) => spec_parse_pkh(d),
    }
}

/// The unlocking script that spends a pay-to-pubkey-hash output: the
/// signature, then the key.
pub open spec fn pkh_script_sig(sig: Seq<u8>, key: Seq<u8>) -> Seq<u8> {
    push_encoding(sig) + push_encoding(key)
}

/// The largest weight a pay-to-pubkey-hash spend of a key of this length
/// adds: a 73-byte signature with its push, and the key with its push.
pub open spec fn pkh_max_weight(key_len: nat) -> nat {
    4 * (1 + 73 + if key_len == 33 { 34nat } else { 66nat })
}

fn pkh_prefix_chars() -> (r: Vec<char>)
    ensures
        r@ == pkh_prefix(),
{
    let r = vec!['e', 'l', 'p', 'k', 'h', '('];
    assert(r@ =~= pkh_prefix());
    r
}

/// Whether every character of `s` has a place in the checksum alphabet.
pub open spec fn in_alphabet(s: Seq<char>) -> bool {
    forall|i: int| 0 <= i < s.len() ==> #[trigger] input_pos(s[i]) is Some
}

pub proof fn lemma_pkh_text_in_alphabet(key: Seq<u8>)
    ensures
        in_alphabet(pkh_text(key)),
        count_char(pkh_text(key), '#') == 0,
{
    let t = pkh_text(key);
    let h = hex_encode(key);
    assert forall|i: int| 0 <= i < t.len() implies #[trigger] input_pos(t[i]) is Some && t[i] != '#' by {
        if 6 <= i < 6 + h.len() {
            assert(t[i] == h[i - 6]);
            let j = i - 6;
            if j % 2 == 0 {
                lemma_hex_digit(key[j / 2] / 16);
            } else {
                lemma_hex_digit(key[j / 2] % 16);
            }
        }
    }
    lemma_count_none(t, '#');
}

/// A pay-to-pubkey-hash descriptor.
#[derive(Clone, Debug, PartialEq, Eq)]
pub struct Pkh {
    pk: PublicKey,
}

impl View for Pkh {
    type V = Seq<u8>;

    closed spec fn view(&self) -> Seq<u8> {
        self.pk@
    }
}

impl Pkh {
    /// Asks the predicate of the key.
    pub fn for_each_key<F: Fn(&Vec<u8>) -> bool>(&self, pred: &F) -> (r: bool)
        requires
            forall|k: Vec<u8>| #[trigger] call_requires(*pred, (&k,)),
        ensures
            exists|k: Vec<u8>| k@ == self@ && #[trigger] call_ensures(*pred, (&k,), r),
    {
        let k = self.pk.to_bytes();
        pred(&k)
    }

    /// Whether the key is one that decodes; every descriptor built here
    /// holds one.
    pub open spec fn valid(&self) -> bool {
        full_key_valid(self@) && (self@.len() == 33 || self@.len() == 65)
    }

    pub fn new(pk: PublicKey) -> (r: Pkh)
        ensures
            r@ == pk@,
    {
        Pkh { pk }
    }

    pub fn as_inner(&self) -> (r: &PublicKey)
        ensures
            r@ == self@,
    {
        &self.pk
    }

    pub fn into_inner(self) -> (r: PublicKey)
        ensures
            r@ == self@,
    {
        self.pk
    }

    /// The output script: `DUP HASH160 <hash160(key)> EQUALVERIFY CHECKSIG`.
    pub fn spk(&self) -> (r: Vec<u8>)
        ensures
            r@ == p2pkh_script(hash160_of(self@)),
    {
        let h = hash160(self.pk.as_bytes());
        new_p2pkh(h.as_slice())
    }

    pub fn script_pubkey(&self) -> (r: Vec<u8>)
        ensures
            r@ == p2pkh_script(hash160_of(self@)),
    {
        self.spk()
    }

    /// The script that signatures are checked by: the output script itself.
    pub fn inner_script(&self) -> (r: Vec<u8>)
        ensures
            r@ == p2pkh_script(hash160_of(self@)),
    {
        self.spk()
    }

    pub fn explicit_script(&self) -> (r: Vec<u8>)
        ensures
            r@ == p2pkh_script(hash160_of(self@)),
    {
        self.spk()
    }

    /// The script code signatures commit to: the output script itself.
    pub fn ecdsa_sighash_script_code(&self) -> (r: Vec<u8>)
        ensures
            r@ == p2pkh_script(hash160_of(self@)),
    {
        self.spk()
    }

    pub fn script_code(&self) -> (r: Vec<u8>)
        ensures
            r@ == p2pkh_script(hash160_of(self@)),
    {
        self.spk()
    }

    /// The unlocking script of an unsigned spend: empty.
    pub fn unsigned_script_sig(&self) -> (r: Vec<u8>)
        ensures
            r@.len() == 0,
    {
        Vec::new()
    }

    /// The key's pay-to-pubkey-hash address in Bitcoin's format.
    pub fn addr(&self, network: Network) -> (r: String)
        ensures
            r@ == bitcoin_p2pkh_address_of(self@, network),
    {
        bitcoin_p2pkh_address(self.pk.as_bytes(), network)
    }

    /// The address of the output on the given chain.
    pub fn address(&self, params: AddressParams) -> (r: String)
        ensures
            r@ == p2pkh_address_of(self@, params),
    {
        p2pkh_address(self.pk.as_bytes(), params)
    }

    /// A key-only descriptor has nothing to check.
    pub fn sanity_check(&self) -> (r: Result<(), Error>)
        ensures
            r is Ok,
    {
        Ok(())
    }

    /// The witness and unlocking script that spend the output, given the
    /// signature found for the key, if one was: an empty witness and
    /// `<sig> <key>`.
    pub fn get_satisfaction(&self, sig: Option<Vec<u8>>) -> (r: Result<(Vec<Vec<u8>>, Vec<u8>), Error>)
        requires
            sig matches Some(s) ==> s@.len() < 0x1_0000_0000,
        ensures
            sig is None ==> r == Err::<(Vec<Vec<u8>>, Vec<u8>), Error>(Error::MissingSig),
            sig matches Some(s) ==> (r matches Ok((w, ss)) && w@.len() == 0 && ss@ == pkh_script_sig(s@, self@)),
    {
        match sig {
            None => Err(Error::MissingSig),
            Some(s) => {
                let mut script_sig: Vec<u8> = Vec::new();
                push_slice(&mut script_sig, s.as_slice());
                let key = self.pk.as_bytes();
                push_slice(&mut script_sig, key);
                assert(script_sig@ =~= pkh_script_sig(s@, self@));
                Ok((Vec::new(), script_sig))
            },
        }
    }

    /// The same as `get_satisfaction`: a key spend has no malleable form.
    pub fn get_satisfaction_mall(&self, sig: Option<Vec<u8>>) -> (r: Result<(Vec<Vec<u8>>, Vec<u8>), Error>)
        requires
            sig matches Some(s) ==> s@.len() < 0x1_0000_0000,
        ensures
            sig is None ==> r == Err::<(Vec<Vec<u8>>, Vec<u8>), Error>(Error::MissingSig),
            sig matches Some(s) ==> (r matches Ok((w, ss)) && w@.len() == 0 && ss@ == pkh_script_sig(s@, self@)),
    {
        self.get_satisfaction(sig)
    }

    pub fn max_satisfaction_weight(&self) -> (r: usize)
        ensures
            r == pkh_max_weight(self@.len()),
    {
        if self.pk.is_compressed() {
            4 * (1 + 73 + 34)
        } else {
            4 * (1 + 73 + 66)
        }
    }

    /// The descriptor text without its checksum.
    fn text(&self) -> (r: Vec<char>)
        ensures
            r@ == pkh_text(self@),
    {
        let mut out = pkh_prefix_chars();
        let k = self.pk.to_chars();
        push_chars(&mut out, k.as_slice());
        out.push(')');
        assert(out@ =~= pkh_text(self@));
        out
    }

    /// The descriptor string: `elpkh(<key>)#<checksum>`.
    pub fn to_string(&self) -> (r: String)
        ensures
            r@ == with_checksum(pkh_text(self@)),
    {
        proof {
            lemma_pkh_text_in_alphabet(self@);
            lemma_checksum_exists(pkh_text(self@));
        }
        let t = self.text();
        match add_checksum(t) {
            Ok(v) => string_of(v.as_slice()),
            Err(_) => {
                assert(false);
                String::new()
            },
        }
    }

    /// Reads a descriptor string `pkh(<key>)#<checksum>`, with or without
    /// the `el` namespace.
    pub fn from_str(s: &str) -> (r: Result<Pkh, Error>)
        ensures
            r matches Ok(p) ==> spec_pkh_from_str(s@) == Ok::<Seq<u8>, ErrorView>(p@) && p.valid(),
            r matches Err(e) ==> spec_pkh_from_str(s@) == Err::<Seq<u8>, ErrorView>(e@),
    {
        let chars = chars_of(s);
        let d = match verify_checksum(chars.as_slice()) {
            Err(e) => return Err(e),
            Ok(d) => d,
        };
        match single_arg(d.as_slice(), "pkh") {
            Err(e) => Err(e),
            Ok(k) => match PublicKey::from_chars(k.as_slice()) {
                None => Err(Error::BadKey),
                Some(pk) => Ok(Pkh { pk }),
            },
        }
    }
}

pub proof fn lemma_pkh_text_facts(key: Seq<u8>)
    ensures
        spec_desc_checksum(pkh_text(key)) is Some,
        count_char(pkh_text(key), '#') == 0,
{
    lemma_pkh_text_in_alphabet(key);
    lemma_checksum_exists(pkh_text(key));
}

pub proof fn lemma_count_positive(s: Seq<char>, c: char, i: int)
    requires
        0 <= i < s.len(),
        s[i] == c,
    ensures
        count_char(s, c) >= 1,
    decreases s.len(),
{
    if i < s.len() - 1 {
        lemma_count_positive(s.drop_last(), c, i);
    }
}

pub proof fn lemma_count_update(t: Seq<char>, i: int, c: char, h: char)
    requires
        count_char(t, h) == 0,
        0 <= i < t.len(),
        c != h,
    ensures
        count_char(t.update(i, c), h) == 0,
{
    lemma_count_zero(t, h);
    lemma_count_none(t.update(i, c), h);
}

pub proof fn lemma_first_index_prefix(m: Seq<char>, s: Seq<char>, n: int)
    requires
        0 <= n < m.len(),
        n < s.len(),
        m.subrange(0, n + 1) == s.subrange(0, n + 1),
        count_char(s.subrange(0, n), '#') == 0,
        s[n] == '#',
    ensures
        first_index(m, '#') == n,
{
    assert(m.subrange(0, n) =~= m.subrange(0, n + 1).subrange(0, n));
    assert(s.subrange(0, n) =~= s.subrange(0, n + 1).subrange(0, n));
    assert(m[n] == m.subrange(0, n + 1)[n]);
    assert(s[n] == s.subrange(0, n + 1)[n]);
    lemma_count_first(m, '#', n);
}

/// Hexadecimal text holds only digits and the letters `a` to `f`.
pub proof fn lemma_hex_has_no(key: Seq<u8>, c: char)
    requires
        !('0' <= c <= '9'),
        !('a' <= c <= 'f'),
    ensures
        count_char(hex_encode(key), c) == 0,
{
    let h = hex_encode(key);
    assert forall|j: int| 0 <= j < h.len() implies h[j] != c by {
        if j % 2 == 0 {
            lemma_hex_digit(key[j / 2] / 16);
        } else {
            lemma_hex_digit(key[j / 2] % 16);
        }
    }
    lemma_count_none(h, c);
}

/// The argument of a top node `what`, with or without the `el` namespace,
/// that takes exactly one; the error names the node otherwise.
pub open spec fn spec_single_arg(d: Seq<char>, what: Seq<char>) -> Result<Seq<char>, ErrorView> {
    let name = top_name(d);
    let n = spec_top_arity(d);
    if strip_namespace(name) == what && n == 1 && d.last() == ')' {
        Ok(d.subrange(name.len() as int + 1, d.len() - 1))
    } else {
        Err(ErrorView::Unexpected(unexpected_message(name, n, what)))
    }
}

/// The argument of a top node `what` of one argument.
pub fn single_arg(d: &[char], what: &str) -> (r: Result<Vec<char>, Error>)
    ensures
        r matches Ok(a) ==> spec_single_arg(d@, what@) == Ok::<Seq<char>, ErrorView>(a@),
        r matches Err(e) ==> spec_single_arg(d@, what@) == Err::<Seq<char>, ErrorView>(e@),
{
    let (name, n) = top_node(d);
    let bare = strip_namespace_exec(name.as_slice());
    let w = chars_of(what);
    let len = d.len();
    proof {
        lemma_first_index_bound(d@, '(');
        assert(bare@.subrange(0, bare@.len() as int) =~= bare@);
    }
    if chars_eq(bare.as_slice(), 0, bare.len(), w.as_slice()) && n == 1 && d[len - 1] == ')' {
        assert(first_index(d@, '(') < d@.len());
        Ok(chars_slice(d, name.len() + 1, len - 1))
    } else {
        Err(unexpected(name.as_slice(), n, what))
    }
}

} // verus!
