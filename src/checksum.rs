//! The descriptor checksum: an eight-character BCH code over the descriptor
//! text, appended after a `#`.

use vstd::prelude::*;

verus! {

/// The position of a character in the checksum input alphabet
/// `0123456789()[],'/*abcdefgh@:$%{}IJKLMNOPQRSTUVWXYZ&+-.;<=>?!^_|~ijklmnopqrstuvwxyzABCDEFGH`#"\ `,
/// which holds every printable ASCII character.
pub open spec fn input_pos(c: char) -> Option<u64> {
    if '0' <= c && c <= '9' {
        Some(((c as u64) - ('0' as u64)) as u64)
    } else if c == '(' {
        Some(10)
    } else if c == ')' {
        Some(11)
    } else if c == '[' {
        Some(12)
    } else if c == ']' {
        Some(13)
    } else if c == ',' {
        Some(14)
    } else if c == '\'' {
        Some(15)
    } else if c == '/' {
        Some(16)
    } else if c == '*' {
        Some(17)
    } else if 'a' <= c && c <= 'h' {
        Some(((c as u64) - ('a' as u64) + 18) as u64)
    } else if c == '@' {
        Some(26)
    } else if c == ':' {
        Some(27)
    } else if c == '$' {
        Some(28)
    } else if c == '%' {
        Some(29)
    } else if c == '{' {
        Some(30)
    } else if c == '}' {
        Some(31)
    } else if 'I' <= c && c <= 'Z' {
        Some(((c as u64) - ('I' as u64) + 32) as u64)
    } else if c == '&' {
        Some(50)
    } else if c == '+' {
        Some(51)
    } else if c == '-' {
        Some(52)
    } else if c == '.' {
        Some(53)
    } else if c == ';' {
        Some(54)
    } else if c == '<' {
        Some(55)
    } else if c == '=' {
        Some(56)
    } else if c == '>' {
        Some(57)
    } else if c == '?' {
        Some(58)
    } else if c == '!' {
        Some(59)
    } else if c == '^' {
        Some(60)
    } else if c == '_' {
        Some(61)
    } else if c == '|' {
        Some(62)
    } else if c == '~' {
        Some(63)
    } else if 'i' <= c && c <= 'z' {
        Some(((c as u64) - ('i' as u64) + 64) as u64)
    } else if 'A' <= c && c <= 'H' {
        Some(((c as u64) - ('A' as u64) + 82) as u64)
    } else if c == '`' {
        Some(90)
    } else if c == '#' {
        Some(91)
    } else if c == '"' {
        Some(92)
    } else if c == '\\' {
        Some(93)
    } else if c == ' ' {
        Some(94)
    } else {
        None
    }
}

/// The character for a five-bit value in the checksum alphabet
/// `qpzry9x8gf2tvdw0s3jn54khce6mua7l`.
pub open spec fn checksum_char(v: u64) -> char {
    let t = seq![
        'q', 'p', 'z', 'r', 'y', '9', 'x', '8', 'g', 'f', '2', 't', 'v', 'd', 'w', '0',
        's', '3', 'j', 'n', '5', '4', 'k', 'h', 'c', 'e', '6', 'm', 'u', 'a', '7', 'l',
    ];
    t[(v % 32) as int]
}

/// One step of the BCH generator over GF(32).
pub open spec fn poly_mod(c: u64, val: u64) -> u64 {
    let c0 = c >> 35u64;
    let c1 = ((c & 0x7ffffffffu64) << 5u64) ^ val;
    let c2 = if c0 & 1 != 0 { c1 ^ 0xf5dee51989u64 } else { c1 };
    let c3 = if c0 & 2 != 0 { c2 ^ 0xa9fdca3312u64 } else { c2 };
    let c4 = if c0 & 4 != 0 { c3 ^ 0x1bab10e32du64 } else { c3 };
    let c5 = if c0 & 8 != 0 { c4 ^ 0x3706b1677au64 } else { c4 };
    if c0 & 16 != 0 { c5 ^ 0x644d626ffdu64 } else { c5 }
}

/// The checksum engine's state after reading `s`: the polynomial, the
/// pending group of high bits, and how many characters that group holds; or
/// nothing when `s` has a character outside the input alphabet.
pub open spec fn engine_state(s: Seq<char>) -> Option<(u64, u64, u64)>
    decreases s.len(),
{
    if s.len() == 0 {
        Some((1, 0, 0))
    } else {
        match engine_state(s.drop_last()) {
            None => None,
            Some((c, cls, count)) => match input_pos(s.last()) {
                None => None,
                Some(pos) => {
                    let c1 = poly_mod(c, pos & 31);
                    let cls1 = (cls * 3 + (pos >> 5u64)) as u64;
                    if count + 1 == 3 {
                        Some((poly_mod(c1, cls1), 0, 0))
                    } else {
                        Some((c1, cls1, (count + 1) as u64))
                    }
                },
            },
        }
    }
}

/// `poly_mod` with a zero value, `k` times.
pub open spec fn pad_zeros(c: u64, k: nat) -> u64
    decreases k,
{
    if k == 0 {
        c
    } else {
        pad_zeros(poly_mod(c, 0), (k - 1) as nat)
    }
}

/// The final value of the checksum polynomial for a text.
pub open spec fn checksum_value(c: u64, cls: u64, count: u64) -> u64 {
    let c1 = if count > 0 { poly_mod(c, cls) } else { c };
    pad_zeros(c1, 8) ^ 1
}

/// The eight checksum characters of a descriptor text, or nothing when the
/// text has a character outside the input alphabet.
pub open spec fn spec_desc_checksum(s: Seq<char>) -> Option<Seq<char>> {
    match engine_state(s) {
        None => None,
        Some((c, cls, count)) => {
            let v = checksum_value(c, cls, count);
            Some(Seq::new(8, |j: int| checksum_char((v >> ((5 * (7 - j)) as u64)) & 31)))
        },
    }
}

fn input_pos_exec(c: char) -> (r: Option<u64>)
    ensures
        r == input_pos(c),
{
    if '0' <= c && c <= '9' {
        Some((c as u64) - ('0' as u64))
    } else if c == '(' {
        Some(10)
    } else if c == ')' {
        Some(11)
    } else if c == '[' {
        Some(12)
    } else if c == ']' {
        Some(13)
    } else if c == ',' {
        Some(14)
    } else if c == '\'' {
        Some(15)
    } else if c == '/' {
        Some(16)
    } else if c == '*' {
        Some(17)
    } else if 'a' <= c && c <= 'h' {
        Some((c as u64) - ('a' as u64) + 18)
    } else if c == '@' {
        Some(26)
    } else if c == ':' {
        Some(27)
    } else if c == '$' {
        Some(28)
    } else if c == '%' {
        Some(29)
    } else if c == '{' {
        Some(30)
    } else if c == '}' {
        Some(31)
    } else if 'I' <= c && c <= 'Z' {
        Some((c as u64) - ('I' as u64) + 32)
    } else if c == '&' {
        Some(50)
    } else if c == '+' {
        Some(51)
    } else if c == '-' {
        Some(52)
    } else if c == '.' {
        Some(53)
    } else if c == ';' {
        Some(54)
    } else if c == '<' {
        Some(55)
    } else if c == '=' {
        Some(56)
    } else if c == '>' {
        Some(57)
    } else if c == '?' {
        Some(58)
    } else if c == '!' {
        Some(59)
    } else if c == '^' {
        Some(60)
    } else if c == '_' {
        Some(61)
    } else if c == '|' {
        Some(62)
    } else if c == '~' {
        Some(63)
    } else if 'i' <= c && c <= 'z' {
        Some((c as u64) - ('i' as u64) + 64)
    } else if 'A' <= c && c <= 'H' {
        Some((c as u64) - ('A' as u64) + 82)
    } else if c == '`' {
        Some(90)
    } else if c == '#' {
        Some(91)
    } else if c == '"' {
        Some(92)
    } else if c == '\\' {
        Some(93)
    } else if c == ' ' {
        Some(94)
    } else {
        None
    }
}

fn checksum_char_exec(v: u64) -> (r: char)
    ensures
        r == checksum_char(v),
{
    let t: [char; 32] = [
        'q', 'p', 'z', 'r', 'y', '9', 'x', '8', 'g', 'f', '2', 't', 'v', 'd', 'w', '0',
        's', '3', 'j', 'n', '5', '4', 'k', 'h', 'c', 'e', '6', 'm', 'u', 'a', '7', 'l',
    ];
    assert(t@ =~= seq![
        'q', 'p', 'z', 'r', 'y', '9', 'x', '8', 'g', 'f', '2', 't', 'v', 'd', 'w', '0',
        's', '3', 'j', 'n', '5', '4', 'k', 'h', 'c', 'e', '6', 'm', 'u', 'a', '7', 'l',
    ]);
    t[(v % 32) as usize]
}

fn poly_mod_exec(c: u64, val: u64) -> (r: u64)
    ensures
        r == poly_mod(c, val),
{
    let c0 = c >> 35u64;
    let mut c1 = ((c & 0x7ffffffffu64) << 5u64) ^ val;
    if c0 & 1 != 0 {
        c1 = c1 ^ 0xf5dee51989u64;
    }
    if c0 & 2 != 0 {
        c1 = c1 ^ 0xa9fdca3312u64;
    }
    if c0 & 4 != 0 {
        c1 = c1 ^ 0x1bab10e32du64;
    }
    if c0 & 8 != 0 {
        c1 = c1 ^ 0x3706b1677au64;
    }
    if c0 & 16 != 0 {
        c1 = c1 ^ 0x644d626ffdu64;
    }
    c1
}

/// The eight checksum characters of a descriptor text, or `None` when the
/// text has a character outside the input alphabet.
pub fn desc_checksum(s: &[char]) -> (r: Option<Vec<char>>)
    ensures
        r matches Some(v) ==> spec_desc_checksum(s@) == Some(v@),
        r is None ==> spec_desc_checksum(s@) is None,
{
    let mut c: u64 = 1;
    let mut cls: u64 = 0;
    let mut count: u64 = 0;
    let mut i: usize = 0;
    while i < s.len()
        invariant
            0 <= i <= s@.len(),
            engine_state(s@.subrange(0, i as int)) == Some((c, cls, count)),
            count < 3,
            count == 0 ==> cls == 0,
            count == 1 ==> cls < 3,
            count == 2 ==> cls < 9,
        decreases s@.len() - i,
    {
        let ghost prefix = s@.subrange(0, i as int);
        assert(s@.subrange(0, i + 1).drop_last() =~= prefix);
        let pos = match input_pos_exec(s[i]) {
            None => {
                proof {
                    lemma_engine_fails_after(s@, i as int);
                }
                return None;
            },
            Some(p) => p,
        };
        assert(pos < 95);
        assert(pos >> 5u64 <= 2) by (bit_vector)
            requires
                pos < 95,
        ;
        c = poly_mod_exec(c, pos & 31);
        cls = cls * 3 + (pos >> 5u64);
        count = count + 1;
        if count == 3 {
            c = poly_mod_exec(c, cls);
            cls = 0;
            count = 0;
        }
        i = i + 1;
    }
    assert(s@.subrange(0, i as int) =~= s@);
    if count > 0 {
        c = poly_mod_exec(c, cls);
    }
    let mut k: usize = 0;
    while k < 8
        invariant
            0 <= k <= 8,
            pad_zeros(c, (8 - k) as nat) == checksum_value_before_xor(s@),
        decreases 8 - k,
    {
        c = poly_mod_exec(c, 0);
        k = k + 1;
    }
    c = c ^ 1;
    let mut out: Vec<char> = Vec::new();
    let mut j: usize = 0;
    while j < 8
        invariant
            0 <= j <= 8,
            c == final_value(s@),
            out@ =~= Seq::new(j as nat, |x: int| checksum_char((c >> ((5 * (7 - x)) as u64)) & 31)),
        decreases 8 - j,
    {
        let shift: u64 = 5 * (7 - j as u64);
        out.push(checksum_char_exec((c >> shift) & 31));
        j = j + 1;
    }
    Some(out)
}

/// The final checksum polynomial of a text.
pub open spec fn final_value(s: Seq<char>) -> u64 {
    match engine_state(s) {
        None => 0,
        Some((c, cls, count)) => checksum_value(c, cls, count),
    }
}

/// The checksum polynomial of a text before the final flip of its low bit.
pub open spec fn checksum_value_before_xor(s: Seq<char>) -> u64 {
    match engine_state(s) {
        None => 0,
        Some((c, cls, count)) => pad_zeros(if count > 0 { poly_mod(c, cls) } else { c }, 8),
    }
}

proof fn lemma_engine_fails_after(s: Seq<char>, i: int)
    requires
        0 <= i < s.len(),
        input_pos(s[i]) is None,
    ensures
        engine_state(s) is None,
    decreases s.len(),
{
    if i == s.len() - 1 {
    } else {
        lemma_engine_fails_after(s.drop_last(), i);
    }
}

/// A text whose characters are all in the input alphabet has a checksum.
pub proof fn lemma_checksum_exists(s: Seq<char>)
    requires
        forall|i: int| 0 <= i < s.len() ==> #[trigger] input_pos(s[i]) is Some,
    ensures
        engine_state(s) is Some,
        spec_desc_checksum(s) is Some,
    decreases s.len(),
{
    if s.len() > 0 {
        let p = s.drop_last();
        assert forall|i: int| 0 <= i < p.len() implies #[trigger] input_pos(p[i]) is Some by {
            assert(p[i] == s[i]);
        }
        lemma_checksum_exists(p);
        assert(input_pos(s[s.len() - 1]) is Some);
    }
}

} // verus!
