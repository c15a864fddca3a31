//! The top node of a descriptor text: its name, with or without the `el`
//! namespace, and how many arguments it takes; and the error that names it
//! when it is not the node a descriptor expects.

use vstd::prelude::*;
use crate::descriptor::{first_index, Error, ErrorView};
use crate::text::{chars_eq, chars_of, chars_slice, push_chars, string_of};

verus! {

/// The name of the top node: the text before the first parenthesis.
pub open spec fn top_name(d: Seq<char>) -> Seq<char> {
    d.subrange(0, first_index(d, '('))
}

/// A name without the `el` namespace that marks Elements descriptors.
pub open spec fn strip_namespace(name: Seq<char>) -> Seq<char> {
    if name.len() >= 2 && name[0] == 'e' && name[1] == 'l' {
        name.subrange(2, name.len() as int)
    } else {
        name
    }
}

/// The decimal digits of a number.
pub open spec fn decimal(n: nat) -> Seq<char>
    decreases n,
{
    if n < 10 {
        seq![((n + 48) as u32) as char]
    } else {
        decimal(n / 10) + seq![((n % 10 + 48) as u32) as char]
    }
}

/// `<name>(<n> args) while parsing <what> descriptor`
pub open spec fn unexpected_message(name: Seq<char>, nargs: nat, what: Seq<char>) -> Seq<char> {
    name + "("@ + decimal(nargs) + " args) while parsing "@ + what + " descriptor"@
}

pub proof fn lemma_first_index_bound(s: Seq<char>, c: char)
    ensures
        0 <= first_index(s, c) <= s.len(),
        first_index(s, c) < s.len() ==> s[first_index(s, c)] == c,
    decreases s.len(),
{
    if s.len() > 0 && s[0] != c {
        let t = s.subrange(1, s.len() as int);
        lemma_first_index_bound(t, c);
        if first_index(t, c) < t.len() {
            assert(s[first_index(s, c)] == t[first_index(t, c)]);
        }
    }
}

/// A suffix without commas has none at depth one.
pub proof fn lemma_no_commas(d: Seq<char>, i: int, depth: int)
    requires
        forall|k: int| i <= k < d.len() ==> d[k] != ',',
    ensures
        commas_at_depth_one(d, i, depth) == 0,
    decreases d.len() - i,
{
    if 0 <= i < d.len() {
        let c = d[i];
        let next = if c == '(' {
            depth + 1
        } else if c == ')' {
            depth - 1
        } else {
            depth
        };
        lemma_no_commas(d, i + 1, next);
    }
}

/// The number of arguments of the top node of a descriptor text: one more
/// than the commas at parenthesis depth one, or none without a parenthesis.
pub open spec fn spec_top_arity(d: Seq<char>) -> nat {
    if first_index(d, '(') >= d.len() {
        0
    } else {
        1 + commas_at_depth_one(d, first_index(d, '(') + 1, 1)
    }
}

/// The commas at depth one in `d[i..]`, entered at parenthesis depth `depth`.
pub open spec fn commas_at_depth_one(d: Seq<char>, i: int, depth: int) -> nat
    decreases d.len() - i,
{
    if i < 0 || i >= d.len() {
        0
    } else {
        let c = d[i];
        let next = if c == '(' {
            depth + 1
        } else if c == ')' {
            depth - 1
        } else {
            depth
        };
        (if c == ',' && depth == 1 { 1nat } else { 0nat }) + commas_at_depth_one(d, i + 1, next)
    }
}

pub fn find_char(s: &[char], c: char) -> (r: usize)
    ensures
        r == first_index(s@, c),
        r <= s@.len(),
{
    let mut i: usize = 0;
    assert(s@.subrange(0, s@.len() as int) =~= s@);
    while i < s.len()
        invariant
            0 <= i <= s@.len(),
            first_index(s@, c) == i + first_index(s@.subrange(i as int, s@.len() as int), c),
        decreases s@.len() - i,
    {
        if s[i] == c {
            return i;
        }
        assert(s@.subrange(i as int, s@.len() as int).subrange(1, s@.len() - i) =~= s@.subrange(
            i + 1,
            s@.len() as int,
        ));
        i = i + 1;
    }
    i
}

pub fn top_arity(d: &[char]) -> (r: usize)
    ensures
        r == spec_top_arity(d@),
{
    let open = find_char(d, '(');
    if open >= d.len() {
        return 0;
    }
    let mut i: usize = open + 1;
    let mut depth: i128 = 1;
    let mut count: usize = 0;
    while i < d.len()
        invariant
            open < i <= d@.len(),
            first_index(d@, '(') == open,
            -(i as int) <= depth <= i as int,
            count + open + 1 <= i,
            count + commas_at_depth_one(d@, i as int, depth as int) == commas_at_depth_one(
                d@,
                open + 1,
                1,
            ),
        decreases d@.len() - i,
    {
        let c = d[i];
        if c == ',' && depth == 1 {
            count = count + 1;
        }
        if c == '(' {
            depth = depth + 1;
        } else if c == ')' {
            depth = depth - 1;
        }
        i = i + 1;
    }
    count + 1
}


fn push_decimal(out: &mut Vec<char>, n: usize)
    ensures
        final(out)@ == old(out)@ + decimal(n as nat),
    decreases n,
{
    if n >= 10 {
        push_decimal(out, n / 10);
    }
    let d = (n % 10) as u8;
    out.push((d + 48) as char);
}

/// The name of the top node of a descriptor text, and its arity.
pub fn top_node(d: &[char]) -> (r: (Vec<char>, usize))
    ensures
        r.0@ == top_name(d@),
        r.1 == spec_top_arity(d@),
{
    let open = find_char(d, '(');
    (chars_slice(d, 0, open), top_arity(d))
}

/// The name without the `el` namespace.
pub fn strip_namespace_exec(name: &[char]) -> (r: Vec<char>)
    ensures
        r@ == strip_namespace(name@),
{
    let n = name.len();
    if n >= 2 && name[0] == 'e' && name[1] == 'l' {
        chars_slice(name, 2, n)
    } else {
        assert(name@.subrange(0, n as int) =~= name@);
        chars_slice(name, 0, n)
    }
}

/// The error for a top node that is not the one a descriptor expects.
pub fn unexpected(name: &[char], nargs: usize, what: &str) -> (r: Error)
    ensures
        r@ == ErrorView::Unexpected(unexpected_message(name@, nargs as nat, what@)),
{
    let mut out: Vec<char> = Vec::new();
    push_chars(&mut out, name);
    let open = chars_of("(");
    push_chars(&mut out, open.as_slice());
    push_decimal(&mut out, nargs);
    let mid = chars_of(" args) while parsing ");
    push_chars(&mut out, mid.as_slice());
    let w = chars_of(what);
    push_chars(&mut out, w.as_slice());
    let tail = chars_of(" descriptor");
    push_chars(&mut out, tail.as_slice());
    assert(out@ =~= unexpected_message(name@, nargs as nat, what@));
    Error::Unexpected(string_of(out.as_slice()))
}

/// Whether a name is the given one.
pub fn names(base: &[char], what: &str) -> (r: bool)
    ensures
        r == (base@ == what@),
{
    let w = chars_of(what);
    assert(base@.subrange(0, base@.len() as int) =~= base@);
    chars_eq(base, 0, base.len(), w.as_slice())
}

/// The parts of a text `name(arg)` whose name holds no parenthesis: the top
/// name, the argument, and one argument where the argument holds no comma
/// at its top level.
pub proof fn lemma_node_parts(name: Seq<char>, arg: Seq<char>)
    requires
        forall|k: int| 0 <= k < name.len() ==> name[k] != '(',
    ensures
        first_index(name + seq!['('] + arg + seq![')'], '(') == name.len(),
        top_name(name + seq!['('] + arg + seq![')']) == name,
        (name + seq!['('] + arg + seq![')']).last() == ')',
        (name + seq!['('] + arg + seq![')']).subrange(name.len() as int + 1, name.len() + 1 + arg.len() as int) == arg,
        commas_at_depth_one(name + seq!['('] + arg + seq![')'], name.len() as int + 1, 1)
            == commas_at_depth_one(arg + seq![')'], 0, 1),
{
    let d = name + seq!['('] + arg + seq![')'];
    crate::descriptor::lemma_count_none(name, '(');
    assert(d.subrange(0, name.len() as int) =~= name);
    crate::descriptor::lemma_count_first(d, '(', name.len() as int);
    assert(d.subrange(name.len() as int + 1, name.len() + 1 + arg.len() as int) =~= arg);
    lemma_commas_shift(d, arg + seq![')'], name.len() as int + 1, 0, 1);
}

/// Counting commas in a suffix of a text is counting them in that suffix.
pub proof fn lemma_commas_shift(d: Seq<char>, t: Seq<char>, off: int, i: int, depth: int)
    requires
        0 <= off,
        0 <= i <= t.len(),
        off + t.len() == d.len(),
        forall|k: int| 0 <= k < t.len() ==> d[off + k] == t[k],
    ensures
        commas_at_depth_one(d, off + i, depth) == commas_at_depth_one(t, i, depth),
    decreases t.len() - i,
{
    if i < t.len() {
        let c = t[i];
        let next = if c == '(' {
            depth + 1
        } else if c == ')' {
            depth - 1
        } else {
            depth
        };
        lemma_commas_shift(d, t, off, i + 1, next);
    }
}

} // verus!
