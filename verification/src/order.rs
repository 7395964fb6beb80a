//! The order of schema names: byte by byte over their UTF-8 encoding, a
//! table without a schema before every named one.

use vstd::prelude::*;
use vstd::string::*;
use vstd::utf8::*;

verus! {

/// Whether `a` comes strictly before `b`, comparing byte by byte; a proper
/// prefix comes before what it is a prefix of.
pub open spec fn bytes_less(a: Seq<u8>, b: Seq<u8>) -> bool
    decreases a.len(),
{
    if b.len() == 0 {
        false
    } else if a.len() == 0 {
        true
    } else if a[0] != b[0] {
        a[0] < b[0]
    } else {
        bytes_less(a.drop_first(), b.drop_first())
    }
}

/// Whether the name `a` comes strictly before the name `b`.
pub open spec fn name_less(a: Seq<char>, b: Seq<char>) -> bool {
    bytes_less(encode_utf8(a), encode_utf8(b))
}

/// Whether the optional schema name `a` comes strictly before `b`.
pub open spec fn schema_less(a: Option<Seq<char>>, b: Option<Seq<char>>) -> bool {
    match (a, b) {
        (None, Some(_)) => true,
        (Some(x), Some(y)) => name_less(x, y),
        _ => false,
    }
}

/// No byte string comes before itself.
pub proof fn lemma_bytes_less_irreflexive(a: Seq<u8>)
    ensures
        !bytes_less(a, a),
    decreases a.len(),
{
    if a.len() > 0 {
        lemma_bytes_less_irreflexive(a.drop_first());
    }
}

/// Of two byte strings exactly one holds: the first comes before the second,
/// the second before the first, or they are equal.
pub proof fn lemma_bytes_less_total(a: Seq<u8>, b: Seq<u8>)
    ensures
        bytes_less(a, b) || bytes_less(b, a) || a == b,
        !(bytes_less(a, b) && bytes_less(b, a)),
    decreases a.len(),
{
    if a.len() == 0 || b.len() == 0 {
        assert(a.len() == 0 && b.len() == 0 ==> a =~= b);
    } else if a[0] == b[0] {
        lemma_bytes_less_total(a.drop_first(), b.drop_first());
        if a.drop_first() == b.drop_first() {
            assert(a =~= seq![a[0]] + a.drop_first());
            assert(b =~= seq![b[0]] + b.drop_first());
        }
    }
}

/// Of two optional schema names exactly one holds: the first comes before
/// the second, the second before the first, or they are equal.
pub proof fn lemma_schema_less_total(a: Option<Seq<char>>, b: Option<Seq<char>>)
    ensures
        schema_less(a, b) || schema_less(b, a) || a == b,
        !(schema_less(a, b) && schema_less(b, a)),
        !schema_less(a, a),
{
    match (a, b) {
        (Some(x), Some(y)) => {
            lemma_bytes_less_total(encode_utf8(x), encode_utf8(y));
            if encode_utf8(x) == encode_utf8(y) {
                encode_utf8_decode_utf8(x);
                encode_utf8_decode_utf8(y);
            }
        },
        _ => {},
    }
    match a {
        Some(x) => {
            lemma_bytes_less_irreflexive(encode_utf8(x));
        },
        None => {},
    }
}

proof fn lemma_bytes_less_step(a: Seq<u8>, b: Seq<u8>, i: int)
    requires
        0 <= i < a.len(),
        i < b.len(),
        a[i] == b[i],
    ensures
        bytes_less(a.skip(i), b.skip(i)) == bytes_less(a.skip(i + 1), b.skip(i + 1)),
{
    assert(a.skip(i).drop_first() =~= a.skip(i + 1));
    assert(b.skip(i).drop_first() =~= b.skip(i + 1));
}

/// Whether the name `a` comes strictly before the name `b`.
pub fn name_precedes(a: &str, b: &str) -> (before: bool)
    ensures
        before == name_less(a@, b@),
{
    let x = a.as_bytes();
    let y = b.as_bytes();
    let mut i: usize = 0;
    assert(x@.skip(0) =~= x@);
    assert(y@.skip(0) =~= y@);
    while i < x.len() && i < y.len()
        invariant
            i <= x.len(),
            i <= y.len(),
            x@ == encode_utf8(a@),
            y@ == encode_utf8(b@),
            bytes_less(x@, y@) == bytes_less(x@.skip(i as int), y@.skip(i as int)),
        decreases x.len() - i,
    {
        if x[i] != y[i] {
            assert(x@.skip(i as int)[0] == x@[i as int]);
            assert(y@.skip(i as int)[0] == y@[i as int]);
            return x[i] < y[i];
        }
        proof {
            lemma_bytes_less_step(x@, y@, i as int);
        }
        i += 1;
    }
    i < y.len()
}

/// Whether the optional schema name `a` comes strictly before `b`.
pub fn schema_precedes(a: &Option<String>, b: &Option<String>) -> (before: bool)
    ensures
        before == schema_less(crate::tree::optional_text(*a), crate::tree::optional_text(*b)),
{
    match b {
        None => false,
        Some(y) => match a {
            None => true,
            Some(x) => name_precedes(x.as_str(), y.as_str()),
        },
    }
}

} // verus!
