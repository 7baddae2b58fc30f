//! Shared helpers for building binary blobs: appending byte slices to a
//! growing buffer and reasoning about concatenations of variable-length
//! records.

use vstd::prelude::*;

verus! {

/// Concatenation of the encodings of all elements of `s`, in order.
pub open spec fn spec_concat_map<T>(s: Seq<T>, f: spec_fn(T) -> Seq<u8>) -> Seq<u8>
    decreases s.len(),
{
    if s.len() == 0 {
        Seq::empty()
    } else {
        f(s[0]) + spec_concat_map(s.drop_first(), f)
    }
}

/// Appending one element extends the concatenation by that element's encoding.
pub proof fn lemma_concat_map_push<T>(s: Seq<T>, f: spec_fn(T) -> Seq<u8>, x: T)
    ensures
        spec_concat_map(s.push(x), f) == spec_concat_map(s, f) + f(x),
    decreases s.len(),
{
    if s.len() == 0 {
        assert(s.push(x)[0] == x);
        assert(s.push(x).drop_first() =~= s);
        assert(spec_concat_map(s.push(x), f) == f(x) + spec_concat_map(s, f));
        assert(f(x) + spec_concat_map(s, f) =~= spec_concat_map(s, f) + f(x));
    } else {
        assert(s.push(x)[0] == s[0]);
        assert(s.push(x).drop_first() =~= s.drop_first().push(x));
        lemma_concat_map_push(s.drop_first(), f, x);
        assert(spec_concat_map(s.push(x), f) == f(s[0]) + (spec_concat_map(s.drop_first(), f) + f(
            x,
        )));
        assert(f(s[0]) + (spec_concat_map(s.drop_first(), f) + f(x)) =~= (f(s[0])
            + spec_concat_map(s.drop_first(), f)) + f(x));
    }
}

/// Taking one more element extends the concatenation of a prefix by that
/// element's encoding.
pub proof fn lemma_concat_map_take<T>(s: Seq<T>, f: spec_fn(T) -> Seq<u8>, i: int)
    requires
        0 <= i < s.len(),
    ensures
        spec_concat_map(s.take(i + 1), f) == spec_concat_map(s.take(i), f) + f(s[i]),
{
    assert(s.take(i + 1) =~= s.take(i).push(s[i]));
    lemma_concat_map_push(s.take(i), f, s[i]);
}

/// Appends all bytes of `src` to `data`.
pub fn push_bytes(data: &mut Vec<u8>, src: &[u8])
    ensures
        final(data)@ == old(data)@ + src@,
{
    let ghost start = data@;
    for i in 0..src.len()
        invariant
            data@ == start + src@.take(i as int),
    {
        data.push(src[i]);
        proof {
            assert(src@.take(i + 1) =~= src@.take(i as int).push(src@[i as int]));
        }
    }
    proof {
        assert(src@.take(src@.len() as int) =~= src@);
    }
}

/// Big-endian bytes of a 32-bit value.
pub open spec fn spec_u32_to_be_bytes(x: u32) -> Seq<u8> {
    seq![(x >> 24) as u8, ((x >> 16) & 0xff) as u8, ((x >> 8) & 0xff) as u8, (x & 0xff) as u8]
}

/// Encodes a 32-bit value as four big-endian bytes.
pub fn u32_to_be_bytes(x: u32) -> (r: Vec<u8>)
    ensures
        r@ == spec_u32_to_be_bytes(x),
{
    proof {
        assert((x >> 24) < 256 && ((x >> 16) & 0xff) < 256 && ((x >> 8) & 0xff) < 256 && (x & 0xff)
            < 256) by (bit_vector);
    }
    let mut r: Vec<u8> = Vec::new();
    r.push((x >> 24) as u8);
    r.push(((x >> 16) & 0xff) as u8);
    r.push(((x >> 8) & 0xff) as u8);
    r.push((x & 0xff) as u8);
    proof {
        assert(r@ =~= spec_u32_to_be_bytes(x));
    }
    r
}

/// Whether two byte slices hold the same bytes.
pub fn bytes_eq(a: &[u8], b: &[u8]) -> (r: bool)
    ensures
        r == (a@ == b@),
{
    if a.len() != b.len() {
        proof {
            assert(a@.len() != b@.len());
        }
        return false;
    }
    for i in 0..a.len()
        invariant
            a@.len() == b@.len(),
            forall|j: int| 0 <= j < i ==> a@[j] == b@[j],
    {
        if a[i] != b[i] {
            return false;
        }
    }
    proof {
        assert(a@ =~= b@);
    }
    true
}

/// Number of zero bytes in `s`.
pub open spec fn spec_count_zeros(s: Seq<u8>) -> int
    decreases s.len(),
{
    if s.len() == 0 {
        0
    } else {
        (if s[0] == 0 { 1int } else { 0int }) + spec_count_zeros(s.drop_first())
    }
}

/// Zero counting distributes over concatenation.
pub proof fn lemma_count_zeros_concat(a: Seq<u8>, b: Seq<u8>)
    ensures
        spec_count_zeros(a + b) == spec_count_zeros(a) + spec_count_zeros(b),
    decreases a.len(),
{
    if a.len() == 0 {
        assert(a + b =~= b);
    } else {
        assert((a + b).drop_first() =~= a.drop_first() + b);
        lemma_count_zeros_concat(a.drop_first(), b);
    }
}

} // verus!
