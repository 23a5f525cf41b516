//! Verified helpers over byte slices: equality, concatenation, searching,
//! whitespace handling, splitting and trimming.  The spec functions here are
//! the vocabulary in which the codec's contracts are written.

use vstd::prelude::*;

verus! {

/// ASCII whitespace, as the request line tokenizer understands it.
pub open spec fn is_ws_b(b: u8) -> bool {
    b == 32 || b == 9 || b == 10 || b == 13 || b == 11 || b == 12
}

/// The predicate "this byte equals `sep`".
pub open spec fn byte_is(sep: u8) -> spec_fn(u8) -> bool {
    |b: u8| b == sep
}

/// The predicate "this byte is ASCII whitespace".
pub open spec fn ws_pred() -> spec_fn(u8) -> bool {
    |b: u8| is_ws_b(b)
}

/// The predicate "this byte is not ASCII whitespace".
pub open spec fn non_ws_pred() -> spec_fn(u8) -> bool {
    |b: u8| !is_ws_b(b)
}

/// Index of the first byte of `s` satisfying `p`, or `s.len()` if none does.
pub open spec fn first_match(s: Seq<u8>, p: spec_fn(u8) -> bool) -> int
    decreases s.len(),
{
    if s.len() == 0 {
        0
    } else if p(s[0]) {
        0
    } else {
        1 + first_match(s.drop_first(), p)
    }
}

/// `first_match` is in bounds, its byte satisfies `p`, and no earlier byte does.
pub proof fn lemma_first_match(s: Seq<u8>, p: spec_fn(u8) -> bool)
    ensures
        0 <= first_match(s, p) <= s.len(),
        first_match(s, p) < s.len() ==> p(s[first_match(s, p)]),
        forall|j: int| 0 <= j < first_match(s, p) ==> !p(s[j]),
    decreases s.len(),
{
    if s.len() == 0 {
    } else if p(s[0]) {
    } else {
        lemma_first_match(s.drop_first(), p);
        let r = first_match(s.drop_first(), p);
        assert forall|j: int| 0 <= j < 1 + r implies !p(s[j]) by {
            if j > 0 {
                assert(s[j] == s.drop_first()[j - 1]);
            }
        }
    }
}

/// The characterization the loops use: an index with `p` at it and nothing
/// matching before it is exactly `first_match`.
pub proof fn lemma_first_match_is(s: Seq<u8>, p: spec_fn(u8) -> bool, i: int)
    requires
        0 <= i <= s.len(),
        i < s.len() ==> p(s[i]),
        forall|j: int| 0 <= j < i ==> !p(s[j]),
        i == s.len() ==> forall|j: int| 0 <= j < s.len() ==> !p(s[j]),
    ensures
        first_match(s, p) == i,
{
    lemma_first_match(s, p);
    let r = first_match(s, p);
    if r < i {
        assert(!p(s[r]));
    }
    if i < r {
        assert(!p(s[i]));
    }
}

/// Byte-for-byte equality of two slices.
pub fn bytes_eq(a: &[u8], b: &[u8]) -> (r: bool)
    ensures
        r <==> a@ == b@,
{
    if a.len() != b.len() {
        assert(a@.len() != b@.len());
        return false;
    }
    let mut i: usize = 0;
    while i < a.len()
        invariant
            i <= a@.len(),
            a@.len() == b@.len(),
            forall|j: int| 0 <= j < i ==> a@[j] == b@[j],
        decreases a@.len() - i,
    {
        if a[i] != b[i] {
            return false;
        }
        i = i + 1;
    }
    proof {
        assert(a@ =~= b@);
    }
    true
}

/// Appends all of `src` to `dst`.
pub fn push_all(dst: &mut Vec<u8>, src: &[u8])
    ensures
        final(dst)@ == old(dst)@ + src@,
{
    let mut i: usize = 0;
    while i < src.len()
        invariant
            i <= src@.len(),
            dst@ == old(dst)@ + src@.take(i as int),
        decreases src@.len() - i,
    {
        dst.push(src[i]);
        proof {
            assert(old(dst)@ + src@.take(i as int) + seq![src@[i as int]] =~= old(dst)@
                + src@.take(i + 1));
        }
        i = i + 1;
    }
    proof {
        assert(old(dst)@ + src@.take(src@.len() as int) =~= old(dst)@ + src@);
    }
}

/// Copies a slice into a fresh vector.
pub fn to_vec(src: &[u8]) -> (r: Vec<u8>)
    ensures
        r@ == src@,
{
    let mut v: Vec<u8> = Vec::new();
    push_all(&mut v, src);
    proof {
        assert(Seq::<u8>::empty() + src@ =~= src@);
    }
    v
}

/// First occurrence of `sep` in `s`, or `s.len()` if there is none.
pub fn find_byte(s: &[u8], sep: u8) -> (r: usize)
    ensures
        r == first_match(s@, byte_is(sep)),
        r <= s@.len(),
        r < s@.len() ==> s@[r as int] == sep,
        forall|j: int| 0 <= j < r ==> s@[j] != sep,
{
    let mut i: usize = 0;
    while i < s.len()
        invariant
            i <= s@.len(),
            forall|j: int| 0 <= j < i ==> s@[j] != sep,
        decreases s@.len() - i,
    {
        if s[i] == sep {
            proof {
                lemma_first_match_is(s@, byte_is(sep), i as int);
            }
            return i;
        }
        i = i + 1;
    }
    proof {
        lemma_first_match_is(s@, byte_is(sep), s@.len() as int);
    }
    i
}

/// Whether a byte is ASCII whitespace.
pub fn is_ws(b: u8) -> (r: bool)
    ensures
        r == is_ws_b(b),
{
    b == 32 || b == 9 || b == 10 || b == 13 || b == 11 || b == 12
}

/// First whitespace byte of `s`, or `s.len()`.
pub fn find_ws(s: &[u8]) -> (r: usize)
    ensures
        r == first_match(s@, ws_pred()),
        r <= s@.len(),
        r < s@.len() ==> is_ws_b(s@[r as int]),
        forall|j: int| 0 <= j < r ==> !is_ws_b(s@[j]),
{
    let mut i: usize = 0;
    while i < s.len()
        invariant
            i <= s@.len(),
            forall|j: int| 0 <= j < i ==> !is_ws_b(s@[j]),
        decreases s@.len() - i,
    {
        if is_ws(s[i]) {
            proof {
                lemma_first_match_is(s@, ws_pred(), i as int);
            }
            return i;
        }
        i = i + 1;
    }
    proof {
        lemma_first_match_is(s@, ws_pred(), s@.len() as int);
    }
    i
}

/// First non-whitespace byte of `s`, or `s.len()`.
pub fn find_non_ws(s: &[u8]) -> (r: usize)
    ensures
        r == first_match(s@, non_ws_pred()),
        r <= s@.len(),
        r < s@.len() ==> !is_ws_b(s@[r as int]),
        forall|j: int| 0 <= j < r ==> is_ws_b(s@[j]),
{
    let mut i: usize = 0;
    while i < s.len()
        invariant
            i <= s@.len(),
            forall|j: int| 0 <= j < i ==> is_ws_b(s@[j]),
        decreases s@.len() - i,
    {
        if !is_ws(s[i]) {
            proof {
                lemma_first_match_is(s@, non_ws_pred(), i as int);
            }
            return i;
        }
        i = i + 1;
    }
    proof {
        lemma_first_match_is(s@, non_ws_pred(), s@.len() as int);
    }
    i
}

/// `s` split at every occurrence of `sep`; separators are dropped, empty
/// pieces are kept, and the result always has at least one piece.
pub open spec fn split_bytes(s: Seq<u8>, sep: u8) -> Seq<Seq<u8>>
    decreases s.len(),
    via split_bytes_decreases
{
    let i = first_match(s, byte_is(sep));
    if i == s.len() {
        seq![s]
    } else {
        seq![s.take(i)] + split_bytes(s.skip(i + 1), sep)
    }
}

#[via_fn]
proof fn split_bytes_decreases(s: Seq<u8>, sep: u8) {
    lemma_first_match(s, byte_is(sep));
}

/// Splits a slice at every occurrence of `sep`, as `split_bytes` describes.
pub fn split_all(s: &[u8], sep: u8) -> (r: Vec<Vec<u8>>)
    ensures
        r@.len() == split_bytes(s@, sep).len(),
        forall|k: int| 0 <= k < r@.len() ==> r@[k]@ == split_bytes(s@, sep)[k],
    decreases s@.len(),
{
    let ghost p = byte_is(sep);
    let i = find_byte(s, sep);
    proof {
        lemma_first_match(s@, p);
    }
    if i == s.len() {
        let mut r: Vec<Vec<u8>> = Vec::new();
        r.push(to_vec(s));
        r
    } else {
        let tail = &s[i + 1..s.len()];
        proof {
            assert(tail@ =~= s@.skip(i as int + 1));
        }
        let mut rest = split_all(tail, sep);
        let head = to_vec(&s[0..i]);
        proof {
            assert(head@ =~= s@.take(i as int));
        }
        rest.insert(0, head);
        rest
    }
}

/// Index after which `s` is all whitespace, with no whitespace just before it.
pub open spec fn trim_end_ix(s: Seq<u8>) -> int
    decreases s.len(),
{
    if s.len() == 0 {
        0
    } else if !is_ws_b(s.last()) {
        s.len() as int
    } else {
        trim_end_ix(s.drop_last())
    }
}

pub proof fn lemma_trim_end_ix_is(s: Seq<u8>, e: int)
    requires
        0 <= e <= s.len(),
        e > 0 ==> !is_ws_b(s[e - 1]),
        forall|j: int| e <= j < s.len() ==> is_ws_b(s[j]),
    ensures
        trim_end_ix(s) == e,
    decreases s.len(),
{
    if s.len() == 0 {
    } else if !is_ws_b(s.last()) {
        assert(e == s.len());
    } else {
        assert(e < s.len());
        lemma_trim_end_ix_is(s.drop_last(), e);
    }
}

/// `s` with leading and trailing ASCII whitespace removed.
pub open spec fn trim_bytes(s: Seq<u8>) -> Seq<u8> {
    let a = first_match(s, non_ws_pred());
    let t = s.skip(a);
    t.take(trim_end_ix(t))
}

/// Removes leading and trailing ASCII whitespace.
pub fn trim(s: &[u8]) -> (r: Vec<u8>)
    ensures
        r@ == trim_bytes(s@),
{
    let a = find_non_ws(s);
    proof {
        lemma_first_match(s@, non_ws_pred());
    }
    let t = &s[a..s.len()];
    proof {
        assert(t@ =~= s@.skip(a as int));
    }
    let mut e: usize = t.len();
    while e > 0 && is_ws(t[e - 1])
        invariant
            0 <= e <= t@.len(),
            forall|j: int| e <= j < t@.len() ==> is_ws_b(t@[j]),
        decreases e,
    {
        e = e - 1;
    }
    proof {
        lemma_trim_end_ix_is(t@, e as int);
    }
    let r = to_vec(&t[0..e]);
    proof {
        assert(t@.take(e as int) =~= t@.subrange(0, e as int));
    }
    r
}

} // verus!
