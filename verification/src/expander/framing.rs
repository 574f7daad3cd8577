//! The bytes of an Expander proof: for each prover the value that it claims
//! and its transcript, each a string of bytes.

use vstd::bytes::*;
use vstd::prelude::*;

verus! {

/// A proof as the byte strings of its parts.
pub type Parts = Seq<(Seq<u8>, Seq<u8>)>;

/// The byte strings that a vector of parts holds.
pub open spec fn parts_of(parts: Seq<(Vec<u8>, Vec<u8>)>) -> Parts {
    parts.map_values(|part: (Vec<u8>, Vec<u8>)| (part.0@, part.1@))
}

/// A byte string after its length, which takes eight bytes, the least first.
pub open spec fn framed(bytes: Seq<u8>) -> Seq<u8> {
    spec_u64_to_le_bytes(bytes.len() as u64) + bytes
}

/// The parts one after the other, both byte strings of each framed.
pub open spec fn encoded_parts(parts: Parts) -> Seq<u8>
    decreases parts.len(),
{
    if parts.len() == 0 {
        Seq::empty()
    } else {
        framed(parts[0].0) + framed(parts[0].1) + encoded_parts(parts.subrange(1, parts.len() as int))
    }
}

/// The bytes of a proof: the number of its parts in eight bytes, the least
/// first, and then the parts.
pub open spec fn encoded(parts: Parts) -> Seq<u8> {
    spec_u64_to_le_bytes(parts.len() as u64) + encoded_parts(parts)
}

/// Whether the number of the parts and the length of each byte string fit
/// the eight bytes that they are written in.
pub open spec fn representable(parts: Parts) -> bool {
    &&& parts.len() <= u64::MAX
    &&& forall|i: int|
        0 <= i < parts.len() ==> (#[trigger] parts[i]).0.len() <= u64::MAX && parts[i].1.len()
            <= u64::MAX
}

/// Whether `read` is what reading `bytes` gives: the proof whose bytes
/// `bytes` begin with, and nothing where they begin with no proof's bytes.
pub open spec fn reads(bytes: Seq<u8>, read: Option<Parts>) -> bool {
    match read {
        Some(parts) => representable(parts) && encoded(parts).is_prefix_of(bytes),
        None => forall|parts: Parts|
            representable(parts) ==> !(#[trigger] encoded(parts)).is_prefix_of(bytes),
    }
}

/// `bincode::serialize` writes a vector as the number of its elements, a tuple
/// as its fields one after the other, and a byte as itself; a number takes
/// eight bytes, the least first. It fails on a limit of size, on a sequence
/// without a length and where its writer fails: it sets no limit and writes
/// into a vector, and each vector of the parts has a length.
#[verifier::external_body]
fn bincode_serialize(parts: &Vec<(Vec<u8>, Vec<u8>)>) -> (bytes: Option<Vec<u8>>)
    ensures
        bytes is Some,
        bytes matches Some(written) ==> written@ == encoded(parts_of(parts@)),
{
    bincode::serialize(parts).ok()
}

/// `bincode::deserialize` reads from the beginning of the bytes what
/// `bincode::serialize` writes, leaves bytes after it unread, and fails where
/// the bytes end before the vector that they announce.
#[verifier::external_body]
fn bincode_deserialize(bytes: &[u8]) -> (parts: Option<Vec<(Vec<u8>, Vec<u8>)>>)
    ensures
        reads(
            bytes@,
            match parts {
                Some(read) => Some(parts_of(read@)),
                None => None,
            },
        ),
{
    bincode::deserialize(bytes).ok()
}

/// The bytes of a proof: every proof is written.
pub fn serialize_proof(parts: &Vec<(Vec<u8>, Vec<u8>)>) -> (bytes: Option<Vec<u8>>)
    ensures
        bytes is Some,
        bytes matches Some(written) ==> written@ == encoded(parts_of(parts@)),
{
    bincode_serialize(parts)
}

/// The proof that `bytes` begin with, if they begin with one.
pub fn deserialize_proof(bytes: &[u8]) -> (parts: Option<Vec<(Vec<u8>, Vec<u8>)>>)
    ensures
        reads(
            bytes@,
            match parts {
                Some(read) => Some(parts_of(read@)),
                None => None,
            },
        ),
{
    bincode_deserialize(bytes)
}

/// Two byte strings of which one's frame begins the other's frame followed
/// by anything are the same, and what follows them is then in the same
/// relation.
proof fn lemma_framed_prefix(a: Seq<u8>, rest_a: Seq<u8>, b: Seq<u8>, rest_b: Seq<u8>)
    requires
        a.len() <= u64::MAX,
        b.len() <= u64::MAX,
        (framed(a) + rest_a).is_prefix_of(framed(b) + rest_b),
    ensures
        a == b,
        rest_a.is_prefix_of(rest_b),
{
    lemma_auto_spec_u64_to_from_le_bytes();
    let left = framed(a) + rest_a;
    let right = framed(b) + rest_b;
    let la = spec_u64_to_le_bytes(a.len() as u64);
    let lb = spec_u64_to_le_bytes(b.len() as u64);
    assert(la.len() == 8 && lb.len() == 8);
    assert(la =~= lb) by {
        assert forall|i: int| 0 <= i < 8 implies la[i] == lb[i] by {
            assert(left[i] == la[i]);
            assert(right[i] == lb[i]);
            assert(left[i] == right[i]);
        }
    }
    assert(spec_u64_from_le_bytes(la) == a.len());
    assert(spec_u64_from_le_bytes(lb) == b.len());
    assert(a.len() == b.len());
    assert(a =~= b) by {
        assert forall|i: int| 0 <= i < a.len() implies a[i] == b[i] by {
            assert(left[8 + i] == a[i]);
            assert(right[8 + i] == b[i]);
            assert(left[8 + i] == right[8 + i]);
        }
    }
    assert forall|i: int| 0 <= i < rest_a.len() implies rest_a[i] == rest_b[i] by {
        assert(left[8 + a.len() + i] == rest_a[i]);
        assert(right[8 + a.len() + i] == rest_b[i]);
        assert(left[8 + a.len() + i] == right[8 + a.len() + i]);
    }
    assert(rest_a.is_prefix_of(rest_b)) by {
        assert(left.len() <= right.len());
        assert(rest_a =~= rest_b.subrange(0, rest_a.len() as int));
    }
}

/// As many parts whose bytes begin the bytes of others, followed by
/// anything, are those others.
proof fn lemma_parts_prefix(p: Parts, rest_p: Seq<u8>, q: Parts, rest_q: Seq<u8>)
    requires
        representable(p),
        representable(q),
        p.len() == q.len(),
        (encoded_parts(p) + rest_p).is_prefix_of(encoded_parts(q) + rest_q),
    ensures
        p == q,
    decreases p.len(),
{
    if p.len() == 0 {
        assert(p =~= q);
    } else {
        let tail_p = p.subrange(1, p.len() as int);
        let tail_q = q.subrange(1, q.len() as int);
        let after_p0 = framed(p[0].1) + encoded_parts(tail_p) + rest_p;
        let after_q0 = framed(q[0].1) + encoded_parts(tail_q) + rest_q;
        assert(encoded_parts(p) + rest_p =~= framed(p[0].0) + after_p0);
        assert(encoded_parts(q) + rest_q =~= framed(q[0].0) + after_q0);
        lemma_framed_prefix(p[0].0, after_p0, q[0].0, after_q0);
        let after_p1 = encoded_parts(tail_p) + rest_p;
        let after_q1 = encoded_parts(tail_q) + rest_q;
        assert(after_p0 =~= framed(p[0].1) + after_p1);
        assert(after_q0 =~= framed(q[0].1) + after_q1);
        lemma_framed_prefix(p[0].1, after_p1, q[0].1, after_q1);
        assert(representable(tail_p)) by {
            assert forall|i: int| 0 <= i < tail_p.len() implies (#[trigger] tail_p[i]).0.len()
                <= u64::MAX && tail_p[i].1.len() <= u64::MAX by {
                assert(tail_p[i] == p[i + 1]);
            }
        }
        assert(representable(tail_q)) by {
            assert forall|i: int| 0 <= i < tail_q.len() implies (#[trigger] tail_q[i]).0.len()
                <= u64::MAX && tail_q[i].1.len() <= u64::MAX by {
                assert(tail_q[i] == q[i + 1]);
            }
        }
        lemma_parts_prefix(tail_p, rest_p, tail_q, rest_q);
        assert(p =~= q) by {
            assert forall|i: int| 0 <= i < p.len() implies p[i] == q[i] by {
                if i == 0 {
                    assert(p[0].0 == q[0].0 && p[0].1 == q[0].1);
                } else {
                    assert(p[i] == tail_p[i - 1]);
                    assert(q[i] == tail_q[i - 1]);
                }
            }
        }
    }
}

/// No proof's bytes begin the bytes of another proof: a proof whose bytes
/// begin those of a second one, followed by anything, is the second one.
pub proof fn lemma_encoding_prefix_free(p: Parts, q: Parts, rest: Seq<u8>)
    requires
        representable(p),
        representable(q),
        encoded(p).is_prefix_of(encoded(q) + rest),
    ensures
        p == q,
{
    lemma_auto_spec_u64_to_from_le_bytes();
    let lp = spec_u64_to_le_bytes(p.len() as u64);
    let lq = spec_u64_to_le_bytes(q.len() as u64);
    let left = encoded(p);
    let right = encoded(q) + rest;
    assert(lp =~= lq) by {
        assert forall|i: int| 0 <= i < 8 implies lp[i] == lq[i] by {
            assert(left[i] == lp[i]);
            assert(right[i] == lq[i]);
            assert(left[i] == right[i]);
        }
    }
    assert(spec_u64_from_le_bytes(lp) == p.len());
    assert(spec_u64_from_le_bytes(lq) == q.len());
    let items_p = encoded_parts(p) + Seq::<u8>::empty();
    let items_q = encoded_parts(q) + rest;
    assert(items_p.is_prefix_of(items_q)) by {
        assert(items_p =~= encoded_parts(p));
        assert(left.len() <= right.len());
        assert forall|i: int| 0 <= i < items_p.len() implies items_p[i] == items_q[i] by {
            assert(left[8 + i] == items_p[i]);
            assert(right[8 + i] == items_q[i]);
            assert(left[8 + i] == right[8 + i]);
        }
        assert(items_p =~= items_q.subrange(0, items_p.len() as int));
    }
    lemma_parts_prefix(p, Seq::empty(), q, rest);
}

/// A proof comes back from its bytes: whatever reads the bytes of a proof,
/// alone or with bytes after them, reads that proof.
pub proof fn lemma_round_trip(parts: Parts, rest: Seq<u8>, read: Option<Parts>)
    requires
        representable(parts),
        reads(encoded(parts) + rest, read),
    ensures
        read == Some(parts),
{
    let bytes = encoded(parts) + rest;
    assert(encoded(parts).is_prefix_of(bytes)) by {
        assert(encoded(parts) =~= bytes.subrange(0, encoded(parts).len() as int));
    }
    match read {
        Some(other) => {
            lemma_encoding_prefix_free(other, parts, rest);
        },
        None => {},
    }
}

} // verus!
