//! Little-endian byte encodings and byte-sequence helpers shared by the
//! scalar, point and transcript modules.

use vstd::arithmetic::div_mod::{lemma_mod_multiples_vanish, lemma_small_mod};
use vstd::prelude::*;

verus! {

/// Value of a byte sequence read as a little-endian unsigned integer.
pub open spec fn le_val(s: Seq<u8>) -> nat
    decreases s.len(),
{
    if s.len() == 0 {
        0
    } else {
        (s[0] + 256 * le_val(s.subrange(1, s.len() as int))) as nat
    }
}

/// Concatenation of a sequence of byte strings, in order.
pub open spec fn concat_all(parts: Seq<Seq<u8>>) -> Seq<u8>
    decreases parts.len(),
{
    if parts.len() == 0 {
        Seq::empty()
    } else {
        parts[0] + concat_all(parts.subrange(1, parts.len() as int))
    }
}

/// Two byte sequences of equal length with the same little-endian value are
/// equal: the encoding is injective.
pub proof fn lemma_le_val_injective(a: Seq<u8>, b: Seq<u8>)
    requires
        a.len() == b.len(),
        le_val(a) == le_val(b),
    ensures
        a == b,
    decreases a.len(),
{
    if a.len() == 0 {
        assert(a =~= b);
    } else {
        let ar = a.subrange(1, a.len() as int);
        let br = b.subrange(1, b.len() as int);
        assert(le_val(a) == a[0] + 256 * le_val(ar));
        assert(le_val(b) == b[0] + 256 * le_val(br));
        lemma_mod_multiples_vanish(le_val(ar) as int, a[0] as int, 256);
        lemma_mod_multiples_vanish(le_val(br) as int, b[0] as int, 256);
        lemma_small_mod(a[0] as nat, 256);
        lemma_small_mod(b[0] as nat, 256);
        assert(a[0] == le_val(a) % 256);
        assert(b[0] == le_val(b) % 256);
        assert(a[0] == b[0]);
        assert(le_val(ar) == le_val(br));
        lemma_le_val_injective(ar, br);
        assert forall|i: int| 0 <= i < a.len() implies a[i] == b[i] by {
            if i > 0 {
                assert(a[i] == ar[i - 1]);
                assert(b[i] == br[i - 1]);
            }
        }
        assert(a =~= b);
    }
}

/// Appending one more part extends the concatenation at its end.
pub proof fn lemma_concat_all_push(parts: Seq<Seq<u8>>, x: Seq<u8>)
    ensures
        concat_all(parts.push(x)) == concat_all(parts) + x,
    decreases parts.len(),
{
    let whole = parts.push(x);
    if parts.len() == 0 {
        assert(whole.subrange(1, whole.len() as int) =~= Seq::<Seq<u8>>::empty());
        assert(concat_all(Seq::<Seq<u8>>::empty()) == Seq::<u8>::empty());
        assert(concat_all(whole) == x + Seq::<u8>::empty());
        assert(x + Seq::<u8>::empty() =~= x);
        assert(concat_all(parts) + x =~= x);
    } else {
        let rest = parts.subrange(1, parts.len() as int);
        assert(whole.subrange(1, whole.len() as int) =~= rest.push(x));
        lemma_concat_all_push(rest, x);
        assert(whole[0] == parts[0]);
        assert(concat_all(whole) == parts[0] + (concat_all(rest) + x));
        assert(parts[0] + (concat_all(rest) + x) =~= (parts[0] + concat_all(rest)) + x);
    }
}

/// Append a byte slice to a buffer.
pub fn extend_bytes(buf: &mut Vec<u8>, data: &[u8])
    ensures
        final(buf)@ == old(buf)@ + data@,
{
    let ghost start = buf@;
    let mut i: usize = 0;
    while i < data.len()
        invariant
            i <= data@.len(),
            buf@ == start + data@.subrange(0, i as int),
        decreases data@.len() - i,
    {
        buf.push(data[i]);
        proof {
            assert(start + data@.subrange(0, i as int) + seq![data@[i as int]] =~= start
                + data@.subrange(0, i + 1));
        }
        i += 1;
    }
    proof {
        assert(data@.subrange(0, data@.len() as int) =~= data@);
    }
}

/// Compare two 32-byte strings for equality, walking all 32 bytes whatever
/// the inputs hold: no early exit leaks where the first difference sits.
pub fn eq_bytes32(a: &[u8; 32], b: &[u8; 32]) -> (r: bool)
    ensures
        r <==> a@ == b@,
{
    let mut equal = true;
    let mut i: usize = 0;
    while i < 32
        invariant
            i <= 32,
            equal <==> (forall|j: int| 0 <= j < i ==> a@[j] == b@[j]),
        decreases 32 - i,
    {
        if a[i] != b[i] {
            equal = false;
        }
        i += 1;
    }
    proof {
        if equal {
            assert(a@ =~= b@);
        }
    }
    equal
}

} // verus!
