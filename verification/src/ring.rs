//! The ring container: a fixed-size ordered sequence of eleven points with a
//! cached byte serialization, the concatenation of the members' 32-byte
//! encodings in order. The view is the sequence of member encodings.

use crate::encoding::{concat_all, extend_bytes, lemma_concat_all_push};
use crate::point::Point;
use vstd::prelude::*;

verus! {

/// An ordered sequence of eleven public points; index 0 is the real signer,
/// the rest are decoys.
pub struct Ring {
    points: [Point; 11],
    bytes: Vec<u8>,
}

impl View for Ring {
    type V = Seq<Seq<u8>>;

    closed spec fn view(&self) -> Seq<Seq<u8>> {
        self.points@.map_values(|p: Point| p@)
    }
}

impl Ring {
    #[verifier::type_invariant]
    spec fn cache_sound(self) -> bool {
        self.bytes@ == concat_all(self@)
    }

    /// Assemble a ring and cache its byte serialization.
    pub fn new(points: [Point; 11]) -> (r: Ring)
        ensures
            r@ == points@.map_values(|p: Point| p@),
    {
        let ghost views = points@.map_values(|p: Point| p@);
        let mut bytes: Vec<u8> = Vec::new();
        let mut i: usize = 0;
        while i < 11
            invariant
                i <= 11,
                points@.len() == 11,
                views == points@.map_values(|p: Point| p@),
                bytes@ == concat_all(views.take(i as int)),
            decreases 11 - i,
        {
            let member = points[i].to_bytes();
            extend_bytes(&mut bytes, member.as_slice());
            proof {
                lemma_concat_all_push(views.take(i as int), views[i as int]);
                assert(views.take(i as int).push(views[i as int]) =~= views.take(i + 1));
            }
            i += 1;
        }
        proof {
            assert(views.take(11) =~= views);
        }
        Ring { points, bytes }
    }

    /// The member at a ring position.
    pub fn member(&self, i: usize) -> (r: &Point)
        requires
            i < 11,
        ensures
            r@ == self@[i as int],
    {
        &self.points[i]
    }

    /// The cached serialization: the members' encodings, concatenated.
    pub fn as_bytes(&self) -> (r: &[u8])
        ensures
            r@ == concat_all(self@),
    {
        proof {
            use_type_invariant(self);
        }
        self.bytes.as_slice()
    }
}

} // verus!
