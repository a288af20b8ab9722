//! A bag of `Piece`s. Takes care of dispensing, refilling and giving a peek
//! at the next piece.

use vstd::prelude::*;
use vstd::multiset::Multiset;
use crate::tetromino::{Piece, PieceType, Position};

verus! {

broadcast use vstd::seq_lib::group_to_multiset_ensures, vstd::multiset::group_multiset_properties;

/// The multiset that holds each of the seven piece types exactly once.
pub open spec fn full_bag_mset() -> Multiset<PieceType> {
    seq![
        PieceType::I,
        PieceType::J,
        PieceType::L,
        PieceType::O,
        PieceType::S,
        PieceType::T,
        PieceType::Z,
    ].to_multiset()
}

/// Law: a queue holding one of each piece type yields, over seven
/// successive draws, every piece type exactly once.
pub proof fn lemma_full_bag_each_type_once(q: Seq<PieceType>)
    requires
        q.len() == 7,
        q.to_multiset() == full_bag_mset(),
    ensures
        forall|t: PieceType| #[trigger] q.to_multiset().count(t) == 1,
        q.no_duplicates(),
{
    let e = Seq::<PieceType>::empty();
    assert(e.to_multiset().len() == 0);
    assert forall|t: PieceType| e.to_multiset().count(t) == 0 by {
        assert(e.to_multiset().count(t) <= e.to_multiset().len());
    }
    assert(e.to_multiset() =~= Multiset::empty());
    let built = e.push(PieceType::I).push(PieceType::J).push(PieceType::L).push(
        PieceType::O,
    ).push(PieceType::S).push(PieceType::T).push(PieceType::Z);
    assert(built =~= seq![
        PieceType::I,
        PieceType::J,
        PieceType::L,
        PieceType::O,
        PieceType::S,
        PieceType::T,
        PieceType::Z,
    ]);
    assert(full_bag_mset() =~= Multiset::empty().insert(PieceType::I).insert(
        PieceType::J,
    ).insert(PieceType::L).insert(PieceType::O).insert(PieceType::S).insert(PieceType::T).insert(
        PieceType::Z,
    ));
    assert forall|t: PieceType| #[trigger] q.to_multiset().count(t) == 1 by {
        match t {
            PieceType::I => assert(q.to_multiset().count(t) == 1),
            PieceType::J => assert(q.to_multiset().count(t) == 1),
            PieceType::L => assert(q.to_multiset().count(t) == 1),
            PieceType::O => assert(q.to_multiset().count(t) == 1),
            PieceType::S => assert(q.to_multiset().count(t) == 1),
            PieceType::T => assert(q.to_multiset().count(t) == 1),
            PieceType::Z => assert(q.to_multiset().count(t) == 1),
        }
    }
    q.lemma_multiset_has_no_duplicates_conv();
}

/// Relies on rand::random_range: a sample drawn from a non-empty integer
/// range lies within that range.
#[verifier::external_body]
fn random_below(n: usize) -> (r: usize)
    requires
        1 <= n,
    ensures
        r < n,
{
    rand::random_range(0..n)
}

/// A bag of `Pieces`. Takes care of dispensing, refilling and giving a peek
/// at the next piece.
pub struct PieceBag {
    pub queue: Vec<PieceType>,
}

impl PieceBag {
    /// The bag always holds between one and seven upcoming pieces, with no
    /// piece type repeated.
    pub open spec fn wf(self) -> bool {
        &&& 1 <= self.queue@.len() <= 7
        &&& self.queue@.no_duplicates()
    }

    /// Creates a bag filled with one piece of each type, in random order.
    pub fn new() -> (b: PieceBag)
        ensures
            b.wf(),
            b.queue@.len() == 7,
            b.queue@.to_multiset() == full_bag_mset(),
    {
        let queue = PieceBag::generate_full_bag();
        proof {
            lemma_full_bag_each_type_once(queue@);
        }
        PieceBag { queue }
    }

    /// Takes the next piece from the bag. If the bag is empty after removing
    /// a piece, refill it.
    pub fn take_piece(&mut self) -> (p: Piece)
        requires
            old(self).wf(),
        ensures
            final(self).wf(),
            p.wf(),
            p.kind() == old(self).queue@[0],
            p.rotation() == 0,
            p.top_left == (Position { x: 3, y: 0 }),
            p.potential_top_left == (Position { x: 3, y: 0 }),
            p.shadow() == (Position { x: 3, y: 0 }),
            old(self).queue@.len() > 1 ==> final(self).queue@ == old(self).queue@.drop_first(),
            old(self).queue@.len() == 1 ==> final(self).queue@.len() == 7 && final(
                self
            ).queue@.to_multiset() == full_bag_mset(),
    {
        let ghost q0 = self.queue@;
        let next_piece_shape = self.queue.remove(0);
        proof {
            assert(self.queue@ =~= q0.drop_first());
            assert forall|i: int, j: int|
                0 <= i < j < self.queue@.len() implies self.queue@[i] != self.queue@[j] by {
                assert(q0[i + 1] != q0[j + 1]);
            }
        }

        // if bag is now empty, generate new bag
        if self.queue.is_empty() {
            self.queue = PieceBag::generate_full_bag();
            proof {
                lemma_full_bag_each_type_once(self.queue@);
            }
        }

        Piece::new(next_piece_shape)
    }

    /// Returns the next piece in the bag without actually removing it from
    /// the bag.
    pub fn peek_at_next_piece(&self) -> (p: Piece)
        requires
            self.wf(),
        ensures
            p.wf(),
            p.kind() == self.queue@[0],
            p.rotation() == 0,
    {
        let next_piece_shape = &self.queue[0];

        Piece::new_from_ref(next_piece_shape)
    }

    /// Generates a full bag of 7 pieces, one of each type, in random order.
    /// This is a static function rather than a method so we can fill the
    /// bag in the `new()` function.
    fn generate_full_bag() -> (q: Vec<PieceType>)
        ensures
            q@.len() == 7,
            q@.to_multiset() == full_bag_mset(),
    {
        let mut source: Vec<PieceType> = Vec::new();
        source.push(PieceType::I);
        source.push(PieceType::J);
        source.push(PieceType::L);
        source.push(PieceType::O);
        source.push(PieceType::S);
        source.push(PieceType::T);
        source.push(PieceType::Z);
        proof {
            assert(source@ =~= seq![
                PieceType::I,
                PieceType::J,
                PieceType::L,
                PieceType::O,
                PieceType::S,
                PieceType::T,
                PieceType::Z,
            ]);
            let e = Seq::<PieceType>::empty();
            assert(e.to_multiset().len() == 0);
            assert forall|t: PieceType| e.to_multiset().count(t) == 0 by {
                assert(e.to_multiset().count(t) <= e.to_multiset().len());
            }
            assert(source@.to_multiset().add(e.to_multiset()) =~= full_bag_mset());
        }

        let mut pieces: Vec<PieceType> = Vec::new();
        while pieces.len() < 7
            invariant
                source@.len() + pieces@.len() == 7,
                source@.to_multiset().add(pieces@.to_multiset()) == full_bag_mset(),
            decreases source@.len(),
        {
            let ghost src0 = source@;
            let ghost dst0 = pieces@;
            let idx = random_below(source.len());
            let t = source.remove(idx);
            pieces.push(t);
            proof {
                assert(src0.contains(t));
                assert(src0.to_multiset().count(t) > 0);
                assert(source@.to_multiset().add(pieces@.to_multiset()) =~= src0.to_multiset().add(
                    dst0.to_multiset(),
                ));
            }
        }
        proof {
            assert(source@.to_multiset().len() == 0);
            assert(source@.to_multiset() =~= Multiset::<PieceType>::empty());
            assert(pieces@.to_multiset() =~= full_bag_mset());
        }
        pieces
    }
}

} // verus!
