//! The snake's body behind the head: an ordered chain of segments, nearest to
//! the head first. Segment identities are stable; a tick only reassigns the
//! positions they hold (follow-the-leader shift), so index `i` always denotes
//! the same rendered segment.

use vstd::prelude::*;

verus! {

use crate::data::Position;

/// The follow-the-leader shift of a segment chain: segment 0 takes the cell
/// the head has just vacated, every later segment takes the cell its
/// predecessor held, and the last segment's old cell is discarded. An empty
/// chain stays empty.
pub open spec fn shifted(segs: Seq<Position>, head_prev: Position) -> Seq<Position> {
    if segs.len() == 0 {
        segs
    } else {
        seq![head_prev] + segs.drop_last()
    }
}

/// Ordered chain of body segments. Its view is the sequence of held
/// positions, nearest to the head first.
pub struct Tail {
    segments: Vec<Position>,
}

impl View for Tail {
    type V = Seq<Position>;

    closed spec fn view(&self) -> Seq<Position> {
        self.segments@
    }
}

impl Tail {
    /// A snake starts with no body segments.
    pub fn new() -> (t: Tail)
        ensures
            t@ == Seq::<Position>::empty(),
    {
        Tail { segments: Vec::new() }
    }

    /// Whether some segment currently holds `position`. The head is not part
    /// of the chain and is checked by the caller.
    pub fn contains(&self, position: Position) -> (r: bool)
        ensures
            r == self@.contains(position),
    {
        let n = self.segments.len();
        for i in 0..n
            invariant
                n == self@.len(),
                forall|j: int| 0 <= j < i ==> self@[j] != position,
        {
            if self.segments[i] == position {
                return true;
            }
        }
        false
    }

    /// Whether the snake has no body segments.
    pub fn is_empty(&self) -> (r: bool)
        ensures
            r == (self@.len() == 0),
    {
        self.segments.is_empty()
    }

    /// Drop all segments; used when a lost game is reset.
    pub fn clear(&mut self)
        ensures
            final(self)@ == Seq::<Position>::empty(),
    {
        self.segments.clear();
    }

    /// Append one trailing segment holding `position`; used when fruit is
    /// eaten.
    pub fn push(&mut self, position: Position)
        ensures
            final(self)@ == old(self)@.push(position),
    {
        self.segments.push(position);
    }

    /// Perform the follow-the-leader shift, given the cell the head occupied
    /// before this tick. The number of segments does not change.
    pub fn update(&mut self, position: Position)
        ensures
            final(self)@ == shifted(old(self)@, position),
    {
        if self.segments.len() > 0 {
            self.segments.insert(0, position);
            self.segments.pop();
            proof {
                assert(self@ =~= shifted(old(self)@, position));
            }
        }
    }

    /// Shift and grow in one step: every segment moves to its predecessor's
    /// cell, the vacated previous-tail cell stays occupied, and the chain is
    /// one segment longer. Equivalent to the follow-the-leader shift followed
    /// by a push of the previous tail cell.
    pub(crate) fn grow_front(&mut self, position: Position)
        ensures
            final(self)@ == seq![position] + old(self)@,
    {
        self.segments.insert(0, position);
        proof {
            assert(self@ =~= seq![position] + old(self)@);
        }
    }

    /// The enumerated chain for rendering: each segment's index and the
    /// position it currently holds.
    pub fn get(&self) -> (r: Vec<(usize, Position)>)
        ensures
            r@.len() == self@.len(),
            forall|i: int| 0 <= i < r@.len() ==> r@[i] == (i as usize, self@[i]),
    {
        let n = self.segments.len();
        let mut out: Vec<(usize, Position)> = Vec::new();
        for i in 0..n
            invariant
                n == self@.len(),
                out@.len() == i,
                forall|j: int| 0 <= j < i ==> out@[j] == (j as usize, self@[j]),
        {
            out.push((i, self.segments[i]));
        }
        out
    }
}

/// After `push(p)` the chain contains `p`; after `clear()` the chain is empty
/// and contains nothing.
pub proof fn lemma_push_clear_contains(segs: Seq<Position>, p: Position, q: Position)
    ensures
        segs.push(p).contains(p),
        !Seq::<Position>::empty().contains(q),
        Seq::<Position>::empty().len() == 0,
{
    assert(segs.push(p)[segs.len() as int] == p);
}

} // verus!
