//! The seven-piece bag: an endless deal of catalog indices in which every
//! group of seven holds each index once.

use rand::seq::SliceRandom;
use rand::thread_rng;
use vstd::prelude::*;
use vstd::seq_lib::*;

verus! {

/// The indices 0, 1, ..., 6 in increasing order.
pub open spec fn identity_order() -> Seq<usize> {
    Seq::new(7, |i: int| i as usize)
}

/// Whether `s` is a rearrangement of the seven catalog indices.
pub open spec fn is_permutation(s: Seq<usize>) -> bool {
    s.to_multiset() == identity_order().to_multiset()
}

/// Whether `s` could be part of one rearrangement of the catalog indices:
/// its entries are catalog indices and none occurs twice.
pub open spec fn is_partial_deal(s: Seq<usize>) -> bool {
    s.no_duplicates() && forall|i: int| 0 <= i < s.len() ==> s[i] < 7
}

/// What a bag holds: the pieces that are already on show, and the rest of
/// the current shuffle.
pub struct BagView {
    /// The look-ahead buffer, next piece first.
    pub upcoming: Seq<usize>,
    /// The indices that follow the look-ahead buffer.
    pub reserve: Seq<usize>,
}

impl BagView {
    /// Everything the bag will hand out before it shuffles again, in order.
    pub open spec fn stream(self) -> Seq<usize> {
        self.upcoming + self.reserve
    }

    /// The stream ends with whole shuffles, which are appended seven at a
    /// time, so counted from its end it splits into one permutation (when it
    /// is long enough) after the unfinished part of the shuffle before.
    pub open spec fn wf(self) -> bool {
        let s = self.stream();
        &&& self.upcoming.len() == 5
        &&& self.reserve.len() <= 6
        &&& if s.len() >= 7 {
            is_permutation(s.skip(s.len() - 7)) && is_partial_deal(s.take(s.len() - 7))
        } else {
            is_partial_deal(s)
        }
    }

    /// Whether the next draw starts a new group of seven.
    pub open spec fn at_boundary(self) -> bool {
        self.stream().len() == 7
    }

    /// How one draw changes the bag: the head of the stream leaves, and when
    /// the reserve was empty a fresh permutation is appended.
    pub open spec fn draws_to(self, next: BagView) -> bool {
        &&& next.upcoming.len() == 5
        &&& if self.reserve.len() > 0 {
            next.stream() == self.stream().skip(1)
        } else {
            &&& next.stream().len() == self.stream().len() + 6
            &&& next.stream().take(self.stream().len() - 1) == self.stream().skip(1)
            &&& is_permutation(next.stream().skip(self.stream().len() - 1))
        }
    }
}

/// The random sequencer of pieces.
pub struct Bag {
    /// Indices of the current shuffle that are not on show yet.
    pub queue: Vec<usize>,
    /// The look-ahead buffer, next piece first.
    pub next_pieces: Vec<usize>,
}

impl View for Bag {
    type V = BagView;

    open spec fn view(&self) -> BagView {
        BagView { upcoming: self.next_pieces@, reserve: self.queue@ }
    }
}

/// A permutation of the catalog indices has seven entries, all of them
/// catalog indices, no entry twice, and every catalog index among them.
pub proof fn lemma_permutation_holds_each_index_once(s: Seq<usize>)
    requires
        is_permutation(s),
    ensures
        s.len() == 7,
        is_partial_deal(s),
        forall|v: usize| v < 7 ==> s.to_multiset().count(v) == 1,
        forall|v: usize| v >= 7 ==> s.to_multiset().count(v) == 0,
{
    let id = identity_order();
    to_multiset_len(s);
    to_multiset_len(id);
    id.lemma_multiset_has_no_duplicates();
    s.lemma_multiset_has_no_duplicates_conv();
    assert forall|i: int| 0 <= i < s.len() implies s[i] < 7 by {
        to_multiset_contains(s, s[i]);
        to_multiset_contains(id, s[i]);
    }
    assert forall|v: usize| v < 7 implies s.to_multiset().count(v) == 1 by {
        assert(id[v as int] == v);
        to_multiset_contains(id, v);
    }
    assert forall|v: usize| v >= 7 implies s.to_multiset().count(v) == 0 by {
        to_multiset_contains(id, v);
    }
}

/// A well-formed bag shows catalog indices only.
pub proof fn lemma_bag_deals_catalog_indices(bag: BagView)
    requires
        bag.wf(),
    ensures
        forall|i: int| 0 <= i < 5 ==> #[trigger] bag.upcoming[i] < 7,
{
    let s = bag.stream();
    assert forall|i: int| 0 <= i < 5 implies #[trigger] bag.upcoming[i] < 7 by {
        assert(s[i] == bag.upcoming[i]);
        if s.len() >= 7 {
            let cut = s.len() - 7;
            lemma_permutation_holds_each_index_once(s.skip(cut));
            if i < cut {
                assert(s.take(cut)[i] == s[i]);
            } else {
                assert(s.skip(cut)[i - cut] == s[i]);
            }
        }
    }
}

/// Rearranges `v` at random in place.
///
/// Trusted: calls `rand::seq::SliceRandom::shuffle` with the generator that
/// `rand::thread_rng` returns. The shuffle only swaps entries of the slice,
/// so afterwards `v` holds what it held before, each entry as often as
/// before. Nothing is claimed about the order, nor that every order is as
/// likely as any other. `thread_rng` panics where the operating system
/// gives it no seed; no argument of this function decides that.
#[verifier::external_body]
fn shuffle(v: &mut Vec<usize>)
    ensures
        final(v)@.to_multiset() == old(v)@.to_multiset(),
{
    v.shuffle(&mut thread_rng());
}

impl Bag {
    /// A bag that shows the first five pieces of a fresh shuffle and keeps
    /// the other two in reserve.
    pub fn new() -> (bag: Bag)
        ensures
            bag@.wf(),
            bag@.at_boundary(),
            is_permutation(bag@.stream()),
    {
        let mut bag = Bag { queue: Vec::new(), next_pieces: Vec::new() };
        bag.refill();
        let ghost dealt = bag.queue@;
        assert(dealt.skip(0) == dealt);
        let mut i: usize = 0;
        while i < 5
            invariant
                i <= 5,
                bag.next_pieces@.len() == i,
                bag.next_pieces@ + bag.queue@ == dealt,
                dealt.len() == 7,
            decreases 5 - i,
        {
            let piece = bag.queue.remove(0);
            bag.next_pieces.push(piece);
            i += 1;
        }
        bag
    }

    /// Takes `shuffled` into the reserve, behind what the reserve holds.
    pub fn restock(&mut self, shuffled: Vec<usize>)
        ensures
            final(self)@.upcoming == old(self)@.upcoming,
            final(self)@.reserve == old(self)@.reserve + shuffled@,
    {
        let mut shuffled = shuffled;
        self.queue.append(&mut shuffled);
    }

    /// Appends a fresh shuffle of the seven catalog indices to the reserve.
    fn refill(&mut self)
        ensures
            final(self).next_pieces@ == old(self).next_pieces@,
            final(self).queue@.len() == old(self).queue@.len() + 7,
            final(self).queue@.take(old(self).queue@.len() as int) == old(self).queue@,
            is_permutation(final(self).queue@.skip(old(self).queue@.len() as int)),
    {
        let mut indices: Vec<usize> = Vec::new();
        let mut i: usize = 0;
        while i < 7
            invariant
                i <= 7,
                indices@.len() == i,
                forall|j: int| 0 <= j < i ==> indices@[j] == j,
            decreases 7 - i,
        {
            indices.push(i);
            i += 1;
        }
        assert(indices@ == identity_order());
        shuffle(&mut indices);
        let ghost fresh = indices@;
        let ghost before = self.queue@;
        proof {
            to_multiset_len(fresh);
            to_multiset_len(identity_order());
        }
        self.restock(indices);
        assert(self.queue@.skip(before.len() as int) == fresh);
    }

    /// Hands out the next piece and moves one index from the reserve into
    /// the look-ahead buffer, shuffling anew when the reserve is empty.
    pub fn next(&mut self) -> (piece: usize)
        requires
            old(self)@.wf(),
        ensures
            final(self)@.wf(),
            old(self)@.draws_to(final(self)@),
            piece == old(self)@.upcoming[0],
            piece < 7,
    {
        let ghost pre = self@;
        let ghost s = pre.stream();
        proof {
            if s.len() >= 7 {
                lemma_permutation_holds_each_index_once(s.skip(s.len() - 7));
                if s.len() == 7 {
                    assert(s.skip(0) == s);
                } else {
                    assert(s.take(s.len() - 7)[0] == s[0]);
                }
            }
            assert(s[0] == pre.upcoming[0]);
        }
        if self.queue.is_empty() {
            self.refill();
        }
        let ghost filled = self.queue@;
        let piece = self.queue.remove(0);
        self.next_pieces.push(piece);
        let first = self.next_pieces.remove(0);
        proof {
            let t = self@.stream();
            if pre.reserve.len() > 0 {
                assert(t == s.skip(1));
                if s.len() >= 8 {
                    assert(t.skip(t.len() - 7) == s.skip(s.len() - 7));
                    assert(t.take(t.len() - 7) == s.take(s.len() - 7).subrange(
                        1,
                        s.len() - 7,
                    ));
                }
            } else {
                assert(filled == filled.skip(0));
                assert(t.skip(4) == filled);
                assert(t.take(4) == s.skip(1));
            }
        }
        first
    }
}

/// What seven draws in a row return: the head of each bag before its draw.
pub open spec fn seven_draws(bags: Seq<BagView>) -> Seq<usize> {
    Seq::new(7, |i: int| bags[i].upcoming[0])
}

/// Seven draws that start at a boundary of the deal hand out each catalog
/// index exactly once: if `bags[0]` is well formed and at a boundary, and each
/// bag follows from the one before by a draw, then the heads of the first
/// seven bags, which are what the seven draws return, form a permutation of
/// the catalog indices.
pub proof fn lemma_seven_draws_are_a_permutation(bags: Seq<BagView>)
    requires
        bags.len() == 8,
        bags[0].wf(),
        bags[0].at_boundary(),
        forall|i: int| 0 <= i < 7 ==> (#[trigger] bags[i]).draws_to(bags[i + 1]),
    ensures
        is_permutation(seven_draws(bags)),
        forall|v: usize| v < 7 ==> seven_draws(bags).to_multiset().count(v) == 1,
{
    let first = bags[0].stream();
    assert(first.skip(0) == first);
    let draws = seven_draws(bags);
    assert forall|i: int| 0 <= i < 7 implies draws[i] == first[i] by {
        lemma_draws_follow_the_stream(bags, i);
        assert(first.skip(i)[0] == first[i]);
    }
    assert(draws == first);
    lemma_permutation_holds_each_index_once(draws);
}

/// After `k` draws the stream starts with what was left of the first stream.
proof fn lemma_draws_follow_the_stream(bags: Seq<BagView>, k: int)
    requires
        bags.len() == 8,
        bags[0].upcoming.len() == 5,
        bags[0].stream().len() == 7,
        forall|i: int| 0 <= i < 7 ==> (#[trigger] bags[i]).draws_to(bags[i + 1]),
        0 <= k <= 7,
    ensures
        bags[k].upcoming.len() == 5,
        bags[k].stream().len() >= 7 - k,
        bags[k].stream().take(7 - k) == bags[0].stream().skip(k),
    decreases k,
{
    if k > 0 {
        lemma_draws_follow_the_stream(bags, k - 1);
        let first = bags[0].stream();
        assert(first.skip(k - 1).skip(1) == first.skip(k));
    }
}

} // verus!
