//! The sampling context of one pixel: how deep the current path is, and
//! which quasi-random generator the next draw belongs to.
//!
//! A generator is whatever the caller's factory makes; the context never
//! looks inside one. It decides when a generator is made, with which seed
//! index, and which one a draw is handed. The random part of the seeds, the
//! reseed of a pixel, is made of random bits that the caller draws.
use vstd::prelude::*;
use crate::scalar::{Scalar, ZERO_BITS};

verus! {

/// The reseed of a pixel is a number from 0 up to, but not including, 1,
/// held as a count of steps of 2^-53. This is the number of such counts.
pub const RESEED_SPAN: u64 = 0x20_0000_0000_0000;

/// A random number of single precision from 0 up to, but not including, 1
/// is held as a count of steps of 2^-24. This is the number of such counts.
pub const UNIFORM_SPAN: u32 = 0x100_0000;

/// The pattern of `0.999`, the largest jitter that [`blur_strength`] lets through.
pub const MAX_BLUR_BITS: u32 = 0x3f7f_be77;

/// A pool of generators with a cursor. The draws of one sample walk the pool
/// from its start; the pool grows where a draw finds no generator.
pub struct RngSet<G> {
    next_entry: usize,
    list: Vec<G>,
}

impl<G> RngSet<G> {
    /// How many draws the current sample has made from this pool.
    pub closed spec fn cursor(&self) -> nat {
        self.next_entry as nat
    }

    /// The generators, in the order in which they were made.
    pub closed spec fn pool(&self) -> Seq<G> {
        self.list@
    }

    /// The cursor points at a generator or just behind the last one.
    pub open spec fn wf(&self) -> bool {
        self.cursor() <= self.pool().len()
    }

    /// An empty pool.
    pub fn new() -> (r: Self)
        ensures
            r.wf(),
            r.cursor() == 0,
            r.pool() == Seq::<G>::empty(),
    {
        RngSet { next_entry: 0, list: Vec::new() }
    }

    /// The number of generators in the pool.
    pub fn len(&self) -> (r: usize)
        ensures
            r == self.pool().len(),
    {
        self.list.len()
    }

    /// The number of draws that the current sample has made.
    pub fn position(&self) -> (r: usize)
        ensures
            r == self.cursor(),
    {
        self.next_entry
    }

    /// Hands out the generator at the cursor and moves the cursor on. Where
    /// the cursor stands behind the last generator, `make` is called with the
    /// number that the new generator has in the pool, counted from one, and
    /// what it returns joins the pool first.
    pub fn draw<F: FnOnce(usize) -> G>(&mut self, make: F) -> (g: &mut G)
        requires
            old(self).wf(),
            old(self).pool().len() < usize::MAX,
            call_requires(make, ((old(self).pool().len() + 1) as usize,)),
        ensures
            final(self).wf(),
            final(self).cursor() == old(self).cursor() + 1,
            old(self).cursor() < old(self).pool().len() ==> {
                &&& *g == old(self).pool()[old(self).cursor() as int]
                &&& final(self).pool() == old(self).pool().update(
                    old(self).cursor() as int,
                    *final(g),
                )
            },
            old(self).cursor() == old(self).pool().len() ==> {
                &&& call_ensures(make, ((old(self).pool().len() + 1) as usize,), *g)
                &&& final(self).pool() == old(self).pool().push(*final(g))
            },
    {
        if self.next_entry >= self.list.len() {
            let index = self.list.len() + 1;
            self.list.push(make(index));
        }
        self.next_entry += 1;
        &mut self.list[self.next_entry - 1]
    }

    /// Moves the cursor back to the first generator. The pool stays.
    pub fn rewind(&mut self)
        ensures
            final(self).wf(),
            final(self).cursor() == 0,
            final(self).pool() == old(self).pool(),
    {
        self.next_entry = 0;
    }

    /// Moves the cursor back and drops every generator.
    pub fn clear(&mut self)
        ensures
            final(self).wf(),
            final(self).cursor() == 0,
            final(self).pool() == Seq::<G>::empty(),
    {
        self.next_entry = 0;
        self.list.clear();
    }
}

/// The depth after one attempt to go a level deeper.
pub open spec fn gate_push(depth: int, limit: int) -> int {
    if depth == limit {
        depth
    } else {
        depth + 1
    }
}

/// Whether an attempt to go a level deeper is admitted.
pub open spec fn gate_admits(depth: int, limit: int) -> bool {
    depth != limit
}

/// The depth that `count` attempts in a row reach from depth 0.
pub open spec fn depth_after_pushes(limit: int, count: nat) -> int
    decreases count,
{
    if count == 0 {
        0
    } else {
        gate_push(depth_after_pushes(limit, (count - 1) as nat), limit)
    }
}

/// The depth after one level is given back.
pub open spec fn gate_pop(depth: int) -> int {
    depth - 1
}

/// The depth that is left of `depth` after `count` levels are given back.
pub open spec fn depth_after_pops(depth: int, count: nat) -> int
    decreases count,
{
    if count == 0 {
        depth
    } else {
        gate_pop(depth_after_pops(depth, (count - 1) as nat))
    }
}

/// The reseed that is made of 64 random bits: the upper 53 of them, as a
/// count of steps of 2^-53.
pub open spec fn spec_reseed_of(word: u64) -> u64 {
    word / 2048
}

/// The reseed that is made of 64 random bits.
pub fn reseed_of(word: u64) -> (r: u64)
    ensures
        r == spec_reseed_of(word),
        r < RESEED_SPAN,
{
    let r = word >> 11;
    assert(word >> 11 == word / 2048 && word >> 11 < 0x20_0000_0000_0000u64) by (bit_vector);
    r
}

/// The sampling context of one pixel. `A`, `B` and `C` are the generators of
/// one-, two- and three-dimensional draws.
pub struct TraceContext<A, B, C> {
    current_depth: i32,
    max_depth: i32,
    rng1_set: RngSet<A>,
    rng2_set: RngSet<B>,
    rng3_set: RngSet<C>,
    reseed: u64,
}

impl<A, B, C> TraceContext<A, B, C> {
    /// The number of recursion levels in use.
    pub closed spec fn depth(&self) -> int {
        self.current_depth as int
    }

    /// The number of recursion levels that may be in use at once.
    pub closed spec fn limit(&self) -> int {
        self.max_depth as int
    }

    /// The pool of one-dimensional generators.
    pub closed spec fn scalars(&self) -> RngSet<A> {
        self.rng1_set
    }

    /// The pool of two-dimensional generators.
    pub closed spec fn pairs(&self) -> RngSet<B> {
        self.rng2_set
    }

    /// The pool of three-dimensional generators.
    pub closed spec fn triples(&self) -> RngSet<C> {
        self.rng3_set
    }

    /// The reseed of the current pixel, as a count of steps of 2^-53. The
    /// seeds of the pixel's generators are made of it.
    pub closed spec fn reseed_count(&self) -> u64 {
        self.reseed
    }

    /// The depth lies between zero and the limit, each pool is well formed,
    /// and the reseed is less than 1.
    pub open spec fn wf(&self) -> bool {
        &&& 0 <= self.depth() <= self.limit()
        &&& self.scalars().wf()
        &&& self.pairs().wf()
        &&& self.triples().wf()
        &&& self.reseed_count() < RESEED_SPAN
    }

    /// A context at depth 0 with empty pools. The reseed of the first pixel
    /// is made of `word`, 64 random bits.
    pub fn new(max_depth: i32, word: u64) -> (r: Self)
        requires
            max_depth >= 0,
        ensures
            r.wf(),
            r.depth() == 0,
            r.limit() == max_depth,
            r.reseed_count() == spec_reseed_of(word),
            r.scalars().cursor() == 0 && r.scalars().pool() == Seq::<A>::empty(),
            r.pairs().cursor() == 0 && r.pairs().pool() == Seq::<B>::empty(),
            r.triples().cursor() == 0 && r.triples().pool() == Seq::<C>::empty(),
    {
        TraceContext {
            current_depth: 0,
            max_depth,
            rng1_set: RngSet::new(),
            rng2_set: RngSet::new(),
            rng3_set: RngSet::new(),
            reseed: reseed_of(word),
        }
    }

    /// The number of recursion levels in use.
    pub fn current_depth(&self) -> (r: i32)
        ensures
            r == self.depth(),
    {
        self.current_depth
    }

    /// The number of recursion levels that may be in use at once.
    pub fn max_depth(&self) -> (r: i32)
        ensures
            r == self.limit(),
    {
        self.max_depth
    }

    /// The reseed of the current pixel, as a count of steps of 2^-53.
    pub fn reseed(&self) -> (r: u64)
        ensures
            r == self.reseed_count(),
    {
        self.reseed
    }

    /// How many one-, two- and three-dimensional draws the current sample has made.
    pub fn cursors(&self) -> (r: (usize, usize, usize))
        ensures
            r.0 == self.scalars().cursor(),
            r.1 == self.pairs().cursor(),
            r.2 == self.triples().cursor(),
    {
        (self.rng1_set.position(), self.rng2_set.position(), self.rng3_set.position())
    }

    /// How many one-, two- and three-dimensional generators the pixel has made.
    pub fn pool_sizes(&self) -> (r: (usize, usize, usize))
        ensures
            r.0 == self.scalars().pool().len(),
            r.1 == self.pairs().pool().len(),
            r.2 == self.triples().pool().len(),
    {
        (self.rng1_set.len(), self.rng2_set.len(), self.rng3_set.len())
    }

    /// Reserves a recursion level. At the limit it reserves nothing and
    /// returns `false`: the caller then contributes no light.
    pub fn try_push(&mut self) -> (admitted: bool)
        requires
            old(self).wf(),
        ensures
            final(self).wf(),
            admitted == gate_admits(old(self).depth(), old(self).limit()),
            admitted == (old(self).depth() < old(self).limit()),
            final(self).depth() == gate_push(old(self).depth(), old(self).limit()),
            final(self).limit() == old(self).limit(),
            final(self).reseed_count() == old(self).reseed_count(),
            final(self).scalars() == old(self).scalars(),
            final(self).pairs() == old(self).pairs(),
            final(self).triples() == old(self).triples(),
    {
        if self.current_depth == self.max_depth {
            false
        } else {
            self.current_depth += 1;
            true
        }
    }

    /// Gives back a recursion level that `try_push` reserved.
    pub fn pop(&mut self)
        requires
            old(self).wf(),
            old(self).depth() > 0,
        ensures
            final(self).wf(),
            final(self).depth() == gate_pop(old(self).depth()),
            final(self).limit() == old(self).limit(),
            final(self).reseed_count() == old(self).reseed_count(),
            final(self).scalars() == old(self).scalars(),
            final(self).pairs() == old(self).pairs(),
            final(self).triples() == old(self).triples(),
    {
        self.current_depth -= 1;
    }

    /// The generator of the next one-dimensional draw. A new generator is
    /// made by `make` from its number in the pool, counted from one, and the
    /// reseed of the pixel.
    pub fn rng1<F: FnOnce(usize, u64) -> A>(&mut self, make: F) -> (g: &mut A)
        requires
            old(self).wf(),
            old(self).scalars().pool().len() < usize::MAX,
            call_requires(
                make,
                ((old(self).scalars().pool().len() + 1) as usize, old(self).reseed_count()),
            ),
        ensures
            final(self).wf(),
            final(self).depth() == old(self).depth(),
            final(self).limit() == old(self).limit(),
            final(self).reseed_count() == old(self).reseed_count(),
            final(self).pairs() == old(self).pairs(),
            final(self).triples() == old(self).triples(),
            final(self).scalars().cursor() == old(self).scalars().cursor() + 1,
            old(self).scalars().cursor() < old(self).scalars().pool().len() ==> {
                &&& *g == old(self).scalars().pool()[old(self).scalars().cursor() as int]
                &&& final(self).scalars().pool() == old(self).scalars().pool().update(
                    old(self).scalars().cursor() as int,
                    *final(g),
                )
            },
            old(self).scalars().cursor() == old(self).scalars().pool().len() ==> {
                &&& call_ensures(
                    make,
                    ((old(self).scalars().pool().len() + 1) as usize, old(self).reseed_count()),
                    *g,
                )
                &&& final(self).scalars().pool() == old(self).scalars().pool().push(*final(g))
            },
    {
        let reseed = self.reseed;
        let seeded = move |index: usize| -> (made: A)
            requires
                call_requires(make, (index, reseed)),
            ensures
                call_ensures(make, (index, reseed), made),
            { make(index, reseed) };
        self.rng1_set.draw(seeded)
    }

    /// The generator of the next two-dimensional draw. A new generator is
    /// made by `make` from its number in the pool, counted from one, and the
    /// reseed of the pixel.
    pub fn rng2<F: FnOnce(usize, u64) -> B>(&mut self, make: F) -> (g: &mut B)
        requires
            old(self).wf(),
            old(self).pairs().pool().len() < usize::MAX,
            call_requires(
                make,
                ((old(self).pairs().pool().len() + 1) as usize, old(self).reseed_count()),
            ),
        ensures
            final(self).wf(),
            final(self).depth() == old(self).depth(),
            final(self).limit() == old(self).limit(),
            final(self).reseed_count() == old(self).reseed_count(),
            final(self).scalars() == old(self).scalars(),
            final(self).triples() == old(self).triples(),
            final(self).pairs().cursor() == old(self).pairs().cursor() + 1,
            old(self).pairs().cursor() < old(self).pairs().pool().len() ==> {
                &&& *g == old(self).pairs().pool()[old(self).pairs().cursor() as int]
                &&& final(self).pairs().pool() == old(self).pairs().pool().update(
                    old(self).pairs().cursor() as int,
                    *final(g),
                )
            },
            old(self).pairs().cursor() == old(self).pairs().pool().len() ==> {
                &&& call_ensures(
                    make,
                    ((old(self).pairs().pool().len() + 1) as usize, old(self).reseed_count()),
                    *g,
                )
                &&& final(self).pairs().pool() == old(self).pairs().pool().push(*final(g))
            },
    {
        let reseed = self.reseed;
        let seeded = move |index: usize| -> (made: B)
            requires
                call_requires(make, (index, reseed)),
            ensures
                call_ensures(make, (index, reseed), made),
            { make(index, reseed) };
        self.rng2_set.draw(seeded)
    }

    /// The generator of the next three-dimensional draw. A new generator is
    /// made by `make` from its number in the pool, counted from one, and the
    /// reseed of the pixel.
    pub fn rng3<F: FnOnce(usize, u64) -> C>(&mut self, make: F) -> (g: &mut C)
        requires
            old(self).wf(),
            old(self).triples().pool().len() < usize::MAX,
            call_requires(
                make,
                ((old(self).triples().pool().len() + 1) as usize, old(self).reseed_count()),
            ),
        ensures
            final(self).wf(),
            final(self).depth() == old(self).depth(),
            final(self).limit() == old(self).limit(),
            final(self).reseed_count() == old(self).reseed_count(),
            final(self).scalars() == old(self).scalars(),
            final(self).pairs() == old(self).pairs(),
            final(self).triples().cursor() == old(self).triples().cursor() + 1,
            old(self).triples().cursor() < old(self).triples().pool().len() ==> {
                &&& *g == old(self).triples().pool()[old(self).triples().cursor() as int]
                &&& final(self).triples().pool() == old(self).triples().pool().update(
                    old(self).triples().cursor() as int,
                    *final(g),
                )
            },
            old(self).triples().cursor() == old(self).triples().pool().len() ==> {
                &&& call_ensures(
                    make,
                    ((old(self).triples().pool().len() + 1) as usize, old(self).reseed_count()),
                    *g,
                )
                &&& final(self).triples().pool() == old(self).triples().pool().push(*final(g))
            },
    {
        let reseed = self.reseed;
        let seeded = move |index: usize| -> (made: C)
            requires
                call_requires(make, (index, reseed)),
            ensures
                call_ensures(make, (index, reseed), made),
            { make(index, reseed) };
        self.rng3_set.draw(seeded)
    }

    /// Starts the next sample of the same pixel: the draws begin again at the
    /// first generator of each pool, and every generator goes on where it was.
    pub fn next_sample(&mut self)
        requires
            old(self).wf(),
            old(self).depth() == 0,
        ensures
            final(self).wf(),
            final(self).depth() == 0,
            final(self).limit() == old(self).limit(),
            final(self).reseed_count() == old(self).reseed_count(),
            final(self).scalars().cursor() == 0,
            final(self).pairs().cursor() == 0,
            final(self).triples().cursor() == 0,
            final(self).scalars().pool() == old(self).scalars().pool(),
            final(self).pairs().pool() == old(self).pairs().pool(),
            final(self).triples().pool() == old(self).triples().pool(),
    {
        self.rng1_set.rewind();
        self.rng2_set.rewind();
        self.rng3_set.rewind();
    }

    /// Starts the next pixel: every generator is dropped, and new ones will
    /// be seeded from the reseed that is made of `word`, 64 random bits.
    pub fn next_pixel(&mut self, word: u64)
        requires
            old(self).wf(),
            old(self).depth() == 0,
        ensures
            final(self).wf(),
            final(self).depth() == 0,
            final(self).limit() == old(self).limit(),
            final(self).reseed_count() == spec_reseed_of(word),
            final(self).scalars().cursor() == 0,
            final(self).pairs().cursor() == 0,
            final(self).triples().cursor() == 0,
            final(self).scalars().pool() == Seq::<A>::empty(),
            final(self).pairs().pool() == Seq::<B>::empty(),
            final(self).triples().pool() == Seq::<C>::empty(),
    {
        self.rng1_set.clear();
        self.rng2_set.clear();
        self.rng3_set.clear();
        self.reseed = reseed_of(word);
    }
}

/// The random number of single precision that is made of 32 random bits:
/// the upper 24 of them, as a count of steps of 2^-24.
pub open spec fn spec_uniform_of(word: u32) -> u32 {
    word / 256
}

/// The random number that is made of 32 random bits.
pub fn uniform_of(word: u32) -> (r: u32)
    ensures
        r == spec_uniform_of(word),
        r < UNIFORM_SPAN,
{
    let r = word >> 8;
    assert(word >> 8 == word / 256 && word >> 8 < 0x100_0000u32) by (bit_vector);
    r
}

/// The share of jitter that a direction is given: `amount`, held between
/// `0` and `0.999` so that the jittered direction never vanishes.
pub fn blur_strength(amount: Scalar) -> (r: Scalar)
    ensures
        r == amount.spec_clamp(Scalar { bits: ZERO_BITS }, Scalar { bits: MAX_BLUR_BITS }),
        !amount.is_nan() ==> 0 <= r.rank() <= MAX_BLUR_BITS,
{
    amount.clamp(Scalar::from_bits(ZERO_BITS), Scalar::from_bits(MAX_BLUR_BITS))
}

/// From depth 0, every attempt before the limit is admitted and takes the
/// path one level deeper; at the limit the next attempt is refused and the
/// depth stays.
pub proof fn lemma_gate_fills(limit: nat, count: nat)
    ensures
        count <= limit ==> depth_after_pushes(limit as int, count) == count,
        count < limit ==> gate_admits(depth_after_pushes(limit as int, count), limit as int),
        count >= limit ==> depth_after_pushes(limit as int, count) == limit,
        count >= limit ==> !gate_admits(depth_after_pushes(limit as int, count), limit as int),
    decreases count,
{
    if count > 0 {
        lemma_gate_fills(limit, (count - 1) as nat);
    }
}

/// Giving back `count` levels lowers the depth by `count`.
pub proof fn lemma_gate_empties(depth: int, count: nat)
    ensures
        depth_after_pops(depth, count) == depth - count,
    decreases count,
{
    if count > 0 {
        lemma_gate_empties(depth, (count - 1) as nat);
    }
}

/// Whoever takes as many levels as the limit allows is refused the next one,
/// and is back at depth 0 after giving back as many levels as were taken.
pub proof fn lemma_gate_closes_and_reopens(limit: nat)
    ensures
        forall|count: nat|
            count < limit ==> gate_admits(#[trigger] depth_after_pushes(limit as int, count), limit as int),
        !gate_admits(depth_after_pushes(limit as int, limit), limit as int),
        depth_after_pops(depth_after_pushes(limit as int, limit), limit) == 0,
{
    assert forall|count: nat| count < limit implies gate_admits(
        #[trigger] depth_after_pushes(limit as int, count),
        limit as int,
    ) by {
        lemma_gate_fills(limit, count);
    }
    lemma_gate_fills(limit, limit);
    lemma_gate_empties(limit as int, limit);
}

} // verus!
