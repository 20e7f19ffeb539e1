//! Generational slot table: a growable table of optional values, each slot
//! tagged with a generation counter. The table issues opaque handles
//! `(index, generation)` and detects stale handles without scanning.

use vstd::prelude::*;

verus! {

use core::marker::PhantomData;
use vstd::pervasive::VecAdditionalExecFns;

/// A stable reference into a [`GenerationVec`]: an index plus the generation
/// the slot had when the handle was issued. The phantom type parameter ties a
/// handle to the table it came from, so handles of different tables cannot be
/// confused at compile time. A handle is a weak reference with a staleness
/// tag, never a pointer.
#[derive(Debug, PartialEq)]
pub struct GenerationID<M> {
    pub id: usize,
    pub generation: usize,
    pub _marker: PhantomData<M>,
}

impl<M> Clone for GenerationID<M> {
    fn clone(&self) -> (res: GenerationID<M>)
        ensures
            res == *self,
    {
        *self
    }
}

impl<M> Copy for GenerationID<M> {

}

/// A handle is valid for a table exactly when its index is in bounds, the
/// slot there is occupied, and the slot's generation equals the handle's.
pub open spec fn seq_valid<T>(s: Seq<(usize, Option<T>)>, h: GenerationID<T>) -> bool {
    &&& h.id < s.len()
    &&& s[h.id as int].0 == h.generation
    &&& s[h.id as int].1 is Some
}

/// `i` is the lowest vacant index of `s`, or `s.len()` when every slot is
/// occupied. This is the first-fit policy that [`GenerationVec::push`]
/// follows when it reuses a slot.
pub open spec fn is_first_free<T>(s: Seq<(usize, Option<T>)>, i: int) -> bool {
    &&& 0 <= i <= s.len()
    &&& i < s.len() ==> s[i].1 is None
    &&& forall|j: int| 0 <= j < i ==> s[j].1 is Some
}

/// No vacant slot's generation counter stands at the very last value it can
/// hold: `push` may then increment it. A table whose slots have lived any
/// realistic number of recycles satisfies this trivially.
pub open spec fn generations_below_limit<T>(s: Seq<(usize, Option<T>)>) -> bool {
    forall|j: int| #![trigger s[j]] 0 <= j < s.len() && s[j].1 is None ==> s[j].0 < usize::MAX
}

/// A growable table of `(generation, occupant)` slots. Slots are never
/// removed, only vacated; a vacated slot keeps its generation until a later
/// `push` reuses it with the generation incremented, which permanently
/// invalidates every handle issued against the prior generation.
#[derive(Clone, Debug, PartialEq)]
pub struct GenerationVec<T> {
    pub inner: Vec<(usize, Option<T>)>,
}

impl<T> GenerationVec<T> {
    /// Whether `h` currently refers to an occupant of this table.
    pub open spec fn valid(self, h: GenerationID<T>) -> bool {
        seq_valid(self.inner@, h)
    }

    pub fn new() -> (r: Self)
        ensures
            r.inner@.len() == 0,
    {
        GenerationVec { inner: Vec::new() }
    }

    /// Returns the occupant only if the handle is valid: absence covers an
    /// out-of-bounds index, a vacant slot, and a generation mismatch alike,
    /// so a stale handle is indistinguishable from one that never existed.
    pub fn get(&self, id: GenerationID<T>) -> (r: Option<&T>)
        ensures
            r is Some <==> self.valid(id),
            r matches Some(v) ==> self.inner@[id.id as int].1 == Some(*v),
    {
        if id.id < self.inner.len() {
            let slot = &self.inner[id.id];
            if slot.0 == id.generation {
                match &slot.1 {
                    Some(item) => Some(item),
                    None => None,
                }
            } else {
                None
            }
        } else {
            None
        }
    }

    /// Stores `item` in the lowest vacant slot, incrementing that slot's
    /// generation; appends a fresh slot with generation 0 when no slot is
    /// vacant. Never fails. The precondition only rules out overflowing a
    /// generation counter, which a realistic table lifetime cannot reach.
    pub fn push(&mut self, item: T) -> (r: GenerationID<T>)
        requires
            generations_below_limit(old(self).inner@),
        ensures
            is_first_free(old(self).inner@, r.id as int),
            r.id as int == old(self).inner@.len() ==> r.generation == 0
                && final(self).inner@ == old(self).inner@.push((0usize, Some(item))),
            (r.id as int) < old(self).inner@.len() ==> r.generation == old(self).inner@[r.id as int].0 + 1
                && final(self).inner@ == old(self).inner@.update(
                r.id as int,
                (r.generation, Some(item)),
            ),
            final(self).valid(r),
            final(self).inner@[r.id as int].1 == Some(item),
    {
        let mut i: usize = 0;
        while i < self.inner.len()
            invariant
                i <= self.inner.len(),
                self.inner@ == old(self).inner@,
                generations_below_limit(old(self).inner@),
                forall|j: int| 0 <= j < i ==> self.inner@[j].1 is Some,
            decreases self.inner.len() - i,
        {
            if self.inner[i].1.is_none() {
                proof {
                    assert(old(self).inner@[i as int].1 is None);
                    assert(old(self).inner@[i as int].0 < usize::MAX);
                }
                let new_gen = self.inner[i].0 + 1;
                self.inner.set(i, (new_gen, Some(item)));
                return GenerationID { id: i, generation: new_gen, _marker: PhantomData };
            }
            i = i + 1;
        }
        let idx = self.inner.len();
        self.inner.push((0, Some(item)));
        GenerationID { id: idx, generation: 0, _marker: PhantomData }
    }

    /// Vacates the slot at `index` if it is occupied and returns the removed
    /// value; returns `None` for a vacant slot or an out-of-bounds index.
    /// The slot keeps its generation: the occupant's absence alone already
    /// invalidates every outstanding handle to it, and the next `push` that
    /// reuses the slot increments the generation.
    pub fn remove(&mut self, index: usize) -> (r: Option<T>)
        ensures
            (index as int) < old(self).inner@.len() && old(self).inner@[index as int].1 is Some
                ==> r == old(self).inner@[index as int].1 && final(self).inner@ == old(
                self,
            ).inner@.update(index as int, (old(self).inner@[index as int].0, None)),
            !((index as int) < old(self).inner@.len() && old(self).inner@[index as int].1 is Some)
                ==> r is None && final(self).inner@ == old(self).inner@,
    {
        if index < self.inner.len() {
            let gen = self.inner[index].0;
            let mut taken: (usize, Option<T>) = (gen, None);
            self.inner.set_and_swap(index, &mut taken);
            proof {
                if old(self).inner@[index as int].1 is None {
                    assert(self.inner@ =~= old(self).inner@);
                }
            }
            taken.1
        } else {
            None
        }
    }
}

/// Handle uniqueness: two handles are never simultaneously valid for the
/// same table if they share an index but differ in generation, because
/// validity pins a handle's generation to the slot's single current one.
pub proof fn lemma_handle_uniqueness<T>(
    t: GenerationVec<T>,
    a: GenerationID<T>,
    b: GenerationID<T>,
)
    requires
        t.valid(a),
        t.valid(b),
        a.id == b.id,
    ensures
        a.generation == b.generation,
{
}

/// First-fit reuse: vacating slot `i` of a fully occupied table makes `i`
/// the lowest vacant index, so the next `push` reuses exactly slot `i`
/// (`is_first_free` is what `push` ensures of the handle it returns).
pub proof fn lemma_first_fit_reuse<T>(s: Seq<(usize, Option<T>)>, i: int)
    requires
        0 <= i < s.len(),
        forall|j: int| #![trigger s[j]] 0 <= j < s.len() ==> s[j].1 is Some,
    ensures
        is_first_free(s.update(i, (s[i].0, None)), i),
{
}

/// Stale invalidation: a valid handle turns invalid the moment its slot is
/// vacated, and stays invalid when a later `push` refills the slot, since
/// the refill increments the slot's generation past the handle's.
pub proof fn lemma_stale_invalidation<T>(s: Seq<(usize, Option<T>)>, h: GenerationID<T>, y: T)
    requires
        seq_valid(s, h),
        s[h.id as int].0 < usize::MAX,
    ensures
        !seq_valid(s.update(h.id as int, (s[h.id as int].0, None)), h),
        !seq_valid(
            s.update(h.id as int, (s[h.id as int].0, None)).update(
                h.id as int,
                (((s[h.id as int].0 + 1) as usize), Some(y)),
            ),
            h,
        ),
{
}

/// One vacate-and-refill cycle of slot `i`: the table that `remove(i)`
/// followed by a `push` reusing slot `i` leaves behind.
pub open spec fn refill_cycle<T>(s: Seq<(usize, Option<T>)>, i: int, y: T) -> Seq<
    (usize, Option<T>),
> {
    s.update(i, (((s[i].0 + 1) as usize), Some(y)))
}

/// `k` successive vacate-and-refill cycles of slot `i`, refilling with
/// `ys[0], ..., ys[k - 1]` in turn.
pub open spec fn refill_cycles<T>(s: Seq<(usize, Option<T>)>, i: int, ys: Seq<T>, k: int) -> Seq<
    (usize, Option<T>),
>
    decreases k,
{
    if k <= 0 {
        s
    } else {
        refill_cycle(refill_cycles(s, i, ys, k - 1), i, ys[k - 1])
    }
}

/// Ties one cycle to the operations' contracts: on a fully occupied table,
/// vacating slot `i` (as `remove(i)` ensures) leaves `i` first-fit, and the
/// reuse that `push` then ensures produces exactly `refill_cycle(s, i, y)`.
pub proof fn lemma_cycle_is_remove_then_push<T>(s: Seq<(usize, Option<T>)>, i: int, y: T)
    requires
        0 <= i < s.len(),
        forall|j: int| #![trigger s[j]] 0 <= j < s.len() ==> s[j].1 is Some,
        s[i].0 < usize::MAX,
    ensures
        is_first_free(s.update(i, (s[i].0, None)), i),
        s.update(i, (s[i].0, None)).update(i, (((s[i].0 + 1) as usize), Some(y))) =~= refill_cycle(
            s,
            i,
            y,
        ),
{
}

/// Monotonic generation: after `k` remove/refill cycles of slot `i`, the
/// slot's generation equals its generation before the cycles plus `k`.
pub proof fn lemma_monotonic_generation<T>(s: Seq<(usize, Option<T>)>, i: int, ys: Seq<T>, k: int)
    requires
        0 <= i < s.len(),
        0 <= k <= ys.len(),
        s[i].0 + k <= usize::MAX,
    ensures
        refill_cycles(s, i, ys, k).len() == s.len(),
        refill_cycles(s, i, ys, k)[i].0 == s[i].0 + k,
    decreases k,
{
    if k > 0 {
        lemma_monotonic_generation(s, i, ys, k - 1);
    }
}

} // verus!
