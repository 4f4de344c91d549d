//! Bitmap-backed tracker of aligned contiguous ranges within a region of `C` elements.
use vstd::arithmetic::div_mod::{lemma_fundamental_div_mod, lemma_mod_pos_bound};
use vstd::prelude::*;

verus! {

/// Returned when no free run large enough for a request exists.
#[derive(Debug, Clone, Copy, PartialEq, Eq, Structural)]
pub struct OutOfMemoryError;

/// Every element of `arr` in `[start, start + len)` is free.
pub open spec fn range_free(arr: Seq<bool>, start: int, len: int) -> bool {
    forall|i: int| start <= i < start + len ==> !arr[i]
}

/// `count` chunks of `alignment` elements, starting at chunk number `chunk`,
/// lie inside `arr` and are all free.
pub open spec fn run_fits(arr: Seq<bool>, alignment: int, count: int, chunk: int) -> bool {
    &&& 0 <= chunk
    &&& (chunk + count) * alignment <= arr.len()
    &&& range_free(arr, chunk * alignment, count * alignment)
}

/// Some aligned run of `count` free chunks exists in `arr`.
pub open spec fn has_fit(arr: Seq<bool>, alignment: int, count: int) -> bool {
    exists|chunk: int| run_fits(arr, alignment, count, chunk)
}

/// `start` is where a first-fit request for `count` chunks of `alignment`
/// elements lands in `arr`: a multiple of `alignment` at which the run fits,
/// with no fitting run at a lower chunk.
pub open spec fn first_fit_at(arr: Seq<bool>, alignment: int, count: int, start: int) -> bool {
    &&& start % alignment == 0
    &&& run_fits(arr, alignment, count, start / alignment)
    &&& forall|s: int| 0 <= s < start / alignment ==> !run_fits(arr, alignment, count, s)
}

/// `arr` with every element of `[start, start + len)` set to `v`.
pub open spec fn mark(arr: Seq<bool>, start: int, len: int, v: bool) -> Seq<bool> {
    Seq::new(arr.len(), |i: int| if start <= i < start + len { v } else { arr[i] })
}

/// Element `i` lies inside the range `(start, len)`.
pub open spec fn in_range(r: (int, int), i: int) -> bool {
    r.0 <= i < r.0 + r.1
}

/// Element `i` lies inside some live claim.
pub open spec fn covered(claims: Map<nat, (int, int)>, i: int) -> bool {
    exists|id: nat| #[trigger] claims.contains_key(id) && in_range(claims[id], i)
}

/// No element lies inside two distinct live claims.
pub open spec fn pairwise_disjoint(claims: Map<nat, (int, int)>) -> bool {
    forall|a: nat, b: nat, i: int|
        #![trigger claims.contains_key(a), claims.contains_key(b), in_range(claims[a], i), in_range(claims[b], i)]
        claims.contains_key(a) && claims.contains_key(b) && a != b && in_range(claims[a], i)
            ==> !in_range(claims[b], i)
}

/// Every live claim lies inside a region of `cap` elements.
pub open spec fn claims_in_bounds(claims: Map<nat, (int, int)>, cap: int) -> bool {
    forall|id: nat| #[trigger] claims.contains_key(id) ==> 0 <= claims[id].0 && 0 <= claims[id].1
        && claims[id].0 + claims[id].1 <= cap
}

/// The occupancy bitmap is exactly the union of the live claims' ranges.
pub open spec fn occupancy_matches(arr: Seq<bool>, claims: Map<nat, (int, int)>) -> bool {
    forall|i: int| 0 <= i < arr.len() ==> (#[trigger] arr[i] <==> covered(claims, i))
}

proof fn lemma_chunks_bound(x: int, a: int, c: int)
    requires
        a > 0,
        x >= 0,
        c >= 0,
        x * a <= c,
    ensures
        x <= c / a,
{
    lemma_fundamental_div_mod(c, a);
    lemma_mod_pos_bound(c, a);
    let q = c / a;
    if x > q {
        assert(x * a >= (q + 1) * a) by (nonlinear_arith)
            requires
                x >= q + 1,
                a > 0,
        ;
        assert((q + 1) * a == a * q + a) by (nonlinear_arith);
    }
}

proof fn lemma_chunks_fit(x: int, a: int, c: int)
    requires
        a > 0,
        0 <= x <= c / a,
        c >= 0,
    ensures
        x * a <= c,
{
    lemma_fundamental_div_mod(c, a);
    lemma_mod_pos_bound(c, a);
    let q = c / a;
    assert(x * a <= q * a) by (nonlinear_arith)
        requires
            x <= q,
            a > 0,
    ;
    assert(q * a == a * q) by (nonlinear_arith);
}

/// Releasing a range makes any aligned run that fits inside it available
/// again: a request for at most as many aligned elements finds a fit, at the
/// freed range's start or below it.
pub proof fn lemma_released_range_refits(arr: Seq<bool>, start: int, len: int, alignment: int, count: int)
    requires
        alignment > 0,
        count >= 0,
        0 <= start,
        start + len <= arr.len(),
        start % alignment == 0,
        count * alignment <= len,
    ensures
        run_fits(mark(arr, start, len, false), alignment, count, start / alignment),
        has_fit(mark(arr, start, len, false), alignment, count),
        forall|s: int|
            first_fit_at(mark(arr, start, len, false), alignment, count, s)
            && (forall|j: int| 0 <= j < start / alignment ==> !run_fits(mark(arr, start, len, false), alignment, count, j))
            ==> s == start,
{
    let freed = mark(arr, start, len, false);
    let c = start / alignment;
    lemma_fundamental_div_mod(start, alignment);
    assert(c * alignment == start) by (nonlinear_arith)
        requires start == alignment * c + 0;
    assert((c + count) * alignment == c * alignment + count * alignment) by (nonlinear_arith);
    assert(c >= 0) by (nonlinear_arith)
        requires start >= 0, alignment > 0, c * alignment == start;
    assert(run_fits(freed, alignment, count, c));
    assert forall|s: int|
        first_fit_at(freed, alignment, count, s)
        && (forall|j: int| 0 <= j < c ==> !run_fits(freed, alignment, count, j))
        implies s == start by {
        let q = s / alignment;
        assert(q >= 0);
        if q < c {
            assert(!run_fits(freed, alignment, count, q));
        } else if q > c {
            assert(!run_fits(freed, alignment, count, c));
        }
        lemma_fundamental_div_mod(s, alignment);
        assert(s == alignment * q);
        assert(alignment * q == q * alignment) by (nonlinear_arith);
    }
}

/// A request for more aligned chunks than the region holds never fits.
pub proof fn lemma_oversized_request_has_no_fit(arr: Seq<bool>, alignment: int, count: int)
    requires
        alignment > 0,
        count > (arr.len() as int) / alignment,
    ensures
        !has_fit(arr, alignment, count),
{
    assert forall|chunk: int| !run_fits(arr, alignment, count, chunk) by {
        if run_fits(arr, alignment, count, chunk) {
            lemma_chunks_bound(chunk + count, alignment, arr.len() as int);
        }
    }
}

/// An exclusive claim on the elements `[start, start + len)` of one tracker.
/// It cannot be copied; handing it back to the tracker is the only way to
/// return its elements.
pub struct ClaimedMemoryRange {
    start: usize,
    length: usize,
    id: Ghost<nat>,
}

impl ClaimedMemoryRange {
    /// First element of the claim.
    pub closed spec fn spec_start(&self) -> int {
        self.start as int
    }

    /// Number of elements in the claim.
    pub closed spec fn spec_len(&self) -> int {
        self.length as int
    }

    /// The identity under which the owning tracker records this claim.
    pub closed spec fn id(&self) -> nat {
        self.id@
    }

    /// The claim as a `(start, length)` pair.
    pub open spec fn range(&self) -> (int, int) {
        (self.spec_start(), self.spec_len())
    }

    /// The start and the end (exclusive) of the claimed elements.
    pub fn address_range(&self) -> (r: std::ops::Range<usize>)
        requires
            self.spec_start() + self.spec_len() <= usize::MAX,
        ensures
            r.start == self.spec_start(),
            r.end == self.spec_start() + self.spec_len(),
    {
        self.start..(self.start + self.length)
    }

    pub fn start(&self) -> (r: usize)
        ensures
            r == self.spec_start(),
    {
        self.start
    }

    pub fn size(&self) -> (r: usize)
        ensures
            r == self.spec_len(),
    {
        self.length
    }
}

/// Occupancy bitmap of a region of `C` elements (`false` = free).
pub struct ContiguousMemoryTracker<const C: usize> {
    allocation_arr: Vec<bool>,
    live: Ghost<Map<nat, (int, int)>>,
    next_id: Ghost<nat>,
}

impl<const C: usize> ContiguousMemoryTracker<C> {
    /// The occupancy bitmap.
    pub closed spec fn view(&self) -> Seq<bool> {
        self.allocation_arr@
    }

    /// The live claims, by identity, as `(start, length)` pairs.
    pub closed spec fn claims(&self) -> Map<nat, (int, int)> {
        self.live@
    }

    /// Well-formedness: the bitmap has `C` entries and is exactly the
    /// disjoint union of the live claims.
    pub closed spec fn wf(&self) -> bool {
        &&& self.allocation_arr@.len() == C
        &&& occupancy_matches(self.allocation_arr@, self.live@)
        &&& pairwise_disjoint(self.live@)
        &&& claims_in_bounds(self.live@, C as int)
        &&& forall|id: nat| #[trigger] self.live@.contains_key(id) ==> id < self.next_id@
    }

    /// The claim `c` is live in this tracker, with its recorded range.
    pub open spec fn owns(&self, c: &ClaimedMemoryRange) -> bool {
        self.claims().contains_key(c.id()) && self.claims()[c.id()] == c.range()
    }

    /// What well-formedness means for an observer: the bitmap has `C`
    /// entries, it is set exactly on the elements of live claims, and no
    /// element belongs to two live claims.
    pub proof fn lemma_occupancy_is_union_of_claims(&self)
        requires
            self.wf(),
        ensures
            self@.len() == C,
            occupancy_matches(self@, self.claims()),
            pairwise_disjoint(self.claims()),
            claims_in_bounds(self.claims(), C as int),
    {
    }

    pub fn new() -> (r: Self)
        ensures
            r.wf(),
            r@ == Seq::new(C as nat, |i: int| false),
            r.claims().is_empty(),
    {
        let mut allocation_arr: Vec<bool> = Vec::new();
        let mut i: usize = 0;
        while i < C
            invariant
                i <= C,
                allocation_arr@ == Seq::new(i as nat, |j: int| false),
            decreases C - i,
        {
            allocation_arr.push(false);
            i = i + 1;
            assert(allocation_arr@ =~= Seq::new(i as nat, |j: int| false));
        }
        let r = Self { allocation_arr, live: Ghost(Map::empty()), next_id: Ghost(0) };
        assert(r@ =~= Seq::new(C as nat, |i: int| false));
        r
    }

    /// Whether element `i` is claimed.
    pub fn is_occupied(&self, i: usize) -> (r: bool)
        requires
            self.wf(),
            i < C,
        ensures
            r == self@[i as int],
    {
        self.allocation_arr[i]
    }

    /// Whether every element of `[start, start + len)` is free.
    fn range_is_free(&self, start: usize, len: usize) -> (r: bool)
        requires
            start + len <= self@.len(),
        ensures
            r == range_free(self@, start as int, len as int),
    {
        let n = self.allocation_arr.len();
        let mut j: usize = 0;
        let mut free = true;
        while j < len && free
            invariant
                j <= len,
                n == self@.len(),
                start + len <= self@.len(),
                free == range_free(self@, start as int, j as int),
            decreases len - j,
        {
            if self.allocation_arr[start + j] {
                free = false;
            }
            j = j + 1;
        }
        free
    }

    /// Sets every element of `[start, start + len)` to `v`.
    fn mark_range(&mut self, start: usize, len: usize, v: bool)
        requires
            start + len <= old(self)@.len(),
        ensures
            final(self)@ == mark(old(self)@, start as int, len as int, v),
            final(self).live == old(self).live,
            final(self).next_id == old(self).next_id,
    {
        let n = self.allocation_arr.len();
        let mut j: usize = 0;
        while j < len
            invariant
                j <= len,
                n == self@.len(),
                start + len <= self@.len(),
                self@ == mark(old(self)@, start as int, j as int, v),
                self.live == old(self).live,
                self.next_id == old(self).next_id,
            decreases len - j,
        {
            self.allocation_arr.set(start + j, v);
            j = j + 1;
            assert(self@ =~= mark(old(self)@, start as int, j as int, v));
        }
        assert(self@ =~= mark(old(self)@, start as int, len as int, v));
    }

    /// Marks `[start, start + len)`, which must be free, and records it as a new claim.
    fn claim(&mut self, start: usize, len: usize) -> (r: ClaimedMemoryRange)
        requires
            old(self).wf(),
            start + len <= C,
            range_free(old(self)@, start as int, len as int),
        ensures
            final(self).wf(),
            final(self)@ == mark(old(self)@, start as int, len as int, true),
            r.range() == (start as int, len as int),
            !old(self).claims().contains_key(r.id()),
            final(self).claims() == old(self).claims().insert(r.id(), r.range()),
    {
        let ghost old_arr = self@;
        let ghost old_live = self.live@;
        let ghost id = self.next_id@;
        self.mark_range(start, len, true);
        self.live = Ghost(self.live@.insert(id, (start as int, len as int)));
        self.next_id = Ghost(id + 1);
        let r = ClaimedMemoryRange { start, length: len, id: Ghost(id) };
        assert forall|i: int| 0 <= i < self.allocation_arr@.len() implies (#[trigger] self.allocation_arr@[i] <==> covered(self.live@, i)) by {
            if in_range((start as int, len as int), i) {
                assert(self.live@.contains_key(id));
                assert(self.live@[id] == (start as int, len as int));
                assert(in_range(self.live@[id], i));
                assert(covered(self.live@, i));
            } else if old_arr[i] {
                let cid = choose|cid: nat| #[trigger] old_live.contains_key(cid) && in_range(old_live[cid], i);
                assert(cid != id);
                assert(self.live@.contains_key(cid));
                assert(self.live@[cid] == old_live[cid]);
                assert(covered(self.live@, i));
            } else {
                if covered(self.live@, i) {
                    let cid = choose|cid: nat| #[trigger] self.live@.contains_key(cid) && in_range(self.live@[cid], i);
                    assert(old_live.contains_key(cid));
                }
            }
        }
        assert forall|a: nat, b: nat, i: int|
            self.live@.contains_key(a) && self.live@.contains_key(b) && a != b && in_range(self.live@[a], i)
            implies !in_range(self.live@[b], i) by {
            if a == id {
                if in_range(self.live@[b], i) {
                    assert(old_live.contains_key(b));
                    assert(old_arr[i]);
                }
            } else if b == id {
                if in_range(self.live@[b], i) {
                    assert(old_live.contains_key(a));
                    assert(old_arr[i]);
                }
            } else {
                assert(old_live.contains_key(a) && old_live.contains_key(b));
            }
        }
        r
    }

    /// Reserves `aligned_chunks` chunks of `alignment` elements, first-fit:
    /// the claim starts at the lowest multiple of `alignment` from which that
    /// many elements are free. Fails, changing nothing, when no such run exists.
    pub fn request_aligned_memory(&mut self, alignment: usize, aligned_chunks: usize) -> (r: Result<ClaimedMemoryRange, OutOfMemoryError>)
        requires
            old(self).wf(),
            alignment > 0,
        ensures
            final(self).wf(),
            match r {
                Ok(claim) => {
                    &&& claim.spec_len() == aligned_chunks * alignment
                    &&& first_fit_at(old(self)@, alignment as int, aligned_chunks as int, claim.spec_start())
                    &&& final(self)@ == mark(old(self)@, claim.spec_start(), claim.spec_len(), true)
                    &&& !old(self).claims().contains_key(claim.id())
                    &&& final(self).claims() == old(self).claims().insert(claim.id(), claim.range())
                },
                Err(_) => {
                    &&& !has_fit(old(self)@, alignment as int, aligned_chunks as int)
                    &&& *final(self) == *old(self)
                },
            },
    {
        let a = alignment;
        let n = aligned_chunks;
        let ghost arr = self@;
        let num_chunks: usize = C / a;
        proof {
            lemma_fundamental_div_mod(C as int, a as int);
            lemma_mod_pos_bound(C as int, a as int);
        }
        if n == 0 {
            assert((0 + 0) * (a as int) == 0) by (nonlinear_arith);
            assert(0 * (a as int) == 0) by (nonlinear_arith);
            assert(run_fits(arr, a as int, 0, 0));
            let claim = self.claim(0, 0);
            assert(0int / (a as int) == 0 && 0int % (a as int) == 0) by (nonlinear_arith)
                requires a > 0;
            assert(n * a == 0) by (nonlinear_arith) requires n == 0;
            return Ok(claim);
        }
        let mut run_start: usize = 0;
        let mut run_len: usize = 0;
        let mut k: usize = 0;
        while k < num_chunks
            invariant
                self.wf(),
                self@ == arr,
                *self == *old(self),
                a == alignment,
                n == aligned_chunks,
                a > 0,
                n > 0,
                num_chunks == C / a,
                arr.len() == C,
                run_start + run_len == k,
                k <= num_chunks,
                run_len < n,
                range_free(arr, run_start * a, run_len * a),
                forall|s: int| 0 <= s < run_start ==> !run_fits(arr, a as int, n as int, s),
            decreases num_chunks - k,
        {
            proof {
                lemma_chunks_fit(k + 1, a as int, C as int);
                assert((k + 1) * a == k * a + a) by (nonlinear_arith);
            }
            let base: usize = k * a;
            let free = self.range_is_free(base, a);
            if free {
                proof {
                    assert(k * a == run_start * a + run_len * a) by (nonlinear_arith)
                        requires k == run_start + run_len;
                    assert((run_len + 1) * a == run_len * a + a) by (nonlinear_arith);
                }
                run_len = run_len + 1;
                if run_len == n {
                    proof {
                        assert((run_start + n) * a == k * a + a) by (nonlinear_arith)
                            requires k + 1 == run_start + n;
                        assert(run_fits(arr, a as int, n as int, run_start as int));
                        assert((run_start * a) / (a as int) == run_start) by (nonlinear_arith)
                            requires a > 0;
                        assert((run_start * a) % (a as int) == 0) by (nonlinear_arith)
                            requires a > 0;
                    }
                    let start: usize = run_start * a;
                    let len: usize = n * a;
                    let claim = self.claim(start, len);
                    return Ok(claim);
                }
            } else {
                let ghost j = choose|j: int| k * a <= j < k * a + a && arr[j];
                assert forall|s: int| 0 <= s < k + 1 implies !run_fits(arr, a as int, n as int, s) by {
                    if s >= run_start && run_fits(arr, a as int, n as int, s) {
                        assert(s + n > k);
                        assert(s * a <= k * a) by (nonlinear_arith)
                            requires s <= k, a > 0;
                        assert((s + n) * a >= (k + 1) * a) by (nonlinear_arith)
                            requires s + n >= k + 1, a > 0;
                        assert((s + n) * a == s * a + n * a) by (nonlinear_arith);
                        assert(!arr[j]);
                    }
                }
                run_start = k + 1;
                run_len = 0;
            }
            k = k + 1;
        }
        assert forall|s: int| !run_fits(arr, a as int, n as int, s) by {
            if run_fits(arr, a as int, n as int, s) {
                lemma_chunks_bound(s + n, a as int, C as int);
            }
        }
        Err(OutOfMemoryError)
    }

    /// Hands a claim back: its elements become free again. The claim is
    /// consumed, so no claim can be handed back twice or used afterwards.
    pub fn release(&mut self, claim: ClaimedMemoryRange)
        requires
            old(self).wf(),
            old(self).owns(&claim),
        ensures
            final(self).wf(),
            final(self)@ == mark(old(self)@, claim.spec_start(), claim.spec_len(), false),
            final(self).claims() == old(self).claims().remove(claim.id()),
    {
        let ghost old_arr = self@;
        let ghost old_live = self.live@;
        let ghost id = claim.id@;
        self.mark_range(claim.start, claim.length, false);
        self.live = Ghost(self.live@.remove(id));
        assert forall|i: int| 0 <= i < self.allocation_arr@.len() implies (#[trigger] self.allocation_arr@[i] <==> covered(self.live@, i)) by {
            if in_range(claim.range(), i) {
                if covered(self.live@, i) {
                    let cid = choose|cid: nat| #[trigger] self.live@.contains_key(cid) && in_range(self.live@[cid], i);
                    assert(old_live.contains_key(cid) && old_live.contains_key(id));
                }
            } else if old_arr[i] {
                let cid = choose|cid: nat| #[trigger] old_live.contains_key(cid) && in_range(old_live[cid], i);
                assert(cid != id);
                assert(self.live@.contains_key(cid));
            } else {
                if covered(self.live@, i) {
                    let cid = choose|cid: nat| #[trigger] self.live@.contains_key(cid) && in_range(self.live@[cid], i);
                    assert(old_live.contains_key(cid));
                }
            }
        }
        assert forall|a: nat, b: nat, i: int|
            self.live@.contains_key(a) && self.live@.contains_key(b) && a != b && in_range(self.live@[a], i)
            implies !in_range(self.live@[b], i) by {
            assert(old_live.contains_key(a) && old_live.contains_key(b));
        }
    }
}

} // verus!
