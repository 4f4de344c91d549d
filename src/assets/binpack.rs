//! First-fit-decreasing bin packing.
use vstd::prelude::*;

verus! {

/// Sum of a sequence of sizes.
pub open spec fn sum_sizes(s: Seq<usize>) -> int
    decreases s.len(),
{
    if s.len() == 0 {
        0
    } else {
        sum_sizes(s.drop_last()) + s.last()
    }
}

/// A bin: the items placed in it and the room they take.
pub struct Bin<T> {
    vec: Vec<T>,
    current_size: usize,
    capacity: usize,
    sizes: Ghost<Seq<usize>>,
}

/// An item and the room it takes.
pub struct BinItem<T> {
    item: T,
    size: usize,
}

#[derive(Clone, Copy, Debug, PartialEq, Eq, Structural)]
pub enum BinPackError {
    ItemTooLarge,
}

impl<T> BinItem<T> {
    pub closed spec fn spec_size(&self) -> usize {
        self.size
    }

    pub closed spec fn spec_item(&self) -> T {
        self.item
    }

    pub fn new(item: T, size: usize) -> (r: Self)
        ensures
            r.spec_item() == item,
            r.spec_size() == size,
    {
        Self { item, size }
    }

    pub fn size(&self) -> (r: usize)
        ensures
            r == self.spec_size(),
    {
        self.size
    }
}

impl<T> Bin<T> {
    /// The items in the bin, in the order they were added.
    pub closed spec fn view(&self) -> Seq<T> {
        self.vec@
    }

    /// The sizes of the items in the bin, in the same order.
    pub closed spec fn spec_sizes(&self) -> Seq<usize> {
        self.sizes@
    }

    pub closed spec fn spec_current_size(&self) -> int {
        self.current_size as int
    }

    pub closed spec fn spec_capacity(&self) -> int {
        self.capacity as int
    }

    /// The room used is the sum of the item sizes, and it fits the capacity.
    pub closed spec fn wf(&self) -> bool {
        &&& self.vec@.len() == self.sizes@.len()
        &&& self.current_size == sum_sizes(self.sizes@)
        &&& self.current_size <= self.capacity
    }

    pub fn new(capacity: usize) -> (r: Self)
        ensures
            r.wf(),
            r@ == Seq::<T>::empty(),
            r.spec_sizes() == Seq::<usize>::empty(),
            r.spec_capacity() == capacity,
    {
        Self { vec: Vec::new(), current_size: 0, capacity, sizes: Ghost(Seq::empty()) }
    }

    /// Whether `item` fits in the room left.
    pub fn item_fits(&self, item: &BinItem<T>) -> (r: bool)
        requires
            self.wf(),
        ensures
            r == (self.spec_current_size() + item.spec_size() <= self.spec_capacity()),
    {
        item.size <= self.capacity - self.current_size
    }

    /// Places an item that fits.
    pub fn add(&mut self, item: BinItem<T>)
        requires
            old(self).wf(),
            old(self).spec_current_size() + item.spec_size() <= old(self).spec_capacity(),
        ensures
            final(self).wf(),
            final(self)@ == old(self)@.push(item.spec_item()),
            final(self).spec_sizes() == old(self).spec_sizes().push(item.spec_size()),
            final(self).spec_current_size() == old(self).spec_current_size() + item.spec_size(),
            final(self).spec_capacity() == old(self).spec_capacity(),
    {
        let ghost old_sizes = self.sizes@;
        self.vec.push(item.item);
        self.current_size = self.current_size + item.size;
        self.sizes = Ghost(self.sizes@.push(item.size));
        assert(self.sizes@.drop_last() =~= old_sizes);
    }

    pub fn len(&self) -> (r: usize)
        requires
            self.wf(),
        ensures
            r == self@.len(),
    {
        self.vec.len()
    }

    pub fn current_size(&self) -> (r: usize)
        ensures
            r == self.spec_current_size(),
    {
        self.current_size
    }

    pub fn capacity(&self) -> (r: usize)
        ensures
            r == self.spec_capacity(),
    {
        self.capacity
    }

    /// The items of the bin.
    pub fn into_items(self) -> (r: Vec<T>)
        ensures
            r@ == self@,
    {
        self.vec
    }
}

/// Number of items over all bins.
pub open spec fn total_items<T>(bins: Seq<Bin<T>>) -> int
    decreases bins.len(),
{
    if bins.len() == 0 {
        0
    } else {
        total_items(bins.drop_last()) + bins.last()@.len()
    }
}

proof fn lemma_total_items_update<T>(bins: Seq<Bin<T>>, j: int, b: Bin<T>)
    requires
        0 <= j < bins.len(),
    ensures
        total_items(bins.update(j, b)) == total_items(bins) - bins[j]@.len() + b@.len(),
    decreases bins.len(),
{
    let u = bins.update(j, b);
    if j < bins.len() - 1 {
        assert(u.drop_last() =~= bins.drop_last().update(j, b));
        lemma_total_items_update(bins.drop_last(), j, b);
    } else {
        assert(u.drop_last() =~= bins.drop_last());
    }
}

/// Packs the items into bins of room `bin_size`, largest items first, each
/// into the first bin it fits in, opening a new bin when none has room.
/// Fails when some item is larger than a bin.
pub fn binpack<T>(inputs: Vec<BinItem<T>>, bin_size: usize) -> (r: Result<Vec<Bin<T>>, BinPackError>)
    ensures
        r is Err <==> exists|i: int| 0 <= i < inputs@.len() && inputs@[i].spec_size() > bin_size,
        r matches Ok(bins) ==> {
            &&& bins@.len() >= 1
            &&& total_items(bins@) == inputs@.len()
            &&& forall|b: int| 0 <= b < bins@.len() ==> (#[trigger] bins@[b]).wf() && bins@[b].spec_capacity() == bin_size
        },
{
    let mut k: usize = 0;
    while k < inputs.len()
        invariant
            k <= inputs@.len(),
            forall|i: int| 0 <= i < k ==> inputs@[i].spec_size() <= bin_size,
        decreases inputs@.len() - k,
    {
        if inputs[k].size > bin_size {
            assert(inputs@[k as int].spec_size() > bin_size);
            return Err(BinPackError::ItemTooLarge);
        }
        k = k + 1;
    }
    let n = inputs.len();
    let mut inputs = inputs;

    // Sort by size, ascending and stable: each item taken from the back goes
    // before every item of equal or larger size.
    let mut sorted: Vec<BinItem<T>> = Vec::new();
    while inputs.len() > 0
        invariant
            sorted@.len() + inputs@.len() == n,
            forall|i: int| 0 <= i < inputs@.len() ==> (#[trigger] inputs@[i]).spec_size() <= bin_size,
            forall|i: int| 0 <= i < sorted@.len() ==> (#[trigger] sorted@[i]).spec_size() <= bin_size,
        decreases inputs@.len(),
    {
        let item = inputs.pop().unwrap();
        let mut p: usize = 0;
        while p < sorted.len() && sorted[p].size < item.size
            invariant
                p <= sorted@.len(),
            decreases sorted@.len() - p,
        {
            p = p + 1;
        }
        sorted.insert(p, item);
    }

    // Place the largest first: the back of `sorted`.
    let mut bins: Vec<Bin<T>> = Vec::new();
    bins.push(Bin::new(bin_size));
    proof {
        assert(bins@.drop_last() =~= Seq::<Bin<T>>::empty());
        assert(total_items(bins@.drop_last()) == 0);
        assert(bins@.last()@.len() == 0);
        assert(total_items(bins@) == 0);
    }
    while sorted.len() > 0
        invariant
            bins@.len() >= 1,
            total_items(bins@) + sorted@.len() == n,
            forall|i: int| 0 <= i < sorted@.len() ==> (#[trigger] sorted@[i]).spec_size() <= bin_size,
            forall|b: int| 0 <= b < bins@.len() ==> (#[trigger] bins@[b]).wf() && bins@[b].spec_capacity() == bin_size,
        decreases sorted@.len(),
    {
        let item = sorted.pop().unwrap();
        let mut j: usize = 0;
        while j < bins.len() && !bins[j].item_fits(&item)
            invariant
                j <= bins@.len(),
                forall|b: int| 0 <= b < bins@.len() ==> (#[trigger] bins@[b]).wf() && bins@[b].spec_capacity() == bin_size,
            decreases bins@.len() - j,
        {
            j = j + 1;
        }
        if j == bins.len() {
            let ghost before_push = bins@;
            bins.push(Bin::new(bin_size));
            proof {
                assert(bins@.drop_last() =~= before_push);
            }
        }
        let ghost before = bins@;
        let mut bin = bins.remove(j);
        bin.add(item);
        bins.insert(j, bin);
        proof {
            assert(bins@ =~= before.update(j as int, bin));
            lemma_total_items_update(before, j as int, bin);
        }
    }
    Ok(bins)
}

} // verus!
