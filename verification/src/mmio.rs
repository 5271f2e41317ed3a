//! Memory-mapped I/O: which addresses a pair of callbacks still answers for.
//!
//! A scope starts as one region. Each unmapping takes a range of addresses
//! away from every region of the scope, and what is left of a region is zero,
//! one or two smaller regions.

use crate::arrayvec::{fragment_at, fragment_count, fragments, no_fragments, push_fragment};
use tinyvec::ArrayVec;
use vstd::prelude::*;

verus! {

/// What is left of the region of `s` bytes at `b` once the addresses from
/// `begin` up to, not including, `end` are unmapped.
///
/// With `e = b + s` the end of the region:
/// - the range begins inside the region, after its first byte: the bytes
///   before `begin` stay; if the range also ends inside the region, so do the
///   bytes from `end + 1` to `e`, and the byte at `end` goes with the range;
/// - the range begins at or before `b` and ends after it: the bytes from
///   `end` to `e` stay, if there are any;
/// - the range ends at or before `b`: the region stays as it is;
/// - the range begins at or after `e`: nothing stays. The region is not
///   touched by such a range and is dropped all the same. Callers that unmap
///   above a scope lose that scope.
pub open spec fn survivors(b: u64, s: usize, begin: u64, end: u64) -> Seq<(u64, usize)> {
    let e = b + s;
    if begin > b {
        if begin >= e {
            seq![]
        } else if end >= e {
            seq![(b, (begin - b) as usize)]
        } else {
            seq![(b, (begin - b) as usize), ((end + 1) as u64, (e - (end + 1)) as usize)]
        }
    } else if end > b {
        if end >= e {
            seq![]
        } else {
            seq![(end, (e - end) as usize)]
        }
    } else {
        seq![(b, s)]
    }
}

/// What is left of `regions`, in their order, once the addresses from `begin`
/// up to `end` are unmapped: the survivors of the first region, then those of
/// the second, and so on.
pub open spec fn unmapped(regions: Seq<(u64, usize)>, begin: u64, end: u64) -> Seq<(u64, usize)>
    decreases regions.len(),
{
    if regions.len() == 0 {
        seq![]
    } else {
        unmapped(regions.drop_last(), begin, end) + survivors(
            regions.last().0,
            regions.last().1,
            begin,
            end,
        )
    }
}

/// Every region ends at an address that a `u64` can hold.
pub open spec fn regions_fit(regions: Seq<(u64, usize)>) -> bool {
    forall|i: int| 0 <= i < regions.len() ==> (#[trigger] regions[i]).0 + regions[i].1 <= u64::MAX
}

/// The survivors of one region, computed.
fn surviving(b: u64, s: usize, begin: u64, end: u64) -> (v: ArrayVec<[(u64, usize); 2]>)
    requires
        b + s <= u64::MAX,
    ensures
        fragments(v) == survivors(b, s, begin, end),
{
    let e = b + s as u64;
    let mut v = no_fragments();
    if begin > b {
        if begin >= e {
            // the range lies after the region
        } else if end >= e {
            // the range covers the end of the region
            push_fragment(&mut v, (b, (begin - b) as usize));
        } else {
            // the range lies in the middle of the region
            let second_b = end + 1;
            push_fragment(&mut v, (b, (begin - b) as usize));
            push_fragment(&mut v, (second_b, (e - second_b) as usize));
        }
    } else if end > b {
        if end >= e {
            // the range covers the region
        } else {
            // the range covers the start of the region
            push_fragment(&mut v, (end, (e - end) as usize));
        }
    } else {
        // the range lies before the region
        push_fragment(&mut v, (b, s));
    }
    v
}

/// A scope as plain values.
pub struct Scope<C> {
    /// The regions, each a base address and a size in bytes.
    pub regions: Seq<(u64, usize)>,
    /// What answers a read, if anything does.
    pub read_callback: Option<C>,
    /// What answers a write, if anything does.
    pub write_callback: Option<C>,
}

impl<C> Scope<C> {
    /// The scope covers something, and every region of it ends at an address
    /// that a `u64` can hold.
    pub open spec fn wf(self) -> bool {
        self.regions.len() > 0 && regions_fit(self.regions)
    }

    /// The scope once the addresses from `begin` up to `end` are unmapped.
    pub open spec fn unmap(self, begin: u64, end: u64) -> Scope<C> {
        Scope { regions: unmapped(self.regions, begin, end), ..self }
    }
}

/// The regions that a pair of callbacks answers for.
pub struct MmioCallbackScope<C> {
    /// The regions, each a base address and a size in bytes.
    pub regions: Vec<(u64, usize)>,
    /// What answers a read, if anything does.
    pub read_callback: Option<C>,
    /// What answers a write, if anything does.
    pub write_callback: Option<C>,
}

impl<C> View for MmioCallbackScope<C> {
    type V = Scope<C>;

    open spec fn view(&self) -> Scope<C> {
        Scope {
            regions: self.regions@,
            read_callback: self.read_callback,
            write_callback: self.write_callback,
        }
    }
}

impl<C> MmioCallbackScope<C> {
    /// Whether the scope still covers anything. One that does not is of no use.
    #[verifier::allow_in_spec]
    pub fn has_regions(&self) -> bool
        returns
            self.regions@.len() > 0,
    {
        self.regions.len() > 0
    }

    /// Whether the scope is as a scope has to be: it covers something, and
    /// every region of it ends at an address that a `u64` can hold.
    pub fn is_wf(&self) -> (r: bool)
        ensures
            r == self@.wf(),
    {
        if self.regions.len() == 0 {
            return false;
        }
        let mut i: usize = 0;
        while i < self.regions.len()
            invariant
                i <= self.regions@.len(),
                regions_fit(self.regions@.take(i as int)),
            decreases self.regions@.len() - i,
        {
            let (b, s) = self.regions[i];
            if s as u64 > u64::MAX - b {
                return false;
            }
            assert(regions_fit(self.regions@.take(i + 1))) by {
                assert forall|k: int| 0 <= k < i + 1 implies (#[trigger] self.regions@.take(
                    i + 1,
                )[k]).0 + self.regions@.take(i + 1)[k].1 <= u64::MAX by {
                    if k < i {
                        assert(self.regions@.take(i + 1)[k] == self.regions@.take(i as int)[k]);
                    }
                }
            }
            i += 1;
        }
        assert(self.regions@.take(i as int) == self.regions@);
        true
    }

    /// Takes the `size` bytes from `begin` away from every region of the
    /// scope: see [`survivors`] for what is left of a region. The range and
    /// the regions have to end where a `u64` can hold the address.
    pub fn unmap(&mut self, begin: u64, size: usize)
        requires
            regions_fit(old(self)@.regions),
            begin + size <= u64::MAX,
        ensures
            final(self)@ == old(self)@.unmap(begin, (begin + size) as u64),
            regions_fit(final(self)@.regions),
    {
        let end = begin + size as u64;
        let mut kept: Vec<(u64, usize)> = Vec::new();
        let mut i: usize = 0;
        while i < self.regions.len()
            invariant
                i <= self.regions@.len(),
                regions_fit(self.regions@),
                *self == *old(self),
                kept@ == unmapped(self.regions@.take(i as int), begin, end),
                regions_fit(kept@),
            decreases self.regions@.len() - i,
        {
            let (b, s) = self.regions[i];
            let v = surviving(b, s, begin, end);
            let n = fragment_count(&v);
            let ghost before = kept@;
            let mut j: usize = 0;
            while j < n
                invariant
                    j <= n,
                    n == fragments(v).len(),
                    kept@ == before + fragments(v).take(j as int),
                decreases n - j,
            {
                kept.push(fragment_at(&v, j));
                proof {
                    assert(fragments(v).take(j + 1) == fragments(v).take(j as int).push(
                        fragments(v)[j as int],
                    ));
                }
                j += 1;
            }
            proof {
                let upto = self.regions@.take(i + 1);
                assert(fragments(v).take(n as int) == fragments(v));
                assert(upto.drop_last() == self.regions@.take(i as int));
                assert(upto.last() == (b, s));
                lemma_survivors_fit(b, s, begin, end);
            }
            i += 1;
        }
        proof {
            assert(self.regions@.take(i as int) == self.regions@);
        }
        self.regions = kept;
    }
}

/// What is left of a region ends where a `u64` can hold it, as the region did.
pub proof fn lemma_survivors_fit(b: u64, s: usize, begin: u64, end: u64)
    requires
        b + s <= u64::MAX,
    ensures
        regions_fit(survivors(b, s, begin, end)),
{
}

/// Whether the region `inner` lies inside the region `outer`.
pub open spec fn inside(inner: (u64, usize), outer: (u64, usize)) -> bool {
    outer.0 <= inner.0 && inner.0 + inner.1 <= outer.0 + outer.1
}

/// Whether the region `inner` lies inside one of `regions`.
pub open spec fn lies_in(inner: (u64, usize), regions: Seq<(u64, usize)>) -> bool {
    exists|j: int| 0 <= j < regions.len() && inside(inner, #[trigger] regions[j])
}

/// Whether the region `region` holds no address from `begin` up to `end`.
pub open spec fn clear_of(region: (u64, usize), begin: u64, end: u64) -> bool {
    region.0 + region.1 <= begin || end <= region.0
}

/// What is left of a region lies inside the region and holds no address of
/// the range that was unmapped.
pub proof fn lemma_survivors_inside_and_clear(b: u64, s: usize, begin: u64, end: u64)
    requires
        b + s <= u64::MAX,
        begin <= end,
    ensures
        forall|i: int|
            0 <= i < survivors(b, s, begin, end).len() ==> inside(
                #[trigger] survivors(b, s, begin, end)[i],
                (b, s),
            ) && clear_of(survivors(b, s, begin, end)[i], begin, end),
{
}

/// After an unmapping, every region that is left lies inside one of the
/// regions there were, and holds no address of the range that was unmapped.
pub proof fn lemma_unmapped_inside_and_clear(regions: Seq<(u64, usize)>, begin: u64, end: u64)
    requires
        regions_fit(regions),
        begin <= end,
    ensures
        forall|i: int|
            0 <= i < unmapped(regions, begin, end).len() ==> clear_of(
                #[trigger] unmapped(regions, begin, end)[i],
                begin,
                end,
            ) && lies_in(unmapped(regions, begin, end)[i], regions),
    decreases regions.len(),
{
    if regions.len() > 0 {
        let rest = regions.drop_last();
        let last = regions.last();
        lemma_unmapped_inside_and_clear(rest, begin, end);
        lemma_survivors_inside_and_clear(last.0, last.1, begin, end);
        let before = unmapped(rest, begin, end);
        let new = survivors(last.0, last.1, begin, end);
        assert forall|i: int| 0 <= i < unmapped(regions, begin, end).len() implies clear_of(
            #[trigger] unmapped(regions, begin, end)[i],
            begin,
            end,
        ) && lies_in(unmapped(regions, begin, end)[i], regions) by {
            let left = unmapped(regions, begin, end)[i];
            if i < before.len() {
                assert(left == before[i]);
                let j = choose|j: int| 0 <= j < rest.len() && inside(left, #[trigger] rest[j]);
                assert(rest[j] == regions[j]);
            } else {
                assert(left == new[i - before.len()]);
                assert(inside(left, regions[regions.len() - 1]));
            }
        }
    }
}

/// A range that ends at or before the start of a region takes nothing from
/// it.
pub proof fn lemma_range_before_region_keeps_it(b: u64, s: usize, begin: u64, end: u64)
    requires
        begin <= end <= b,
    ensures
        survivors(b, s, begin, end) == seq![(b, s)],
{
}

/// A range that begins after the start of a region, and at or after its end,
/// leaves nothing of the region, though the two have no address in common.
pub proof fn lemma_range_after_region_drops_it(b: u64, s: usize, begin: u64, end: u64)
    requires
        b < begin,
        b + s <= begin,
    ensures
        survivors(b, s, begin, end) == Seq::<(u64, usize)>::empty(),
{
}

} // verus!
