//! A bump allocator over a slab of fixed size: scratch space in which a
//! serialized value is handed on. Single allocations are never freed; the
//! whole slab is reclaimed at once.

use vstd::arithmetic::div_mod::{lemma_fundamental_div_mod, lemma_mod_multiples_basic};
use vstd::prelude::*;

verus! {

/// `offset` rounded up to the next multiple of `align`.
pub open spec fn spec_align_up(offset: nat, align: nat) -> nat {
    if offset % align == 0 {
        offset
    } else {
        (offset + align - offset % align) as nat
    }
}

/// Where an allocation of `size` bytes aligned to `align` lies in a slab of
/// `capacity` bytes of which `used` are taken: its first offset and the
/// offset behind it; `None` where it does not fit.
pub open spec fn spec_bump(used: nat, size: nat, align: nat, capacity: nat) -> Option<(nat, nat)> {
    let start = spec_align_up(used, align);
    if start + size <= capacity {
        Some((start, start + size))
    } else {
        None
    }
}

/// The bytes taken after the requests `reqs`, each a size and an alignment,
/// were made in turn; a request that does not fit takes nothing.
pub open spec fn spec_used_after(used: nat, reqs: Seq<(nat, nat)>, capacity: nat) -> nat
    decreases reqs.len(),
{
    if reqs.len() == 0 {
        used
    } else {
        let before = spec_used_after(used, reqs.drop_last(), capacity);
        match spec_bump(before, reqs.last().0, reqs.last().1, capacity) {
            Some((_, end)) => end,
            None => before,
        }
    }
}

/// What request `i` of `reqs` is given.
pub open spec fn spec_alloc_at(used: nat, reqs: Seq<(nat, nat)>, capacity: nat, i: int) -> Option<
    (nat, nat),
> {
    spec_bump(spec_used_after(used, reqs.take(i), capacity), reqs[i].0, reqs[i].1, capacity)
}

/// Rounding up gives the least multiple of `align` that is not below
/// `offset`.
pub proof fn lemma_align_up(offset: nat, align: nat)
    requires
        align > 0,
    ensures
        spec_align_up(offset, align) % align == 0,
        offset <= spec_align_up(offset, align) < offset + align,
{
    let q = offset as int / align as int;
    let r = offset as int % align as int;
    lemma_fundamental_div_mod(offset as int, align as int);
    if r != 0 {
        assert(offset + align - r == (q + 1) * align) by (nonlinear_arith)
            requires
                offset == align * q + r,
        ;
        lemma_mod_multiples_basic(q + 1, align as int);
    }
}

/// An allocation that is granted starts aligned, lies behind what was taken
/// before and inside the slab, and what is taken never shrinks.
pub proof fn lemma_bump(used: nat, size: nat, align: nat, capacity: nat)
    requires
        align > 0,
    ensures
        match spec_bump(used, size, align, capacity) {
            Some((start, end)) => {
                &&& start % align == 0
                &&& used <= start < used + align
                &&& end == start + size
                &&& end <= capacity
            },
            None => spec_align_up(used, align) + size > capacity,
        },
{
    lemma_align_up(used, align);
}

/// What is taken never shrinks while requests are served.
pub proof fn lemma_used_monotonic(used: nat, reqs: Seq<(nat, nat)>, capacity: nat, i: int, j: int)
    requires
        0 <= i <= j <= reqs.len(),
        forall|k: int| 0 <= k < reqs.len() ==> (#[trigger] reqs[k]).1 > 0,
    ensures
        spec_used_after(used, reqs.take(i), capacity) <= spec_used_after(
            used,
            reqs.take(j),
            capacity,
        ),
    decreases j - i,
{
    if i < j {
        lemma_used_monotonic(used, reqs, capacity, i, j - 1);
        let prefix = reqs.take(j);
        assert(prefix.drop_last() =~= reqs.take(j - 1));
    }
}

/// Two allocations granted from one arena without a reset between them do
/// not overlap: the earlier one ends at or before the start of the later.
pub proof fn lemma_allocations_disjoint(
    used: nat,
    reqs: Seq<(nat, nat)>,
    capacity: nat,
    i: int,
    j: int,
)
    requires
        0 <= i < j < reqs.len(),
        forall|k: int| 0 <= k < reqs.len() ==> (#[trigger] reqs[k]).1 > 0,
        spec_alloc_at(used, reqs, capacity, i) is Some,
        spec_alloc_at(used, reqs, capacity, j) is Some,
    ensures
        match (spec_alloc_at(used, reqs, capacity, i), spec_alloc_at(used, reqs, capacity, j)) {
            (Some((_, first_end)), Some((second_start, _))) => first_end <= second_start,
            _ => false,
        },
{
    assert(reqs.take(i + 1).drop_last() =~= reqs.take(i));
    lemma_used_monotonic(used, reqs, capacity, i + 1, j);
}

/// The decision of one allocation: from the bytes taken so far to the
/// allocation's first offset and the bytes taken after it. A caller that
/// keeps the offset in an atomic stores the second with a compare-and-swap
/// and tries again where that fails.
pub fn bump(current: usize, size: usize, align: usize, capacity: usize) -> (r: Option<
    (usize, usize),
>)
    requires
        align > 0,
    ensures
        match spec_bump(current as nat, size as nat, align as nat, capacity as nat) {
            Some((start, end)) => r matches Some((first, behind)) && first == start && behind
                == end,
            None => r is None,
        },
{
    let rem = current % align;
    let start = if rem == 0 {
        current
    } else {
        match current.checked_add(align - rem) {
            Some(start) => start,
            None => {
                return None;
            },
        }
    };
    match start.checked_add(size) {
        Some(end) => if end <= capacity {
            Some((start, end))
        } else {
            None
        },
        None => None,
    }
}

/// A slab of zeroed bytes and the offset up to which it is handed out.
pub struct Arena {
    slab: Vec<u8>,
    offset: usize,
}

impl Arena {
    /// No more is handed out than the slab holds.
    pub closed spec fn wf(&self) -> bool {
        self.offset <= self.slab@.len()
    }

    /// The bytes of the slab.
    pub closed spec fn bytes(&self) -> Seq<u8> {
        self.slab@
    }

    /// The size of the slab.
    pub closed spec fn spec_capacity(&self) -> nat {
        self.slab@.len()
    }

    /// The bytes handed out so far, padding for alignment included.
    pub closed spec fn spec_used(&self) -> nat {
        self.offset as nat
    }

    /// An arena over a fresh slab of `capacity` zeroed bytes.
    pub fn new(capacity: usize) -> (arena: Arena)
        requires
            0 < capacity <= isize::MAX,
        ensures
            arena.wf(),
            arena.spec_capacity() == capacity,
            arena.spec_used() == 0,
            arena.bytes() == Seq::new(capacity as nat, |i: int| 0u8),
    {
        let slab = vec![0u8; capacity];
        Arena { slab, offset: 0 }
    }

    /// Takes `size` bytes at the next offset that is a multiple of `align`
    /// and returns that offset; `None`, with nothing taken, where the slab
    /// cannot hold them.
    pub fn allocate(&mut self, size: usize, align: usize) -> (r: Option<usize>)
        requires
            old(self).wf(),
            align > 0,
        ensures
            final(self).wf(),
            final(self).spec_capacity() == old(self).spec_capacity(),
            final(self).bytes() == old(self).bytes(),
            match spec_bump(
                old(self).spec_used(),
                size as nat,
                align as nat,
                old(self).spec_capacity(),
            ) {
                Some((start, end)) => {
                    &&& r matches Some(first) && first == start
                    &&& final(self).spec_used() == end
                },
                None => r is None && final(self).spec_used() == old(self).spec_used(),
            },
            old(self).spec_used() <= final(self).spec_used(),
            r matches Some(first) ==> {
                &&& first % align == 0
                &&& old(self).spec_used() <= first
                &&& first + size == final(self).spec_used()
            },
    {
        proof {
            lemma_bump(self.spec_used(), size as nat, align as nat, self.spec_capacity());
        }
        match bump(self.offset, size, align, self.slab.len()) {
            Some((start, end)) => {
                self.offset = end;
                Some(start)
            },
            None => None,
        }
    }

    /// Gives the whole slab back. Whoever still holds an offset into it
    /// must not use it any more: the arena cannot tell.
    pub fn reset(&mut self)
        ensures
            final(self).wf(),
            final(self).spec_used() == 0,
            final(self).spec_capacity() == old(self).spec_capacity(),
            final(self).bytes() == old(self).bytes(),
    {
        self.offset = 0;
    }

    /// The bytes handed out so far.
    pub fn used(&self) -> (n: usize)
        ensures
            n == self.spec_used(),
            self.wf() ==> n <= self.spec_capacity(),
    {
        self.offset
    }

    /// The size of the slab.
    pub fn capacity(&self) -> (n: usize)
        ensures
            n == self.spec_capacity(),
    {
        self.slab.len()
    }

    /// The slab from its first byte.
    pub fn as_slice(&self) -> (slab: &[u8])
        ensures
            slab@ == self.bytes(),
    {
        self.slab.as_slice()
    }

    /// Copies `data` into the slab from offset `start` on.
    pub fn store(&mut self, start: usize, data: &[u8])
        requires
            old(self).wf(),
            start + data.len() <= old(self).spec_used(),
        ensures
            final(self).wf(),
            final(self).spec_used() == old(self).spec_used(),
            final(self).spec_capacity() == old(self).spec_capacity(),
            final(self).bytes() == old(self).bytes().subrange(0, start as int) + data@ + old(
                self,
            ).bytes().subrange(start + data.len(), old(self).spec_capacity() as int),
    {
        let slab = self.slab.as_mut_slice();
        let (head, rest) = slab.split_at_mut(start);
        let (target, tail) = rest.split_at_mut(data.len());
        target.copy_from_slice(data);
    }
}

} // verus!
