//! The MMIO space of the relay, cut into one window for each device slot.
use vstd::prelude::*;

verus! {

/// A range of guest physical addresses, from `start` up to, not including, `end`.
#[derive(Copy, Clone, Debug, PartialEq, Eq, Structural)]
pub struct MemoryRange {
    /// The first address of the range.
    pub start: u64,
    /// The first address after the range.
    pub end: u64,
}

impl MemoryRange {
    /// A range does not end before it starts.
    pub open spec fn wf(self) -> bool {
        self.start <= self.end
    }

    /// The number of addresses in the range.
    pub fn len(&self) -> (len: u64)
        requires
            self.wf(),
        ensures
            len == self.end - self.start,
    {
        self.end - self.start
    }

    /// The first address of the range.
    pub fn start(&self) -> (start: u64)
        ensures
            start == self.start,
    {
        self.start
    }
}

/// Whether the window of a slot lies within the range, where each window takes
/// `size` addresses.
pub open spec fn window_fits(range: MemoryRange, size: u64, slot: nat) -> bool {
    (slot + 1) * size <= range.end - range.start
}

/// The first address of the window of a slot.
pub open spec fn window_start(range: MemoryRange, size: u64, slot: nat) -> int {
    range.start + slot * size
}

/// Whether the window of a slot lies within the range.
pub fn slot_fits(range: &MemoryRange, size: u64, slot: usize) -> (fits: bool)
    requires
        range.wf(),
        size > 0,
    ensures
        fits == window_fits(*range, size, slot as nat),
        fits <==> (slot + 1) * size <= range.end - range.start,
{
    let slots: u64 = range.len() / size;
    proof {
        let len = range.end - range.start;
        vstd::arithmetic::div_mod::lemma_fundamental_div_mod(len, size as int);
        if slot < slots {
            vstd::arithmetic::mul::lemma_mul_inequality(slot + 1, slots as int, size as int);
            vstd::arithmetic::mul::lemma_mul_is_commutative(size as int, slots as int);
        } else {
            vstd::arithmetic::mul::lemma_mul_inequality(slots + 1, slot + 1, size as int);
            vstd::arithmetic::mul::lemma_mul_is_distributive_add_other_way(
                size as int,
                slots as int,
                1,
            );
            vstd::arithmetic::mul::lemma_mul_is_commutative(size as int, slots as int);
        }
    }
    (slot as u64) < slots
}

/// The first address of the window of a slot.
pub fn slot_gpa(range: &MemoryRange, size: u64, slot: usize) -> (gpa: u64)
    requires
        range.wf(),
        window_fits(*range, size, slot as nat),
    ensures
        gpa == window_start(*range, size, slot as nat),
        gpa == range.start + slot * size,
{
    proof {
        vstd::arithmetic::mul::lemma_mul_is_distributive_add_other_way(
            size as int,
            slot as int,
            1,
        );
        vstd::arithmetic::mul::lemma_mul_nonnegative(slot as int, size as int);
    }
    range.start() + (slot as u64) * size
}

/// The windows follow each other from the start of the range on, without a gap,
/// and one fits where it ends no later than the range.
pub proof fn law_windows_follow_each_other(range: MemoryRange, size: u64, slot: nat)
    ensures
        window_start(range, size, 0) == range.start,
        window_start(range, size, slot + 1) == window_start(range, size, slot) + size,
        window_start(range, size, slot) == range.start + slot * size,
        window_fits(range, size, slot) <==> window_start(range, size, slot) + size <= range.end,
        window_fits(range, size, slot) <==> (slot + 1) * size <= range.end - range.start,
{
    vstd::arithmetic::mul::lemma_mul_is_distributive_add_other_way(size as int, slot as int, 1);
    vstd::arithmetic::mul::lemma_mul_basics(size as int);
}

/// A range is as it should be where it does not end before it starts, wherever it
/// lies and however long it is.
pub proof fn law_any_range_will_do(range: MemoryRange)
    ensures
        range.wf() <==> range.start <= range.end,
{
}

/// A window that fits lies within the range.
pub proof fn law_windows_are_inside(range: MemoryRange, size: u64, slot: nat)
    requires
        window_fits(range, size, slot),
    ensures
        range.start <= window_start(range, size, slot),
        window_start(range, size, slot) + size <= range.end,
{
    vstd::arithmetic::mul::lemma_mul_is_distributive_add_other_way(size as int, slot as int, 1);
    vstd::arithmetic::mul::lemma_mul_nonnegative(slot as int, size as int);
}

/// The windows of two slots have no address in common.
pub proof fn law_windows_are_disjoint(range: MemoryRange, size: u64, a: nat, b: nat)
    requires
        a != b,
    ensures
        window_start(range, size, a) + size <= window_start(range, size, b) || window_start(
            range,
            size,
            b,
        ) + size <= window_start(range, size, a),
{
    let (low, high) = if a < b {
        (a as int, b as int)
    } else {
        (b as int, a as int)
    };
    vstd::arithmetic::mul::lemma_mul_inequality(low + 1, high, size as int);
    vstd::arithmetic::mul::lemma_mul_is_distributive_add_other_way(size as int, low, 1);
}

} // verus!
