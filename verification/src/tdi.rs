//! Records that are handed to the TDX module with TDI tdcalls.
use vstd::prelude::*;

verus! {

/// The size and the offset of a device's MMIO range.
#[derive(Copy, Clone, Debug, Default, PartialEq, Eq, Structural)]
pub struct TdiRangeSizeOffset {
    /// The size of the range, in pages.
    pub range_size: u32,
    /// The number by which the device's interface report knows the range.
    pub range_offset: u32,
}

/// The virtual machine that a device's DMA is meant for.
#[derive(Copy, Clone, Debug, Default, PartialEq, Eq)]
pub struct DmarTarget {
    /// The index of the virtual machine.
    pub vm_idx: u8,
    /// Bytes that the record leaves unused.
    pub reserved: [u8; 7],
}

/// The number that bytes make, the least significant first.
pub open spec fn le_value(bytes: Seq<u8>) -> nat
    decreases bytes.len(),
{
    if bytes.len() == 0 {
        0
    } else {
        bytes[0] as nat + 256 * le_value(bytes.drop_first())
    }
}

impl DmarTarget {
    /// The bytes of the record, in the order in which they lie in memory.
    pub open spec fn bytes(self) -> Seq<u8> {
        seq![self.vm_idx] + self.reserved@
    }

    /// The record as the register value that TDG.DMAR.ACCEPT takes: its bytes,
    /// the first of them the least significant.
    pub fn to_u64(&self) -> (value: u64)
        ensures
            value == le_value(self.bytes()),
            value == self.vm_idx + 0x100 * self.reserved[0] + 0x1_0000 * self.reserved[1]
                + 0x100_0000 * self.reserved[2] + 0x1_0000_0000 * self.reserved[3]
                + 0x100_0000_0000 * self.reserved[4] + 0x1_0000_0000_0000 * self.reserved[5]
                + 0x100_0000_0000_0000 * self.reserved[6],
    {
        proof {
            lemma_le_value_8(self.bytes());
        }
        self.vm_idx as u64 + 0x100 * (self.reserved[0] as u64) + 0x1_0000 * (self.reserved[1] as u64)
            + 0x100_0000 * (self.reserved[2] as u64) + 0x1_0000_0000 * (self.reserved[3] as u64)
            + 0x100_0000_0000 * (self.reserved[4] as u64) + 0x1_0000_0000_0000 * (
        self.reserved[5] as u64) + 0x100_0000_0000_0000 * (self.reserved[6] as u64)
    }
}

/// `le_value` of eight bytes, written out.
proof fn lemma_le_value_8(bytes: Seq<u8>)
    requires
        bytes.len() == 8,
    ensures
        le_value(bytes) == bytes[0] + 0x100 * bytes[1] + 0x1_0000 * bytes[2] + 0x100_0000 * bytes[3]
            + 0x1_0000_0000 * bytes[4] + 0x100_0000_0000 * bytes[5] + 0x1_0000_0000_0000 * bytes[6]
            + 0x100_0000_0000_0000 * bytes[7],
{
    reveal_with_fuel(le_value, 9);
}

/// The register value of a target has the index of the virtual machine in its
/// lowest eight bits, and the unused bytes above, in their order.
pub proof fn law_dmar_target_value(target: DmarTarget)
    ensures
        le_value(target.bytes()) == target.vm_idx + 0x100 * target.reserved[0] + 0x1_0000 * target.reserved[1]
            + 0x100_0000 * target.reserved[2] + 0x1_0000_0000 * target.reserved[3]
            + 0x100_0000_0000 * target.reserved[4] + 0x1_0000_0000_0000 * target.reserved[5]
            + 0x100_0000_0000_0000 * target.reserved[6],
{
    lemma_le_value_8(target.bytes());
}

/// Two targets with the same register value are the same target.
pub proof fn law_dmar_target_is_determined(a: DmarTarget, b: DmarTarget)
    requires
        le_value(a.bytes()) == le_value(b.bytes()),
    ensures
        a.vm_idx == b.vm_idx,
        a.reserved@ == b.reserved@,
{
    lemma_le_value_injective(a.bytes(), b.bytes());
    assert(a.bytes()[0] == b.bytes()[0]);
    assert forall|i: int| 0 <= i < 7 implies a.reserved@[i] == b.reserved@[i] by {
        assert(a.bytes()[i + 1] == b.bytes()[i + 1]);
    }
}

/// Among sequences of one length, the bytes can be told from their value.
proof fn lemma_le_value_injective(a: Seq<u8>, b: Seq<u8>)
    requires
        a.len() == b.len(),
        le_value(a) == le_value(b),
    ensures
        a == b,
    decreases a.len(),
{
    if a.len() > 0 {
        assert(a[0] == b[0] && le_value(a.drop_first()) == le_value(b.drop_first()));
        lemma_le_value_injective(a.drop_first(), b.drop_first());
        assert forall|i: int| 0 <= i < a.len() implies a[i] == b[i] by {
            if i > 0 {
                assert(a.drop_first()[i - 1] == b.drop_first()[i - 1]);
            }
        }
    }
    assert(a =~= b);
}

} // verus!
