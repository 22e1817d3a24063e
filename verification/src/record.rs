//! One row of the process table.

use vstd::prelude::*;

verus! {

/// A process as the table shows it.
///
/// The CPU share is a single-precision number of percent. The record holds
/// its IEEE 754 bit pattern, so that the value passes through unchanged and
/// can be ranked with integers alone: see [`cpu_rank`].
#[derive(Clone, Debug, PartialEq, Eq)]
pub struct ProcessRecord {
    /// Identifier that the operating system gave the process.
    pub id: u32,
    /// Display name; several processes may share one.
    pub name: String,
    /// Bit pattern of the CPU share in percent.
    pub cpu_bits: u32,
    /// Resident memory in bytes.
    pub memory_bytes: u64,
}

impl ProcessRecord {
    /// Builds a record from its four fields, each taken as it is.
    pub fn new(id: u32, name: String, cpu_bits: u32, memory_bytes: u64) -> (record: ProcessRecord)
        ensures
            record.id == id,
            record.name == name,
            record.cpu_bits == cpu_bits,
            record.memory_bytes == memory_bytes,
    {
        ProcessRecord { id, name, cpu_bits, memory_bytes }
    }
}

/// The place of a single-precision bit pattern in the total order of
/// IEEE 754: patterns with the sign bit set count down from the middle of
/// the range, the others count up from it.
pub open spec fn rank_of_bits(bits: u32) -> int {
    if bits >= 0x8000_0000 {
        0xFFFF_FFFF - bits
    } else {
        bits + 0x8000_0000
    }
}

/// Computes [`rank_of_bits`]: a number that grows with the value the bit
/// pattern stands for.
pub fn cpu_rank(bits: u32) -> (rank: u32)
    ensures
        rank == rank_of_bits(bits),
{
    if bits >= 0x8000_0000 {
        0xFFFF_FFFF - bits
    } else {
        bits + 0x8000_0000
    }
}

/// Ranks tell bit patterns apart, follow the bit pattern upwards where the
/// sign bit is clear and downwards where it is set, and place every pattern
/// with the sign bit set below every pattern without it.
pub proof fn lemma_rank_of_bits_order(a: u32, b: u32)
    ensures
        rank_of_bits(a) == rank_of_bits(b) <==> a == b,
        a < 0x8000_0000 && b < 0x8000_0000 ==> (rank_of_bits(a) <= rank_of_bits(b) <==> a <= b),
        a >= 0x8000_0000 && b >= 0x8000_0000 ==> (rank_of_bits(a) <= rank_of_bits(b) <==> a >= b),
        a >= 0x8000_0000 && b < 0x8000_0000 ==> rank_of_bits(a) < rank_of_bits(b),
{
}

} // verus!
