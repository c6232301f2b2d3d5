//! Precomputed tables of the instruction decoder.
use vstd::prelude::*;
use super::alu::condition_holds;

verus! {

/// Whether condition `cond` holds for the flags `flags`, packed as NZCV from
/// bit 3 down to bit 0.
pub open spec fn condition_for_flags(flags: u32, cond: u32) -> bool {
    condition_holds(cond, flags & 8 != 0, flags & 4 != 0, flags & 2 != 0, flags & 1 != 0)
}

/// The table of the 16 conditions under the 16 combinations of flags: entry
/// `flags << 4 | condition` says whether the condition holds.
pub fn gen_condition_table() -> (lut: [bool; 256])
    ensures
        forall|flags: u32, cond: u32|
            flags < 16 && cond < 16 ==> #[trigger] lut@[(flags * 16 + cond) as int] == condition_for_flags(flags, cond),
{
    let mut lut = [false; 256];
    let mut flags: u32 = 0;
    while flags < 16
        invariant
            flags <= 16,
            forall|f: u32, c: u32|
                f < flags && c < 16 ==> #[trigger] lut@[(f * 16 + c) as int] == condition_for_flags(f, c),
        decreases 16 - flags,
    {
        let mut condition: u32 = 0;
        while condition < 16
            invariant
                flags < 16,
                condition <= 16,
                forall|f: u32, c: u32|
                    f < flags && c < 16 ==> #[trigger] lut@[(f * 16 + c) as int] == condition_for_flags(f, c),
                forall|c: u32| c < condition ==> #[trigger] lut@[(flags * 16 + c) as int] == condition_for_flags(flags, c),
            decreases 16 - condition,
        {
            let n = flags & 0x8 != 0;
            let z = flags & 0x4 != 0;
            let c = flags & 0x2 != 0;
            let v = flags & 0x1 != 0;
            let holds = match condition {
                0x0 => z,
                0x1 => !z,
                0x2 => c,
                0x3 => !c,
                0x4 => n,
                0x5 => !n,
                0x6 => v,
                0x7 => !v,
                0x8 => c && !z,
                0x9 => !c || z,
                0xA => n == v,
                0xB => n != v,
                0xC => !z && n == v,
                0xD => z || n != v,
                0xE => true,
                _ => false,
            };
            assert(flags < 16 && condition < 16 ==> flags << 4u32 | condition == flags * 16 + condition) by (bit_vector);
            lut[(flags << 4u32 | condition) as usize] = holds;
            condition = condition + 1;
        }
        flags = flags + 1;
    }
    lut
}

} // verus!
