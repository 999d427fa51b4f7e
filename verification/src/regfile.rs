use vstd::prelude::*;

use crate::channel::Channel;
use crate::protocol::{spec_reset_writes, RegWrite};
use crate::registers::{Register, REGISTER_SPACE};

verus! {

/// What one block write does to a register file: the bytes land at
/// consecutive offsets starting at the destination register; everything else
/// is untouched.
pub open spec fn spec_apply_write(mem: Seq<u8>, w: (u8, Seq<u8>)) -> Seq<u8> {
    mem.map(
        |i: int, b: u8|
            if w.0 <= i < w.0 + w.1.len() {
                w.1[i - w.0]
            } else {
                b
            },
    )
}

/// Register file after the writes from position `i` on have been applied, in
/// order.
pub open spec fn spec_apply_writes_from(mem: Seq<u8>, ws: Seq<(u8, Seq<u8>)>, i: int) -> Seq<u8>
    decreases ws.len() - i,
{
    if 0 <= i < ws.len() {
        spec_apply_writes_from(spec_apply_write(mem, ws[i]), ws, i + 1)
    } else {
        mem
    }
}

/// Register file after a whole sequence of writes, applied in order.
pub open spec fn spec_apply_writes(mem: Seq<u8>, ws: Seq<(u8, Seq<u8>)>) -> Seq<u8> {
    spec_apply_writes_from(mem, ws, 0)
}

/// Applies one write to an in-memory register file: the test double of the
/// board that records what the bus would have carried.
pub fn apply_write(mem: &mut Vec<u8>, w: &RegWrite)
    requires
        w.reg + w.bytes@.len() <= old(mem)@.len(),
    ensures
        final(mem)@ == spec_apply_write(old(mem)@, w@),
{
    let mut j: usize = 0;
    while j < w.bytes.len()
        invariant
            j <= w.bytes@.len(),
            w.reg + w.bytes@.len() <= mem@.len(),
            mem@.len() == old(mem)@.len(),
            forall|k: int|
                0 <= k < mem@.len() ==> mem@[k] == (if w.reg <= k < w.reg + j {
                    w.bytes@[k - w.reg]
                } else {
                    old(mem)@[k]
                }),
        decreases w.bytes@.len() - j,
    {
        proof {
            assert(mem.len() == mem@.len());
            assert(w.reg + j < mem@.len());
        }
        let idx = w.reg as usize + j;
        let b = w.bytes[j];
        mem.set(idx, b);
        j += 1;
    }
    proof {
        assert(mem@ =~= spec_apply_write(old(mem)@, w@));
    }
}

/// Applies a sequence of writes, in order, to the in-memory register file.
pub fn apply_writes(mem: &mut Vec<u8>, ws: &Vec<RegWrite>)
    requires
        forall|i: int|
            0 <= i < ws@.len() ==> #[trigger] ws@[i].reg + ws@[i].bytes@.len() <= old(mem)@.len(),
    ensures
        final(mem)@ == spec_apply_writes(old(mem)@, ws@.map_values(|w: RegWrite| w@)),
{
    let ghost all = ws@.map_values(|w: RegWrite| w@);
    let mut i: usize = 0;
    while i < ws.len()
        invariant
            i <= ws@.len(),
            all == ws@.map_values(|w: RegWrite| w@),
            mem@.len() == old(mem)@.len(),
            forall|k: int|
                0 <= k < ws@.len() ==> #[trigger] ws@[k].reg + ws@[k].bytes@.len()
                    <= old(mem)@.len(),
            spec_apply_writes_from(mem@, all, i as int) == spec_apply_writes(old(mem)@, all),
        decreases ws@.len() - i,
    {
        let w = &ws[i];
        proof {
            assert(all[i as int] == w@);
        }
        apply_write(mem, w);
        i += 1;
    }
}

/// After the reset write sequence, every channel's duty register holds the
/// zero-duty pair and both control registers hold the disabled byte,
/// whatever the register file held before.
pub proof fn lemma_reset_quiesces(mem: Seq<u8>)
    requires
        mem.len() == REGISTER_SPACE,
    ensures
        spec_apply_writes(mem, spec_reset_writes()).len() == mem.len(),
        spec_apply_writes(mem, spec_reset_writes())[Register::PwmCtrl.spec_offset() as int] == 0,
        spec_apply_writes(mem, spec_reset_writes())[Register::AdcCtrl.spec_offset() as int] == 0,
        forall|c: Channel|
            spec_apply_writes(mem, spec_reset_writes())[#[trigger] c.spec_duty_register().spec_offset() as int]
                == 0 && spec_apply_writes(mem, spec_reset_writes())[c.spec_duty_register().spec_offset()
                + 1] == 0,
        forall|k: int|
            0 <= k < mem.len() && k != Register::PwmCtrl.spec_offset() && k
                != Register::AdcCtrl.spec_offset() && !(Register::PwmDuty0.spec_offset() <= k
                < Register::PwmDuty0.spec_offset() + 8) ==> #[trigger] spec_apply_writes(
                mem,
                spec_reset_writes(),
            )[k] == mem[k],
{
    reveal_with_fuel(spec_apply_writes_from, 8);
    let ws = spec_reset_writes();
    let m1 = spec_apply_write(mem, ws[0]);
    let m2 = spec_apply_write(m1, ws[1]);
    let m3 = spec_apply_write(m2, ws[2]);
    let m4 = spec_apply_write(m3, ws[3]);
    let m5 = spec_apply_write(m4, ws[4]);
    let m6 = spec_apply_write(m5, ws[5]);
    assert(spec_apply_writes(mem, ws) == m6);
    assert(m6.len() == mem.len());
    assert(m6[0x03] == 0);
    assert(m6[0x0E] == 0);
    assert(m6[0x06] == 0 && m6[0x07] == 0);
    assert(m6[0x08] == 0 && m6[0x09] == 0);
    assert(m6[0x0A] == 0 && m6[0x0B] == 0);
    assert(m6[0x0C] == 0 && m6[0x0D] == 0);
}

} // verus!
