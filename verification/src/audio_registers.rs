use vstd::prelude::*;
use vstd::array::spec_array_update;
use crate::bits::set_elem;

verus! {

/// Number of audio registers, 0xFF10 to 0xFF26.
pub const AUDIO_REG_COUNT: usize = 0x17;

/// Bits of each audio register (0 = NR10 at 0xFF10) that reads return; the others read as 1.
pub open spec fn apu_read_mask(i: int) -> u8 {
    if i == 0 { 0b0111_1111 }        // FF10 - NR10
    else if i == 1 { 0b1100_0000 }   // FF11 - NR11
    else if i == 2 { 0b1111_1111 }   // FF12 - NR12
    else if i == 3 { 0b0000_0000 }   // FF13 - NR13
    else if i == 4 { 0b0100_0000 }   // FF14 - NR14
    else if i == 5 { 0b0000_0000 }
    else if i == 6 { 0b1100_0000 }   // FF16 - NR21
    else if i == 7 { 0b1111_1111 }   // FF17 - NR22
    else if i == 8 { 0b0000_0000 }   // FF18 - NR23
    else if i == 9 { 0b0100_0000 }   // FF19 - NR24
    else if i == 10 { 0b1000_0000 }  // FF1A - NR30
    else if i == 11 { 0b0000_0000 }  // FF1B - NR31
    else if i == 12 { 0b0110_0000 }  // FF1C - NR32
    else if i == 13 { 0b0000_0000 }  // FF1D - NR33
    else if i == 14 { 0b0100_0000 }  // FF1E - NR34
    else if i == 15 { 0b0000_0000 }
    else if i == 16 { 0b0000_0000 }  // FF20 - NR41
    else if i == 17 { 0b1111_1111 }  // FF21 - NR42
    else if i == 18 { 0b1111_1111 }  // FF22 - NR43
    else if i == 19 { 0b0100_0000 }  // FF23 - NR44
    else if i == 20 { 0b1111_1111 }  // FF24 - NR50
    else if i == 21 { 0b1111_1111 }  // FF25 - NR51
    else { 0b1000_1111 }             // FF26 - NR52
}

/// Bits of each audio register that writes reach; the others keep their value.
pub open spec fn apu_write_mask(i: int) -> u8 {
    if i == 0 { 0b0111_1111 }        // FF10 - NR10
    else if i == 1 { 0b1111_1111 }   // FF11 - NR11
    else if i == 2 { 0b1111_1111 }   // FF12 - NR12
    else if i == 3 { 0b1111_1111 }   // FF13 - NR13
    else if i == 4 { 0b1100_0111 }   // FF14 - NR14
    else if i == 5 { 0b0000_0000 }
    else if i == 6 { 0b1111_1111 }   // FF16 - NR21
    else if i == 7 { 0b1111_1111 }   // FF17 - NR22
    else if i == 8 { 0b1111_1111 }   // FF18 - NR23
    else if i == 9 { 0b1100_0111 }   // FF19 - NR24
    else if i == 10 { 0b1000_0000 }  // FF1A - NR30
    else if i == 11 { 0b1111_1111 }  // FF1B - NR31
    else if i == 12 { 0b0110_0000 }  // FF1C - NR32
    else if i == 13 { 0b1111_1111 }  // FF1D - NR33
    else if i == 14 { 0b1100_0111 }  // FF1E - NR34
    else if i == 15 { 0b0000_0000 }
    else if i == 16 { 0b1111_1111 }  // FF20 - NR41
    else if i == 17 { 0b1111_1111 }  // FF21 - NR42
    else if i == 18 { 0b1111_1111 }  // FF22 - NR43
    else if i == 19 { 0b1100_0000 }  // FF23 - NR44
    else if i == 20 { 0b1111_1111 }  // FF24 - NR50
    else if i == 21 { 0b1111_1111 }  // FF25 - NR51
    else { 0b1000_0000 }             // FF26 - NR52
}

fn read_mask(i: usize) -> (m: u8)
    ensures
        m == apu_read_mask(i as int),
{
    if i == 0 { 0b0111_1111 }
    else if i == 1 { 0b1100_0000 }
    else if i == 2 { 0b1111_1111 }
    else if i == 3 { 0b0000_0000 }
    else if i == 4 { 0b0100_0000 }
    else if i == 5 { 0b0000_0000 }
    else if i == 6 { 0b1100_0000 }
    else if i == 7 { 0b1111_1111 }
    else if i == 8 { 0b0000_0000 }
    else if i == 9 { 0b0100_0000 }
    else if i == 10 { 0b1000_0000 }
    else if i == 11 { 0b0000_0000 }
    else if i == 12 { 0b0110_0000 }
    else if i == 13 { 0b0000_0000 }
    else if i == 14 { 0b0100_0000 }
    else if i == 15 { 0b0000_0000 }
    else if i == 16 { 0b0000_0000 }
    else if i == 17 { 0b1111_1111 }
    else if i == 18 { 0b1111_1111 }
    else if i == 19 { 0b0100_0000 }
    else if i == 20 { 0b1111_1111 }
    else if i == 21 { 0b1111_1111 }
    else { 0b1000_1111 }
}

fn write_mask(i: usize) -> (m: u8)
    ensures
        m == apu_write_mask(i as int),
{
    if i == 0 { 0b0111_1111 }
    else if i == 1 { 0b1111_1111 }
    else if i == 2 { 0b1111_1111 }
    else if i == 3 { 0b1111_1111 }
    else if i == 4 { 0b1100_0111 }
    else if i == 5 { 0b0000_0000 }
    else if i == 6 { 0b1111_1111 }
    else if i == 7 { 0b1111_1111 }
    else if i == 8 { 0b1111_1111 }
    else if i == 9 { 0b1100_0111 }
    else if i == 10 { 0b1000_0000 }
    else if i == 11 { 0b1111_1111 }
    else if i == 12 { 0b0110_0000 }
    else if i == 13 { 0b1111_1111 }
    else if i == 14 { 0b1100_0111 }
    else if i == 15 { 0b0000_0000 }
    else if i == 16 { 0b1111_1111 }
    else if i == 17 { 0b1111_1111 }
    else if i == 18 { 0b1111_1111 }
    else if i == 19 { 0b1100_0000 }
    else if i == 20 { 0b1111_1111 }
    else if i == 21 { 0b1111_1111 }
    else { 0b1000_0000 }
}

/// An address of an audio register.
pub open spec fn is_audio_addr(addr: u16) -> bool {
    0xFF10 <= addr <= 0xFF26
}

/// The state of the audio registers as the sound hardware sees it.
pub struct InternalAudioRegisters {
    pub internal: [u8; 0x17],
}

impl InternalAudioRegisters {
    /// All registers zero.
    pub fn new() -> (r: Self)
        ensures
            forall|i: int| 0 <= i < 0x17 ==> r.internal@[i] == 0,
    {
        Self { internal: [0; 0x17] }
    }

    /// Value of the register at `index` (0xFF10 to 0xFF26).
    pub fn index(&self, index: u16) -> (v: u8)
        requires
            is_audio_addr(index),
        ensures
            v == self.internal@[index - 0xFF10],
    {
        self.internal[index as usize - 0xFF10]
    }

    /// Sets the register at `index` (0xFF10 to 0xFF26).
    pub fn set(&mut self, index: u16, value: u8)
        requires
            is_audio_addr(index),
        ensures
            final(self).internal@ == old(self).internal@.update(index - 0xFF10, value),
    {
        self.internal[index as usize - 0xFF10] = value;
    }
}

/// The audio registers: what the CPU reads, what it last wrote, and the internal state.
pub struct AudioRegisters {
    pub read: [u8; 0x17],
    pub internal: InternalAudioRegisters,
    pub write: [u8; 0x17],
}

/// The write cells after the power check of `update`: cleared but for NR52 when power is off.
pub open spec fn powered_writes(internal: Seq<u8>, write: Seq<u8>) -> Seq<u8> {
    if internal[0x16] & 0x80 == 0 {
        Seq::new(0x17, |i: int| if i == 0x16 { write[0x16] } else { 0 })
    } else {
        write
    }
}

/// New internal value of register `i`: the write mask's bits from the write cell, the rest kept.
pub open spec fn merged(i: int, internal: u8, write: u8) -> u8 {
    (apu_write_mask(i) & write) | (internal & !apu_write_mask(i))
}

/// What a read returns for an internal value: the readable bits, the others as 1.
pub open spec fn read_view(i: int, internal: u8) -> u8 {
    (apu_read_mask(i) & internal) | !apu_read_mask(i)
}

impl AudioRegisters {
    /// All register arrays zero.
    pub fn new() -> (r: Self)
        ensures
            forall|i: int| 0 <= i < 0x17 ==> r.read@[i] == 0 && r.write@[i] == 0 && r.internal.internal@[i] == 0,
    {
        Self { read: [0; 0x17], internal: InternalAudioRegisters::new(), write: [0; 0x17] }
    }

    /// What the CPU reads at `index`.
    pub fn index(&self, index: u16) -> (v: u8)
        requires
            is_audio_addr(index),
        ensures
            v == self.read@[index - 0xFF10],
    {
        self.read[index as usize - 0xFF10]
    }

    /// The write cell at `index`.
    pub fn write_cell(&self, index: u16) -> (v: u8)
        requires
            is_audio_addr(index),
        ensures
            v == self.write@[index - 0xFF10],
    {
        self.write[index as usize - 0xFF10]
    }

    /// A CPU write at `index` lands in the write cell.
    pub fn index_mut(&mut self, index: u16, value: u8)
        requires
            is_audio_addr(index),
        ensures
            *final(self) == (AudioRegisters {
                write: spec_array_update(old(self).write, index - 0xFF10, value),
                ..*old(self)
            }),
            final(self).write@ == old(self).write@.update(index - 0xFF10, value),
    {
        set_elem(&mut self.write, index as usize - 0xFF10, value);
    }

    /// Moves the written bits into the internal state and refreshes what reads return.
    /// With NR52's power bit off, every write cell but NR52's is cleared first.
    /// NR14's trigger bit is cleared in its write cell once taken in.
    pub fn update(&mut self)
        ensures
            forall|i: int| #![trigger final(self).internal.internal@[i]] #![trigger final(self).write@[i]] #![trigger final(self).read@[i]]
                0 <= i < 0x17 ==> {
                let w = powered_writes(old(self).internal.internal@, old(self).write@);
                &&& final(self).internal.internal@[i] == merged(i, old(self).internal.internal@[i], w[i])
                &&& final(self).write@[i] == if i == 4 { w[i] & !0x80u8 } else { w[i] }
                &&& final(self).read@[i] == read_view(i, final(self).internal.internal@[i])
            },
    {
        let ghost w0 = powered_writes(self.internal.internal@, self.write@);
        let ghost int0 = self.internal.internal@;
        let nr52_power_before = self.internal.index(0xFF26) & 0x80;
        if nr52_power_before == 0 {
            let old_nr52 = self.write[0x16];
            let mut i: usize = 0;
            while i < 0x16
                invariant
                    i <= 0x16,
                    self.write@.len() == 0x17,
                    self.write@[0x16] == old_nr52,
                    self.internal.internal@ == int0,
                    self.read == old(self).read,
                    forall|j: int| i <= j < 0x17 ==> self.write@[j] == old(self).write@[j],
                    forall|j: int| 0 <= j < i ==> self.write@[j] == 0,
                decreases 0x16 - i,
            {
                self.write[i] = 0;
                i = i + 1;
            }
        }
        assert(self.write@ =~= w0);
        let mut addr: u16 = 0xFF10;
        while addr <= 0xFF26
            invariant
                0xFF10 <= addr <= 0xFF27,
                self.write@.len() == 0x17,
                self.internal.internal@.len() == 0x17,
                int0.len() == 0x17,
                w0.len() == 0x17,
                forall|i: int| #![trigger self.internal.internal@[i]] #![trigger self.write@[i]] #![trigger self.read@[i]]
                    0 <= i < addr - 0xFF10 ==> {
                    &&& self.internal.internal@[i] == merged(i, int0[i], w0[i])
                    &&& self.write@[i] == if i == 4 { w0[i] & !0x80u8 } else { w0[i] }
                    &&& self.read@[i] == read_view(i, self.internal.internal@[i])
                },
                forall|i: int| #![trigger self.internal.internal@[i]] #![trigger self.write@[i]]
                    addr - 0xFF10 <= i < 0x17 ==> {
                    &&& self.internal.internal@[i] == int0[i]
                    &&& self.write@[i] == w0[i]
                },
            decreases 0xFF27 - addr,
        {
            self.update_bits(addr);
            addr = addr + 1;
        }
    }

    fn update_bits(&mut self, addr_orig: u16)
        requires
            is_audio_addr(addr_orig),
        ensures
            ({
                let i = addr_orig - 0xFF10;
                let m = merged(i, old(self).internal.internal@[i], old(self).write@[i]);
                &&& final(self).internal.internal@ == old(self).internal.internal@.update(i, m)
                &&& final(self).write@ == if i == 4 {
                    old(self).write@.update(i, old(self).write@[i] & !0x80u8)
                } else {
                    old(self).write@
                }
                &&& final(self).read@ == old(self).read@.update(i, read_view(i, m))
            }),
    {
        let addr = addr_orig as usize - 0xFF10;
        assert(self.write@.len() == 0x17 && self.read@.len() == 0x17);
        let wm = write_mask(addr);
        let write_bits = wm & self.write[addr];
        let no_write_bits = self.internal.index(addr_orig) & !wm;
        if addr_orig == 0xFF14 {
            self.write[addr] = self.write[addr] & !0x80u8;
        }
        let v = write_bits | no_write_bits;
        self.internal.set(addr_orig, v);
        let rm = read_mask(addr);
        self.read[addr] = (rm & v) | !rm;
    }
}

} // verus!
