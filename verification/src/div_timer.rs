use vstd::prelude::*;

verus! {

/// The DIV register and the DIV-APU counter that its bit 4 drives.
pub struct DivTimer {
    /// Cell that writes to DIV land in.
    pub write_reg: u8,
    /// Value read from DIV.
    pub read_reg: u8,
    /// Clock cycles since DIV last counted up, modulo 256.
    pub div_counter: u8,
    pub div_apu: u8,
}

impl DivTimer {
    /// Whether `tick(m_cycles)` makes the cycle counter wrap, so that DIV counts up.
    pub open spec fn div_counts(self, m_cycles: u8) -> bool {
        self.div_counter + 4 * m_cycles >= 256
    }

    /// Whether `tick(m_cycles)` makes DIV-APU count up: DIV counts up and its bit 4 falls.
    pub open spec fn apu_ticks(self, m_cycles: u8) -> bool {
        self.div_counts(m_cycles) && self.read_reg % 32 == 31
    }

    /// A timer with every counter at zero.
    pub fn new() -> (t: Self)
        ensures
            t.write_reg == 0 && t.read_reg == 0 && t.div_counter == 0 && t.div_apu == 0,
    {
        Self { write_reg: 0, read_reg: 0, div_counter: 0, div_apu: 0 }
    }

    /// DIV register: counts up at 16384 Hz. Clock freq is 4.19 MHz. So, DIV counts up
    /// every 4190000 / 16384 = 255.76 ~= 256 clock cycles. We use a standard u8 with
    /// wrapping_add to count these DIV cycles.
    /// Returns whether DIV-APU counted up.
    pub fn tick(&mut self, m_cycles: u8) -> (div_apu_ticked: bool)
        requires
            m_cycles < 64,
        ensures
            final(self).div_counter == (old(self).div_counter + 4 * m_cycles) % 256,
            final(self).read_reg == if old(self).div_counts(m_cycles) {
                ((old(self).read_reg + 1) % 256) as u8
            } else {
                old(self).read_reg
            },
            div_apu_ticked == old(self).apu_ticks(m_cycles),
            final(self).div_apu == if div_apu_ticked {
                ((old(self).div_apu + 1) % 256) as u8
            } else {
                old(self).div_apu
            },
            final(self).write_reg == old(self).write_reg,
    {
        let mut div_apu_ticked = false;
        let last_div_ctr = self.div_counter;

        self.div_counter = self.div_counter.wrapping_add(4 * m_cycles);
        if self.div_counter < last_div_ctr {
            // Check if DIV counter overflowed.
            let last_div = self.read_reg;
            let new_div = last_div.wrapping_add(1);
            // Check for falling edge of 4th bit to update DIV-APU.
            assert((new_div & 0b0001_0000u8 == 0 && last_div & 0b0001_0000u8 != 0) == (last_div % 32
                == 31)) by (bit_vector)
                requires
                    new_div == ((last_div + 1) % 256) as u8,
            ;
            if new_div & 0b0001_0000 == 0 && last_div & 0b0001_0000 != 0 {
                self.div_apu = self.div_apu.wrapping_add(1);
                div_apu_ticked = true;
            }
            self.read_reg = new_div;
        }
        div_apu_ticked
    }

    /// Value of the DIV register.
    pub fn read(&self) -> (v: u8)
        ensures
            v == self.read_reg,
    {
        self.read_reg
    }

    /// Writing DIV resets the value read from it and stores the written byte.
    pub fn write(&mut self, value: u8)
        ensures
            *final(self) == (DivTimer { read_reg: 0, write_reg: value, ..*old(self) }),
    {
        self.read_reg = 0;
        self.write_reg = value;
    }
}

} // verus!
