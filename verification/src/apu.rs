use vstd::prelude::*;
use crate::bits::{bit, lemma_byte_ops, lemma_word_ops};
use crate::memory::Memory;

verus! {

pub const BIT_6_MASK: u8 = 0b0100_0000;
pub const BIT_7_MASK: u8 = 0b1000_0000;

/// An I/O register address (0xFF00-0xFF76): always readable and writable.
pub open spec fn io_reg(addr: u16) -> bool {
    0xFF00 <= addr <= 0xFF76
}

/// The 11-bit period of a pulse channel: bits 0-2 of the high register, then the low register.
pub open spec fn period_spec(m: Memory, reg_hi: u16, reg_lo: u16) -> u16 {
    ((m.read_spec(reg_hi) % 8) * 256 + m.read_spec(reg_lo)) as u16
}

/// Writing a period to channel 1: low byte to NR13, bits 8-10 into bits 0-2 of NR14.
pub open spec fn write_period_spec(m: Memory, period: u16) -> Memory {
    let m1 = m.write_spec(0xFF13, (period % 256) as u8);
    m1.write_spec(0xFF14, (m1.read_spec(0xFF14) & 0b1111_1000u8) | ((period / 256) % 8) as u8)
}

/// Reads the period of a pulse channel from its two registers.
pub fn read_period(mem: &Memory, reg_hi: u16, reg_lo: u16) -> (p: u16)
    requires
        mem.readable(reg_hi),
        mem.readable(reg_lo),
    ensures
        p == period_spec(*mem, reg_hi, reg_lo),
        p <= 0x7FF,
{
    let ch1_period_lo = mem.read(reg_lo);
    let ch1_period_hi = mem.read(reg_hi);
    assert(((((ch1_period_hi & 0b111u8) as u16) << 8u16) | (ch1_period_lo as u16)) == ((ch1_period_hi
        % 8) as u16) * 256 + ch1_period_lo as u16) by (bit_vector);
    (((ch1_period_hi & 0b111) as u16) << 8) | (ch1_period_lo as u16)
}

/// The frequency sweep of a pulse channel.
pub trait Sweep: Sized {
    /// What the sweep state becomes when NR10 (`nr10`) is read at a trigger.
    spec fn after_read(self, nr10: u8) -> Self;

    /// The period that one sweep iteration writes, from the current period; `None` if it writes
    /// nothing.
    spec fn next_period(self, period: u16) -> Option<u16>;

    /// What the sweep state keeps.
    spec fn inv(self) -> bool;

    /// Writes `period` into NR13 and NR14; false if it does not fit in 11 bits (the channel
    /// then turns off).
    fn write_period(&mut self, mem: &mut Memory, period: u16) -> (ok: bool)
        ensures
            ok == (period <= 0x7FF),
            *final(mem) == write_period_spec(*old(mem), period),
            *final(self) == *old(self),
    {
        let period_lo = (period & 0xFF) as u8;
        let period_hi = (period >> 8) as u8 & 0b111;
        proof {
            lemma_word_ops(period);
        }
        mem.write(0xFF13, period_lo);
        let nr14 = mem.read(0xFF14);
        mem.write(0xFF14, (nr14 & 0b1111_1000) | period_hi);
        !(period > 0x7FF)
    }

    /// Reads the sweep settings from NR10.
    fn read_sweep(&mut self, mem: &Memory)
        requires
            old(self).inv(),
        ensures
            *final(self) == old(self).after_read(mem.read_spec(0xFF10)),
            final(self).inv(),
    ;

    /// One sweep iteration: the new period is computed from the channel's period registers and
    /// written (see `next_period`); false if it overflows 11 bits.
    fn sweep_iteration(&mut self, mem: &mut Memory, reg_hi: u16, reg_lo: u16) -> (ok: bool)
        requires
            old(self).inv(),
            io_reg(reg_hi),
            io_reg(reg_lo),
        ensures
            *final(self) == *old(self),
            match old(self).next_period(period_spec(*old(mem), reg_hi, reg_lo)) {
                None => ok && *final(mem) == *old(mem),
                Some(p) => ok == (p <= 0x7FF) && *final(mem) == write_period_spec(*old(mem), p),
            },
    ;
}

/// The sweep of channel 1: pace, direction (0 up, 1 down) and 2^step, the divisor of a step.
pub struct WithSweep {
    pub pace: u8,
    pub direction: u8,
    pub step_pow: u16,
}

impl Sweep for WithSweep {
    /// Pace from bits 4-6 of NR10, direction from bit 3, and 2 to the power of bits 0-2.
    open spec fn after_read(self, nr10: u8) -> Self {
        WithSweep { pace: (nr10 / 16) % 8, direction: (nr10 / 8) % 2, step_pow: 1u16 << ((nr10 % 8) as u16) }
    }

    /// The period goes up (direction 0) or down by period / 2^step.
    open spec fn next_period(self, period: u16) -> Option<u16> {
        if self.direction == 0 {
            Some((period + period / self.step_pow) as u16)
        } else {
            Some((period - period / self.step_pow) as u16)
        }
    }

    open spec fn inv(self) -> bool {
        self.step_pow >= 1
    }

    fn read_sweep(&mut self, mem: &Memory) {
        let byte = mem.read(0xFF10);
        self.pace = (byte >> 4) & 0b111;
        self.direction = (byte >> 3) & 1;
        let step = byte & 0b111;
        proof {
            lemma_byte_ops(byte);
        }
        assert(step < 8 ==> 1u16 << (step as u16) >= 1) by (bit_vector);
        self.step_pow = 1 << (step as u16);
    }

    fn sweep_iteration(&mut self, mem: &mut Memory, reg_hi: u16, reg_lo: u16) -> (ok: bool) {
        let period = read_period(mem, reg_hi, reg_lo);
        let new_period = if self.direction == 0 {
            period + period / self.step_pow
        } else {
            period - period / self.step_pow
        };
        self.write_period(mem, new_period)
    }
}

/// Channel 2 has no sweep.
pub struct WithoutSweep {}

impl Sweep for WithoutSweep {
    open spec fn after_read(self, nr10: u8) -> Self {
        self
    }

    open spec fn next_period(self, period: u16) -> Option<u16> {
        None
    }

    open spec fn inv(self) -> bool {
        true
    }

    fn read_sweep(&mut self, _mem: &Memory) {
        // No-op
    }

    fn sweep_iteration(&mut self, _mem: &mut Memory, _reg_hi: u16, _reg_lo: u16) -> (ok: bool) {
        // No-op
        true
    }
}

/// A pulse channel: its register addresses, and the state the register writes drive.
/// `freq` is the tone frequency in Hz, 131072 / (2048 - period).
pub struct PulseChannel<S: Sweep> {
    pub reg_length_duty: u16,
    pub reg_volume_envelope: u16,
    pub reg_period_lo: u16,
    pub reg_period_hi: u16,
    pub enabled: bool,
    pub freq: u32,
    pub duty: u8,
    pub length_enabled: bool,
    pub initial_length: u8,
    pub length_timer: u8,
    pub period_divider: u16,
    pub sweep: S,
}

/// The period divider reloaded from the period registers, and the frequency it gives.
pub open spec fn divider_reloaded<S: Sweep>(ch: PulseChannel<S>, m: Memory) -> PulseChannel<S> {
    let period = period_spec(m, ch.reg_period_hi, ch.reg_period_lo);
    PulseChannel { period_divider: period, freq: (131072int / (2048 - period)) as u32, ..ch }
}

/// The clocking of a pulse channel: the divider advances; duty and initial length are taken from
/// NRx1; bit 6 of NRx4 enables the length timer and is cleared; bit 7 (trigger) enables the
/// channel, restarts the length timer, reloads the divider, reads the sweep and is cleared; a
/// divider that reached 0x7FF is reloaded.
pub open spec fn clock_pulse_spec<S: Sweep>(ch: PulseChannel<S>, m: Memory) -> (PulseChannel<S>, Memory) {
    let hi = m.read_spec(ch.reg_period_hi);
    let duty_length = m.read_spec(ch.reg_length_duty);
    let ch1 = PulseChannel {
        period_divider: (ch.period_divider + 1) as u16,
        duty: duty_length / 64,
        initial_length: duty_length % 64,
        ..ch
    };
    let (ch2, m1) = if bit(hi, 6) {
        (
            PulseChannel { length_enabled: true, ..ch1 },
            m.write_spec(ch.reg_period_hi, m.write_cell_spec(ch.reg_period_hi) & !BIT_6_MASK),
        )
    } else {
        (ch1, m)
    };
    let (ch3, m2) = if bit(hi, 7) {
        let triggered = divider_reloaded(PulseChannel { enabled: true, length_timer: ch2.initial_length, ..ch2 }, m1);
        (
            PulseChannel { sweep: triggered.sweep.after_read(m1.read_spec(0xFF10)), ..triggered },
            m1.write_spec(ch.reg_period_hi, m1.write_cell_spec(ch.reg_period_hi) & !BIT_7_MASK),
        )
    } else {
        (ch2, m1)
    };
    if ch3.period_divider >= 0x7FF {
        (divider_reloaded(ch3, m2), m2)
    } else {
        (ch3, m2)
    }
}

/// A tick of the 512 Hz DIV-APU counter: every fourth tick runs a sweep iteration, which turns
/// the channel off if the period overflows; every odd tick advances an enabled length timer,
/// which turns the channel off once it has reached 64.
pub open spec fn div_apu_tick_spec<S: Sweep>(ch: PulseChannel<S>, m: Memory, div_apu: u8) -> (PulseChannel<S>, Memory) {
    let (swept_ok, m1) = if div_apu % 4 == 0 {
        match ch.sweep.next_period(period_spec(m, ch.reg_period_hi, ch.reg_period_lo)) {
            None => (true, m),
            Some(p) => (p <= 0x7FF, write_period_spec(m, p)),
        }
    } else {
        (true, m)
    };
    let ch1 = PulseChannel { enabled: ch.enabled && swept_ok, ..ch };
    if div_apu % 2 == 1 && ch1.length_enabled {
        if ch1.length_timer == 64 {
            (PulseChannel { enabled: false, length_enabled: false, ..ch1 }, m1)
        } else {
            (PulseChannel { length_timer: (ch1.length_timer + 1) as u8, ..ch1 }, m1)
        }
    } else {
        (ch1, m1)
    }
}

impl<S: Sweep> PulseChannel<S> {
    /// What a channel keeps: its registers are I/O registers, the length timer stops at 64, the
    /// period divider stays within 11 bits and the sweep keeps its own invariant.
    pub open spec fn wf(self) -> bool {
        &&& io_reg(self.reg_length_duty)
        &&& io_reg(self.reg_volume_envelope)
        &&& io_reg(self.reg_period_lo)
        &&& io_reg(self.reg_period_hi)
        &&& self.length_timer <= 64
        &&& self.period_divider <= 0x7FF
        &&& self.sweep.inv()
    }

    /// A channel that is off, on the given registers.
    pub open spec fn new_spec(sweep: S, length_duty: u16, volume_envelope: u16, period_hi: u16, period_lo: u16) -> Self {
        PulseChannel {
            reg_length_duty: length_duty,
            reg_volume_envelope: volume_envelope,
            reg_period_hi: period_hi,
            reg_period_lo: period_lo,
            enabled: false,
            freq: 0,
            duty: 0,
            length_enabled: false,
            initial_length: 0,
            length_timer: 0,
            period_divider: 0,
            sweep,
        }
    }

    /// A channel that is off, on the given registers.
    pub fn new(sweep: S, length_duty: u16, volume_envelope: u16, period_hi: u16, period_lo: u16) -> (ch: Self)
        ensures
            ch == Self::new_spec(sweep, length_duty, volume_envelope, period_hi, period_lo),
    {
        Self {
            reg_length_duty: length_duty,
            reg_volume_envelope: volume_envelope,
            reg_period_hi: period_hi,
            reg_period_lo: period_lo,
            enabled: false,
            freq: 0,
            duty: 0,
            length_enabled: false,
            initial_length: 0,
            length_timer: 0,
            period_divider: 0,
            sweep,
        }
    }

    /// Reloads the period divider from the period registers and sets the frequency.
    pub fn set_pulse_divider(&mut self, mem: &Memory)
        requires
            io_reg(old(self).reg_period_hi),
            io_reg(old(self).reg_period_lo),
        ensures
            *final(self) == divider_reloaded(*old(self), *mem),
            final(self).period_divider <= 0x7FF,
    {
        let period = read_period(mem, self.reg_period_hi, self.reg_period_lo);
        self.period_divider = period;
        self.freq = 131072 / (2048 - period as u32);
    }

    /// A tick of the DIV-APU counter (see `div_apu_tick_spec`).
    pub fn div_apu_tick(&mut self, mem: &mut Memory, div_apu: u8)
        requires
            old(self).wf(),
        ensures
            (*final(self), *final(mem)) == div_apu_tick_spec(*old(self), *old(mem), div_apu),
            final(self).wf(),
    {
        if div_apu % 4 == 0 {
            let ok = self.sweep.sweep_iteration(mem, self.reg_period_hi, self.reg_period_lo);
            self.enabled = self.enabled && ok;
        }
        if (div_apu & 1) != 0 && self.length_enabled {
            if self.length_timer == 64 {
                self.enabled = false;
                self.length_enabled = false;
            } else {
                self.length_timer = self.length_timer + 1;
            }
        }
        proof {
            lemma_byte_ops(div_apu);
        }
    }

    /// Clocks the channel (see `clock_pulse_spec`).
    pub fn clock_pulse(&mut self, mem: &mut Memory)
        requires
            old(self).wf(),
        ensures
            (*final(self), *final(mem)) == clock_pulse_spec(*old(self), *old(mem)),
            final(self).wf(),
    {
        self.period_divider = self.period_divider + 1;

        let ch1_period_hi = mem.read(self.reg_period_hi);
        let duty_length = mem.read(self.reg_length_duty);
        self.duty = duty_length >> 6;
        self.initial_length = duty_length & 0b0011_1111;
        proof {
            lemma_byte_ops(duty_length);
            lemma_byte_ops(ch1_period_hi);
        }

        if ch1_period_hi & BIT_6_MASK != 0 {
            self.length_enabled = true;
            let cell = mem.write_cell(self.reg_period_hi);
            mem.write(self.reg_period_hi, cell & !BIT_6_MASK);
        }

        if ch1_period_hi & BIT_7_MASK != 0 {
            self.enabled = true;
            self.length_timer = self.initial_length;
            self.set_pulse_divider(mem);
            self.sweep.read_sweep(mem);
            let cell = mem.write_cell(self.reg_period_hi);
            mem.write(self.reg_period_hi, cell & !BIT_7_MASK);
        }

        if self.period_divider >= 0x7FF {
            self.set_pulse_divider(mem);
        }
    }
}

/// The audio processing unit: the two pulse channels and the wave channel's divider. The sound
/// they make is synthesised by the front end from `enabled`, `duty` and `freq`.
pub struct APU {
    pub wave_period_divider: u16,
    pub ch1: PulseChannel<WithSweep>,
    pub ch2: PulseChannel<WithoutSweep>,
}

impl APU {
    /// What the unit keeps: both channels well formed.
    pub open spec fn wf(self) -> bool {
        self.ch1.wf() && self.ch2.wf()
    }

    /// Channel 1 on NR11-NR14 with a sweep, channel 2 on NR21-NR24 without, both off.
    pub fn new() -> (apu: Self)
        ensures
            apu.wf(),
            apu.wave_period_divider == 0,
            apu.ch1 == PulseChannel::new_spec(WithSweep { pace: 0, direction: 0, step_pow: 1 }, 0xFF11, 0xFF12, 0xFF14, 0xFF13),
            apu.ch2 == PulseChannel::new_spec(WithoutSweep {}, 0xFF16, 0xFF17, 0xFF19, 0xFF18),
    {
        let ch1 = PulseChannel::new(WithSweep { pace: 0, direction: 0, step_pow: 1 }, 0xFF11, 0xFF12, 0xFF14, 0xFF13);
        let ch2 = PulseChannel::new(WithoutSweep {}, 0xFF16, 0xFF17, 0xFF19, 0xFF18);
        APU { wave_period_divider: 0, ch1, ch2 }
    }

    /// A DIV-APU tick for channel 1, then channel 2.
    pub fn div_apu_tick(&mut self, mem: &mut Memory, div_apu: u8)
        requires
            old(self).wf(),
        ensures
            final(self).wf(),
            ({
                let (c1, m1) = div_apu_tick_spec(old(self).ch1, *old(mem), div_apu);
                let (c2, m2) = div_apu_tick_spec(old(self).ch2, m1, div_apu);
                *final(self) == APU { ch1: c1, ch2: c2, ..*old(self) } && *final(mem) == m2
            }),
    {
        self.ch1.div_apu_tick(mem, div_apu);
        self.ch2.div_apu_tick(mem, div_apu);
    }

    /// Clocks channel 1.
    pub fn clock_pulse(&mut self, mem: &mut Memory)
        requires
            old(self).wf(),
        ensures
            final(self).wf(),
            ({
                let (c1, m1) = clock_pulse_spec(old(self).ch1, *old(mem));
                *final(self) == APU { ch1: c1, ..*old(self) } && *final(mem) == m1
            }),
    {
        self.ch1.clock_pulse(mem);
    }

    /// Advances the wave channel's divider.
    pub fn clock_wave(&mut self, mem: &mut Memory)
        requires
            old(self).wave_period_divider < u16::MAX,
        ensures
            *final(self) == (APU { wave_period_divider: (old(self).wave_period_divider + 1) as u16, ..*old(self) }),
            *final(mem) == *old(mem),
    {
        self.wave_period_divider = self.wave_period_divider + 1;
    }

    /// Reads the master control, panning and volume registers (NR50-NR52); nothing changes.
    pub fn update(&mut self, mem: &mut Memory)
        ensures
            *final(self) == *old(self),
            *final(mem) == *old(mem),
    {
        let master_ctrl = mem.read(0xFF26);
        let _panning = mem.read(0xFF25);
        let _volume_vin = mem.read(0xFF24);
        let _on_off = (master_ctrl & BIT_7_MASK) != 0;
    }
}

} // verus!
