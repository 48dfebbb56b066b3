use vstd::prelude::*;

use crate::conf::{
    Error, CPU_HZ, MEM_LOC_NR10, MEM_LOC_NR11, MEM_LOC_NR12, MEM_LOC_NR13, MEM_LOC_NR14,
    MEM_LOC_NR21, MEM_LOC_NR22, MEM_LOC_NR23, MEM_LOC_NR24, MEM_LOC_NR30, MEM_LOC_NR31,
    MEM_LOC_NR32, MEM_LOC_NR33, MEM_LOC_NR34, MEM_LOC_NR41, MEM_LOC_NR42, MEM_LOC_NR43,
    MEM_LOC_NR44, MEM_LOC_NR50, MEM_LOC_NR51, MEM_LOC_NR52, MEM_LOC_WAVE_PATTERN_END,
    MEM_LOC_WAVE_PATTERN_START,
};
use crate::ppu::bit_of;
use crate::util::{is_bit, set_bit, set_bit_16, Counter};

verus! {

/// Samples, at 44100 Hz, between two envelope steps for a sweep pace of NRx2.
pub open spec fn envelope_samples(pace: u8) -> u32 {
    ((44100 * (pace & 0b111)) / 64) as u32
}

/// An 11 bit period from the low register and the three low bits of the high one.
pub open spec fn period_of(lo: u8, hi: u8) -> u16 {
    ((hi & 0b111) * 256 + lo) as u16
}

/// A counter that goes up by one at each trigger, wrapping around.
pub open spec fn next_trigger(t: u32) -> u32 {
    ((t + 1) % 0x1_0000_0000) as u32
}

/// Cycles between two LFSR shifts: CPU_HZ over the noise frequency 262144 / (divider *
/// 2^shift) Hz, with a divider of 1/2 for a code of 0. The frequency is rounded to single
/// precision before that division, and the quotient is cut to an integer, which leaves a
/// divider of 7 one cycle short.
pub open spec fn lfsr_period(divider_code: u8, shift: u8) -> u64 {
    if divider_code == 0 {
        (8 * vstd::arithmetic::power2::pow2(shift as nat)) as u64
    } else if divider_code == 7 {
        (16 * 7 * vstd::arithmetic::power2::pow2(shift as nat) - 1) as u64
    } else {
        (16 * divider_code * vstd::arithmetic::power2::pow2(shift as nat)) as u64
    }
}

/// What a pulse channel (1 or 2) plays, as the synthesizer reads it.
#[derive(Clone, Copy, Debug)]
pub struct PulseSound {
    pub active: bool,
    /// The tone is CPU_HZ / 32 / (2048 - period) Hz.
    pub period: u16,
    /// Starting volume, in fifteenths.
    pub volume: u8,
    /// Samples between two envelope steps; 0 keeps the volume.
    pub envelope_sweep_length: u32,
    pub envelope_direction_down: bool,
    /// Duty cycle: 0 to 3 for 12.5, 25, 50 and 75 %.
    pub wave_duty: u8,
    pub length_enable: bool,
    pub length: u8,
    pub speaker_left: bool,
    pub speaker_right: bool,
    /// Goes up at each trigger: the synthesizer then starts again from `volume`.
    pub triggers: u32,
}

/// What the wave channel (3) plays.
#[derive(Clone, Copy, Debug)]
pub struct WaveSound {
    pub active: bool,
    pub length: u8,
    /// Output level: 0 mutes, 1, 2 and 3 play at 100, 50 and 25 %.
    pub output_level: u8,
    pub length_enable: bool,
    pub wave_pattern: [u8; 16],
    /// The tone is 2097152 / (2048 - period) / 32 Hz.
    pub period: u16,
    pub speaker_left: bool,
    pub speaker_right: bool,
    pub triggers: u32,
}

/// What the noise channel (4) plays, and its linear feedback shift register.
#[derive(Debug)]
pub struct NoiseSound {
    pub active: bool,
    pub length: u8,
    pub length_enable: bool,
    /// Starting volume, in fifteenths.
    pub volume: u8,
    pub is_envelope_dir_inc: bool,
    pub envelope_sweep_length: u32,
    pub lfsr_short_mode: bool,
    pub lfsr: u16,
    pub lfsr_counter: Counter,
    pub speaker_left: bool,
    pub speaker_right: bool,
    pub triggers: u32,
}

/// A length step: an enabled, running length counts down, and the channel stops at zero.
pub open spec fn length_step(active: bool, length_enable: bool, length: u8) -> (bool, u8) {
    if length_enable && length > 0 {
        (length - 1 > 0, (length - 1) as u8)
    } else {
        (active, length)
    }
}

/// One shift of the LFSR: bit 14 (and bit 7 in short mode) takes the XNOR of bits 0 and 1.
pub open spec fn lfsr_step(lfsr: u16, short_mode: bool) -> u16 {
    let new_bit = !(lfsr ^ (lfsr >> 1u16)) & 1u16;
    let shifted = (lfsr >> 1u16) | (new_bit << 14u16);
    if short_mode {
        if new_bit != 0 {
            shifted | (1u16 << 7u16)
        } else {
            shifted & !(1u16 << 7u16)
        }
    } else {
        shifted
    }
}

/// The LFSR after `k` shifts.
pub open spec fn lfsr_steps(lfsr: u16, short_mode: bool, k: nat) -> u16
    decreases k,
{
    if k == 0 {
        lfsr
    } else {
        lfsr_step(lfsr_steps(lfsr, short_mode, (k - 1) as nat), short_mode)
    }
}

impl PulseSound {
    pub open spec fn spec_tick(&self) -> PulseSound {
        let (active, length) = length_step(self.active, self.length_enable, self.length);
        PulseSound { active, length, ..*self }
    }

    /// The channel after a write to its control register: a trigger (bit 7 of `ctrl`, with the
    /// sound on) loads the other registers; otherwise only the length enable (bit 6) changes.
    pub open spec fn after_control(
        &self,
        on: bool,
        len_duty: u8,
        envelope: u8,
        period_lo: u8,
        ctrl: u8,
        left: bool,
        right: bool,
    ) -> PulseSound {
        let length_enable = bit_of(ctrl, 6);
        if !on || !bit_of(ctrl, 7) {
            PulseSound { length_enable, ..*self }
        } else {
            let init_volume = envelope >> 4u8;
            let inc = bit_of(envelope, 3);
            PulseSound {
                active: init_volume > 0 || inc,
                period: period_of(period_lo, ctrl),
                volume: init_volume,
                envelope_sweep_length: envelope_samples(envelope),
                envelope_direction_down: !inc,
                wave_duty: len_duty >> 6u8,
                length_enable,
                length: len_duty & 0b11_1111,
                speaker_left: left,
                speaker_right: right,
                triggers: next_trigger(self.triggers),
            }
        }
    }

    fn new() -> (r: PulseSound)
        ensures
            !r.active && r.length == 0 && !r.length_enable && r.speaker_left && r.speaker_right,
            r.volume == 0 && r.period == 0 && r.envelope_sweep_length == 0,
            r.envelope_direction_down && r.wave_duty == 0 && r.triggers == 0,
    {
        PulseSound {
            active: false,
            period: 0,
            volume: 0,
            envelope_sweep_length: 0,
            envelope_direction_down: true,
            wave_duty: 0,
            length_enable: false,
            length: 0,
            speaker_left: true,
            speaker_right: true,
            triggers: 0,
        }
    }

    fn tick(&mut self)
        ensures
            *final(self) == old(self).spec_tick(),
    {
        if self.length_enable && self.length > 0 {
            self.length -= 1;
            self.active = self.length > 0;
        }
    }
}

impl WaveSound {
    pub open spec fn spec_tick(&self) -> WaveSound {
        let (active, length) = length_step(self.active, self.length_enable, self.length);
        WaveSound { active, length, ..*self }
    }

    fn new() -> (r: WaveSound)
        ensures
            !r.active && r.length == 0 && !r.length_enable && r.speaker_left && r.speaker_right,
            r.output_level == 0 && r.period == 0 && r.triggers == 0,
            forall|i: int| 0 <= i < 16 ==> r.wave_pattern[i] == 0,
    {
        WaveSound {
            active: false,
            length: 0,
            output_level: 0,
            length_enable: false,
            wave_pattern: [0; 16],
            period: 0,
            speaker_left: true,
            speaker_right: true,
            triggers: 0,
        }
    }

    fn tick(&mut self)
        ensures
            *final(self) == old(self).spec_tick(),
    {
        if self.length_enable && self.length > 0 {
            self.length -= 1;
            self.active = self.length > 0;
        }
    }
}

impl NoiseSound {
    /// Whether a tick by `cycles` is defined: the shifts it counts fit in a byte.
    pub open spec fn tick_defined(&self, cycles: u64) -> bool {
        &&& self.lfsr_counter.modulo > 0
        &&& self.lfsr_counter.counter + cycles <= u64::MAX
        &&& (self.lfsr_counter.counter + cycles) / (self.lfsr_counter.modulo as int) <= 255
    }

    pub open spec fn spec_tick(&self, cycles: u64, length_clock: bool) -> NoiseSound {
        let (active, length) = if length_clock {
            length_step(self.active, self.length_enable, self.length)
        } else {
            (self.active, self.length)
        };
        let total = self.lfsr_counter.counter + cycles;
        let m = self.lfsr_counter.modulo as int;
        NoiseSound {
            active,
            length,
            lfsr: lfsr_steps(self.lfsr, self.lfsr_short_mode, (total / m) as nat),
            lfsr_counter: Counter { counter: (total % m) as u64, modulo: self.lfsr_counter.modulo },
            ..*self
        }
    }

    fn tick(&mut self, cycles: u64, apu_clock_overflow: bool)
        requires
            old(self).tick_defined(cycles),
        ensures
            *final(self) == old(self).spec_tick(cycles, apu_clock_overflow),
    {
        if apu_clock_overflow && self.length_enable && self.length > 0 {
            self.length -= 1;
            self.active = self.length > 0;
        }

        self.lfsr_counter.tick(cycles);
        let mut overflow_count = self.lfsr_counter.check_overflow_count();
        let ghost k = overflow_count as nat;
        let ghost lfsr0 = self.lfsr;
        let ghost before = *self;
        while overflow_count > 0
            invariant
                overflow_count <= k,
                *self == (NoiseSound { lfsr: self.lfsr, ..before }),
                self.lfsr == lfsr_steps(lfsr0, self.lfsr_short_mode, (k - overflow_count) as nat),
            decreases overflow_count,
        {
            overflow_count -= 1;
            let lfsr = self.lfsr;
            let new_bit = !(lfsr ^ (lfsr >> 1u16)) & 0b1u16;
            self.lfsr = (lfsr >> 1u16) | new_bit << 14u16;

            if self.lfsr_short_mode {
                self.lfsr = set_bit_16(self.lfsr, 7, new_bit != 0);
            }
        }
    }
}

/// The sound chip: its registers and the state of the four channels.
pub struct Apu {
    pub disable_sound: bool,
    pub nr10: u8,
    pub nr11: u8,
    pub nr12: u8,
    pub nr13: u8,
    pub nr14: u8,
    pub nr21: u8,
    pub nr22: u8,
    pub nr23: u8,
    pub nr24: u8,
    pub nr30: u8,
    pub nr31: u8,
    pub nr32: u8,
    pub nr33: u8,
    pub nr34: u8,
    pub nr41: u8,
    pub nr42: u8,
    pub nr43: u8,
    pub nr44: u8,
    pub nr50: u8,
    pub nr51: u8,
    pub nr52: u8,
    pub wave_pattern_ram: [u8; 16],
    pub ch1: PulseSound,
    pub ch2: PulseSound,
    pub ch3: WaveSound,
    pub ch4: NoiseSound,
    /// The 256 Hz clock of the length counters.
    pub clock: Counter,
    /// Whether NR50 was written: until then each channel plays at half its volume on each side.
    pub master_volume_set: bool,
}

/// Whether the sound chip handles a write at `loc`.
pub open spec fn apu_write_defined(loc: u16) -> bool {
    ||| MEM_LOC_NR10 <= loc <= MEM_LOC_NR14
    ||| MEM_LOC_NR21 <= loc <= MEM_LOC_NR24
    ||| MEM_LOC_NR30 <= loc <= MEM_LOC_NR34
    ||| MEM_LOC_NR41 <= loc <= MEM_LOC_NR52
    ||| MEM_LOC_WAVE_PATTERN_START <= loc <= MEM_LOC_WAVE_PATTERN_END
}

impl Apu {
    /// The length clock runs at 256 Hz, and the noise LFSR shifts at least every 8 cycles.
    pub open spec fn wf(&self) -> bool {
        &&& self.clock.modulo == CPU_HZ / 256
        &&& self.clock.counter < self.clock.modulo
        &&& self.ch4.lfsr_counter.modulo >= 8
        &&& self.ch4.lfsr_counter.counter < self.ch4.lfsr_counter.modulo
    }

    /// Whether the sound is on (bit 7 of NR52).
    pub open spec fn spec_audio_on(&self) -> bool {
        bit_of(self.nr52, 7)
    }

    /// Whether a trigger may start a channel.
    pub open spec fn can_play(&self) -> bool {
        !self.disable_sound && self.spec_audio_on()
    }

    /// Channel 3 after a write to NR34.
    pub open spec fn ch3_after_control(&self) -> WaveSound {
        let length_enable = bit_of(self.nr34, 6);
        if !self.can_play() || !bit_of(self.nr34, 7) {
            WaveSound { length_enable, ..self.ch3 }
        } else {
            WaveSound {
                active: bit_of(self.nr30, 7),
                length: (0xFF - self.nr31) as u8,
                output_level: (self.nr32 >> 5u8) & 0b11,
                // Always on: otherwise the channel beeps forever.
                length_enable: true,
                wave_pattern: self.wave_pattern_ram,
                period: period_of(self.nr33, self.nr34),
                speaker_left: bit_of(self.nr51, 6),
                speaker_right: bit_of(self.nr51, 2),
                triggers: next_trigger(self.ch3.triggers),
            }
        }
    }

    /// Channel 4 after a write to NR44.
    pub open spec fn ch4_after_control(&self) -> NoiseSound {
        let length_enable = bit_of(self.nr44, 6);
        if !self.can_play() || !bit_of(self.nr44, 7) {
            NoiseSound { length_enable, ..self.ch4 }
        } else {
            let init_volume = self.nr42 >> 4u8;
            let inc = bit_of(self.nr42, 3);
            NoiseSound {
                active: init_volume > 0 || inc,
                length: (64 - (self.nr41 & 0b11_1111)) as u8,
                length_enable,
                volume: init_volume,
                is_envelope_dir_inc: inc,
                envelope_sweep_length: envelope_samples(self.nr42),
                lfsr_short_mode: bit_of(self.nr43, 3),
                lfsr: 0,
                lfsr_counter: Counter {
                    counter: 0,
                    modulo: lfsr_period(self.nr43 & 0b111, (self.nr43 >> 4u8) & 0xF),
                },
                speaker_left: bit_of(self.nr51, 7),
                speaker_right: bit_of(self.nr51, 3),
                triggers: next_trigger(self.ch4.triggers),
            }
        }
    }

    /// The chip after a write of `byte` at `loc`.
    pub open spec fn after_write(&self, loc: u16, byte: u8) -> Apu {
        if loc <= MEM_LOC_NR14 {
            self.after_write_ch1(loc, byte)
        } else if loc <= MEM_LOC_NR24 {
            self.after_write_ch2(loc, byte)
        } else if loc <= MEM_LOC_NR34 {
            self.after_write_ch3(loc, byte)
        } else if loc <= MEM_LOC_NR44 {
            self.after_write_ch4(loc, byte)
        } else if loc <= MEM_LOC_NR52 {
            self.after_write_master(loc, byte)
        } else if !self.ch3.active {
            // Wave pattern RAM: writable while channel 3 is off.
            Apu {
                wave_pattern_ram: vstd::array::spec_array_update(
                    self.wave_pattern_ram,
                    loc - MEM_LOC_WAVE_PATTERN_START,
                    byte,
                ),
                ..*self
            }
        } else {
            *self
        }
    }

    /// A write to NR10 to NR14.
    pub open spec fn after_write_ch1(&self, loc: u16, byte: u8) -> Apu {
        if loc == MEM_LOC_NR10 {
            Apu { nr10: byte, ..*self }
        } else if loc == MEM_LOC_NR11 {
            Apu {
                nr11: byte,
                ch1: PulseSound { length: (64 - (byte & 0b11_1111)) as u8, ..self.ch1 },
                ..*self
            }
        } else if loc == MEM_LOC_NR12 {
            Apu { nr12: byte, ..*self }
        } else if loc == MEM_LOC_NR13 {
            Apu { nr13: byte, ..*self }
        } else {
            Apu {
                nr14: byte,
                ch1: self.ch1.after_control(
                    self.can_play(),
                    self.nr11,
                    self.nr12,
                    self.nr13,
                    byte,
                    bit_of(self.nr51, 4),
                    bit_of(self.nr51, 0),
                ),
                ..*self
            }
        }
    }

    /// A write to NR21 to NR24.
    pub open spec fn after_write_ch2(&self, loc: u16, byte: u8) -> Apu {
        if loc == MEM_LOC_NR21 {
            Apu {
                nr21: byte,
                ch2: PulseSound { length: (64 - (byte & 0b11_1111)) as u8, ..self.ch2 },
                ..*self
            }
        } else if loc == MEM_LOC_NR22 {
            Apu { nr22: byte, ..*self }
        } else if loc == MEM_LOC_NR23 {
            Apu { nr23: byte, ..*self }
        } else {
            Apu {
                nr24: byte,
                ch2: self.ch2.after_control(
                    self.can_play(),
                    self.nr21,
                    self.nr22,
                    self.nr23,
                    byte,
                    bit_of(self.nr51, 5),
                    bit_of(self.nr51, 1),
                ),
                ..*self
            }
        }
    }

    /// A write to NR30 to NR34.
    pub open spec fn after_write_ch3(&self, loc: u16, byte: u8) -> Apu {
        if loc == MEM_LOC_NR30 {
            Apu { nr30: byte, ..*self }
        } else if loc == MEM_LOC_NR31 {
            Apu { nr31: byte, ch3: WaveSound { length: (255 - byte) as u8, ..self.ch3 }, ..*self }
        } else if loc == MEM_LOC_NR32 {
            Apu { nr32: byte, ..*self }
        } else if loc == MEM_LOC_NR33 {
            Apu { nr33: byte, ..*self }
        } else {
            Apu { nr34: byte, ch3: Apu { nr34: byte, ..*self }.ch3_after_control(), ..*self }
        }
    }

    /// A write to NR41 to NR44.
    pub open spec fn after_write_ch4(&self, loc: u16, byte: u8) -> Apu {
        if loc == MEM_LOC_NR41 {
            Apu {
                nr41: byte,
                ch4: NoiseSound { length: (64 - (byte & 0b11_1111)) as u8, ..self.ch4 },
                ..*self
            }
        } else if loc == MEM_LOC_NR42 {
            Apu { nr42: byte, ..*self }
        } else if loc == MEM_LOC_NR43 {
            Apu { nr43: byte, ..*self }
        } else {
            Apu { nr44: byte, ch4: Apu { nr44: byte, ..*self }.ch4_after_control(), ..*self }
        }
    }

    /// A write to NR50 to NR52: master volume, panning and the master switch, which stops every
    /// channel when it turns the sound off.
    pub open spec fn after_write_master(&self, loc: u16, byte: u8) -> Apu {
        if loc == MEM_LOC_NR50 {
            Apu { nr50: byte, master_volume_set: true, ..*self }
        } else if loc == MEM_LOC_NR51 {
            Apu { nr51: byte, ..*self }
        } else {
            let nr52 = byte & 0xF0;
            if bit_of(nr52, 7) {
                Apu { nr52, ..*self }
            } else {
                Apu {
                    nr52,
                    ch1: PulseSound { active: false, ..self.ch1 },
                    ch2: PulseSound { active: false, ..self.ch2 },
                    ch3: WaveSound { active: false, ..self.ch3 },
                    ch4: NoiseSound { active: false, ..self.ch4 },
                    ..*self
                }
            }
        }
    }

    /// What a read at `loc` gives: NR50, NR51, NR52 with the channels' on bits, or the wave
    /// pattern RAM, which reads as 0xFF while channel 3 is off.
    pub open spec fn spec_read(&self, loc: u16) -> Result<u8, Error> {
        if loc == MEM_LOC_NR50 {
            Ok(self.nr50)
        } else if loc == MEM_LOC_NR51 {
            Ok(self.nr51)
        } else if loc == MEM_LOC_NR52 {
            Ok(
                ((self.nr52 & 0xF0) | (if self.ch1.active {
                    1u8
                } else {
                    0u8
                }) | (if self.ch2.active {
                    2u8
                } else {
                    0u8
                }) | (if self.ch3.active {
                    4u8
                } else {
                    0u8
                }) | (if self.ch4.active {
                    8u8
                } else {
                    0u8
                })) as u8,
            )
        } else if MEM_LOC_WAVE_PATTERN_START <= loc <= MEM_LOC_WAVE_PATTERN_END {
            if self.ch3.active {
                Ok(self.wave_pattern_ram[loc - MEM_LOC_WAVE_PATTERN_START])
            } else {
                Ok(0xFF)
            }
        } else {
            Err(Error::UnimplementedRead(loc))
        }
    }

    /// Whether an update by `cycles` is defined: the length clock overflows at most once and
    /// the LFSR shifts at most 255 times.
    pub open spec fn update_defined(&self, cycles: u64) -> bool {
        &&& self.clock.tick_then_overflow_ok(cycles)
        &&& self.ch4.tick_defined(cycles)
    }

    /// The chip after `cycles` cycles.
    pub open spec fn after_update(&self, cycles: u64) -> Apu {
        let overflow = self.clock.counter + cycles >= self.clock.modulo;
        Apu {
            clock: Counter {
                counter: (if overflow {
                    self.clock.counter + cycles - self.clock.modulo
                } else {
                    self.clock.counter + cycles
                }) as u64,
                modulo: self.clock.modulo,
            },
            ch1: if overflow {
                self.ch1.spec_tick()
            } else {
                self.ch1
            },
            ch2: if overflow {
                self.ch2.spec_tick()
            } else {
                self.ch2
            },
            ch3: if overflow {
                self.ch3.spec_tick()
            } else {
                self.ch3
            },
            ch4: self.ch4.spec_tick(cycles, overflow),
            ..*self
        }
    }

    pub fn new(disable_sound: bool) -> (r: Apu)
        ensures
            r.wf(),
            r.disable_sound == disable_sound,
            r.nr10 == 0 && r.nr11 == 0 && r.nr12 == 0 && r.nr13 == 0 && r.nr14 == 0,
            r.nr21 == 0 && r.nr22 == 0 && r.nr23 == 0 && r.nr24 == 0,
            r.nr30 == 0 && r.nr31 == 0 && r.nr32 == 0 && r.nr33 == 0 && r.nr34 == 0,
            r.nr41 == 0 && r.nr42 == 0 && r.nr43 == 0 && r.nr44 == 0,
            r.nr50 == 0 && r.nr51 == 0 && r.nr52 == 0,
            forall|i: int| 0 <= i < 16 ==> r.wave_pattern_ram[i] == 0,
            !r.ch1.active && !r.ch2.active && !r.ch3.active && !r.ch4.active,
            r.clock.counter == 0,
            r.ch4.lfsr_counter.counter == 0 && r.ch4.lfsr_counter.modulo == CPU_HZ / 256,
            !r.master_volume_set,
    {
        let ch4 = NoiseSound {
            active: false,
            length: 0,
            length_enable: false,
            volume: 0,
            is_envelope_dir_inc: false,
            envelope_sweep_length: 0,
            lfsr_short_mode: false,
            lfsr: 0,
            lfsr_counter: Counter::new(CPU_HZ as u64 / 256),
            speaker_left: true,
            speaker_right: true,
            triggers: 0,
        };
        Apu {
            disable_sound,
            nr10: 0,
            nr11: 0,
            nr12: 0,
            nr13: 0,
            nr14: 0,
            nr21: 0,
            nr22: 0,
            nr23: 0,
            nr24: 0,
            nr30: 0,
            nr31: 0,
            nr32: 0,
            nr33: 0,
            nr34: 0,
            nr41: 0,
            nr42: 0,
            nr43: 0,
            nr44: 0,
            nr50: 0,
            nr51: 0,
            nr52: 0,
            wave_pattern_ram: [0; 16],
            ch1: PulseSound::new(),
            ch2: PulseSound::new(),
            ch3: WaveSound::new(),
            ch4,
            clock: Counter::new(CPU_HZ as u64 / 256),
            master_volume_set: false,
        }
    }

    /// Whether `update(cycles)` is defined.
    pub fn is_update_defined(&self, cycles: u64) -> (r: bool)
        requires
            self.wf(),
        ensures
            r == self.update_defined(cycles),
    {
        let c = self.clock.counter;
        let m = self.clock.modulo;
        if c > u64::MAX - cycles {
            return false;
        }
        if c + cycles >= m && c + cycles - m >= m {
            return false;
        }
        let lc = self.ch4.lfsr_counter.counter;
        let lm = self.ch4.lfsr_counter.modulo;
        if lc > u64::MAX - cycles {
            return false;
        }
        (lc + cycles) / lm <= 255
    }

    /// Counts `cycles` cycles: the 256 Hz clock steps the length counters, and the LFSR shifts.
    pub fn update(&mut self, cycles: u64)
        requires
            old(self).wf(),
            old(self).update_defined(cycles),
        ensures
            final(self).wf(),
            *final(self) == old(self).after_update(cycles),
    {
        let did_overflow = self.clock.tick_and_check_overflow(cycles);

        if did_overflow {
            self.ch1.tick();
            self.ch2.tick();
            self.ch3.tick();
        }

        self.ch4.tick(cycles, did_overflow);
    }

    pub fn write(&mut self, loc: u16, byte: u8)
        requires
            old(self).wf(),
            apu_write_defined(loc),
        ensures
            final(self).wf(),
            *final(self) == old(self).after_write(loc, byte),
    {
        // During the all sound off mode the registers stay writable.
        if loc <= MEM_LOC_NR14 {
            self.write_ch1(loc, byte);
        } else if loc <= MEM_LOC_NR24 {
            self.write_ch2(loc, byte);
        } else if loc <= MEM_LOC_NR34 {
            self.write_ch3(loc, byte);
        } else if loc <= MEM_LOC_NR44 {
            self.write_ch4(loc, byte);
        } else if loc <= MEM_LOC_NR52 {
            self.write_master(loc, byte);
        } else if !self.ch3.active {
            let i = (loc - MEM_LOC_WAVE_PATTERN_START) as usize;
            self.wave_pattern_ram[i] = byte;
            assert(self.wave_pattern_ram =~= vstd::array::spec_array_update(
                old(self).wave_pattern_ram,
                i as int,
                byte,
            ));
        }
        // A write to the wave pattern RAM while channel 3 plays is dropped.
    }

    fn write_ch1(&mut self, loc: u16, byte: u8)
        requires
            MEM_LOC_NR10 <= loc <= MEM_LOC_NR14,
        ensures
            *final(self) == old(self).after_write_ch1(loc, byte),
    {
        if loc == MEM_LOC_NR10 {
            self.nr10 = byte;
        } else if loc == MEM_LOC_NR11 {
            // NR11: Channel 1 length timer & duty cycle
            self.nr11 = byte;
            assert(byte & 0x3Fu8 <= 63u8) by (bit_vector);
            self.ch1.length = 64 - (self.nr11 & 0b11_1111);
        } else if loc == MEM_LOC_NR12 {
            // NR12: Channel 1 volume & envelope
            self.nr12 = byte;
        } else if loc == MEM_LOC_NR13 {
            // NR13: Channel 1 period low [write-only].
            self.nr13 = byte;
        } else {
            // NR14: Channel 1 period high & control.
            self.nr14 = byte;
            self.channel1_update();
        }
    }

    fn write_ch2(&mut self, loc: u16, byte: u8)
        requires
            MEM_LOC_NR21 <= loc <= MEM_LOC_NR24,
        ensures
            *final(self) == old(self).after_write_ch2(loc, byte),
    {
        if loc == MEM_LOC_NR21 {
            self.nr21 = byte;
            assert(byte & 0x3Fu8 <= 63u8) by (bit_vector);
            self.ch2.length = 64 - (self.nr21 & 0b11_1111);
        } else if loc == MEM_LOC_NR22 {
            self.nr22 = byte;
        } else if loc == MEM_LOC_NR23 {
            self.nr23 = byte;
        } else {
            self.nr24 = byte;
            self.channel2_update();
        }
    }

    fn write_ch3(&mut self, loc: u16, byte: u8)
        requires
            MEM_LOC_NR30 <= loc <= MEM_LOC_NR34,
        ensures
            *final(self) == old(self).after_write_ch3(loc, byte),
    {
        if loc == MEM_LOC_NR30 {
            self.nr30 = byte;
        } else if loc == MEM_LOC_NR31 {
            self.nr31 = byte;
            self.ch3.length = 255 - self.nr31;
        } else if loc == MEM_LOC_NR32 {
            self.nr32 = byte;
        } else if loc == MEM_LOC_NR33 {
            self.nr33 = byte;
        } else {
            self.nr34 = byte;
            self.channel3_update();
        }
    }

    fn write_ch4(&mut self, loc: u16, byte: u8)
        requires
            old(self).wf(),
            MEM_LOC_NR41 <= loc <= MEM_LOC_NR44,
        ensures
            final(self).wf(),
            *final(self) == old(self).after_write_ch4(loc, byte),
    {
        if loc == MEM_LOC_NR41 {
            self.nr41 = byte;
            assert(byte & 0x3Fu8 <= 63u8) by (bit_vector);
            self.ch4.length = 64 - (self.nr41 & 0b11_1111);
        } else if loc == MEM_LOC_NR42 {
            self.nr42 = byte;
        } else if loc == MEM_LOC_NR43 {
            self.nr43 = byte;
        } else {
            self.nr44 = byte;
            self.channel4_update();
        }
    }

    fn write_master(&mut self, loc: u16, byte: u8)
        requires
            MEM_LOC_NR50 <= loc <= MEM_LOC_NR52,
        ensures
            *final(self) == old(self).after_write_master(loc, byte),
    {
        if loc == MEM_LOC_NR50 {
            // NR50: Master volume & VIN panning; the synthesizer reads the volume bits.
            self.nr50 = byte;
            self.master_volume_set = true;
        } else if loc == MEM_LOC_NR51 {
            // NR51: Sound panning
            self.nr51 = byte;
        } else {
            // NR52: Audio master control; the channels' on bits cannot be set by hand.
            self.nr52 = byte & 0xF0;

            if !self.audio_on() {
                self.stop_channels();
            }
        }
    }

    fn stop_channels(&mut self)
        ensures
            *final(self) == (Apu {
                ch1: PulseSound { active: false, ..old(self).ch1 },
                ch2: PulseSound { active: false, ..old(self).ch2 },
                ch3: WaveSound { active: false, ..old(self).ch3 },
                ch4: NoiseSound { active: false, ..old(self).ch4 },
                ..*old(self)
            }),
    {
        self.ch1.active = false;
        self.ch2.active = false;
        self.ch3.active = false;
        self.ch4.active = false;
    }

    pub fn read(&self, loc: u16) -> (r: Result<u8, Error>)
        ensures
            r == self.spec_read(loc),
    {
        if loc == MEM_LOC_NR50 {
            Ok(self.nr50)
        } else if loc == MEM_LOC_NR51 {
            Ok(self.nr51)
        } else if loc == MEM_LOC_NR52 {
            let nr52 = self.nr52;
            let b0 = nr52 & 0xF0;
            let b1 = set_bit(b0, 0, self.ch1.active);
            let b2 = set_bit(b1, 1, self.ch2.active);
            let b3 = set_bit(b2, 2, self.ch3.active);
            let b4 = set_bit(b3, 3, self.ch4.active);
            let v1: u8 = if self.ch1.active { 1 } else { 0 };
            let v2: u8 = if self.ch2.active { 2 } else { 0 };
            let v3: u8 = if self.ch3.active { 4 } else { 0 };
            let v4: u8 = if self.ch4.active { 8 } else { 0 };
            assert(b4 == (b0 | v1 | v2 | v3 | v4)) by (bit_vector)
                requires
                    b0 == nr52 & 0xF0u8,
                    v1 == 0u8 || v1 == 1u8,
                    v2 == 0u8 || v2 == 2u8,
                    v3 == 0u8 || v3 == 4u8,
                    v4 == 0u8 || v4 == 8u8,
                    b1 == (if v1 == 1u8 { b0 | (1u8 << 0u8) } else { b0 & !(1u8 << 0u8) }),
                    b2 == (if v2 == 2u8 { b1 | (1u8 << 1u8) } else { b1 & !(1u8 << 1u8) }),
                    b3 == (if v3 == 4u8 { b2 | (1u8 << 2u8) } else { b2 & !(1u8 << 2u8) }),
                    b4 == (if v4 == 8u8 { b3 | (1u8 << 3u8) } else { b3 & !(1u8 << 3u8) }),
            ;
            Ok(b4)
        } else if MEM_LOC_WAVE_PATTERN_START <= loc && loc <= MEM_LOC_WAVE_PATTERN_END {
            if self.is_ch3_on() {
                Ok(self.wave_pattern_ram[(loc - MEM_LOC_WAVE_PATTERN_START) as usize])
            } else {
                Ok(0xFF)
            }
        } else {
            Err(Error::UnimplementedRead(loc))
        }
    }

    fn audio_on(&self) -> (r: bool)
        ensures
            r == self.spec_audio_on(),
    {
        is_bit(self.nr52, 7)
    }

    fn is_ch3_on(&self) -> (r: bool)
        ensures
            r == self.ch3.active,
    {
        self.ch3.active
    }

    fn channel1_update(&mut self)
        ensures
            *final(self) == (Apu {
                ch1: old(self).ch1.after_control(
                    old(self).can_play(),
                    old(self).nr11,
                    old(self).nr12,
                    old(self).nr13,
                    old(self).nr14,
                    bit_of(old(self).nr51, 4),
                    bit_of(old(self).nr51, 0),
                ),
                ..*old(self)
            }),
    {
        let on = !self.disable_sound && self.audio_on();
        let left = is_bit(self.nr51, 4);
        let right = is_bit(self.nr51, 0);
        self.ch1 = pulse_after_control(self.ch1, on, self.nr11, self.nr12, self.nr13, self.nr14, left, right);
    }

    fn channel2_update(&mut self)
        ensures
            *final(self) == (Apu {
                ch2: old(self).ch2.after_control(
                    old(self).can_play(),
                    old(self).nr21,
                    old(self).nr22,
                    old(self).nr23,
                    old(self).nr24,
                    bit_of(old(self).nr51, 5),
                    bit_of(old(self).nr51, 1),
                ),
                ..*old(self)
            }),
    {
        let on = !self.disable_sound && self.audio_on();
        let left = is_bit(self.nr51, 5);
        let right = is_bit(self.nr51, 1);
        self.ch2 = pulse_after_control(self.ch2, on, self.nr21, self.nr22, self.nr23, self.nr24, left, right);
    }

    fn channel3_update(&mut self)
        ensures
            *final(self) == (Apu { ch3: old(self).ch3_after_control(), ..*old(self) }),
    {
        let length_enable = is_bit(self.nr34, 6);

        if self.disable_sound || !self.audio_on() || !is_bit(self.nr34, 7) {
            self.ch3.length_enable = length_enable;
            return;
        }

        let dac_on = is_bit(self.nr30, 7);
        // The higher the length timer, the shorter the time before the channel is cut.
        let init_length_timer = self.nr31;
        // 00: mute, 01: 100%, 10: 50%, 11: 25% volume.
        let output_level = (self.nr32 >> 5u8) & 0b11;
        let period = period_from(self.nr33, self.nr34);

        self.ch3 = WaveSound {
            active: dac_on,
            length: 0xff - init_length_timer,
            output_level,
            // Not sure if this should always be true - but for now it is. Otherwise this goes on beeping forever.
            length_enable: true,
            wave_pattern: self.wave_pattern_ram,
            period,
            speaker_left: is_bit(self.nr51, 6),
            speaker_right: is_bit(self.nr51, 2),
            triggers: self.ch3.triggers.wrapping_add(1),
        };
    }

    fn channel4_update(&mut self)
        requires
            old(self).ch4.lfsr_counter.modulo >= 8,
        ensures
            final(self).ch4.lfsr_counter.modulo >= 8,
            *final(self) == (Apu { ch4: old(self).ch4_after_control(), ..*old(self) }),
    {
        let length_enable = is_bit(self.nr44, 6);

        if self.disable_sound || !self.audio_on() || !is_bit(self.nr44, 7) {
            self.ch4.length_enable = length_enable;
            return;
        }

        let initial_length_timer = self.nr41 & 0b11_1111;

        let init_volume = self.nr42 >> 4u8;
        let is_envelope_direction_increase = is_bit(self.nr42, 3);

        let clock_shift = (self.nr43 >> 4u8) & 0xF;
        let lfsr_short_mode = is_bit(self.nr43, 3);
        let clock_divider_raw = self.nr43 & 0b111;
        let nr43 = self.nr43;
        assert((nr43 >> 4u8) & 0xFu8 <= 15u8 && nr43 & 7u8 <= 7u8) by (bit_vector);
        let nr41 = self.nr41;
        assert(nr41 & 0x3Fu8 <= 63u8) by (bit_vector);

        let period = noise_period(clock_divider_raw, clock_shift);

        self.ch4 = NoiseSound {
            active: init_volume > 0 || is_envelope_direction_increase,
            length: 64 - initial_length_timer,
            length_enable,
            volume: init_volume,
            is_envelope_dir_inc: is_envelope_direction_increase,
            envelope_sweep_length: envelope_length(self.nr42),
            lfsr_short_mode,
            lfsr: 0,
            lfsr_counter: Counter::new(period),
            speaker_left: is_bit(self.nr51, 7),
            speaker_right: is_bit(self.nr51, 3),
            triggers: self.ch4.triggers.wrapping_add(1),
        };
    }
}

/// The 11 bit period of a channel.
fn period_from(lo: u8, hi: u8) -> (r: u16)
    ensures
        r == period_of(lo, hi),
{
    let period_hi = (hi & 0b111) as u16;
    let period_lo = lo as u16;
    assert(hi & 7u8 <= 7u8) by (bit_vector);
    assert(((period_hi << 8u16) | period_lo) == period_hi * 256 + period_lo) by (bit_vector)
        requires
            period_hi <= 7,
            period_lo <= 255,
    ;
    (period_hi << 8u16) | period_lo
}

/// Samples between two envelope steps.
fn envelope_length(envelope: u8) -> (r: u32)
    ensures
        r == envelope_samples(envelope),
{
    let sweep_pace = envelope & 0b111;
    assert(envelope & 7u8 <= 7u8) by (bit_vector);
    (44_100 * sweep_pace as u32) / 64
}

/// Cycles between two LFSR shifts.
fn noise_period(divider_code: u8, shift: u8) -> (r: u64)
    requires
        divider_code <= 7,
        shift <= 15,
    ensures
        r == lfsr_period(divider_code, shift),
        r >= 8,
{
    let mut p: u64 = 1;
    let mut i: u8 = 0;
    proof {
        vstd::arithmetic::power2::lemma2_to64();
    }
    while i < shift
        invariant
            i <= shift <= 15,
            p == vstd::arithmetic::power2::pow2(i as nat),
            p <= 32768,
        decreases shift - i,
    {
        proof {
            vstd::arithmetic::power2::lemma_pow2_unfold((i + 1) as nat);
            vstd::arithmetic::power2::lemma2_to64();
            if i + 1 < 15 {
                vstd::arithmetic::power2::lemma_pow2_strictly_increases((i + 1) as nat, 15);
            }
        }
        p = p * 2;
        i += 1;
    }
    proof {
        vstd::arithmetic::power2::lemma_pow2_pos(shift as nat);
    }
    let d = divider_code as u64;
    assert(1 <= p <= 32768);
    assert(d <= 7 ==> 16 * d * p <= 16 * 7 * 32768) by (nonlinear_arith)
        requires
            p <= 32768,
    ;
    assert(d >= 1 ==> 16 * d * p >= 16) by (nonlinear_arith)
        requires
            p >= 1,
    ;
    if divider_code == 0 {
        8 * p
    } else if divider_code == 7 {
        16 * d * p - 1
    } else {
        16 * d * p
    }
}

/// A pulse channel after a write to its control register.
fn pulse_after_control(
    ch: PulseSound,
    on: bool,
    len_duty: u8,
    envelope: u8,
    period_lo: u8,
    ctrl: u8,
    left: bool,
    right: bool,
) -> (r: PulseSound)
    ensures
        r == ch.after_control(on, len_duty, envelope, period_lo, ctrl, left, right),
{
    let length_enable = is_bit(ctrl, 6);

    if !on || !is_bit(ctrl, 7) {
        return PulseSound { length_enable, ..ch };
    }

    // 00: 12.5%, 01: 25%, 10: 50%, 11: 75%.
    let wave_duty = len_duty >> 6u8;
    // When the length timer reaches 64, the channel is turned off.
    let init_length_timer = len_duty & 0b11_1111;

    let init_volume = envelope >> 4u8;
    let is_envelope_direction_increase = is_bit(envelope, 3);

    PulseSound {
        active: init_volume > 0 || is_envelope_direction_increase,
        period: period_from(period_lo, ctrl),
        volume: init_volume,
        envelope_sweep_length: envelope_length(envelope),
        envelope_direction_down: !is_envelope_direction_increase,
        wave_duty,
        length_enable,
        length: init_length_timer,
        speaker_left: left,
        speaker_right: right,
        triggers: ch.triggers.wrapping_add(1),
    }
}

} // verus!
