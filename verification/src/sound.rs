use vstd::prelude::*;

use crate::conf::{
    MEM_LOC_NR10, MEM_LOC_NR11, MEM_LOC_NR12, MEM_LOC_NR13, MEM_LOC_NR14, MEM_LOC_NR21,
    MEM_LOC_NR22, MEM_LOC_NR23, MEM_LOC_NR24, MEM_LOC_NR30, MEM_LOC_NR31, MEM_LOC_NR32,
    MEM_LOC_NR33, MEM_LOC_NR34, MEM_LOC_NR41, MEM_LOC_NR42, MEM_LOC_NR43, MEM_LOC_NR44,
    MEM_LOC_NR50, MEM_LOC_NR51, MEM_LOC_NR52,
};
use crate::ppu::bit_of;
use crate::bits::{lemma_u8, lemma_word_of};
use crate::util::is_bit;

verus! {

/// What channel 1 is to play, as its registers describe it when it is triggered.
#[derive(Clone, Copy, PartialEq, Eq, Structural, Debug)]
pub struct SoundPacket {
    /// The tone is CPU_HZ / 32 / (2048 - period) Hz.
    pub period: u16,
    /// Starting volume, in fifteenths.
    pub volume: u8,
    /// Samples, at 44100 Hz, between two envelope steps; 0 keeps the volume.
    pub envelope_sweep_length: usize,
    pub envelope_direction_down: bool,
    /// Duty cycle: 0 to 3 for 12.5, 25, 50 and 75 %.
    pub wave_duty: u8,
    /// Set when the packet is new: the synthesizer then starts its envelope again.
    pub restart: bool,
}

/// The sound registers of the first sound chip, and the packet that channel 1 last got.
pub struct Sound {
    pub nr10: u8,
    pub nr11: u8,
    pub nr12: u8,
    pub nr13: u8,
    pub nr14: u8,
    pub nr21: u8,
    pub nr22: u8,
    pub nr23: u8,
    pub nr24: u8,
    pub nr30: u8,
    pub nr31: u8,
    pub nr32: u8,
    pub nr33: u8,
    pub nr34: u8,
    pub nr41: u8,
    pub nr42: u8,
    pub nr43: u8,
    pub nr44: u8,
    pub nr50: u8,
    pub nr51: u8,
    pub nr52: u8,
    pub channel_1_out: Option<SoundPacket>,
}

/// The registers the chip takes a write at: NR10 to NR52 but FF15 and FF1F (there is no
/// register there); NR52 takes no channel flags (its low four bits).
pub open spec fn sound_write_defined(loc: u16, byte: u8) -> bool {
    &&& MEM_LOC_NR10 <= loc <= MEM_LOC_NR52
    &&& loc != 0xFF15
    &&& loc != 0xFF1F
    &&& (loc == MEM_LOC_NR52 ==> byte & 0b1111 == 0)
}

/// The packet that triggering channel 1 sends.
pub open spec fn channel1_packet(nr11: u8, nr12: u8, nr13: u8, nr14: u8) -> SoundPacket {
    SoundPacket {
        period: ((nr14 & 0b111) * 256 + nr13) as u16,
        volume: nr12 >> 4u8,
        envelope_sweep_length: ((44100 * (nr12 & 0b111)) / 64) as usize,
        envelope_direction_down: !bit_of(nr12, 3),
        wave_duty: nr11 >> 6u8,
        restart: true,
    }
}

impl Sound {
    pub fn new() -> (r: Sound)
        ensures
            r.nr10 == 0 && r.nr11 == 0 && r.nr12 == 0 && r.nr13 == 0 && r.nr14 == 0,
            r.nr21 == 0 && r.nr22 == 0 && r.nr23 == 0 && r.nr24 == 0,
            r.nr30 == 0 && r.nr31 == 0 && r.nr32 == 0 && r.nr33 == 0 && r.nr34 == 0,
            r.nr41 == 0 && r.nr42 == 0 && r.nr43 == 0 && r.nr44 == 0,
            r.nr50 == 0 && r.nr51 == 0 && r.nr52 == 0,
            r.channel_1_out is None,
    {
        Sound {
            nr10: 0,
            nr11: 0,
            nr12: 0,
            nr13: 0,
            nr14: 0,
            nr21: 0,
            nr22: 0,
            nr23: 0,
            nr24: 0,
            nr30: 0,
            nr31: 0,
            nr32: 0,
            nr33: 0,
            nr34: 0,
            nr41: 0,
            nr42: 0,
            nr43: 0,
            nr44: 0,
            nr50: 0,
            nr51: 0,
            nr52: 0,
            channel_1_out: None,
        }
    }

    /// Stores a register. A write to NR14 with bit 7 set triggers channel 1: its packet is
    /// replaced. Channel 2 is not played.
    pub fn write(&mut self, loc: u16, byte: u8)
        requires
            sound_write_defined(loc, byte),
        ensures
            final(self).nr10 == (if loc == MEM_LOC_NR10 { byte } else { old(self).nr10 }),
            final(self).nr11 == (if loc == MEM_LOC_NR11 { byte } else { old(self).nr11 }),
            final(self).nr12 == (if loc == MEM_LOC_NR12 { byte } else { old(self).nr12 }),
            final(self).nr13 == (if loc == MEM_LOC_NR13 { byte } else { old(self).nr13 }),
            final(self).nr14 == (if loc == MEM_LOC_NR14 { byte } else { old(self).nr14 }),
            final(self).nr21 == (if loc == MEM_LOC_NR21 { byte } else { old(self).nr21 }),
            final(self).nr22 == (if loc == MEM_LOC_NR22 { byte } else { old(self).nr22 }),
            final(self).nr23 == (if loc == MEM_LOC_NR23 { byte } else { old(self).nr23 }),
            final(self).nr24 == (if loc == MEM_LOC_NR24 { byte } else { old(self).nr24 }),
            final(self).nr30 == (if loc == MEM_LOC_NR30 { byte } else { old(self).nr30 }),
            final(self).nr31 == (if loc == MEM_LOC_NR31 { byte } else { old(self).nr31 }),
            final(self).nr32 == (if loc == MEM_LOC_NR32 { byte } else { old(self).nr32 }),
            final(self).nr33 == (if loc == MEM_LOC_NR33 { byte } else { old(self).nr33 }),
            final(self).nr34 == (if loc == MEM_LOC_NR34 { byte } else { old(self).nr34 }),
            final(self).nr41 == (if loc == MEM_LOC_NR41 { byte } else { old(self).nr41 }),
            final(self).nr42 == (if loc == MEM_LOC_NR42 { byte } else { old(self).nr42 }),
            final(self).nr43 == (if loc == MEM_LOC_NR43 { byte } else { old(self).nr43 }),
            final(self).nr44 == (if loc == MEM_LOC_NR44 { byte } else { old(self).nr44 }),
            final(self).nr50 == (if loc == MEM_LOC_NR50 { byte } else { old(self).nr50 }),
            final(self).nr51 == (if loc == MEM_LOC_NR51 { byte } else { old(self).nr51 }),
            final(self).nr52 == (if loc == MEM_LOC_NR52 { byte } else { old(self).nr52 }),
            final(self).channel_1_out == (if loc == MEM_LOC_NR14 && bit_of(byte, 7) {
                Some(
                    channel1_packet(old(self).nr11, old(self).nr12, old(self).nr13, byte),
                )
            } else {
                old(self).channel_1_out
            }),
    {
        if loc == MEM_LOC_NR10 {
            self.nr10 = byte;
        } else if loc == MEM_LOC_NR11 {
            // NR11: Channel 1 length timer & duty cycle.
            self.nr11 = byte;
        } else if loc == MEM_LOC_NR12 {
            // NR12: Channel 1 volume & envelope.
            self.nr12 = byte;
        } else if loc == MEM_LOC_NR13 {
            // NR13: Channel 1 period low [write-only].
            self.nr13 = byte;
        } else if loc == MEM_LOC_NR14 {
            // NR14: Channel 1 period high & control.
            self.nr14 = byte;
            self.channel1_update();
        } else if loc == MEM_LOC_NR21 {
            self.nr21 = byte;
        } else if loc == MEM_LOC_NR22 {
            self.nr22 = byte;
        } else if loc == MEM_LOC_NR23 {
            self.nr23 = byte;
        } else if loc == MEM_LOC_NR24 {
            self.nr24 = byte;
        } else if loc == MEM_LOC_NR30 {
            self.nr30 = byte;
        } else if loc == MEM_LOC_NR31 {
            self.nr31 = byte;
        } else if loc == MEM_LOC_NR32 {
            self.nr32 = byte;
        } else if loc == MEM_LOC_NR33 {
            self.nr33 = byte;
        } else if loc == MEM_LOC_NR34 {
            self.nr34 = byte;
        } else if loc == MEM_LOC_NR41 {
            self.nr41 = byte;
        } else if loc == MEM_LOC_NR42 {
            self.nr42 = byte;
        } else if loc == MEM_LOC_NR43 {
            self.nr43 = byte;
        } else if loc == MEM_LOC_NR44 {
            self.nr44 = byte;
        } else if loc == MEM_LOC_NR50 {
            // NR50: Master volume & VIN panning.
            self.nr50 = byte;
        } else if loc == MEM_LOC_NR51 {
            // NR51: Sound panning.
            self.nr51 = byte;
        } else {
            // NR52: Audio master control; the channel flags cannot be set by hand.
            self.nr52 = byte;
        }
    }

    /// Sends channel 1 its packet when NR14 triggers it.
    fn channel1_update(&mut self)
        ensures
            final(self).channel_1_out == (if bit_of(old(self).nr14, 7) {
                Some(channel1_packet(old(self).nr11, old(self).nr12, old(self).nr13, old(self).nr14))
            } else {
                old(self).channel_1_out
            }),
            final(self).nr10 == old(self).nr10 && final(self).nr11 == old(self).nr11,
            final(self).nr12 == old(self).nr12 && final(self).nr13 == old(self).nr13,
            final(self).nr14 == old(self).nr14 && final(self).nr21 == old(self).nr21,
            final(self).nr22 == old(self).nr22 && final(self).nr23 == old(self).nr23,
            final(self).nr24 == old(self).nr24 && final(self).nr30 == old(self).nr30,
            final(self).nr31 == old(self).nr31 && final(self).nr32 == old(self).nr32,
            final(self).nr33 == old(self).nr33 && final(self).nr34 == old(self).nr34,
            final(self).nr41 == old(self).nr41 && final(self).nr42 == old(self).nr42,
            final(self).nr43 == old(self).nr43 && final(self).nr44 == old(self).nr44,
            final(self).nr50 == old(self).nr50 && final(self).nr51 == old(self).nr51,
            final(self).nr52 == old(self).nr52,
    {
        // Triggers channel.
        if !is_bit(self.nr14, 7) {
            return;
        }
        // 00: 12.5%, 01: 25%, 10: 50%, 11: 75%.
        let wave_duty = self.nr11 >> 6u8;
        let init_volume = self.nr12 >> 4u8;
        let is_envelope_direction_increase = is_bit(self.nr12, 3);
        let sweep_pace = self.nr12 & 0b111;
        proof {
            lemma_u8(self.nr12);
            lemma_u8(self.nr14);
            lemma_word_of(self.nr13, self.nr14 & 0b111);
        }
        let period_hi = (self.nr14 & 0b111) as u16;
        let period_lo = self.nr13 as u16;
        let period = (period_hi << 8u16) | period_lo;
        let out_envelope_sweep_length = (44_100 * sweep_pace as usize) / 64;
        self.channel_1_out = Some(
            SoundPacket {
                period,
                volume: init_volume,
                envelope_sweep_length: out_envelope_sweep_length,
                envelope_direction_down: !is_envelope_direction_increase,
                wave_duty,
                restart: true,
            },
        );
    }

    /// Whether sound is on (NR52 bit 7).
    pub fn audio_on(&self) -> (r: bool)
        ensures
            r == bit_of(self.nr52, 7),
    {
        is_bit(self.nr52, 7)
    }

    /// Hands over the latest packet of channel 1, once: a new packet starts its envelope again,
    /// and the same packet keeps playing afterwards.
    pub fn take_channel1_packet(&mut self) -> (r: Option<SoundPacket>)
        ensures
            r == old(self).channel_1_out,
            final(self).channel_1_out == (match old(self).channel_1_out {
                Some(p) => Some(SoundPacket { restart: false, ..p }),
                None => None,
            }),
            final(self).nr52 == old(self).nr52 && final(self).nr14 == old(self).nr14,
    {
        let r = self.channel_1_out;
        if let Some(p) = r {
            self.channel_1_out = Some(SoundPacket { restart: false, ..p });
        }
        r
    }
}

} // verus!
