use lameboy::apu::Apu;
use lameboy::sound::{Sound, SoundPacket};

#[test]
fn channel_1_trigger_sends_its_packet() {
    let mut s = Sound::new();
    s.write(0xFF11, 0b1000_0011);
    s.write(0xFF12, 0xF3);
    s.write(0xFF13, 0x34);
    assert_eq!(s.channel_1_out, None);
    // Without bit 7, NR14 only stores.
    s.write(0xFF14, 0x01);
    assert_eq!(s.channel_1_out, None);
    s.write(0xFF14, 0x81);
    let p = SoundPacket {
        period: 0x134,
        volume: 15,
        envelope_sweep_length: 44100 * 3 / 64,
        envelope_direction_down: true,
        wave_duty: 2,
        restart: true,
    };
    assert_eq!(s.channel_1_out, Some(p));
    assert_eq!(s.take_channel1_packet(), Some(p));
    assert_eq!(s.take_channel1_packet(), Some(SoundPacket { restart: false, ..p }));
    s.write(0xFF26, 0x80);
    assert!(s.audio_on());
    assert_eq!(s.nr14, 0x81);
}

#[test]
fn apu_triggers_channel_1() {
    let mut a = Apu::new(false);
    a.write(0xFF26, 0x80);
    a.write(0xFF25, 0x11);
    a.write(0xFF11, 0b1000_0011);
    a.write(0xFF12, 0xF3);
    a.write(0xFF13, 0x34);
    a.write(0xFF14, 0x81);
    assert!(a.ch1.active);
    assert_eq!(a.ch1.period, 0x134);
    assert_eq!(a.ch1.volume, 15);
    assert_eq!(a.ch1.envelope_sweep_length, 44100 * 3 / 64);
    assert!(a.ch1.envelope_direction_down);
    assert_eq!(a.ch1.wave_duty, 2);
    assert_eq!(a.ch1.length, 3);
    assert_eq!(a.ch1.triggers, 1);
    assert!(a.ch1.speaker_left && a.ch1.speaker_right);
    assert_eq!(a.read(0xFF26), Ok(0x81));
    // Turning the sound off stops every channel.
    a.write(0xFF26, 0x00);
    assert!(!a.ch1.active);
    assert_eq!(a.read(0xFF26), Ok(0x00));
}

#[test]
fn apu_wave_ram_and_disabled_sound() {
    let mut a = Apu::new(true);
    a.write(0xFF30, 0xAB);
    assert_eq!(a.wave_pattern_ram[0], 0xAB);
    // Channel 3 is off: the wave RAM reads 0xFF.
    assert_eq!(a.read(0xFF30), Ok(0xFF));
    a.write(0xFF26, 0x80);
    a.write(0xFF12, 0xF0);
    a.write(0xFF14, 0x80);
    // With sound disabled, nothing starts.
    assert!(!a.ch1.active);
    a.write(0xFF24, 0x77);
    assert_eq!(a.read(0xFF24), Ok(0x77));
    assert!(a.is_update_defined(4));
    a.update(4);
}

#[test]
fn noise_shift_period() {
    let mut a = Apu::new(false);
    a.write(0xFF26, 0x80);
    a.write(0xFF21, 0xF0);
    // Shift 0, divider 7.
    a.write(0xFF22, 0x07);
    a.write(0xFF23, 0x80);
    assert!(a.ch4.active);
    assert_eq!(a.ch4.lfsr_counter.modulo, 111);
    // Shift 1, divider code 0 (a half).
    a.write(0xFF22, 0x10);
    a.write(0xFF23, 0x80);
    assert_eq!(a.ch4.lfsr_counter.modulo, 16);
    assert_eq!(a.ch4.triggers, 2);
    // Shift 2, divider 3.
    a.write(0xFF22, 0x23);
    a.write(0xFF23, 0x80);
    assert_eq!(a.ch4.lfsr_counter.modulo, 16 * 3 * 4);
    assert_eq!(a.ch4.lfsr, 0);
    // 16 * 3 * 4 cycles shift the LFSR once: bit 14 takes the XNOR of bits 0 and 1.
    a.update(16 * 3 * 4);
    assert_eq!(a.ch4.lfsr, 1 << 14);
}
