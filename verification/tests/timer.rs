use lameboy::joypad::{Joypad, JoypadInputRequest};
use lameboy::timer::Timer;

#[test]
fn div_counts_every_256_cycles() {
    let mut t = Timer::new();
    assert_eq!(t.tac(), 0b1111_1000);
    assert_eq!(t.handle_ticks(255, 0), Ok(false));
    assert_eq!(t.div(), 0);
    assert_eq!(t.handle_ticks(1, 0), Ok(false));
    assert_eq!(t.div(), 1);
    t.set_div();
    assert_eq!(t.div(), 0);
}

#[test]
fn tima_counts_and_reloads() {
    let mut t = Timer::new();
    // Enabled, 16 cycles per step.
    t.set_tac(0b101);
    assert_eq!(t.tac(), 0b1111_1101);
    t.set_tma(0x80);
    t.set_tima(0xFE);
    assert_eq!(t.handle_ticks(16, 0x80), Ok(false));
    assert_eq!(t.tima(), 0xFF);
    assert_eq!(t.handle_ticks(16, 0x80), Ok(true));
    assert_eq!(t.tima(), 0x80);
    assert_eq!(t.tma(), 0x80);
    assert!(t.is_ticks_ok(16));
    assert!(!t.is_ticks_ok(16 * 256));
}

#[test]
fn joypad_reports_held_buttons() {
    let mut b = JoypadInputRequest::new();
    b.right = true;
    b.start = true;
    let mut j = Joypad::new(b);
    assert_eq!(j.get_p1(), 0x3F);
    j.set_p1_button_selector(0x20).unwrap();
    assert_eq!(j.get_p1(), 0xEF - 1);
    j.set_p1_button_selector(0x10).unwrap();
    assert_eq!(j.get_p1(), 0xDF - 8);
    let mut c = JoypadInputRequest::new();
    c.a = true;
    j.set_buttons(c);
    assert_eq!(j.get_p1(), 0xDF - 1);
    assert!(!j.consume_interrupt());
}
