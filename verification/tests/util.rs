use lameboy::util::{
    apply_palette, bit, is_bit, is_carry_add_u16, is_carry_add_u8, is_carry_rot_left_u8,
    is_carry_rot_right_u8, is_carry_shift_left_u8, is_carry_shift_right_u8, is_carry_sub_u8,
    is_carry_sub_with_carry_u8, is_half_carry_add_u16, is_half_carry_add_u8,
    is_half_carry_sub_u8, is_half_carry_sub_with_carry_u8, pixel_rgb8888_color, set_bit,
    set_bit_16, shift_left_a, shift_right_arithmetic_u8, shift_right_logical, swap,
    wrapping_add_u16_i8, Counter, SizedQueue, Stats,
};

#[test]
fn test_is_carry_rot_left_u8() {
    assert!(is_carry_rot_left_u8(0b1100_0000));
    assert!(!is_carry_rot_left_u8(0b0100_0000));
    assert!(is_carry_rot_right_u8(0b0100_0001));
    assert!(!is_carry_rot_right_u8(0b0100_0010));
}

#[test]
fn test_swap() {
    assert_eq!(0b0110_1001, swap(0b1001_0110));
}

#[test]
fn test_is_bit() {
    assert!(is_bit(0b0000_1000, 3));
    assert!(!is_bit(0b0000_1000, 4));
    assert!(!is_bit(0b0000_1000, 2));
}

#[test]
fn swap_twice_gives_the_byte_back() {
    for b in 0..=255u8 {
        assert_eq!(swap(swap(b)), b);
    }
    assert_eq!(swap(0xA5), 0x5A);
}

#[test]
fn set_bit_reads_back() {
    assert_eq!(set_bit(0, 3, true), 0b1000);
    assert_eq!(set_bit(0xFF, 0, false), 0xFE);
    assert_eq!(set_bit(0b1000, 3, true), 0b1000);
    for b in [0u8, 0x5A, 0xFF] {
        for n in 0..8u8 {
            for on in [false, true] {
                let r = set_bit(b, n, on);
                assert_eq!(is_bit(r, n), on);
                for m in 0..8u8 {
                    if m != n {
                        assert_eq!(bit(r, m), bit(b, m));
                    }
                }
            }
        }
    }
    assert_eq!(set_bit_16(0x00FF, 15, true), 0x80FF);
    assert_eq!(set_bit_16(0xFFFF, 8, false), 0xFEFF);
}

#[test]
fn carries_and_half_carries() {
    assert!(is_carry_add_u8(0xFF, 1));
    assert!(!is_carry_add_u8(0xFE, 1));
    assert!(is_carry_add_u16(0xFFFF, 1));
    assert!(!is_carry_add_u16(0x1234, 0x1234));
    assert!(is_carry_sub_u8(1, 2));
    assert!(!is_carry_sub_u8(2, 2));
    assert!(is_carry_sub_with_carry_u8(2, 2, 1));
    assert!(!is_carry_sub_with_carry_u8(3, 2, 1));
    assert!(is_carry_shift_left_u8(0x80));
    assert!(is_carry_shift_right_u8(0x01));
    assert!(is_half_carry_add_u8(0x0F, 0x01));
    assert!(!is_half_carry_add_u8(0x0E, 0x01));
    assert!(is_half_carry_add_u16(0x0FFF, 0x0001));
    assert!(!is_half_carry_add_u16(0x0FFE, 0x0001));
    assert!(is_half_carry_sub_u8(0x10, 0x01));
    assert!(!is_half_carry_sub_u8(0x11, 0x01));
    assert!(is_half_carry_sub_with_carry_u8(0x11, 0x01, 1));
    assert!(!is_half_carry_sub_with_carry_u8(0x12, 0x01, 1));
}

#[test]
fn shifts_and_offsets() {
    assert_eq!(shift_left_a(0b1100_0001), 0b1000_0010);
    assert_eq!(shift_right_logical(0b1000_0011), 0b0100_0001);
    assert_eq!(shift_right_arithmetic_u8(0b1000_0011), 0b1100_0001);
    assert_eq!(wrapping_add_u16_i8(0x1000, -1), 0x0FFF);
    assert_eq!(wrapping_add_u16_i8(0xFFFF, 1), 0x0000);
    assert_eq!(wrapping_add_u16_i8(0x0000, -2), 0xFFFE);
    assert_eq!(wrapping_add_u16_i8(0x1000, 127), 0x107F);
}

#[test]
fn palette_colors() {
    // 0b11_10_01_00: shade 3 for color 3 ... shade 0 for color 0.
    assert_eq!(apply_palette(0, 0b1110_0100), 0);
    assert_eq!(apply_palette(3, 0b1110_0100), 3);
    assert_eq!(apply_palette(1, 0b0000_1100), 3);
    assert_eq!(pixel_rgb8888_color(0), [0xe0, 0xf8, 0xd0, 0xff]);
    assert_eq!(pixel_rgb8888_color(3), [0x08, 0x18, 0x20, 0xff]);
    for c1 in 0..4u8 {
        for c2 in 0..4u8 {
            if c1 != c2 {
                for k in 0..3 {
                    assert_ne!(pixel_rgb8888_color(c1)[k], pixel_rgb8888_color(c2)[k]);
                }
            }
        }
    }
}

#[test]
fn sized_queue_keeps_the_latest() {
    let mut q: SizedQueue<u8> = SizedQueue::new(3);
    for i in 0..5u8 {
        q.push(i);
    }
    let v: Vec<u8> = q.inner().iter().copied().collect();
    assert_eq!(v, vec![2, 3, 4]);
}

#[test]
fn counter_overflows_at_its_modulo() {
    let mut c = Counter::new(10);
    assert!(!c.tick_and_check_overflow(9));
    assert_eq!(c.counter, 9);
    assert!(c.tick_and_check_overflow(3));
    assert_eq!(c.counter, 2);
    c.tick(35);
    assert_eq!(c.check_overflow_count(), 3);
    assert_eq!(c.counter, 7);
    c.update_modulo(4);
    assert!(c.check_overflow());
    assert_eq!(c.counter, 3);
    c.reset();
    assert_eq!(c.counter, 0);
}

#[test]
fn stats_average_and_p90() {
    let mut s = Stats::new(10, 3);
    for v in [5, -3, 10, 2] {
        s.push(v);
    }
    // (5 - 3 + 10 + 2) / 4, rounded towards zero.
    assert_eq!(s.avg(), 3);
    assert_eq!(s.dump_to_stdout_at_freq(), None);
    assert_eq!(s.dump_to_stdout_at_freq(), None);
    let r = s.dump_to_stdout_at_freq();
    assert!(r.is_some());
    assert_eq!(r.unwrap().0, 3);

    let mut s = Stats::new(20, 1);
    for v in 1..=10 {
        s.push(11 - v);
    }
    // The samples 1..=10 sorted: the one at 90% of 10 is at index 9.
    assert_eq!(s.p90_of_front(10), 10);
    let mut s = Stats::new(20, 1);
    s.push(4);
    assert_eq!(s.p90_of_front(0), 0);
}

#[test]
fn p90_of_samples_in_one_piece() {
    let mut s = Stats::new(20, 1);
    for v in [7, 3, 9, 1, 5, 10, 2, 8, 4, 6] {
        s.push(v);
    }
    // A deque filled from empty holds its samples in its first slice.
    assert_eq!(s.p90(), 10);
}
