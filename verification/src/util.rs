use std::collections::VecDeque;

use vstd::prelude::*;

use crate::bits::{lemma_u16, lemma_u16_bit, lemma_u8, lemma_u8_bit};
use crate::conf::PALETTE;

verus! {

/// Whether `acc + add` overflows a byte.
pub fn is_carry_add_u8(acc: u8, add: u8) -> (r: bool)
    ensures
        r == (acc + add > 255),
{
    (u8::MAX - acc) < add
}

/// Whether `acc + add` overflows a word.
pub fn is_carry_add_u16(acc: u16, add: u16) -> (r: bool)
    ensures
        r == (acc + add > 65535),
{
    (u16::MAX - acc) < add
}

/// Whether `acc - sub` borrows.
pub fn is_carry_sub_u8(acc: u8, sub: u8) -> (r: bool)
    ensures
        r == (acc < sub),
{
    acc < sub
}

/// Whether `acc - sub - carry` borrows.
pub fn is_carry_sub_with_carry_u8(acc: u8, sub: u8, carry: u8) -> (r: bool)
    ensures
        r == (acc < sub + carry),
{
    (acc as u16) < sub as u16 + carry as u16
}

/// Whether a left rotation moves a set bit out (bit 7).
pub fn is_carry_rot_left_u8(acc: u8) -> (r: bool)
    ensures
        r == (acc >= 128),
{
    let r = is_bit(acc, 7);
    proof {
        lemma_u8(acc);
    }
    r
}

/// Whether a right rotation moves a set bit out (bit 0).
pub fn is_carry_rot_right_u8(acc: u8) -> (r: bool)
    ensures
        r == (acc % 2 == 1),
{
    let r = is_bit(acc, 0);
    proof {
        lemma_u8(acc);
    }
    r
}

/// Whether a left shift moves a set bit out (bit 7).
pub fn is_carry_shift_left_u8(acc: u8) -> (r: bool)
    ensures
        r == (acc >= 128),
{
    is_carry_rot_left_u8(acc)
}

/// Whether a right shift moves a set bit out (bit 0).
pub fn is_carry_shift_right_u8(acc: u8) -> (r: bool)
    ensures
        r == (acc % 2 == 1),
{
    is_carry_rot_right_u8(acc)
}

/// Whether the low nibbles of `acc + n` carry into bit 4.
pub fn is_half_carry_add_u8(acc: u8, n: u8) -> (r: bool)
    ensures
        r == (acc % 16 + n % 16 >= 16),
{
    proof {
        lemma_u8(acc);
        lemma_u8(n);
    }
    let s: u8 = (acc & 0xF) + (n & 0xF);
    proof {
        lemma_u8(s);
    }
    s & 0x10 == 0x10
}

/// Whether the low 12 bits of `acc + n` carry into bit 12.
pub fn is_half_carry_add_u16(acc: u16, n: u16) -> (r: bool)
    ensures
        r == (acc % 4096 + n % 4096 >= 4096),
{
    proof {
        lemma_u16(acc);
        lemma_u16(n);
    }
    let s: u16 = (acc & 0xFFF) + (n & 0xFFF);
    proof {
        lemma_u16(s);
    }
    s & 0x1000 == 0x1000
}

/// Whether the low nibble of `acc - sub` borrows.
pub fn is_half_carry_sub_u8(acc: u8, sub: u8) -> (r: bool)
    ensures
        r == (acc % 16 < sub % 16),
{
    proof {
        lemma_u8(acc);
        lemma_u8(sub);
    }
    (acc & 0x0F) < (sub & 0x0F)
}

/// Whether the low nibble of `acc - sub - carry` borrows.
pub fn is_half_carry_sub_with_carry_u8(acc: u8, sub: u8, carry: u8) -> (r: bool)
    requires
        sub % 16 + carry <= 255,
    ensures
        r == (acc % 16 < sub % 16 + carry),
{
    proof {
        lemma_u8(acc);
        lemma_u8(sub);
    }
    (acc & 0x0F) < (sub & 0x0F) + carry
}

/// Shift left by one, dropping bit 7.
pub fn shift_left_a(byte: u8) -> (r: u8)
    ensures
        r == (byte * 2) % 256,
{
    proof {
        lemma_u8(byte);
    }
    byte << 1u8
}

/// Logical shift right by one.
pub fn shift_right_logical(byte: u8) -> (r: u8)
    ensures
        r == byte / 2,
{
    proof {
        lemma_u8(byte);
    }
    byte >> 1u8
}

/// Adds a signed offset to a word, wrapping around.
pub fn wrapping_add_u16_i8(lhs: u16, rhs: i8) -> (r: u16)
    requires
        rhs != i8::MIN,
    ensures
        r as int == (lhs + rhs) % 65536,
{
    if rhs >= 0 {
        lhs.wrapping_add(rhs as u16)
    } else {
        let neg: i8 = -rhs;
        lhs.wrapping_sub(neg as u16)
    }
}

/// Arithmetic shift right by one: bit 7 stays.
pub fn shift_right_arithmetic_u8(byte: u8) -> (r: u8)
    ensures
        r == byte / 2 + (if byte >= 128 { 128int } else { 0int }),
{
    proof {
        lemma_u8(byte);
    }
    (byte >> 1u8) | (byte & 0b1000_0000u8)
}

/// `byte` with its two nibbles exchanged.
pub open spec fn swapped(byte: u8) -> u8 {
    ((byte % 16) * 16 + byte / 16) as u8
}

/// `byte` with bit `n` set to `on`.
pub open spec fn with_bit(byte: u8, n: u8, on: bool) -> u8 {
    if on {
        byte | (1u8 << n)
    } else {
        byte & !(1u8 << n)
    }
}

/// Swaps the two nibbles of a byte.
pub fn swap(byte: u8) -> (r: u8)
    ensures
        r == swapped(byte),
        r == (byte % 16) * 16 + byte / 16,
{
    proof {
        lemma_u8(byte);
    }
    (byte << 4u8) | (byte >> 4u8)
}

/// Bit `n` of `byte`, as 0 or 1.
pub fn bit(byte: u8, n: u8) -> (r: u8)
    requires
        n < 8,
    ensures
        r == (byte >> n) & 1,
        r <= 1,
{
    proof {
        lemma_u8_bit(byte, n);
    }
    (byte >> n) & 0b1u8
}

/// Whether bit `n` of `byte` is set.
pub fn is_bit(byte: u8, n: u8) -> (r: bool)
    requires
        n < 8,
    ensures
        r == ((byte >> n) & 1 == 1),
{
    let b = bit(byte, n);
    b > 0
}

/// `byte` with bit `n` set to `is_on`.
pub fn set_bit(byte: u8, n: u8, is_on: bool) -> (r: u8)
    requires
        n < 8,
    ensures
        r == with_bit(byte, n, is_on),
{
    let mut byte = byte;
    let ghost orig = byte;
    byte = byte & !(1u8 << n);
    if is_on {
        byte = byte | (1u8 << n);
        proof {
            lemma_u8_bit(orig, n);
        }
    }
    byte
}

/// `word` with bit `n` set to `is_on`.
pub fn set_bit_16(word: u16, n: u8, is_on: bool) -> (r: u16)
    requires
        n < 16,
    ensures
        r == (if is_on { word | (1u16 << n) } else { word & !(1u16 << n) }),
{
    let mut word = word;
    let ghost orig = word;
    word = word & !(1u16 << n);
    if is_on {
        word = word | (1u16 << n);
        proof {
            lemma_u16_bit(orig, n);
        }
    }
    word
}

/// Swapping the nibbles twice gives the byte back.
pub proof fn lemma_swap_twice(byte: u8)
    ensures
        swapped(swapped(byte)) == byte,
{
}

/// After bit `n` is set to `on`, bit `n` reads `on` and every other bit reads as before.
pub proof fn lemma_set_bit_then_is_bit(byte: u8, n: u8, on: bool, m: u8)
    requires
        n < 8,
        m < 8,
    ensures
        ((with_bit(byte, n, on) >> n) & 1 == 1) == on,
        m != n ==> (with_bit(byte, n, on) >> m) & 1 == (byte >> m) & 1,
{
    assert((((if on { byte | (1u8 << n) } else { byte & !(1u8 << n) }) >> n) & 1 == 1) == on
        && (m != n ==> ((if on { byte | (1u8 << n) } else { byte & !(1u8 << n) }) >> m) & 1 == (
    byte >> m) & 1)) by (bit_vector)
        requires
            n < 8,
            m < 8,
    ;
}

/// Applies a GameBoy palette to a 2 bit raw color value.
pub fn apply_palette(raw_color: u8, palette: u8) -> (r: u8)
    requires
        raw_color <= 0b11,
    ensures
        r == (palette >> (raw_color * 2)) & 0b11,
        r <= 3,
{
    let shift: u8 = raw_color * 2;
    assert(shift < 8 ==> (palette >> shift) & 3u8 <= 3u8) by (bit_vector);
    (palette >> shift) & 0b11u8
}

/// Turns a final GameBoy color into a screen color: 4 bytes RGBA.
pub fn pixel_rgb8888_color(gb_color: u8) -> (r: [u8; 4])
    requires
        gb_color < 4,
    ensures
        r == PALETTE[gb_color as int],
{
    PALETTE[gb_color as usize]
}

/// The four screen colors share no red, green or blue value: any one of those components
/// tells two shades apart.
pub proof fn lemma_palette_components_differ(c1: int, c2: int, k: int)
    requires
        0 <= c1 < 4,
        0 <= c2 < 4,
        c1 != c2,
        0 <= k < 3,
    ensures
        PALETTE[c1]@[k] != PALETTE[c2]@[k],
{
}


/// A queue that keeps at most `capacity` of the latest elements.
pub struct SizedQueue<T> {
    capacity: usize,
    deque: VecDeque<T>,
}

impl<T> View for SizedQueue<T> {
    type V = Seq<T>;

    closed spec fn view(&self) -> Seq<T> {
        self.deque@
    }
}

/// The last `cap` elements of `s` (all of them when it is shorter).
pub open spec fn keep_last<T>(s: Seq<T>, cap: nat) -> Seq<T> {
    if s.len() <= cap {
        s
    } else {
        s.subrange(s.len() - cap, s.len() as int)
    }
}

/// A queue never holds more than its capacity, and the latest element pushed is last.
pub proof fn lemma_keep_last_bounded<T>(s: Seq<T>, e: T, cap: nat)
    requires
        cap > 0,
    ensures
        keep_last(s.push(e), cap).len() <= cap,
        keep_last(s.push(e), cap).last() == e,
{
}

impl<T> SizedQueue<T> {
    /// How many elements the queue keeps.
    pub closed spec fn capacity(&self) -> nat {
        self.capacity as nat
    }

    pub fn new(capacity: usize) -> (r: SizedQueue<T>)
        ensures
            r@ == Seq::<T>::empty(),
            r.capacity() == capacity,
    {
        SizedQueue { deque: VecDeque::new(), capacity }
    }

    /// Appends `e`, dropping the oldest elements to stay within the capacity.
    pub fn push(&mut self, e: T)
        requires
            old(self).capacity() > 0,
        ensures
            final(self)@ == keep_last(old(self)@.push(e), old(self).capacity()),
            final(self).capacity() == old(self).capacity(),
    {
        let ghost s0 = self.deque@;
        while self.deque.len() >= self.capacity
            invariant
                self.capacity > 0,
                self.capacity == old(self).capacity,
                s0 == old(self)@,
                self.deque@.len() <= s0.len(),
                self.deque@ == s0.subrange(s0.len() - self.deque@.len(), s0.len() as int),
                s0.len() >= self.capacity ==> self.deque@.len() >= self.capacity - 1,
                s0.len() < self.capacity ==> self.deque@ == s0,
            decreases self.deque@.len(),
        {
            let _ = self.deque.pop_front();
        }
        self.deque.push_back(e);
        proof {
            let s = s0.push(e);
            if s.len() <= self.capacity {
                assert(self.deque@ =~= s);
            } else {
                assert(self.deque@ =~= s.subrange(s.len() - self.capacity, s.len() as int));
            }
        }
    }

    /// The elements, oldest first.
    pub fn inner(&self) -> (r: &VecDeque<T>)
        ensures
            r@ == self@,
    {
        &self.deque
    }
}

/// The sum of a sequence of integers.
pub open spec fn seq_sum(s: Seq<i32>) -> int
    decreases s.len(),
{
    if s.len() == 0 {
        0
    } else {
        seq_sum(s.drop_last()) + s.last()
    }
}

/// Whether every running sum of `s` fits in an `i32`.
pub open spec fn running_sums_fit(s: Seq<i32>) -> bool {
    forall|k: int| 0 <= k <= s.len() ==> i32::MIN <= #[trigger] seq_sum(s.take(k)) <= i32::MAX
}

/// Integer division rounding towards zero.
pub open spec fn trunc_div(a: int, b: int) -> int {
    if a >= 0 {
        a / b
    } else {
        -((-a) / b)
    }
}

/// Whether `s` is sorted in ascending order.
pub open spec fn sorted(s: Seq<i32>) -> bool {
    forall|i: int, j: int| 0 <= i <= j < s.len() ==> s[i] <= s[j]
}

/// The length of the first of the two slices that hold a deque's elements.
/// std's `VecDeque::as_slices` documents only that the two slices hold,
/// in order, the deque's contents: where the first one ends is left open.
#[verifier::external_body]
fn front_slice_len(deque: &VecDeque<i32>) -> (k: usize)
    ensures
        k <= deque@.len(),
{
    deque.as_slices().0.len()
}

/// Exchanging two elements keeps the multiset of a sequence.
proof fn lemma_swap_preserves_multiset(s: Seq<i32>, i: int, j: int)
    requires
        0 <= i < s.len(),
        0 <= j < s.len(),
    ensures
        s.update(i, s[j]).update(j, s[i]).to_multiset() == s.to_multiset(),
{
    broadcast use {
        vstd::seq_lib::to_multiset_update,
        vstd::seq_lib::to_multiset_contains,
        vstd::multiset::group_multiset_axioms,
    };

    let ms = s.to_multiset();
    let s1 = s.update(i, s[j]);
    let s2 = s1.update(j, s[i]);
    assert(s.contains(s[i]));
    assert(s.contains(s[j]));
    assert(s1[j] == s[j]);
    assert(s1.contains(s[j]));
    let ms1 = s1.to_multiset();
    let ms2 = s2.to_multiset();
    assert(ms1 == ms.insert(s[j]).remove(s[i]));
    assert(ms2 == ms1.insert(s[i]).remove(s[j]));
    assert forall|x: i32| ms2.count(x) == ms.count(x) by {
        assert(ms.count(s[i]) >= 1);
        assert(ms.count(s[j]) >= 1);
    }
    assert(ms2 =~= ms);
}

/// Sorts a vector in ascending order, in place.
fn sort_vec(v: &mut Vec<i32>)
    ensures
        sorted(final(v)@),
        final(v)@.to_multiset() == old(v)@.to_multiset(),
        final(v)@.len() == old(v)@.len(),
{
    let n = v.len();
    let mut i: usize = 1;
    if n == 0 {
        return;
    }
    while i < n
        invariant
            1 <= i <= n,
            n == v.len(),
            n == old(v)@.len(),
            forall|a: int, b: int| 0 <= a <= b < i ==> v@[a] <= v@[b],
            v@.to_multiset() == old(v)@.to_multiset(),
        decreases n - i,
    {
        let mut j: usize = i;
        while j > 0 && v[j - 1] > v[j]
            invariant
                0 <= j <= i < n,
                n == v.len(),
                n == old(v)@.len(),
                v@.to_multiset() == old(v)@.to_multiset(),
                // v[0..=i] without position j is sorted, and v[j] is below everything after it.
                forall|a: int, b: int| 0 <= a <= b <= i && a != j && b != j ==> v@[a] <= v@[b],
                forall|b: int| j < b <= i ==> v@[j as int] < v@[b],
            decreases j,
        {
            let a = v[j - 1];
            let b = v[j];
            proof {
                lemma_swap_preserves_multiset(v@, (j - 1) as int, j as int);
            }
            v.set(j - 1, b);
            v.set(j, a);
            j -= 1;
        }
        proof {
            assert forall|a: int, b: int| 0 <= a <= b < i + 1 implies v@[a] <= v@[b] by {
                if a == j as int && b != j as int && j > 0 {
                    assert(v@[j as int - 1] <= v@[j as int]);
                }
            }
        }
        i += 1;
    }
}

/// The samples after the first `k` are sorted in place, and what comes back: nothing moves
/// and 0 comes back when `k` is 0; otherwise the first `k` are sorted, the rest stay, and the
/// sample at 90% of `k` comes back.
pub open spec fn p90_outcome(before: Seq<i32>, after: Seq<i32>, k: int, r: i32) -> bool {
    if k == 0 {
        after == before && r == 0
    } else {
        &&& after.len() == before.len()
        &&& sorted(after.take(k))
        &&& after.skip(k) == before.skip(k)
        &&& after.take(k).to_multiset() == before.take(k).to_multiset()
        &&& r == after[(k * 9) / 10]
    }
}

/// The dump pacing count after one more call: it goes up by one and wraps at `modulo`.
pub open spec fn pace_step(count: u64, modulo: u64) -> u64 {
    if count + 1 >= modulo {
        (count + 1 - modulo) as u64
    } else {
        (count + 1) as u64
    }
}

/// The dump pacing count after `k` calls, from a fresh `Stats`.
pub open spec fn pace_after(k: nat, modulo: u64) -> u64
    decreases k,
{
    if k == 0 {
        0
    } else {
        pace_step(pace_after((k - 1) as nat, modulo), modulo)
    }
}

/// One more than a remainder is the next remainder, or wraps to 0 at the divisor.
proof fn lemma_mod_succ(j: int, f: int)
    requires
        f >= 1,
        j >= 1,
    ensures
        (j - 1) % f + 1 == f ==> j % f == 0,
        (j - 1) % f + 1 < f ==> j % f == (j - 1) % f + 1,
{
    let q = (j - 1) / f;
    let r = (j - 1) % f;
    vstd::arithmetic::div_mod::lemma_fundamental_div_mod(j - 1, f);
    if r + 1 == f {
        assert(j == f * (q + 1) + 0) by (nonlinear_arith)
            requires
                j - 1 == f * q + r,
                r + 1 == f,
        ;
        vstd::arithmetic::div_mod::lemma_fundamental_div_mod_converse(j, f, q + 1, 0);
    } else {
        vstd::arithmetic::div_mod::lemma_fundamental_div_mod_converse(j, f, q, r + 1);
    }
}

/// From a fresh `Stats` made with a frequency `freq`, the pacing count after `k` calls of
/// `dump_to_stdout_at_freq` is `k % freq`, and the `k`-th call reports (gives back its
/// average and 90th percentile) exactly when `k` is a multiple of `freq`.
pub proof fn lemma_dump_every_freq_calls(freq: u64, k: nat)
    requires
        freq >= 1,
        k >= 1,
    ensures
        pace_after(k, freq) == (k as int) % (freq as int),
        pace_after((k - 1) as nat, freq) == (k - 1) % (freq as int),
        (pace_after((k - 1) as nat, freq) + 1 >= freq) == ((k as int) % (freq as int) == 0),
    decreases k,
{
    if k > 1 {
        lemma_dump_every_freq_calls(freq, (k - 1) as nat);
    } else {
        assert(0int % (freq as int) == 0) by (nonlinear_arith)
            requires
                freq >= 1,
        ;
    }
    lemma_mod_succ(k as int, freq as int);
    vstd::arithmetic::div_mod::lemma_mod_bound((k - 1) as int, freq as int);
    let c = pace_after((k - 1) as nat, freq);
    assert(c as int == (k - 1) as int % (freq as int));
    assert(pace_after(k, freq) == pace_step(c, freq));
    if c + 1 >= freq {
        assert(c + 1 == freq);
        assert((k as int) % (freq as int) == 0);
    } else {
        assert((k as int) % (freq as int) == c + 1);
    }
}

/// Running statistics over a window of the latest samples.
pub struct Stats {
    queue: SizedQueue<i32>,
    window_counter: Counter,
}

impl View for Stats {
    type V = Seq<i32>;

    closed spec fn view(&self) -> Seq<i32> {
        self.queue@
    }
}

impl Stats {
    /// The number of samples kept.
    pub closed spec fn window(&self) -> nat {
        self.queue.capacity()
    }

    /// The counter that paces the dumps.
    pub closed spec fn dump_counter(&self) -> Counter {
        self.window_counter
    }

    pub fn new(window: usize, freq: u64) -> (r: Stats)
        ensures
            r@ == Seq::<i32>::empty(),
            r.window() == window,
            r.dump_counter().count() == 0,
            r.dump_counter().modulo() == freq,
    {
        Stats { queue: SizedQueue::new(window), window_counter: Counter::new(freq) }
    }

    /// Records a sample.
    pub fn push(&mut self, e: i32)
        requires
            old(self).window() > 0,
        ensures
            final(self)@ == keep_last(old(self)@.push(e), old(self).window()),
            final(self).window() == old(self).window(),
            final(self).dump_counter() == old(self).dump_counter(),
    {
        self.queue.push(e);
    }

    /// Ticks the dump pacing counter; when it overflows, gives back the
    /// average and the 90th percentile that are due to be printed.
    pub fn dump_to_stdout_at_freq(&mut self) -> (r: Option<(i32, i32)>)
        requires
            old(self).dump_counter().count() < u64::MAX,
            old(self).dump_counter().tick_then_overflow_ok(1),
            old(self).dump_counter().count() + 1 >= old(self).dump_counter().modulo() ==> {
                &&& old(self)@.len() > 0
                &&& running_sums_fit(old(self)@)
            },
        ensures
            final(self).dump_counter().modulo() == old(self).dump_counter().modulo(),
            final(self).window() == old(self).window(),
            r is Some <==> old(self).dump_counter().count() + 1 >= old(self).dump_counter().modulo(),
            final(self).dump_counter().count() == pace_step(
                old(self).dump_counter().count(),
                old(self).dump_counter().modulo(),
            ),
            r is None ==> final(self)@ == old(self)@,
            r matches Some((avg, _)) ==> avg == trunc_div(seq_sum(old(self)@), old(self)@.len() as int),
            r matches Some((_, p90)) ==> exists|k: int|
                #![trigger final(self)@.take(k)]
                0 <= k <= old(self)@.len() && p90_outcome(old(self)@, final(self)@, k, p90),
    {
        if self.window_counter.tick_and_check_overflow(1) {
            let avg = self.avg();
            let p90 = self.p90();
            Some((avg, p90))
        } else {
            None
        }
    }

    /// The average of the samples, rounded towards zero.
    pub fn avg(&self) -> (r: i32)
        requires
            self@.len() > 0,
            running_sums_fit(self@),
        ensures
            r == trunc_div(seq_sum(self@), self@.len() as int),
    {
        let d = &self.queue.deque;
        let n = d.len();
        let mut sum: i64 = 0;
        let mut i: usize = 0;
        while i < n
            invariant
                n == d@.len(),
                n > 0,
                d@ == self@,
                running_sums_fit(self@),
                0 <= i <= n,
                sum == seq_sum(d@.take(i as int)),
            decreases n - i,
        {
            assert(d@.take(i + 1).drop_last() =~= d@.take(i as int));
            assert(i32::MIN <= seq_sum(d@.take(i + 1)) <= i32::MAX);
            sum = sum + d[i] as i64;
            i += 1;
        }
        assert(d@.take(n as int) =~= d@);
        assert(i32::MIN <= sum <= i32::MAX) by {
            assert(i32::MIN <= seq_sum(d@.take(n as int)) <= i32::MAX);
        }
        let len = n as u64;
        if sum >= 0 {
            let q = (sum as u64) / len;
            assert(q <= sum) by {
                vstd::arithmetic::div_mod::lemma_div_is_ordered_by_denominator(sum as int, 1, len as int);
            }
            q as i32
        } else {
            let q = ((-sum) as u64) / len;
            assert(q <= -sum) by {
                vstd::arithmetic::div_mod::lemma_div_is_ordered_by_denominator(-sum as int, 1, len as int);
            }
            (-(q as i64)) as i32
        }
    }

    /// Sorts the first internal slice of the samples in place and gives back
    /// its element at 90% of its length (0 when that slice is empty).
    pub fn p90(&mut self) -> (r: i32)
        ensures
            final(self).window() == old(self).window(),
            final(self).dump_counter() == old(self).dump_counter(),
            exists|k: int|
                #![trigger final(self)@.take(k)]
                0 <= k <= old(self)@.len() && p90_outcome(old(self)@, final(self)@, k, r),
    {
        let k = front_slice_len(&self.queue.deque);
        let r = self.p90_of_front(k);
        assert(final(self)@.take(k as int) == final(self)@.take(k as int));
        r
    }

    /// Sorts the first `k` samples in place and gives back the one at 90% of `k`
    /// (0 when `k` is 0).
    #[verifier::spinoff_prover]
    #[verifier::rlimit(40)]
    pub fn p90_of_front(&mut self, k: usize) -> (r: i32)
        requires
            k <= old(self)@.len(),
        ensures
            final(self).window() == old(self).window(),
            final(self).dump_counter() == old(self).dump_counter(),
            p90_outcome(old(self)@, final(self)@, k as int, r),
    {
        if k == 0 {
            return 0;
        }
        let ghost s0 = self.queue.deque@;
        let mut front: Vec<i32> = Vec::new();
        let mut i: usize = 0;
        while i < k
            invariant
                k <= s0.len(),
                0 <= i <= k,
                front@ == s0.take(i as int),
                self.queue.deque@ == s0.skip(i as int),
                self.queue.capacity == old(self).queue.capacity,
                self.window_counter == old(self).window_counter,
                s0 == old(self)@,
            decreases k - i,
        {
            let x = self.queue.deque.pop_front();
            match x {
                Some(x) => {
                    front.push(x);
                },
                None => {
                    assert(false);
                },
            }
            assert(front@ =~= s0.take(i + 1));
            assert(self.queue.deque@ =~= s0.skip(i + 1));
            i += 1;
        }
        let ghost unsorted = front@;
        sort_vec(&mut front);
        let r = front[(k / 10) * 9 + ((k % 10) * 9) / 10];
        let mut j: usize = k;
        while j > 0
            invariant
                k <= s0.len(),
                0 <= j <= k,
                front@.len() == k,
                self.queue.deque@ == front@.skip(j as int) + s0.skip(k as int),
                self.queue.capacity == old(self).queue.capacity,
                self.window_counter == old(self).window_counter,
            decreases j,
        {
            self.queue.deque.push_front(front[j - 1]);
            assert(self.queue.deque@ =~= front@.skip(j - 1) + s0.skip(k as int));
            j -= 1;
        }
        proof {
            let f = self.queue.deque@;
            assert(front@.skip(0) =~= front@);
            assert(f.take(k as int) =~= front@);
            assert(f.skip(k as int) =~= s0.skip(k as int));
            assert(s0 =~= unsorted + s0.skip(k as int));
            vstd::seq_lib::lemma_multiset_commutative(unsorted, s0.skip(k as int));
            vstd::seq_lib::lemma_multiset_commutative(front@, s0.skip(k as int));
            assert(f =~= front@ + s0.skip(k as int));
            assert(s0.take(k as int) =~= unsorted);
            assert((k / 10) * 9 + ((k % 10) * 9) / 10 == (k * 9) / 10) by (nonlinear_arith);
        }
        r
    }
}

/// A cycle counter that overflows at `modulo`.
#[derive(Debug)]
pub struct Counter {
    pub counter: u64,
    pub modulo: u64,
}

impl Counter {
    /// The current count.
    pub open spec fn count(&self) -> u64 {
        self.counter
    }

    /// The value at which the counter overflows.
    pub open spec fn modulo(&self) -> u64 {
        self.modulo
    }

    /// Whether ticking by `len` and then checking once for overflow is defined.
    pub open spec fn tick_then_overflow_ok(&self, len: u64) -> bool {
        let c = self.count() + len;
        c <= u64::MAX && (c >= self.modulo() ==> c - self.modulo() < self.modulo())
    }

    pub fn new(modulo: u64) -> (r: Counter)
        ensures
            r.count() == 0,
            r.modulo() == modulo,
    {
        Counter { counter: 0, modulo }
    }

    /// Adds `len`, then takes off one period if the counter reached it.
    pub fn tick_and_check_overflow(&mut self, len: u64) -> (r: bool)
        requires
            old(self).tick_then_overflow_ok(len),
        ensures
            r == (old(self).count() + len >= old(self).modulo()),
            final(self).count() == (if r {
                old(self).count() + len - old(self).modulo()
            } else {
                old(self).count() + len
            }),
            final(self).modulo() == old(self).modulo(),
            final(self).count() < final(self).modulo() || !r,
    {
        self.tick(len);
        self.check_overflow()
    }

    pub fn tick(&mut self, len: u64)
        requires
            old(self).count() + len <= u64::MAX,
        ensures
            final(self).count() == old(self).count() + len,
            final(self).modulo() == old(self).modulo(),
    {
        self.counter += len;
    }

    /// Takes off one period if the counter reached it.
    pub fn check_overflow(&mut self) -> (r: bool)
        requires
            old(self).count() >= old(self).modulo() ==> old(self).count() - old(self).modulo()
                < old(self).modulo(),
        ensures
            r == (old(self).count() >= old(self).modulo()),
            final(self).count() == (if r {
                old(self).count() - old(self).modulo()
            } else {
                old(self).count() as int
            }),
            final(self).modulo() == old(self).modulo(),
            r ==> final(self).count() < final(self).modulo(),
    {
        if self.counter >= self.modulo {
            self.counter -= self.modulo;
            true
        } else {
            false
        }
    }

    /// Takes off as many whole periods as the counter holds and counts them.
    pub fn check_overflow_count(&mut self) -> (r: u8)
        requires
            old(self).modulo() > 0,
            old(self).count() / old(self).modulo() <= 255,
        ensures
            r == old(self).count() / old(self).modulo(),
            final(self).count() == old(self).count() % old(self).modulo(),
            final(self).modulo() == old(self).modulo(),
    {
        let mut count: u8 = 0;
        while self.counter >= self.modulo
            invariant
                self.modulo == old(self).modulo,
                self.modulo > 0,
                old(self).count() / self.modulo <= 255,
                count * self.modulo + self.counter == old(self).count(),
            decreases self.counter,
        {
            proof {
                let total = old(self).count();
                let m = self.modulo;
                let c = self.counter;
                assert((count as int) < (total / m) as int) by (nonlinear_arith)
                    requires
                        count * m + c == total,
                        c >= m,
                        m > 0,
                ;
            }
            self.counter -= self.modulo;
            count += 1;
            proof {
                let m = self.modulo as int;
                let k = count as int;
                assert(k * m == (k - 1) * m + m) by (nonlinear_arith);
            }
        }
        proof {
            let m = self.modulo as int;
            let c = self.counter as int;
            let k = count as int;
            assert(k * m + c == old(self).count());
            vstd::arithmetic::div_mod::lemma_fundamental_div_mod_converse(
                old(self).count() as int,
                m,
                k,
                c,
            );
        }
        count
    }

    pub fn update_modulo(&mut self, modulo: u64)
        ensures
            final(self).modulo() == modulo,
            final(self).count() == old(self).count(),
    {
        self.modulo = modulo;
    }

    pub fn reset(&mut self)
        ensures
            final(self).count() == 0,
            final(self).modulo() == old(self).modulo(),
    {
        self.counter = 0;
    }
}

} // verus!
