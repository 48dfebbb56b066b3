use vstd::prelude::*;

verus! {

/// A command of the debugger prompt.
#[derive(Clone, Copy, PartialEq, Eq, Structural, Debug)]
pub enum DebugCmd {
    Quit,
    Continue,
    Step,
    PrintCpu,
    PrintMemory(u16, usize),
    PrintOpHistory,
    PrintOam,
}

/// Breakpoints and stepping state.
pub struct Debugger {
    break_on_start: bool,
    step_by_step: bool,
    pc_breakpoints: Vec<u16>,
    auto_step_count: usize,
    one_time_break: bool,
    breakpoint_requested: bool,
}

/// The abstract state of the debugger.
pub struct DebuggerState {
    pub break_on_start: bool,
    pub step_by_step: bool,
    pub pc_breakpoints: Seq<u16>,
    pub auto_step_count: usize,
    pub one_time_break: bool,
    pub breakpoint_requested: bool,
}

impl View for Debugger {
    type V = DebuggerState;

    closed spec fn view(&self) -> DebuggerState {
        DebuggerState {
            break_on_start: self.break_on_start,
            step_by_step: self.step_by_step,
            pc_breakpoints: self.pc_breakpoints@,
            auto_step_count: self.auto_step_count,
            one_time_break: self.one_time_break,
            breakpoint_requested: self.breakpoint_requested,
        }
    }
}

/// Whether to stop before the instruction at `pc`, and the state after asking.
pub open spec fn spec_should_stop(d: DebuggerState, pc: u16) -> (bool, DebuggerState) {
    if d.auto_step_count > 0 {
        (false, DebuggerState { auto_step_count: (d.auto_step_count - 1) as usize, ..d })
    } else if d.step_by_step {
        (true, d)
    } else if pc == 0 && d.break_on_start {
        (true, d)
    } else if d.pc_breakpoints.contains(pc) {
        (true, d)
    } else if d.one_time_break {
        (true, DebuggerState { one_time_break: false, ..d })
    } else if d.breakpoint_requested {
        (true, DebuggerState { breakpoint_requested: false, ..d })
    } else {
        (false, d)
    }
}

impl Debugger {
    /// `breakpoint_requested`: whether a break was asked from outside before the first instruction.
    pub fn new(breakpoint_requested: bool) -> (r: Self)
        ensures
            r@ == (DebuggerState {
                break_on_start: false,
                step_by_step: false,
                pc_breakpoints: Seq::<u16>::empty(),
                auto_step_count: 0,
                one_time_break: false,
                breakpoint_requested,
            }),
    {
        Self {
            break_on_start: false,
            step_by_step: false,
            pc_breakpoints: Vec::new(),
            auto_step_count: 0,
            one_time_break: false,
            breakpoint_requested,
        }
    }

    /// Records a break asked from outside (the user interface); it is taken once.
    pub fn set_breakpoint_requested(&mut self, requested: bool)
        ensures
            final(self)@ == (DebuggerState { breakpoint_requested: requested, ..old(self)@ }),
    {
        self.breakpoint_requested = requested;
    }

    pub fn clear_steps_and_continue(&mut self)
        ensures
            final(self)@ == (DebuggerState {
                auto_step_count: 0,
                step_by_step: false,
                ..old(self)@
            }),
    {
        self.auto_step_count = 0;
        self.step_by_step = false;
    }

    pub fn set_auto_step_count(&mut self, n: usize)
        ensures
            final(self)@ == (DebuggerState { auto_step_count: n, ..old(self)@ }),
    {
        self.auto_step_count = n;
    }

    pub fn set_break_on_start(&mut self)
        ensures
            final(self)@ == (DebuggerState { break_on_start: true, ..old(self)@ }),
    {
        self.break_on_start = true;
    }

    pub fn set_step_by_step(&mut self)
        ensures
            final(self)@ == (DebuggerState { step_by_step: true, ..old(self)@ }),
    {
        self.step_by_step = true;
    }

    pub fn add_breakpoint(&mut self, breakpoint: u16)
        ensures
            final(self)@ == (DebuggerState {
                pc_breakpoints: old(self)@.pc_breakpoints.push(breakpoint),
                ..old(self)@
            }),
    {
        self.pc_breakpoints.push(breakpoint);
    }

    /// The breakpoints, in the order they were added.
    pub fn breakpoints(&self) -> (r: &Vec<u16>)
        ensures
            r@ == self@.pc_breakpoints,
    {
        &self.pc_breakpoints
    }

    pub fn request_one_time_break(&mut self)
        ensures
            final(self)@ == (DebuggerState { one_time_break: true, ..old(self)@ }),
    {
        self.one_time_break = true;
    }

    /// Whether to stop before running the instruction at `pc`.
    pub fn should_stop(&mut self, pc: u16) -> (r: bool)
        ensures
            (r, final(self)@) == spec_should_stop(old(self)@, pc),
    {
        if self.auto_step_count > 0 {
            self.auto_step_count -= 1;
            return false;
        }

        if self.step_by_step {
            return true;
        }

        if pc == 0 && self.break_on_start {
            return true;
        }

        if self.has_breakpoint(pc) {
            return true;
        }

        if self.one_time_break {
            self.one_time_break = false;
            return true;
        }

        if self.breakpoint_requested {
            self.breakpoint_requested = false;
            return true;
        }

        false
    }

    fn has_breakpoint(&self, pc: u16) -> (r: bool)
        ensures
            r == self@.pc_breakpoints.contains(pc),
    {
        let n = self.pc_breakpoints.len();
        let mut i: usize = 0;
        while i < n
            invariant
                n == self.pc_breakpoints@.len(),
                0 <= i <= n,
                forall|j: int| 0 <= j < i ==> self.pc_breakpoints@[j] != pc,
            decreases n - i,
        {
            if self.pc_breakpoints[i] == pc {
                assert(self.pc_breakpoints@[i as int] == pc);
                return true;
            }
            i += 1;
        }
        false
    }
}

/// The characters of a string.
pub fn chars_of(s: &str) -> (r: Vec<char>)
    ensures
        r@ == s@,
{
    broadcast use vstd::string::axiom_spec_iter;
    let mut v: Vec<char> = Vec::new();
    for c in it: s.chars()
        invariant
            v@ == it.seq().take(it.index()),
            it.seq() == s@,
    {
        v.push(c);
    }
    v
}

/// Whether `v` is the single character `c`.
fn word_is_char(v: &Vec<char>, c: char) -> (r: bool)
    ensures
        r == (v@ == seq![c]),
{
    if v.len() == 1 && v[0] == c {
        assert(v@ =~= seq![c]);
        true
    } else {
        false
    }
}

/// Whether `v` holds exactly the characters of `w`.
fn word_is(v: &Vec<char>, w: &[char]) -> (r: bool)
    ensures
        r == (v@ == w@),
{
    if v.len() != w.len() {
        return false;
    }
    let mut i: usize = 0;
    while i < v.len()
        invariant
            v@.len() == w@.len(),
            0 <= i <= v@.len(),
            forall|j: int| 0 <= j < i ==> v@[j] == w@[j],
        decreases v@.len() - i,
    {
        if v[i] != w[i] {
            return false;
        }
        i += 1;
    }
    assert(v@ =~= w@);
    true
}


/// Whether `c` is white space, as `char::is_whitespace` defines it (the Unicode `White_Space`
/// property).
pub open spec fn is_ws(c: char) -> bool {
    let u = c as u32;
    ||| 0x09 <= u <= 0x0D
    ||| u == 0x20
    ||| u == 0x85
    ||| u == 0xA0
    ||| u == 0x1680
    ||| 0x2000 <= u <= 0x200A
    ||| u == 0x2028
    ||| u == 0x2029
    ||| u == 0x202F
    ||| u == 0x205F
    ||| u == 0x3000
}

/// `s` without its leading white space.
pub open spec fn trim_start(s: Seq<char>) -> Seq<char>
    decreases s.len(),
{
    if s.len() > 0 && is_ws(s[0]) {
        trim_start(s.drop_first())
    } else {
        s
    }
}

/// `s` without its trailing white space.
pub open spec fn trim_end(s: Seq<char>) -> Seq<char>
    decreases s.len(),
{
    if s.len() > 0 && is_ws(s.last()) {
        trim_end(s.drop_last())
    } else {
        s
    }
}

/// `s` without leading and trailing white space.
pub open spec fn trim(s: Seq<char>) -> Seq<char> {
    trim_end(trim_start(s))
}

/// The pieces of `s` between single spaces: two spaces in a row give an empty piece, and there
/// is always at least one piece.
pub open spec fn split_spaces(s: Seq<char>) -> Seq<Seq<char>>
    decreases s.len(),
{
    if s.len() == 0 {
        seq![Seq::<char>::empty()]
    } else {
        let r = split_spaces(s.drop_last());
        if s.last() == ' ' {
            r.push(Seq::<char>::empty())
        } else {
            r.update(r.len() - 1, r.last().push(s.last()))
        }
    }
}

/// The value of a digit in base 10 or 16 (either case).
pub open spec fn digit_value(c: char, radix: nat) -> Option<nat> {
    let u = c as u32;
    if 0x30 <= u <= 0x39 {
        Some((u - 0x30) as nat)
    } else if radix == 16 && 0x61 <= u <= 0x66 {
        Some((u - 0x61 + 10) as nat)
    } else if radix == 16 && 0x41 <= u <= 0x46 {
        Some((u - 0x41 + 10) as nat)
    } else {
        None
    }
}

/// The number that the digits `s` write, if each is a digit.
pub open spec fn digits_value(s: Seq<char>, radix: nat) -> Option<nat>
    decreases s.len(),
{
    if s.len() == 0 {
        Some(0)
    } else {
        match (digits_value(s.drop_last(), radix), digit_value(s.last(), radix)) {
            (Some(a), Some(d)) => Some(a * radix + d),
            _ => None,
        }
    }
}

/// The number that `s` writes as `from_str_radix` reads it for an unsigned type without a
/// bound: an optional `+`, then at least one digit.
pub open spec fn parse_radix(s: Seq<char>, radix: nat) -> Option<nat> {
    let body = if s.len() > 0 && s[0] == '+' {
        s.drop_first()
    } else {
        s
    };
    if body.len() == 0 {
        None
    } else {
        digits_value(body, radix)
    }
}

/// `parse_radix`, when the number is at most `max`.
pub open spec fn parse_bounded(s: Seq<char>, radix: nat, max: nat) -> Option<nat> {
    match parse_radix(s, radix) {
        Some(v) => if v <= max {
            Some(v)
        } else {
            None
        },
        None => None,
    }
}

/// The first index of `v` in `s`, if `v` occurs.
pub open spec fn first_index(s: Seq<u16>, v: u16) -> Option<int> {
    if exists|i: int| 0 <= i < s.len() && s[i] == v {
        Some(choose|i: int| 0 <= i < s.len() && s[i] == v && forall|j: int| 0 <= j < i ==> s[j] != v)
    } else {
        None
    }
}

/// The breakpoints after the one that `part` names (in hex) is removed, if it is set: the first
/// occurrence goes.
pub open spec fn remove_named(bps: Seq<u16>, part: Seq<char>) -> Seq<u16> {
    match parse_bounded(part, 16, 0xFFFF) {
        Some(v) => match first_index(bps, v as u16) {
            Some(i) => bps.remove(i),
            None => bps,
        },
        None => bps,
    }
}

/// The breakpoints after those that pieces `1..k` name are removed, in order.
pub open spec fn remove_all_named(bps: Seq<u16>, parts: Seq<Seq<char>>, k: int) -> Seq<u16>
    decreases k,
{
    if k <= 1 {
        bps
    } else {
        remove_named(remove_all_named(bps, parts, k - 1), parts[k - 1])
    }
}

/// What the prompt prints after a command, besides what the command itself asks for.
#[derive(Clone, Copy, PartialEq, Eq, Structural, Debug)]
pub enum DebugEcho {
    Nothing,
    /// The list of breakpoints.
    Breakpoints,
    /// That the command is not understood.
    Invalid,
}

/// The step count that `n` takes: its argument in decimal, 1 when absent or unreadable.
pub open spec fn step_count(parts: Seq<Seq<char>>) -> nat {
    if parts.len() > 1 {
        match parse_bounded(parts[1], 10, usize::MAX as nat) {
            Some(v) => v,
            None => 1,
        }
    } else {
        1
    }
}

/// A prompt line is accepted unless it asks `n` for zero steps.
pub open spec fn parse_defined(raw: Seq<char>) -> bool {
    let parts = split_spaces(trim(raw));
    !(trim(raw).len() != 0 && trim(raw) != seq!['q'] && parts[0] == seq!['n'] && step_count(parts)
        == 0)
}

/// The command of `m`: the start address in hex and an optional decimal length (1 by default).
pub open spec fn memory_cmd(parts: Seq<Seq<char>>) -> Option<DebugCmd> {
    match parse_bounded(parts[1], 16, 0xFFFF) {
        Some(from) => if parts.len() == 2 {
            Some(DebugCmd::PrintMemory(from as u16, 1))
        } else {
            match parse_bounded(parts[2], 10, usize::MAX as nat) {
                Some(len) => Some(DebugCmd::PrintMemory(from as u16, len as usize)),
                None => None,
            }
        },
        None => None,
    }
}

/// The command a prompt line gives, what the prompt prints, and the debugger after it.
pub open spec fn spec_parse(d: DebuggerState, raw: Seq<char>) -> (
    Option<DebugCmd>,
    DebugEcho,
    DebuggerState,
) {
    let t = trim(raw);
    let parts = split_spaces(t);
    if t == seq!['q'] {
        (Some(DebugCmd::Quit), DebugEcho::Nothing, d)
    } else if t.len() == 0 {
        (Some(DebugCmd::Step), DebugEcho::Nothing, DebuggerState { auto_step_count: 0, ..d })
    } else if parts[0] == seq!['n'] {
        (
            Some(DebugCmd::Step),
            DebugEcho::Nothing,
            DebuggerState { auto_step_count: (step_count(parts) - 1) as usize, ..d },
        )
    } else if t == seq!['p'] {
        (Some(DebugCmd::PrintCpu), DebugEcho::Nothing, d)
    } else if t == seq!['c'] {
        (Some(DebugCmd::Continue), DebugEcho::Nothing, d)
    } else if parts.len() == 2 && parts[0] == seq!['b'] {
        let bps = match parse_bounded(parts[1], 16, usize::MAX as nat) {
            Some(pc) => d.pc_breakpoints.push((pc % 0x10000) as u16),
            None => d.pc_breakpoints,
        };
        (None, DebugEcho::Breakpoints, DebuggerState { pc_breakpoints: bps, ..d })
    } else if t == seq!['b', '?'] {
        (None, DebugEcho::Breakpoints, d)
    } else if parts[0] == seq!['b', '-'] {
        let bps = if parts.len() == 1 {
            Seq::<u16>::empty()
        } else {
            remove_all_named(d.pc_breakpoints, parts, parts.len() as int)
        };
        (None, DebugEcho::Breakpoints, DebuggerState { pc_breakpoints: bps, ..d })
    } else if t == seq!['s'] {
        (None, DebugEcho::Nothing, DebuggerState { step_by_step: true, ..d })
    } else if t == seq!['h', 'i', 's', 't'] {
        (Some(DebugCmd::PrintOpHistory), DebugEcho::Nothing, d)
    } else if parts.len() >= 2 && parts[0] == seq!['m'] {
        (memory_cmd(parts), DebugEcho::Nothing, d)
    } else if t == seq!['o', 'a', 'm'] {
        (Some(DebugCmd::PrintOam), DebugEcho::Nothing, d)
    } else {
        (None, DebugEcho::Invalid, d)
    }
}

/// Whether `c` is white space.
fn is_ws_char(c: char) -> (r: bool)
    ensures
        r == is_ws(c),
{
    let u = c as u32;
    (0x09 <= u && u <= 0x0D) || u == 0x20 || u == 0x85 || u == 0xA0 || u == 0x1680 || (0x2000 <= u
        && u <= 0x200A) || u == 0x2028 || u == 0x2029 || u == 0x202F || u == 0x205F || u == 0x3000
}

/// `s` without leading and trailing white space.
fn trim_chars(s: &Vec<char>) -> (r: Vec<char>)
    ensures
        r@ == trim(s@),
{
    let n = s.len();
    let mut lo: usize = 0;
    assert(s@.subrange(0, n as int) =~= s@);
    while lo < n && is_ws_char(s[lo])
        invariant
            n == s@.len(),
            0 <= lo <= n,
            trim_start(s@) == trim_start(s@.subrange(lo as int, n as int)),
        decreases n - lo,
    {
        assert(s@.subrange(lo as int, n as int).drop_first() =~= s@.subrange(lo + 1, n as int));
        lo += 1;
    }
    let ghost u = s@.subrange(lo as int, n as int);
    assert(trim_start(s@) == u);
    let mut hi: usize = n;
    while hi > lo && is_ws_char(s[hi - 1])
        invariant
            n == s@.len(),
            0 <= lo <= hi <= n,
            u == s@.subrange(lo as int, n as int),
            trim_end(u) == trim_end(s@.subrange(lo as int, hi as int)),
        decreases hi - lo,
    {
        assert(s@.subrange(lo as int, hi as int).drop_last() =~= s@.subrange(lo as int, hi - 1));
        hi -= 1;
    }
    let mut r: Vec<char> = Vec::new();
    let mut k: usize = lo;
    while k < hi
        invariant
            n == s@.len(),
            0 <= lo <= k <= hi <= n,
            r@ == s@.subrange(lo as int, k as int),
        decreases hi - k,
    {
        r.push(s[k]);
        assert(r@ =~= s@.subrange(lo as int, k + 1));
        k += 1;
    }
    r
}

/// The pieces that a vector of pieces holds.
pub open spec fn pieces(v: Seq<Vec<char>>) -> Seq<Seq<char>> {
    v.map_values(|p: Vec<char>| p@)
}

/// There is always at least one piece.
proof fn lemma_split_spaces_len(s: Seq<char>)
    ensures
        split_spaces(s).len() >= 1,
    decreases s.len(),
{
    if s.len() > 0 {
        lemma_split_spaces_len(s.drop_last());
    }
}

/// The pieces of `t` between single spaces.
fn split_chars(t: &Vec<char>) -> (r: Vec<Vec<char>>)
    ensures
        pieces(r@) == split_spaces(t@),
        r@.len() >= 1,
{
    let mut parts: Vec<Vec<char>> = Vec::new();
    parts.push(Vec::new());
    assert(pieces(parts@) =~= split_spaces(t@.take(0)));
    let mut i: usize = 0;
    while i < t.len()
        invariant
            0 <= i <= t@.len(),
            parts@.len() >= 1,
            pieces(parts@) == split_spaces(t@.take(i as int)),
        decreases t@.len() - i,
    {
        let c = t[i];
        let ghost prev = split_spaces(t@.take(i as int));
        assert(t@.take(i + 1).drop_last() =~= t@.take(i as int));
        if c == ' ' {
            parts.push(Vec::new());
            assert(pieces(parts@) =~= prev.push(Seq::<char>::empty()));
        } else {
            let mut last = parts.pop().unwrap();
            last.push(c);
            parts.push(last);
            proof {
                lemma_split_spaces_len(t@.take(i as int));
            }
            assert(pieces(parts@) =~= prev.update(prev.len() - 1, prev.last().push(c)));
        }
        i += 1;
    }
    assert(t@.take(t@.len() as int) =~= t@);
    parts
}

/// The value of a digit in base 10 or 16.
fn digit_val(c: char, radix: u32) -> (r: Option<usize>)
    requires
        radix == 10 || radix == 16,
    ensures
        match r {
            Some(d) => digit_value(c, radix as nat) == Some(d as nat) && d < radix,
            None => digit_value(c, radix as nat) is None,
        },
{
    let u = c as u32;
    if 0x30 <= u && u <= 0x39 {
        Some((u - 0x30) as usize)
    } else if radix == 16 && 0x61 <= u && u <= 0x66 {
        Some((u - 0x61 + 10) as usize)
    } else if radix == 16 && 0x41 <= u && u <= 0x46 {
        Some((u - 0x41 + 10) as usize)
    } else {
        None
    }
}

/// Reads an unsigned number in base 10 or 16 as `from_str_radix` does, refusing one above
/// `max`.
pub fn parse_number(s: &Vec<char>, radix: u32, max: usize) -> (r: Option<usize>)
    requires
        radix == 10 || radix == 16,
        max >= 15,
    ensures
        match r {
            Some(v) => parse_bounded(s@, radix as nat, max as nat) == Some(v as nat),
            None => parse_bounded(s@, radix as nat, max as nat) is None,
        },
{
    let n = s.len();
    let start: usize = if n > 0 && s[0] == '+' {
        1
    } else {
        0
    };
    let ghost body = s@.subrange(start as int, n as int);
    proof {
        if start == 1 {
            assert(s@.drop_first() =~= body);
        } else {
            assert(s@ =~= body);
        }
    }
    if start == n {
        return None;
    }
    let r = radix as usize;
    let mut acc: usize = 0;
    let mut overflow = false;
    let ghost mut val: nat = 0;
    let mut k: usize = start;
    assert(body.take(0) =~= Seq::<char>::empty());
    while k < n
        invariant
            n == s@.len(),
            start <= k <= n,
            r == radix,
            radix == 10 || radix == 16,
            max >= 15,
            body == s@.subrange(start as int, n as int),
            parse_radix(s@, radix as nat) == digits_value(body, radix as nat),
            digits_value(body.take(k - start), radix as nat) == Some(val),
            overflow ==> val > max,
            !overflow ==> val == acc && acc <= max,
        decreases n - k,
    {
        let d = match digit_val(s[k], radix) {
            Some(d) => d,
            None => {
                proof {
                    assert(body.take(k - start + 1).drop_last() =~= body.take(k - start));
                    assert(body.take(k - start + 1).last() == s@[k as int]);
                    lemma_digits_none_extends(body, radix as nat, (k - start + 1) as int);
                }
                return None;
            },
        };
        proof {
            assert(body.take(k - start + 1).drop_last() =~= body.take(k - start));
            assert(body.take(k - start + 1).last() == s@[k as int]);
            assert(val * radix + d >= val) by (nonlinear_arith)
                requires
                    radix >= 1,
                    d >= 0,
                    val >= 0,
            ;
        }
        if !overflow {
            let lim = (max - d) / r;
            if acc > lim {
                assert(acc * r + d > max) by (nonlinear_arith)
                    requires
                        acc > lim,
                        lim == (max - d) as int / r as int,
                        r >= 1,
                        d <= max,
                ;
                overflow = true;
            } else {
                assert(acc * r + d <= max) by (nonlinear_arith)
                    requires
                        acc <= lim,
                        lim == (max - d) as int / r as int,
                        r >= 1,
                        d <= max,
                ;
                acc = acc * r + d;
            }
        }
        proof {
            val = val * radix as nat + d as nat;
        }
        k += 1;
    }
    assert(body.take(n - start) =~= body);
    if overflow {
        None
    } else {
        Some(acc)
    }
}

/// A digit that is not one spoils every longer number.
proof fn lemma_digits_none_extends(body: Seq<char>, radix: nat, j: int)
    requires
        0 < j <= body.len(),
        digits_value(body.take(j), radix) is None,
    ensures
        digits_value(body, radix) is None,
    decreases body.len() - j,
{
    if j < body.len() {
        assert(body.take(j + 1).drop_last() =~= body.take(j));
        lemma_digits_none_extends(body, radix, j + 1);
    } else {
        assert(body.take(j) =~= body);
    }
}

/// The first position of `v` among the breakpoints.
fn find_breakpoint(bps: &Vec<u16>, v: u16) -> (r: Option<usize>)
    ensures
        match r {
            Some(i) => i < bps@.len() && first_index(bps@, v) == Some(i as int),
            None => first_index(bps@, v) is None,
        },
{
    let mut i: usize = 0;
    while i < bps.len()
        invariant
            0 <= i <= bps@.len(),
            forall|j: int| 0 <= j < i ==> bps@[j] != v,
        decreases bps@.len() - i,
    {
        if bps[i] == v {
            proof {
                let s = bps@;
                assert(0 <= i < s.len() && s[i as int] == v);
                let c = choose|k: int| 0 <= k < s.len() && s[k] == v && forall|j: int| 0 <= j < k ==> s[j] != v;
                assert(0 <= i < s.len() && s[i as int] == v && forall|j: int| 0 <= j < i ==> s[j] != v);
                assert(c == i);
            }
            return Some(i);
        }
        i += 1;
    }
    None
}

impl Debugger {
    /// Removes the first breakpoint that `part` names in hex, if it is set.
    fn remove_named_breakpoint(&mut self, part: &Vec<char>)
        ensures
            final(self)@ == (DebuggerState {
                pc_breakpoints: remove_named(old(self)@.pc_breakpoints, part@),
                ..old(self)@
            }),
    {
        if let Some(v) = parse_number(part, 16, 0xFFFF) {
            if let Some(i) = find_breakpoint(&self.pc_breakpoints, v as u16) {
                self.pc_breakpoints.remove(i);
            }
        }
    }

    /// Reads a command of the debugger prompt. Besides the command it gives back what the
    /// prompt is to print: the breakpoints after a breakpoint command, or that the line is
    /// not understood.
    #[verifier::rlimit(40)]
    pub fn parse(&mut self, raw: String) -> (r: (Option<DebugCmd>, DebugEcho))
        requires
            parse_defined(raw@),
        ensures
            (r.0, r.1, final(self)@) == spec_parse(old(self)@, raw@),
    {
        let chars = chars_of(raw.as_str());
        let t = trim_chars(&chars);
        let parts = split_chars(&t);
        let ghost ps = pieces(parts@);
        assert(ps[0] == parts@[0]@);
        assert(t@ == trim(raw@));
        assert(ps == split_spaces(trim(raw@)));
        if word_is_char(&t, 'q') {
            (Some(DebugCmd::Quit), DebugEcho::Nothing)
        } else if t.len() == 0 {
            self.set_auto_step_count(0);
            (Some(DebugCmd::Step), DebugEcho::Nothing)
        } else if word_is_char(&parts[0], 'n') {
            let auto_step: usize = if parts.len() > 1 {
                assert(ps[1] == parts@[1]@);
                match parse_number(&parts[1], 10, usize::MAX) {
                    Some(v) => v,
                    None => 1,
                }
            } else {
                1
            };
            assert(auto_step == step_count(ps) && auto_step != 0);
            self.set_auto_step_count(auto_step - 1);
            (Some(DebugCmd::Step), DebugEcho::Nothing)
        } else if word_is_char(&t, 'p') {
            (Some(DebugCmd::PrintCpu), DebugEcho::Nothing)
        } else if word_is_char(&t, 'c') {
            (Some(DebugCmd::Continue), DebugEcho::Nothing)
        } else if parts.len() == 2 && word_is_char(&parts[0], 'b') {
            assert(ps[1] == parts@[1]@);
            if let Some(pc) = parse_number(&parts[1], 16, usize::MAX) {
                self.add_breakpoint((pc % 0x10000) as u16);
            }
            (None, DebugEcho::Breakpoints)
        } else if word_is(&t, &['b', '?']) {
            (None, DebugEcho::Breakpoints)
        } else if word_is(&parts[0], &['b', '-']) {
            if parts.len() == 1 {
                self.pc_breakpoints.clear();
            } else {
                let mut i: usize = 1;
                while i < parts.len()
                    invariant
                        1 <= i <= parts@.len(),
                        ps == pieces(parts@),
                        self@ == (DebuggerState {
                            pc_breakpoints: remove_all_named(old(self)@.pc_breakpoints, ps, i as int),
                            ..old(self)@
                        }),
                    decreases parts@.len() - i,
                {
                    assert(ps[i as int] == parts@[i as int]@);
                    self.remove_named_breakpoint(&parts[i]);
                    i += 1;
                }
            }
            (None, DebugEcho::Breakpoints)
        } else if word_is_char(&t, 's') {
            self.set_step_by_step();
            (None, DebugEcho::Nothing)
        } else if word_is(&t, &['h', 'i', 's', 't']) {
            (Some(DebugCmd::PrintOpHistory), DebugEcho::Nothing)
        } else if parts.len() >= 2 && word_is_char(&parts[0], 'm') {
            assert(ps[1] == parts@[1]@);
            let cmd = match parse_number(&parts[1], 16, 0xFFFF) {
                Some(from) => {
                    if parts.len() == 2 {
                        Some(DebugCmd::PrintMemory(from as u16, 1))
                    } else {
                        assert(ps[2] == parts@[2]@);
                        match parse_number(&parts[2], 10, usize::MAX) {
                            Some(len) => Some(DebugCmd::PrintMemory(from as u16, len)),
                            None => None,
                        }
                    }
                },
                None => None,
            };
            (cmd, DebugEcho::Nothing)
        } else if word_is(&t, &['o', 'a', 'm']) {
            (Some(DebugCmd::PrintOam), DebugEcho::Nothing)
        } else {
            (None, DebugEcho::Invalid)
        }
    }
}

/// Whether `parse` accepts a prompt line: a line that asks `n` for zero steps is refused.
pub fn is_parse_defined(raw: &String) -> (r: bool)
    ensures
        r == parse_defined(raw@),
{
    let chars = chars_of(raw.as_str());
    let t = trim_chars(&chars);
    let parts = split_chars(&t);
    let ghost ps = pieces(parts@);
    assert(ps[0] == parts@[0]@);
    if t.len() == 0 || word_is_char(&t, 'q') || !word_is_char(&parts[0], 'n') {
        return true;
    }
    if parts.len() > 1 {
        assert(ps[1] == parts@[1]@);
        match parse_number(&parts[1], 10, usize::MAX) {
            Some(v) => v != 0,
            None => true,
        }
    } else {
        true
    }
}

/// A breakpoint address given in hex, as `u16::from_str_radix(_, 16)` reads it.
pub fn parse_breakpoint_arg(arg: &String) -> (r: Option<u16>)
    ensures
        match r {
            Some(v) => parse_bounded(arg@, 16, 0xFFFF) == Some(v as nat),
            None => parse_bounded(arg@, 16, 0xFFFF) is None,
        },
{
    let chars = chars_of(arg.as_str());
    match parse_number(&chars, 16, 0xFFFF) {
        Some(v) => Some(v as u16),
        None => None,
    }
}

/// A breakpoint at `pc` stops execution there, once no more steps are to be skipped.
pub proof fn lemma_breakpoint_stops(d: DebuggerState, pc: u16)
    requires
        d.auto_step_count == 0,
    ensures
        spec_should_stop(DebuggerState { pc_breakpoints: d.pc_breakpoints.push(pc), ..d }, pc).0,
{
    let bps = d.pc_breakpoints.push(pc);
    assert(bps[bps.len() - 1] == pc);
    assert(bps.contains(pc));
}

/// A break asked from outside stops execution once: the next question at the same place,
/// with nothing else asking to stop, goes on.
pub proof fn lemma_requested_break_once(d: DebuggerState, pc: u16)
    requires
        d.breakpoint_requested,
        d.auto_step_count == 0,
        !d.step_by_step,
        !(pc == 0 && d.break_on_start),
        !d.pc_breakpoints.contains(pc),
        !d.one_time_break,
    ensures
        spec_should_stop(d, pc).0,
        !spec_should_stop(spec_should_stop(d, pc).1, pc).0,
{
}

/// Removing a breakpoint just added, that was not set before, gives the breakpoints back.
pub proof fn lemma_add_then_remove_breakpoint(bps: Seq<u16>, v: u16, part: Seq<char>)
    requires
        parse_bounded(part, 16, 0xFFFF) == Some(v as nat),
        !bps.contains(v),
    ensures
        remove_named(bps.push(v), part) == bps,
{
    let s = bps.push(v);
    let i = bps.len() as int;
    assert(s[i] == v);
    assert(forall|j: int| 0 <= j < i ==> s[j] != v) by {
        assert forall|j: int| 0 <= j < i implies s[j] != v by {
            assert(s[j] == bps[j]);
        }
    }
    let c = choose|k: int| 0 <= k < s.len() && s[k] == v && forall|j: int| 0 <= j < k ==> s[j] != v;
    assert(0 <= i < s.len() && s[i] == v && forall|j: int| 0 <= j < i ==> s[j] != v);
    assert(c == i);
    assert(first_index(s, v) == Some(i));
    assert(s.remove(i) =~= bps);
}

} // verus!
