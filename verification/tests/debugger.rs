use lameboy::debugger::{
    is_parse_defined, parse_breakpoint_arg, DebugCmd, DebugEcho, Debugger,
};

fn parse(d: &mut Debugger, line: &str) -> (Option<DebugCmd>, DebugEcho) {
    d.parse(line.to_string())
}

#[test]
fn simple_commands() {
    let mut d = Debugger::new(false);
    assert_eq!(parse(&mut d, "q"), (Some(DebugCmd::Quit), DebugEcho::Nothing));
    assert_eq!(parse(&mut d, "  q \n"), (Some(DebugCmd::Quit), DebugEcho::Nothing));
    assert_eq!(parse(&mut d, "p"), (Some(DebugCmd::PrintCpu), DebugEcho::Nothing));
    assert_eq!(parse(&mut d, "c"), (Some(DebugCmd::Continue), DebugEcho::Nothing));
    assert_eq!(parse(&mut d, "hist"), (Some(DebugCmd::PrintOpHistory), DebugEcho::Nothing));
    assert_eq!(parse(&mut d, "oam"), (Some(DebugCmd::PrintOam), DebugEcho::Nothing));
    assert_eq!(parse(&mut d, "what"), (None, DebugEcho::Invalid));
    assert_eq!(parse(&mut d, "b"), (None, DebugEcho::Invalid));
    assert_eq!(parse(&mut d, "m"), (None, DebugEcho::Invalid));
}

#[test]
fn stepping_commands() {
    let mut d = Debugger::new(false);
    assert_eq!(parse(&mut d, ""), (Some(DebugCmd::Step), DebugEcho::Nothing));
    // "n 3" runs three instructions: two are skipped without stopping.
    assert_eq!(parse(&mut d, "n 3"), (Some(DebugCmd::Step), DebugEcho::Nothing));
    assert!(!d.should_stop(0x100));
    assert!(!d.should_stop(0x101));
    d.set_step_by_step();
    assert!(d.should_stop(0x102));
    // An unreadable count steps once.
    assert_eq!(parse(&mut d, "n x"), (Some(DebugCmd::Step), DebugEcho::Nothing));
    assert!(d.should_stop(0x103));
    assert_eq!(parse(&mut d, "n"), (Some(DebugCmd::Step), DebugEcho::Nothing));
    assert!(d.should_stop(0x104));
    assert_eq!(parse(&mut d, "s"), (None, DebugEcho::Nothing));
}

#[test]
fn zero_steps_are_refused() {
    assert!(!is_parse_defined(&"n 0".to_string()));
    assert!(!is_parse_defined(&" n +0 ".to_string()));
    assert!(is_parse_defined(&"n 1".to_string()));
    assert!(is_parse_defined(&"n".to_string()));
    assert!(is_parse_defined(&"q".to_string()));
}

#[test]
fn breakpoint_commands() {
    let mut d = Debugger::new(false);
    assert_eq!(parse(&mut d, "b 150"), (None, DebugEcho::Breakpoints));
    assert_eq!(parse(&mut d, "b c0De"), (None, DebugEcho::Breakpoints));
    // Read as a wide number, then cut to 16 bits.
    assert_eq!(parse(&mut d, "b 12345"), (None, DebugEcho::Breakpoints));
    // Unreadable: nothing is added.
    assert_eq!(parse(&mut d, "b zz"), (None, DebugEcho::Breakpoints));
    assert_eq!(d.breakpoints(), &vec![0x150, 0xC0DE, 0x2345]);
    assert_eq!(parse(&mut d, "b?"), (None, DebugEcho::Breakpoints));
    assert_eq!(parse(&mut d, "b- c0de 7777"), (None, DebugEcho::Breakpoints));
    assert_eq!(d.breakpoints(), &vec![0x150, 0x2345]);
    assert_eq!(parse(&mut d, "b-"), (None, DebugEcho::Breakpoints));
    assert!(d.breakpoints().is_empty());
}

#[test]
fn removing_a_breakpoint_removes_its_first_copy() {
    let mut d = Debugger::new(false);
    d.add_breakpoint(1);
    d.add_breakpoint(2);
    d.add_breakpoint(1);
    parse(&mut d, "b- 1");
    assert_eq!(d.breakpoints(), &vec![2, 1]);
}

#[test]
fn memory_commands() {
    let mut d = Debugger::new(false);
    assert_eq!(
        parse(&mut d, "m c000"),
        (Some(DebugCmd::PrintMemory(0xC000, 1)), DebugEcho::Nothing)
    );
    assert_eq!(
        parse(&mut d, "m ff80 16"),
        (Some(DebugCmd::PrintMemory(0xFF80, 16)), DebugEcho::Nothing)
    );
    assert_eq!(parse(&mut d, "m 10000"), (None, DebugEcho::Nothing));
    assert_eq!(parse(&mut d, "m c000 x"), (None, DebugEcho::Nothing));
    // Two spaces make an empty piece, which is no number.
    assert_eq!(parse(&mut d, "m  c000"), (None, DebugEcho::Nothing));
}

#[test]
fn stopping_rules() {
    let mut d = Debugger::new(false);
    assert!(!d.should_stop(0));
    d.set_break_on_start();
    assert!(d.should_stop(0));
    assert!(!d.should_stop(1));
    d.add_breakpoint(0x200);
    assert!(d.should_stop(0x200));
    d.request_one_time_break();
    assert!(d.should_stop(5));
    assert!(!d.should_stop(5));
    d.set_step_by_step();
    assert!(d.should_stop(7));
    d.clear_steps_and_continue();
    assert!(!d.should_stop(7));
}

#[test]
fn a_requested_break_stops_once() {
    let mut d = Debugger::new(true);
    assert!(d.should_stop(0x1234));
    assert!(!d.should_stop(0x1234));
    d.set_breakpoint_requested(true);
    d.set_auto_step_count(1);
    assert!(!d.should_stop(0x10));
    assert!(d.should_stop(0x11));
    assert!(!d.should_stop(0x12));
}

#[test]
fn breakpoint_arguments() {
    assert_eq!(parse_breakpoint_arg(&"0150".to_string()), Some(0x150));
    assert_eq!(parse_breakpoint_arg(&"+FFff".to_string()), Some(0xFFFF));
    assert_eq!(parse_breakpoint_arg(&"10000".to_string()), None);
    assert_eq!(parse_breakpoint_arg(&"".to_string()), None);
    assert_eq!(parse_breakpoint_arg(&"+".to_string()), None);
    assert_eq!(parse_breakpoint_arg(&"-1".to_string()), None);
    assert_eq!(parse_breakpoint_arg(&"12g".to_string()), None);
}
