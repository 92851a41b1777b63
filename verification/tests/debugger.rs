use gb::debugger::{parse_command, split_bounds, to_address, to_value, Command, Debugger};

#[test]
fn hex_values_read_like_from_str_radix() {
    assert_eq!(to_value(b"ff"), Some(0xFF));
    assert_eq!(to_value(b"0A"), Some(0x0A));
    assert_eq!(to_value(b"+1f"), Some(0x1F));
    assert_eq!(to_value(b"100"), None);
    assert_eq!(to_value(b""), None);
    assert_eq!(to_value(b"+"), None);
    assert_eq!(to_value(b"g1"), None);
    assert_eq!(to_address(b"C000"), Some(0xC000));
    assert_eq!(to_address(b"ffff"), Some(0xFFFF));
    assert_eq!(to_address(b"10000"), None);
    assert_eq!(to_address(b"00000001"), Some(1));
    assert_eq!(to_address(b"-1"), None);
}

#[test]
fn lines_split_at_every_space() {
    assert_eq!(split_bounds(b"ba 100"), vec![(0, 2), (3, 6)]);
    assert_eq!(split_bounds(b""), vec![(0, 0)]);
    assert_eq!(split_bounds(b"s  1"), vec![(0, 1), (2, 2), (3, 4)]);
}

#[test]
fn commands_are_parsed() {
    assert_eq!(parse_command(b"l"), Some(Command::List));
    assert_eq!(parse_command(b"list"), Some(Command::List));
    assert_eq!(parse_command(b"clear"), Some(Command::Clear));
    assert_eq!(parse_command(b"c"), Some(Command::Continue));
    assert_eq!(parse_command(b"continue"), Some(Command::Continue));
    assert_eq!(parse_command(b"d"), Some(Command::Display));
    assert_eq!(parse_command(b"s"), Some(Command::Step));
    assert_eq!(parse_command(b"step"), Some(Command::Step));
    assert_eq!(parse_command(b"q"), Some(Command::Quit));
    assert_eq!(parse_command(b"help"), Some(Command::Help));
    assert_eq!(parse_command(b"bo 3e"), Some(Command::BreakOp(0x3E)));
    assert_eq!(parse_command(b"ba 0150"), Some(Command::BreakAddress(0x0150)));
    assert_eq!(parse_command(b"bm FF40"), Some(Command::BreakMemory(0xFF40)));
    assert_eq!(parse_command(b"p cpu"), Some(Command::PrintCpu));
    assert_eq!(parse_command(b"print C000"), Some(Command::Print(0xC000)));
    assert_eq!(parse_command(b"po 100"), Some(Command::PrintOp(0x100)));
    assert_eq!(parse_command(b"watch ff05"), Some(Command::Watch(0xFF05)));
    assert_eq!(parse_command(b"set C000 12"), Some(Command::SetMemory(0xC000, 0x12)));
    assert_eq!(parse_command(b"s C000 12"), Some(Command::SetMemory(0xC000, 0x12)));
}

#[test]
fn bad_commands_are_refused() {
    assert_eq!(parse_command(b""), None);
    assert_eq!(parse_command(b"x"), None);
    assert_eq!(parse_command(b"bo 100"), None);
    assert_eq!(parse_command(b"ba"), None);
    assert_eq!(parse_command(b"l "), None);
    assert_eq!(parse_command(b"s  1 2"), None);
    assert_eq!(parse_command(b"set C000"), None);
    assert_eq!(parse_command(b"set C000 1FF"), None);
    assert_eq!(parse_command(b"p a b c"), None);
}

#[test]
fn commands_change_the_debugger() {
    let mut d = Debugger::new();
    assert!(!d.stepping);
    assert_eq!(d.last_command, b"s".to_vec());

    assert_eq!(d.exec(b"ba 150").map(|r| r.0), Some(Command::BreakAddress(0x150)));
    assert_eq!(d.exec(b"ba 150").map(|r| r.0), Some(Command::BreakAddress(0x150)));
    assert_eq!(d.address_breakpoints, vec![0x150]);
    assert_eq!(d.exec(b"bo cb").map(|r| r.0), Some(Command::BreakOp(0xCB)));
    assert_eq!(d.op_breakpoints, vec![0xCB]);
    assert_eq!(d.exec(b"w ff44").map(|r| r.0), Some(Command::Watch(0xFF44)));
    assert_eq!(d.watches, vec![0xFF44]);

    assert!(d.check_breakpoints(0x150, 0x00, false));
    assert!(d.stepping);
    assert_eq!(d.exec(b"c").map(|r| r.0), Some(Command::Continue));
    assert!(!d.stepping);
    assert!(d.check_breakpoints(0x200, 0xCB, false));
    assert!(!{ let mut e = Debugger::new(); e.check_breakpoints(0x150, 0xCB, false) });
    assert!(d.check_breakpoints(0x200, 0x00, true));

    assert_eq!(d.exec(b"clear").map(|r| r.0), Some(Command::Clear));
    assert!(d.address_breakpoints.is_empty());
    assert!(d.op_breakpoints.is_empty());
    assert_eq!(d.watches, vec![0xFF44]);
    d.breakpoint();
    assert!(d.stepping);
    assert_eq!(d.exec(b"d").map(|r| r.0), Some(Command::Display));
    assert!(!d.stepping);
}

#[test]
fn unknown_lines_change_nothing() {
    let mut d = Debugger::new();
    d.exec(b"ba 10");
    assert_eq!(d.exec(b"ba zz"), None);
    assert_eq!(d.exec(b"c"), Some((Command::Continue, true)));
    assert_eq!(d.exec(b"l"), Some((Command::List, false)));
    assert_eq!(d.address_breakpoints, vec![0x10]);
    assert!(!d.apply(Command::Help));
    assert!(d.apply(Command::Step));
}

#[test]
fn an_empty_line_repeats_the_last_command() {
    let mut d = Debugger::new();
    assert_eq!(d.next_line(b"\n"), b"s".to_vec());
    assert_eq!(d.next_line(b"ba 100\r\n"), b"ba 100".to_vec());
    assert_eq!(d.last_command, b"ba 100".to_vec());
    assert_eq!(d.next_line(b""), b"ba 100".to_vec());
    assert_eq!(d.next_line(b"p\ncpu"), b"pcpu".to_vec());
}
