use wallet_shell::shell::{
    parse_menu_choice, shell_step, MenuChoice, ShellDirective, ShellEvent, ShellState,
};

#[test]
fn menu_one_dispatches_basics() {
    let (state, directive, lines) = shell_step(ShellState::AtMenu, ShellEvent::Line(b"1\n".to_vec()));
    assert_eq!(state, ShellState::AtMenu);
    assert_eq!(directive, ShellDirective::RunBasics);
    assert!(lines.is_empty());
}

#[test]
fn menu_two_dispatches_wallet() {
    let (state, directive, lines) =
        shell_step(ShellState::AtMenu, ShellEvent::Line(b"  2  \r\n".to_vec()));
    assert_eq!(state, ShellState::AtMenu);
    assert_eq!(directive, ShellDirective::RunWallet);
    assert!(lines.is_empty());
}

#[test]
fn menu_three_stops_with_goodbye() {
    let (state, directive, lines) = shell_step(ShellState::AtMenu, ShellEvent::Line(b"3\n".to_vec()));
    assert_eq!(state, ShellState::Exited);
    assert_eq!(directive, ShellDirective::Stop);
    assert_eq!(lines, vec![String::from("Exiting program. Goodbye!")]);
}

#[test]
fn menu_rejects_other_input() {
    for raw in [&b"x\n"[..], &b"12\n"[..], &b"\n"[..], &b"one\n"[..], &b"4\n"[..]] {
        let (state, directive, lines) = shell_step(ShellState::AtMenu, ShellEvent::Line(raw.to_vec()));
        assert_eq!(state, ShellState::AtMenu);
        assert_eq!(directive, ShellDirective::Reject);
        assert_eq!(lines, vec![String::from("Invalid choice. Please select 1, 2, or 3.")]);
    }
}

#[test]
fn menu_one_then_other_input_returns_to_menu() {
    let (state, directive, _) = shell_step(ShellState::AtMenu, ShellEvent::Line(b"1\n".to_vec()));
    assert_eq!(directive, ShellDirective::RunBasics);
    let (state, directive, _) = shell_step(state, ShellEvent::Line(b"nope\n".to_vec()));
    assert_eq!(state, ShellState::AtMenu);
    assert_eq!(directive, ShellDirective::Reject);
}

#[test]
fn exit_is_terminal() {
    let (state, _, _) = shell_step(ShellState::AtMenu, ShellEvent::Line(b"3\n".to_vec()));
    let (state, directive, lines) = shell_step(state, ShellEvent::Line(b"1\n".to_vec()));
    assert_eq!(state, ShellState::Exited);
    assert_eq!(directive, ShellDirective::Idle);
    assert!(lines.is_empty());
}

#[test]
fn end_of_input_stops_with_diagnostic() {
    let (state, directive, lines) = shell_step(ShellState::AtMenu, ShellEvent::EndOfInput);
    assert_eq!(state, ShellState::Exited);
    assert_eq!(directive, ShellDirective::Stop);
    assert_eq!(lines, vec![String::from("Failed to read input")]);
}

#[test]
fn parse_trims_whitespace() {
    assert_eq!(parse_menu_choice(b" \t3\r\n"), MenuChoice::Exit);
    assert_eq!(parse_menu_choice(b"1"), MenuChoice::Basics);
    assert_eq!(parse_menu_choice(b"2\n"), MenuChoice::Wallet);
}

#[test]
fn parse_rejects_non_menu_input() {
    assert_eq!(parse_menu_choice(b""), MenuChoice::Invalid);
    assert_eq!(parse_menu_choice(b"   "), MenuChoice::Invalid);
    assert_eq!(parse_menu_choice(b"33"), MenuChoice::Invalid);
    assert_eq!(parse_menu_choice(b"0"), MenuChoice::Invalid);
    assert_eq!(parse_menu_choice(b"1 2"), MenuChoice::Invalid);
}
