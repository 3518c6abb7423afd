//! The interactive shell: a numbered menu is shown, one line of input is
//! read, trimmed and matched exactly against the three choices, and the
//! shell dispatches accordingly or rejects the input and shows the menu
//! again. It terminates only through the explicit exit choice, or when the
//! input stream itself fails.

use vstd::prelude::*;
use vstd::string::*;
use crate::text::views_of;

verus! {

/// An ASCII whitespace byte, as trimmed from a menu line.
pub open spec fn is_space(b: u8) -> bool {
    b == 32 || b == 9 || b == 10 || b == 13
}

/// `s` with every leading whitespace byte removed.
pub open spec fn trim_front(s: Seq<u8>) -> Seq<u8>
    decreases s.len(),
{
    if s.len() > 0 && is_space(s[0]) {
        trim_front(s.drop_first())
    } else {
        s
    }
}

/// `s` with every trailing whitespace byte removed.
pub open spec fn trim_back(s: Seq<u8>) -> Seq<u8>
    decreases s.len(),
{
    if s.len() > 0 && is_space(s.last()) {
        trim_back(s.drop_last())
    } else {
        s
    }
}

/// `s` with whitespace removed from both ends.
pub open spec fn trimmed(s: Seq<u8>) -> Seq<u8> {
    trim_back(trim_front(s))
}

/// One of the menu's choices, or the rejection of anything else.
#[derive(Clone, Copy, Debug, PartialEq, Eq, Structural)]
pub enum MenuChoice {
    Basics,
    Wallet,
    Exit,
    Invalid,
}

/// The choice a trimmed input line selects: exactly "1", "2" or "3", and
/// nothing else.
pub open spec fn choice_of(t: Seq<u8>) -> MenuChoice {
    if t == seq![49u8] {
        MenuChoice::Basics
    } else if t == seq![50u8] {
        MenuChoice::Wallet
    } else if t == seq![51u8] {
        MenuChoice::Exit
    } else {
        MenuChoice::Invalid
    }
}

/// Whether one byte is ASCII whitespace.
fn byte_is_space(b: u8) -> (r: bool)
    ensures
        r == is_space(b),
{
    b == 32 || b == 9 || b == 10 || b == 13
}

/// Trims a raw menu line and matches it against the three choices.
pub fn parse_menu_choice(line: &[u8]) -> (c: MenuChoice)
    ensures
        c == choice_of(trimmed(line@)),
{
    let n: usize = line.len();
    let mut i: usize = 0;
    proof {
        assert(line@.skip(0) =~= line@);
    }
    while i < n && byte_is_space(line[i])
        invariant
            i <= n,
            n == line@.len(),
            trim_front(line@) == trim_front(line@.skip(i as int)),
        decreases n - i,
    {
        proof {
            assert(line@.skip(i as int).drop_first() =~= line@.skip(i as int + 1));
        }
        i = i + 1;
    }
    proof {
        if i == n {
            assert(line@.skip(i as int) =~= Seq::<u8>::empty());
        }
        assert(trim_front(line@) == line@.skip(i as int));
    }
    let mut j: usize = n;
    while j > i && byte_is_space(line[j - 1])
        invariant
            i <= j <= n,
            n == line@.len(),
            trim_front(line@) == line@.skip(i as int),
            trim_back(line@.skip(i as int)) == trim_back(line@.subrange(i as int, j as int)),
        decreases j,
    {
        proof {
            assert(line@.subrange(i as int, j as int).drop_last() =~= line@.subrange(
                i as int,
                j as int - 1,
            ));
        }
        j = j - 1;
    }
    proof {
        if j == i {
            assert(line@.subrange(i as int, j as int) =~= Seq::<u8>::empty());
        }
        assert(trimmed(line@) == line@.subrange(i as int, j as int));
    }
    if j - i == 1 {
        let b: u8 = line[i];
        proof {
            assert(line@.subrange(i as int, j as int) =~= seq![b]);
        }
        if b == 49 {
            MenuChoice::Basics
        } else if b == 50 {
            MenuChoice::Wallet
        } else if b == 51 {
            MenuChoice::Exit
        } else {
            proof {
                assert(seq![b][0] == b);
                assert(seq![49u8][0] == 49u8);
                assert(seq![50u8][0] == 50u8);
                assert(seq![51u8][0] == 51u8);
            }
            MenuChoice::Invalid
        }
    } else {
        proof {
            assert(trimmed(line@).len() != 1);
        }
        MenuChoice::Invalid
    }
}

/// Whether the shell is still at the menu or has terminated.
#[derive(Clone, Copy, Debug, PartialEq, Eq, Structural)]
pub enum ShellState {
    AtMenu,
    Exited,
}

/// What reading the menu prompt produced: one line, or the end of the
/// input stream.
pub enum ShellEvent {
    Line(Vec<u8>),
    EndOfInput,
}

/// What the shell asks its surroundings to do next.
#[derive(Clone, Copy, Debug, PartialEq, Eq, Structural)]
pub enum ShellDirective {
    /// Run the language feature walkthrough, then show the menu again.
    RunBasics,
    /// Run the wallet query flow, then show the menu again.
    RunWallet,
    /// Stop reading input; the printed lines are the last output.
    Stop,
    /// Show the menu again; the input was rejected.
    Reject,
    /// Nothing: the shell had already terminated.
    Idle,
}

/// One step of the shell: the next state, the directive, and the lines to
/// print before acting on the directive.
pub open spec fn spec_shell_step(state: ShellState, event: ShellEvent) -> (ShellState,
    ShellDirective,
    Seq<Seq<char>>,
) {
    if state is Exited {
        (ShellState::Exited, ShellDirective::Idle, Seq::<Seq<char>>::empty())
    } else {
        match event {
            ShellEvent::EndOfInput => (
                ShellState::Exited,
                ShellDirective::Stop,
                seq!["Failed to read input"@],
            ),
            ShellEvent::Line(l) => match choice_of(trimmed(l@)) {
                MenuChoice::Basics => (
                    ShellState::AtMenu,
                    ShellDirective::RunBasics,
                    Seq::<Seq<char>>::empty(),
                ),
                MenuChoice::Wallet => (
                    ShellState::AtMenu,
                    ShellDirective::RunWallet,
                    Seq::<Seq<char>>::empty(),
                ),
                MenuChoice::Exit => (
                    ShellState::Exited,
                    ShellDirective::Stop,
                    seq!["Exiting program. Goodbye!"@],
                ),
                MenuChoice::Invalid => (
                    ShellState::AtMenu,
                    ShellDirective::Reject,
                    seq!["Invalid choice. Please select 1, 2, or 3."@],
                ),
            },
        }
    }
}

/// Takes one shell step on the given input event.
pub fn shell_step(state: ShellState, event: ShellEvent) -> (r: (
    ShellState,
    ShellDirective,
    Vec<String>,
))
    ensures
        r.0 == spec_shell_step(state, event).0,
        r.1 == spec_shell_step(state, event).1,
        views_of(r.2@) == spec_shell_step(state, event).2,
{
    let no_lines: Vec<String> = Vec::new();
    proof {
        assert(views_of(no_lines@) =~= Seq::<Seq<char>>::empty());
    }
    match state {
        ShellState::Exited => (ShellState::Exited, ShellDirective::Idle, no_lines),
        ShellState::AtMenu => match event {
            ShellEvent::EndOfInput => {
                let mut lines = no_lines;
                lines.push(String::from_str("Failed to read input"));
                proof {
                    assert(views_of(lines@) =~= seq!["Failed to read input"@]);
                }
                (ShellState::Exited, ShellDirective::Stop, lines)
            },
            ShellEvent::Line(l) => {
                match parse_menu_choice(l.as_slice()) {
                    MenuChoice::Basics => (ShellState::AtMenu, ShellDirective::RunBasics, no_lines),
                    MenuChoice::Wallet => (ShellState::AtMenu, ShellDirective::RunWallet, no_lines),
                    MenuChoice::Exit => {
                        let mut lines = no_lines;
                        lines.push(String::from_str("Exiting program. Goodbye!"));
                        proof {
                            assert(views_of(lines@) =~= seq!["Exiting program. Goodbye!"@]);
                        }
                        (ShellState::Exited, ShellDirective::Stop, lines)
                    },
                    MenuChoice::Invalid => {
                        let mut lines = no_lines;
                        lines.push(String::from_str("Invalid choice. Please select 1, 2, or 3."));
                        proof {
                            assert(views_of(lines@) =~= seq![
                                "Invalid choice. Please select 1, 2, or 3."@,
                            ]);
                        }
                        (ShellState::AtMenu, ShellDirective::Reject, lines)
                    },
                }
            },
        },
    }
}

/// Each valid trimmed menu input dispatches to exactly its own flow and no
/// other: "1" runs the walkthrough, "2" runs the wallet query flow, "3"
/// stops the shell; the first two leave the shell at the menu.
pub proof fn lemma_menu_dispatch(l: Vec<u8>)
    ensures
        trimmed(l@) == seq![49u8] ==> spec_shell_step(ShellState::AtMenu, ShellEvent::Line(l)) == (
            ShellState::AtMenu,
            ShellDirective::RunBasics,
            Seq::<Seq<char>>::empty(),
        ),
        trimmed(l@) == seq![50u8] ==> spec_shell_step(ShellState::AtMenu, ShellEvent::Line(l)) == (
            ShellState::AtMenu,
            ShellDirective::RunWallet,
            Seq::<Seq<char>>::empty(),
        ),
        trimmed(l@) == seq![51u8] ==> spec_shell_step(ShellState::AtMenu, ShellEvent::Line(l)) == (
            ShellState::Exited,
            ShellDirective::Stop,
            seq!["Exiting program. Goodbye!"@],
        ),
{
    assert(seq![49u8][0] == 49u8);
    assert(seq![50u8][0] == 50u8);
    assert(seq![51u8][0] == 51u8);
}

/// Any other trimmed input is rejected: the shell prints exactly the
/// rejection message, stays at the menu, and directs nothing else, so the
/// menu is shown again with no side effects.
pub proof fn lemma_menu_rejects(l: Vec<u8>)
    requires
        trimmed(l@) != seq![49u8],
        trimmed(l@) != seq![50u8],
        trimmed(l@) != seq![51u8],
    ensures
        spec_shell_step(ShellState::AtMenu, ShellEvent::Line(l)) == (
            ShellState::AtMenu,
            ShellDirective::Reject,
            seq!["Invalid choice. Please select 1, 2, or 3."@],
        ),
{
}

/// Once the shell has exited it consumes no further input and produces no
/// further output: after the goodbye message nothing more is printed.
pub proof fn lemma_exit_terminal(event: ShellEvent)
    ensures
        spec_shell_step(ShellState::Exited, event) == (
            ShellState::Exited,
            ShellDirective::Idle,
            Seq::<Seq<char>>::empty(),
        ),
{
}

} // verus!
