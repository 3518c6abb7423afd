use wallet_shell::balance::format_balance;
use wallet_shell::flow::{endpoint_url, flow_init, flow_step, FlowEvent, FlowRequest, FlowState};
use wallet_shell::history::render_signatures;
use wallet_shell::keystore::default_keypair_path;

fn sigs(names: &[&str]) -> Vec<String> {
    names.iter().map(|s| s.to_string()).collect()
}

#[test]
fn balance_formats_exact_values() {
    assert_eq!(format_balance(2_500_000_000), "2.5");
    assert_eq!(format_balance(0), "0");
    assert_eq!(format_balance(1), "0.000000001");
    assert_eq!(format_balance(2_000_000_000), "2");
    assert_eq!(format_balance(1_234_567_890), "1.23456789");
    assert_eq!(format_balance(999_999_999), "0.999999999");
    assert_eq!(format_balance(u64::MAX), "18446744073.709551615");
}

#[test]
fn empty_history_renders_notice() {
    let lines = render_signatures(&sigs(&[]));
    assert_eq!(lines, vec![String::from("No recent transactions found.")]);
}

#[test]
fn short_history_renders_every_entry() {
    let lines = render_signatures(&sigs(&["aa", "bb", "cc"]));
    assert_eq!(
        lines,
        vec![
            String::from("1. Signature: aa"),
            String::from("2. Signature: bb"),
            String::from("3. Signature: cc"),
        ]
    );
}

#[test]
fn long_history_renders_first_five() {
    let lines = render_signatures(&sigs(&["a", "b", "c", "d", "e", "f", "g"]));
    assert_eq!(
        lines,
        vec![
            String::from("1. Signature: a"),
            String::from("2. Signature: b"),
            String::from("3. Signature: c"),
            String::from("4. Signature: d"),
            String::from("5. Signature: e"),
        ]
    );
}

#[test]
fn credential_failure_aborts_before_any_query() {
    let state = flow_init();
    let (state, request, lines) =
        flow_step(state, FlowEvent::CredentialErr(String::from("/tmp/nowhere/id.json")));
    assert_eq!(state, FlowState::Aborted);
    assert_eq!(request, FlowRequest::Finish);
    assert_eq!(
        lines,
        vec![
            String::from("Failed to read keypair from /tmp/nowhere/id.json"),
            String::from("Make sure you've created a wallet using 'solana-keygen new'"),
        ]
    );
    let (state, request, lines) = flow_step(state, FlowEvent::BalanceOk(7));
    assert_eq!(state, FlowState::Aborted);
    assert_eq!(request, FlowRequest::Finish);
    assert!(lines.is_empty());
}

#[test]
fn successful_flow_runs_in_fixed_order() {
    let state = flow_init();
    let (state, request, lines) = flow_step(state, FlowEvent::CredentialOk(String::from("PK")));
    assert_eq!(state, FlowState::AwaitBalance);
    assert_eq!(request, FlowRequest::FetchBalance);
    assert_eq!(lines, vec![String::from("Wallet Public Key: PK")]);

    let (state, request, lines) = flow_step(state, FlowEvent::BalanceOk(2_500_000_000));
    assert_eq!(state, FlowState::AwaitBlockhash);
    assert_eq!(request, FlowRequest::FetchBlockhash);
    assert_eq!(lines, vec![String::from("Balance: 2.5 SOL")]);

    let (state, request, lines) = flow_step(state, FlowEvent::BlockhashOk(String::from("HASH")));
    assert_eq!(state, FlowState::AwaitHistory);
    assert_eq!(request, FlowRequest::FetchHistory);
    assert_eq!(lines, vec![String::from("Recent blockhash: HASH")]);

    let (state, request, lines) = flow_step(state, FlowEvent::HistoryOk(sigs(&["s1", "s2"])));
    assert_eq!(state, FlowState::Done);
    assert_eq!(request, FlowRequest::Finish);
    assert_eq!(
        lines,
        vec![
            String::new(),
            String::from("Recent Transactions:"),
            String::from("1. Signature: s1"),
            String::from("2. Signature: s2"),
        ]
    );
}

#[test]
fn empty_history_is_distinct_from_error() {
    let (_, _, ok_lines) = flow_step(FlowState::AwaitHistory, FlowEvent::HistoryOk(sigs(&[])));
    assert_eq!(
        ok_lines,
        vec![
            String::new(),
            String::from("Recent Transactions:"),
            String::from("No recent transactions found."),
        ]
    );
    let (state, request, err_lines) =
        flow_step(FlowState::AwaitHistory, FlowEvent::HistoryErr(String::from("timeout")));
    assert_eq!(state, FlowState::Done);
    assert_eq!(request, FlowRequest::Finish);
    assert_eq!(err_lines, vec![String::from("Failed to get transaction history: timeout")]);
}

#[test]
fn balance_error_does_not_stop_the_flow() {
    let (state, request, lines) =
        flow_step(FlowState::AwaitBalance, FlowEvent::BalanceErr(String::from("rpc down")));
    assert_eq!(state, FlowState::AwaitBlockhash);
    assert_eq!(request, FlowRequest::FetchBlockhash);
    assert_eq!(lines, vec![String::from("Failed to get balance: rpc down")]);
}

#[test]
fn blockhash_error_aborts_the_flow() {
    let (state, request, lines) =
        flow_step(FlowState::AwaitBlockhash, FlowEvent::BlockhashErr(String::from("rpc down")));
    assert_eq!(state, FlowState::Aborted);
    assert_eq!(request, FlowRequest::Finish);
    assert_eq!(lines, vec![String::from("Failed to get recent blockhash: rpc down")]);
}

#[test]
fn mismatched_event_changes_nothing() {
    let (state, request, lines) =
        flow_step(FlowState::AwaitBalance, FlowEvent::CredentialOk(String::from("PK")));
    assert_eq!(state, FlowState::AwaitBalance);
    assert_eq!(request, FlowRequest::FetchBalance);
    assert!(lines.is_empty());
}

#[test]
fn endpoint_is_the_fixed_devnet_url() {
    assert_eq!(endpoint_url(), "https://api.devnet.solana.com");
}

#[test]
fn default_path_ends_with_the_fixed_suffix() {
    let path = default_keypair_path();
    assert!(path.ends_with("/.config/solana/id.json"));
}
