//! The wallet query flow: after the connection handle is built, the
//! credential is loaded, then balance, latest block reference and signature
//! history are fetched in that fixed order. A credential failure or a block
//! reference failure aborts the remaining steps; a balance or history
//! failure is reported and the flow continues. Every outcome is rendered as
//! console lines.

use vstd::prelude::*;
use vstd::string::*;
use crate::balance::{balance_display, format_balance};
use crate::history::{render_signatures, rendered_history};
use crate::text::{lemma_views_of_push, views_of};

verus! {

/// Which answer the flow is waiting for, or how it ended.
#[derive(Clone, Copy, Debug, PartialEq, Eq, Structural)]
pub enum FlowState {
    AwaitCredential,
    AwaitBalance,
    AwaitBlockhash,
    AwaitHistory,
    Done,
    Aborted,
}

/// What the flow asks its surroundings to perform next. Everything but
/// `Finish` is one blocking call to the outside: the credential file read,
/// or one remote query.
#[derive(Clone, Copy, Debug, PartialEq, Eq, Structural)]
pub enum FlowRequest {
    LoadCredential,
    FetchBalance,
    FetchBlockhash,
    FetchHistory,
    /// Nothing remains: return to the menu.
    Finish,
}

/// The outcome of the call the flow last asked for. Error payloads are the
/// rendered message of the outside failure.
pub enum FlowEvent {
    /// The credential decoded; the payload is its public identifier.
    CredentialOk(String),
    /// The credential file was missing or malformed; the payload is its path.
    CredentialErr(String),
    /// The balance in raw units.
    BalanceOk(u64),
    BalanceErr(String),
    /// The latest block reference, rendered.
    BlockhashOk(String),
    BlockhashErr(String),
    /// The recent signatures, most recent first.
    HistoryOk(Vec<String>),
    HistoryErr(String),
}

/// The call that answers a state, used when an event does not belong to
/// the current state: the flow then stands still and asks again.
pub open spec fn pending_request(state: FlowState) -> FlowRequest {
    match state {
        FlowState::AwaitCredential => FlowRequest::LoadCredential,
        FlowState::AwaitBalance => FlowRequest::FetchBalance,
        FlowState::AwaitBlockhash => FlowRequest::FetchBlockhash,
        FlowState::AwaitHistory => FlowRequest::FetchHistory,
        FlowState::Done => FlowRequest::Finish,
        FlowState::Aborted => FlowRequest::Finish,
    }
}

/// Whether an event answers the call a state is waiting for.
pub open spec fn event_fits(state: FlowState, event: FlowEvent) -> bool {
    match (state, event) {
        (FlowState::AwaitCredential, FlowEvent::CredentialOk(_)) => true,
        (FlowState::AwaitCredential, FlowEvent::CredentialErr(_)) => true,
        (FlowState::AwaitBalance, FlowEvent::BalanceOk(_)) => true,
        (FlowState::AwaitBalance, FlowEvent::BalanceErr(_)) => true,
        (FlowState::AwaitBlockhash, FlowEvent::BlockhashOk(_)) => true,
        (FlowState::AwaitBlockhash, FlowEvent::BlockhashErr(_)) => true,
        (FlowState::AwaitHistory, FlowEvent::HistoryOk(_)) => true,
        (FlowState::AwaitHistory, FlowEvent::HistoryErr(_)) => true,
        _ => false,
    }
}

/// One step of the flow: the next state, the next request, and the lines
/// to print. An event that does not answer the current state changes
/// nothing and prints nothing.
pub open spec fn spec_flow_step(state: FlowState, event: FlowEvent) -> (FlowState,
    FlowRequest,
    Seq<Seq<char>>,
) {
    if !event_fits(state, event) {
        (state, pending_request(state), Seq::<Seq<char>>::empty())
    } else {
        match event {
            FlowEvent::CredentialOk(pk) => (
                FlowState::AwaitBalance,
                FlowRequest::FetchBalance,
                seq!["Wallet Public Key: "@ + pk@],
            ),
            FlowEvent::CredentialErr(path) => (
                FlowState::Aborted,
                FlowRequest::Finish,
                seq![
                    "Failed to read keypair from "@ + path@,
                    "Make sure you've created a wallet using 'solana-keygen new'"@,
                ],
            ),
            FlowEvent::BalanceOk(raw) => (
                FlowState::AwaitBlockhash,
                FlowRequest::FetchBlockhash,
                seq!["Balance: "@ + balance_display(raw as nat) + " SOL"@],
            ),
            FlowEvent::BalanceErr(e) => (
                FlowState::AwaitBlockhash,
                FlowRequest::FetchBlockhash,
                seq!["Failed to get balance: "@ + e@],
            ),
            FlowEvent::BlockhashOk(h) => (
                FlowState::AwaitHistory,
                FlowRequest::FetchHistory,
                seq!["Recent blockhash: "@ + h@],
            ),
            FlowEvent::BlockhashErr(e) => (
                FlowState::Aborted,
                FlowRequest::Finish,
                seq!["Failed to get recent blockhash: "@ + e@],
            ),
            FlowEvent::HistoryOk(sigs) => (
                FlowState::Done,
                FlowRequest::Finish,
                seq![""@, "Recent Transactions:"@] + rendered_history(views_of(sigs@)),
            ),
            FlowEvent::HistoryErr(e) => (
                FlowState::Done,
                FlowRequest::Finish,
                seq!["Failed to get transaction history: "@ + e@],
            ),
        }
    }
}

/// The fixed endpoint the connection handle is built from. Building the
/// handle performs no I/O and always succeeds; every remote call is made
/// lazily against this URL.
pub fn endpoint_url() -> (url: String)
    ensures
        url@ == "https://api.devnet.solana.com"@,
{
    String::from_str("https://api.devnet.solana.com")
}

/// The state the flow starts in, once the connection handle is built.
pub fn flow_init() -> (s: FlowState)
    ensures
        s == FlowState::AwaitCredential,
        pending_request(s) == FlowRequest::LoadCredential,
{
    FlowState::AwaitCredential
}

/// Builds one line from a fixed prefix and a payload.
fn prefixed_line(prefix: &str, payload: &str) -> (line: String)
    ensures
        line@ == prefix@ + payload@,
{
    let mut line = String::from_str(prefix);
    line.append(payload);
    line
}

/// Takes one flow step on the given outcome.
pub fn flow_step(state: FlowState, event: FlowEvent) -> (r: (FlowState, FlowRequest, Vec<String>))
    ensures
        r.0 == spec_flow_step(state, event).0,
        r.1 == spec_flow_step(state, event).1,
        views_of(r.2@) == spec_flow_step(state, event).2,
{
    let no_lines: Vec<String> = Vec::new();
    proof {
        assert(views_of(no_lines@) =~= Seq::<Seq<char>>::empty());
    }
    match (state, event) {
        (FlowState::AwaitCredential, FlowEvent::CredentialOk(pk)) => {
            let mut lines = no_lines;
            let ghost pk_chars = pk@;
            lines.push(prefixed_line("Wallet Public Key: ", pk.as_str()));
            proof {
                assert(views_of(lines@) =~= seq!["Wallet Public Key: "@ + pk_chars]);
            }
            (FlowState::AwaitBalance, FlowRequest::FetchBalance, lines)
        },
        (FlowState::AwaitCredential, FlowEvent::CredentialErr(path)) => {
            let mut lines = no_lines;
            let ghost path_chars = path@;
            lines.push(prefixed_line("Failed to read keypair from ", path.as_str()));
            lines.push(String::from_str("Make sure you've created a wallet using 'solana-keygen new'"));
            proof {
                assert(views_of(lines@) =~= seq![
                    "Failed to read keypair from "@ + path_chars,
                    "Make sure you've created a wallet using 'solana-keygen new'"@,
                ]);
            }
            (FlowState::Aborted, FlowRequest::Finish, lines)
        },
        (FlowState::AwaitBalance, FlowEvent::BalanceOk(raw)) => {
            let mut lines = no_lines;
            let formatted = format_balance(raw);
            let mut line = prefixed_line("Balance: ", formatted.as_str());
            line.append(" SOL");
            lines.push(line);
            proof {
                assert(views_of(lines@) =~= seq![
                    "Balance: "@ + balance_display(raw as nat) + " SOL"@,
                ]);
            }
            (FlowState::AwaitBlockhash, FlowRequest::FetchBlockhash, lines)
        },
        (FlowState::AwaitBalance, FlowEvent::BalanceErr(e)) => {
            let mut lines = no_lines;
            let ghost e_chars = e@;
            lines.push(prefixed_line("Failed to get balance: ", e.as_str()));
            proof {
                assert(views_of(lines@) =~= seq!["Failed to get balance: "@ + e_chars]);
            }
            (FlowState::AwaitBlockhash, FlowRequest::FetchBlockhash, lines)
        },
        (FlowState::AwaitBlockhash, FlowEvent::BlockhashOk(h)) => {
            let mut lines = no_lines;
            let ghost h_chars = h@;
            lines.push(prefixed_line("Recent blockhash: ", h.as_str()));
            proof {
                assert(views_of(lines@) =~= seq!["Recent blockhash: "@ + h_chars]);
            }
            (FlowState::AwaitHistory, FlowRequest::FetchHistory, lines)
        },
        (FlowState::AwaitBlockhash, FlowEvent::BlockhashErr(e)) => {
            let mut lines = no_lines;
            let ghost e_chars = e@;
            lines.push(prefixed_line("Failed to get recent blockhash: ", e.as_str()));
            proof {
                assert(views_of(lines@) =~= seq!["Failed to get recent blockhash: "@ + e_chars]);
            }
            (FlowState::Aborted, FlowRequest::Finish, lines)
        },
        (FlowState::AwaitHistory, FlowEvent::HistoryOk(sigs)) => {
            let mut lines = no_lines;
            let ghost sig_views = views_of(sigs@);
            lines.push(String::new());
            lines.push(String::from_str("Recent Transactions:"));
            let mut rendered = render_signatures(&sigs);
            let ghost head = lines@;
            let mut k: usize = 0;
            while k < rendered.len()
                invariant
                    k <= rendered@.len(),
                    views_of(rendered@) == rendered_history(sig_views),
                    views_of(lines@) =~= views_of(head) + views_of(rendered@).take(k as int),
                decreases rendered@.len() - k,
            {
                let ghost line_chars = rendered@[k as int]@;
                let line = rendered[k].clone();
                proof {
                    lemma_views_of_push(lines@, line);
                    assert(views_of(rendered@).take(k as int + 1) =~= views_of(rendered@).take(
                        k as int,
                    ).push(line_chars));
                }
                lines.push(line);
                k = k + 1;
            }
            proof {
                reveal_strlit("");
                assert(views_of(rendered@).take(rendered@.len() as int) =~= views_of(rendered@));
                assert(""@ =~= Seq::<char>::empty());
                assert(views_of(head) =~= seq![""@, "Recent Transactions:"@]);
                assert(views_of(lines@) =~= seq![""@, "Recent Transactions:"@] + rendered_history(
                    sig_views,
                ));
            }
            (FlowState::Done, FlowRequest::Finish, lines)
        },
        (FlowState::AwaitHistory, FlowEvent::HistoryErr(e)) => {
            let mut lines = no_lines;
            let ghost e_chars = e@;
            lines.push(prefixed_line("Failed to get transaction history: ", e.as_str()));
            proof {
                assert(views_of(lines@) =~= seq!["Failed to get transaction history: "@ + e_chars]);
            }
            (FlowState::Done, FlowRequest::Finish, lines)
        },
        (s, _) => {
            let request = match s {
                FlowState::AwaitCredential => FlowRequest::LoadCredential,
                FlowState::AwaitBalance => FlowRequest::FetchBalance,
                FlowState::AwaitBlockhash => FlowRequest::FetchBlockhash,
                FlowState::AwaitHistory => FlowRequest::FetchHistory,
                FlowState::Done => FlowRequest::Finish,
                FlowState::Aborted => FlowRequest::Finish,
            };
            (s, request, no_lines)
        },
    }
}

/// A credential decode failure aborts the flow at once: the very first
/// answer being the failure leaves the flow aborted with nothing further
/// to perform, so no remote call is ever requested.
pub proof fn lemma_credential_failure_aborts(path: String)
    ensures
        spec_flow_step(FlowState::AwaitCredential, FlowEvent::CredentialErr(path)).0
            == FlowState::Aborted,
        spec_flow_step(FlowState::AwaitCredential, FlowEvent::CredentialErr(path)).1
            == FlowRequest::Finish,
{
}

/// An aborted flow stays aborted: whatever arrives, it requests nothing
/// but `Finish` and prints nothing.
pub proof fn lemma_aborted_is_terminal(event: FlowEvent)
    ensures
        spec_flow_step(FlowState::Aborted, event) == (
            FlowState::Aborted,
            FlowRequest::Finish,
            Seq::<Seq<char>>::empty(),
        ),
{
}

/// Before the credential has decoded, the flow never asks for a remote
/// query: from `AwaitCredential`, only a successful credential event can
/// make the next request one of the three fetches.
pub proof fn lemma_no_query_before_credential(event: FlowEvent)
    ensures
        spec_flow_step(FlowState::AwaitCredential, event).1 == FlowRequest::LoadCredential
            || spec_flow_step(FlowState::AwaitCredential, event).1 == FlowRequest::Finish
            || event is CredentialOk,
{
}

} // verus!
