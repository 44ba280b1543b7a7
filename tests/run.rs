use price_bot::destination::Destination;
use price_bot::message::PriceRecord;
use price_bot::run::{Action, FetchError, Run, RunError};

/// What a driven run asked for and how it ended.
struct Trace {
    fetched: Vec<String>,
    sent: Vec<(String, String)>,
    end: Action,
}

fn destination_text(d: &Destination) -> String {
    match d {
        Destination::SymbolicHandle(h) => h.clone(),
        Destination::NumericId(v) => v.to_string(),
    }
}

/// Drives a run against fake services: `quote` answers each fetch, and every
/// send is recorded and answered by `deliver`.
fn drive(
    assets: &[&str],
    destination: &str,
    quote: impl Fn(&str) -> Result<PriceRecord, FetchError>,
    deliver: Result<(), String>,
) -> Trace {
    let mut run = Run::new(assets.iter().map(|a| a.to_string()).collect(), destination.to_string());
    let mut trace = Trace { fetched: Vec::new(), sent: Vec::new(), end: Action::Done };
    let mut action = run.start();
    loop {
        action = match action {
            Action::Fetch(asset) => {
                trace.fetched.push(asset.clone());
                run.on_fetched(quote(&asset))
            }
            Action::Send { destination, message } => {
                trace.sent.push((destination_text(&destination), message));
                run.on_sent(deliver.clone())
            }
            end => {
                trace.end = end;
                return trace;
            }
        };
    }
}

fn fixed_quotes(asset: &str) -> Result<PriceRecord, FetchError> {
    match asset {
        "btc-bitcoin" => Ok(PriceRecord::new("BTC".to_string(), Some("Bitcoin".to_string()), 6543210)),
        "sol-solana" => Ok(PriceRecord::new("SOL".to_string(), Some("Solana".to_string()), 15025)),
        _ => Err(FetchError::Decode(format!("no quote for {asset}"))),
    }
}

#[test]
fn two_assets_one_message() {
    let t = drive(&["btc-bitcoin", "sol-solana"], "@mychannel", fixed_quotes, Ok(()));
    assert_eq!(t.fetched, vec!["btc-bitcoin", "sol-solana"]);
    assert_eq!(t.sent.len(), 1);
    assert_eq!(t.sent[0].0, "@mychannel");
    assert_eq!(t.sent[0].1, "💰 BTC Price: $65,432.10\n💰 SOL Price: $150.25\n");
    assert_eq!(t.sent[0].1.lines().count(), 2);
    assert!(matches!(t.end, Action::Done));
}

#[test]
fn numeric_destination_is_used() {
    let t = drive(&["sol-solana"], "-1001234567890", fixed_quotes, Ok(()));
    assert_eq!(t.sent, vec![("-1001234567890".to_string(), "💰 SOL Price: $150.25\n".to_string())]);
}

#[test]
fn second_fetch_failure_sends_nothing() {
    let quote = |asset: &str| match asset {
        "btc-bitcoin" => fixed_quotes(asset),
        _ => Err(FetchError::Network("connection refused".to_string())),
    };
    let t = drive(&["btc-bitcoin", "sol-solana"], "@mychannel", quote, Ok(()));
    assert_eq!(t.fetched, vec!["btc-bitcoin", "sol-solana"]);
    assert!(t.sent.is_empty());
    match t.end {
        Action::Abort(RunError::Fetch { asset, error: FetchError::Network(m) }) => {
            assert_eq!(asset, "sol-solana");
            assert_eq!(m, "connection refused");
        }
        _ => panic!("expected the fetch failure"),
    }
}

#[test]
fn first_fetch_failure_stops_at_once() {
    let t = drive(&["nope", "btc-bitcoin"], "@mychannel", fixed_quotes, Ok(()));
    assert_eq!(t.fetched, vec!["nope"]);
    assert!(t.sent.is_empty());
    assert!(matches!(t.end, Action::Abort(RunError::Fetch { error: FetchError::Decode(_), .. })));
}

#[test]
fn unreadable_destination_sends_nothing() {
    let t = drive(&["btc-bitcoin", "sol-solana"], "not-a-channel", fixed_quotes, Ok(()));
    assert!(t.sent.is_empty());
    match t.end {
        Action::Abort(RunError::InvalidDestination(e)) => assert_eq!(e.raw, "not-a-channel"),
        _ => panic!("expected an invalid destination"),
    }
}

#[test]
fn unreadable_destination_and_failed_fetch_send_nothing() {
    let t = drive(&["nope"], "not-a-channel", fixed_quotes, Ok(()));
    assert!(t.sent.is_empty());
    assert!(matches!(t.end, Action::Abort(_)));
}

#[test]
fn no_assets_sends_empty_message() {
    let t = drive(&[], "@mychannel", fixed_quotes, Ok(()));
    assert!(t.fetched.is_empty());
    assert_eq!(t.sent, vec![("@mychannel".to_string(), String::new())]);
}

#[test]
fn delivery_failure_is_reported_once() {
    let t = drive(&["btc-bitcoin"], "@mychannel", fixed_quotes, Err("chat not found".to_string()));
    assert_eq!(t.sent.len(), 1);
    match t.end {
        Action::Abort(RunError::Delivery(m)) => assert_eq!(m, "chat not found"),
        _ => panic!("expected a delivery failure"),
    }
}

#[test]
fn run_state_follows_the_steps() {
    let mut run = Run::new(vec!["btc-bitcoin".to_string()], "@c".to_string());
    assert_eq!(run.fetched, 0);
    assert!(matches!(run.start(), Action::Fetch(ref a) if a == "btc-bitcoin"));
    let a = run.on_fetched(fixed_quotes("btc-bitcoin"));
    assert_eq!(run.fetched, 1);
    assert_eq!(run.message, "💰 BTC Price: $65,432.10\n");
    assert!(matches!(a, Action::Send { .. }));
    assert!(matches!(run.on_sent(Ok(())), Action::Done));
}
