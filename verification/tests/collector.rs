use alloy_consensus::transaction::Recovered;
use alloy_consensus::{Signed, TxEnvelope, TxLegacy};
use alloy_primitives::{Address, Signature, U256};
use fiber_collector::{
    ConnectError, ConnectRequest, Event, FiberCollector, StreamType, VendorItem, FIBER_DEFAULT_URL,
};

/// Stands in for a session handle: the endpoint it was opened against.
#[derive(Debug, PartialEq)]
struct Session(String);

fn open(request: &ConnectRequest) -> Result<Session, String> {
    if request.api_key == "good-key" {
        Ok(Session(request.endpoint.clone()))
    } else {
        Err(String::from("invalid api key"))
    }
}

fn connect(api_key: &str, ty: StreamType) -> Result<FiberCollector<Session>, ConnectError> {
    let api_key = String::from(api_key);
    let connected = open(&ConnectRequest::initial(&api_key));
    FiberCollector::new(api_key, ty, connected)
}

fn recovered(nonce: u64) -> Recovered<TxEnvelope> {
    let tx = TxLegacy { nonce, ..Default::default() };
    let signature = Signature::new(U256::from(1u64), U256::from(2u64), false);
    let envelope = TxEnvelope::Legacy(Signed::new_unhashed(tx, signature));
    Recovered::new_unchecked(envelope, Address::ZERO)
}

#[test]
fn default_endpoint_is_the_beta_service() {
    assert_eq!(FIBER_DEFAULT_URL, "beta.fiberapi.io:8080");
}

#[test]
fn initial_request_names_default_endpoint_and_key() {
    let request = ConnectRequest::initial(&String::from("some-key"));
    assert_eq!(
        request,
        ConnectRequest {
            endpoint: String::from("beta.fiberapi.io:8080"),
            api_key: String::from("some-key"),
        }
    );
}

#[test]
fn new_keeps_session_key_feed_and_default_endpoint() {
    let collector = FiberCollector::new(
        String::from("good-key"),
        StreamType::ExecutionPayloads,
        Ok::<Session, String>(Session(String::from("first"))),
    )
    .expect("a session was handed in");
    assert_eq!(collector.client(), &Session(String::from("first")));
    assert_eq!(collector.endpoint(), "beta.fiberapi.io:8080");
    assert_eq!(collector.stream_type(), StreamType::ExecutionPayloads);
    let request = collector.repoint_request(&String::from("elsewhere:1"));
    assert_eq!(request.api_key, "good-key");
}

#[test]
fn new_without_session_fails_with_endpoint_and_reason() {
    let outcome = FiberCollector::<Session>::new(
        String::from("any"),
        StreamType::Transactions,
        Err(String::from("connection refused")),
    );
    match outcome {
        Err(e) => assert_eq!(
            e,
            ConnectError {
                endpoint: String::from("beta.fiberapi.io:8080"),
                reason: String::from("connection refused"),
            }
        ),
        Ok(_) => panic!("a collector was made without a session"),
    }
}

#[test]
fn invalid_credential_gives_no_collector() {
    let outcome = connect("bad-key", StreamType::Transactions);
    match outcome {
        Err(e) => {
            assert_eq!(e.endpoint, "beta.fiberapi.io:8080");
            assert_eq!(e.reason, "invalid api key");
        }
        Ok(_) => panic!("a collector was made with a rejected key"),
    }
}

#[test]
fn repoint_request_carries_the_held_key() {
    let collector = connect("good-key", StreamType::Transactions).expect("connects");
    let request = collector.repoint_request(&String::from("eu.fiberapi.io:8080"));
    assert_eq!(
        request,
        ConnectRequest {
            endpoint: String::from("eu.fiberapi.io:8080"),
            api_key: String::from("good-key"),
        }
    );
}

#[test]
fn repoint_replaces_session_and_endpoint() {
    let mut collector = connect("good-key", StreamType::Transactions).expect("connects");
    assert_eq!(collector.client(), &Session(String::from("beta.fiberapi.io:8080")));
    let endpoint = String::from("eu.fiberapi.io:8080");
    let connected = open(&collector.repoint_request(&endpoint));
    assert_eq!(collector.set_fiber_endpoint(endpoint, connected), Ok(()));
    assert_eq!(collector.endpoint(), "eu.fiberapi.io:8080");
    assert_eq!(collector.client(), &Session(String::from("eu.fiberapi.io:8080")));
    assert_eq!(collector.stream_type(), StreamType::Transactions);
    let again = collector.repoint_request(&String::from("x:1"));
    assert_eq!(again.api_key, "good-key");
}

#[test]
fn subscriptions_after_repoint_use_the_new_session() {
    let mut collector = connect("good-key", StreamType::ExecutionPayloads).expect("connects");
    {
        let before = collector.get_event_stream();
        assert_eq!(before.session, &Session(String::from("beta.fiberapi.io:8080")));
    }
    let endpoint = String::from("eu.fiberapi.io:8080");
    let connected = open(&collector.repoint_request(&endpoint));
    collector.set_fiber_endpoint(endpoint, connected).expect("repoints");
    let first = collector.get_event_stream();
    assert_eq!(first.session, &Session(String::from("eu.fiberapi.io:8080")));
    let second = collector.get_event_stream();
    assert_eq!(second.session, &Session(String::from("eu.fiberapi.io:8080")));
    assert_eq!(second.events.stream_type(), StreamType::ExecutionPayloads);
}

#[test]
fn failed_repoint_leaves_the_collector_as_it_was() {
    let mut collector = connect("good-key", StreamType::Transactions).expect("connects");
    let outcome = collector.set_fiber_endpoint(
        String::from("down.example:9"),
        Err(String::from("unreachable")),
    );
    assert_eq!(
        outcome,
        Err(ConnectError {
            endpoint: String::from("down.example:9"),
            reason: String::from("unreachable"),
        })
    );
    assert_eq!(collector.endpoint(), "beta.fiberapi.io:8080");
    assert_eq!(collector.client(), &Session(String::from("beta.fiberapi.io:8080")));
    assert_eq!(collector.stream_type(), StreamType::Transactions);
    assert_eq!(collector.get_event_stream().session, &Session(String::from("beta.fiberapi.io:8080")));
}

#[test]
fn event_stream_is_for_the_collectors_feed() {
    let transactions = connect("good-key", StreamType::Transactions).expect("connects");
    let subscription = transactions.get_event_stream();
    assert_eq!(subscription.events.stream_type(), StreamType::Transactions);
    assert!(!subscription.events.has_ended());
    assert_eq!(subscription.session, transactions.client());

    let payloads = connect("good-key", StreamType::ExecutionPayloads).expect("connects");
    let subscription = payloads.get_event_stream();
    assert_eq!(subscription.events.stream_type(), StreamType::ExecutionPayloads);
    assert!(!subscription.events.has_ended());
}

#[test]
fn each_call_opens_a_fresh_stream() {
    let collector = connect("good-key", StreamType::Transactions).expect("connects");
    let mut first = collector.get_event_stream().events;
    assert!(first.next_event(None).is_none());
    assert!(first.has_ended());
    let mut second = collector.get_event_stream().events;
    assert!(!second.has_ended());
    let event = second.next_event(Some(VendorItem::Transaction(recovered(21))));
    assert!(matches!(event, Some(Event::Transaction(_))));
    assert!(first.has_ended());
}

#[test]
fn collector_streams_transactions_end_to_end() {
    let collector = connect("good-key", StreamType::Transactions).expect("connects");
    let mut events = collector.get_event_stream().events;
    let mut nonces = Vec::new();
    for nonce in [1u64, 2, 3] {
        let item = VendorItem::Transaction(recovered(nonce));
        assert_eq!(item.stream_type(), events.stream_type());
        match events.next_event(Some(item)) {
            Some(Event::Transaction(TxEnvelope::Legacy(signed))) => nonces.push(signed.tx().nonce),
            other => panic!("expected a legacy transaction event, got {:?}", other),
        }
    }
    assert_eq!(nonces, vec![1u64, 2, 3]);
}
