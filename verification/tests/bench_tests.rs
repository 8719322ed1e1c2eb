use poolrace::bench::create_tx_sender;
use poolrace::bench::interpret_simulation;
use poolrace::bench::latency_delta;
use poolrace::bench::plan_senders;
use poolrace::bench::summarize_outcomes;
use poolrace::bench::HeightSource;
use poolrace::bench::RpcEntry;
use poolrace::bench::TxMetrics;
use poolrace::config::RpcConfig;
use poolrace::config::RpcType;
use poolrace::wire::RelayError;
use poolrace::wire::TxResult;

fn cfg(url: &str, auth: Option<&str>, kind: RpcType) -> RpcConfig {
    RpcConfig { url: url.to_string(), auth: auth.map(|s| s.to_string()), rpc_type: kind }
}

#[test]
fn direct_and_bundle_senders_need_no_auth() {
    let s = create_tx_sender("main".to_string(), cfg("http://a", None, RpcType::SolanaRpc))
        .expect("direct node sender");
    assert_eq!(s.name, "main");
    assert_eq!(s.url, "http://a");
    assert!(s.auth.is_none());
    assert!(matches!(s.kind, RpcType::SolanaRpc));
    assert_eq!(s.height_source, HeightSource::SubmitEndpoint);

    let j = create_tx_sender("bundles".to_string(), cfg("http://j", Some("x"), RpcType::Jito))
        .expect("bundle sender");
    assert!(matches!(j.kind, RpcType::Jito));
    assert!(j.auth.is_none());
    assert_eq!(j.height_source, HeightSource::SubmitEndpoint);
}

#[test]
fn http_relays_are_omitted_without_an_auth_token() {
    assert!(create_tx_sender("b".to_string(), cfg("http://b", None, RpcType::Bloxroute)).is_none());
    assert!(create_tx_sender("b".to_string(), cfg("http://b", Some(""), RpcType::Bloxroute))
        .is_none());
    assert!(create_tx_sender("n".to_string(), cfg("http://n", None, RpcType::NextBlock)).is_none());
    assert!(create_tx_sender("n".to_string(), cfg("http://n", Some(""), RpcType::NextBlock))
        .is_none());
}

#[test]
fn http_relays_keep_their_auth_token_and_use_the_public_node_for_heights() {
    let b = create_tx_sender("b".to_string(), cfg("http://b", Some("tok"), RpcType::Bloxroute))
        .expect("relay sender");
    assert_eq!(b.auth.as_deref(), Some("tok"));
    assert_eq!(b.height_source, HeightSource::PublicNode);
    let n = create_tx_sender("n".to_string(), cfg("http://n", Some("tok2"), RpcType::NextBlock))
        .expect("relay sender");
    assert_eq!(n.auth.as_deref(), Some("tok2"));
    assert_eq!(n.height_source, HeightSource::PublicNode);
}

#[test]
fn plan_keeps_order_and_drops_unusable_endpoints() {
    let entries = vec![
        RpcEntry { name: "a".to_string(), config: cfg("http://a", None, RpcType::SolanaRpc) },
        RpcEntry { name: "b".to_string(), config: cfg("http://b", None, RpcType::Bloxroute) },
        RpcEntry { name: "c".to_string(), config: cfg("http://c", Some("t"), RpcType::NextBlock) },
        RpcEntry { name: "d".to_string(), config: cfg("http://d", None, RpcType::Jito) },
    ];
    let plan = plan_senders(&entries);
    let names: Vec<String> = plan.iter().map(|s| s.name.clone()).collect();
    assert_eq!(names, vec!["a".to_string(), "c".to_string(), "d".to_string()]);
}

#[test]
fn latency_delta_saturates_and_needs_a_recorded_height() {
    assert_eq!(latency_delta(Some(5), 12), Some(7));
    assert_eq!(latency_delta(Some(12), 5), Some(0));
    assert_eq!(latency_delta(None, 12), None);
}

#[test]
fn simulation_report_reads_error_and_units() {
    let ok = interpret_simulation(None, Some(4242));
    assert!(ok.success);
    assert_eq!(ok.units_consumed, 4242);
    let failed = interpret_simulation(Some("custom program error".to_string()), None);
    assert!(!failed.success);
    assert_eq!(failed.units_consumed, 0);
}

#[test]
fn one_failing_relay_does_not_hide_a_succeeding_one() {
    let outcomes: Vec<Result<TxResult, RelayError>> = vec![
        Err(RelayError::SubmitRejected(b"always fails".to_vec())),
        Ok(TxResult::Signature(b"sig".to_vec())),
    ];
    let summary = summarize_outcomes(&outcomes);
    assert_eq!(summary.attempted, 2);
    assert_eq!(summary.succeeded, 1);
    assert_eq!(summary.failed, 1);
}

#[test]
fn summary_counts_every_attempt() {
    let empty: Vec<Result<TxResult, RelayError>> = vec![];
    let s = summarize_outcomes(&empty);
    assert_eq!((s.attempted, s.succeeded, s.failed), (0, 0, 0));

    let all_ok: Vec<Result<TxResult, RelayError>> = vec![
        Ok(TxResult::Signature(b"a".to_vec())),
        Ok(TxResult::BundleID(b"b".to_vec())),
    ];
    let s = summarize_outcomes(&all_ok);
    assert_eq!((s.attempted, s.succeeded, s.failed), (2, 2, 0));

    let all_err: Vec<Result<TxResult, RelayError>> = vec![
        Err(RelayError::SerializeFailed),
        Err(RelayError::InvalidSignature(b"x".to_vec())),
        Err(RelayError::SubmitRejected(b"y".to_vec())),
    ];
    let s = summarize_outcomes(&all_err);
    assert_eq!((s.attempted, s.succeeded, s.failed), (3, 0, 3));
}

#[test]
fn metrics_hold_the_logged_fields() {
    let m = TxMetrics {
        rpc_name: "main".to_string(),
        signature: "sig".to_string(),
        index: 0,
        success: true,
        slot_sent: 10,
        slot_landed: Some(12),
        slot_latency: Some(2),
        elapsed: Some(35),
    };
    assert!(m.success);
    assert_eq!(m.slot_latency, Some(2));
}
