use ctf_tcp_utils::connection_uri;
use ctf_tcp_utils::CtfLoopResponder;
use ctf_tcp_utils::CtfTcpHandlerError;
use ctf_tcp_utils::DEFAULT_TIMEOUT_MS;

type Responder = fn(&str) -> Option<String>;

#[test]
fn new_configuration_is_empty() {
    let c: CtfLoopResponder<Responder> = CtfLoopResponder::new();
    assert_eq!(c.url, None);
    assert_eq!(c.port, None);
    assert_eq!(c.timeout, None);
    assert!(c.responder_func.is_none());
}

#[test]
fn default_matches_new() {
    let c: CtfLoopResponder<Responder> = Default::default();
    assert_eq!(c.url, None);
    assert_eq!(c.port, None);
    assert_eq!(c.timeout, None);
    assert!(c.responder_func.is_none());
}

#[test]
fn localhost_sets_host_and_port() {
    let c: CtfLoopResponder<Responder> = CtfLoopResponder::localhost(4444);
    assert_eq!(c.url, Some("localhost"));
    assert_eq!(c.port, Some(4444));
    assert_eq!(c.timeout, None);
    assert!(c.responder_func.is_none());
}

#[test]
fn setters_update_one_field_each() {
    let c: CtfLoopResponder<Responder> =
        CtfLoopResponder::new().url("example.net").port(7).timeout(250);
    assert_eq!(c.url, Some("example.net"));
    assert_eq!(c.port, Some(7));
    assert_eq!(c.timeout, Some(250));
    assert!(c.responder_func.is_none());
}

#[test]
fn plan_without_host_is_a_configuration_error() {
    let c = CtfLoopResponder::new()
        .port(7)
        .responder_func(|_s: &str| None::<String>);
    assert_eq!(
        c.connection_plan(),
        Err(CtfTcpHandlerError::ConfigurationError)
    );
}

#[test]
fn plan_without_port_is_a_configuration_error() {
    let c = CtfLoopResponder::new()
        .url("example.net")
        .responder_func(|_s: &str| None::<String>);
    assert_eq!(
        c.connection_plan(),
        Err(CtfTcpHandlerError::ConfigurationError)
    );
}

#[test]
fn plan_without_responder_is_a_configuration_error() {
    let c: CtfLoopResponder<Responder> = CtfLoopResponder::new().url("example.net").port(7);
    assert_eq!(
        c.connection_plan(),
        Err(CtfTcpHandlerError::ConfigurationError)
    );
}

#[test]
fn plan_falls_back_to_the_default_timeout() {
    let c = CtfLoopResponder::new()
        .url("example.net")
        .port(7)
        .responder_func(|_s: &str| None::<String>);
    let plan = c.connection_plan().unwrap();
    assert_eq!(plan.url, "example.net");
    assert_eq!(plan.port, 7);
    assert_eq!(plan.timeout, DEFAULT_TIMEOUT_MS);
    assert_eq!(plan.timeout, 1000);
}

#[test]
fn plan_keeps_a_configured_timeout() {
    let c = CtfLoopResponder::new()
        .url("example.net")
        .port(7)
        .timeout(250)
        .responder_func(|_s: &str| None::<String>);
    assert_eq!(c.connection_plan().unwrap().timeout, 250);
}

#[test]
fn respond_applies_the_responder() {
    let c = CtfLoopResponder::new()
        .responder_func(|s: &str| Some(format!("got {s}")));
    assert_eq!(c.respond("hi"), Some("got hi".to_string()));
}

#[test]
fn immediate_decline_returns_both_reads() {
    let c = CtfLoopResponder::new().responder_func(|_s: &str| None::<String>);
    let reads = vec!["first".to_string(), "final".to_string()];
    let outcome = c.work_through(&reads).unwrap();
    assert!(outcome.answers.is_empty());
    assert_eq!(outcome.reads_used, 2);
    assert_eq!(outcome.output, "firstfinal");
}

#[test]
fn acks_until_declined() {
    let c = CtfLoopResponder::new().responder_func(|s: &str| {
        if s == "stop" {
            None
        } else {
            Some("ack".to_string())
        }
    });
    let reads = vec![
        "one".to_string(),
        "two".to_string(),
        "three".to_string(),
        "stop".to_string(),
        "tail".to_string(),
    ];
    let outcome = c.work_through(&reads).unwrap();
    assert_eq!(outcome.answers, vec!["ack", "ack", "ack"]);
    assert_eq!(outcome.reads_used, 5);
    assert_eq!(outcome.output, "stoptail");
}

#[test]
fn exhausted_transcript_yields_nothing() {
    let c = CtfLoopResponder::new().responder_func(|_s: &str| Some("more".to_string()));
    let reads = vec!["a".to_string(), "b".to_string()];
    assert!(c.work_through(&reads).is_none());
}

#[test]
fn declining_the_last_read_without_a_final_drain_yields_nothing() {
    let c = CtfLoopResponder::new().responder_func(|_s: &str| None::<String>);
    let reads = vec!["only".to_string()];
    assert!(c.work_through(&reads).is_none());
}

#[test]
fn connection_uri_joins_host_and_decimal_port() {
    assert_eq!(connection_uri("localhost", 4444), "localhost:4444");
    assert_eq!(connection_uri("example.net", 65535), "example.net:65535");
    assert_eq!(connection_uri("example.net", 0), "example.net:0");
    assert_eq!(connection_uri("", 10), ":10");
}

#[test]
fn error_messages_match_their_kind() {
    assert_eq!(
        CtfTcpHandlerError::ConnectionError.message(),
        "Unable to connect to remote"
    );
    assert_eq!(
        CtfTcpHandlerError::ConfigurationError.message(),
        "Unable to set timeout"
    );
    assert_eq!(CtfTcpHandlerError::ReadError.message(), "Read error");
}
