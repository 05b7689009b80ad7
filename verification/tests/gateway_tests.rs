use doorlock::gateway::{command_to_apply, is_success, publish_outcome, Command, Gateway, Request, Response};
use doorlock::text::decimal_text;

fn gateway() -> Gateway {
    Gateway::new("https://http.example.com".to_string(), "user1".to_string(), "secret".to_string())
}

#[test]
fn endpoint_url() {
    assert_eq!(gateway().url(), "https://http.example.com/v1/lock");
}

#[test]
fn publish_request_fields() {
    let r = gateway().publish_request("AA:BB:CC:DD:EE:FF", &Request { locked: true }, 30);
    assert_eq!(r.url, "https://http.example.com/v1/lock");
    assert_eq!(
        r.query,
        vec![("as".to_string(), "AA:BB:CC:DD:EE:FF".to_string()), ("ct".to_string(), "30".to_string())]
    );
    assert_eq!(r.user, "user1");
    assert_eq!(r.password, "secret");
    assert_eq!(r.body, Request { locked: true });
}

#[test]
fn decimal_matches_format() {
    for n in [0u64, 7, 10, 30, 99, 100, 12345, u64::MAX] {
        assert_eq!(decimal_text(n), format!("{}", n));
    }
}

#[test]
fn success_range() {
    assert!(!is_success(199));
    assert!(is_success(200));
    assert!(is_success(204));
    assert!(is_success(299));
    assert!(!is_success(300));
    assert!(!is_success(404));
}

#[test]
fn failed_report_gives_error() {
    let r = publish_outcome(503, "503 Service Unavailable", "try later", None);
    assert_eq!(r, Err("Error response 503 Service Unavailable: try later".to_string()));
    assert_eq!(command_to_apply(&r), None);
}

#[test]
fn successful_report_passes_command() {
    let r = publish_outcome(200, "200 OK", "{\"command\":\"Unlock\"}", Some(Response { command: Command::Unlock }));
    assert_eq!(r, Ok(Some(Response { command: Command::Unlock })));
    assert_eq!(command_to_apply(&r), Some(Command::Unlock));
    let r = publish_outcome(202, "202 Accepted", "", None);
    assert_eq!(r, Ok(None));
    assert_eq!(command_to_apply(&r), None);
}
