use doorlock::server::{event_origin, EventAttribute, EventData, Inspection, Request, Server};

fn server() -> Server {
    Server::new(None, "app1".to_string(), "dev1".to_string())
}

fn attr(name: &str, text: Option<&str>) -> EventAttribute {
    EventAttribute { name: name.to_string(), text: text.map(|t| t.to_string()) }
}

#[test]
fn subscription_topics() {
    assert_eq!(server().subscription_topic(), "app/app1");
    let shared = Server::new(Some("group7".to_string()), "app1".to_string(), "dev1".to_string());
    assert_eq!(shared.subscription_topic(), "$shared/group7/app/app1");
}

#[test]
fn origin_takes_last_string_attributes() {
    let attrs = vec![
        attr("id", Some("1")),
        attr("device", Some("first")),
        attr("application", Some("app1")),
        attr("device", Some("second")),
        attr("device", None),
    ];
    let (application, device) = event_origin(&attrs);
    assert_eq!(application, "app1");
    assert_eq!(device, "second");
}

#[test]
fn origin_empty_when_missing() {
    let (application, device) = event_origin(&vec![attr("id", Some("1")), attr("device", None)]);
    assert_eq!(application, "");
    assert_eq!(device, "");
}

#[test]
fn inspect_reads_cloudevent() {
    let payload = br#"{"specversion":"1.0","id":"42","type":"io.drogue.event.v1","source":"drogue://app1/dev1","application":"app1","device":"dev1","datacontenttype":"application/json","data":"{\"locked\":true}"}"#;
    match server().inspect(payload) {
        Inspection::Event { application, device, data } => {
            assert_eq!(application, "app1");
            assert_eq!(device, "dev1");
            match data {
                EventData::JsonText(t) => assert_eq!(t, "{\"locked\":true}"),
                _ => panic!("expected JSON text"),
            }
        }
        Inspection::Malformed => panic!("expected an event"),
    }
}

#[test]
fn inspect_json_object_data() {
    let payload = br#"{"specversion":"1.0","id":"42","type":"t","source":"s","device":"dev1","datacontenttype":"application/json","data":{"locked":true}}"#;
    match server().inspect(payload) {
        Inspection::Event { application, device, data } => {
            assert_eq!(application, "");
            assert_eq!(device, "dev1");
            assert!(matches!(data, EventData::JsonOther));
        }
        Inspection::Malformed => panic!("expected an event"),
    }
}

#[test]
fn inspect_without_data() {
    let payload = br#"{"specversion":"1.0","id":"42","type":"t","source":"s","application":"app1"}"#;
    match server().inspect(payload) {
        Inspection::Event { application, data, .. } => {
            assert_eq!(application, "app1");
            assert!(matches!(data, EventData::Absent));
        }
        Inspection::Malformed => panic!("expected an event"),
    }
}

#[test]
fn inspect_rejects_garbage() {
    assert!(matches!(server().inspect(b"not json"), Inspection::Malformed));
    assert!(matches!(server().inspect(br#"{"locked":true}"#), Inspection::Malformed));
}

#[test]
fn status_updates_only_for_own_device() {
    let s = server();
    assert_eq!(s.status_update("app1", "dev1", Some(Some(Request { locked: true }))), Some(true));
    assert_eq!(s.status_update("app1", "dev1", Some(Some(Request { locked: false }))), Some(false));
    assert_eq!(s.status_update("app1", "dev2", Some(Some(Request { locked: true }))), None);
    assert_eq!(s.status_update("app2", "dev1", Some(Some(Request { locked: true }))), None);
    assert_eq!(s.status_update("app1", "dev1", Some(None)), None);
    assert_eq!(s.status_update("app1", "dev1", None), None);
}
