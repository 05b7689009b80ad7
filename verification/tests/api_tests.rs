use doorlock::api::{error_body, health_body, toggle_command, ApiServer, Command, DeviceResponse, HttpMethod, Route};

#[test]
fn health_check() {
    assert_eq!(doorlock::api::route(HttpMethod::Get, "/healthz", false), Route::Health);
    assert_eq!(health_body(), "{\"status\": \"OK\"}");
}

#[test]
fn index_offers_the_opposite_of_the_state() {
    assert_eq!(doorlock::api::route(HttpMethod::Get, "/", true), Route::Index(Command::Unlock));
    assert_eq!(doorlock::api::route(HttpMethod::Get, "/", false), Route::Index(Command::Lock));
    assert_eq!(toggle_command(true).label(), "Unlock");
    assert_eq!(toggle_command(true).path(), "/doorlock/unlock");
    assert_eq!(toggle_command(false).label(), "Lock");
    assert_eq!(toggle_command(false).path(), "/doorlock/lock");
}

#[test]
fn posts_publish_commands() {
    assert_eq!(doorlock::api::route(HttpMethod::Post, "/doorlock/lock", true), Route::Publish(Command::Lock));
    assert_eq!(doorlock::api::route(HttpMethod::Post, "/doorlock/unlock", false), Route::Publish(Command::Unlock));
}

#[test]
fn button_leads_where_it_says() {
    for locked in [false, true] {
        let c = toggle_command(locked);
        assert_eq!(doorlock::api::route(HttpMethod::Post, c.path(), !locked), Route::Publish(c));
    }
}

#[test]
fn everything_else_is_not_found() {
    assert_eq!(doorlock::api::route(HttpMethod::Get, "/doorlock/lock", false), Route::NotFound);
    assert_eq!(doorlock::api::route(HttpMethod::Post, "/", false), Route::NotFound);
    assert_eq!(doorlock::api::route(HttpMethod::Other, "/doorlock/unlock", true), Route::NotFound);
    assert_eq!(doorlock::api::route(HttpMethod::Get, "/doorlock/state", true), Route::NotFound);
    assert_eq!(doorlock::api::route(HttpMethod::Get, "/healthz/", true), Route::NotFound);
}

#[test]
fn command_topic_is_shared_by_both_commands() {
    let s = ApiServer::new("app1".to_string(), "dev1".to_string(), 8080);
    assert_eq!(s.command_topic(), "command/app1/dev1/lock");
    assert_eq!(s.port(), 8080);
    assert_eq!(s.address(), ([0, 0, 0, 0], 8080));
    assert_eq!(s.route(HttpMethod::Post, "/doorlock/unlock", true), Route::Publish(Command::Unlock));
}

#[test]
fn error_body_format() {
    assert_eq!(error_body("\"boom\""), "{\"status\": \"ERROR\", \"description\": \"boom\"\"}");
}

#[test]
fn device_response_holds_command() {
    let r = DeviceResponse { command: Command::Lock };
    assert_eq!(r.command, Command::Lock);
}
