//! The web API of the door lock: which page or action a request asks for, and
//! the MQTT topic and bodies that answering it takes.

use vstd::prelude::*;
use vstd::string::*;
use crate::text::text_eq;

verus! {

/// A command sent to the door lock.
#[derive(PartialEq, Eq, Structural, Clone, Copy, Debug)]
pub enum Command {
    Lock,
    Unlock,
}

/// The message published to the device: the command to carry out.
#[derive(PartialEq, Eq, Structural, Clone, Copy, Debug)]
pub struct DeviceResponse {
    pub command: Command,
}

/// The HTTP methods that the API tells apart.
#[derive(PartialEq, Eq, Structural, Clone, Copy, Debug)]
pub enum HttpMethod {
    Get,
    Post,
    Other,
}

/// What answering a request takes.
#[derive(PartialEq, Eq, Structural, Clone, Copy, Debug)]
pub enum Route {
    /// The health check: answer with the health body.
    Health,
    /// The index page, whose single button issues the given command.
    Index(Command),
    /// Publish the given command to the device, then show the action page.
    Publish(Command),
    /// Answer with status 404 and an empty body.
    NotFound,
}

/// The command that the lock's button offers: unlock when locked, else lock.
pub open spec fn toggle_of(locked: bool) -> Command {
    if locked { Command::Unlock } else { Command::Lock }
}

/// The label of the button that issues a command.
pub open spec fn label_of(c: Command) -> Seq<char> {
    match c {
        Command::Lock => "Lock"@,
        Command::Unlock => "Unlock"@,
    }
}

/// The path to which a command is posted.
pub open spec fn path_of(c: Command) -> Seq<char> {
    match c {
        Command::Lock => "/doorlock/lock"@,
        Command::Unlock => "/doorlock/unlock"@,
    }
}

/// Where a request goes, given the current lock state.
pub open spec fn route_of(method: HttpMethod, path: Seq<char>, locked: bool) -> Route {
    match method {
        HttpMethod::Get => {
            if path == "/healthz"@ {
                Route::Health
            } else if path == "/"@ {
                Route::Index(toggle_of(locked))
            } else {
                Route::NotFound
            }
        },
        HttpMethod::Post => {
            if path == "/doorlock/lock"@ {
                Route::Publish(Command::Lock)
            } else if path == "/doorlock/unlock"@ {
                Route::Publish(Command::Unlock)
            } else {
                Route::NotFound
            }
        },
        HttpMethod::Other => Route::NotFound,
    }
}

/// The command that the lock's button offers in the given state.
pub fn toggle_command(locked: bool) -> (c: Command)
    ensures
        c == toggle_of(locked),
{
    if locked { Command::Unlock } else { Command::Lock }
}

impl Command {
    /// The label of the button that issues this command.
    pub fn label(&self) -> (s: &'static str)
        ensures
            s@ == label_of(*self),
    {
        match self {
            Command::Lock => "Lock",
            Command::Unlock => "Unlock",
        }
    }

    /// The path to which this command is posted.
    pub fn path(&self) -> (s: &'static str)
        ensures
            s@ == path_of(*self),
    {
        match self {
            Command::Lock => "/doorlock/lock",
            Command::Unlock => "/doorlock/unlock",
        }
    }
}

/// Decides what answering a request with `method` on `path` takes, when the
/// lock is last known to be `locked`.
pub fn route(method: HttpMethod, path: &str, locked: bool) -> (r: Route)
    ensures
        r == route_of(method, path@, locked),
        method == HttpMethod::Get && path@ == "/healthz"@ ==> r == Route::Health,
        method == HttpMethod::Get && path@ == "/"@ ==> r == Route::Index(if locked { Command::Unlock } else { Command::Lock }),
        method == HttpMethod::Post && path@ == "/doorlock/lock"@ ==> r == Route::Publish(Command::Lock),
        method == HttpMethod::Post && path@ == "/doorlock/unlock"@ ==> r == Route::Publish(Command::Unlock),
{
    proof { lemma_routing_table(path@, locked); }
    match method {
        HttpMethod::Get => {
            if text_eq(path, "/healthz") {
                Route::Health
            } else if text_eq(path, "/") {
                Route::Index(toggle_command(locked))
            } else {
                Route::NotFound
            }
        },
        HttpMethod::Post => {
            if text_eq(path, "/doorlock/lock") {
                Route::Publish(Command::Lock)
            } else if text_eq(path, "/doorlock/unlock") {
                Route::Publish(Command::Unlock)
            } else {
                Route::NotFound
            }
        },
        HttpMethod::Other => Route::NotFound,
    }
}

/// The body of the health check.
pub fn health_body() -> (s: String)
    ensures
        s@ == "{\"status\": \"OK\"}"@,
{
    String::from_str("{\"status\": \"OK\"}")
}

/// The body that reports a failed publish; `description` is the error as
/// debug-formatted text. The body ends as the service has always sent it,
/// with a stray quote before the closing brace.
pub fn error_body(description: &str) -> (s: String)
    ensures
        s@ == "{\"status\": \"ERROR\", \"description\": "@ + description@ + "\"}"@,
{
    let mut s = String::from_str("{\"status\": \"ERROR\", \"description\": ");
    s.append(description);
    s.append("\"}");
    s
}

/// The topic on which commands for `device` of `application` are published;
/// locking and unlocking use the same topic.
pub open spec fn command_topic_of(application: Seq<char>, device: Seq<char>) -> Seq<char> {
    "command/"@ + application + "/"@ + device + "/lock"@
}

/// The HTTP front of the door lock of one device of one application.
pub struct ApiServer {
    port: u16,
    application: String,
    device: String,
}

impl ApiServer {
    /// The port the server listens on.
    pub closed spec fn port_spec(&self) -> u16 {
        self.port
    }

    /// The application whose device the server controls.
    pub closed spec fn application_spec(&self) -> Seq<char> {
        self.application@
    }

    /// The device that the server controls.
    pub closed spec fn device_spec(&self) -> Seq<char> {
        self.device@
    }

    /// The port the server listens on.
    pub fn port(&self) -> (p: u16)
        ensures
            p == self.port_spec(),
    {
        self.port
    }

    /// A server for `device` of `application`, listening on `port`.
    pub fn new(application: String, device: String, port: u16) -> (s: ApiServer)
        ensures
            s.port_spec() == port,
            s.application_spec() == application@,
            s.device_spec() == device@,
    {
        ApiServer { port, application, device }
    }

    /// The address to listen on: every interface, at the server's port.
    pub fn address(&self) -> (a: ([u8; 4], u16))
        ensures
            a.0@ == seq![0u8, 0u8, 0u8, 0u8],
            a.1 == self.port_spec(),
    {
        ([0, 0, 0, 0], self.port)
    }

    /// The topic that commands for the server's device go to.
    pub fn command_topic(&self) -> (t: String)
        ensures
            t@ == command_topic_of(self.application_spec(), self.device_spec()),
    {
        let mut t = String::from_str("command/");
        t.append(self.application.as_str());
        t.append("/");
        t.append(self.device.as_str());
        t.append("/lock");
        t
    }

    /// What answering a request takes, when the lock is last known to be
    /// `locked`.
    pub fn route(&self, method: HttpMethod, path: &str, locked: bool) -> (r: Route)
        ensures
            r == route_of(method, path@, locked),
    {
        route(method, path, locked)
    }
}

/// The index page's button leads where it says: posting to the path of the
/// offered command publishes that command, whatever the lock state is then;
/// the command offered is the opposite of the lock state.
pub proof fn lemma_button_publishes_its_command(locked: bool, later: bool)
    ensures
        route_of(HttpMethod::Get, "/"@, locked) == Route::Index(toggle_of(locked)),
        route_of(HttpMethod::Post, path_of(toggle_of(locked)), later) == Route::Publish(toggle_of(locked)),
        (toggle_of(locked) == Command::Unlock) == locked,
{
    reveal_strlit("/");
    reveal_strlit("/healthz");
    reveal_strlit("/doorlock/lock");
    reveal_strlit("/doorlock/unlock");
    assert("/"@.len() != "/healthz"@.len());
    assert("/doorlock/unlock"@.len() != "/doorlock/lock"@.len());
}

/// The routing table, for every lock state: GET /healthz is the health check,
/// GET / the index page offering to unlock when locked and to lock otherwise,
/// POST /doorlock/lock and POST /doorlock/unlock publish those commands, and
/// every other request is not found.
pub proof fn lemma_routing_table(path: Seq<char>, locked: bool)
    ensures
        route_of(HttpMethod::Get, "/healthz"@, locked) == Route::Health,
        route_of(HttpMethod::Get, "/"@, locked) == Route::Index(if locked { Command::Unlock } else { Command::Lock }),
        route_of(HttpMethod::Post, "/doorlock/lock"@, locked) == Route::Publish(Command::Lock),
        route_of(HttpMethod::Post, "/doorlock/unlock"@, locked) == Route::Publish(Command::Unlock),
        path != "/healthz"@ && path != "/"@ ==> route_of(HttpMethod::Get, path, locked) == Route::NotFound,
        path != "/doorlock/lock"@ && path != "/doorlock/unlock"@ ==> route_of(HttpMethod::Post, path, locked) == Route::NotFound,
        route_of(HttpMethod::Other, path, locked) == Route::NotFound,
{
    reveal_strlit("/");
    reveal_strlit("/healthz");
    reveal_strlit("/doorlock/lock");
    reveal_strlit("/doorlock/unlock");
    assert("/"@.len() != "/healthz"@.len());
    assert("/doorlock/unlock"@.len() != "/doorlock/lock"@.len());
}

/// A request with a method other than GET or POST is never served.
pub proof fn lemma_other_methods_not_found(path: Seq<char>, locked: bool)
    ensures
        route_of(HttpMethod::Other, path, locked) == Route::NotFound,
{
}

} // verus!
