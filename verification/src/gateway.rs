//! The gateway between the lock's Bluetooth link and the cloud: the HTTP
//! request that reports the lock state, how the answer is read, and which
//! command it passes on to the lock.

use vstd::prelude::*;
use vstd::string::*;
use crate::text::{decimal, decimal_text};

verus! {

/// The state reported for the lock.
#[derive(PartialEq, Eq, Structural, Clone, Copy, Debug)]
pub struct Request {
    pub locked: bool,
}

/// A command that the cloud sends back.
#[derive(PartialEq, Eq, Structural, Clone, Copy, Debug)]
pub enum Command {
    Lock,
    Unlock,
}

/// The answer to a report: a command for the lock.
#[derive(PartialEq, Eq, Structural, Clone, Copy, Debug)]
pub struct Response {
    pub command: Command,
}

/// The HTTP request that reports the lock state: a POST of the JSON body to
/// `url` with the query pairs in order, under basic authentication.
pub struct PublishRequest {
    pub url: String,
    pub query: Vec<(String, String)>,
    pub user: String,
    pub password: String,
    pub body: Request,
}

/// The endpoint of an HTTP base URL at which lock state is reported.
pub open spec fn endpoint_of(http: Seq<char>) -> Seq<char> {
    http + "/v1/lock"@
}

/// Whether an HTTP status code reports success: the 2xx range.
pub open spec fn success_code(status: u16) -> bool {
    200 <= status < 300
}

/// The error that an unsuccessful answer gives: its status, then its body.
pub open spec fn error_message_of(status: Seq<char>, body: Seq<char>) -> Seq<char> {
    "Error response "@ + status + ": "@ + body
}

/// The client side of the cloud's HTTP endpoint for locks.
pub struct Gateway {
    http: String,
    user: String,
    password: String,
}

impl Gateway {
    /// The URL reported to.
    pub closed spec fn url_spec(&self) -> Seq<char> {
        self.http@
    }

    /// The user to authenticate as.
    pub closed spec fn user_spec(&self) -> Seq<char> {
        self.user@
    }

    /// The password to authenticate with.
    pub closed spec fn password_spec(&self) -> Seq<char> {
        self.password@
    }

    /// The URL reported to.
    pub fn url(&self) -> (s: &str)
        ensures
            s@ == self.url_spec(),
    {
        self.http.as_str()
    }

    /// A gateway that reports to the lock endpoint under the base URL `http`.
    pub fn new(http: String, user: String, password: String) -> (g: Gateway)
        ensures
            g.url_spec() == endpoint_of(http@),
            g.user_spec() == user@,
            g.password_spec() == password@,
    {
        let mut url = http;
        url.append("/v1/lock");
        Gateway { http: url, user, password }
    }

    /// The request that reports `data` for `device`, asking the cloud to wait
    /// up to `timeout_secs` seconds for a command: query `as=device` and
    /// `ct=timeout_secs`.
    pub fn publish_request(&self, device: &str, data: &Request, timeout_secs: u64) -> (r: PublishRequest)
        ensures
            r.url@ == self.url_spec(),
            r.query@.len() == 2,
            r.query@[0].0@ == "as"@,
            r.query@[0].1@ == device@,
            r.query@[1].0@ == "ct"@,
            r.query@[1].1@ == decimal(timeout_secs as nat),
            r.user@ == self.user_spec(),
            r.password@ == self.password_spec(),
            r.body == *data,
    {
        let mut query: Vec<(String, String)> = Vec::new();
        query.push((String::from_str("as"), String::from_str(device)));
        query.push((String::from_str("ct"), decimal_text(timeout_secs)));
        PublishRequest {
            url: self.http.clone(),
            query,
            user: self.user.clone(),
            password: self.password.clone(),
            body: *data,
        }
    }
}

/// Whether an HTTP status code reports success.
pub fn is_success(status: u16) -> (r: bool)
    ensures
        r == success_code(status),
        r <==> 200 <= status && status < 300,
{
    200 <= status && status < 300
}

/// `r` is what an answer with `status` (shown as `status_text`), body `body`
/// and body read as `parsed` gives: the error message for a failed status, the
/// command read, if any, for a successful one.
pub open spec fn is_outcome(
    status: u16,
    status_text: Seq<char>,
    body: Seq<char>,
    parsed: Option<Response>,
    r: Result<Option<Response>, String>,
) -> bool {
    if success_code(status) {
        r == Ok::<Option<Response>, String>(parsed)
    } else {
        r matches Err(e) && e@ == error_message_of(status_text, body)
    }
}

/// The command that an outcome passes on to the lock.
pub open spec fn command_of(outcome: Result<Option<Response>, String>) -> Option<Command> {
    match outcome {
        Ok(Some(r)) => Some(r.command),
        _ => None,
    }
}

/// Reads the answer to a report: with status `status` (shown as
/// `status_text`), body `body`, and `parsed` the body read as a `Response`
/// when it reads as one. A failed status gives the error message; a successful
/// one gives the command if there is one.
pub fn publish_outcome(status: u16, status_text: &str, body: &str, parsed: Option<Response>) -> (r: Result<Option<Response>, String>)
    ensures
        is_outcome(status, status_text@, body@, parsed, r),
{
    if !is_success(status) {
        let mut e = String::from_str("Error response ");
        e.append(status_text);
        e.append(": ");
        e.append(body);
        Err(e)
    } else {
        Ok(parsed)
    }
}

/// The command to pass on to the lock after a report: the one the cloud sent,
/// if the report went through and an answer came with one.
pub fn command_to_apply(outcome: &Result<Option<Response>, String>) -> (c: Option<Command>)
    ensures
        c == command_of(*outcome),
{
    match outcome {
        Ok(Some(r)) => Some(r.command),
        _ => None,
    }
}

/// Every status from 200 to 299 is a success and every other is a failure; a
/// successful report whose body held no command gives no command and no error.
pub proof fn lemma_success_is_2xx(
    status: u16,
    status_text: Seq<char>,
    body: Seq<char>,
    r: Result<Option<Response>, String>,
)
    ensures
        success_code(status) <==> 200 <= status && status < 300,
        200 <= status && status < 300 && is_outcome(status, status_text, body, None, r) ==> r == Ok::<Option<Response>, String>(None),
        !(200 <= status && status < 300) && is_outcome(status, status_text, body, None, r) ==> r is Err,
{
}

/// The lock is only told to move when a report went through and the cloud
/// answered with a command, and then it is told that command.
pub proof fn lemma_commands_only_on_success(
    status: u16,
    status_text: Seq<char>,
    body: Seq<char>,
    parsed: Option<Response>,
    r: Result<Option<Response>, String>,
)
    requires
        is_outcome(status, status_text, body, parsed, r),
    ensures
        command_of(r) is Some <==> success_code(status) && parsed is Some,
        command_of(r) is Some ==> command_of(r) == Some(parsed.unwrap().command),
{
}

} // verus!
