use vstd::prelude::*;
use vstd::utf8::{decode_utf8, valid_utf8};

verus! {

/// The severity a request's log record is written at.
pub enum LogLevel {
    Info,
    Warn,
}

/// What is known of one request and its response before the body is read.
pub struct Exchange {
    pub client: String,
    pub method: String,
    pub target: String,
    pub status: u16,
}

/// One log record of a request. `body` holds the response body's text when
/// it was captured.
pub struct AuditRecord {
    pub level: LogLevel,
    pub client: String,
    pub method: String,
    pub target: String,
    pub status: u16,
    pub body: Option<String>,
}

/// A status in the success class.
pub open spec fn is_success_status(status: u16) -> bool {
    200 <= status < 300
}

/// Whether a response of this status counts as success.
pub fn is_success(status: u16) -> (r: bool)
    ensures
        r == is_success_status(status),
{
    200 <= status && status < 300
}

/// Whether the body of a response of this status is to be captured and logged.
pub fn wants_body(status: u16) -> (r: bool)
    ensures
        r == !is_success_status(status),
{
    !is_success(status)
}

/// Who sent a request: the forwarded-for header, else the peer address, else `-`.
pub open spec fn identity_of(forwarded: Option<String>, peer: Option<String>) -> Seq<char> {
    match forwarded {
        Some(f) => f@,
        None => match peer {
            Some(p) => p@,
            None => "-"@,
        },
    }
}

pub fn client_identity(forwarded: Option<String>, peer: Option<String>) -> (r: String)
    ensures
        r@ == identity_of(forwarded, peer),
{
    match forwarded {
        Some(f) => f,
        None => match peer {
            Some(p) => p,
            None => String::from_str("-"),
        },
    }
}

/// The path of a request followed by its query, if it has one.
pub open spec fn target_of(path: Seq<char>, query: Option<Seq<char>>) -> Seq<char> {
    match query {
        Some(q) => path + "?"@ + q,
        None => path,
    }
}

pub fn request_target(path: &str, query: Option<&str>) -> (r: String)
    ensures
        r@ == target_of(
            path@,
            match query {
                Some(q) => Some(q@),
                None => None,
            },
        ),
{
    let mut t = String::from_str(path);
    if let Some(q) = query {
        t.append("?");
        t.append(q);
    }
    t
}

pub open spec fn level_of(status: u16) -> LogLevel {
    if is_success_status(status) {
        LogLevel::Info
    } else {
        LogLevel::Warn
    }
}

/// Relies on `std::str::from_utf8`: it succeeds exactly on valid UTF-8, and
/// the text then decodes those bytes.
#[verifier::external_body]
fn utf8_text(bytes: &[u8]) -> (r: Option<String>)
    ensures
        r is Some <==> valid_utf8(bytes@),
        r matches Some(t) ==> t@ == decode_utf8(bytes@),
{
    std::str::from_utf8(bytes).ok().map(String::from)
}

/// The decimal digit `d` as a character.
pub open spec fn digit_char(d: nat) -> char {
    if d == 0 { '0' }
    else if d == 1 { '1' }
    else if d == 2 { '2' }
    else if d == 3 { '3' }
    else if d == 4 { '4' }
    else if d == 5 { '5' }
    else if d == 6 { '6' }
    else if d == 7 { '7' }
    else if d == 8 { '8' }
    else { '9' }
}

/// The decimal writing of `n`, without leading zeros.
pub open spec fn decimal_of(n: nat) -> Seq<char>
    decreases n,
{
    if n < 10 {
        seq![digit_char(n)]
    } else {
        decimal_of(n / 10).push(digit_char(n % 10))
    }
}

fn digit_text(d: u16) -> (r: &'static str)
    requires
        d < 10,
    ensures
        r@ == seq![digit_char(d as nat)],
{
    proof {
        reveal_strlit("0");
        reveal_strlit("1");
        reveal_strlit("2");
        reveal_strlit("3");
        reveal_strlit("4");
        reveal_strlit("5");
        reveal_strlit("6");
        reveal_strlit("7");
        reveal_strlit("8");
        reveal_strlit("9");
    }
    if d == 0 { "0" }
    else if d == 1 { "1" }
    else if d == 2 { "2" }
    else if d == 3 { "3" }
    else if d == 4 { "4" }
    else if d == 5 { "5" }
    else if d == 6 { "6" }
    else if d == 7 { "7" }
    else if d == 8 { "8" }
    else { "9" }
}

/// A status code written in decimal.
pub fn decimal(n: u16) -> (r: String)
    ensures
        r@ == decimal_of(n as nat),
    decreases n,
{
    if n < 10 {
        String::from_str(digit_text(n))
    } else {
        let mut s = decimal(n / 10);
        s.append(digit_text(n % 10));
        s
    }
}

/// The text of a log record: client, method, target and status, separated
/// by single spaces, then `: ` and the body when one was captured.
pub open spec fn message_of(r: AuditRecord) -> Seq<char> {
    let head = r.client@ + " "@ + r.method@ + " "@ + r.target@ + " "@ + decimal_of(
        r.status as nat,
    );
    match r.body {
        Some(b) => head + ": "@ + b@,
        None => head,
    }
}

impl AuditRecord {
    pub fn message(&self) -> (r: String)
        ensures
            r@ == message_of(*self),
    {
        let mut m = self.client.clone();
        m.append(" ");
        m.append(self.method.as_str());
        m.append(" ");
        m.append(self.target.as_str());
        m.append(" ");
        let code = decimal(self.status);
        m.append(code.as_str());
        if let Some(b) = &self.body {
            m.append(": ");
            m.append(b.as_str());
        }
        m
    }
}

/// The record of an exchange whose body is not captured.
pub fn audit_record(exchange: Exchange) -> (r: AuditRecord)
    ensures
        r.level == level_of(exchange.status),
        r.client@ == exchange.client@,
        r.method@ == exchange.method@,
        r.target@ == exchange.target@,
        r.status == exchange.status,
        r.body is None,
{
    let level = if is_success(exchange.status) {
        LogLevel::Info
    } else {
        LogLevel::Warn
    };
    AuditRecord {
        level,
        client: exchange.client,
        method: exchange.method,
        target: exchange.target,
        status: exchange.status,
        body: None,
    }
}

/// The record of an exchange together with its captured response body, and
/// that same body to hand on to the client: the record holds the body's text
/// when it is UTF-8, and the body comes back byte for byte as it was taken.
pub fn audit_with_body(exchange: Exchange, body: Vec<u8>) -> (r: (AuditRecord, Vec<u8>))
    ensures
        r.1@ == body@,
        r.0.level == level_of(exchange.status),
        r.0.client@ == exchange.client@,
        r.0.method@ == exchange.method@,
        r.0.target@ == exchange.target@,
        r.0.status == exchange.status,
        r.0.body is Some <==> valid_utf8(body@),
        r.0.body matches Some(t) ==> t@ == decode_utf8(body@),
{
    let text = utf8_text(body.as_slice());
    let mut record = audit_record(exchange);
    record.body = text;
    (record, body)
}

} // verus!
