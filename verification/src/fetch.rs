//! Reduction of one poll cycle's two HTTP round trips to a single
//! result-or-error.
//!
//! The HTTP client itself lives outside the library; it hands in an
//! [`HttpOutcome`] per request — the response status and body, or a
//! transport error. [`do_fetch`] turns the two outcomes of a cycle
//! (status endpoint, metadata endpoint) into one [`FetchResult`]: both
//! payloads on full success, otherwise an error description and empty
//! payloads — a half-successful cycle counts as a failure and nothing
//! of it is kept.

use vstd::prelude::*;
use vstd::string::StringExecFns;

use crate::json::{json_of, JsonError, JsonErrorV};
use crate::models::{
    metadata_empty, parse_metadata, parse_status, spec_metadata, spec_status, status_empty,
    DeserializationError, DeserializationErrorV, Metadata, MetadataV, Status, StatusV,
};

verus! {

/// What one HTTP round trip produced: a response (any status code), or
/// a transport-level failure described by the client.
#[derive(Debug)]
pub enum HttpOutcome {
    Response { code: u16, body: String },
    TransportError(String),
}

pub enum HttpOutcomeV {
    Response { code: u16, body: Seq<char> },
    TransportError(Seq<char>),
}

impl View for HttpOutcome {
    type V = HttpOutcomeV;

    open spec fn view(&self) -> HttpOutcomeV {
        match self {
            HttpOutcome::Response { code, body } => HttpOutcomeV::Response {
                code: *code,
                body: body@,
            },
            HttpOutcome::TransportError(m) => HttpOutcomeV::TransportError(m@),
        }
    }
}

/// Why one round trip failed to produce a payload.
#[derive(Debug)]
pub enum FetchError {
    /// The request itself failed; carries the client's description.
    Transport(String),
    /// The server answered outside the 2xx range.
    HttpStatus(u16),
    /// The body was not the expected payload.
    Payload(DeserializationError),
}

pub enum FetchErrorV {
    Transport(Seq<char>),
    HttpStatus(u16),
    Payload(DeserializationErrorV),
}

impl View for FetchError {
    type V = FetchErrorV;

    open spec fn view(&self) -> FetchErrorV {
        match self {
            FetchError::Transport(m) => FetchErrorV::Transport(m@),
            FetchError::HttpStatus(c) => FetchErrorV::HttpStatus(*c),
            FetchError::Payload(e) => FetchErrorV::Payload(e@),
        }
    }
}

/// One poll cycle's outcome as the session state consumes it.
#[derive(Debug)]
pub struct FetchResult {
    pub status: Status,
    pub metadata: Metadata,
    pub error: Option<String>,
}

pub open spec fn ok_code(code: u16) -> bool {
    200 <= code < 300
}

/// The characters of one decimal digit.
pub open spec fn digit_lit(d: int) -> Seq<char> {
    if d == 0 {
        "0"@
    } else if d == 1 {
        "1"@
    } else if d == 2 {
        "2"@
    } else if d == 3 {
        "3"@
    } else if d == 4 {
        "4"@
    } else if d == 5 {
        "5"@
    } else if d == 6 {
        "6"@
    } else if d == 7 {
        "7"@
    } else if d == 8 {
        "8"@
    } else {
        "9"@
    }
}

/// The decimal digits of a non-negative number.
pub open spec fn spec_digits(n: int) -> Seq<char>
    decreases n,
{
    if n < 10 {
        digit_lit(n)
    } else {
        spec_digits(n / 10) + digit_lit(n % 10)
    }
}

fn digit_str(d: u16) -> (r: &'static str)
    requires
        d < 10,
    ensures
        r@ == digit_lit(d as int),
{
    if d == 0 {
        "0"
    } else if d == 1 {
        "1"
    } else if d == 2 {
        "2"
    } else if d == 3 {
        "3"
    } else if d == 4 {
        "4"
    } else if d == 5 {
        "5"
    } else if d == 6 {
        "6"
    } else if d == 7 {
        "7"
    } else if d == 8 {
        "8"
    } else {
        "9"
    }
}

/// Renders a number in decimal.
pub fn u16_to_string(n: u16) -> (r: String)
    ensures
        r@ == spec_digits(n as int),
    decreases n,
{
    if n < 10 {
        digit_str(n).to_owned()
    } else {
        let mut s = u16_to_string(n / 10);
        s.append(digit_str(n % 10));
        s
    }
}

/// The description of a structural mismatch, as shown to the operator.
pub open spec fn spec_json_error_message(e: JsonErrorV) -> Seq<char> {
    match e {
        JsonErrorV::NotAnObject => "payload is not an object"@,
        JsonErrorV::MissingField(f) => "missing member "@ + f,
        JsonErrorV::WrongType(f) => "wrong type for member "@ + f,
        JsonErrorV::BadDuration(f) => "invalid duration in member "@ + f,
    }
}

pub fn json_error_message(e: &JsonError) -> (r: String)
    ensures
        r@ == spec_json_error_message(e@),
{
    match e {
        JsonError::NotAnObject => "payload is not an object".to_owned(),
        JsonError::MissingField(f) => {
            let mut s = "missing member ".to_owned();
            s.append(f.as_str());
            s
        },
        JsonError::WrongType(f) => {
            let mut s = "wrong type for member ".to_owned();
            s.append(f.as_str());
            s
        },
        JsonError::BadDuration(f) => {
            let mut s = "invalid duration in member ".to_owned();
            s.append(f.as_str());
            s
        },
    }
}

/// The description of a failed round trip, as shown to the operator.
pub open spec fn spec_fetch_error_message(e: FetchErrorV) -> Seq<char> {
    match e {
        FetchErrorV::Transport(m) => "network error: "@ + m,
        FetchErrorV::HttpStatus(c) => "unexpected HTTP status "@ + spec_digits(c as int),
        FetchErrorV::Payload(DeserializationErrorV::Syntax(m)) => "invalid JSON: "@ + m,
        FetchErrorV::Payload(DeserializationErrorV::Structure(je)) => "unexpected payload: "@
            + spec_json_error_message(je),
    }
}

pub fn fetch_error_message(e: &FetchError) -> (r: String)
    ensures
        r@ == spec_fetch_error_message(e@),
{
    match e {
        FetchError::Transport(m) => {
            let mut s = "network error: ".to_owned();
            s.append(m.as_str());
            s
        },
        FetchError::HttpStatus(c) => {
            let mut s = "unexpected HTTP status ".to_owned();
            let digits = u16_to_string(*c);
            s.append(digits.as_str());
            s
        },
        FetchError::Payload(DeserializationError::Syntax(m)) => {
            let mut s = "invalid JSON: ".to_owned();
            s.append(m.as_str());
            s
        },
        FetchError::Payload(DeserializationError::Structure(je)) => {
            let mut s = "unexpected payload: ".to_owned();
            let detail = json_error_message(je);
            s.append(detail.as_str());
            s
        },
    }
}

/// The URL of the status endpoint under a profile's base URL.
pub fn status_url(base: &str) -> (r: String)
    ensures
        r@ == base@ + "/api/2/status"@,
{
    let mut s = base.to_owned();
    s.append("/api/2/status");
    s
}

/// The URL of the metadata endpoint under a profile's base URL.
pub fn metadata_url(base: &str) -> (r: String)
    ensures
        r@ == base@ + "/api/2/metadata"@,
{
    let mut s = base.to_owned();
    s.append("/api/2/metadata");
    s
}

/// The value of the authorization header: the profile's bearer token.
pub fn bearer_header(token: &str) -> (r: String)
    ensures
        r@ == "Bearer "@ + token@,
{
    let mut s = "Bearer ".to_owned();
    s.append(token);
    s
}

/// The user-agent value identifying this client and its version.
pub fn user_agent(version: &str) -> (r: String)
    ensures
        r@ == "aleph-tui/"@ + version@,
{
    let mut s = "aleph-tui/".to_owned();
    s.append(version);
    s
}

/// Reads the status endpoint's outcome: `Ok` exactly when the request
/// went through, the server answered 2xx, and the body is a
/// well-formed status payload.
pub fn eval_status(o: HttpOutcome) -> (r: Result<Status, FetchError>)
    ensures
        o@ matches HttpOutcomeV::TransportError(m) ==> (r matches Err(e) && e@
            == FetchErrorV::Transport(m)),
        o@ matches HttpOutcomeV::Response { code, body } ==> (!ok_code(code) ==> (
        r matches Err(e) && e@ == FetchErrorV::HttpStatus(code))),
        o@ matches HttpOutcomeV::Response { code, body } ==> (ok_code(code) && json_of(body)
            is None ==> (r matches Err(e) && e@ matches FetchErrorV::Payload(
            DeserializationErrorV::Syntax(_),
        ))),
        o@ matches HttpOutcomeV::Response { code, body } ==> (ok_code(code) ==> (json_of(body)
            matches Some(j) ==> (match r {
            Ok(st) => spec_status(j) == Ok::<StatusV, JsonErrorV>(st.deep_view()),
            Err(e) => e@ matches FetchErrorV::Payload(DeserializationErrorV::Structure(je))
                && spec_status(j) == Err::<StatusV, JsonErrorV>(je),
        }))),
{
    match o {
        HttpOutcome::TransportError(m) => Err(FetchError::Transport(m)),
        HttpOutcome::Response { code, body } => {
            if !(code >= 200 && code < 300) {
                Err(FetchError::HttpStatus(code))
            } else {
                match parse_status(body.as_str()) {
                    Ok(st) => Ok(st),
                    Err(de) => Err(FetchError::Payload(de)),
                }
            }
        },
    }
}

/// Reads the metadata endpoint's outcome, as [`eval_status`] does for
/// the status endpoint.
pub fn eval_metadata(o: HttpOutcome) -> (r: Result<Metadata, FetchError>)
    ensures
        o@ matches HttpOutcomeV::TransportError(m) ==> (r matches Err(e) && e@
            == FetchErrorV::Transport(m)),
        o@ matches HttpOutcomeV::Response { code, body } ==> (!ok_code(code) ==> (
        r matches Err(e) && e@ == FetchErrorV::HttpStatus(code))),
        o@ matches HttpOutcomeV::Response { code, body } ==> (ok_code(code) && json_of(body)
            is None ==> (r matches Err(e) && e@ matches FetchErrorV::Payload(
            DeserializationErrorV::Syntax(_),
        ))),
        o@ matches HttpOutcomeV::Response { code, body } ==> (ok_code(code) ==> (json_of(body)
            matches Some(j) ==> (match r {
            Ok(md) => spec_metadata(j) == Ok::<MetadataV, JsonErrorV>(md.deep_view()),
            Err(e) => e@ matches FetchErrorV::Payload(DeserializationErrorV::Structure(je))
                && spec_metadata(j) == Err::<MetadataV, JsonErrorV>(je),
        }))),
{
    match o {
        HttpOutcome::TransportError(m) => Err(FetchError::Transport(m)),
        HttpOutcome::Response { code, body } => {
            if !(code >= 200 && code < 300) {
                Err(FetchError::HttpStatus(code))
            } else {
                match parse_metadata(body.as_str()) {
                    Ok(md) => Ok(md),
                    Err(de) => Err(FetchError::Payload(de)),
                }
            }
        },
    }
}

/// Reduces the two endpoint results to one fetch result: both payloads
/// on full success; otherwise the first error's description — the
/// status endpoint's error takes priority — and empty payloads, so a
/// half-successful cycle applies nothing.
pub fn combine_fetch(st: Result<Status, FetchError>, md: Result<Metadata, FetchError>) -> (r:
    FetchResult)
    ensures
        st matches Ok(s) ==> (md matches Ok(m) ==> (r.status == s && r.metadata == m && r.error
            is None)),
        st matches Err(e) ==> (status_empty(r.status) && metadata_empty(r.metadata) && (
        r.error matches Some(msg) && msg@ == spec_fetch_error_message(e@))),
        st is Ok ==> (md matches Err(e) ==> (status_empty(r.status) && metadata_empty(
            r.metadata,
        ) && (r.error matches Some(msg) && msg@ == spec_fetch_error_message(e@)))),
        (r.error is None) == (st is Ok && md is Ok),
{
    match (st, md) {
        (Ok(status), Ok(metadata)) => FetchResult { status, metadata, error: None },
        (Err(e), _) => FetchResult {
            status: Status::default(),
            metadata: Metadata::default(),
            error: Some(fetch_error_message(&e)),
        },
        (Ok(_), Err(e)) => FetchResult {
            status: Status::default(),
            metadata: Metadata::default(),
            error: Some(fetch_error_message(&e)),
        },
    }
}

/// Whether the status endpoint's outcome yields a payload.
pub open spec fn outcome_status_ok(o: HttpOutcomeV) -> bool {
    match o {
        HttpOutcomeV::Response { code, body } => ok_code(code) && (match json_of(body) {
            Some(j) => spec_status(j) is Ok,
            None => false,
        }),
        HttpOutcomeV::TransportError(_) => false,
    }
}

/// Whether the metadata endpoint's outcome yields a payload.
pub open spec fn outcome_metadata_ok(o: HttpOutcomeV) -> bool {
    match o {
        HttpOutcomeV::Response { code, body } => ok_code(code) && (match json_of(body) {
            Some(j) => spec_metadata(j) is Ok,
            None => false,
        }),
        HttpOutcomeV::TransportError(_) => false,
    }
}

/// One poll cycle's computation: reads both endpoint outcomes and
/// reduces them. Success needs both; on any failure the result carries
/// the description and empty payloads.
pub fn do_fetch(status_o: HttpOutcome, metadata_o: HttpOutcome) -> (r: FetchResult)
    ensures
        (r.error is None) == (outcome_status_ok(status_o@) && outcome_metadata_ok(metadata_o@)),
        status_o@ matches HttpOutcomeV::Response { code, body } ==> (ok_code(code) ==> (json_of(
            body,
        ) matches Some(j) ==> (spec_status(j) matches Ok(sv) ==> (outcome_metadata_ok(
            metadata_o@,
        ) ==> r.status.deep_view() == sv)))),
        metadata_o@ matches HttpOutcomeV::Response { code, body } ==> (ok_code(code) ==> (
        json_of(body) matches Some(j) ==> (spec_metadata(j) matches Ok(mv) ==> (
        outcome_status_ok(status_o@) ==> r.metadata.deep_view() == mv)))),
        r.error is Some ==> (status_empty(r.status) && metadata_empty(r.metadata)),
        status_o@ matches HttpOutcomeV::Response { code, body } ==> (!ok_code(code) ==> (
        r.error matches Some(msg) && msg@ == spec_fetch_error_message(
            FetchErrorV::HttpStatus(code),
        ))),
        status_o@ matches HttpOutcomeV::TransportError(m) ==> (r.error matches Some(msg) && msg@
            == spec_fetch_error_message(FetchErrorV::Transport(m))),
{
    let st = eval_status(status_o);
    let md = eval_metadata(metadata_o);
    combine_fetch(st, md)
}

} // verus!
