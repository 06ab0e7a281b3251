//! Log records, the request that carries one to the remote endpoint, and what
//! is made of the endpoint's answer.
//!
//! Nothing here touches the network. A record becomes a [`Delivery`], which
//! the caller posts on a task of its own; whatever comes of that is turned
//! into a line for the local diagnostic stream and goes no further.

use vstd::prelude::*;
use vstd::string::*;
use crate::text::{decimal, decimal_digits};

verus! {

/// One structured log record. It belongs to the delivery that carries it and
/// is gone once that delivery has been tried.
#[derive(Clone, Debug, PartialEq, Eq)]
pub struct Log {
    /// The tag of the event: `player_join`, `player_leave` or `chat_message`.
    pub event: String,
    /// The player the event is about.
    pub username: String,
    /// What was said, for a chat message.
    pub message: Option<String>,
    /// Seconds since the epoch at which the record was made. Deliveries may
    /// arrive in any order; this is what orders them downstream.
    pub timestamp: u64,
}

/// A log record as a mathematical value.
pub struct LogView {
    pub event: Seq<char>,
    pub username: Seq<char>,
    pub message: Option<Seq<char>>,
    pub timestamp: u64,
}

/// The characters of an optional string.
pub open spec fn optional_text(text: Option<String>) -> Option<Seq<char>> {
    match text {
        Some(text) => Some(text@),
        None => None,
    }
}

impl View for Log {
    type V = LogView;

    open spec fn view(&self) -> LogView {
        LogView {
            event: self.event@,
            username: self.username@,
            message: optional_text(self.message),
            timestamp: self.timestamp,
        }
    }
}

/// `std::time::SystemTime`: a reading of the system clock.
#[verifier::external_type_specification]
#[verifier::external_body]
pub struct ExSystemTime(std::time::SystemTime);

/// `std::time::SystemTimeError`: the clock stands before the instant it was
/// measured from.
#[verifier::external_type_specification]
#[verifier::external_body]
pub struct ExSystemTimeError(std::time::SystemTimeError);

/// `serde_json::Error`: why a value could not be written as JSON.
#[verifier::external_type_specification]
#[verifier::external_body]
pub struct ExJsonError(serde_json::Error);

/// `std::time::SystemTime::now`: the reading of the system clock. Nothing is
/// known of it.
#[verifier::external_body]
fn clock_now() -> std::time::SystemTime {
    std::time::SystemTime::now()
}

/// `std::time::SystemTime::duration_since`, measured from the Unix epoch. It
/// fails for a clock that stands before the epoch.
#[verifier::external_body]
fn since_epoch(instant: &std::time::SystemTime) -> Result<
    std::time::Duration,
    std::time::SystemTimeError,
> {
    instant.duration_since(std::time::UNIX_EPOCH)
}

/// `std::time::Duration::as_secs`: the whole seconds of a duration.
#[verifier::external_body]
fn whole_seconds(elapsed: &std::time::Duration) -> (seconds: u64)
    ensures
        seconds == duration_seconds(*elapsed),
{
    elapsed.as_secs()
}

/// The system clock in whole seconds since the epoch; zero for a clock that
/// stands before it. The reading is taken inside, so nothing can be said of
/// the result here: what is made of a reading is stated by
/// [`seconds_since_epoch`].
pub(crate) fn unix_seconds() -> u64 {
    let now = clock_now();
    seconds_since_epoch(since_epoch(&now))
}

/// The whole seconds that a duration holds; what is left of a second is
/// dropped.
pub uninterp spec fn duration_seconds(elapsed: std::time::Duration) -> u64;

/// The time stamp for a clock reading, given what the clock measured from
/// the epoch: the whole seconds of the time that has passed, and zero for a
/// clock that stands before the epoch.
pub open spec fn stamp_of(
    measured: Result<std::time::Duration, std::time::SystemTimeError>,
) -> u64 {
    match measured {
        Ok(elapsed) => duration_seconds(elapsed),
        Err(_) => 0,
    }
}

/// Turns what the clock measured from the epoch into a time stamp. A clock
/// that stands before the epoch is no error: it stamps with zero.
pub fn seconds_since_epoch(
    measured: Result<std::time::Duration, std::time::SystemTimeError>,
) -> (seconds: u64)
    ensures
        seconds == stamp_of(measured),
{
    match measured {
        Ok(elapsed) => whole_seconds(&elapsed),
        Err(_) => 0,
    }
}

/// A string as a JSON string literal, as `serde_json` writes it: in double
/// quotes, with the quote, the backslash and the control characters escaped.
pub uninterp spec fn json_string(text: Seq<char>) -> Seq<char>;

/// `serde_json::to_string` on a string: its JSON string literal. The call
/// fails only where the value's own way of serializing fails or the value
/// holds a map whose keys are not strings; a string does neither, so it
/// succeeds.
#[verifier::external_body]
fn json_quote(text: &str) -> (quoted: Result<String, serde_json::Error>)
    ensures
        quoted is Ok,
        quoted matches Ok(literal) ==> literal@ == json_string(text@),
{
    serde_json::to_string(text)
}

/// The body of a delivery, given the JSON text of each string field: one
/// object with the fields `event`, `username`, `message` and `timestamp`, in
/// this order and without white space.
pub open spec fn json_frame(
    event: Seq<char>,
    username: Seq<char>,
    message: Seq<char>,
    timestamp: u64,
) -> Seq<char> {
    "{\"event\":"@ + event + ",\"username\":"@ + username + ",\"message\":"@ + message
        + ",\"timestamp\":"@ + decimal_digits(timestamp as nat) + "}"@
}

/// The JSON text of the message field: `null` when there is no message.
pub open spec fn json_message(message: Option<Seq<char>>) -> Seq<char> {
    match message {
        Some(text) => json_string(text),
        None => "null"@,
    }
}

/// The body of the delivery of a record.
pub open spec fn json_object(log: LogView) -> Seq<char> {
    json_frame(
        json_string(log.event),
        json_string(log.username),
        json_message(log.message),
        log.timestamp,
    )
}

/// Why a delivery came to nothing. Neither ever reaches the code that
/// handles events.
#[derive(Clone, Debug, PartialEq, Eq)]
pub enum DeliveryFailure {
    /// The request got no answer: the endpoint was unreachable or too slow.
    Transport(String),
    /// The endpoint answered with a status that is not a success.
    Rejected(u16),
}

impl Log {
    /// Makes a record with the given time stamp.
    pub fn stamped(
        event: &str,
        username: &str,
        message: Option<String>,
        timestamp: u64,
    ) -> (log: Log)
        ensures
            log@ == (LogView {
                event: event@,
                username: username@,
                message: optional_text(message),
                timestamp,
            }),
    {
        Log { event: event.to_owned(), username: username.to_owned(), message, timestamp }
    }

    /// Makes a record and stamps it with the current time: the time at which
    /// the record is made, not the time at which it is delivered.
    pub fn new(event: &str, username: &str, message: Option<String>) -> (log: Log)
        ensures
            log.event@ == event@,
            log.username@ == username@,
            optional_text(log.message) == optional_text(message),
    {
        Log::stamped(event, username, message, unix_seconds())
    }

    /// Puts a body together from the JSON text of each string field.
    pub fn frame(event: &str, username: &str, message: &str, timestamp: u64) -> (body: String)
        ensures
            body@ == json_frame(event@, username@, message@, timestamp),
    {
        let stamp = decimal(timestamp);
        "{\"event\":".to_owned().concat(event).concat(",\"username\":").concat(username).concat(
            ",\"message\":",
        ).concat(message).concat(",\"timestamp\":").concat(stamp.as_str()).concat("}")
    }

    /// Writes the record as the body of its delivery.
    pub fn to_json(&self) -> (body: String)
        ensures
            body@ == json_object(self@),
    {
        let event = match json_quote(self.event.as_str()) {
            Ok(literal) => literal,
            Err(_) => unreached(),
        };
        let username = match json_quote(self.username.as_str()) {
            Ok(literal) => literal,
            Err(_) => unreached(),
        };
        let message = match &self.message {
            Some(text) => match json_quote(text.as_str()) {
                Ok(literal) => literal,
                Err(_) => unreached(),
            },
            None => "null".to_owned(),
        };
        Log::frame(event.as_str(), username.as_str(), message.as_str(), self.timestamp)
    }
}

/// The seconds after which a delivery is given up, so that an endpoint that
/// hangs cannot pile up deliveries without end.
pub const DELIVERY_TIMEOUT_SECS: u64 = 5;

/// One HTTP POST, ready to be made: where it goes, what it carries and how
/// long it may take.
#[derive(Clone, Debug, PartialEq, Eq)]
pub struct Delivery {
    /// The URL the body is posted to.
    pub endpoint: String,
    /// The JSON body.
    pub body: String,
    /// The seconds after which the request is abandoned.
    pub timeout_secs: u64,
}

/// The line written to the local diagnostic stream for a delivery to
/// `endpoint` that failed.
pub open spec fn diagnostic_text(endpoint: Seq<char>, failure: DeliveryFailure) -> Seq<char> {
    match failure {
        DeliveryFailure::Transport(cause) => "log delivery to "@ + endpoint + " failed: "@
            + cause@,
        DeliveryFailure::Rejected(status) => "log delivery to "@ + endpoint
            + " was answered with status "@ + decimal_digits(status as nat),
    }
}

/// The log sink: it knows the endpoint, plans each delivery and words the
/// diagnostic for one that failed. It keeps nothing between deliveries.
#[derive(Clone, Debug)]
pub struct Logger {
    endpoint: String,
}

impl View for Logger {
    type V = Seq<char>;

    /// The endpoint the sink delivers to.
    closed spec fn view(&self) -> Seq<char> {
        self.endpoint@
    }
}

impl Logger {
    /// Makes a sink for the given endpoint.
    pub fn new(endpoint: String) -> (logger: Logger)
        ensures
            logger@ == endpoint@,
    {
        Logger { endpoint }
    }

    /// The endpoint the sink delivers to.
    pub fn endpoint(&self) -> (endpoint: &str)
        ensures
            endpoint@ == self@,
    {
        self.endpoint.as_str()
    }

    /// Plans the delivery of one record: a single POST of its JSON body to
    /// the endpoint, with the fixed timeout.
    pub fn prepare(&self, log: &Log) -> (delivery: Delivery)
        ensures
            delivery.endpoint@ == self@,
            delivery.body@ == json_object(log@),
            delivery.timeout_secs == DELIVERY_TIMEOUT_SECS,
    {
        Delivery {
            endpoint: self.endpoint.clone(),
            body: log.to_json(),
            timeout_secs: DELIVERY_TIMEOUT_SECS,
        }
    }

    /// Judges the status the endpoint answered with: the statuses from 200 to
    /// 299 are a success, every other one is a rejection.
    pub fn judge(status: u16) -> (verdict: Result<(), DeliveryFailure>)
        ensures
            verdict is Ok <==> 200 <= status < 300,
            verdict matches Err(failure) ==> failure == DeliveryFailure::Rejected(status),
    {
        if 200 <= status && status < 300 {
            Ok(())
        } else {
            Err(DeliveryFailure::Rejected(status))
        }
    }

    /// Words the line that reports a failed delivery locally. This is all that
    /// ever comes of a failure: it is not retried, queued or passed on.
    pub fn diagnostic(&self, failure: &DeliveryFailure) -> (line: String)
        ensures
            line@ == diagnostic_text(self@, *failure),
    {
        match failure {
            DeliveryFailure::Transport(cause) => "log delivery to ".to_owned().concat(
                self.endpoint.as_str(),
            ).concat(" failed: ").concat(cause.as_str()),
            DeliveryFailure::Rejected(status) => {
                let code = decimal(*status as u64);
                "log delivery to ".to_owned().concat(self.endpoint.as_str()).concat(
                    " was answered with status ",
                ).concat(code.as_str())
            },
        }
    }
}

} // verus!
