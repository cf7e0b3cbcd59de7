//! Error types for the SDK.
use vstd::prelude::*;

verus! {

/// The standard library's I/O error, carried opaquely.
#[verifier::external_type_specification]
#[verifier::external_body]
pub struct ExIoError(std::io::Error);

/// The primary error type of the SDK.
///
/// Each variant corresponds to a distinct subsystem so callers can match on
/// the kind of failure.
#[derive(Debug)]
pub enum Error {
    /// An I/O error originating from the standard library.
    Io(std::io::Error),
    /// A configuration-related error (e.g. invalid or missing settings).
    Config(String),
    /// A camera subsystem error.
    Camera(String),
    /// An inference engine error.
    Inference(String),
    /// A serial-port communication error.
    Serial(String),
    /// A storage subsystem error.
    Storage(String),
    /// A general system-level error.
    System(String),
}

/// A convenience alias for results whose error is [`Error`].
pub type Result<T> = std::result::Result<T, Error>;

/// The words that the display of each kind of error starts with.
pub open spec fn error_prefix(e: &Error) -> Seq<char> {
    match e {
        Error::Io(_) => "I/O error: "@,
        Error::Config(_) => "config error: "@,
        Error::Camera(_) => "camera error: "@,
        Error::Inference(_) => "inference error: "@,
        Error::Serial(_) => "serial error: "@,
        Error::Storage(_) => "storage error: "@,
        Error::System(_) => "system error: "@,
    }
}

/// The message carried by a variant that holds text.
pub open spec fn error_detail(e: &Error) -> Option<Seq<char>> {
    match e {
        Error::Io(_) => None,
        Error::Config(s) => Some(s@),
        Error::Camera(s) => Some(s@),
        Error::Inference(s) => Some(s@),
        Error::Serial(s) => Some(s@),
        Error::Storage(s) => Some(s@),
        Error::System(s) => Some(s@),
    }
}

/// The text of an I/O error (`Display` of `std::io::Error`).
///
/// Nothing is stated of the text: for errors that come from the operating
/// system it depends on the machine.
#[verifier::external_body]
fn io_error_text(e: &std::io::Error) -> String {
    e.to_string()
}

/// `prefix` followed by `detail`.
fn prefixed(prefix: &str, detail: &str) -> (s: String)
    ensures
        s@ == prefix@ + detail@,
        prefix@.is_prefix_of(s@),
{
    let s = String::from_str(prefix).concat(detail);
    assert(s@.take(prefix@.len() as int) =~= prefix@);
    s
}

/// The message of an I/O error whose own text is `text`.
pub fn io_error_message(text: &str) -> (s: String)
    ensures
        s@ == "I/O error: "@ + text@,
{
    prefixed("I/O error: ", text)
}

impl Error {
    /// The human-readable message of this error: a prefix naming the
    /// subsystem, then the detail. For an I/O error the detail is the
    /// error's own text, and the message is `io_error_message` of it.
    pub fn to_string(&self) -> (s: String)
        ensures
            error_detail(self) matches Some(d) ==> s@ == error_prefix(self) + d,
            error_prefix(self).is_prefix_of(s@),
    {
        match self {
            Error::Io(e) => io_error_message(io_error_text(e).as_str()),
            Error::Config(m) => prefixed("config error: ", m.as_str()),
            Error::Camera(m) => prefixed("camera error: ", m.as_str()),
            Error::Inference(m) => prefixed("inference error: ", m.as_str()),
            Error::Serial(m) => prefixed("serial error: ", m.as_str()),
            Error::Storage(m) => prefixed("storage error: ", m.as_str()),
            Error::System(m) => prefixed("system error: ", m.as_str()),
        }
    }
}

impl From<std::io::Error> for Error {
    fn from(e: std::io::Error) -> (r: Self) {
        Error::Io(e)
    }
}

impl vstd::std_specs::convert::FromSpecImpl<std::io::Error> for Error {
    open spec fn obeys_from_spec() -> bool {
        true
    }

    open spec fn from_spec(e: std::io::Error) -> Self {
        Error::Io(e)
    }
}

} // verus!
