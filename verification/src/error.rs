use vstd::prelude::*;
use vstd::string::StringExecFns;

verus! {

/// Everything that can abort an invocation before or after the request is
/// sent.  Each variant that concerns a malformed flag carries the original
/// string, so the message can name it.
#[derive(Debug, Clone, PartialEq, Eq)]
pub enum Error {
    /// The target URL could not be parsed.
    InvalidUrl,
    /// A header flag without a `=` separator.
    InvalidHeader(String),
    /// A query-parameter flag without a `=` separator.
    InvalidQueryParam(String),
    /// A multipart form-field flag without a `=` separator.
    InvalidFormField(String),
    /// A body fragment that was required to be JSON but does not parse;
    /// carries the parser's diagnostic.
    InvalidJson(String),
    /// Reading a file, standard input, or the password prompt failed.
    IoError,
    /// The transport failed to execute the request.
    NetworkError,
    /// Bytes had to be interpreted as text but are not valid UTF-8.
    Utf8DecodeError,
}

impl Error {
    /// The human-readable message shown to the user for this error.
    pub open spec fn spec_message(self) -> Seq<char> {
        match self {
            Error::InvalidUrl => "Invalid URL"@,
            Error::InvalidHeader(h) => "Invalid header: \""@ + h@ + "\""@,
            Error::InvalidQueryParam(q) => "Invalid query parameter: \""@ + q@ + "\""@,
            Error::InvalidFormField(f) => "Invalid form field: \""@ + f@ + "\""@,
            Error::InvalidJson(d) => "Invalid JSON: "@ + d@,
            Error::IoError => "I/O error"@,
            Error::NetworkError => "Network error"@,
            Error::Utf8DecodeError => "Invalid UTF-8"@,
        }
    }

    /// Renders the message for this error.
    pub fn message(&self) -> (r: String)
        ensures
            r@ == self.spec_message(),
    {
        match self {
            Error::InvalidUrl => String::from_str("Invalid URL"),
            Error::InvalidHeader(h) => quoted_message("Invalid header: \"", h),
            Error::InvalidQueryParam(q) => quoted_message("Invalid query parameter: \"", q),
            Error::InvalidFormField(f) => quoted_message("Invalid form field: \"", f),
            Error::InvalidJson(d) => {
                let mut m = String::from_str("Invalid JSON: ");
                m.append(d.as_str());
                m
            },
            Error::IoError => String::from_str("I/O error"),
            Error::NetworkError => String::from_str("Network error"),
            Error::Utf8DecodeError => String::from_str("Invalid UTF-8"),
        }
    }
}

/// `prefix` followed by the raw string and a closing quote.
fn quoted_message(prefix: &str, raw: &String) -> (r: String)
    ensures
        r@ == prefix@ + raw@ + "\""@,
{
    let mut m = String::from_str(prefix);
    m.append(raw.as_str());
    m.append("\"");
    m
}

} // verus!
