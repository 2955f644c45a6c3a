//! HTTP status codes and their canonical reason phrases.

use core::cmp::Ordering;
use vstd::prelude::*;

verus! {

/// Status code of a request or response.
///
/// Wraps the 16-bit numeric code; ordering and equality are those of the
/// wrapped integer.
#[derive(Clone, Debug, PartialEq, Eq, Structural, Ord)]
pub struct StatusCode(pub u16);

/// The canonical reason phrase for a numeric status code.
///
/// Codes absent from the table map to `"Unknown"`. The phrase
/// "Reques-URI Too Large" for 414 is the historical canonical text and is
/// kept byte-for-byte for compatibility.
pub open spec fn spec_default_reason_phrase(code: u16) -> Seq<char> {
    if code == 100 {
        "Continue"@
    } else if code == 101 {
        "Switching Protocols"@
    } else if code == 102 {
        "Processing"@
    } else if code == 118 {
        "Connection timed out"@
    } else if code == 200 {
        "OK"@
    } else if code == 201 {
        "Created"@
    } else if code == 202 {
        "Accepted"@
    } else if code == 203 {
        "Non-Authoritative Information"@
    } else if code == 204 {
        "No Content"@
    } else if code == 205 {
        "Reset Content"@
    } else if code == 206 {
        "Partial Content"@
    } else if code == 207 {
        "Multi-Status"@
    } else if code == 210 {
        "Content Different"@
    } else if code == 300 {
        "Multiple Choices"@
    } else if code == 301 {
        "Moved Permanently"@
    } else if code == 302 {
        "Found"@
    } else if code == 303 {
        "See Other"@
    } else if code == 304 {
        "Not Modified"@
    } else if code == 305 {
        "Use Proxy"@
    } else if code == 307 {
        "Temporary Redirect"@
    } else if code == 400 {
        "Bad Request"@
    } else if code == 401 {
        "Unauthorized"@
    } else if code == 402 {
        "Payment Required"@
    } else if code == 403 {
        "Forbidden"@
    } else if code == 404 {
        "Not Found"@
    } else if code == 405 {
        "Method Not Allowed"@
    } else if code == 406 {
        "Not Acceptable"@
    } else if code == 407 {
        "Proxy Authentication Required"@
    } else if code == 408 {
        "Request Time-out"@
    } else if code == 409 {
        "Conflict"@
    } else if code == 410 {
        "Gone"@
    } else if code == 411 {
        "Length Required"@
    } else if code == 412 {
        "Precondition Failed"@
    } else if code == 413 {
        "Request Entity Too Large"@
    } else if code == 414 {
        "Reques-URI Too Large"@
    } else if code == 415 {
        "Unsupported Media Type"@
    } else if code == 416 {
        "Request range not satisfiable"@
    } else if code == 417 {
        "Expectation Failed"@
    } else if code == 500 {
        "Internal Server Error"@
    } else if code == 501 {
        "Not Implemented"@
    } else if code == 502 {
        "Bad Gateway"@
    } else if code == 503 {
        "Service Unavailable"@
    } else if code == 504 {
        "Gateway Time-out"@
    } else if code == 505 {
        "HTTP Version not supported"@
    } else {
        "Unknown"@
    }
}

impl StatusCode {
    /// Returns the status code as a number.
    pub fn as_u16(&self) -> (code: u16)
        ensures
            code == self.0,
    {
        self.0
    }

    /// Wraps a 16-bit numeric code verbatim.
    pub fn from_u16(in_code: u16) -> (status: StatusCode)
        ensures
            status.0 == in_code,
    {
        StatusCode(in_code)
    }

    /// Returns the default reason phrase for this status code.
    /// For example the status code 404 corresponds to "Not Found".
    pub fn get_default_reason_phrase(&self) -> (phrase: &'static str)
        ensures
            phrase@ == spec_default_reason_phrase(self.0),
    {
        match self.0 {
            100 => "Continue",
            101 => "Switching Protocols",
            102 => "Processing",
            118 => "Connection timed out",
            200 => "OK",
            201 => "Created",
            202 => "Accepted",
            203 => "Non-Authoritative Information",
            204 => "No Content",
            205 => "Reset Content",
            206 => "Partial Content",
            207 => "Multi-Status",
            210 => "Content Different",
            300 => "Multiple Choices",
            301 => "Moved Permanently",
            302 => "Found",
            303 => "See Other",
            304 => "Not Modified",
            305 => "Use Proxy",
            307 => "Temporary Redirect",
            400 => "Bad Request",
            401 => "Unauthorized",
            402 => "Payment Required",
            403 => "Forbidden",
            404 => "Not Found",
            405 => "Method Not Allowed",
            406 => "Not Acceptable",
            407 => "Proxy Authentication Required",
            408 => "Request Time-out",
            409 => "Conflict",
            410 => "Gone",
            411 => "Length Required",
            412 => "Precondition Failed",
            413 => "Request Entity Too Large",
            414 => "Reques-URI Too Large",
            415 => "Unsupported Media Type",
            416 => "Request range not satisfiable",
            417 => "Expectation Failed",
            500 => "Internal Server Error",
            501 => "Not Implemented",
            502 => "Bad Gateway",
            503 => "Service Unavailable",
            504 => "Gateway Time-out",
            505 => "HTTP Version not supported",
            _ => "Unknown",
        }
    }

    /// Numeric equality shortcut against a bare `u16`.
    pub fn equiv(&self, other: &u16) -> (r: bool)
        ensures
            r == (self.0 == *other),
    {
        self.0 == *other
    }
}

impl From<i8> for StatusCode {
    /// Conversion from a narrow signed code, with the `as`-cast's
    /// wrap-around to 16 bits and no overflow check.
    fn from(in_code: i8) -> (status: StatusCode) {
        StatusCode(#[verifier::truncate] (in_code as u16))
    }
}

impl vstd::std_specs::convert::FromSpecImpl<i8> for StatusCode {
    open spec fn obeys_from_spec() -> bool {
        true
    }

    open spec fn from_spec(v: i8) -> StatusCode {
        StatusCode(v as u16)
    }
}

impl From<u8> for StatusCode {
    /// Conversion from a narrow unsigned code; always exact.
    fn from(in_code: u8) -> (status: StatusCode) {
        StatusCode(in_code as u16)
    }
}

impl vstd::std_specs::convert::FromSpecImpl<u8> for StatusCode {
    open spec fn obeys_from_spec() -> bool {
        true
    }

    open spec fn from_spec(v: u8) -> StatusCode {
        StatusCode(v as u16)
    }
}

impl From<i16> for StatusCode {
    /// Conversion from a signed code, with the `as`-cast's wrap-around to
    /// 16 bits and no overflow check.
    fn from(in_code: i16) -> (status: StatusCode) {
        StatusCode(#[verifier::truncate] (in_code as u16))
    }
}

impl vstd::std_specs::convert::FromSpecImpl<i16> for StatusCode {
    open spec fn obeys_from_spec() -> bool {
        true
    }

    open spec fn from_spec(v: i16) -> StatusCode {
        StatusCode(v as u16)
    }
}

impl From<u16> for StatusCode {
    /// Conversion from the code itself, stored verbatim.
    fn from(in_code: u16) -> (status: StatusCode) {
        StatusCode(in_code)
    }
}

impl vstd::std_specs::convert::FromSpecImpl<u16> for StatusCode {
    open spec fn obeys_from_spec() -> bool {
        true
    }

    open spec fn from_spec(v: u16) -> StatusCode {
        StatusCode(v)
    }
}

impl From<i32> for StatusCode {
    /// Conversion from a wide signed code, truncated to 16 bits with no
    /// overflow check.
    fn from(in_code: i32) -> (status: StatusCode) {
        StatusCode(#[verifier::truncate] (in_code as u16))
    }
}

impl vstd::std_specs::convert::FromSpecImpl<i32> for StatusCode {
    open spec fn obeys_from_spec() -> bool {
        true
    }

    open spec fn from_spec(v: i32) -> StatusCode {
        StatusCode(v as u16)
    }
}

impl From<u32> for StatusCode {
    /// Conversion from a wide unsigned code, truncated to 16 bits with no
    /// overflow check.
    fn from(in_code: u32) -> (status: StatusCode) {
        StatusCode(#[verifier::truncate] (in_code as u16))
    }
}

impl vstd::std_specs::convert::FromSpecImpl<u32> for StatusCode {
    open spec fn obeys_from_spec() -> bool {
        true
    }

    open spec fn from_spec(v: u32) -> StatusCode {
        StatusCode(v as u16)
    }
}

impl PartialOrd for StatusCode {
    fn partial_cmp(&self, other: &StatusCode) -> (r: Option<Ordering>) {
        if self.0 < other.0 {
            Some(Ordering::Less)
        } else if self.0 == other.0 {
            Some(Ordering::Equal)
        } else {
            Some(Ordering::Greater)
        }
    }
}

impl vstd::std_specs::cmp::PartialOrdSpecImpl for StatusCode {
    open spec fn obeys_partial_cmp_spec() -> bool {
        true
    }

    open spec fn partial_cmp_spec(&self, other: &StatusCode) -> Option<Ordering> {
        if self.0 < other.0 {
            Some(Ordering::Less)
        } else if self.0 == other.0 {
            Some(Ordering::Equal)
        } else {
            Some(Ordering::Greater)
        }
    }
}

} // verus!
