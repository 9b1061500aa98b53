use vstd::prelude::*;
use vstd::string::*;
use crate::names::{decimal, push_decimal};

verus! {

/// The failure taxonomy of a download.
///
/// Each variant carries the text of its underlying cause.
#[derive(Debug, Clone)]
pub enum Error {
    /// Connection, DNS, TLS or timeout failure.
    Network(String),
    /// A response whose status is not a success; holds the status code.
    Http(u16),
    /// A playlist, JSON, regex or URL that could not be parsed.
    Parse(String),
    /// A failure of the writer that consumes the stream.
    Io(String),
    /// A site resolver that does not support the input or failed.
    Resolver(String),
    /// The stream is not live.
    Offline,
}

/// The text that describes a download error: its kind, then its cause.
pub open spec fn error_text(e: Error) -> Seq<char> {
    match e {
        Error::Network(s) => "Network error: "@ + s@,
        Error::Http(code) => "Http error: "@ + decimal(code as nat),
        Error::Parse(s) => "Parse error: "@ + s@,
        Error::Io(s) => "Io error: "@ + s@,
        Error::Resolver(s) => "Resolver error: "@ + s@,
        Error::Offline => "Stream offline"@,
    }
}

impl Error {
    /// The text that describes this error.
    pub fn description(&self) -> (r: String)
        ensures
            r@ == error_text(*self),
    {
        match self {
            Error::Network(s) => {
                proof {
                    reveal_strlit("Network error: ");
                }
                String::from_str("Network error: ").concat(s.as_str())
            },
            Error::Http(code) => {
                proof {
                    reveal_strlit("Http error: ");
                }
                let mut t = String::from_str("Http error: ");
                push_decimal(&mut t, *code as u64);
                t
            },
            Error::Parse(s) => {
                proof {
                    reveal_strlit("Parse error: ");
                }
                String::from_str("Parse error: ").concat(s.as_str())
            },
            Error::Io(s) => {
                proof {
                    reveal_strlit("Io error: ");
                }
                String::from_str("Io error: ").concat(s.as_str())
            },
            Error::Resolver(s) => {
                proof {
                    reveal_strlit("Resolver error: ");
                }
                String::from_str("Resolver error: ").concat(s.as_str())
            },
            Error::Offline => {
                proof {
                    reveal_strlit("Stream offline");
                }
                String::from_str("Stream offline")
            },
        }
    }
}

/// An error reported by a site resolver.
#[derive(Debug, Clone)]
pub enum RsgetError {
    /// The stream is offline.
    Offline,
    /// Any other failure, with its message.
    Other(String),
}

/// The text that describes a resolver error.
pub open spec fn rsget_error_text(e: RsgetError) -> Seq<char> {
    match e {
        RsgetError::Offline => "Stream offline"@,
        RsgetError::Other(s) => s@,
    }
}

impl RsgetError {
    /// An `Other` error that holds `msg`.
    pub fn new(msg: &str) -> (r: RsgetError)
        ensures
            r matches RsgetError::Other(s) && s@ == msg@,
    {
        RsgetError::Other(String::from_str(msg))
    }

    /// The text that describes this error.
    pub fn description(&self) -> (r: String)
        ensures
            r@ == rsget_error_text(*self),
    {
        match self {
            RsgetError::Offline => {
                let s = "Stream offline";
                proof {
                    reveal_strlit("Stream offline");
                }
                String::from_str(s)
            },
            RsgetError::Other(s) => s.clone(),
        }
    }
}

} // verus!
