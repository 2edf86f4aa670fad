//! Error handling module

use vstd::prelude::*;
use vstd::string::StringExecFns;

verus! {

/// Application error types
#[derive(Debug)]
pub enum Error {
    /// Initialization error
    Initialization(String),
    /// Configuration error
    Config(String),
    /// HTTP request error
    HttpRequest(String),
    /// Parse error
    Parse(String),
    /// Cache error
    Cache(String),
    /// Authentication error
    Auth(String),
    /// MCP protocol error
    Mcp(String),
    /// Other error
    Other(String),
}

impl Error {
    /// The message the error renders to: a prefix naming the kind, then the
    /// detail text.
    pub open spec fn spec_message(self) -> Seq<char> {
        match self {
            Error::Initialization(m) => "Initialization failed: "@ + m@,
            Error::Config(m) => "Configuration error: "@ + m@,
            Error::HttpRequest(m) => "HTTP request failed: "@ + m@,
            Error::Parse(m) => "Parse failed: "@ + m@,
            Error::Cache(m) => "Cache operation failed: "@ + m@,
            Error::Auth(m) => "Authentication failed: "@ + m@,
            Error::Mcp(m) => "MCP protocol error: "@ + m@,
            Error::Other(m) => "Unknown error: "@ + m@,
        }
    }

    /// Render the error as text.
    pub fn message(&self) -> (r: String)
        ensures
            r@ == self.spec_message(),
    {
        let mut s = match self {
            Error::Initialization(_) => String::from_str("Initialization failed: "),
            Error::Config(_) => String::from_str("Configuration error: "),
            Error::HttpRequest(_) => String::from_str("HTTP request failed: "),
            Error::Parse(_) => String::from_str("Parse failed: "),
            Error::Cache(_) => String::from_str("Cache operation failed: "),
            Error::Auth(_) => String::from_str("Authentication failed: "),
            Error::Mcp(_) => String::from_str("MCP protocol error: "),
            Error::Other(_) => String::from_str("Unknown error: "),
        };
        match self {
            Error::Initialization(m) => s.append(m.as_str()),
            Error::Config(m) => s.append(m.as_str()),
            Error::HttpRequest(m) => s.append(m.as_str()),
            Error::Parse(m) => s.append(m.as_str()),
            Error::Cache(m) => s.append(m.as_str()),
            Error::Auth(m) => s.append(m.as_str()),
            Error::Mcp(m) => s.append(m.as_str()),
            Error::Other(m) => s.append(m.as_str()),
        }
        s
    }
}

} // verus!
