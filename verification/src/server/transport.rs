//! Transport module
//!
//! The transport modes a server can run under, and their textual form.
//! Running a server under a mode is the program's business.

use crate::tools::docs::lookup::{ascii_lower_seq, to_ascii_lower};
use crate::utils::string::str_eq;
use vstd::prelude::*;
use vstd::string::StrSliceExecFns;
use vstd::string::StringExecFns;

verus! {

/// Transport mode
#[derive(Debug, Clone, Copy, PartialEq, Eq)]
pub enum TransportMode {
    /// Stdio transport (for CLI integration)
    Stdio,
    /// HTTP transport (Streamable HTTP)
    Http,
    /// SSE transport (Server-Sent Events)
    Sse,
    /// Hybrid mode (supports both HTTP and SSE)
    Hybrid,
}

/// The textual form of a transport mode.
pub open spec fn spec_mode_text(m: TransportMode) -> Seq<char> {
    match m {
        TransportMode::Stdio => "stdio"@,
        TransportMode::Http => "http"@,
        TransportMode::Sse => "sse"@,
        TransportMode::Hybrid => "hybrid"@,
    }
}

/// The mode a string names, compared without regard to ASCII case; an
/// unknown name is rejected with a message naming it.
pub open spec fn spec_mode_of_text(s: Seq<char>) -> Result<TransportMode, Seq<char>> {
    let lower = ascii_lower_seq(s);
    if lower == "stdio"@ {
        Ok(TransportMode::Stdio)
    } else if lower == "http"@ {
        Ok(TransportMode::Http)
    } else if lower == "sse"@ {
        Ok(TransportMode::Sse)
    } else if lower == "hybrid"@ {
        Ok(TransportMode::Hybrid)
    } else {
        Err("Unknown transport mode: "@ + s)
    }
}

fn ascii_lowercase(s: &str) -> (r: String)
    ensures
        r@ == ascii_lower_seq(s@),
{
    let n = s.unicode_len();
    let mut out = String::new();
    let mut i: usize = 0;
    while i < n
        invariant
            i <= n,
            n == s@.len(),
            out@ =~= ascii_lower_seq(s@).take(i as int),
        decreases n - i,
    {
        let c = to_ascii_lower(s.get_char(i));
        crate::utils::string::push_char(&mut out, c);
        i += 1;
        proof {
            assert(out@ =~= ascii_lower_seq(s@).take(i as int));
        }
    }
    proof {
        assert(ascii_lower_seq(s@).take(n as int) =~= ascii_lower_seq(s@));
    }
    out
}

impl TransportMode {
    /// Parse a mode name, without regard to ASCII case.
    pub fn from_text(s: &str) -> (r: Result<TransportMode, String>)
        ensures
            (match r {
                Ok(m) => spec_mode_of_text(s@) == Ok::<TransportMode, Seq<char>>(m),
                Err(e) => spec_mode_of_text(s@) == Err::<TransportMode, Seq<char>>(e@),
            }),
    {
        let lower = ascii_lowercase(s);
        if str_eq(lower.as_str(), "stdio") {
            Ok(TransportMode::Stdio)
        } else if str_eq(lower.as_str(), "http") {
            Ok(TransportMode::Http)
        } else if str_eq(lower.as_str(), "sse") {
            Ok(TransportMode::Sse)
        } else if str_eq(lower.as_str(), "hybrid") {
            Ok(TransportMode::Hybrid)
        } else {
            let mut msg = String::from_str("Unknown transport mode: ");
            msg.append(s);
            Err(msg)
        }
    }

    /// The mode's textual form.
    pub fn as_str(&self) -> (r: &'static str)
        ensures
            r@ == spec_mode_text(*self),
    {
        match self {
            TransportMode::Stdio => "stdio",
            TransportMode::Http => "http",
            TransportMode::Sse => "sse",
            TransportMode::Hybrid => "hybrid",
        }
    }
}

impl core::str::FromStr for TransportMode {
    type Err = String;

    fn from_str(s: &str) -> Result<TransportMode, String> {
        TransportMode::from_text(s)
    }
}

} // verus!
