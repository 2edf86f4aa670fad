//! Validation utilities

use crate::error::Error;
use vstd::prelude::*;
use vstd::string::StrSliceExecFns;
use vstd::string::StringExecFns;

verus! {

/// The characters a subject name may hold: ASCII letters and digits,
/// underscores and hyphens.
pub open spec fn valid_crate_name_char(c: char) -> bool {
    let u = c as u32;
    (97 <= u && u <= 122) || (65 <= u && u <= 90) || (48 <= u && u <= 57) || c == '_' || c == '-'
}

/// Whether a character is an ASCII digit.
pub open spec fn is_ascii_digit_char(c: char) -> bool {
    48 <= c as u32 && c as u32 <= 57
}

/// Whether a whole name is acceptable as a subject name.
pub open spec fn spec_valid_crate_name(name: Seq<char>) -> bool {
    1 <= name.len() <= 100 && (forall|i: int|
        0 <= i < name.len() ==> valid_crate_name_char(#[trigger] name[i]))
}

/// Whether a whole string is acceptable as a version: nonempty, not over
/// fifty characters, and holding at least one digit.
pub open spec fn spec_valid_version(version: Seq<char>) -> bool {
    1 <= version.len() <= 50 && (exists|i: int|
        0 <= i < version.len() && is_ascii_digit_char(#[trigger] version[i]))
}

/// Whether a whole string is acceptable as a search query: nonempty and
/// not over two hundred characters.
pub open spec fn spec_valid_search_query(query: Seq<char>) -> bool {
    1 <= query.len() <= 200
}

/// Validate a subject name: nonempty, at most one hundred characters, and
/// only letters, digits, underscores and hyphens.
pub fn validate_crate_name(name: &str) -> (r: Result<(), Error>)
    ensures
        r is Ok <==> spec_valid_crate_name(name@),
        (match r {
            Ok(_) => true,
            Err(e) => match e {
                Error::Other(m) => m@ == if name@.len() == 0 {
                    "Crate name cannot be empty"@
                } else if name@.len() > 100 {
                    "Crate name is too long"@
                } else {
                    "Crate name contains invalid characters"@
                },
                _ => false,
            },
        }),
{
    let n = name.unicode_len();
    if n == 0 {
        return Err(Error::Other(String::from_str("Crate name cannot be empty")));
    }
    if n > 100 {
        return Err(Error::Other(String::from_str("Crate name is too long")));
    }
    let mut i: usize = 0;
    while i < n
        invariant
            i <= n,
            1 <= n <= 100,
            n == name@.len(),
            forall|j: int| 0 <= j < i ==> valid_crate_name_char(#[trigger] name@[j]),
        decreases n - i,
    {
        let c = name.get_char(i);
        let u = c as u32;
        let ok = (97 <= u && u <= 122) || (65 <= u && u <= 90) || (48 <= u && u <= 57) || c == '_'
            || c == '-';
        if !ok {
            proof {
                assert(!valid_crate_name_char(name@[i as int]));
            }
            return Err(Error::Other(String::from_str("Crate name contains invalid characters")));
        }
        i += 1;
    }
    Ok(())
}

/// Validate a version: nonempty, at most fifty characters, and holding at
/// least one digit.
pub fn validate_version(version: &str) -> (r: Result<(), Error>)
    ensures
        r is Ok <==> spec_valid_version(version@),
        (match r {
            Ok(_) => true,
            Err(e) => match e {
                Error::Other(m) => m@ == if version@.len() == 0 {
                    "Version cannot be empty"@
                } else if version@.len() > 50 {
                    "Version is too long"@
                } else {
                    "Version must contain digits"@
                },
                _ => false,
            },
        }),
{
    let n = version.unicode_len();
    if n == 0 {
        return Err(Error::Other(String::from_str("Version cannot be empty")));
    }
    if n > 50 {
        return Err(Error::Other(String::from_str("Version is too long")));
    }
    let mut i: usize = 0;
    while i < n
        invariant
            i <= n,
            1 <= n <= 50,
            n == version@.len(),
            forall|j: int| 0 <= j < i ==> !is_ascii_digit_char(#[trigger] version@[j]),
        decreases n - i,
    {
        let c = version.get_char(i);
        let u = c as u32;
        if 48 <= u && u <= 57 {
            proof {
                assert(is_ascii_digit_char(version@[i as int]));
            }
            return Ok(());
        }
        i += 1;
    }
    Err(Error::Other(String::from_str("Version must contain digits")))
}

/// Validate a search query: nonempty and at most two hundred characters.
pub fn validate_search_query(query: &str) -> (r: Result<(), Error>)
    ensures
        r is Ok <==> spec_valid_search_query(query@),
        (match r {
            Ok(_) => true,
            Err(e) => match e {
                Error::Other(m) => m@ == if query@.len() == 0 {
                    "Search query cannot be empty"@
                } else {
                    "Search query is too long"@
                },
                _ => false,
            },
        }),
{
    let n = query.unicode_len();
    if n == 0 {
        return Err(Error::Other(String::from_str("Search query cannot be empty")));
    }
    if n > 200 {
        return Err(Error::Other(String::from_str("Search query is too long")));
    }
    Ok(())
}

} // verus!
