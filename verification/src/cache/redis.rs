//! Redis cache mapping
//!
//! The pure half of the remote backend: how each cache operation maps onto
//! a command of the remote key-value protocol, and how every outcome of a
//! round trip — reply or failure of any kind — maps back onto the cache's
//! answers. The round trips themselves are the caller's business; the
//! mapping here guarantees the fail-open policy: a sick remote store
//! degrades to cache misses, never to errors.

use crate::error::Error;
use vstd::prelude::*;
use vstd::string::StringExecFns;

verus! {

/// The commands of the remote key-value protocol that the cache uses.
pub enum RedisCommand {
    /// Liveness probe
    Ping,
    /// Point lookup of one key
    Get(String),
    /// Store a value without expiry
    SetValue(String, String),
    /// Store a value that expires after the given number of seconds
    SetEx(String, u64, String),
    /// Delete one key
    Del(String),
    /// Flush the whole database the connection is scoped to
    FlushDb,
    /// Existence check of one key
    Exists(String),
}

/// The command a lookup issues.
pub fn get_command(key: String) -> (r: RedisCommand)
    ensures
        r == RedisCommand::Get(key),
{
    RedisCommand::Get(key)
}

/// The command a store issues: the expiring variant when a time-to-live
/// is given (milliseconds rounded down to whole seconds), the plain
/// variant otherwise.
pub fn set_command(key: String, value: String, ttl_ms: Option<u64>) -> (r: RedisCommand)
    ensures
        r == match ttl_ms {
            Some(ms) => RedisCommand::SetEx(key, (ms / 1000) as u64, value),
            None => RedisCommand::SetValue(key, value),
        },
{
    match ttl_ms {
        Some(ms) => RedisCommand::SetEx(key, ms / 1000, value),
        None => RedisCommand::SetValue(key, value),
    }
}

/// The command a delete issues.
pub fn delete_command(key: String) -> (r: RedisCommand)
    ensures
        r == RedisCommand::Del(key),
{
    RedisCommand::Del(key)
}

/// The command a clear issues. It flushes the whole remote namespace the
/// connection is scoped to, not only this application's keys.
pub fn clear_command() -> (r: RedisCommand)
    ensures
        r == RedisCommand::FlushDb,
{
    RedisCommand::FlushDb
}

/// The command an existence check issues.
pub fn exists_command(key: String) -> (r: RedisCommand)
    ensures
        r == RedisCommand::Exists(key),
{
    RedisCommand::Exists(key)
}

/// Fail-open reading of a lookup round trip: a reply passes through, and
/// a failure of any kind — connection drop, protocol error — counts as a
/// miss.
pub fn interpret_get(reply: Result<Option<String>, String>) -> (r: Option<String>)
    ensures
        r == match reply {
            Ok(v) => v,
            Err(_) => None::<String>,
        },
{
    match reply {
        Ok(v) => v,
        Err(_) => None,
    }
}

/// Fail-open reading of an existence round trip: the remote count decides,
/// and a failure of any kind counts as absent.
pub fn interpret_exists(reply: Result<u64, String>) -> (r: bool)
    ensures
        r == match reply {
            Ok(n) => n > 0,
            Err(_) => false,
        },
{
    match reply {
        Ok(n) => n > 0,
        Err(_) => false,
    }
}

/// Reading of the liveness probe at construction: only a successful probe
/// yields a usable backend; every failure aborts construction with a
/// cache error naming the probe.
pub fn interpret_ping(reply: Result<String, String>) -> (r: Result<(), Error>)
    ensures
        r is Ok <==> reply is Ok,
        (match r {
            Ok(_) => true,
            Err(e) => match e {
                Error::Cache(m) => reply matches Err(t) && m@ == "Redis ping failed: "@ + t@,
                _ => false,
            },
        }),
{
    match reply {
        Ok(_) => Ok(()),
        Err(t) => {
            let mut m = String::from_str("Redis ping failed: ");
            m.append(t.as_str());
            Err(Error::Cache(m))
        },
    }
}

/// Map a connection failure at construction onto the cache error that
/// aborts construction.
pub fn connection_error(detail: String) -> (r: Error)
    ensures
        r matches Error::Cache(m) && m@ == "Redis connection failed: "@ + detail@,
{
    let mut m = String::from_str("Redis connection failed: ");
    m.append(detail.as_str());
    Error::Cache(m)
}

/// Remote fail-open, stated whole: whatever a round trip came to, a
/// lookup never reports more than a miss and an existence check never
/// reports more than absence; neither ever reports an error.
pub proof fn lemma_remote_fail_open(
    get_reply: Result<Option<String>, String>,
    exists_reply: Result<u64, String>,
)
    ensures
        get_reply is Err ==> (match get_reply {
            Ok(v) => v,
            Err(_) => None::<String>,
        }) is None,
        exists_reply is Err ==> !(match exists_reply {
            Ok(n) => n > 0,
            Err(_) => false,
        }),
{
}

} // verus!
