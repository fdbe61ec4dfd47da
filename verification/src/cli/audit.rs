//! Audit and session records, and where the tool keeps its data.

use vstd::prelude::*;
use crate::text::{encode_upper, hex_upper};
use crate::types::{spec_module_debug_name, Module};

verus! {

/// Which write operation an audit record is about.
#[derive(Clone, Copy, Debug, PartialEq, Eq, Structural)]
pub enum AuditOperation {
    /// A direct feature write.
    Write,
    /// A module restore from a snapshot.
    Restore,
}

/// One audit record of an as-built write.
#[derive(Clone, Debug)]
pub struct AuditEntry {
    pub timestamp: String,
    pub operation: AuditOperation,
    /// The module's variant name (e.g. `"Bcm"`).
    pub module: String,
    pub did: u16,
    /// The block data before the write, in upper-case hexadecimal.
    pub before_hex: String,
    /// The block data after the write, in upper-case hexadecimal.
    pub after_hex: String,
    /// The write was a dry run: nothing was sent.
    pub dry_run: bool,
    /// `"ok"`, or the error.
    pub result: String,
}

/// Builds the audit record of a write.
pub fn audit_entry(
    timestamp: String,
    operation: AuditOperation,
    module: Module,
    did: u16,
    before: &[u8],
    after: &[u8],
    dry_run: bool,
    result: &str,
) -> (r: AuditEntry)
    ensures
        r.timestamp@ == timestamp@,
        r.operation == operation,
        r.module@ == spec_module_debug_name(module),
        r.did == did,
        r.before_hex@ == hex_upper(before@),
        r.after_hex@ == hex_upper(after@),
        r.dry_run == dry_run,
        r.result@ == result@,
{
    AuditEntry {
        timestamp,
        operation,
        module: String::from_str(module.debug_name()),
        did,
        before_hex: encode_upper(before),
        after_hex: encode_upper(after),
        dry_run,
        result: String::from_str(result),
    }
}

/// The result text of an operation: `"ok"`, or `"error: "` and the error.
pub open spec fn outcome_text(error: Option<Seq<char>>) -> Seq<char> {
    match error {
        None => "ok"@,
        Some(e) => "error: "@ + e,
    }
}

/// The result text of an operation that failed with `error`, if it did.
pub fn outcome(error: Option<&str>) -> (r: String)
    ensures
        r@ == outcome_text(
            match error {
                None => None,
                Some(e) => Some(e@),
            },
        ),
{
    match error {
        None => String::from_str("ok"),
        Some(e) => {
            let mut s = String::from_str("error: ");
            s.append(e);
            s
        },
    }
}

/// One record of the session log.
#[derive(Clone, Debug)]
pub struct SessionEntry {
    pub timestamp: String,
    /// The command label (e.g. `"read-dtc"`).
    pub command: String,
    /// The adapter device path.
    pub adapter: String,
    pub duration_ms: u64,
    /// `"ok"`, or the error.
    pub result: String,
}

/// `base` joined with the relative path component `part` (the behaviour of `Path::join`
/// for a relative component): a separator is inserted unless `base` is empty or already
/// ends with one.
pub open spec fn path_join(base: Seq<char>, part: Seq<char>) -> Seq<char> {
    if base.len() == 0 {
        part
    } else if base.last() == '/' {
        base + part
    } else {
        base + "/"@ + part
    }
}

fn join_path(base: &str, part: &str) -> (r: String)
    ensures
        r@ == path_join(base@, part@),
{
    let cs = crate::text::chars_of(base);
    let mut s = String::from_str(base);
    if cs.len() > 0 && cs[cs.len() - 1] != '/' {
        s.append("/");
    }
    s.append(part);
    proof {
        if base@.len() > 0 && base@.last() != '/' {
            assert(s@ =~= base@ + "/"@ + part@);
        }
    }
    s
}

/// The tool's data directory: `$XDG_DATA_HOME/faraday`, else `$HOME/.local/share/faraday`,
/// else `./faraday`.
pub open spec fn data_dir_path(xdg_data_home: Option<Seq<char>>, home: Option<Seq<char>>) -> Seq<
    char,
> {
    let base = match xdg_data_home {
        Some(x) => x,
        None => match home {
            Some(h) => path_join(path_join(h, ".local"@), "share"@),
            None => "."@,
        },
    };
    path_join(base, "faraday"@)
}

/// Resolves the data directory from the two environment variables' values.
pub fn data_dir(xdg_data_home: Option<&str>, home: Option<&str>) -> (r: String)
    ensures
        r@ == data_dir_path(
            match xdg_data_home {
                Some(x) => Some(x@),
                None => None,
            },
            match home {
                Some(h) => Some(h@),
                None => None,
            },
        ),
{
    let base = match xdg_data_home {
        Some(x) => String::from_str(x),
        None => match home {
            Some(h) => {
                let local = join_path(h, ".local");
                join_path(local.as_str(), "share")
            },
            None => String::from_str("."),
        },
    };
    join_path(base.as_str(), "faraday")
}

/// The directory of the snapshots, inside the data directory.
pub fn snapshot_dir(data_dir: &str) -> (r: String)
    ensures
        r@ == path_join(data_dir@, "snapshots"@),
{
    join_path(data_dir, "snapshots")
}

/// The path of a file inside a directory.
pub fn file_in(dir: &str, name: &str) -> (r: String)
    ensures
        r@ == path_join(dir@, name@),
{
    join_path(dir, name)
}

/// Where audit records are appended: `audit.jsonl` in the data directory.
#[derive(Clone, Debug)]
pub struct AuditLogger {
    pub path: String,
}

impl AuditLogger {
    /// The audit log of the data directory `data_dir`.
    pub fn in_dir(data_dir: &str) -> (r: AuditLogger)
        ensures
            r.path@ == path_join(data_dir@, "audit.jsonl"@),
    {
        AuditLogger { path: join_path(data_dir, "audit.jsonl") }
    }
}

/// Where session records are appended: `sessions.jsonl` in the data directory.
#[derive(Clone, Debug)]
pub struct SessionLogger {
    pub path: String,
}

impl SessionLogger {
    /// The session log of the data directory `data_dir`.
    pub fn in_dir(data_dir: &str) -> (r: SessionLogger)
        ensures
            r.path@ == path_join(data_dir@, "sessions.jsonl"@),
    {
        SessionLogger { path: join_path(data_dir, "sessions.jsonl") }
    }
}

} // verus!
