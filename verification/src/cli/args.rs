//! The tool's command line and how its values are interpreted.

use vstd::prelude::*;
use crate::commands::diagnostics::dtc_mode;
use crate::protocol::uds::DiagnosticSession;
use crate::scan::{parse_unsigned, parse_unsigned_radix};
use crate::text::{chars_of, string_from_chars};
use crate::types::{DtcKind, Module};

verus! {

/// Target module of a command.
#[derive(Clone, Copy, Debug, PartialEq, Eq, Structural)]
pub enum ModuleArg {
    Pcm,
    Tcm,
    Abs,
    Rcm,
    Pscm,
    Bcm,
    Ipc,
    Apim,
    Pam,
    Dsm,
}

/// The module a module argument names.
pub open spec fn module_of(arg: ModuleArg) -> Module {
    match arg {
        ModuleArg::Pcm => Module::Pcm,
        ModuleArg::Tcm => Module::Tcm,
        ModuleArg::Abs => Module::Abs,
        ModuleArg::Rcm => Module::Rcm,
        ModuleArg::Pscm => Module::Pscm,
        ModuleArg::Bcm => Module::Bcm,
        ModuleArg::Ipc => Module::Ipc,
        ModuleArg::Apim => Module::Apim,
        ModuleArg::Pam => Module::Pam,
        ModuleArg::Dsm => Module::Dsm,
    }
}

impl From<ModuleArg> for Module {
    fn from(arg: ModuleArg) -> (r: Module) {
        match arg {
            ModuleArg::Pcm => Module::Pcm,
            ModuleArg::Tcm => Module::Tcm,
            ModuleArg::Abs => Module::Abs,
            ModuleArg::Rcm => Module::Rcm,
            ModuleArg::Pscm => Module::Pscm,
            ModuleArg::Bcm => Module::Bcm,
            ModuleArg::Ipc => Module::Ipc,
            ModuleArg::Apim => Module::Apim,
            ModuleArg::Pam => Module::Pam,
            ModuleArg::Dsm => Module::Dsm,
        }
    }
}

impl vstd::std_specs::convert::FromSpecImpl<ModuleArg> for Module {
    open spec fn obeys_from_spec() -> bool {
        true
    }

    open spec fn from_spec(arg: ModuleArg) -> Module {
        module_of(arg)
    }
}

/// How the VIN is read.
#[derive(Clone, Copy, Debug, PartialEq, Eq, Structural)]
pub enum VinMethod {
    J1979,
    Uds,
}

/// A diagnostic session named on the command line.
#[derive(Clone, Copy, Debug, PartialEq, Eq, Structural)]
pub enum SessionArg {
    Default,
    Programming,
    Extended,
}

/// The session a session argument names.
pub open spec fn session_of(arg: SessionArg) -> DiagnosticSession {
    match arg {
        SessionArg::Default => DiagnosticSession::Default,
        SessionArg::Programming => DiagnosticSession::Programming,
        SessionArg::Extended => DiagnosticSession::Extended,
    }
}

impl From<SessionArg> for DiagnosticSession {
    fn from(arg: SessionArg) -> (r: DiagnosticSession) {
        match arg {
            SessionArg::Default => DiagnosticSession::Default,
            SessionArg::Programming => DiagnosticSession::Programming,
            SessionArg::Extended => DiagnosticSession::Extended,
        }
    }
}

impl vstd::std_specs::convert::FromSpecImpl<SessionArg> for DiagnosticSession {
    open spec fn obeys_from_spec() -> bool {
        true
    }

    open spec fn from_spec(arg: SessionArg) -> DiagnosticSession {
        session_of(arg)
    }
}

/// As-built subcommands (paths are carried as text).
#[derive(Clone, Debug)]
pub enum AsBuiltAction {
    Dump { module: ModuleArg },
    Show { module: ModuleArg, feature: String },
    Write { module: ModuleArg, feature: String, value: String, dry_run: bool, yes: bool },
    Snapshot { module: ModuleArg, output: Option<String> },
    Restore { snapshot: String, yes: bool },
}

/// Profile subcommands.
#[derive(Clone, Debug)]
pub enum ProfileAction {
    Apply { file: String, dry_run: bool, yes: bool },
    Validate { file: String },
}

/// The tool's commands.
#[derive(Clone, Debug)]
pub enum Commands {
    ReadDtc { module: ModuleArg, stored: bool, pending: bool, permanent: bool },
    ClearDtc { module: ModuleArg },
    Live { pids: Vec<String>, module: ModuleArg, interval: u64 },
    Vin { method: VinMethod },
    ReadDid { module: ModuleArg, did: String },
    Session { module: ModuleArg, session: SessionArg },
    Asbuilt { action: AsBuiltAction },
    Profile { action: ProfileAction },
}

/// The parsed command line.
#[derive(Clone, Debug)]
pub struct Args {
    pub verbose: u8,
    pub adapter: String,
    pub command: Commands,
}

/// The label under which a command is logged.
pub open spec fn label_of(cmd: Commands) -> Seq<char> {
    match cmd {
        Commands::ReadDtc { .. } => "read-dtc"@,
        Commands::ClearDtc { .. } => "clear-dtc"@,
        Commands::Live { .. } => "live"@,
        Commands::Vin { .. } => "vin"@,
        Commands::ReadDid { did, .. } => "read-did "@ + did@,
        Commands::Session { .. } => "session"@,
        Commands::Asbuilt { action } => match action {
            AsBuiltAction::Dump { .. } => "asbuilt dump"@,
            AsBuiltAction::Show { feature, .. } => "asbuilt show "@ + feature@,
            AsBuiltAction::Write { feature, .. } => "asbuilt write "@ + feature@,
            AsBuiltAction::Snapshot { .. } => "asbuilt snapshot"@,
            AsBuiltAction::Restore { .. } => "asbuilt restore"@,
        },
        Commands::Profile { action } => match action {
            ProfileAction::Apply { file, .. } => "profile apply "@ + file@,
            ProfileAction::Validate { file } => "profile validate "@ + file@,
        },
    }
}

fn prefixed(prefix: &str, rest: &String) -> (r: String)
    ensures
        r@ == prefix@ + rest@,
{
    let mut s = String::from_str(prefix);
    s.append(rest.as_str());
    s
}

/// The label under which a command is logged.
pub fn command_label(cmd: &Commands) -> (r: String)
    ensures
        r@ == label_of(*cmd),
{
    match cmd {
        Commands::ReadDtc { .. } => String::from_str("read-dtc"),
        Commands::ClearDtc { .. } => String::from_str("clear-dtc"),
        Commands::Live { .. } => String::from_str("live"),
        Commands::Vin { .. } => String::from_str("vin"),
        Commands::ReadDid { did, .. } => prefixed("read-did ", did),
        Commands::Session { .. } => String::from_str("session"),
        Commands::Asbuilt { action } => match action {
            AsBuiltAction::Dump { .. } => String::from_str("asbuilt dump"),
            AsBuiltAction::Show { feature, .. } => prefixed("asbuilt show ", feature),
            AsBuiltAction::Write { feature, .. } => prefixed("asbuilt write ", feature),
            AsBuiltAction::Snapshot { .. } => String::from_str("asbuilt snapshot"),
            AsBuiltAction::Restore { .. } => String::from_str("asbuilt restore"),
        },
        Commands::Profile { action } => match action {
            ProfileAction::Apply { file, .. } => prefixed("profile apply ", file),
            ProfileAction::Validate { file } => prefixed("profile validate ", file),
        },
    }
}

/// The trouble-code kinds a `read-dtc` reads: the flagged ones, or all when none is.
pub open spec fn dtc_kinds_read(stored: bool, pending: bool, permanent: bool) -> Seq<DtcKind> {
    let all = !stored && !pending && !permanent;
    (if stored || all {
        seq![DtcKind::Stored]
    } else {
        seq![]
    }) + (if pending || all {
        seq![DtcKind::Pending]
    } else {
        seq![]
    }) + (if permanent || all {
        seq![DtcKind::Permanent]
    } else {
        seq![]
    })
}

/// The trouble-code kinds a `read-dtc` reads, in order.
pub fn dtc_kinds(stored: bool, pending: bool, permanent: bool) -> (r: Vec<DtcKind>)
    ensures
        r@ == dtc_kinds_read(stored, pending, permanent),
{
    let all = !stored && !pending && !permanent;
    let mut r: Vec<DtcKind> = Vec::new();
    if stored || all {
        r.push(DtcKind::Stored);
    }
    if pending || all {
        r.push(DtcKind::Pending);
    }
    if permanent || all {
        r.push(DtcKind::Permanent);
    }
    proof {
        assert(r@ =~= dtc_kinds_read(stored, pending, permanent));
    }
    r
}

/// The heading printed above the trouble codes of a kind.
pub fn dtc_kind_header(kind: DtcKind) -> (r: &'static str)
    ensures
        r@ == (match kind {
            DtcKind::Stored => "Stored DTCs"@,
            DtcKind::Pending => "Pending DTCs"@,
            DtcKind::Permanent => "Permanent DTCs"@,
        }),
{
    match kind {
        DtcKind::Stored => "Stored DTCs",
        DtcKind::Pending => "Pending DTCs",
        DtcKind::Permanent => "Permanent DTCs",
    }
}

/// `s` without all its leading `"0x"` (the behaviour of `trim_start_matches("0x")`).
pub open spec fn strip_hex_prefix(s: Seq<char>) -> Seq<char>
    decreases s.len(),
{
    if s.len() >= 2 && s[0] == '0' && s[1] == 'x' {
        strip_hex_prefix(s.skip(2))
    } else {
        s
    }
}

fn strip_0x(s: &str) -> (r: String)
    ensures
        r@ == strip_hex_prefix(s@),
{
    let cs = chars_of(s);
    let mut i: usize = 0;
    proof {
        assert(s@.skip(0) =~= s@);
    }
    while cs.len() - i >= 2 && cs[i] == '0' && cs[i + 1] == 'x'
        invariant
            cs@ == s@,
            i <= cs@.len(),
            strip_hex_prefix(s@) == strip_hex_prefix(s@.skip(i as int)),
        decreases cs@.len() - i,
    {
        proof {
            assert(s@.skip(i as int).skip(2) =~= s@.skip(i + 2));
        }
        i = i + 2;
    }
    let mut out: Vec<char> = Vec::new();
    let mut j = i;
    while j < cs.len()
        invariant
            cs@ == s@,
            i <= j <= cs@.len(),
            out@ == s@.subrange(i as int, j as int),
        decreases cs@.len() - j,
    {
        out.push(cs[j]);
        j = j + 1;
        proof {
            assert(out@ =~= s@.subrange(i as int, j as int));
        }
    }
    proof {
        assert(out@ =~= s@.skip(i as int));
    }
    string_from_chars(out.as_slice())
}

/// Parses a PID argument: hexadecimal, with any leading `0x` removed.
pub fn parse_pid_arg(s: &str) -> (r: Option<u8>)
    ensures
        r matches Some(v) ==> parse_unsigned(strip_hex_prefix(s@), 16, 0xFF) == Some(v as nat),
        r is None ==> parse_unsigned(strip_hex_prefix(s@), 16, 0xFF) is None,
{
    let body = strip_0x(s);
    match parse_unsigned_radix(body.as_str(), 16, 0xFF) {
        Some(v) => Some(v as u8),
        None => None,
    }
}

/// Parses a DID argument: hexadecimal, with any leading `0x` removed.
pub fn parse_did_arg(s: &str) -> (r: Option<u16>)
    ensures
        r matches Some(v) ==> parse_unsigned(strip_hex_prefix(s@), 16, 0xFFFF) == Some(v as nat),
        r is None ==> parse_unsigned(strip_hex_prefix(s@), 16, 0xFFFF) is None,
{
    let body = strip_0x(s);
    match parse_unsigned_radix(body.as_str(), 16, 0xFFFF) {
        Some(v) => Some(v as u16),
        None => None,
    }
}

} // verus!
