//! The emulated adapter's command language (STN/ELM327): parsing a command line and the
//! text the adapter answers with.

use vstd::prelude::*;
use crate::scan::{
    parse_unsigned, parse_unsigned_radix, split_first, split_once, starts_with_seq,
    str_starts_with, trim, trim_ws,
};
use crate::text::{chars_of, encode_upper, hex_decode, hex_decoded, hex_upper, hex_width, push_hex_width, str_eq};
use crate::types::{CanFrame, spec_effective_id};

verus! {

/// A decoded adapter command.
#[derive(Debug)]
pub enum StnCommand {
    /// `ATZ`: reset.
    Atz,
    /// `STI`: identify.
    Sti,
    /// `STSLBRP`: set sleep baud rate period.
    Stslbrp,
    /// `STFAP`: filter all packets.
    Stfap,
    /// `STCP 24`: select HS-CAN.
    StcpHsCan,
    /// `STCP 25`: select MS-CAN.
    StcpMsCan,
    /// `STPX H:<id>,<n>,<hex>`: transmit a CAN frame.
    Stpx { can_id: u32, data: Vec<u8> },
    /// `STRX`: receive the next queued frame.
    Strx,
    /// Anything else.
    Unknown,
}

/// The Unicode upper-casing of a text (what `str::to_uppercase` returns for it).
pub uninterp spec fn unicode_upper(s: Seq<char>) -> Seq<char>;

/// Upper-cases a text by the Unicode rules.
///
/// Calls `str::to_uppercase`, which maps each character to its Unicode uppercase form
/// (independently of any locale); the contract names that result without restating the
/// Unicode tables.
#[verifier::external_body]
fn to_uppercase(s: &str) -> (r: String)
    ensures
        r@ == unicode_upper(s@),
{
    s.to_uppercase()
}

/// `s` without every leading repetition of the non-empty `p` (the behaviour of
/// `trim_start_matches` with a string pattern).
pub open spec fn strip_all(s: Seq<char>, p: Seq<char>) -> Seq<char>
    decreases s.len(),
{
    if p.len() > 0 && starts_with_seq(s, p) {
        strip_all(s.skip(p.len() as int), p)
    } else {
        s
    }
}

fn strip_all_exec(s: &str, p: &str) -> (r: String)
    requires
        p@.len() > 0,
    ensures
        r@ == strip_all(s@, p@),
{
    let cs = chars_of(s);
    let pl = chars_of(p).len();
    let n = cs.len();
    let mut i: usize = 0;
    let mut rest = String::from_str(s);
    proof {
        assert(s@.skip(0) =~= s@);
    }
    while str_starts_with(rest.as_str(), p)
        invariant
            cs@ == s@,
            pl == p@.len(),
            pl > 0,
            n == cs@.len(),
            i <= cs@.len(),
            rest@ == s@.skip(i as int),
            strip_all(s@, p@) == strip_all(rest@, p@),
        decreases cs@.len() - i,
    {
        proof {
            assert(p@.len() <= rest@.len());
        }
        let next = i + pl;
        proof {
            assert(rest@.skip(pl as int) =~= s@.skip(next as int));
        }
        rest = crate::scan::string_of_range(&cs, next, n);
        proof {
            assert(rest@ =~= s@.skip(next as int));
        }
        i = next;
    }
    rest
}

/// The command an `STPX` line describes, or `None` when it is malformed: after the `STPX`
/// keyword (and blanks) and an optional `H:`, the hexadecimal identifier, a count that is
/// not used, and the hexadecimal data, separated by commas.
pub open spec fn stpx_fields(line: Seq<char>) -> Option<(u32, Seq<u8>)> {
    let body = strip_all(trim_ws(strip_all(line, "STPX"@)), "H:"@);
    match split_once(body, ',') {
        None => None,
        Some((p0, rest)) => match split_once(rest, ',') {
            None => None,
            Some((_p1, p2)) => match parse_unsigned(trim_ws(p0), 16, 0xFFFF_FFFF) {
                None => None,
                Some(id) => match hex_decoded(trim_ws(p2)) {
                    None => None,
                    Some(data) => Some((id as u32, data)),
                },
            },
        },
    }
}

/// `c` is the command described by `fields` (an `STPX` command, or `Unknown` if none).
pub open spec fn is_stpx_command(c: StnCommand, fields: Option<(u32, Seq<u8>)>) -> bool {
    match fields {
        None => c is Unknown,
        Some((id, data)) => c matches StnCommand::Stpx { can_id, data: d } && can_id == id && d@
            == data,
    }
}

/// Parses an `STPX` command line.
pub fn parse_stpx(line: &str) -> (r: StnCommand)
    ensures
        is_stpx_command(r, stpx_fields(line@)),
{
    proof {
        reveal_strlit("STPX");
        reveal_strlit("H:");
    }
    let a = strip_all_exec(line, "STPX");
    let b = trim(a.as_str());
    let body = strip_all_exec(b.as_str(), "H:");
    let (p0, rest) = match split_first(body.as_str(), ',') {
        None => {
            return StnCommand::Unknown;
        },
        Some(p) => p,
    };
    let (_p1, p2) = match split_first(rest.as_str(), ',') {
        None => {
            return StnCommand::Unknown;
        },
        Some(p) => p,
    };
    let id_text = trim(p0.as_str());
    let can_id = match parse_unsigned_radix(id_text.as_str(), 16, 0xFFFF_FFFF) {
        None => {
            return StnCommand::Unknown;
        },
        Some(v) => v,
    };
    let data_text = trim(p2.as_str());
    match hex_decode(data_text.as_str()) {
        None => StnCommand::Unknown,
        Some(data) => StnCommand::Stpx { can_id, data },
    }
}

/// `c` is the command an upper-cased, trimmed command line `u` names.
pub open spec fn is_command_for(u: Seq<char>, c: StnCommand) -> bool {
    if u == "ATZ"@ {
        c is Atz
    } else if u == "STI"@ {
        c is Sti
    } else if u == "STSLBRP"@ {
        c is Stslbrp
    } else if u == "STFAP"@ {
        c is Stfap
    } else if u == "STCP 24"@ {
        c is StcpHsCan
    } else if u == "STCP 25"@ {
        c is StcpMsCan
    } else if u == "STRX"@ {
        c is Strx
    } else if starts_with_seq(u, "STPX"@) {
        is_stpx_command(c, stpx_fields(u))
    } else {
        c is Unknown
    }
}

/// Decodes an upper-cased, trimmed command line.
pub fn parse_upper_command(upper: &str) -> (r: StnCommand)
    ensures
        is_command_for(upper@, r),
{
    if str_eq(upper, "ATZ") {
        StnCommand::Atz
    } else if str_eq(upper, "STI") {
        StnCommand::Sti
    } else if str_eq(upper, "STSLBRP") {
        StnCommand::Stslbrp
    } else if str_eq(upper, "STFAP") {
        StnCommand::Stfap
    } else if str_eq(upper, "STCP 24") {
        StnCommand::StcpHsCan
    } else if str_eq(upper, "STCP 25") {
        StnCommand::StcpMsCan
    } else if str_eq(upper, "STRX") {
        StnCommand::Strx
    } else if str_starts_with(upper, "STPX") {
        parse_stpx(upper)
    } else {
        StnCommand::Unknown
    }
}

/// Decodes a command line received from the serial port: trimmed, upper-cased, then
/// matched.
pub fn parse_command(line: &str) -> (r: StnCommand)
    ensures
        is_command_for(unicode_upper(trim_ws(line@)), r),
{
    let t = trim(line);
    let upper = to_uppercase(t.as_str());
    parse_upper_command(upper.as_str())
}

/// The text the adapter answers a command with, when it does not depend on the queue.
pub open spec fn fixed_reply_text(c: StnCommand) -> Option<Seq<char>> {
    match c {
        StnCommand::Atz => Some("ELM327 v1.5\r\n>"@),
        StnCommand::Sti => Some("OBDII to RS232 Interpreter\r\n>"@),
        StnCommand::Stslbrp | StnCommand::Stfap | StnCommand::StcpHsCan | StnCommand::StcpMsCan
        | StnCommand::Stpx { .. } => Some("OK\r\n>"@),
        StnCommand::Strx => None,
        StnCommand::Unknown => Some("?\r\n>"@),
    }
}

/// The answer to a command other than `STRX`.
pub fn command_reply(cmd: &StnCommand) -> (r: Option<&'static str>)
    ensures
        match fixed_reply_text(*cmd) {
            None => r is None,
            Some(t) => r matches Some(s) && s@ == t,
        },
{
    match cmd {
        StnCommand::Atz => Some("ELM327 v1.5\r\n>"),
        StnCommand::Sti => Some("OBDII to RS232 Interpreter\r\n>"),
        StnCommand::Stslbrp | StnCommand::Stfap | StnCommand::StcpHsCan | StnCommand::StcpMsCan
        | StnCommand::Stpx { .. } => Some("OK\r\n>"),
        StnCommand::Strx => None,
        StnCommand::Unknown => Some("?\r\n>"),
    }
}

/// The answer to `STRX`: the oldest queued frame as `ID,HEXDATA`, or an empty line.
pub open spec fn receive_reply_text(frame: Option<CanFrame>) -> Seq<char> {
    match frame {
        None => "\r\n>"@,
        Some(f) => hex_width(spec_effective_id(f.id.0) as nat, 3) + ","@ + hex_upper(f.data@)
            + "\r\n>"@,
    }
}

/// Renders the answer to `STRX`.
pub fn receive_reply(frame: Option<&CanFrame>) -> (r: String)
    ensures
        r@ == receive_reply_text(
            match frame {
                None => None,
                Some(f) => Some(*f),
            },
        ),
{
    match frame {
        None => String::from_str("\r\n>"),
        Some(f) => {
            let mut s = String::new();
            push_hex_width(&mut s, f.id.id() as u64, 3);
            s.append(",");
            let hex = encode_upper(f.data.as_slice());
            s.append(hex.as_str());
            s.append("\r\n>");
            proof {
                assert(s@ =~= receive_reply_text(Some(*f)));
            }
            s
        },
    }
}

} // verus!
