//! The vLinker FS text protocol: the commands sent to the adapter and the decoding of its
//! replies. The adapter answers each command with lines separated by `\r` and ends with a
//! `>` prompt; received CAN frames come back as `ID,HEXDATA`.

use vstd::prelude::*;
use crate::error::{Error, is_invalid_frame_error, is_link_error};
use crate::scan::{
    contains_seq, parse_unsigned, split_char, split_lines, split_seq, str_contains, trim,
    trim_ws,
};
use crate::text::{
    encode_upper, eq_ignore_ascii_case, eq_ignore_case, hex_decode, hex_decoded, hex_upper,
    hex_width, push_hex_width,
};
use crate::types::{CanBus, CanFrame, CanId};

verus! {

/// How many `STRX` polls a frame receive makes before it times out.
pub const MAX_RECEIVE_RETRIES: u32 = 50;

/// The `k`-th reply fragment that signals an unrecoverable adapter error.
pub open spec fn fatal_response(k: int) -> Seq<char> {
    if k == 0 {
        "UNABLE TO CONNECT"@
    } else if k == 1 {
        "CAN ERROR"@
    } else if k == 2 {
        "BUS ERROR"@
    } else if k == 3 {
        "FB ERROR"@
    } else if k == 4 {
        "DATA ERROR"@
    } else {
        "BUFFER FULL"@
    }
}

/// `s` holds one of the fatal reply fragments.
pub open spec fn has_fatal_response(s: Seq<char>) -> bool {
    exists|k: int| 0 <= k < 6 && contains_seq(s, #[trigger] fatal_response(k))
}

fn contains_fatal(s: &str) -> (r: bool)
    ensures
        r == has_fatal_response(s@),
{
    let found = str_contains(s, "UNABLE TO CONNECT") || str_contains(s, "CAN ERROR")
        || str_contains(s, "BUS ERROR") || str_contains(s, "FB ERROR") || str_contains(
        s,
        "DATA ERROR",
    ) || str_contains(s, "BUFFER FULL");
    proof {
        if found {
            if contains_seq(s@, fatal_response(0)) {
            } else if contains_seq(s@, fatal_response(1)) {
            } else if contains_seq(s@, fatal_response(2)) {
            } else if contains_seq(s@, fatal_response(3)) {
            } else if contains_seq(s@, fatal_response(4)) {
            } else {
                assert(contains_seq(s@, fatal_response(5)));
            }
        } else {
            assert forall|k: int| 0 <= k < 6 implies !contains_seq(
                s@,
                #[trigger] fatal_response(k),
            ) by {
                if k == 0 {
                } else if k == 1 {
                } else if k == 2 {
                } else if k == 3 {
                } else if k == 4 {
                } else {
                }
            }
        }
    }
    found
}

/// What a `STRX` reply holds.
pub enum FrameReply {
    /// No frame (blank, `NO DATA`, or not of the form `ID,DATA`).
    NoFrame,
    /// A fatal adapter message (the trimmed reply).
    Fatal(Seq<char>),
    /// The identifier is not hexadecimal or does not fit 32 bits.
    BadId,
    /// The data is not hexadecimal bytes.
    BadData,
    /// A frame with this identifier and data.
    Frame(u32, Seq<u8>),
}

/// How a `STRX` reply is read.
pub open spec fn frame_reply(response: Seq<char>) -> FrameReply {
    let t = trim_ws(response);
    let parts = split_seq(t, |c: char| c == ',');
    if t.len() == 0 || contains_seq(t, "NO DATA"@) {
        FrameReply::NoFrame
    } else if has_fatal_response(t) {
        FrameReply::Fatal(t)
    } else if parts.len() < 2 {
        FrameReply::NoFrame
    } else {
        match parse_unsigned(trim_ws(parts[0]), 16, 0xFFFF_FFFF) {
            None => FrameReply::BadId,
            Some(id) => match hex_decoded(trim_ws(parts[1])) {
                None => FrameReply::BadData,
                Some(data) => FrameReply::Frame(id as u32, data),
            },
        }
    }
}

/// Decodes a `STRX` reply: `Ok(None)` when it holds no frame, the frame `ID,HEXDATA`
/// otherwise; fatal adapter messages and malformed frames are errors.
pub fn parse_can_frame(response: &str) -> (r: Result<Option<CanFrame>, Error>)
    ensures
        match frame_reply(response@) {
            FrameReply::NoFrame => r matches Ok(None),
            FrameReply::Fatal(t) => r matches Err(e) && is_link_error(e, "Adapter error: "@ + t),
            FrameReply::BadId => r matches Err(e) && is_invalid_frame_error(e, "Invalid CAN ID"@),
            FrameReply::BadData => r matches Err(e) && is_invalid_frame_error(
                e,
                "Invalid hex data"@,
            ),
            FrameReply::Frame(id, data) => r matches Ok(Some(f)) && f.id.0 == id && f.data@
                == data,
        },
{
    let t = trim(response);
    if t.as_str().unicode_len() == 0 || str_contains(t.as_str(), "NO DATA") {
        return Ok(None);
    }
    if contains_fatal(t.as_str()) {
        let mut m = String::from_str("Adapter error: ");
        m.append(t.as_str());
        return Err(Error::Link { message: m });
    }
    let parts = split_char(t.as_str(), ',');
    if parts.len() < 2 {
        return Ok(None);
    }
    proof {
        assert(parts@[0]@ == split_seq(t@, |c: char| c == ',')[0]);
        assert(parts@[1]@ == split_seq(t@, |c: char| c == ',')[1]);
    }
    let id_str = trim(parts[0].as_str());
    let data_str = trim(parts[1].as_str());
    let id = match crate::scan::parse_unsigned_radix(id_str.as_str(), 16, 0xFFFF_FFFF) {
        Some(id) => id,
        None => {
            return Err(Error::invalid_frame("Invalid CAN ID"));
        },
    };
    let data = match hex_decode(data_str.as_str()) {
        Some(d) => d,
        None => {
            return Err(Error::invalid_frame("Invalid hex data"));
        },
    };
    Ok(Some(CanFrame::new(CanId::new(id), data)))
}

/// The reply line a command produced: the last non-blank line (trimmed) that is not the
/// echo of the command itself, or the empty text when there is none.
pub open spec fn reply_line(lines: Seq<Seq<char>>, command: Seq<char>) -> Seq<char>
    decreases lines.len(),
{
    if lines.len() == 0 {
        seq![]
    } else {
        let l = trim_ws(lines.last());
        if l.len() > 0 && !eq_ignore_case(command, l) {
            l
        } else {
            reply_line(lines.drop_last(), command)
        }
    }
}

/// Picks the reply line out of the text an adapter sent for `command`; a reply line that
/// holds `ERROR` is the failure of the command.
pub fn command_reply(text: &str, command: &str) -> (r: Result<String, Error>)
    ensures
        ({
            let line = reply_line(
                split_seq(text@, |c: char| c == '\r' || c == '\n'),
                trim_ws(command@),
            );
            if contains_seq(line, "ERROR"@) {
                r matches Err(e) && is_link_error(e, "Command failed: "@ + line)
            } else {
                r matches Ok(s) && s@ == line
            }
        }),
{
    let lines = split_lines(text);
    let cmd = trim(command);
    let ghost all = split_seq(text@, |c: char| c == '\r' || c == '\n');
    let mut k: usize = lines.len();
    let mut line = String::new();
    let mut found = false;
    proof {
        assert(all.take(k as int) =~= all);
    }
    while k > 0 && !found
        invariant
            k <= lines@.len(),
            lines@.map_values(|s: String| s@) == all,
            cmd@ == trim_ws(command@),
            !found ==> reply_line(all, cmd@) == reply_line(all.take(k as int), cmd@),
            found ==> line@ == reply_line(all, cmd@),
            !found ==> line@ == Seq::<char>::empty(),
        decreases k + (if found { 0int } else { 1int }),
    {
        let candidate = trim(lines[k - 1].as_str());
        proof {
            assert(lines@[k - 1]@ == all[k - 1]);
            assert(all.take(k as int).drop_last() =~= all.take(k - 1));
            assert(all.take(k as int).last() == all[k - 1]);
        }
        if candidate.as_str().unicode_len() > 0 && !eq_ignore_ascii_case(
            cmd.as_str(),
            candidate.as_str(),
        ) {
            line = candidate;
            found = true;
        } else {
            k = k - 1;
        }
    }
    proof {
        if !found {
            assert(all.take(0) =~= Seq::<Seq<char>>::empty());
            assert(line@ =~= Seq::<char>::empty());
        }
    }
    if str_contains(line.as_str(), "ERROR") {
        let mut m = String::from_str("Command failed: ");
        m.append(line.as_str());
        return Err(Error::Link { message: m });
    }
    Ok(line)
}

/// The command that transmits a CAN frame: `STPX H:<id>,0,<HEX>`.
pub open spec fn send_frame_text(id: u32, data: Seq<u8>) -> Seq<char> {
    "STPX H:"@ + hex_width(id as nat, 3) + ",0,"@ + hex_upper(data)
}

/// Builds the command that transmits `frame`.
pub fn send_frame_command(frame: &CanFrame) -> (r: String)
    ensures
        r@ == send_frame_text(crate::types::spec_effective_id(frame.id.0), frame.data@),
{
    let mut c = String::from_str("STPX H:");
    push_hex_width(&mut c, frame.id.id() as u64, 3);
    c.append(",0,");
    let hex = encode_upper(frame.data.as_slice());
    c.append(hex.as_str());
    c
}

/// The protocol-select command of a bus: `STCP 24` for HS-CAN, `STCP 25` for MS-CAN.
pub open spec fn bus_command_text(bus: CanBus) -> Seq<char> {
    match bus {
        CanBus::HsCan => "STCP 24"@,
        CanBus::MsCan => "STCP 25"@,
    }
}

/// The commands that initialise the adapter, in order.
pub open spec fn init_command_text(k: int) -> Seq<char> {
    if k == 0 {
        "ATZ"@
    } else if k == 1 {
        "STI"@
    } else if k == 2 {
        "STSLBRP"@
    } else {
        "STFAP"@
    }
}

/// The adapter's connection state as the driver sees it.
pub struct VLinkerState {
    pub port_open: bool,
    pub current_bus: Option<CanBus>,
    pub connected: bool,
}

impl VLinkerState {
    /// A fresh state; `port_open` tells whether a serial port was opened.
    pub fn new(port_open: bool) -> (r: VLinkerState)
        ensures
            r.port_open == port_open,
            r.current_bus is None,
            !r.connected,
    {
        VLinkerState { port_open, current_bus: None, connected: false }
    }

    /// Checks that a port is configured before connecting.
    pub fn check_port(&self) -> (r: Result<(), Error>)
        ensures
            r is Ok <==> self.port_open,
            r matches Err(e) ==> is_link_error(e, "Port not configured"@),
    {
        if !self.port_open {
            return Err(Error::link("Port not configured"));
        }
        Ok(())
    }

    /// The `k`-th initialisation command.
    pub fn init_command(&self, k: usize) -> (r: &'static str)
        requires
            k < 4,
        ensures
            r@ == init_command_text(k as int),
    {
        if k == 0 {
            "ATZ"
        } else if k == 1 {
            "STI"
        } else if k == 2 {
            "STSLBRP"
        } else {
            "STFAP"
        }
    }

    /// All initialisation commands were answered: the adapter is connected.
    pub fn mark_connected(&mut self)
        ensures
            final(self).connected,
            final(self).port_open == old(self).port_open,
            final(self).current_bus == old(self).current_bus,
    {
        self.connected = true;
    }

    /// Disconnecting closes the port.
    pub fn disconnect(&mut self)
        ensures
            !final(self).connected,
            !final(self).port_open,
            final(self).current_bus == old(self).current_bus,
    {
        self.connected = false;
        self.port_open = false;
    }

    /// The command that selects `bus`, or `None` when it is already selected.
    pub fn bus_switch_command(&self, bus: CanBus) -> (r: Option<&'static str>)
        ensures
            self.current_bus == Some(bus) ==> r is None,
            self.current_bus != Some(bus) ==> (r matches Some(c) && c@ == bus_command_text(bus)),
    {
        if let Some(b) = self.current_bus {
            if b == bus {
                return None;
            }
        }
        match bus {
            CanBus::HsCan => Some("STCP 24"),
            CanBus::MsCan => Some("STCP 25"),
        }
    }

    /// The adapter confirmed the bus switch.
    pub fn bus_switched(&mut self, bus: CanBus)
        ensures
            final(self).current_bus == Some(bus),
            final(self).connected == old(self).connected,
            final(self).port_open == old(self).port_open,
    {
        self.current_bus = Some(bus);
    }

    pub fn is_connected(&self) -> (r: bool)
        ensures
            r == self.connected,
    {
        self.connected
    }
}

} // verus!
