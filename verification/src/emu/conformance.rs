//! What the emulator answers is what the tool's decoders read back: the laws that tie the
//! two ends of the simulated link together.

use vstd::prelude::*;
use crate::emu::ecu::live_body;
use crate::protocol::j1979::{mode01_readings, pid_data_length};
use crate::protocol::uds::{echoed_did, is_positive_reply};
use crate::link::vlinker::{
    fatal_response, frame_reply, has_fatal_response, reply_line, FrameReply,
};
use crate::scan::{
    split_once, parse_unsigned, contains_seq, is_ws, lemma_lacks_char, lemma_split_once_at, lemma_split_two,
    lemma_trim_untouched, split_seq, starts_with_seq, trim_back, trim_front, trim_ws,
};
use crate::emu::handler::{stpx_fields, strip_all};
use crate::link::vlinker::send_frame_text;
use crate::text::{
    hex_decoded, eq_ignore_case, hex_upper, hex_width, is_upper_hex_char, is_upper_hex_text,
    law_hex_round_trip, lemma_hex_upper_text, lemma_hex_width_text, lemma_parse_hex_width,
    lower_chars,
};

verus! {

/// The readings a Mode 01 reply carries for PIDs `pids[i..]` with values `values[i..]`.
pub open spec fn readings_from(pids: Seq<u8>, values: Seq<Seq<u8>>, i: int) -> Seq<(u8, Seq<u8>)>
    decreases pids.len() - i,
{
    if i < 0 || i >= pids.len() {
        seq![]
    } else {
        seq![(pids[i], values[i])] + readings_from(pids, values, i + 1)
    }
}

proof fn lemma_live_body_len(pids: Seq<u8>, values: Seq<Seq<u8>>, i: int)
    requires
        0 <= i <= pids.len(),
        pids.len() == values.len(),
    ensures
        live_body(pids, values, i).len() >= 0,
        i < pids.len() ==> live_body(pids, values, i) == seq![pids[i]] + values[i] + live_body(
            pids,
            values,
            i + 1,
        ),
    decreases pids.len() - i,
{
}

proof fn lemma_readings_suffix(
    prefix: Seq<u8>,
    pids: Seq<u8>,
    values: Seq<Seq<u8>>,
    i: int,
)
    requires
        0 <= i <= pids.len(),
        pids.len() == values.len(),
        forall|k: int| 0 <= k < pids.len() ==> (#[trigger] values[k]).len() == pid_data_length(
            pids[k],
        ),
    ensures
        mode01_readings(prefix + live_body(pids, values, i), pids, i, prefix.len() as int)
            == readings_from(pids, values, i),
    decreases pids.len() - i,
{
    let r = prefix + live_body(pids, values, i);
    if i < pids.len() {
        let rest = live_body(pids, values, i + 1);
        lemma_live_body_len(pids, values, i);
        let off = prefix.len() as int;
        let next = prefix + seq![pids[i]] + values[i];
        assert(r =~= next + rest);
        assert(r[off] == pids[i]);
        let start = off + 1;
        let end = start + pid_data_length(pids[i]);
        assert(end <= r.len());
        assert(r.subrange(start, end) =~= values[i]);
        lemma_readings_suffix(next, pids, values, i + 1);
        assert(next.len() == end);
    } else {
        assert(mode01_readings(r, pids, i, prefix.len() as int) == Seq::<(u8, Seq<u8>)>::empty());
    }
}

/// The Mode 01 decoder reads back exactly the PIDs and values a live-data reply was
/// assembled from, provided each value has the length the decoder expects for its PID.
pub proof fn law_live_data_round_trip(pids: Seq<u8>, values: Seq<Seq<u8>>)
    requires
        pids.len() == values.len(),
        forall|k: int| 0 <= k < pids.len() ==> (#[trigger] values[k]).len() == pid_data_length(
            pids[k],
        ),
    ensures
        mode01_readings(seq![0x41u8] + live_body(pids, values, 0), pids, 0, 1) == readings_from(
            pids,
            values,
            0,
        ),
{
    lemma_readings_suffix(seq![0x41u8], pids, values, 0);
}

/// A ReadDataByIdentifier reply assembled by the emulator is a positive reply naming the
/// DID it was asked for, and carries the data after the three header bytes.
pub proof fn law_did_reply_accepted(did_high: u8, did_low: u8, data: Seq<u8>)
    ensures
        ({
            let reply = seq![0x62u8, did_high, did_low] + data;
            &&& is_positive_reply(reply, 0x22, 3)
            &&& echoed_did(reply) == did_high * 256 + did_low
            &&& reply.skip(3) == data
        }),
{
    let reply = seq![0x62u8, did_high, did_low] + data;
    assert(reply.skip(3) =~= data);
}

/// A frame line: upper-case hexadecimal digits and commas only.
spec fn is_frame_char(c: char) -> bool {
    is_upper_hex_char(c) || c == ','
}

proof fn lemma_frame_line_chars(id: u32, data: Seq<u8>)
    ensures
        ({
            let line = hex_width(id as nat, 3) + ","@ + hex_upper(data);
            &&& forall|i: int| 0 <= i < line.len() ==> is_frame_char(#[trigger] line[i])
            &&& line.len() >= 2
        }),
{
    reveal_strlit(",");
    let a = hex_width(id as nat, 3);
    let b = hex_upper(data);
    let line = a + ","@ + b;
    lemma_hex_width_text(id as nat, 3);
    lemma_hex_upper_text(data);
    assert forall|i: int| 0 <= i < line.len() implies is_frame_char(#[trigger] line[i]) by {
        if i < a.len() {
            assert(line[i] == a[i]);
        } else if i == a.len() {
            assert(line[i] == ',');
        } else {
            assert(line[i] == b[i - a.len() - 1]);
        }
    }
}

/// The frame line of an identifier and data.
pub open spec fn frame_line(id: u32, data: Seq<u8>) -> Seq<char> {
    hex_width(id as nat, 3) + ","@ + hex_upper(data)
}

proof fn lemma_frame_line_is_reply_line(id: u32, data: Seq<u8>)
    ensures
        reply_line(
            split_seq(frame_line(id, data) + "\r\n"@, |c: char| c == '\r' || c == '\n'),
            "STRX"@,
        ) == frame_line(id, data),
{
    reveal_strlit(",");
    reveal_strlit("\r\n");
    reveal_strlit("STRX");
    let a = hex_width(id as nat, 3);
    let line = frame_line(id, data);
    lemma_frame_line_chars(id, data);
    lemma_hex_width_text(id as nat, 3);
    let lb = |c: char| c == '\r' || c == '\n';
    let received = line + "\r\n"@;
    assert(received =~= line + seq!['\r'] + seq!['\n']);
    assert forall|i: int| 0 <= i < line.len() implies !lb(#[trigger] line[i]) by {
        assert(is_frame_char(line[i]));
    }
    crate::scan::lemma_split_lines_last_two(line);
    assert(!is_ws(line[0]));
    assert(is_frame_char(line.last()));
    lemma_trim_untouched(line);
    assert(trim_ws(Seq::<char>::empty()) =~= Seq::<char>::empty());
    assert(!eq_ignore_case("STRX"@, line)) by {
        let k = a.len() as int;
        if eq_ignore_case("STRX"@, line) {
            assert(lower_chars("STRX"@).len() == lower_chars(line).len());
            assert(lower_chars(line)[k] == ',');
            assert(lower_chars("STRX"@)[k] != ',');
        }
    }
    let e = Seq::<char>::empty();
    let parts = seq![line, e, e];
    assert(parts.drop_last() =~= seq![line, e]);
    assert(seq![line].last() == line);
    assert(seq![line].drop_last() =~= Seq::<Seq<char>>::empty());
    assert(reply_line(seq![line], "STRX"@) == line);
    assert(seq![line, e].last() == e);
    assert(seq![line, e].drop_last() =~= seq![line]);
    assert(reply_line(seq![line, e], "STRX"@) == line);
    assert(parts.last() == e);
    assert(reply_line(parts, "STRX"@) == line);
}

proof fn lemma_frame_line_unmarked(id: u32, data: Seq<u8>)
    ensures
        !contains_seq(frame_line(id, data), "ERROR"@),
        !contains_seq(frame_line(id, data), "NO DATA"@),
        !has_fatal_response(frame_line(id, data)),
{
    reveal_strlit("ERROR");
    reveal_strlit("NO DATA");
    reveal_strlit("UNABLE TO CONNECT");
    reveal_strlit("CAN ERROR");
    reveal_strlit("BUS ERROR");
    reveal_strlit("FB ERROR");
    reveal_strlit("DATA ERROR");
    reveal_strlit("BUFFER FULL");
    let line = frame_line(id, data);
    lemma_frame_line_chars(id, data);
    assert forall|i: int| 0 <= i < line.len() implies line[i] != "ERROR"@[1] by {
        assert(is_frame_char(line[i]));
    }
    lemma_lacks_char(line, "ERROR"@, 1);
    assert forall|i: int| 0 <= i < line.len() implies line[i] != "NO DATA"@[0] by {
        assert(is_frame_char(line[i]));
    }
    lemma_lacks_char(line, "NO DATA"@, 0);
    assert forall|k: int| 0 <= k < 6 implies !contains_seq(line, #[trigger] fatal_response(k)) by {
        let f = fatal_response(k);
        let j: int = if k == 0 {
            0
        } else if k == 1 {
            2
        } else if k == 2 {
            1
        } else if k == 3 {
            2
        } else if k == 4 {
            2
        } else {
            1
        };
        assert forall|i: int| 0 <= i < line.len() implies line[i] != f[j] by {
            assert(is_frame_char(line[i]));
        }
        lemma_lacks_char(line, f, j);
    }
}

proof fn lemma_frame_line_fields(id: u32, data: Seq<u8>)
    ensures
        trim_ws(frame_line(id, data)) == frame_line(id, data),
        split_seq(frame_line(id, data), |c: char| c == ',') == seq![
            hex_width(id as nat, 3),
            hex_upper(data),
        ],
        trim_ws(hex_width(id as nat, 3)) == hex_width(id as nat, 3),
        trim_ws(hex_upper(data)) == hex_upper(data),
{
    reveal_strlit(",");
    let a = hex_width(id as nat, 3);
    let b = hex_upper(data);
    let line = frame_line(id, data);
    lemma_frame_line_chars(id, data);
    lemma_hex_width_text(id as nat, 3);
    lemma_hex_upper_text(data);
    assert(line =~= a + seq![','] + b);
    assert(is_frame_char(line[0]) && is_frame_char(line.last()));
    lemma_trim_untouched(line);
    assert forall|i: int| 0 <= i < a.len() implies a[i] != ',' by {
        assert(is_upper_hex_char(a[i]));
    }
    assert forall|i: int| 0 <= i < b.len() implies b[i] != ',' by {
        assert(is_upper_hex_char(b[i]));
    }
    lemma_split_two(a, ',', b);
    lemma_trim_untouched(a);
    if b.len() > 0 {
        assert(is_upper_hex_char(b[0]) && is_upper_hex_char(b.last()));
    }
    lemma_trim_untouched(b);
}

/// The line the emulated adapter answers `STRX` with, once the adapter driver has cut off
/// the prompt, is picked as the reply line and read back as exactly the queued frame.
pub proof fn law_received_frame_round_trip(id: u32, data: Seq<u8>)
    ensures
        reply_line(
            split_seq(frame_line(id, data) + "\r\n"@, |c: char| c == '\r' || c == '\n'),
            "STRX"@,
        ) == frame_line(id, data),
        !contains_seq(frame_line(id, data), "ERROR"@),
        frame_reply(frame_line(id, data)) == FrameReply::Frame(id, data),
{
    lemma_frame_line_is_reply_line(id, data);
    lemma_frame_line_unmarked(id, data);
    lemma_frame_line_fields(id, data);
    lemma_frame_line_chars(id, data);
    lemma_parse_hex_width(id, 3);
    law_hex_round_trip(data);
    let line = frame_line(id, data);
    let a = hex_width(id as nat, 3);
    let b = hex_upper(data);
    let parts = split_seq(line, |c: char| c == ',');
    assert(parts.len() == 2 && parts[0] == a && parts[1] == b);
    assert(parse_unsigned(trim_ws(parts[0]), 16, 0xFFFF_FFFF) == Some(id as nat));
    assert(hex_decoded(trim_ws(parts[1])) == Some(data));
}

/// The fields of a transmit command: identifier, count and data.
pub open spec fn transmit_fields(id: u32, data: Seq<u8>) -> Seq<char> {
    hex_width(id as nat, 3) + ",0,"@ + hex_upper(data)
}

proof fn lemma_transmit_body(id: u32, data: Seq<u8>)
    ensures
        send_frame_text(id, data) == "STPX H:"@ + transmit_fields(id, data),
        strip_all(trim_ws(strip_all(send_frame_text(id, data), "STPX"@)), "H:"@)
            == transmit_fields(id, data),
{
    reveal_strlit("STPX H:");
    reveal_strlit("STPX");
    reveal_strlit("H:");
    reveal_strlit(",0,");
    let a = hex_width(id as nat, 3);
    let b = hex_upper(data);
    lemma_hex_width_text(id as nat, 3);
    lemma_hex_upper_text(data);
    let rest = transmit_fields(id, data);
    let line = "STPX H:"@ + rest;
    assert(line == send_frame_text(id, data));
    assert(starts_with_seq(line, "STPX"@)) by {
        assert(line.take(4) =~= "STPX"@);
    }
    let after_kw = line.skip(4);
    assert(after_kw =~= seq![' '] + ("H:"@ + rest));
    assert(!starts_with_seq(after_kw, "STPX"@)) by {
        if starts_with_seq(after_kw, "STPX"@) {
            assert(after_kw.take(4)[0] == 'S');
        }
    }
    assert(strip_all(after_kw, "STPX"@) == after_kw);
    assert(strip_all(line, "STPX"@) == after_kw);
    let h_rest = "H:"@ + rest;
    assert(after_kw.drop_first() =~= h_rest);
    assert(is_ws(after_kw[0]));
    assert(!is_ws(h_rest[0]));
    assert(trim_front(h_rest) == h_rest);
    assert(trim_front(after_kw) == h_rest);
    assert(h_rest.last() == (if b.len() > 0 {
        b.last()
    } else {
        ','
    })) by {
        if b.len() == 0 {
            assert(h_rest =~= "H:"@ + a + ",0,"@);
        } else {
            assert(h_rest.last() == b[b.len() - 1]);
        }
    }
    assert(b.len() > 0 ==> is_upper_hex_char(b.last()));
    assert(!is_ws(h_rest.last()));
    assert(trim_back(h_rest) == h_rest);
    assert(trim_ws(after_kw) == h_rest);
    assert(starts_with_seq(h_rest, "H:"@)) by {
        assert(h_rest.take(2) =~= "H:"@);
    }
    assert(h_rest.skip(2) =~= rest);
    assert(is_upper_hex_char(rest[0])) by {
        assert(rest[0] == a[0]);
    }
    assert(!starts_with_seq(rest, "H:"@)) by {
        if starts_with_seq(rest, "H:"@) {
            assert(rest.take(2)[0] == 'H');
        }
    }
    assert(strip_all(rest, "H:"@) == rest);
    assert(strip_all(h_rest, "H:"@) == rest);
}

proof fn lemma_transmit_split(id: u32, data: Seq<u8>)
    ensures
        split_once(transmit_fields(id, data), ',') == Some(
            (hex_width(id as nat, 3), seq!['0'] + seq![','] + hex_upper(data)),
        ),
        split_once(seq!['0'] + seq![','] + hex_upper(data), ',') == Some(
            (seq!['0'], hex_upper(data)),
        ),
        trim_ws(hex_width(id as nat, 3)) == hex_width(id as nat, 3),
        trim_ws(hex_upper(data)) == hex_upper(data),
{
    reveal_strlit(",0,");
    let a = hex_width(id as nat, 3);
    let b = hex_upper(data);
    lemma_hex_width_text(id as nat, 3);
    lemma_hex_upper_text(data);
    let tail = seq!['0'] + seq![','] + b;
    assert(transmit_fields(id, data) =~= a + seq![','] + tail);
    assert forall|i: int| 0 <= i < a.len() implies a[i] != ',' by {
        assert(is_upper_hex_char(a[i]));
    }
    lemma_split_once_at(a, ',', tail);
    lemma_split_once_at(seq!['0'], ',', b);
    lemma_trim_untouched(a);
    if b.len() > 0 {
        assert(is_upper_hex_char(b[0]) && is_upper_hex_char(b.last()));
    }
    lemma_trim_untouched(b);
}

/// The emulated adapter reads the transmit command the adapter driver sends for a frame
/// as exactly that frame's identifier and data.
pub proof fn law_transmit_command_round_trip(id: u32, data: Seq<u8>)
    ensures
        stpx_fields(send_frame_text(id, data)) == Some((id, data)),
{
    lemma_transmit_body(id, data);
    lemma_transmit_split(id, data);
    lemma_parse_hex_width(id, 3);
    law_hex_round_trip(data);
}

} // verus!
