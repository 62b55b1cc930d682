use vstd::prelude::*;

use crate::primitives::{be_value, decimal, hex_text, push_decimal, push_hex, read_be, to_u16};
use crate::rcp::{make_report, push_rcp, rcp_walk, report_matches, Report};
use crate::render::{
    error_view, indent, push_indent, push_line, texts, value_line, DecodeError, ErrorKind, Walk,
};
use crate::text::{push_str, string_of};

verus! {

/// The shared header at the start of every GCP segment.
#[derive(Debug, Clone, Copy, PartialEq, Eq, Structural)]
pub struct GcpHeader {
    pub transaction_identifier: u16,
    pub protocol_identifier: u16,
    pub length: u16,
    pub unit_identifier: u8,
    pub message_id: MessageId,
    pub message_length: u16,
}

/// The kind of a GCP message.
#[derive(Debug, Clone, Copy, PartialEq, Eq, Structural)]
pub struct MessageId(pub u8);

/// The status byte of a Request Notify message.
#[derive(Debug, Clone, Copy, PartialEq, Eq, Structural)]
pub struct Status(pub u8);

/// The return code of a GCP response.
#[derive(Debug, Clone, Copy, PartialEq, Eq, Structural)]
pub struct ReturnCode(pub u8);

/// The name of a message kind with its number.
pub open spec fn message_id_text(id: u8) -> Seq<char> {
    match id {
        2 => "(2) RequestNotify"@,
        3 => "(3) ResponseNotify"@,
        4 => "(4) RequestDeviceManagement"@,
        5 => "(5) ResponseDeviceManagement"@,
        6 => "(6) RequestExchangeDataStructures"@,
        7 => "(7) ResponseExchangeDataStructures"@,
        16 => "(16) RequestExchangeDataRegister"@,
        17 => "(17) ResponseExchangeDataRegister"@,
        18 => "(18) RequestMaskWriteRegister"@,
        19 => "(19) ResponseMaskWriteRegister"@,
        131 => "(131) RequestNotifyError"@,
        133 => "(133) ResponseDeviceManagementError"@,
        135 => "(135) ResponseExchangeDataStructuresError"@,
        145 => "(145) ResponseExchangeDataRegisterError"@,
        147 => "(147) ResponseMaskWriteRegisterError"@,
        _ => "MessageID("@ + decimal(id as nat) + ")"@,
    }
}

/// The description of a status byte.
pub open spec fn status_text(s: u8) -> Seq<char> {
    match s {
        0 => "0 - Nul (default)"@,
        1 => "1 - hardReset"@,
        2 => "2 - softReset"@,
        3 => "3 - nvReset"@,
        4 => "4 - factoryReset"@,
        _ => "Reserved"@,
    }
}

/// The description of a return code.
pub open spec fn return_code_text(c: u8) -> Seq<char> {
    match c {
        0 => "0 MESSAGE SUCCESSFUL"@,
        1 => "1 UNSUPPORTED MESSAGE"@,
        2 => "2 ILLEGAL MESSAGE LENGTH"@,
        3 => "3 ILLEGAL TRANSACTION ID"@,
        4 => "4 ILLEGAL MODE"@,
        5 => "5 ILLEGAL PORT"@,
        6 => "6 ILLEGAL CHANNEL"@,
        7 => "7 ILLEGAL COMMAND"@,
        8 => "8 ILLEGAL VENDOR ID"@,
        9 => "9 ILLEGAL VENDOR INDEX"@,
        10 => "10 ILLEGAL ADDRESS"@,
        11 => "11 ILLEGAL DATA VALUE"@,
        12 => "12 MESSAGE FAILURE"@,
        255 => "255 SLAVE DEVICE FAILURE"@,
        _ => if c <= 127 {
            "Reserved"@
        } else {
            "128-254 User Defined Codes"@
        },
    }
}

fn push_message_id(line: &mut Vec<char>, id: u8)
    ensures
        final(line)@ == old(line)@ + message_id_text(id),
{
    let s = match id {
        2 => "(2) RequestNotify",
        3 => "(3) ResponseNotify",
        4 => "(4) RequestDeviceManagement",
        5 => "(5) ResponseDeviceManagement",
        6 => "(6) RequestExchangeDataStructures",
        7 => "(7) ResponseExchangeDataStructures",
        16 => "(16) RequestExchangeDataRegister",
        17 => "(17) ResponseExchangeDataRegister",
        18 => "(18) RequestMaskWriteRegister",
        19 => "(19) ResponseMaskWriteRegister",
        131 => "(131) RequestNotifyError",
        133 => "(133) ResponseDeviceManagementError",
        135 => "(135) ResponseExchangeDataStructuresError",
        145 => "(145) ResponseExchangeDataRegisterError",
        147 => "(147) ResponseMaskWriteRegisterError",
        _ => {
            let ghost start = line@;
            push_str(line, "MessageID(");
            push_decimal(line, id as u64);
            push_str(line, ")");
            assert(line@ =~= start + message_id_text(id));
            return;
        },
    };
    push_str(line, s);
}

fn status_label(s: u8) -> (r: &'static str)
    ensures
        r@ == status_text(s),
{
    match s {
        0 => "0 - Nul (default)",
        1 => "1 - hardReset",
        2 => "2 - softReset",
        3 => "3 - nvReset",
        4 => "4 - factoryReset",
        _ => "Reserved",
    }
}

fn return_code_label(c: u8) -> (r: &'static str)
    ensures
        r@ == return_code_text(c),
{
    match c {
        0 => "0 MESSAGE SUCCESSFUL",
        1 => "1 UNSUPPORTED MESSAGE",
        2 => "2 ILLEGAL MESSAGE LENGTH",
        3 => "3 ILLEGAL TRANSACTION ID",
        4 => "4 ILLEGAL MODE",
        5 => "5 ILLEGAL PORT",
        6 => "6 ILLEGAL CHANNEL",
        7 => "7 ILLEGAL COMMAND",
        8 => "8 ILLEGAL VENDOR ID",
        9 => "9 ILLEGAL VENDOR INDEX",
        10 => "10 ILLEGAL ADDRESS",
        11 => "11 ILLEGAL DATA VALUE",
        12 => "12 MESSAGE FAILURE",
        255 => "255 SLAVE DEVICE FAILURE",
        _ => if c <= 127 {
            "Reserved"
        } else {
            "128-254 User Defined Codes"
        },
    }
}

impl MessageId {
    /// The name of the message kind with its number.
    pub fn label(&self) -> (r: String)
        ensures
            r@ == message_id_text(self.0),
    {
        let mut line: Vec<char> = Vec::new();
        push_message_id(&mut line, self.0);
        string_of(line.as_slice())
    }
}

impl Status {
    /// The description of the status.
    pub fn label(&self) -> (r: String)
        ensures
            r@ == status_text(self.0),
    {
        let mut line: Vec<char> = Vec::new();
        push_str(&mut line, status_label(self.0));
        string_of(line.as_slice())
    }
}

impl ReturnCode {
    /// The description of the return code.
    pub fn label(&self) -> (r: String)
        ensures
            r@ == return_code_text(self.0),
    {
        let mut line: Vec<char> = Vec::new();
        push_str(&mut line, return_code_label(self.0));
        string_of(line.as_slice())
    }
}

/// How a fixed field of a message is written out.
#[derive(Debug, Clone, Copy, PartialEq, Eq, Structural)]
pub enum Style {
    /// In decimal.
    Dec,
    /// In hexadecimal, after `0x`.
    Hex,
    /// As a status description.
    Status,
    /// As a return code description.
    ReturnCode,
    /// A Request Notify mode byte, with the meaning of bits 7 and 6.
    NotifyMode,
    /// A Device Management mode byte, with the meaning of bit 7.
    DmMode,
    /// A Device Management command byte.
    DmCommand,
}

/// The layout of a known message kind: its title, its fixed fields as label,
/// width in bytes and style, and whether an RCP message follows them.
pub open spec fn layout(id: u8) -> Option<(Seq<char>, Seq<(Seq<char>, nat, Style)>, bool)> {
    match id {
        2 => Some(("(2) Request Notify"@, seq![("Transaction ID"@, 2nat, Style::Dec), ("Mode"@, 1nat, Style::NotifyMode), ("Status"@, 1nat, Style::Status), ("Event Code"@, 4nat, Style::Hex)], true)),
        3 => Some(("(3) Response Notify"@, seq![("Transaction ID"@, 2nat, Style::Dec), ("Mode"@, 1nat, Style::Hex), ("Event Code"@, 4nat, Style::Hex)], false)),
        131 => Some(("(131) Response Notify Error"@, seq![("Transaction ID"@, 2nat, Style::Dec), ("Return Code"@, 1nat, Style::ReturnCode)], false)),
        4 => Some(("(4) Request (DM) Device Management"@, seq![("Transaction ID"@, 2nat, Style::Dec), ("Mode"@, 1nat, Style::DmMode), ("Port"@, 2nat, Style::Hex), ("Channel"@, 2nat, Style::Hex), ("Command"@, 1nat, Style::DmCommand)], false)),
        5 => Some(("(5) Response (DM) Device Management"@, seq![("Transaction ID"@, 2nat, Style::Dec), ("Mode"@, 1nat, Style::Hex), ("Return Code"@, 1nat, Style::ReturnCode)], false)),
        133 => Some(("(133) Response (DM) Device Management Error"@, seq![("Transaction ID"@, 2nat, Style::Dec), ("Return Code"@, 1nat, Style::ReturnCode)], false)),
        6 => Some(("(6) Request (EDS) Exchange Data Structures"@, seq![("Transaction ID"@, 2nat, Style::Dec), ("Mode"@, 1nat, Style::Hex), ("Port"@, 2nat, Style::Hex), ("Channel"@, 2nat, Style::Hex), ("Vendor ID"@, 4nat, Style::Dec), ("Vendor Index"@, 1nat, Style::Dec)], true)),
        7 => Some(("(7) Response (EDS) Exchange Data Structures"@, seq![("Transaction ID"@, 2nat, Style::Dec), ("Mode"@, 1nat, Style::Hex), ("Port"@, 2nat, Style::Hex), ("Channel"@, 2nat, Style::Hex), ("Vendor ID"@, 4nat, Style::Dec), ("Vendor Index"@, 1nat, Style::Dec)], true)),
        135 => Some(("(135) Response (EDS) Exchange Data Structures Error"@, seq![("Transaction ID"@, 2nat, Style::Dec)], false)),
        16 => Some(("(16) Request (EDR) Exchange Data Register"@, seq![("Transaction ID"@, 2nat, Style::Dec)], false)),
        17 => Some(("(17) Response (EDR) Exchange Data Register"@, seq![("Transaction ID"@, 2nat, Style::Dec)], false)),
        145 => Some(("(145) Response (EDR) Exchange Data Register Error"@, seq![("Transaction ID"@, 2nat, Style::Dec)], false)),
        18 => Some(("(18) Request (MWR) Mask Write Register"@, seq![("Transaction ID"@, 2nat, Style::Dec)], false)),
        19 => Some(("(19) Response (MWR) Mask Write Register"@, seq![("Transaction ID"@, 2nat, Style::Dec)], false)),
        147 => Some(("(147) Response (MWR) Mask Write Register Error"@, seq![("Transaction ID"@, 2nat, Style::Dec)], false)),
        _ => None,
    }
}

fn layout_title(id: u8) -> (r: Option<&'static str>)
    ensures
        match (r, layout(id)) {
            (Some(t), Some(l)) => t@ == l.0,
            (None, None) => true,
            _ => false,
        },
{
    match id {
        2 => Some("(2) Request Notify"),
        3 => Some("(3) Response Notify"),
        131 => Some("(131) Response Notify Error"),
        4 => Some("(4) Request (DM) Device Management"),
        5 => Some("(5) Response (DM) Device Management"),
        133 => Some("(133) Response (DM) Device Management Error"),
        6 => Some("(6) Request (EDS) Exchange Data Structures"),
        7 => Some("(7) Response (EDS) Exchange Data Structures"),
        135 => Some("(135) Response (EDS) Exchange Data Structures Error"),
        16 => Some("(16) Request (EDR) Exchange Data Register"),
        17 => Some("(17) Response (EDR) Exchange Data Register"),
        145 => Some("(145) Response (EDR) Exchange Data Register Error"),
        18 => Some("(18) Request (MWR) Mask Write Register"),
        19 => Some("(19) Response (MWR) Mask Write Register"),
        147 => Some("(147) Response (MWR) Mask Write Register Error"),
        _ => None,
    }
}

fn layout_len(id: u8) -> (r: usize)
    requires
        layout(id) is Some,
    ensures
        r == layout(id)->Some_0.1.len(),
{
    match id {
        2 => 4,
        3 => 3,
        131 => 2,
        4 => 5,
        5 => 3,
        133 => 2,
        6 => 6,
        7 => 6,
        135 => 1,
        16 => 1,
        17 => 1,
        145 => 1,
        18 => 1,
        19 => 1,
        147 => 1,
        _ => 0,
    }
}

fn layout_rcp(id: u8) -> (r: bool)
    requires
        layout(id) is Some,
    ensures
        r == layout(id)->Some_0.2,
{
    match id {
        2 => true,
        6 => true,
        7 => true,
        _ => false,
    }
}

fn layout_field(id: u8, k: usize) -> (r: (&'static str, usize, Style))
    requires
        layout(id) is Some,
        k < layout(id)->Some_0.1.len(),
    ensures
        r.0@ == layout(id)->Some_0.1[k as int].0,
        r.1 == layout(id)->Some_0.1[k as int].1,
        r.2 == layout(id)->Some_0.1[k as int].2,
        1 <= r.1 <= 4,
{
    match id {
        2 => match k {
            0 => ("Transaction ID", 2, Style::Dec),
            1 => ("Mode", 1, Style::NotifyMode),
            2 => ("Status", 1, Style::Status),
            _ => ("Event Code", 4, Style::Hex),
        },
        3 => match k {
            0 => ("Transaction ID", 2, Style::Dec),
            1 => ("Mode", 1, Style::Hex),
            _ => ("Event Code", 4, Style::Hex),
        },
        131 => match k {
            0 => ("Transaction ID", 2, Style::Dec),
            _ => ("Return Code", 1, Style::ReturnCode),
        },
        4 => match k {
            0 => ("Transaction ID", 2, Style::Dec),
            1 => ("Mode", 1, Style::DmMode),
            2 => ("Port", 2, Style::Hex),
            3 => ("Channel", 2, Style::Hex),
            _ => ("Command", 1, Style::DmCommand),
        },
        5 => match k {
            0 => ("Transaction ID", 2, Style::Dec),
            1 => ("Mode", 1, Style::Hex),
            _ => ("Return Code", 1, Style::ReturnCode),
        },
        133 => match k {
            0 => ("Transaction ID", 2, Style::Dec),
            _ => ("Return Code", 1, Style::ReturnCode),
        },
        6 => match k {
            0 => ("Transaction ID", 2, Style::Dec),
            1 => ("Mode", 1, Style::Hex),
            2 => ("Port", 2, Style::Hex),
            3 => ("Channel", 2, Style::Hex),
            4 => ("Vendor ID", 4, Style::Dec),
            _ => ("Vendor Index", 1, Style::Dec),
        },
        7 => match k {
            0 => ("Transaction ID", 2, Style::Dec),
            1 => ("Mode", 1, Style::Hex),
            2 => ("Port", 2, Style::Hex),
            3 => ("Channel", 2, Style::Hex),
            4 => ("Vendor ID", 4, Style::Dec),
            _ => ("Vendor Index", 1, Style::Dec),
        },
        135 => match k {
            _ => ("Transaction ID", 2, Style::Dec),
        },
        16 => match k {
            _ => ("Transaction ID", 2, Style::Dec),
        },
        17 => match k {
            _ => ("Transaction ID", 2, Style::Dec),
        },
        145 => match k {
            _ => ("Transaction ID", 2, Style::Dec),
        },
        18 => match k {
            _ => ("Transaction ID", 2, Style::Dec),
        },
        19 => match k {
            _ => ("Transaction ID", 2, Style::Dec),
        },
        147 => match k {
            _ => ("Transaction ID", 2, Style::Dec),
        },
        _ => ("", 1, Style::Dec),
    }
}


/// The offset of field `k` of a layout: the widths of the fields before it.
pub open spec fn field_offset(fs: Seq<(Seq<char>, nat, Style)>, k: nat) -> nat
    decreases k,
{
    if k == 0 {
        0
    } else {
        field_offset(fs, (k - 1) as nat) + fs[k - 1].1
    }
}

/// The text of a field value in its style.
pub open spec fn style_text(st: Style, v: Seq<u8>) -> Seq<char> {
    match st {
        Style::Dec => decimal(be_value(v)),
        Style::Hex => "0x"@ + hex_text(be_value(v)),
        Style::Status => status_text(v[0]),
        Style::ReturnCode => return_code_text(v[0]),
        Style::NotifyMode => "0x"@ + hex_text(v[0] as nat) + " ("@ + if v[0] >= 128 {
            "bit 7=1 : Suppress Normal response"@
        } else {
            "bit 7=0 : Send normal response"@
        } + if (v[0] / 64) % 2 == 1 {
            ", bit 6=1 : Event data is raw"@
        } else {
            ", bit 6=0 : Event data is text"@
        } + ")"@,
        Style::DmMode => "0x"@ + hex_text(v[0] as nat) + " ("@ + if v[0] >= 128 {
            "bit7=1: 1 - Suppress normal response"@
        } else {
            "bit7=0: 0 - Send normal response"@
        } + ")"@,
        Style::DmCommand => if v[0] == 0 {
            "0 - Null (default)"@
        } else {
            "(Reserved)"@
        },
    }
}

/// The lines of the fixed fields of a layout read from `b`.
pub open spec fn field_lines(fs: Seq<(Seq<char>, nat, Style)>, b: Seq<u8>, depth: nat) -> Seq<Seq<char>> {
    Seq::new(
        fs.len(),
        |k: int|
            value_line(
                depth,
                fs[k].0,
                style_text(fs[k].2, b.subrange(field_offset(fs, k as nat) as int, (field_offset(fs, k as nat) + fs[k].1) as int)),
            ),
    )
}

/// The rendering of a message body after the shared header, the body starting
/// at offset `pos`. Every body starts with a two-byte transaction id, read
/// before the kind is looked at; then come the title, the fixed fields, and the
/// RCP message where the kind carries one. Bytes left after the fixed fields of a kind that carries
/// none are a fault.
pub open spec fn message_walk(id: u8, b: Seq<u8>, depth: nat, pos: nat) -> Walk {
    if b.len() < 2 {
        Walk {
            lines: Seq::empty(),
            error: Some((ErrorKind::MalformedFixedField, Seq::empty(), pos)),
            unsupported: false,
        }
    } else {
        match layout(id) {
            None => Walk {
                lines: seq![indent(depth) + "Unsupported GCP message Type"@],
                error: None,
                unsupported: true,
            },
            Some((title, fs, rcp)) => {
                let need = field_offset(fs, fs.len());
                if b.len() < need {
                    Walk {
                        lines: seq![indent(depth) + title],
                        error: Some((ErrorKind::MalformedFixedField, Seq::empty(), pos)),
                        unsupported: false,
                    }
                } else {
                    let head = seq![indent(depth) + title] + field_lines(fs, b, depth + 1);
                    if rcp {
                        let body = rcp_walk(b.subrange(need as int, b.len() as int), depth + 1, pos + need);
                        Walk { lines: head + body.lines, error: body.error, unsupported: body.unsupported }
                    } else if need < b.len() {
                        Walk { lines: head, error: Some((ErrorKind::TrailingGarbage, Seq::empty(), pos + need)), unsupported: false }
                    } else {
                        Walk { lines: head, error: None, unsupported: false }
                    }
                }
            },
        }
    }
}

fn layout_need(id: u8) -> (r: usize)
    requires
        layout(id) is Some,
    ensures
        r == field_offset(layout(id)->Some_0.1, layout(id)->Some_0.1.len()),
{
    proof {
        reveal_with_fuel(field_offset, 7);
    }
    match id {
        2 => 8,
        3 => 7,
        131 => 3,
        4 => 8,
        5 => 4,
        133 => 3,
        6 => 12,
        7 => 12,
        135 => 2,
        16 => 2,
        17 => 2,
        145 => 2,
        18 => 2,
        19 => 2,
        147 => 2,
        _ => 0,
    }
}

fn push_style(line: &mut Vec<char>, st: Style, v: &[u8])
    requires
        1 <= v@.len() <= 4,
    ensures
        final(line)@ == old(line)@ + style_text(st, v@),
{
    proof {
        assert(v@.subrange(0, v@.len() as int) =~= v@);
    }
    match st {
        Style::Dec => push_decimal(line, read_be(v, v.len())),
        Style::Hex => {
            let ghost start = line@;
            push_str(line, "0x");
            push_hex(line, read_be(v, v.len()));
            assert(line@ =~= start + style_text(st, v@));
        },
        Style::Status => push_str(line, status_label(v[0])),
        Style::ReturnCode => push_str(line, return_code_label(v[0])),
        Style::NotifyMode => {
            let ghost start = line@;
            push_str(line, "0x");
            push_hex(line, v[0] as u64);
            push_str(line, " (");
            if v[0] >= 128 {
                push_str(line, "bit 7=1 : Suppress Normal response");
            } else {
                push_str(line, "bit 7=0 : Send normal response");
            }
            if (v[0] / 64) % 2 == 1 {
                push_str(line, ", bit 6=1 : Event data is raw");
            } else {
                push_str(line, ", bit 6=0 : Event data is text");
            }
            push_str(line, ")");
            assert(line@ =~= start + style_text(st, v@));
        },
        Style::DmMode => {
            let ghost start = line@;
            push_str(line, "0x");
            push_hex(line, v[0] as u64);
            push_str(line, " (");
            if v[0] >= 128 {
                push_str(line, "bit7=1: 1 - Suppress normal response");
            } else {
                push_str(line, "bit7=0: 0 - Send normal response");
            }
            push_str(line, ")");
            assert(line@ =~= start + style_text(st, v@));
        },
        Style::DmCommand => {
            if v[0] == 0 {
                push_str(line, "0 - Null (default)");
            } else {
                push_str(line, "(Reserved)");
            }
        },
    }
}

/// Appends the lines of a message body after the shared header, the body starting at offset `pos`.
pub fn push_message(input: &[u8], id: u8, depth: usize, pos: usize, out: &mut Vec<Vec<char>>) -> (r: (Option<DecodeError>, bool))
    requires
        depth + input@.len() + 1 < usize::MAX,
        pos + input@.len() < usize::MAX,
    ensures
        texts(final(out)@) == texts(old(out)@) + message_walk(id, input@, depth as nat, pos as nat).lines,
        error_view(r.0) == message_walk(id, input@, depth as nat, pos as nat).error,
        r.1 == message_walk(id, input@, depth as nat, pos as nat).unsupported,
{
    if input.len() < 2 {
        assert(texts(out@) =~= texts(old(out)@) + Seq::<Seq<char>>::empty());
        return (Some(DecodeError { kind: ErrorKind::MalformedFixedField, path: Vec::new(), offset: pos }), false);
    }
    let mut line: Vec<char> = Vec::new();
    push_indent(&mut line, depth);
    let title = match layout_title(id) {
        None => {
            push_str(&mut line, "Unsupported GCP message Type");
            push_line(out, line);
            assert(texts(out@) =~= texts(old(out)@) + message_walk(id, input@, depth as nat, pos as nat).lines);
            return (None, true);
        },
        Some(t) => t,
    };
    push_str(&mut line, title);
    push_line(out, line);
    let ghost fs = layout(id)->Some_0.1;
    if input.len() < layout_need(id) {
        assert(texts(out@) =~= texts(old(out)@) + message_walk(id, input@, depth as nat, pos as nat).lines);
        return (Some(DecodeError { kind: ErrorKind::MalformedFixedField, path: Vec::new(), offset: pos }), false);
    }
    let ghost first = texts(out@);
    let n = layout_len(id);
    let mut off: usize = 0;
    let mut k: usize = 0;
    while k < n
        invariant
            k <= n,
            n == fs.len(),
            layout(id) is Some,
            fs == layout(id)->Some_0.1,
            off == field_offset(fs, k as nat),
            off <= input@.len(),
            field_offset(fs, fs.len()) <= input@.len(),
            texts(out@) == first + field_lines(fs, input@, depth as nat + 1).subrange(0, k as int),
            depth + input@.len() + 1 < usize::MAX,
        decreases n - k,
    {
        let (label, width, st) = layout_field(id, k);
        proof {
            lemma_offset_grows(fs, (k + 1) as nat, fs.len());
        }
        let mut fl: Vec<char> = Vec::new();
        push_indent(&mut fl, depth + 1);
        push_str(&mut fl, label);
        push_str(&mut fl, ": ");
        push_style(&mut fl, st, &input[off..off + width]);
        let ghost prev = texts(out@);
        push_line(out, fl);
        off = off + width;
        k = k + 1;
        assert(texts(out@) =~= first + field_lines(fs, input@, depth as nat + 1).subrange(0, k as int));
    }
    assert(field_lines(fs, input@, depth as nat + 1).subrange(0, n as int) =~= field_lines(fs, input@, depth as nat + 1));
    if layout_rcp(id) {
        let body = &input[off..input.len()];
        let r = push_rcp(body, depth + 1, pos + off, out);
        assert(texts(out@) =~= texts(old(out)@) + message_walk(id, input@, depth as nat, pos as nat).lines);
        r
    } else if off < input.len() {
        (Some(DecodeError { kind: ErrorKind::TrailingGarbage, path: Vec::new(), offset: pos + off }), false)
    } else {
        (None, false)
    }
}

proof fn lemma_offset_grows(fs: Seq<(Seq<char>, nat, Style)>, a: nat, b: nat)
    requires
        a <= b,
    ensures
        field_offset(fs, a) <= field_offset(fs, b),
    decreases b,
{
    if a < b {
        lemma_offset_grows(fs, a, (b - 1) as nat);
    }
}

/// The header read from the first ten bytes of `b`.
pub open spec fn header_spec(b: Seq<u8>) -> GcpHeader {
    GcpHeader {
        transaction_identifier: be_value(b.subrange(0, 2)) as u16,
        protocol_identifier: be_value(b.subrange(2, 4)) as u16,
        length: be_value(b.subrange(4, 6)) as u16,
        unit_identifier: b[6],
        message_id: MessageId(b[7]),
        message_length: be_value(b.subrange(8, 10)) as u16,
    }
}

/// The number of bytes in the shared header.
pub const HEADER_LEN: usize = 10;

/// Reads the shared header; fails, as a malformed fixed field, on fewer than ten bytes.
pub fn header(input: &[u8]) -> (r: Result<(GcpHeader, &[u8]), ErrorKind>)
    ensures
        input@.len() < 10 <==> r is Err,
        r is Err ==> r == Err::<(GcpHeader, &[u8]), ErrorKind>(ErrorKind::MalformedFixedField),
        r matches Ok((h, rest)) ==> h == header_spec(input@) && rest@ == input@.subrange(10, input@.len() as int),
{
    if input.len() < HEADER_LEN {
        return Err(ErrorKind::MalformedFixedField);
    }
    let transaction_identifier = to_u16(input);
    let protocol_identifier = to_u16(&input[2..4]);
    let length = to_u16(&input[4..6]);
    let message_length = to_u16(&input[8..10]);
    proof {
        assert(input@.subrange(2, 4).subrange(0, 2) =~= input@.subrange(2, 4));
        assert(input@.subrange(4, 6).subrange(0, 2) =~= input@.subrange(4, 6));
        assert(input@.subrange(8, 10).subrange(0, 2) =~= input@.subrange(8, 10));
    }
    let h = GcpHeader {
        transaction_identifier,
        protocol_identifier,
        length,
        unit_identifier: input[6],
        message_id: MessageId(input[7]),
        message_length,
    };
    Ok((h, &input[HEADER_LEN..input.len()]))
}

/// The line that shows the shared header.
pub open spec fn header_line(h: GcpHeader) -> Seq<char> {
    indent(1) + "GCP Header: Transaction ID "@ + decimal(h.transaction_identifier as nat) + ", Protocol ID "@
        + decimal(h.protocol_identifier as nat) + ", Length "@ + decimal(h.length as nat) + ", Unit ID "@
        + decimal(h.unit_identifier as nat) + ", Message "@ + message_id_text(h.message_id.0)
        + ", Message Length "@ + decimal(h.message_length as nat)
}

fn push_header_line(out: &mut Vec<Vec<char>>, h: GcpHeader)
    ensures
        texts(final(out)@) == texts(old(out)@).push(header_line(h)),
{
    let mut line: Vec<char> = Vec::new();
    push_indent(&mut line, 1);
    push_str(&mut line, "GCP Header: Transaction ID ");
    push_decimal(&mut line, h.transaction_identifier as u64);
    push_str(&mut line, ", Protocol ID ");
    push_decimal(&mut line, h.protocol_identifier as u64);
    push_str(&mut line, ", Length ");
    push_decimal(&mut line, h.length as u64);
    push_str(&mut line, ", Unit ID ");
    push_decimal(&mut line, h.unit_identifier as u64);
    push_str(&mut line, ", Message ");
    push_message_id(&mut line, h.message_id.0);
    push_str(&mut line, ", Message Length ");
    push_decimal(&mut line, h.message_length as u64);
    assert(line@ =~= header_line(h));
    push_line(out, line);
}

/// Decodes the body of a message of kind `msg_type`, which follows the shared header.
pub fn message_decoder(input: &[u8], msg_type: MessageId) -> (r: Report)
    requires
        input@.len() + 3 < usize::MAX,
    ensures
        report_matches(r, message_walk(msg_type.0, input@, 2, 0)),
{
    let mut lines: Vec<Vec<char>> = Vec::new();
    let (error, unsupported) = push_message(input, msg_type.0, 2, 0, &mut lines);
    assert(texts(lines@) =~= message_walk(msg_type.0, input@, 2, 0).lines);
    make_report(lines, error, unsupported)
}

/// The rendering of one TCP segment's payload: the shared header, then the message.
pub open spec fn segment_walk(b: Seq<u8>) -> Walk {
    if b.len() < 10 {
        Walk { lines: Seq::empty(), error: Some((ErrorKind::MalformedFixedField, Seq::empty(), 0)), unsupported: false }
    } else {
        let m = message_walk(b[7], b.subrange(10, b.len() as int), 2, 10);
        Walk { lines: seq![header_line(header_spec(b))] + m.lines, error: m.error, unsupported: m.unsupported }
    }
}

/// Decodes one TCP segment's payload; a fault ends the decoding of this segment only.
pub fn decode_segment(payload: &[u8]) -> (r: Report)
    requires
        payload@.len() + 3 < usize::MAX,
    ensures
        report_matches(r, segment_walk(payload@)),
{
    let mut lines: Vec<Vec<char>> = Vec::new();
    match header(payload) {
        Err(e) => {
            assert(texts(lines@) =~= Seq::<Seq<char>>::empty());
            make_report(lines, Some(DecodeError { kind: e, path: Vec::new(), offset: 0 }), false)
        },
        Ok((h, rest)) => {
            push_header_line(&mut lines, h);
            let (error, unsupported) = push_message(rest, h.message_id.0, 2, HEADER_LEN, &mut lines);
            assert(texts(lines@) =~= segment_walk(payload@).lines);
            make_report(lines, error, unsupported)
        },
    }
}

} // verus!
