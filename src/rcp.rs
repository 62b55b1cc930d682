use vstd::prelude::*;

use crate::labels::Named;
use crate::registry::Ctx;
use crate::render::{error_view, named_text, texts, walk, walk_records, ErrorKind, DecodeError, Walk};
use crate::text::{push_str, string_of};

verus! {

/// The kind of an RCP message: identification, object exchange or notification.
#[derive(Debug, Clone, Copy, PartialEq, Eq, Structural)]
pub struct RcpMessageType(pub u8);

impl RcpMessageType {
    /// Whether the type is one this decoder descends into.
    pub fn is_known(&self) -> (r: bool)
        ensures
            r == (rcp_title(self.0) is Some),
    {
        rcp_title_of(self.0).is_some()
    }
}

/// The header of an RCP sequence.
#[derive(Debug, Clone, Copy, PartialEq, Eq, Structural)]
pub struct RcpSequence {
    pub sequence: u8,
    pub sequence_size: u16,
    pub sequence_number: u16,
    pub operation: Operation,
}

/// The operation that an RCP sequence asks for or answers.
#[derive(Debug, Clone, Copy, PartialEq, Eq, Structural)]
pub struct Operation(pub u8);

impl Operation {
    /// The description of the operation, or its number where it has none.
    pub fn label(&self) -> (r: String)
        ensures
            r@ == named_text(Named::Operation, self.0 as u16),
    {
        let mut line: Vec<char> = Vec::new();
        crate::render::push_named(&mut line, Named::Operation, self.0 as u16);
        string_of(line.as_slice())
    }
}

/// The title line of a known RCP message type.
pub open spec fn rcp_title(t: u8) -> Option<Seq<char>> {
    if t == 1 {
        Some("IRA: Identification and Resource Advertising"@)
    } else if t == 2 {
        Some("REX: RCP Object Exchange"@)
    } else if t == 3 {
        Some("NTF: Notification"@)
    } else {
        None
    }
}

fn rcp_title_of(t: u8) -> (r: Option<&'static str>)
    ensures
        match (r, rcp_title(t)) {
            (Some(s), Some(ss)) => s@ == ss,
            (None, None) => true,
            _ => false,
        },
{
    if t == 1 {
        Some("IRA: Identification and Resource Advertising")
    } else if t == 2 {
        Some("REX: RCP Object Exchange")
    } else if t == 3 {
        Some("NTF: Notification")
    } else {
        None
    }
}

/// The rendering of an RCP message starting at offset `pos`: a type byte and a
/// two-byte size, then, for a known type, its sequences. The size is advisory:
/// the body is all that follows.
pub open spec fn rcp_walk(b: Seq<u8>, depth: nat, pos: nat) -> Walk {
    if b.len() < 3 {
        Walk { lines: Seq::empty(), error: Some((ErrorKind::MalformedFixedField, Seq::empty(), pos)), unsupported: false }
    } else {
        match rcp_title(b[0]) {
            None => Walk {
                lines: seq![crate::render::indent(depth) + "Unsupported RCP Message Type"@],
                error: None,
                unsupported: true,
            },
            Some(title) => {
                let body = walk(Ctx::Sequences, b.subrange(3, b.len() as int), depth + 1, true, pos + 3);
                Walk {
                    lines: seq![crate::render::indent(depth) + title] + body.lines,
                    error: body.error,
                    unsupported: body.unsupported,
                }
            },
        }
    }
}

/// What decoding produced: the lines written so far, the fault that stopped it,
/// if any, and whether a construct unknown to this decoder was met.
#[derive(Debug)]
pub struct Report {
    pub lines: Vec<String>,
    pub error: Option<DecodeError>,
    pub unsupported: bool,
}

impl Report {
    /// Whether everything was decoded, with nothing unknown met.
    pub fn is_complete(&self) -> (r: bool)
        ensures
            r == (self.error is None && !self.unsupported),
    {
        self.error.is_none() && !self.unsupported
    }
}

/// The report holds the walk's lines, fault and unsupported flag.
pub open spec fn report_matches(r: Report, w: Walk) -> bool {
    &&& r.lines@.map_values(|s: String| s@) == w.lines
    &&& error_view(r.error) == w.error
    &&& r.unsupported == w.unsupported
}

/// Turns rendered lines into a report.
pub fn make_report(lines: Vec<Vec<char>>, error: Option<DecodeError>, unsupported: bool) -> (r: Report)
    ensures
        r.lines@.map_values(|s: String| s@) == texts(lines@),
        r.error == error,
        r.unsupported == unsupported,
{
    let mut out: Vec<String> = Vec::new();
    let mut i: usize = 0;
    while i < lines.len()
        invariant
            i <= lines@.len(),
            out@.map_values(|s: String| s@) == texts(lines@).subrange(0, i as int),
        decreases lines@.len() - i,
    {
        let s = string_of(lines[i].as_slice());
        assert(s@ == texts(lines@)[i as int]);
        let ghost prev = out@;
        out.push(s);
        assert(out@.map_values(|s: String| s@) =~= prev.map_values(|s: String| s@).push(s@));
        i = i + 1;
        assert(out@.map_values(|s: String| s@) =~= texts(lines@).subrange(0, i as int));
    }
    assert(texts(lines@).subrange(0, lines@.len() as int) =~= texts(lines@));
    Report { lines: out, error, unsupported }
}

/// Renders the records of `input` as they stand in context `ctx`, at nesting `margin_base`.
pub fn render_tlvs(ctx: Ctx, input: &[u8], margin_base: usize) -> (r: Report)
    requires
        margin_base + input@.len() < usize::MAX,
    ensures
        report_matches(r, walk(ctx, input@, margin_base as nat, true, 0)),
{
    let mut lines: Vec<Vec<char>> = Vec::new();
    let (error, unsupported) = walk_records(ctx, input, margin_base, 0, &mut lines);
    assert(texts(lines@) =~= walk(ctx, input@, margin_base as nat, true, 0).lines);
    make_report(lines, error, unsupported)
}

/// Renders the sequences of an RCP body at nesting `margin_base`.
pub fn parse_rphy_tlvs(input: &[u8], margin_base: usize) -> (r: Report)
    requires
        margin_base + input@.len() < usize::MAX,
    ensures
        report_matches(r, walk(Ctx::Sequences, input@, margin_base as nat, true, 0)),
{
    let mut lines: Vec<Vec<char>> = Vec::new();
    let (error, unsupported) = walk_records(Ctx::Sequences, input, margin_base, 0, &mut lines);
    assert(texts(lines@) =~= walk(Ctx::Sequences, input@, margin_base as nat, true, 0).lines);
    make_report(lines, error, unsupported)
}

/// Appends the lines of an RCP message, starting at offset `pos`, rendered at nesting `depth`.
pub fn push_rcp(input: &[u8], depth: usize, pos: usize, out: &mut Vec<Vec<char>>) -> (r: (Option<DecodeError>, bool))
    requires
        depth + input@.len() < usize::MAX,
        pos + input@.len() < usize::MAX,
    ensures
        texts(final(out)@) == texts(old(out)@) + rcp_walk(input@, depth as nat, pos as nat).lines,
        error_view(r.0) == rcp_walk(input@, depth as nat, pos as nat).error,
        r.1 == rcp_walk(input@, depth as nat, pos as nat).unsupported,
{
    if input.len() < 3 {
        assert(texts(out@) =~= texts(old(out)@) + Seq::<Seq<char>>::empty());
        return (Some(DecodeError { kind: ErrorKind::MalformedFixedField, path: Vec::new(), offset: pos }), false);
    }
    let mut line: Vec<char> = Vec::new();
    crate::render::push_indent(&mut line, depth);
    match rcp_title_of(input[0]) {
        None => {
            push_str(&mut line, "Unsupported RCP Message Type");
            crate::render::push_line(out, line);
            assert(texts(out@) =~= texts(old(out)@) + rcp_walk(input@, depth as nat, pos as nat).lines);
            (None, true)
        },
        Some(title) => {
            push_str(&mut line, title);
            crate::render::push_line(out, line);
            let body = &input[3..input.len()];
            let r = walk_records(Ctx::Sequences, body, depth + 1, pos + 3, out);
            assert(texts(out@) =~= texts(old(out)@) + rcp_walk(input@, depth as nat, pos as nat).lines);
            r
        },
    }
}

/// Renders an RCP message at nesting `margin_base`.
pub fn parse_rcp(input: &[u8], margin_base: usize) -> (r: Report)
    requires
        margin_base + input@.len() < usize::MAX,
    ensures
        report_matches(r, rcp_walk(input@, margin_base as nat, 0)),
{
    let mut lines: Vec<Vec<char>> = Vec::new();
    let (error, unsupported) = push_rcp(input, margin_base, 0, &mut lines);
    assert(texts(lines@) =~= rcp_walk(input@, margin_base as nat, 0).lines);
    make_report(lines, error, unsupported)
}

} // verus!
