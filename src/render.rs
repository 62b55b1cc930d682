use vstd::prelude::*;

use crate::bits::{flag_line, push_flag_line};
use crate::date::{date_text, push_date};
use crate::labels::{named_label, named_name, named_name_spec, named_spec, Named};
use crate::primitives::{be_value, decimal, hex_bytes, push_decimal, to_u16, to_u32, to_u64};
use crate::registry::{
    choice_label, choice_spec, field, field_spec, flag_at, flags_count, flags_spec, flags_width, Ctx,
    Flags, Format, Kind,
};
use crate::text::{
    ip_text, mac_text, push_hex_bytes, push_ip, push_mac, push_str, push_utf8_text, utf8_text,
};
use crate::tlv::{
    encode_sequence, encode_tlv, lemma_read_record, parse_tlvs, read_tlv, well_formed, RphyTlv, TlvError,
    TlvView,
};

verus! {

/// The text of each line.
pub open spec fn texts(lines: Seq<Vec<char>>) -> Seq<Seq<char>> {
    lines.map_values(|l: Vec<char>| l@)
}

/// Two spaces for each level of nesting.
pub open spec fn indent(depth: nat) -> Seq<char> {
    Seq::new(2 * depth, |i: int| ' ')
}

/// The line that opens a container or a flag list.
pub open spec fn header_line(depth: nat, label: Seq<char>) -> Seq<char> {
    indent(depth) + label + seq![':']
}

/// The line of a field with its value.
pub open spec fn value_line(depth: nat, label: Seq<char>, text: Seq<char>) -> Seq<char> {
    indent(depth) + label + ": "@ + text
}

/// The line of a known field whose value is empty.
pub open spec fn empty_line(depth: nat, label: Seq<char>) -> Seq<char> {
    value_line(depth, label, "(empty)"@)
}

/// The line of a record whose type code is unknown where it stands.
pub open spec fn unsupported_line(depth: nat, code: u8, v: Seq<u8>) -> Seq<char> {
    indent(depth) + "Unsupported type "@ + decimal(code as nat) + ": "@ + hex_bytes(v)
}

/// The description of value `v` in an enumeration, or its name and number.
pub open spec fn named_text(n: Named, v: u16) -> Seq<char> {
    match named_spec(n, v) {
        Some(l) => l,
        None => named_name_spec(n) + seq!['('] + decimal(v as nat) + seq![')'],
    }
}

/// The text of a one-line value; `None` where the value is too short for its format.
pub open spec fn value_text(f: Format, v: Seq<u8>) -> Option<Seq<char>> {
    match f {
        Format::U8 => if v.len() >= 1 { Some(decimal(v[0] as nat)) } else { None },
        Format::U16 => if v.len() >= 2 { Some(decimal(be_value(v.subrange(0, 2)))) } else { None },
        Format::U32 => if v.len() >= 4 { Some(decimal(be_value(v.subrange(0, 4)))) } else { None },
        Format::U64 => if v.len() >= 8 { Some(decimal(be_value(v.subrange(0, 8)))) } else { None },
        Format::Hex => Some(hex_bytes(v)),
        Format::Text => Some(
            match utf8_text(v) {
                Some(t) => t,
                None => "invalid UTF-8 text"@,
            },
        ),
        Format::Mac => Some(
            if v.len() == 6 {
                mac_text(v)
            } else {
                "malformed MAC address"@
            },
        ),
        Format::Ip => Some(
            if v.len() == 4 || v.len() == 16 {
                ip_text(v)
            } else {
                "malformed IP address"@
            },
        ),
        Format::Date => Some(date_text(v)),
        Format::NamedU8(n) => if v.len() >= 1 { Some(named_text(n, v[0] as u16)) } else { None },
        Format::NamedU16(n) => if v.len() >= 2 {
            Some(named_text(n, be_value(v.subrange(0, 2)) as u16))
        } else {
            None
        },
        Format::Choice(c) => if v.len() >= 1 { Some(choice_spec(c, v[0])) } else { None },
        Format::Note | Format::Flags(_) => Some(Seq::empty()),
    }
}

/// One line for each flag of a bitmask holding `value`.
pub open spec fn flag_lines(fl: Flags, value: u32, depth: nat) -> Seq<Seq<char>> {
    Seq::new(
        flags_spec(fl).1.len(),
        |i: int|
            indent(depth) + flag_line(
                flags_spec(fl).1[i].1,
                value,
                flags_spec(fl).1[i].0,
                flags_spec(fl).0,
            ),
    )
}

/// The lines of a leaf field with a non-empty value; `None` where the value is
/// too short for its format.
pub open spec fn leaf_lines(f: Format, label: Seq<char>, v: Seq<u8>, depth: nat) -> Option<Seq<Seq<char>>> {
    match f {
        Format::Note => Some(seq![indent(depth) + label]),
        Format::Flags(fl) => {
            let n = flags_spec(fl).0 / 8;
            if v.len() >= n {
                Some(
                    seq![header_line(depth, label)] + flag_lines(
                        fl,
                        be_value(v.subrange(0, n as int)) as u32,
                        depth + 1,
                    ),
                )
            } else {
                None
            }
        },
        _ => match value_text(f, v) {
            Some(t) => Some(seq![value_line(depth, label, t)]),
            None => None,
        },
    }
}

/// Why decoding a segment stopped.
#[derive(Debug, Clone, Copy, PartialEq, Eq, Structural)]
pub enum ErrorKind {
    /// A record's declared length runs past the bytes that hold it.
    TruncatedTlv,
    /// One or two bytes are left over after the last record.
    TrailingGarbage,
    /// A fixed-width value is shorter than its format needs.
    MalformedFixedField,
}

/// A structural fault: its kind, the type codes of the records that enclose
/// it, from the outermost, and the offset in the decoded buffer of the record
/// or field where it was found.
#[derive(Debug, PartialEq, Eq)]
pub struct DecodeError {
    pub kind: ErrorKind,
    pub path: Vec<u8>,
    pub offset: usize,
}

/// The fault as plain values.
pub open spec fn error_view(e: Option<DecodeError>) -> Option<(ErrorKind, Seq<u8>, nat)> {
    match e {
        Some(d) => Some((d.kind, d.path@, d.offset as nat)),
        None => None,
    }
}

fn framing_error(e: TlvError) -> (r: ErrorKind)
    ensures
        r == framing_kind(e),
{
    match e {
        TlvError::TruncatedTlv => ErrorKind::TruncatedTlv,
        TlvError::TrailingGarbage => ErrorKind::TrailingGarbage,
    }
}

/// The error kind of a framing fault.
pub open spec fn framing_kind(e: TlvError) -> ErrorKind {
    match e {
        TlvError::TruncatedTlv => ErrorKind::TruncatedTlv,
        TlvError::TrailingGarbage => ErrorKind::TrailingGarbage,
    }
}

/// What a walk over records yields: its lines, the fault that stopped it with
/// the path to it, and whether an unknown type code was met.
pub struct Walk {
    pub lines: Seq<Seq<char>>,
    pub error: Option<(ErrorKind, Seq<u8>, nat)>,
    pub unsupported: bool,
}

/// The rendering of one record in context `ctx`, the record starting at offset
/// `pos`; a fault's path leaves out the record's own code.
pub open spec fn record_walk(ctx: Ctx, t: TlvView, depth: nat, pos: nat) -> Walk
    decreases t.val.len(), 2nat,
{
    match field_spec(ctx, t.typ) {
        None => Walk { lines: seq![unsupported_line(depth, t.typ, t.val)], error: None, unsupported: true },
        Some((k, l)) => if t.val.len() == 0 {
            Walk { lines: seq![empty_line(depth, l)], error: None, unsupported: false }
        } else {
            match k {
                Kind::Leaf(f) => match leaf_lines(f, l, t.val, depth) {
                    Some(ls) => Walk { lines: ls, error: None, unsupported: false },
                    None => Walk {
                        lines: Seq::empty(),
                        error: Some((ErrorKind::MalformedFixedField, Seq::empty(), pos)),
                        unsupported: false,
                    },
                },
                Kind::Node(c) => {
                    let inner = walk(c, t.val, depth + 1, true, pos + 3);
                    Walk {
                        lines: seq![header_line(depth, l)] + inner.lines,
                        error: inner.error,
                        unsupported: inner.unsupported,
                    }
                },
            }
        },
    }
}

/// The rendering of the records of `b` in context `ctx`, in order, up to the
/// first fault; `at_start` holds before the first record, and `b` starts at
/// offset `pos` of the decoded buffer.
pub open spec fn walk(ctx: Ctx, b: Seq<u8>, depth: nat, at_start: bool, pos: nat) -> Walk
    decreases b.len(), 1nat,
{
    if b.len() == 0 {
        Walk { lines: Seq::empty(), error: None, unsupported: false }
    } else if !at_start && b.len() < 3 {
        Walk { lines: Seq::empty(), error: Some((ErrorKind::TrailingGarbage, Seq::empty(), pos)), unsupported: false }
    } else {
        match read_tlv(b) {
            Err(e) => Walk { lines: Seq::empty(), error: Some((framing_kind(e), Seq::empty(), pos)), unsupported: false },
            Ok((t, rest)) => if t.val.len() < b.len() && rest.len() < b.len() {
                let head = record_walk(ctx, t, depth, pos);
                match head.error {
                    Some((k, p, o)) => Walk {
                        lines: head.lines,
                        error: Some((k, seq![t.typ] + p, o)),
                        unsupported: head.unsupported,
                    },
                    None => {
                        let tail = walk(ctx, rest, depth, false, pos + 3 + t.val.len());
                        Walk {
                            lines: head.lines + tail.lines,
                            error: tail.error,
                            unsupported: head.unsupported || tail.unsupported,
                        }
                    },
                }
            } else {
                Walk { lines: Seq::empty(), error: None, unsupported: false }
            },
        }
    }
}

/// A record whose value is empty renders as a single line, reads none of the
/// value bytes, and never stops the decoding.
pub proof fn lemma_empty_value_renders(ctx: Ctx, t: TlvView, depth: nat, pos: nat)
    requires
        t.val.len() == 0,
    ensures
        record_walk(ctx, t, depth, pos).error is None,
        record_walk(ctx, t, depth, pos).lines == seq![
            match field_spec(ctx, t.typ) {
                Some((_, l)) => empty_line(depth, l),
                None => unsupported_line(depth, t.typ, t.val),
            },
        ],
{
}

/// A record whose type code is unknown where it stands renders one
/// "unsupported" line, and the records after it render exactly as they would
/// on their own, with the same outcome.
pub proof fn lemma_unknown_code_keeps_siblings(ctx: Ctx, b: Seq<u8>, depth: nat, at_start: bool, pos: nat)
    requires
        read_tlv(b) is Ok,
        field_spec(ctx, (read_tlv(b)->Ok_0).0.typ) is None,
    ensures
        ({
            let (t, rest) = read_tlv(b)->Ok_0;
            let w = walk(ctx, b, depth, at_start, pos);
            let tail = walk(ctx, rest, depth, false, pos + 3 + t.val.len());
            &&& w.lines == seq![unsupported_line(depth, t.typ, t.val)] + tail.lines
            &&& w.error == tail.error
            &&& w.unsupported
        }),
{
    let (t, rest) = read_tlv(b)->Ok_0;
    assert(b.len() >= 3);
    assert(t.val.len() < b.len() && rest.len() < b.len());
    let head = record_walk(ctx, t, depth, pos);
    assert(head.lines == seq![unsupported_line(depth, t.typ, t.val)]);
    assert(head.error is None);
}

/// The lines of a walk, and whether it stops or meets an unknown code, do not
/// depend on where in the decoded buffer its bytes stand.
pub proof fn lemma_walk_offset_free(ctx: Ctx, b: Seq<u8>, depth: nat, at_start: bool, p1: nat, p2: nat)
    ensures
        walk(ctx, b, depth, at_start, p1).lines == walk(ctx, b, depth, at_start, p2).lines,
        walk(ctx, b, depth, at_start, p1).unsupported == walk(ctx, b, depth, at_start, p2).unsupported,
        (walk(ctx, b, depth, at_start, p1).error is None) == (walk(ctx, b, depth, at_start, p2).error is None),
    decreases b.len(), 1nat,
{
    if b.len() > 0 && (at_start || b.len() >= 3) {
        match read_tlv(b) {
            Ok((t, rest)) => {
                if t.val.len() < b.len() && rest.len() < b.len() {
                    lemma_record_offset_free(ctx, t, depth, p1, p2);
                    lemma_walk_offset_free(ctx, rest, depth, false, p1 + 3 + t.val.len(), p2 + 3 + t.val.len());
                }
            },
            Err(_) => {},
        }
    }
}

/// The rendering of one record does not depend on where it stands, but for a fault's offset.
pub proof fn lemma_record_offset_free(ctx: Ctx, t: TlvView, depth: nat, p1: nat, p2: nat)
    ensures
        record_walk(ctx, t, depth, p1).lines == record_walk(ctx, t, depth, p2).lines,
        record_walk(ctx, t, depth, p1).unsupported == record_walk(ctx, t, depth, p2).unsupported,
        (record_walk(ctx, t, depth, p1).error is None) == (record_walk(ctx, t, depth, p2).error is None),
    decreases t.val.len(), 2nat,
{
    match field_spec(ctx, t.typ) {
        Some((Kind::Node(c), _)) => {
            if t.val.len() > 0 {
                lemma_walk_offset_free(c, t.val, depth + 1, true, p1 + 3, p2 + 3);
            }
        },
        _ => {},
    }
}

/// Whether a walk starts a sequence changes only which fault a short
/// remainder is reported as.
pub proof fn lemma_walk_start_free(ctx: Ctx, b: Seq<u8>, depth: nat, pos: nat)
    ensures
        walk(ctx, b, depth, true, pos).lines == walk(ctx, b, depth, false, pos).lines,
        walk(ctx, b, depth, true, pos).unsupported == walk(ctx, b, depth, false, pos).unsupported,
        (walk(ctx, b, depth, true, pos).error is None) == (walk(ctx, b, depth, false, pos).error is None),
{
}

proof fn lemma_unknown_record_first(
    ctx: Ctx,
    pre: Seq<TlvView>,
    u: TlvView,
    post: Seq<u8>,
    depth: nat,
    at_start: bool,
    pos: nat,
)
    requires
        pre.len() == 0,
        u.val.len() == u.len as nat,
        field_spec(ctx, u.typ) is None,
    ensures
        ({
            let with = walk(ctx, encode_sequence(pre) + encode_tlv(u) + post, depth, at_start, pos);
            let without = walk(ctx, encode_sequence(pre) + post, depth, at_start, pos);
            let before = walk(ctx, encode_sequence(pre), depth, at_start, pos).lines;
            let after = walk(ctx, post, depth, false, 0).lines;
            &&& with.lines == before + seq![unsupported_line(depth, u.typ, u.val)] + after
            &&& without.lines == before + after
            &&& (with.error is None) == (without.error is None)
            &&& with.unsupported
        }),
{
    let ul = unsupported_line(depth, u.typ, u.val);
    assert(encode_sequence(pre) =~= Seq::<u8>::empty());
    let bw = encode_tlv(u) + post;
    assert(encode_sequence(pre) + encode_tlv(u) + post =~= bw);
    assert(encode_sequence(pre) + post =~= post);
    lemma_read_record(u, post);
    lemma_unknown_code_keeps_siblings(ctx, bw, depth, at_start, pos);
    lemma_walk_offset_free(ctx, post, depth, false, pos + 3 + u.val.len(), 0);
    lemma_walk_offset_free(ctx, post, depth, false, pos, 0);
    lemma_walk_start_free(ctx, post, depth, pos);
    assert(walk(ctx, encode_sequence(pre), depth, at_start, pos).lines =~= Seq::<Seq<char>>::empty());
    assert(Seq::<Seq<char>>::empty() + seq![ul] + walk(ctx, post, depth, false, 0).lines
        =~= seq![ul] + walk(ctx, post, depth, false, 0).lines);
    assert(Seq::<Seq<char>>::empty() + walk(ctx, post, depth, false, 0).lines
        =~= walk(ctx, post, depth, false, 0).lines);
}

/// Taking out a record whose type code is unknown where it stands, from after
/// records that render without fault, takes out that record's one line and
/// changes nothing else: the records before it and those after it render as
/// they would without it, and the walk stops on a fault with it exactly when
/// it does without it.
#[verifier::rlimit(40)]
pub proof fn lemma_unknown_record_removable(
    ctx: Ctx,
    pre: Seq<TlvView>,
    u: TlvView,
    post: Seq<u8>,
    depth: nat,
    at_start: bool,
    pos: nat,
)
    requires
        well_formed(pre),
        u.val.len() == u.len as nat,
        field_spec(ctx, u.typ) is None,
        walk(ctx, encode_sequence(pre), depth, at_start, pos).error is None,
    ensures
        ({
            let with = walk(ctx, encode_sequence(pre) + encode_tlv(u) + post, depth, at_start, pos);
            let without = walk(ctx, encode_sequence(pre) + post, depth, at_start, pos);
            let before = walk(ctx, encode_sequence(pre), depth, at_start, pos).lines;
            let after = walk(ctx, post, depth, false, 0).lines;
            &&& with.lines == before + seq![unsupported_line(depth, u.typ, u.val)] + after
            &&& without.lines == before + after
            &&& (with.error is None) == (without.error is None)
            &&& with.unsupported
        }),
    decreases pre.len(),
{
    let ul = unsupported_line(depth, u.typ, u.val);
    if pre.len() == 0 {
        lemma_unknown_record_first(ctx, pre, u, post, depth, at_start, pos);
    } else {
        let t = pre[0];
        let tail = pre.drop_first();
        assert(well_formed(tail)) by {
            assert forall|k: int| 0 <= k < tail.len() implies #[trigger] tail[k].val.len() == tail[k].len as nat by {
                assert(tail[k] == pre[k + 1]);
            }
        }
        assert(t.val.len() == t.len as nat);
        let et = encode_sequence(tail);
        assert(encode_sequence(pre) == encode_tlv(t) + et);
        let next = pos + 3 + t.val.len();
        let rw = et + encode_tlv(u) + post;
        let ro = et + post;
        assert(encode_sequence(pre) + encode_tlv(u) + post =~= encode_tlv(t) + rw);
        assert(encode_sequence(pre) + post =~= encode_tlv(t) + ro);
        lemma_read_record(t, et);
        lemma_read_record(t, rw);
        lemma_read_record(t, ro);
        let head = record_walk(ctx, t, depth, pos);
        assert(head.error is None);
        assert(walk(ctx, et, depth, false, next).error is None);
        lemma_unknown_record_removable(ctx, tail, u, post, depth, false, next);
        let before_tail = walk(ctx, et, depth, false, next).lines;
        let after = walk(ctx, post, depth, false, 0).lines;
        assert(walk(ctx, encode_sequence(pre), depth, at_start, pos).lines == head.lines + before_tail);
        assert(walk(ctx, encode_tlv(t) + rw, depth, at_start, pos).lines
            == head.lines + walk(ctx, rw, depth, false, next).lines);
        assert(walk(ctx, encode_tlv(t) + ro, depth, at_start, pos).lines
            == head.lines + walk(ctx, ro, depth, false, next).lines);
        assert(head.lines + (before_tail + seq![ul] + after) =~= head.lines + before_tail + seq![ul] + after);
        assert(head.lines + (before_tail + after) =~= head.lines + before_tail + after);
    }
}

pub fn push_indent(line: &mut Vec<char>, depth: usize)
    ensures
        final(line)@ == old(line)@ + indent(depth as nat),
{
    let ghost start = line@;
    let mut i: usize = 0;
    while i < depth
        invariant
            i <= depth,
            line@ == start + indent(i as nat),
        decreases depth - i,
    {
        line.push(' ');
        line.push(' ');
        i = i + 1;
        assert(line@ =~= start + indent(i as nat));
    }
}

pub fn push_named(line: &mut Vec<char>, n: Named, v: u16)
    ensures
        final(line)@ == old(line)@ + named_text(n, v),
{
    match named_label(n, v) {
        Some(l) => push_str(line, l),
        None => {
            let ghost start = line@;
            push_str(line, named_name(n));
            line.push('(');
            push_decimal(line, v as u64);
            line.push(')');
            assert(line@ =~= start + named_text(n, v));
        },
    }
}

/// Appends the text of a one-line value; `false`, with nothing appended, where
/// the value is too short for its format.
fn push_value_text(line: &mut Vec<char>, f: Format, v: &[u8]) -> (ok: bool)
    ensures
        ok == value_text(f, v@) is Some,
        ok ==> final(line)@ == old(line)@ + value_text(f, v@)->Some_0,
        !ok ==> final(line)@ == old(line)@,
{
    match f {
        Format::U8 => {
            if v.len() < 1 {
                return false;
            }
            push_decimal(line, v[0] as u64);
        },
        Format::U16 => {
            if v.len() < 2 {
                return false;
            }
            push_decimal(line, to_u16(v) as u64);
        },
        Format::U32 => {
            if v.len() < 4 {
                return false;
            }
            push_decimal(line, to_u32(v) as u64);
        },
        Format::U64 => {
            if v.len() < 8 {
                return false;
            }
            push_decimal(line, to_u64(v));
        },
        Format::Hex => push_hex_bytes(line, v),
        Format::Text => {
            if !push_utf8_text(line, v) {
                push_str(line, "invalid UTF-8 text");
            }
        },
        Format::Mac => {
            if !push_mac(line, v) {
                push_str(line, "malformed MAC address");
            }
        },
        Format::Ip => {
            if !push_ip(line, v) {
                push_str(line, "malformed IP address");
            }
        },
        Format::Date => push_date(line, v),
        Format::NamedU8(n) => {
            if v.len() < 1 {
                return false;
            }
            push_named(line, n, v[0] as u16);
        },
        Format::NamedU16(n) => {
            if v.len() < 2 {
                return false;
            }
            push_named(line, n, to_u16(v));
        },
        Format::Choice(c) => {
            if v.len() < 1 {
                return false;
            }
            push_str(line, choice_label(c, v[0]));
        },
        Format::Note | Format::Flags(_) => {
            assert(line@ =~= line@ + Seq::<char>::empty());
        },
    }
    true
}

fn push_flag_lines(out: &mut Vec<Vec<char>>, fl: Flags, value: u32, depth: usize)
    ensures
        texts(final(out)@) == texts(old(out)@) + flag_lines(fl, value, depth as nat),
{
    let n = flags_count(fl);
    let w = flags_width(fl);
    let ghost start = texts(out@);
    let mut i: usize = 0;
    while i < n
        invariant
            i <= n,
            n == flags_spec(fl).1.len(),
            w == flags_spec(fl).0,
            w == 8 || w == 16 || w == 32,
            texts(out@) == start + flag_lines(fl, value, depth as nat).subrange(0, i as int),
        decreases n - i,
    {
        let (bit, name) = flag_at(fl, i);
        let mut line: Vec<char> = Vec::new();
        push_indent(&mut line, depth);
        push_flag_line(&mut line, name, value, bit, w);
        let ghost before = out@;
        let ghost ln = line@;
        assert(ln =~= flag_lines(fl, value, depth as nat)[i as int]);
        out.push(line);
        assert(texts(out@) =~= texts(before).push(ln));
        i = i + 1;
        assert(texts(out@) =~= start + flag_lines(fl, value, depth as nat).subrange(0, i as int));
    }
    assert(flag_lines(fl, value, depth as nat).subrange(0, n as int) =~= flag_lines(fl, value, depth as nat));
}

/// Appends the lines of a leaf field with a non-empty value; `false`, with
/// nothing appended, where the value is too short for its format.
fn push_leaf(out: &mut Vec<Vec<char>>, f: Format, label: &str, v: &[u8], depth: usize) -> (ok: bool)
    requires
        depth < usize::MAX,
    ensures
        ok == leaf_lines(f, label@, v@, depth as nat) is Some,
        ok ==> texts(final(out)@) == texts(old(out)@) + leaf_lines(f, label@, v@, depth as nat)->Some_0,
        !ok ==> final(out)@ == old(out)@,
{
    let mut line: Vec<char> = Vec::new();
    push_indent(&mut line, depth);
    push_str(&mut line, label);
    match f {
        Format::Note => {
            out.push(line);
            assert(texts(out@) =~= texts(old(out)@) + leaf_lines(f, label@, v@, depth as nat)->Some_0);
            true
        },
        Format::Flags(fl) => {
            let n = flags_width(fl) / 8;
            if v.len() < n {
                return false;
            }
            let value: u32 = if n == 1 {
                v[0] as u32
            } else if n == 2 {
                proof {
                    assert(v@.subrange(0, 2) =~= v@.subrange(0, n as int));
                }
                to_u16(v) as u32
            } else {
                proof {
                    assert(v@.subrange(0, 4) =~= v@.subrange(0, n as int));
                }
                to_u32(v)
            };
            proof {
                if n == 1 {
                    let s = v@.subrange(0, 1);
                    assert(s.drop_last() =~= Seq::<u8>::empty());
                    assert(be_value(Seq::<u8>::empty()) == 0);
                    assert(s.last() == v@[0]);
                    assert(be_value(s) == v@[0] as nat);
                }
                assert(value as nat == be_value(v@.subrange(0, n as int)));
                assert(n == flags_spec(fl).0 / 8);
            }
            line.push(':');
            let ghost before = out@;
            let ghost ln = line@;
            out.push(line);
            assert(texts(out@) =~= texts(before).push(ln));
            assert(ln == header_line(depth as nat, label@));
            push_flag_lines(out, fl, value, depth + 1);
            assert(leaf_lines(f, label@, v@, depth as nat)->Some_0 == seq![header_line(depth as nat, label@)]
                + flag_lines(fl, value, depth as nat + 1));
            assert(texts(out@) =~= texts(old(out)@) + leaf_lines(f, label@, v@, depth as nat)->Some_0);
            true
        },
        _ => {
            push_str(&mut line, ": ");
            if !push_value_text(&mut line, f, v) {
                return false;
            }
            out.push(line);
            assert(texts(out@) =~= texts(old(out)@) + leaf_lines(f, label@, v@, depth as nat)->Some_0);
            true
        },
    }
}

pub fn push_line(out: &mut Vec<Vec<char>>, line: Vec<char>)
    ensures
        texts(final(out)@) == texts(old(out)@).push(line@),
{
    out.push(line);
    assert(texts(out@) =~= texts(old(out)@).push(line@));
}

/// Renders one record in context `ctx` at nesting `depth`, appending its lines
/// to `out`; returns the fault that stopped it, if any, its path leaving out the
/// record's own code, and whether an unknown type code was met.
pub fn render_record(ctx: Ctx, t: &RphyTlv, depth: usize, pos: usize, out: &mut Vec<Vec<char>>) -> (r: (Option<DecodeError>, bool))
    requires
        depth + t.val@.len() + 1 < usize::MAX,
        pos + t.val@.len() + 3 < usize::MAX,
    ensures
        texts(final(out)@) == texts(old(out)@) + record_walk(ctx, t@, depth as nat, pos as nat).lines,
        error_view(r.0) == record_walk(ctx, t@, depth as nat, pos as nat).error,
        r.1 == record_walk(ctx, t@, depth as nat, pos as nat).unsupported,
    decreases t.val@.len(), 2nat,
{
    match field(ctx, t.typ) {
        None => {
            let mut line: Vec<char> = Vec::new();
            push_indent(&mut line, depth);
            push_str(&mut line, "Unsupported type ");
            push_decimal(&mut line, t.typ as u64);
            push_str(&mut line, ": ");
            push_hex_bytes(&mut line, t.val);
            push_line(out, line);
            assert(texts(out@) =~= texts(old(out)@) + record_walk(ctx, t@, depth as nat, pos as nat).lines);
            (None, true)
        },
        Some((k, label)) => {
            if t.val.len() == 0 {
                let mut line: Vec<char> = Vec::new();
                push_indent(&mut line, depth);
                push_str(&mut line, label);
                push_str(&mut line, ": ");
                push_str(&mut line, "(empty)");
                push_line(out, line);
                assert(texts(out@) =~= texts(old(out)@) + record_walk(ctx, t@, depth as nat, pos as nat).lines);
                return (None, false);
            }
            match k {
                Kind::Leaf(f) => {
                    if push_leaf(out, f, label, t.val, depth) {
                        (None, false)
                    } else {
                        assert(texts(out@) =~= texts(old(out)@) + Seq::<Seq<char>>::empty());
                        (Some(DecodeError { kind: ErrorKind::MalformedFixedField, path: Vec::new(), offset: pos }), false)
                    }
                },
                Kind::Node(c) => {
                    let mut line: Vec<char> = Vec::new();
                    push_indent(&mut line, depth);
                    push_str(&mut line, label);
                    line.push(':');
                    assert(line@ =~= header_line(depth as nat, label@));
                    push_line(out, line);
                    let r = walk_records(c, t.val, depth + 1, pos + 3, out);
                    let ghost inner = walk(c, t.val@, depth as nat + 1, true, pos as nat + 3);
                    assert(record_walk(ctx, t@, depth as nat, pos as nat).lines == seq![header_line(depth as nat, label@)] + inner.lines);
                    assert(texts(out@) =~= texts(old(out)@) + record_walk(ctx, t@, depth as nat, pos as nat).lines);
                    r
                },
            }
        },
    }
}

/// Renders the records of `b` in context `ctx` at nesting `depth`, appending
/// their lines to `out`; returns the fault that stopped it, if any, and whether
/// an unknown type code was met.
pub fn walk_records(ctx: Ctx, b: &[u8], depth: usize, pos: usize, out: &mut Vec<Vec<char>>) -> (r: (Option<DecodeError>, bool))
    requires
        depth + b@.len() < usize::MAX,
        pos + b@.len() < usize::MAX,
    ensures
        texts(final(out)@) == texts(old(out)@) + walk(ctx, b@, depth as nat, true, pos as nat).lines,
        error_view(r.0) == walk(ctx, b@, depth as nat, true, pos as nat).error,
        r.1 == walk(ctx, b@, depth as nat, true, pos as nat).unsupported,
    decreases b@.len(), 1nat,
{
    let ghost whole = walk(ctx, b@, depth as nat, true, pos as nat);
    let ghost start = texts(out@);
    let mut rest: &[u8] = b;
    let mut at_start = true;
    let mut seen = false;
    let mut at: usize = pos;
    while rest.len() > 0
        invariant
            rest@.len() <= b@.len(),
            at + rest@.len() == pos + b@.len(),
            depth + b@.len() < usize::MAX,
            pos + b@.len() < usize::MAX,
            whole == walk(ctx, b@, depth as nat, true, pos as nat),
            start == texts(old(out)@),
            at_start ==> rest@ == b@,
            texts(out@).len() >= start.len(),
            texts(out@).subrange(0, start.len() as int) == start,
            whole.lines == texts(out@).subrange(start.len() as int, texts(out@).len() as int)
                + walk(ctx, rest@, depth as nat, at_start, at as nat).lines,
            whole.error == walk(ctx, rest@, depth as nat, at_start, at as nat).error,
            whole.unsupported == (seen || walk(ctx, rest@, depth as nat, at_start, at as nat).unsupported),
        decreases rest@.len(),
    {
        let ghost cur = rest@;
        let ghost cur_start = at_start;
        let ghost before = texts(out@);
        let ghost done = before.subrange(start.len() as int, before.len() as int);
        proof {
            assert(before =~= start + done);
            assert(done + Seq::<Seq<char>>::empty() =~= done);
        }
        if !at_start && rest.len() < 3 {
            assert(walk(ctx, cur, depth as nat, cur_start, at as nat).lines =~= Seq::<Seq<char>>::empty());
            return (Some(DecodeError { kind: ErrorKind::TrailingGarbage, path: Vec::new(), offset: at }), seen);
        }
        let (t, next) = match parse_tlvs(rest) {
            Ok(p) => p,
            Err(e) => {
                assert(walk(ctx, cur, depth as nat, cur_start, at as nat).lines =~= Seq::<Seq<char>>::empty());
                return (Some(DecodeError { kind: framing_error(e), path: Vec::new(), offset: at }), seen);
            },
        };
        let ghost head = record_walk(ctx, t@, depth as nat, at as nat);
        let (failed, unknown) = render_record(ctx, &t, depth, at, out);
        seen = seen || unknown;
        let ghost after = texts(out@);
        proof {
            assert(after =~= before + head.lines);
            assert(after.subrange(0, start.len() as int) =~= start);
            assert(after.subrange(start.len() as int, after.len() as int) =~= done + head.lines);
        }
        match failed {
            Some(e) => {
                let mut path: Vec<u8> = Vec::new();
                path.push(t.typ);
                let mut inner = e.path;
                path.append(&mut inner);
                proof {
                    assert(walk(ctx, cur, depth as nat, cur_start, at as nat).lines == head.lines);
                    assert(path@ =~= seq![t.typ] + e.path@);
                    assert(after =~= start + (done + head.lines));
                }
                return (Some(DecodeError { kind: e.kind, path, offset: e.offset }), seen);
            },
            None => {},
        }
        rest = next;
        at_start = false;
        at = at + 3 + t.val.len();
        proof {
            assert(done + head.lines + walk(ctx, rest@, depth as nat, at_start, at as nat).lines
                =~= done + (head.lines + walk(ctx, rest@, depth as nat, at_start, at as nat).lines));
        }
    }
    proof {
        let after = texts(out@);
        assert(after =~= start + after.subrange(start.len() as int, after.len() as int));
        assert(after.subrange(start.len() as int, after.len() as int) + Seq::<Seq<char>>::empty()
            =~= after.subrange(start.len() as int, after.len() as int));
    }
    (None, seen)
}

} // verus!
