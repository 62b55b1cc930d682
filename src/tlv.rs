use vstd::prelude::*;

use crate::primitives::{be_value, to_u16};

pub use crate::rcp::Operation;

verus! {

/// One type-length-value record, borrowing its value from the packet buffer.
#[derive(Debug, PartialEq, Eq)]
pub struct RphyTlv<'a> {
    pub typ: u8,
    pub len: u16,
    pub val: &'a [u8],
}

impl<'a> RphyTlv<'a> {
    /// The value holds exactly the declared number of bytes.
    pub open spec fn wf(&self) -> bool {
        self.val@.len() == self.len as nat
    }
}

/// What a record holds, as plain values.
pub struct TlvView {
    pub typ: u8,
    pub len: u16,
    pub val: Seq<u8>,
}

impl<'a> View for RphyTlv<'a> {
    type V = TlvView;

    open spec fn view(&self) -> TlvView {
        TlvView { typ: self.typ, len: self.len, val: self.val@ }
    }
}

/// Why a buffer is not a well-framed sequence of records.
#[derive(Debug, Clone, Copy, PartialEq, Eq)]
pub enum TlvError {
    /// A record's header or its declared value runs past the end of the buffer.
    TruncatedTlv,
    /// After at least one record, one or two bytes remain: too few for a header.
    TrailingGarbage,
}

/// The declared value length in the header at the start of `b`.
pub open spec fn declared_len(b: Seq<u8>) -> nat {
    be_value(b.subrange(1, 3))
}

/// Reads one record from the start of `b`: the record and the bytes after it.
pub open spec fn read_tlv(b: Seq<u8>) -> Result<(TlvView, Seq<u8>), TlvError> {
    if b.len() < 3 || b.len() < 3 + declared_len(b) {
        Err(TlvError::TruncatedTlv)
    } else {
        let end = 3 + declared_len(b);
        Ok((
            TlvView { typ: b[0], len: declared_len(b) as u16, val: b.subrange(3, end as int) },
            b.subrange(end as int, b.len() as int),
        ))
    }
}

/// Splits `b` into records until it is used up; `at_start` holds before the first one.
pub open spec fn read_sequence(b: Seq<u8>, at_start: bool) -> Result<Seq<TlvView>, TlvError>
    decreases b.len(),
{
    if b.len() == 0 {
        Ok(Seq::empty())
    } else if !at_start && b.len() < 3 {
        Err(TlvError::TrailingGarbage)
    } else {
        match read_tlv(b) {
            Err(e) => Err(e),
            Ok((t, rest)) => match read_sequence(rest, false) {
                Err(e) => Err(e),
                Ok(ts) => Ok(seq![t].add(ts)),
            },
        }
    }
}

/// The records that make up all of `b`.
pub open spec fn tlv_sequence(b: Seq<u8>) -> Result<Seq<TlvView>, TlvError> {
    read_sequence(b, true)
}

/// The bytes of one record: type, big-endian length, value.
pub open spec fn encode_tlv(t: TlvView) -> Seq<u8> {
    seq![t.typ, (t.len / 256) as u8, (t.len % 256) as u8] + t.val
}

/// The bytes of records written one after another.
pub open spec fn encode_sequence(ts: Seq<TlvView>) -> Seq<u8>
    decreases ts.len(),
{
    if ts.len() == 0 {
        Seq::empty()
    } else {
        encode_tlv(ts[0]) + encode_sequence(ts.drop_first())
    }
}

proof fn lemma_header_bytes(b: Seq<u8>)
    requires
        b.len() >= 3,
    ensures
        declared_len(b) == b[1] as nat * 256 + b[2] as nat,
        declared_len(b) < 65536,
{
    let h = b.subrange(1, 3);
    assert(h.drop_last() =~= seq![b[1]]);
    assert(seq![b[1]].drop_last() =~= Seq::<u8>::empty());
    assert(be_value(Seq::<u8>::empty()) == 0);
    assert(seq![b[1]].last() == b[1]);
    assert(be_value(seq![b[1]]) == b[1] as nat);
    assert(h.last() == b[2]);
}

/// Writing back the records read from a buffer gives that buffer, byte for byte.
pub proof fn lemma_round_trip(b: Seq<u8>)
    requires
        tlv_sequence(b) is Ok,
    ensures
        encode_sequence(tlv_sequence(b)->Ok_0) == b,
{
    lemma_read_sequence_round_trip(b, true);
}

proof fn lemma_read_sequence_round_trip(b: Seq<u8>, at_start: bool)
    requires
        read_sequence(b, at_start) is Ok,
    ensures
        encode_sequence(read_sequence(b, at_start)->Ok_0) == b,
    decreases b.len(),
{
    if b.len() > 0 {
        lemma_header_bytes(b);
        let (t, rest) = read_tlv(b)->Ok_0;
        lemma_read_sequence_round_trip(rest, false);
        let ts = read_sequence(b, at_start)->Ok_0;
        assert(ts.drop_first() =~= read_sequence(rest, false)->Ok_0);
        assert(encode_tlv(t) + rest =~= b);
    }
}

/// Each record's value holds exactly its declared number of bytes.
pub open spec fn well_formed(ts: Seq<TlvView>) -> bool {
    forall|k: int| 0 <= k < ts.len() ==> #[trigger] ts[k].val.len() == ts[k].len as nat
}

/// Reading the bytes of well-formed records written one after another, one
/// record at a time, gives those records back in order and uses up every byte.
pub proof fn lemma_encode_then_read(ts: Seq<TlvView>)
    requires
        well_formed(ts),
    ensures
        tlv_sequence(encode_sequence(ts)) == Ok::<Seq<TlvView>, TlvError>(ts),
{
    lemma_read_encoded(ts, true);
}

/// Reading the bytes of a well-formed record, whatever follows them, gives the
/// record and exactly the bytes that follow.
pub proof fn lemma_read_record(t: TlvView, rest: Seq<u8>)
    requires
        t.val.len() == t.len as nat,
    ensures
        read_tlv(encode_tlv(t) + rest) == Ok::<(TlvView, Seq<u8>), TlvError>((t, rest)),
{
    let e = encode_tlv(t) + rest;
    lemma_header_bytes(e);
    assert(e[1] == (t.len / 256) as u8 && e[2] == (t.len % 256) as u8);
    assert(declared_len(e) == t.len as nat);
    let end = 3 + t.len as nat;
    assert(e.subrange(3, end as int) =~= t.val);
    assert(e.subrange(end as int, e.len() as int) =~= rest);
}

proof fn lemma_read_encoded(ts: Seq<TlvView>, at_start: bool)
    requires
        well_formed(ts),
    ensures
        read_sequence(encode_sequence(ts), at_start) == Ok::<Seq<TlvView>, TlvError>(ts),
    decreases ts.len(),
{
    if ts.len() == 0 {
        assert(encode_sequence(ts) =~= Seq::<u8>::empty());
        assert(ts =~= Seq::<TlvView>::empty());
    } else {
        let t = ts[0];
        let tail = ts.drop_first();
        let e = encode_sequence(ts);
        let rest = encode_sequence(tail);
        assert(well_formed(tail)) by {
            assert forall|k: int| 0 <= k < tail.len() implies #[trigger] tail[k].val.len() == tail[k].len as nat by {
                assert(tail[k] == ts[k + 1]);
            }
        }
        assert(t.val.len() == t.len as nat);
        assert(e == encode_tlv(t) + rest);
        lemma_read_record(t, rest);
        lemma_read_encoded(tail, false);
        if tail.len() > 0 {
            assert(rest == encode_tlv(tail[0]) + encode_sequence(tail.drop_first()));
            assert(rest.len() >= 3);
        }
        assert(seq![t].add(tail) =~= ts);
        assert(e.len() >= 3);
        assert(read_sequence(e, at_start) == Ok::<Seq<TlvView>, TlvError>(seq![t].add(tail)));
    }
}

/// A record whose declared length is more than the bytes after its header is
/// refused as truncated, whatever follows.
pub proof fn lemma_short_buffer_truncated(b: Seq<u8>)
    requires
        b.len() >= 3,
        b.len() < 3 + declared_len(b),
    ensures
        read_tlv(b) == Err::<(TlvView, Seq<u8>), TlvError>(TlvError::TruncatedTlv),
        tlv_sequence(b) == Err::<Seq<TlvView>, TlvError>(TlvError::TruncatedTlv),
{
}

/// A record of declared length zero has an empty value, and reading it takes
/// exactly its three header bytes.
pub proof fn lemma_empty_value(b: Seq<u8>)
    requires
        b.len() >= 3,
        b[1] == 0,
        b[2] == 0,
    ensures
        read_tlv(b) is Ok,
        (read_tlv(b)->Ok_0).0.val.len() == 0,
        (read_tlv(b)->Ok_0).0.len == 0,
        (read_tlv(b)->Ok_0).1 == b.subrange(3, b.len() as int),
{
    lemma_header_bytes(b);
}

/// The views of the records in `ts`.
pub open spec fn views<'a>(ts: Seq<RphyTlv<'a>>) -> Seq<TlvView> {
    ts.map_values(|t: RphyTlv<'a>| t@)
}

/// Reads one record from the start of `input` and returns it with the bytes after it.
pub fn parse_tlvs<'a>(input: &'a [u8]) -> (r: Result<(RphyTlv<'a>, &'a [u8]), TlvError>)
    ensures
        match (r, read_tlv(input@)) {
            (Ok((t, rest)), Ok((tv, restv))) => t@ == tv && rest@ == restv && t.wf(),
            (Err(e), Err(ev)) => e == ev,
            _ => false,
        },
{
    if input.len() < 3 {
        return Err(TlvError::TruncatedTlv);
    }
    let len = to_u16(&input[1..3]);
    proof {
        assert(input@.subrange(1, 3) == input@.subrange(1, 3).subrange(0, 2));
    }
    if input.len() - 3 < len as usize {
        return Err(TlvError::TruncatedTlv);
    }
    let end: usize = 3 + len as usize;
    let val = &input[3..end];
    let rest = &input[end..input.len()];
    Ok((RphyTlv { typ: input[0], len, val }, rest))
}

/// Splits `input` into the records that make it up, in order.
pub fn parse_sequence<'a>(input: &'a [u8]) -> (r: Result<Vec<RphyTlv<'a>>, TlvError>)
    ensures
        match (r, tlv_sequence(input@)) {
            (Ok(ts), Ok(tvs)) => views(ts@) == tvs,
            (Err(e), Err(ev)) => e == ev,
            _ => false,
        },
{
    let mut out: Vec<RphyTlv<'a>> = Vec::new();
    let mut rest: &'a [u8] = input;
    let mut at_start = true;
    while rest.len() > 0
        invariant
            match read_sequence(rest@, at_start) {
                Ok(done) => tlv_sequence(input@) == Ok::<Seq<TlvView>, TlvError>(views(out@) + done),
                Err(e) => tlv_sequence(input@) == Err::<Seq<TlvView>, TlvError>(e),
            },
        decreases rest@.len(),
    {
        if !at_start && rest.len() < 3 {
            return Err(TlvError::TrailingGarbage);
        }
        match parse_tlvs(rest) {
            Err(e) => {
                return Err(e);
            },
            Ok((t, next)) => {
                let ghost old_out = out@;
                out.push(t);
                rest = next;
                at_start = false;
                proof {
                    assert(views(out@) =~= views(old_out) + seq![t@]);
                    match read_sequence(rest@, at_start) {
                        Ok(done) => {
                            assert(views(old_out) + seq![t@] + done =~= views(old_out) + seq![t@].add(done));
                        },
                        Err(e) => {},
                    }
                }
            },
        }
    }
    assert(views(out@) + Seq::<TlvView>::empty() =~= views(out@));
    Ok(out)
}

} // verus!
