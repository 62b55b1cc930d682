use vstd::prelude::*;

use crate::primitives::{be_value, decimal, push_decimal, to_u16};
use crate::text::{push_str, push_utf8_text, string_of, utf8_text};
use crate::tlv::RphyTlv;

verus! {

/// An eleven-byte date: `year-month-day,hour:minute:second.decisecond,` then the
/// direction from UTC as a character and the offset `hours:minutes`.
pub open spec fn binary_date_text(v: Seq<u8>) -> Seq<char> {
    decimal(be_value(v.subrange(0, 2))) + seq!['-'] + decimal(v[2] as nat) + seq!['-']
        + decimal(v[3] as nat) + seq![','] + decimal(v[4] as nat) + seq![':']
        + decimal(v[5] as nat) + seq![':'] + decimal(v[6] as nat) + seq!['.']
        + decimal(v[7] as nat) + seq![',', v[8] as char] + decimal(v[9] as nat) + seq![':']
        + decimal(v[10] as nat)
}

/// The text of a date value: eight bytes are NUL-padded UTF-8 text, eleven are
/// the binary encoding; any other length, and eight bytes that are not UTF-8,
/// give a fixed marker.
pub open spec fn date_text(v: Seq<u8>) -> Seq<char> {
    if v.len() == 8 && utf8_text(v) is Some {
        utf8_text(v)->Some_0
    } else if v.len() == 11 {
        binary_date_text(v)
    } else {
        "Unable to parse into date."@
    }
}

fn push_number_then(out: &mut Vec<char>, n: u64, c: char)
    ensures
        final(out)@ == old(out)@ + decimal(n as nat) + seq![c],
{
    push_decimal(out, n);
    out.push(c);
}

/// The calendar day part of a binary date, with the separator after it.
spec fn day_part(v: Seq<u8>) -> Seq<char> {
    decimal(be_value(v.subrange(0, 2))) + seq!['-'] + decimal(v[2] as nat) + seq!['-']
        + decimal(v[3] as nat) + seq![',']
}

/// The time of day part of a binary date, with the separator after it.
spec fn time_part(v: Seq<u8>) -> Seq<char> {
    decimal(v[4] as nat) + seq![':'] + decimal(v[5] as nat) + seq![':'] + decimal(v[6] as nat)
        + seq!['.'] + decimal(v[7] as nat) + seq![',']
}

/// The offset from UTC part of a binary date.
spec fn zone_part(v: Seq<u8>) -> Seq<char> {
    seq![v[8] as char] + decimal(v[9] as nat) + seq![':'] + decimal(v[10] as nat)
}

fn push_day_part(out: &mut Vec<char>, v: &[u8])
    requires
        v@.len() == 11,
    ensures
        final(out)@ == old(out)@ + day_part(v@),
{
    let year = to_u16(v);
    push_number_then(out, year as u64, '-');
    push_number_then(out, v[2] as u64, '-');
    push_number_then(out, v[3] as u64, ',');
    assert(final(out)@ =~= old(out)@ + day_part(v@));
}

fn push_time_part(out: &mut Vec<char>, v: &[u8])
    requires
        v@.len() == 11,
    ensures
        final(out)@ == old(out)@ + time_part(v@),
{
    push_number_then(out, v[4] as u64, ':');
    push_number_then(out, v[5] as u64, ':');
    push_number_then(out, v[6] as u64, '.');
    push_number_then(out, v[7] as u64, ',');
    assert(final(out)@ =~= old(out)@ + time_part(v@));
}

fn push_zone_part(out: &mut Vec<char>, v: &[u8])
    requires
        v@.len() == 11,
    ensures
        final(out)@ == old(out)@ + zone_part(v@),
{
    out.push(v[8] as char);
    push_number_then(out, v[9] as u64, ':');
    push_decimal(out, v[10] as u64);
    assert(final(out)@ =~= old(out)@ + zone_part(v@));
}

fn push_binary_date(out: &mut Vec<char>, v: &[u8])
    requires
        v@.len() == 11,
    ensures
        final(out)@ == old(out)@ + binary_date_text(v@),
{
    push_day_part(out, v);
    push_time_part(out, v);
    push_zone_part(out, v);
    assert(binary_date_text(v@) =~= day_part(v@) + time_part(v@) + zone_part(v@));
    assert(final(out)@ =~= old(out)@ + binary_date_text(v@));
}

/// Appends the text of a date value.
pub fn push_date(out: &mut Vec<char>, v: &[u8])
    ensures
        final(out)@ == old(out)@ + date_text(v@),
{
    if v.len() == 8 {
        if !push_utf8_text(out, v) {
            push_str(out, "Unable to parse into date.");
        }
    } else if v.len() == 11 {
        push_binary_date(out, v);
    } else {
        push_str(out, "Unable to parse into date.");
    }
}

/// The text of the date held by a record.
pub fn to_date_rfc2578(date_tlv: &RphyTlv) -> (r: String)
    ensures
        r@ == date_text(date_tlv.val@),
{
    let mut out: Vec<char> = Vec::new();
    push_date(&mut out, date_tlv.val);
    string_of(out.as_slice())
}

} // verus!
