use vstd::prelude::*;

use eui48::MacAddress;
use hex_fmt::HexFmt;
use vstd::std_specs::iter::IteratorSpec;
use vstd::utf8::{decode_utf8, valid_utf8};

use crate::primitives::{be_value, decimal, hex_bytes, hex_text, push_decimal, push_hex};

verus! {

/// Appends the characters of `s`.
pub fn push_str(out: &mut Vec<char>, s: &str)
    ensures
        final(out)@ == old(out)@ + s@,
{
    broadcast use vstd::string::axiom_spec_iter, vstd::string::next_postcondition;

    let ghost start = out@;
    let mut it = s.chars();
    loop
        invariant
            start == old(out)@,
            out@ + it.remaining() == start + s@,
            it.obeys_prophetic_iter_laws(),
            it.decrease() is Some,
        ensures
            out@ == start + s@,
        decreases it.decrease()->0,
    {
        let ghost before = it.remaining();
        match it.next() {
            Some(c) => {
                let ghost prev = out@;
                out.push(c);
                assert(out@ + it.remaining() =~= prev + before);
            },
            None => {
                assert(out@ =~= start + s@);
                break;
            },
        }
    }
}

/// Relies on `String`'s `FromIterator<&char>`: the string of the characters of `v`.
#[verifier::external_body]
pub(crate) fn string_of(v: &[char]) -> (r: String)
    ensures
        r@ == v@,
{
    v.iter().collect()
}

/// Relies on `hex_fmt::HexFmt`'s `Display`: without a width or precision it
/// writes each byte as two lowercase hexadecimal digits.
#[verifier::external_body]
fn hex_fmt_text(b: &[u8]) -> (r: String)
    ensures
        r@ == hex_bytes(b@),
{
    format!("{}", HexFmt(b))
}

/// Appends two lowercase hexadecimal digits for each byte of `b`.
pub fn push_hex_bytes(out: &mut Vec<char>, b: &[u8])
    ensures
        final(out)@ == old(out)@ + hex_bytes(b@),
{
    let s = hex_fmt_text(b);
    push_str(out, s.as_str());
}

/// Six bytes written as lowercase hexadecimal pairs joined by colons.
pub open spec fn mac_text(b: Seq<u8>) -> Seq<char> {
    hex_bytes(b.subrange(0, 1)) + seq![':'] + hex_bytes(b.subrange(1, 2)) + seq![':']
        + hex_bytes(b.subrange(2, 3)) + seq![':'] + hex_bytes(b.subrange(3, 4)) + seq![':']
        + hex_bytes(b.subrange(4, 5)) + seq![':'] + hex_bytes(b.subrange(5, 6))
}

/// Relies on `eui48::MacAddress::from_bytes`, which refuses any length but six, and
/// `MacAddress::to_hex_string`, which writes `{:02x}` pairs joined by colons.
#[verifier::external_body]
fn mac_hex_string(b: &[u8]) -> (r: Option<String>)
    ensures
        r is Some <==> b@.len() == 6,
        r matches Some(s) ==> s@ == mac_text(b@),
{
    match MacAddress::from_bytes(b) {
        Ok(m) => Some(m.to_hex_string()),
        Err(_) => None,
    }
}

/// Appends the text of a MAC address; `false`, with nothing appended, unless `b` has six bytes.
pub fn push_mac(out: &mut Vec<char>, b: &[u8]) -> (ok: bool)
    ensures
        ok == (b@.len() == 6),
        ok ==> final(out)@ == old(out)@ + mac_text(b@),
        !ok ==> final(out)@ == old(out)@,
{
    match mac_hex_string(b) {
        Some(s) => {
            push_str(out, s.as_str());
            true
        },
        None => false,
    }
}

/// Four bytes in dotted decimal notation.
pub open spec fn ipv4_text(b: Seq<u8>) -> Seq<char> {
    decimal(b[0] as nat) + seq!['.'] + decimal(b[1] as nat) + seq!['.'] + decimal(b[2] as nat)
        + seq!['.'] + decimal(b[3] as nat)
}

/// The group of two bytes at `2 * k` in hexadecimal, without leading zeros.
pub open spec fn ipv6_group(b: Seq<u8>, k: int) -> Seq<char> {
    hex_text(be_value(b.subrange(2 * k, 2 * k + 2)))
}

/// The first `n` groups of an IPv6 address joined by colons.
pub open spec fn ipv6_groups(b: Seq<u8>, n: nat) -> Seq<char>
    decreases n,
{
    if n == 0 {
        Seq::empty()
    } else if n == 1 {
        ipv6_group(b, 0)
    } else {
        ipv6_groups(b, (n - 1) as nat) + seq![':'] + ipv6_group(b, n - 1)
    }
}

/// Sixteen bytes as eight colon-separated hexadecimal groups.
pub open spec fn ipv6_text(b: Seq<u8>) -> Seq<char> {
    ipv6_groups(b, 8)
}

/// The text of an address of four or sixteen bytes.
pub open spec fn ip_text(b: Seq<u8>) -> Seq<char> {
    if b.len() == 4 {
        ipv4_text(b)
    } else {
        ipv6_text(b)
    }
}

/// Appends the text of an IPv4 (four bytes) or IPv6 (sixteen bytes) address;
/// `false`, with nothing appended, for any other length.
pub fn push_ip(out: &mut Vec<char>, b: &[u8]) -> (ok: bool)
    ensures
        ok == (b@.len() == 4 || b@.len() == 16),
        ok ==> final(out)@ == old(out)@ + ip_text(b@),
        !ok ==> final(out)@ == old(out)@,
{
    if b.len() == 4 {
        let ghost start = out@;
        push_decimal(out, b[0] as u64);
        out.push('.');
        push_decimal(out, b[1] as u64);
        out.push('.');
        push_decimal(out, b[2] as u64);
        out.push('.');
        push_decimal(out, b[3] as u64);
        assert(out@ =~= start + ipv4_text(b@));
        true
    } else if b.len() == 16 {
        let ghost start = out@;
        let mut k: usize = 0;
        while k < 8
            invariant
                k <= 8,
                b@.len() == 16,
                out@ == start + ipv6_groups(b@, k as nat),
            decreases 8 - k,
        {
            if k > 0 {
                out.push(':');
            }
            let g = crate::primitives::to_u16(&b[2 * k..2 * k + 2]);
            proof {
                assert(b@.subrange(2 * k as int, 2 * k as int + 2).subrange(0, 2)
                    =~= b@.subrange(2 * k as int, 2 * k as int + 2));
            }
            push_hex(out, g as u64);
            k = k + 1;
            proof {
                if k == 1 {
                    assert(ipv6_groups(b@, 0) =~= Seq::<char>::empty());
                }
                assert(out@ =~= start + ipv6_groups(b@, k as nat));
            }
        }
        true
    } else {
        false
    }
}

/// `cs` without its trailing NUL characters.
pub open spec fn trim_nuls(cs: Seq<char>) -> Seq<char>
    decreases cs.len(),
{
    if cs.len() > 0 && cs.last() == '\0' {
        trim_nuls(cs.drop_last())
    } else {
        cs
    }
}

/// Bytes read as NUL-padded UTF-8 text; `None` where they are not valid UTF-8.
pub open spec fn utf8_text(b: Seq<u8>) -> Option<Seq<char>> {
    if valid_utf8(b) {
        Some(trim_nuls(decode_utf8(b)))
    } else {
        None
    }
}

/// Relies on `core::str::from_utf8`: `Ok` exactly when `b` is valid UTF-8, the
/// string then holding the characters that `b` encodes.
#[verifier::external_body]
fn utf8_str<'a>(b: &'a [u8]) -> (r: Option<&'a str>)
    ensures
        r is Some <==> valid_utf8(b@),
        r matches Some(s) ==> s@ == decode_utf8(b@),
{
    match core::str::from_utf8(b) {
        Ok(s) => Some(s),
        Err(_) => None,
    }
}

/// Appends `b` read as NUL-padded UTF-8 text; `false`, with nothing appended,
/// where it is not valid UTF-8.
pub fn push_utf8_text(out: &mut Vec<char>, b: &[u8]) -> (ok: bool)
    ensures
        ok == utf8_text(b@) is Some,
        ok ==> final(out)@ == old(out)@ + utf8_text(b@)->Some_0,
        !ok ==> final(out)@ == old(out)@,
{
    let s = match utf8_str(b) {
        Some(s) => s,
        None => return false,
    };
    let mut v: Vec<char> = Vec::new();
    push_str(&mut v, s);
    assert(v@ == decode_utf8(b@));
    while v.len() > 0 && v[v.len() - 1] == '\0'
        invariant
            trim_nuls(v@) == trim_nuls(decode_utf8(b@)),
        decreases v@.len(),
    {
        v.pop();
    }
    out.append(&mut v);
    true
}

} // verus!
