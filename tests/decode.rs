use rphy_decode::bits::to_bitflags;
use rphy_decode::date::to_date_rfc2578;
use rphy_decode::gcp::{decode_segment, header, message_decoder, MessageId, ReturnCode, Status};
use rphy_decode::primitives::{to_u16, to_u32, to_u64};
use rphy_decode::rcp::{parse_rcp, parse_rphy_tlvs, render_tlvs, Operation, RcpMessageType};
use rphy_decode::registry::Ctx;
use rphy_decode::render::ErrorKind;
use rphy_decode::tlv::{parse_sequence, parse_tlvs, RphyTlv, TlvError};

fn encode(tlvs: &[RphyTlv]) -> Vec<u8> {
    let mut out = Vec::new();
    for t in tlvs {
        out.push(t.typ);
        out.push((t.len >> 8) as u8);
        out.push((t.len & 0xff) as u8);
        out.extend_from_slice(t.val);
    }
    out
}

#[test]
fn round_trip_reproduces_buffer() {
    let buf = [10u8, 0, 2, 0, 7, 5, 0, 0, 60, 0, 3, 1, 0, 0];
    let tlvs = parse_sequence(&buf).unwrap();
    assert_eq!(tlvs.len(), 3);
    assert_eq!(encode(&tlvs), buf.to_vec());
}

#[test]
fn short_buffer_is_truncated() {
    assert_eq!(parse_tlvs(&[1, 0, 5, 1, 2]).unwrap_err(), TlvError::TruncatedTlv);
    assert_eq!(parse_tlvs(&[1, 0]).unwrap_err(), TlvError::TruncatedTlv);
    assert_eq!(parse_sequence(&[1, 0, 9, 1]).unwrap_err(), TlvError::TruncatedTlv);
}

#[test]
fn leftover_bytes_are_trailing_garbage() {
    assert_eq!(parse_sequence(&[1, 0, 0, 7]).unwrap_err(), TlvError::TrailingGarbage);
    assert_eq!(parse_sequence(&[]).unwrap().len(), 0);
}

#[test]
fn zero_length_value_advances_three_bytes() {
    let (t, rest) = parse_tlvs(&[5, 0, 0, 9]).unwrap();
    assert_eq!(t.len, 0);
    assert!(t.val.is_empty());
    assert_eq!(rest, &[9u8][..]);
    let r = render_tlvs(Ctx::CcapCoreIdentification, &[5, 0, 0], 0);
    assert_eq!(r.lines, vec!["CoreName: (empty)".to_string()]);
    assert!(r.is_complete());
}

#[test]
fn unknown_code_keeps_siblings() {
    let r = render_tlvs(Ctx::Root, &[200, 0, 1, 0xAB, 10, 0, 2, 0, 7], 0);
    assert_eq!(
        r.lines,
        vec!["Unsupported type 200: ab".to_string(), "SequenceNumber: 7".to_string()]
    );
    assert!(r.error.is_none());
    assert!(r.unsupported);
    let nested = render_tlvs(Ctx::Root, &[60, 0, 4, 99, 0, 1, 5, 14, 0, 1, 3], 1);
    assert_eq!(
        nested.lines,
        vec![
            "  CcapCoreIdentification:".to_string(),
            "    Unsupported type 99: 05".to_string(),
            "  EnetPortIndex: 3".to_string(),
        ]
    );
}

#[test]
fn render_bit_reports_position() {
    assert_eq!(to_bitflags("X", 0b0000_0010, 1, 8), ".... ..1. = X: Set");
    assert_eq!(to_bitflags("X", 0b0000_0010, 0, 8), ".... ...0 = X: Not Set");
    assert_eq!(to_bitflags("X", 0b0000_0010, 1, 8), to_bitflags("X", 0b0000_0010, 1, 8));
    assert_eq!(
        to_bitflags("Principal", 1, 0, 16),
        ".... .... .... ...1 = Principal: Set"
    );
    assert_eq!(
        to_bitflags("freeRunning", 0x8000_0000, 31, 32),
        "1... .... .... .... .... .... .... .... = freeRunning: Set"
    );
}

#[test]
fn nested_truncated_value_is_reported() {
    let r = render_tlvs(Ctx::Root, &[0x3C, 0x00, 0x01, 0x01], 0);
    let e = r.error.unwrap();
    assert_eq!(e.kind, ErrorKind::TruncatedTlv);
    assert_eq!(e.path, vec![60u8]);
    assert_eq!(e.offset, 3);
    assert_eq!(r.lines, vec!["CcapCoreIdentification:".to_string()]);
    let body = parse_rphy_tlvs(&[9, 0, 4, 0x3C, 0x00, 0x01, 0x01], 0);
    let e = body.error.unwrap();
    assert_eq!(e.kind, ErrorKind::TruncatedTlv);
    assert_eq!(e.path, vec![9u8, 60]);
    assert_eq!(e.offset, 6);
}

#[test]
fn binary_date_renders() {
    let val = [0x07, 0xE5, 0x01, 0x0F, 0x0C, 0x1E, 0x00, 0x00, 0x2B, 0x00, 0x00];
    let t = RphyTlv { typ: 1, len: 11, val: &val };
    assert_eq!(to_date_rfc2578(&t), "2021-1-15,12:30:0.0,+0:0");
}

#[test]
fn text_and_odd_dates_render() {
    let text = *b"20210115";
    let t = RphyTlv { typ: 1, len: 8, val: &text };
    assert_eq!(to_date_rfc2578(&t), "20210115");
    let padded = [b'A', b'B', 0, 0, 0, 0, 0, 0];
    let t = RphyTlv { typ: 1, len: 8, val: &padded };
    assert_eq!(to_date_rfc2578(&t), "AB");
    let odd = [1u8, 2, 3];
    let t = RphyTlv { typ: 1, len: 3, val: &odd };
    assert_eq!(to_date_rfc2578(&t), "Unable to parse into date.");
}

#[test]
fn response_notify_consumes_fixed_fields() {
    let r = message_decoder(&[0x00, 0x01, 0x00, 0x00, 0x00, 0x00, 0x2A], MessageId(3));
    assert!(r.error.is_none());
    assert!(r.is_complete());
    assert_eq!(
        r.lines,
        vec![
            "    (3) Response Notify".to_string(),
            "      Transaction ID: 1".to_string(),
            "      Mode: 0x0".to_string(),
            "      Event Code: 0x2a".to_string(),
        ]
    );
}

#[test]
fn leftover_after_fixed_fields_is_an_error() {
    let r = message_decoder(&[0x00, 0x01, 0x00, 0x00, 0x00, 0x00, 0x2A, 0xFF], MessageId(3));
    let e = r.error.unwrap();
    assert_eq!(e.kind, ErrorKind::TrailingGarbage);
    assert_eq!(e.offset, 7);
    let short = message_decoder(&[0x00, 0x01, 0x00], MessageId(3));
    assert_eq!(short.error.unwrap().kind, ErrorKind::MalformedFixedField);
}

#[test]
fn unknown_message_id_is_unsupported() {
    let r = message_decoder(&[0, 1], MessageId(99));
    assert!(r.error.is_none());
    assert!(r.unsupported);
    assert_eq!(r.lines, vec!["    Unsupported GCP message Type".to_string()]);
    assert_eq!(MessageId(99).label(), "MessageID(99)");
    assert_eq!(MessageId(3).label(), "(3) ResponseNotify");
}

#[test]
fn return_codes_and_status_have_ranges() {
    assert_eq!(ReturnCode(0).label(), "0 MESSAGE SUCCESSFUL");
    assert_eq!(ReturnCode(13).label(), "Reserved");
    assert_eq!(ReturnCode(127).label(), "Reserved");
    assert_eq!(ReturnCode(128).label(), "128-254 User Defined Codes");
    assert_eq!(ReturnCode(254).label(), "128-254 User Defined Codes");
    assert_eq!(ReturnCode(255).label(), "255 SLAVE DEVICE FAILURE");
    assert_eq!(Status(1).label(), "1 - hardReset");
    assert_eq!(Status(9).label(), "Reserved");
    assert_eq!(Operation(2).label(), "(2) Write");
    assert_eq!(Operation(42).label(), "Operation(42)");
}

#[test]
fn integers_are_big_endian() {
    assert_eq!(to_u16(&[0x12, 0x34, 0xFF]), 0x1234);
    assert_eq!(to_u32(&[0x12, 0x34, 0x56, 0x78]), 0x1234_5678);
    assert_eq!(to_u64(&[1, 2, 3, 4, 5, 6, 7, 8]), 0x0102_0304_0506_0708);
}

#[test]
fn header_reads_ten_bytes() {
    let bytes = [0, 1, 0, 0, 0, 9, 0xFF, 3, 0, 7, 0xAA];
    let (h, rest) = header(&bytes).unwrap();
    assert_eq!(h.transaction_identifier, 1);
    assert_eq!(h.length, 9);
    assert_eq!(h.unit_identifier, 0xFF);
    assert_eq!(h.message_id, MessageId(3));
    assert_eq!(h.message_length, 7);
    assert_eq!(rest, &[0xAAu8][..]);
    assert_eq!(header(&bytes[..9]).unwrap_err(), ErrorKind::MalformedFixedField);
}

#[test]
fn whole_segment_decodes() {
    let mut seg = vec![0, 1, 0, 0, 0, 11, 0, 2, 0, 5];
    // Request Notify: transaction id, mode, status, event code
    seg.extend_from_slice(&[0, 7, 0x80, 1, 0, 0, 0, 1]);
    // RCP NTF message with one sequence holding a sequence number
    seg.extend_from_slice(&[3, 0, 8, 9, 0, 5, 10, 0, 2, 0, 4]);
    let r = decode_segment(&seg);
    assert!(r.is_complete(), "{:?}", r);
    assert_eq!(
        r.lines,
        vec![
            "  GCP Header: Transaction ID 1, Protocol ID 0, Length 11, Unit ID 0, Message (2) RequestNotify, Message Length 5".to_string(),
            "    (2) Request Notify".to_string(),
            "      Transaction ID: 7".to_string(),
            "      Mode: 0x80 (bit 7=1 : Suppress Normal response, bit 6=0 : Event data is text)".to_string(),
            "      Status: 1 - hardReset".to_string(),
            "      Event Code: 0x1".to_string(),
            "      NTF: Notification".to_string(),
            "        Sequence:".to_string(),
            "          SequenceNumber: 4".to_string(),
        ]
    );
}

#[test]
fn unknown_rcp_type_does_not_descend() {
    let r = parse_rcp(&[7, 0, 0, 1, 2, 3], 0);
    assert_eq!(r.lines, vec!["Unsupported RCP Message Type".to_string()]);
    assert!(r.unsupported);
    assert!(r.error.is_none());
    assert!(!RcpMessageType(7).is_known());
    assert!(RcpMessageType(2).is_known());
}

#[test]
fn short_fixed_value_is_malformed() {
    let r = render_tlvs(Ctx::Root, &[10, 0, 1, 7], 0);
    let e = r.error.unwrap();
    assert_eq!(e.kind, ErrorKind::MalformedFixedField);
    assert_eq!(e.path, vec![10u8]);
    assert_eq!(e.offset, 0);
    let later = render_tlvs(Ctx::Root, &[14, 0, 1, 2, 10, 0, 1, 7], 0);
    assert_eq!(later.error.unwrap().offset, 4);
    assert_eq!(later.lines, vec!["EnetPortIndex: 2".to_string()]);
}

#[test]
fn addresses_and_hex_render() {
    let r = render_tlvs(
        Ctx::CcapCoreIdentification,
        &[2, 0, 2, 0xAB, 0x01, 3, 0, 4, 10, 0, 0, 1, 3, 0, 3, 1, 2, 3],
        0,
    );
    assert_eq!(
        r.lines,
        vec![
            "CoreId: ab01".to_string(),
            "CoreIPAddress: 10.0.0.1".to_string(),
            "CoreIPAddress: malformed IP address".to_string(),
        ]
    );
    let mut v6 = vec![3u8, 0, 16];
    v6.extend_from_slice(&[0x20, 0x01, 0x0d, 0xb8, 0, 0, 0, 0, 0, 0, 0, 0, 0, 0, 0, 1]);
    let r = render_tlvs(Ctx::CcapCoreIdentification, &v6, 0);
    assert_eq!(r.lines, vec!["CoreIPAddress: 2001:db8:0:0:0:0:0:1".to_string()]);
}

#[test]
fn mac_address_renders() {
    let r = render_tlvs(
        Ctx::RpdCapabilitiesRpdIdentification,
        &[4, 0, 6, 0x00, 0x1A, 0x2B, 0x3C, 0x4D, 0x5E],
        0,
    );
    assert_eq!(r.lines, vec!["DeviceMacAddress: 00:1a:2b:3c:4d:5e".to_string()]);
    let bad = render_tlvs(Ctx::RpdCapabilitiesRpdIdentification, &[4, 0, 2, 1, 2], 0);
    assert_eq!(bad.lines, vec!["DeviceMacAddress: malformed MAC address".to_string()]);
}

#[test]
fn flags_field_renders_each_flag() {
    let r = render_tlvs(Ctx::CcapCoreIdentification, &[10, 0, 2, 0x00, 0x03], 0);
    assert_eq!(r.lines.len(), 9);
    assert_eq!(r.lines[0], "CoreFunction:");
    assert_eq!(r.lines[1], "  .... .... .... ...1 = Principal: Set");
    assert_eq!(r.lines[2], "  .... .... .... ..1. = DOCSIS: Set");
    assert_eq!(r.lines[3], "  .... .... .... .0.. = Broadcast Video: Not Set");
}

#[test]
fn named_values_render() {
    let r = render_tlvs(Ctx::Root, &[11, 0, 1, 2, 11, 0, 1, 77], 0);
    assert_eq!(
        r.lines,
        vec!["Operation: (2) Write".to_string(), "Operation: Operation(77)".to_string()]
    );
}

#[test]
fn known_rcp_type_descends_into_sequences() {
    let r = parse_rcp(&[1, 0, 7, 9, 0, 4, 14, 0, 1, 2], 1);
    assert!(r.is_complete());
    assert_eq!(
        r.lines,
        vec![
            "  IRA: Identification and Resource Advertising".to_string(),
            "    Sequence:".to_string(),
            "      EnetPortIndex: 2".to_string(),
        ]
    );
    let short = parse_rcp(&[1, 0], 0);
    let e = short.error.unwrap();
    assert_eq!(e.kind, ErrorKind::MalformedFixedField);
    assert_eq!(e.offset, 0);
    assert!(short.lines.is_empty());
}

#[test]
fn empty_container_renders_marker() {
    let r = parse_rphy_tlvs(&[9, 0, 3, 50, 0, 0], 0);
    assert!(r.is_complete());
    assert_eq!(
        r.lines,
        vec!["Sequence:".to_string(), "  RpdCapabilities: (empty)".to_string()]
    );
}

#[test]
fn eight_byte_dates_decode_as_utf8() {
    let accented = [0xC3, 0xA9, 0, 0, 0, 0, 0, 0];
    let t = RphyTlv { typ: 1, len: 8, val: &accented };
    assert_eq!(to_date_rfc2578(&t), "\u{e9}");
    let invalid = [0xFF, 0x30, 0, 0, 0, 0, 0, 0];
    let t = RphyTlv { typ: 1, len: 8, val: &invalid };
    assert_eq!(to_date_rfc2578(&t), "Unable to parse into date.");
}

#[test]
fn text_fields_decode_as_utf8() {
    let r = render_tlvs(Ctx::CcapCoreIdentification, &[5, 0, 4, 0xC3, 0xA9, b'x', 0], 0);
    assert_eq!(r.lines, vec!["CoreName: \u{e9}x".to_string()]);
    let bad = render_tlvs(Ctx::CcapCoreIdentification, &[5, 0, 2, 0xC3, 0x28, 1, 0, 1, 1], 0);
    assert!(bad.error.is_none());
    assert_eq!(
        bad.lines,
        vec!["CoreName: invalid UTF-8 text".to_string(), "Index: 1".to_string()]
    );
}

#[test]
fn transaction_id_is_read_before_dispatch() {
    let r = message_decoder(&[7], MessageId(99));
    let e = r.error.unwrap();
    assert_eq!(e.kind, ErrorKind::MalformedFixedField);
    assert_eq!(e.offset, 0);
    assert!(!r.unsupported);
    assert!(r.lines.is_empty());
    let known = message_decoder(&[], MessageId(16));
    assert_eq!(known.error.unwrap().kind, ErrorKind::MalformedFixedField);
}

#[test]
fn removing_unknown_record_removes_only_its_line() {
    let with = parse_rphy_tlvs(&[9, 0, 14, 14, 0, 1, 3, 200, 0, 2, 1, 2, 10, 0, 2, 0, 9], 0);
    let without = parse_rphy_tlvs(&[9, 0, 9, 14, 0, 1, 3, 10, 0, 2, 0, 9], 0);
    assert!(with.error.is_none() && without.error.is_none());
    let mut expected = without.lines.clone();
    expected.insert(2, "  Unsupported type 200: 0102".to_string());
    assert_eq!(with.lines, expected);
}
