use se050::apdu::{parse_tlvs, RApdu, RawRApdu};
use se050::{crc16_x25, ApduClass, CApdu, SimpleTlv, T1Error};

fn collect(c: &CApdu) -> Vec<u8> {
    let mut it = c.byte_iter();
    let mut v: Vec<u8> = Vec::new();
    while let Some(b) = it.next() {
        v.push(b);
    }
    v
}

#[test]
fn tests_test_capdu2() {
    let data = [0, 1, 2, 3, 0, 1, 2, 3, 0, 1, 2, 3];
    let mut c = CApdu::new(ApduClass::ProprietaryPlain, 0x20, 0x40, 0x60, Some(0));
    let t1 = SimpleTlv::new(0x41, &data);
    c.push(t1);
    let v = collect(&c);
    // APDU header, Lc (1B), TLV (1B size), Le (1B)
    assert_eq!(v.len(), 4 + 1 + (1 + 1 + 12) + 1);
    assert_eq!(
        v.as_slice(),
        &[0x80, 0x20, 0x40, 0x60, 0x0e, 0x41, 0x0c, 0, 1, 2, 3, 0, 1, 2, 3, 0, 1, 2, 3, 0x00]
    );
}

#[test]
fn tests_test_crc16_ccitt() {
    assert_eq!(0x78a1, crc16_x25(&[0, 48, 95, 111, 242]));
}

#[test]
fn mod_test_capdu2() {
    let data = [0, 1, 2, 3, 0, 1, 2, 3, 0, 1, 2, 3];
    let mut c = CApdu::new(ApduClass::ProprietaryPlain, 0x20, 0x40, 0x60, Some(0));
    let t1 = SimpleTlv::new(0x41, &data);
    c.push(t1);
    let v = collect(&c);
    // APDU header, Lc (1B), TLV (1B size), Le (1B)
    assert_eq!(v.len(), 4 + 1 + (1 + 1 + 12) + 1);
    assert_eq!(
        v.as_slice(),
        &[0x80, 0x20, 0x40, 0x60, 0x0e, 0x41, 0x0c, 0, 1, 2, 3, 0, 1, 2, 3, 0, 1, 2, 3, 0x00]
    );
}

#[test]
fn mod_test_crc16_ccitt() {
    assert_eq!(0x78a1, crc16_x25(&[0, 48, 95, 111, 242]));
}

#[test]
fn crc_of_empty_input_is_x25_init_complement() {
    assert_eq!(crc16_x25(&[]), 0x0000);
    assert_ne!(crc16_x25(&[0x5a, 0xcf, 0x00]), crc16_x25(&[0x5a, 0xcf, 0x01]));
}

#[test]
fn to_vec_matches_byte_cursor() {
    let data = [9u8; 5];
    let mut c = CApdu::new(ApduClass::StandardPlain, 0xa4, 0x04, 0x00, None);
    c.push(SimpleTlv::new(0x42, &data));
    assert_eq!(c.to_vec(), collect(&c));
    assert_eq!(c.to_vec(), vec![0x00, 0xa4, 0x04, 0x00, 7, 0x42, 5, 9, 9, 9, 9, 9]);
}

#[test]
fn capdu_without_payload_or_le_is_header_only() {
    let c = CApdu::new(ApduClass::ProprietaryPlain, 0x84, 0x00, 0x1c, None);
    assert_eq!(collect(&c), vec![0x80, 0x84, 0x00, 0x1c]);
    let c = CApdu::new(ApduClass::ProprietaryPlain, 0x84, 0x00, 0x1c, Some(256));
    assert_eq!(collect(&c), vec![0x80, 0x84, 0x00, 0x1c, 0x00]);
}

#[test]
fn extended_capdu_stays_within_size_bound() {
    let data = [7u8; 300];
    let mut c = CApdu::new(ApduClass::ProprietaryPlain, 0x01, 0x02, 0x03, Some(0));
    c.push(SimpleTlv::new(0x43, &data));
    let v = collect(&c);
    assert_eq!(v.len(), 4 + 3 + (4 + 300) + 3);
    assert!(v.len() <= 4 + 3 + c.get_payload_len() + 3);
    assert_eq!(&v[..11], &[0x80, 0x01, 0x02, 0x03, 0x00, 0x01, 0x30, 0x43, 0x82, 0x01, 0x2c]);
    assert_eq!(&v[v.len() - 3..], &[0x00, 0x00, 0x00]);
}

#[test]
fn large_le_switches_to_extended_encoding() {
    let c = CApdu::new(ApduClass::ProprietaryPlain, 0x01, 0x02, 0x03, Some(0x1234));
    assert_eq!(collect(&c), vec![0x80, 0x01, 0x02, 0x03, 0x00, 0x12, 0x34]);
}

#[test]
fn short_tlv_has_two_byte_header() {
    let data = [1u8; 127];
    let t = SimpleTlv::new(0x41, &data);
    assert_eq!(t.get_header().as_slice(), &[0x41, 127]);
    assert_eq!(t.total_len(), 129);
    assert_eq!(t.get_data(), &data[..]);
}

#[test]
fn long_tlv_has_four_byte_header_and_round_trips() {
    let data = [2u8; 128];
    let t = SimpleTlv::new(0x42, &data);
    assert_eq!(t.get_header().as_slice(), &[0x42, 0x82, 0x00, 0x80]);
    assert_eq!(t.total_len(), 132);
    let mut wire = t.get_header().to_vec();
    wire.extend_from_slice(&data);
    let parsed = parse_tlvs(&wire).unwrap();
    assert_eq!(parsed.len(), 1);
    assert_eq!(parsed[0].tag(), 0x42);
    assert_eq!(parsed[0].get_data(), &data[..]);
}

#[test]
fn tlv_list_parses_in_order() {
    let wire = [0x41, 2, 0xaa, 0xbb, 0x42, 0, 0x41, 1, 0xcc];
    let parsed = parse_tlvs(&wire).unwrap();
    assert_eq!(parsed.len(), 3);
    assert_eq!(parsed[0].get_data(), &[0xaa, 0xbb]);
    assert_eq!(parsed[1].tag(), 0x42);
    assert_eq!(parsed[2].get_data(), &[0xcc]);
}

#[test]
fn malformed_tlv_is_rejected() {
    assert_eq!(parse_tlvs(&[0x41, 3, 1, 2]).err(), Some(T1Error::TlvParseError));
    assert_eq!(parse_tlvs(&[0x41, 0x81, 1, 2]).err(), Some(T1Error::TlvParseError));
    let nine = [0x41u8, 0, 0x41, 0, 0x41, 0, 0x41, 0, 0x41, 0, 0x41, 0, 0x41, 0, 0x41, 0, 0x41, 0];
    assert_eq!(parse_tlvs(&nine).err(), Some(T1Error::TlvParseError));
    assert_eq!(parse_tlvs(&nine[..16]).unwrap().len(), 8);
}

#[test]
fn response_apdu_splits_tlvs_and_status() {
    let resp = [0x41, 2, 0x10, 0x20, 0x42, 1, 0x30, 0x90, 0x00];
    let r = RApdu::parse(&resp).unwrap();
    assert_eq!(r.sw, 0x9000);
    assert_eq!(r.tlvs.len(), 2);
    assert_eq!(r.get_tlv(0x42).unwrap().get_data(), &[0x30]);
    assert!(r.get_tlv(0x43).is_none());
    let raw = RawRApdu::from_response(&resp).unwrap();
    assert_eq!(raw.data, &resp[..7]);
    assert_eq!(raw.sw, 0x9000);
    assert_eq!(RApdu::parse(&[0x90]).err(), Some(T1Error::ProtocolError));
    assert_eq!(RApdu::parse(&[0x41, 5, 0x90, 0x00]).err(), Some(T1Error::TlvParseError));
}

#[test]
fn capdu_bytes_parse_back_to_fields() {
    let a = [0xaeu8, 0x50, 0xae, 0x50];
    let b = [0x0du8];
    let c_data = [0x33u8; 200];
    let mut c = CApdu::new(ApduClass::ProprietaryPlain, 0x03, 0x0e, 0x37, Some(0));
    c.push(SimpleTlv::new(0x41, &a));
    c.push(SimpleTlv::new(0x42, &b));
    c.push(SimpleTlv::new(0x43, &c_data));
    let bytes = c.to_vec();
    let p = se050::apdu::parse_capdu(&bytes).unwrap();
    assert_eq!((p.cla, p.ins, p.p1, p.p2), (0x80, 0x03, 0x0e, 0x37));
    assert_eq!(p.tlvs.len(), 3);
    assert_eq!(p.tlvs[0].get_data(), &a);
    assert_eq!(p.tlvs[1].tag(), 0x42);
    assert_eq!(p.tlvs[2].get_data(), &c_data[..]);
    // 6 + 3 + 204 = 213 bytes of payload fit the short form; Le 0 means 256
    assert_eq!(p.le, Some(256));
}

#[test]
fn extended_capdu_parses_back() {
    let d = [1u8; 400];
    let mut c = CApdu::new(ApduClass::StandardPlain, 0xd6, 0x00, 0x00, Some(0));
    c.push(SimpleTlv::new(0x41, &d));
    let bytes = c.to_vec();
    let p = se050::apdu::parse_capdu(&bytes).unwrap();
    assert_eq!(p.tlvs[0].get_data(), &d[..]);
    assert_eq!(p.le, Some(65536));
    assert!(se050::apdu::parse_capdu(&bytes[..bytes.len() - 1]).is_none());
    assert!(se050::apdu::parse_capdu(&[0x80, 0x01]).is_none());
    let header_only = se050::apdu::parse_capdu(&[0x80, 0x01, 0x02, 0x03]).unwrap();
    assert!(header_only.tlvs.is_empty() && header_only.le.is_none());
}
