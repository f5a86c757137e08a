use se050::block::{decode_frame, encode_frame};
use se050::{T1Error, T1PCB, T1SCode, T1State, T1Step};

const ATR_PAYLOAD: [u8; 35] = [
    0x00, 0xA0, 0x00, 0x00, 0x03, 0x96, 0x04, 0x03, 0xE8, 0x00, 0xFE, 0x02, 0x0B, 0x03, 0xE8,
    0x08, 0x01, 0x00, 0x00, 0x00, 0x00, 0x64, 0x00, 0x00, 0x0A, 0x4A, 0x43, 0x4F, 0x50, 0x34,
    0x20, 0x41, 0x54, 0x50, 0x4F,
];

fn soft_reset_answer() -> Vec<u8> {
    let mut frame = vec![0xa5, 0xef, 0x23];
    frame.extend_from_slice(&ATR_PAYLOAD);
    frame.extend_from_slice(&[0x87, 0x77]);
    frame
}

fn card_block(pcb: T1PCB, inf: &[u8]) -> Vec<u8> {
    encode_frame(0xa5, pcb, inf)
}

#[test]
fn test_soft_reset() {
    let mut t1 = T1State::new(0x5a);
    assert_eq!(t1.soft_reset_request(), vec![0x5a, 0xcf, 0x00, 0x37, 0x7f]);
    let answer = soft_reset_answer();
    let atr = t1.on_soft_reset_response(&answer);
    assert!(atr.as_ref().map_err(|e| println!("ATR Fail: {:?}", e)).is_ok());
    let atr = atr.unwrap();
    assert_eq!(atr.dllp.ifsc, 254);
}

#[test]
fn soft_reset_yields_full_atr_and_resets_link() {
    let mut t1 = T1State::new(0x5a);
    t1.iseq = 1;
    t1.cseq = 1;
    t1.ifsc = 8;
    let atr = t1.on_soft_reset_response(&soft_reset_answer()).unwrap();
    assert_eq!(atr.protocol_version, 0);
    assert_eq!(atr.vendor_id, [0xa0, 0x00, 0x00, 0x03, 0x96]);
    assert_eq!(atr.dllp.bwt_ms, 1000);
    match atr.plp {
        se050::PhysicalLayerParameters::I2C(p) => {
            assert_eq!(p.mcf, 1000);
            assert_eq!(p.configuration, 0x08);
            assert_eq!(p.mpot_ms, 1);
            assert_eq!(p.segt_us, 100);
            assert_eq!(p.wut_us, 0);
        }
    }
    assert_eq!(&atr.historical_bytes[..10], b"JCOP4 ATPO");
    assert_eq!(&atr.historical_bytes[10..], &[0u8; 5]);
    assert_eq!((t1.iseq, t1.cseq, t1.ifsc, t1.bwt_ms), (0, 0, 254, 1000));
}

#[test]
fn soft_reset_rejects_bad_crc_and_bad_layout() {
    let mut t1 = T1State::new(0x5a);
    let mut bad_crc = soft_reset_answer();
    let n = bad_crc.len();
    bad_crc[n - 1] ^= 0x01;
    assert_eq!(t1.on_soft_reset_response(&bad_crc).err(), Some(T1Error::ChecksumError));
    let mut payload = ATR_PAYLOAD.to_vec();
    payload[6] = 5;
    let frame = card_block(T1PCB::S(T1SCode::InterfaceSoftReset, true), &payload);
    assert_eq!(t1.on_soft_reset_response(&frame).err(), Some(T1Error::ProtocolError));
    let frame = card_block(T1PCB::S(T1SCode::Resync, true), &ATR_PAYLOAD);
    assert_eq!(t1.on_soft_reset_response(&frame).err(), Some(T1Error::ProtocolError));
    assert_eq!(t1.ifsc, 254);
}

#[test]
fn pcb_bytes_round_trip() {
    assert_eq!(T1PCB::I(0, true).into(), 0x20);
    assert_eq!(T1PCB::I(1, false).into(), 0x40);
    assert_eq!(T1PCB::R(1, 0).into(), 0x90);
    assert_eq!(T1PCB::R(0, 2).into(), 0x82);
    assert_eq!(T1PCB::S(T1SCode::WTX, false).into(), 0xc3);
    assert_eq!(T1PCB::S(T1SCode::InterfaceSoftReset, true).into(), 0xef);
    for b in 0..=255u8 {
        if let Ok(p) = T1PCB::try_from(b) {
            assert_eq!(p.into(), b);
        }
    }
    assert!(T1PCB::try_from(0xc4).is_err());
    assert!(T1PCB::try_from(0x01).is_err());
}

#[test]
fn frame_round_trip_and_trailer() {
    let inf: Vec<u8> = (0..255u16).map(|i| i as u8).collect();
    let f = encode_frame(0x5a, T1PCB::I(1, true), &inf);
    assert_eq!(f.len(), 260);
    let crc = se050::crc16_x25(&f[..258]);
    assert_eq!(f[258], (crc & 0xff) as u8);
    assert_eq!(f[259], (crc >> 8) as u8);
    let (h, body) = decode_frame(&f).unwrap();
    assert_eq!((h.nad, h.pcb, h.len as usize), (0x5a, T1PCB::I(1, true), 255));
    assert_eq!(body, &inf[..]);
    assert_eq!(decode_frame(&f[..4]).err(), Some(T1Error::ProtocolError));
    assert_eq!(decode_frame(&f[..259]).err(), Some(T1Error::ProtocolError));
}

#[test]
fn chaining_splits_into_ifsc_sized_blocks() {
    let mut t1 = T1State::new(0x5a);
    t1.ifsc = 8;
    let apdu: Vec<u8> = (1..=20u8).collect();
    let mut off = 0usize;
    let mut blocks = Vec::new();
    loop {
        let (frame, end) = t1.i_block(&apdu, off);
        let (h, inf) = decode_frame(&frame).unwrap();
        blocks.push((inf.len(), h.pcb));
        assert_eq!(inf, &apdu[off..end]);
        off = end;
        if end == apdu.len() {
            t1.on_last_chunk_written();
            break;
        }
        let ack = card_block(T1PCB::R(1 - t1.iseq, 0), &[]);
        assert!(matches!(t1.on_chunk_reply(&ack), T1Step::Acked));
    }
    assert_eq!(
        blocks,
        vec![(8, T1PCB::I(0, true)), (8, T1PCB::I(1, true)), (4, T1PCB::I(0, false))]
    );
    assert!(t1.pending_ack);
}

#[test]
fn sequence_bit_counts_acknowledged_blocks() {
    let mut t1 = T1State::new(0x5a);
    t1.ifsc = 1;
    let apdu = [1u8, 2, 3, 4, 5, 6];
    for n in 0..5usize {
        assert_eq!(t1.iseq as usize, n % 2);
        let (_, end) = t1.i_block(&apdu, n);
        assert_eq!(end, n + 1);
        let ack = card_block(T1PCB::R(1 - t1.iseq, 0), &[]);
        assert!(matches!(t1.on_chunk_reply(&ack), T1Step::Acked));
    }
    assert_eq!(t1.iseq, 1);
}

#[test]
fn wtx_request_is_echoed_and_stretches_next_read_only() {
    let mut t1 = T1State::new(0x5a);
    t1.on_soft_reset_response(&soft_reset_answer()).unwrap();
    t1.on_last_chunk_written();
    let mut buf = [0u8; 32];
    let wtx = card_block(T1PCB::S(T1SCode::WTX, false), &[0x02]);
    match t1.on_response_block(&wtx, &mut buf, 0) {
        T1Step::Send(v) => assert_eq!(v, encode_frame(0x5a, T1PCB::S(T1SCode::WTX, true), &[0x02])),
        other => panic!("unexpected {:?}", other),
    }
    assert_eq!((t1.iseq, t1.cseq), (0, 0));
    assert!(t1.pending_ack);
    assert_eq!(t1.next_read_timeout_ms(), 2000);
    assert_eq!(t1.next_read_timeout_ms(), 1000);
    let resp = card_block(T1PCB::I(0, false), &[0x90, 0x00]);
    assert!(matches!(t1.on_response_block(&resp, &mut buf, 0), T1Step::Complete(2)));
    assert_eq!((t1.iseq, t1.cseq), (1, 1));
    assert!(!t1.pending_ack);
}

#[test]
fn chained_response_is_acknowledged_and_reassembled() {
    let mut t1 = T1State::new(0x5a);
    t1.on_last_chunk_written();
    let mut buf = [0u8; 16];
    let first = card_block(T1PCB::I(0, true), &[1, 2, 3]);
    match t1.on_response_block(&first, &mut buf, 0) {
        T1Step::Chained(n, ack) => {
            assert_eq!(n, 3);
            assert_eq!(ack, encode_frame(0x5a, T1PCB::R(1, 0), &[]));
        }
        other => panic!("unexpected {:?}", other),
    }
    let last = card_block(T1PCB::I(1, false), &[4, 0x90, 0x00]);
    assert!(matches!(t1.on_response_block(&last, &mut buf, 3), T1Step::Complete(6)));
    assert_eq!(&buf[..6], &[1, 2, 3, 4, 0x90, 0x00]);
    assert_eq!(&buf[6..], &[0u8; 10]);
}

#[test]
fn response_overflow_reports_missing_bytes() {
    let mut t1 = T1State::new(0x5a);
    let mut buf = [0xeeu8; 4];
    let block = card_block(T1PCB::I(0, false), &[1, 2, 3, 4, 5, 6]);
    match t1.on_response_block(&block, &mut buf, 1) {
        T1Step::Fail(e) => assert_eq!(e, T1Error::BufferOverrunError(3)),
        other => panic!("unexpected {:?}", other),
    }
    assert_eq!(buf, [0xee; 4]);
}

#[test]
fn bad_blocks_are_retried_then_fatal() {
    let mut t1 = T1State::new(0x5a);
    let mut buf = [0u8; 8];
    let mut bad = card_block(T1PCB::I(0, false), &[0x90, 0x00]);
    bad[3] ^= 0xff;
    for _ in 0..3 {
        match t1.on_response_block(&bad, &mut buf, 0) {
            T1Step::Send(v) => assert_eq!(v, encode_frame(0x5a, T1PCB::R(0, 1), &[])),
            other => panic!("unexpected {:?}", other),
        }
    }
    assert!(matches!(
        t1.on_response_block(&bad, &mut buf, 0),
        T1Step::Fail(T1Error::ChecksumError)
    ));
}

#[test]
fn card_error_r_block_asks_for_resend() {
    let mut t1 = T1State::new(0x5a);
    let nak = card_block(T1PCB::R(0, 1), &[]);
    for _ in 0..3 {
        assert!(matches!(t1.on_chunk_reply(&nak), T1Step::Resend));
    }
    assert!(matches!(t1.on_chunk_reply(&nak), T1Step::Fail(T1Error::RCodeReceived(1))));
    assert_eq!(t1.iseq, 0);
}

#[test]
fn ifs_request_updates_ifsc() {
    let mut t1 = T1State::new(0x5a);
    let ifs = card_block(T1PCB::S(T1SCode::IFS, false), &[0x20]);
    match t1.on_chunk_reply(&ifs) {
        T1Step::Send(v) => assert_eq!(v, encode_frame(0x5a, T1PCB::S(T1SCode::IFS, true), &[0x20])),
        other => panic!("unexpected {:?}", other),
    }
    assert_eq!(t1.ifsc, 0x20);
    let odd = card_block(T1PCB::S(T1SCode::Abort, false), &[]);
    assert!(matches!(t1.on_chunk_reply(&odd), T1Step::Fail(T1Error::ProtocolError)));
}

#[test]
fn card_resync_request_is_a_protocol_error() {
    let mut t1 = T1State::new(0x5a);
    let resync = card_block(T1PCB::S(T1SCode::Resync, false), &[]);
    assert!(matches!(t1.on_chunk_reply(&resync), T1Step::Fail(T1Error::ProtocolError)));
    let mut buf = [0u8; 4];
    assert!(matches!(t1.on_response_block(&resync, &mut buf, 0), T1Step::Fail(T1Error::ProtocolError)));
}

#[test]
fn host_resync_resets_sequence_counters() {
    let mut t1 = T1State::new(0x5a);
    let ack = card_block(T1PCB::R(1, 0), &[]);
    assert!(matches!(t1.on_chunk_reply(&ack), T1Step::Acked));
    assert_eq!(t1.iseq, 1);
    assert_eq!(t1.resync_request(), encode_frame(0x5a, T1PCB::S(T1SCode::Resync, false), &[]));
    let wrong = card_block(T1PCB::S(T1SCode::IFS, true), &[0x20]);
    assert_eq!(t1.on_resync_response(&wrong), Err(T1Error::ProtocolError));
    assert_eq!(t1.iseq, 1);
    let answer = card_block(T1PCB::S(T1SCode::Resync, true), &[]);
    assert_eq!(t1.on_resync_response(&answer), Ok(()));
    assert_eq!((t1.iseq, t1.cseq), (0, 0));
}

#[test]
fn read_timeouts_ask_again_three_times() {
    let mut t1 = T1State::new(0x5a);
    for _ in 0..3 {
        match t1.on_read_timeout() {
            T1Step::Send(v) => assert_eq!(v, encode_frame(0x5a, T1PCB::R(0, 2), &[])),
            other => panic!("unexpected {:?}", other),
        }
    }
    assert!(matches!(t1.on_read_timeout(), T1Step::Fail(T1Error::ReceiveError)));
}
