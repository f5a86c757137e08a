use vstd::prelude::*;
use crate::crc::{crc16_x25, crc16_x25_of};
use crate::bytes::append_bytes;

verus! {

/// SE050 T=1 carries a single-byte LEN field, so an information field holds
/// at most this many bytes.
pub const MAX_IFSC: usize = 255;

/// NAD + PCB + LEN, up to `MAX_IFSC` information bytes, CRC-16.
pub const MAX_T1_FRAME_SIZE: usize = 260;

/// PCB bits shared by every S-block request.
pub const T1_S_REQUEST_CODE: u8 = 0xc0;
/// PCB bits shared by every S-block response.
pub const T1_S_RESPONSE_CODE: u8 = 0xe0;
/// Bits of the PCB that identify an R-block.
pub const T1_R_CODE_MASK: u8 = 0xec;
/// Value of those bits in an R-block.
pub const T1_R_CODE: u8 = 0x80;

/// A byte that does not encode a value of the expected kind.
#[derive(Debug, PartialEq, Eq, Structural)]
pub enum Iso7816Error {
    ValueError,
}

/// The control code of an S-block.
#[derive(Clone, Copy, Debug, PartialEq, Eq, Structural)]
pub enum T1SCode {
    Resync,
    IFS,
    Abort,
    WTX,
    EndApduSession,
    ChipReset,
    GetATR,
    InterfaceSoftReset,
}

impl T1SCode {
    pub open spec fn spec_code(self) -> u8 {
        match self {
            T1SCode::Resync => 0,
            T1SCode::IFS => 1,
            T1SCode::Abort => 2,
            T1SCode::WTX => 3,
            T1SCode::EndApduSession => 5,
            T1SCode::ChipReset => 6,
            T1SCode::GetATR => 7,
            T1SCode::InterfaceSoftReset => 15,
        }
    }

    pub open spec fn spec_from_code(c: u8) -> Option<T1SCode> {
        if c == 0 {
            Some(T1SCode::Resync)
        } else if c == 1 {
            Some(T1SCode::IFS)
        } else if c == 2 {
            Some(T1SCode::Abort)
        } else if c == 3 {
            Some(T1SCode::WTX)
        } else if c == 5 {
            Some(T1SCode::EndApduSession)
        } else if c == 6 {
            Some(T1SCode::ChipReset)
        } else if c == 7 {
            Some(T1SCode::GetATR)
        } else if c == 15 {
            Some(T1SCode::InterfaceSoftReset)
        } else {
            None
        }
    }

    /// The five-bit code of this control block.
    #[verifier::when_used_as_spec(spec_code)]
    pub fn code(self) -> (r: u8)
        ensures
            r == self.spec_code(),
    {
        match self {
            T1SCode::Resync => 0,
            T1SCode::IFS => 1,
            T1SCode::Abort => 2,
            T1SCode::WTX => 3,
            T1SCode::EndApduSession => 5,
            T1SCode::ChipReset => 6,
            T1SCode::GetATR => 7,
            T1SCode::InterfaceSoftReset => 15,
        }
    }

    /// The control code that `c` stands for, if any.
    pub fn try_from(c: u8) -> (r: Result<T1SCode, Iso7816Error>)
        ensures
            r matches Ok(s) ==> Self::spec_from_code(c) == Some(s),
            r is Err <==> Self::spec_from_code(c) is None,
    {
        if c == 0 {
            Ok(T1SCode::Resync)
        } else if c == 1 {
            Ok(T1SCode::IFS)
        } else if c == 2 {
            Ok(T1SCode::Abort)
        } else if c == 3 {
            Ok(T1SCode::WTX)
        } else if c == 5 {
            Ok(T1SCode::EndApduSession)
        } else if c == 6 {
            Ok(T1SCode::ChipReset)
        } else if c == 7 {
            Ok(T1SCode::GetATR)
        } else if c == 15 {
            Ok(T1SCode::InterfaceSoftReset)
        } else {
            Err(Iso7816Error::ValueError)
        }
    }
}

/// The protocol control byte of a block, decoded.
#[derive(Clone, Copy, Debug, PartialEq, Eq, Structural)]
pub enum T1PCB {
    /// Information block: send-sequence bit, more-data bit.
    I(u8, bool),
    /// Supervisory block: control code, response bit.
    S(T1SCode, bool),
    /// Receive-ready block: expected sequence bit, error code.
    R(u8, u8),
}

impl T1PCB {
    /// Every field fits the bits that carry it.
    pub open spec fn wf(self) -> bool {
        match self {
            T1PCB::I(seq, _) => seq < 2,
            T1PCB::S(_, _) => true,
            T1PCB::R(seq, err) => seq < 2 && err < 4,
        }
    }

    /// The byte that encodes this PCB on the wire.
    pub open spec fn spec_into(self) -> u8 {
        match self {
            T1PCB::I(seq, more) => (seq * 64 + if more { 32u8 } else { 0u8 }) as u8,
            T1PCB::R(seq, err) => (T1_R_CODE + seq * 16 + err) as u8,
            T1PCB::S(code, false) => (T1_S_REQUEST_CODE + code.spec_code()) as u8,
            T1PCB::S(code, true) => (T1_S_RESPONSE_CODE + code.spec_code()) as u8,
        }
    }

    /// The PCB that a byte encodes, if any.
    pub open spec fn spec_try_from(b: u8) -> Option<T1PCB> {
        if b & T1_R_CODE_MASK == T1_R_CODE {
            Some(T1PCB::R((b & 0x10) / 16, b & 0x03))
        } else if b & T1_S_REQUEST_CODE == T1_S_REQUEST_CODE {
            match T1SCode::spec_from_code(b & 0x1f) {
                Some(c) => Some(T1PCB::S(c, b & 0x20 != 0)),
                None => None,
            }
        } else if b & 0x9f == 0 {
            Some(T1PCB::I((b & 0x40) / 64, b & 0x20 != 0))
        } else {
            None
        }
    }

    /// Decodes a protocol control byte.
    pub fn try_from(val: u8) -> (r: Result<T1PCB, Iso7816Error>)
        ensures
            r matches Ok(p) ==> Self::spec_try_from(val) == Some(p),
            r is Err <==> Self::spec_try_from(val) is None,
    {
        if (val & T1_R_CODE_MASK) == T1_R_CODE {
            Ok(T1PCB::R((val & 0x10) / 16, val & 0x03))
        } else if (val & T1_S_REQUEST_CODE) == T1_S_REQUEST_CODE {
            let s_code = T1SCode::try_from(val & 0x1f)?;
            Ok(T1PCB::S(s_code, (val & 0x20) != 0))
        } else if (val & 0x9f) == 0 {
            Ok(T1PCB::I((val & 0x40) / 64, (val & 0x20) != 0))
        } else {
            Err(Iso7816Error::ValueError)
        }
    }

    /// Encodes this PCB as a byte.
    #[verifier::when_used_as_spec(spec_into)]
    pub fn into(self) -> (r: u8)
        requires
            self.wf(),
        ensures
            r == self.spec_into(),
    {
        match self {
            T1PCB::I(seq, more) => seq * 64 + if more { 32u8 } else { 0u8 },
            T1PCB::R(seq, err) => T1_R_CODE + seq * 16 + err,
            T1PCB::S(code, false) => T1_S_REQUEST_CODE + code.code(),
            T1PCB::S(code, true) => T1_S_RESPONSE_CODE + code.code(),
        }
    }
}

/// Decoding the encoding of a well-formed PCB gives it back, and a byte that
/// decodes at all is the encoding of what it decodes to.
pub proof fn lemma_pcb_round_trip(p: T1PCB, b: u8)
    requires
        p.wf(),
    ensures
        T1PCB::spec_try_from(p.spec_into()) == Some(p),
        T1PCB::spec_try_from(b) matches Some(q) ==> q.wf() && q.spec_into() == b,
{
    match p {
        T1PCB::I(seq, more) => {
            let m: u8 = if more { 32 } else { 0 };
            assert(seq < 2 && (m == 0 || m == 32) ==> {
                let x = (seq * 64 + m) as u8;
                &&& x & 0xec != 0x80
                &&& x & 0xc0 != 0xc0
                &&& x & 0x9f == 0
                &&& (x & 0x40) / 64 == seq
                &&& (x & 0x20 != 0) == (m == 32)
            }) by (bit_vector);
        },
        T1PCB::R(seq, err) => {
            assert(seq < 2 && err < 4 ==> {
                let x = (0x80 + seq * 16 + err) as u8;
                &&& x & 0xec == 0x80
                &&& (x & 0x10) / 16 == seq
                &&& x & 0x03 == err
            }) by (bit_vector);
        },
        T1PCB::S(code, resp) => {
            let c = code.spec_code();
            assert(c == 0 || c == 1 || c == 2 || c == 3 || c == 5 || c == 6 || c == 7 || c == 15);
            let base: u8 = if resp { 0xe0 } else { 0xc0 };
            assert((c < 32 && (base == 0xe0 || base == 0xc0)) ==> {
                let x = (base + c) as u8;
                &&& x & 0xc0 == 0xc0
                &&& x & 0x1f == c
                &&& (x & 0x20 != 0) == (base == 0xe0)
            }) by (bit_vector);
            assert((base == 0xe0 || base == 0xc0) && c < 32 ==> ((base + c) as u8) & 0xec != 0x80)
                by (bit_vector);
            assert(T1SCode::spec_from_code(c) == Some(code));
        },
    }
    match T1PCB::spec_try_from(b) {
        Some(q) => {
            if b & 0xec == 0x80 {
                assert(b & 0xec == 0x80 ==> (b & 0x10) / 16 < 2 && b & 0x03 < 4
                    && (0x80 + ((b & 0x10) / 16) * 16 + (b & 0x03)) as u8 == b) by (bit_vector);
            } else if b & 0xc0 == 0xc0 {
                let c = b & 0x1f;
                assert(T1SCode::spec_from_code(c) matches Some(s) && s.spec_code() == c);
                assert(b & 0xc0 == 0xc0 ==> (if b & 0x20 != 0 { (0xe0 + (b & 0x1f)) as u8 } else {
                    (0xc0 + (b & 0x1f)) as u8 }) == b) by (bit_vector);
            } else {
                assert(b & 0x9f == 0 ==> (b & 0x40) / 64 < 2 && (((b & 0x40) / 64) * 64
                    + if b & 0x20 != 0 { 32u8 } else { 0u8 }) as u8 == b) by (bit_vector);
            }
        },
        None => {},
    }
}

/// What can go wrong on the T=1 link.
#[derive(Clone, Copy, Debug, PartialEq, Eq, Structural)]
pub enum T1Error {
    TransmitError,
    ReceiveError,
    BufferOverrunError(usize),
    ChecksumError,
    ProtocolError,
    RCodeReceived(u8),
    TlvParseError,
}

/// The fixed part of a received block: NAD, PCB, LEN and the CRC trailer.
#[derive(Clone, Copy, Debug)]
pub struct T1Header {
    pub nad: u8,
    pub pcb: T1PCB,
    pub len: u8,
    pub crc: u16,
}

/// NAD, PCB and LEN followed by the information field: the bytes that the
/// checksum covers.
pub open spec fn frame_body(nad: u8, pcb: u8, inf: Seq<u8>) -> Seq<u8> {
    seq![nad, pcb, inf.len() as u8] + inf
}

/// A whole block on the wire: the body, then its CRC-16/X-25 little-endian.
pub open spec fn frame_bytes(nad: u8, pcb: u8, inf: Seq<u8>) -> Seq<u8> {
    let crc = crc16_x25_of(frame_body(nad, pcb, inf));
    frame_body(nad, pcb, inf) + seq![(crc % 256) as u8, (crc / 256) as u8]
}

/// The checksum that a frame carries in its last two bytes.
pub open spec fn frame_trailer(f: Seq<u8>) -> int {
    f[f.len() - 2] as int + 256 * f[f.len() - 1] as int
}

/// What a received frame decodes to: its NAD, PCB and information field, or
/// the error that the receiver reports.
pub open spec fn spec_decode_frame(f: Seq<u8>) -> Result<(u8, T1PCB, Seq<u8>), T1Error> {
    if f.len() < 5 || f.len() != f[2] as int + 5 {
        Err(T1Error::ProtocolError)
    } else if crc16_x25_of(f.subrange(0, f.len() - 2)) as int != frame_trailer(f) {
        Err(T1Error::ChecksumError)
    } else {
        match T1PCB::spec_try_from(f[1]) {
            None => Err(T1Error::ProtocolError),
            Some(p) => Ok((f[0], p, f.subrange(3, f.len() - 2))),
        }
    }
}

/// Frames an information field into a block addressed with `nad`.
pub fn encode_frame(nad: u8, pcb: T1PCB, inf: &[u8]) -> (r: Vec<u8>)
    requires
        pcb.wf(),
        inf@.len() <= MAX_IFSC,
    ensures
        r@ == frame_bytes(nad, pcb.spec_into(), inf@),
        r@.len() == inf@.len() + 5,
{
    let mut v: Vec<u8> = Vec::new();
    v.push(nad);
    v.push(pcb.into());
    v.push(inf.len() as u8);
    append_bytes(&mut v, inf);
    assert(v@ == frame_body(nad, pcb.spec_into(), inf@));
    let crc = crc16_x25(v.as_slice());
    v.push((crc % 256) as u8);
    v.push((crc / 256) as u8);
    v
}

/// Checks and splits a received block.
pub fn decode_frame<'a>(frame: &'a [u8]) -> (r: Result<(T1Header, &'a [u8]), T1Error>)
    ensures
        match (r, spec_decode_frame(frame@)) {
            (Ok((h, inf)), Ok((nad, pcb, data))) => {
                &&& h.nad == nad
                &&& h.pcb == pcb
                &&& inf@ == data
                &&& h.len as int == data.len()
                &&& h.crc as int == frame_trailer(frame@)
            },
            (Err(e), Err(e2)) => e == e2,
            _ => false,
        },
{
    let n = frame.len();
    if n < 5 || n != frame[2] as usize + 5 {
        return Err(T1Error::ProtocolError);
    }
    let body = vstd::slice::slice_subrange(frame, 0, n - 2);
    let crc = crc16_x25(body);
    let trailer: u16 = frame[n - 2] as u16 + 256 * frame[n - 1] as u16;
    if crc != trailer {
        return Err(T1Error::ChecksumError);
    }
    let pcb = match T1PCB::try_from(frame[1]) {
        Ok(p) => p,
        Err(_) => {
            return Err(T1Error::ProtocolError);
        },
    };
    let inf = vstd::slice::slice_subrange(frame, 3, n - 2);
    Ok((T1Header { nad: frame[0], pcb, len: frame[2], crc: trailer }, inf))
}

/// The trailer of every block that the encoder assembles is the checksum of
/// its header and information field.
pub proof fn lemma_frame_trailer(nad: u8, pcb: u8, inf: Seq<u8>)
    requires
        inf.len() <= MAX_IFSC,
    ensures
        ({
            let f = frame_bytes(nad, pcb, inf);
            &&& f.subrange(0, f.len() - 2) == frame_body(nad, pcb, inf)
            &&& frame_trailer(f) == crc16_x25_of(frame_body(nad, pcb, inf)) as int
        }),
{
    let f = frame_bytes(nad, pcb, inf);
    assert(f.subrange(0, f.len() - 2) =~= frame_body(nad, pcb, inf));
}

/// Decoding a block that the encoder assembled gives back its address, its
/// control byte and its information field.
pub proof fn lemma_frame_round_trip(nad: u8, pcb: T1PCB, inf: Seq<u8>)
    requires
        pcb.wf(),
        inf.len() <= MAX_IFSC,
    ensures
        spec_decode_frame(frame_bytes(nad, pcb.spec_into(), inf)) == Ok::<_, T1Error>((nad, pcb, inf)),
{
    let f = frame_bytes(nad, pcb.spec_into(), inf);
    lemma_frame_trailer(nad, pcb.spec_into(), inf);
    lemma_pcb_round_trip(pcb, 0);
    assert(f[2] == inf.len() as u8);
    assert(f.subrange(3, f.len() - 2) =~= inf);
}

} // verus!
