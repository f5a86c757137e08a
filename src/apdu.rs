use vstd::prelude::*;
use vstd::seq_lib::lemma_flatten_concat;
use crate::block::{Iso7816Error, T1Error};
use crate::bytes::{be16, field_bytes, field_new, field_push, field_slice};

verus! {

/// Upper bound on the number of TLV objects in one APDU.
pub const MAX_TLVS: usize = 8;

/// Largest payload that a two-byte length field can describe.
pub const MAX_TLV_DATA: usize = 65535;

#[allow(non_camel_case_types)]
#[derive(Clone, Copy, Debug, PartialEq, Eq, Structural)]
pub enum ApduClass {
    StandardPlain,
    ProprietaryPlain,
    ProprietarySecure,
}

impl ApduClass {
    pub open spec fn spec_value(self) -> u8 {
        match self {
            ApduClass::StandardPlain => 0b0000_0000,
            ApduClass::ProprietaryPlain => 0b1000_0000,
            ApduClass::ProprietarySecure => 0b1000_0100,
        }
    }

    /// The number that stands for this constant in a command.
    #[verifier::when_used_as_spec(spec_value)]
    pub fn value(self) -> (r: u8)
        ensures
            r == self.spec_value(),
    {
        match self {
            ApduClass::StandardPlain => 0b0000_0000,
            ApduClass::ProprietaryPlain => 0b1000_0000,
            ApduClass::ProprietarySecure => 0b1000_0100,
        }
    }
}

#[allow(non_camel_case_types)]
#[derive(Clone, Copy, Debug, PartialEq, Eq, Structural)]
pub enum ApduStandardInstruction {
    EraseBinary,
    Verify,
    ManageChannel,
    ExternalAuthenticate,
    GetChallenge,
    InternalAuthenticate,
    SelectFile,
    ReadBinary,
    ReadRecords,
    GetResponse,
    Envelope,
    GetData,
    WriteBinary,
    WriteRecord,
    UpdateBinary,
    PutData,
    UpdateData,
    AppendRecord,
}

impl ApduStandardInstruction {
    pub open spec fn spec_value(self) -> u8 {
        match self {
            ApduStandardInstruction::EraseBinary => 0x0e,
            ApduStandardInstruction::Verify => 0x20,
            ApduStandardInstruction::ManageChannel => 0x70,
            ApduStandardInstruction::ExternalAuthenticate => 0x82,
            ApduStandardInstruction::GetChallenge => 0x84,
            ApduStandardInstruction::InternalAuthenticate => 0x88,
            ApduStandardInstruction::SelectFile => 0xa4,
            ApduStandardInstruction::ReadBinary => 0xb0,
            ApduStandardInstruction::ReadRecords => 0xb2,
            ApduStandardInstruction::GetResponse => 0xc0,
            ApduStandardInstruction::Envelope => 0xc2,
            ApduStandardInstruction::GetData => 0xca,
            ApduStandardInstruction::WriteBinary => 0xd0,
            ApduStandardInstruction::WriteRecord => 0xd2,
            ApduStandardInstruction::UpdateBinary => 0xd6,
            ApduStandardInstruction::PutData => 0xda,
            ApduStandardInstruction::UpdateData => 0xdc,
            ApduStandardInstruction::AppendRecord => 0xe2,
        }
    }

    /// The number that stands for this constant in a command.
    #[verifier::when_used_as_spec(spec_value)]
    pub fn value(self) -> (r: u8)
        ensures
            r == self.spec_value(),
    {
        match self {
            ApduStandardInstruction::EraseBinary => 0x0e,
            ApduStandardInstruction::Verify => 0x20,
            ApduStandardInstruction::ManageChannel => 0x70,
            ApduStandardInstruction::ExternalAuthenticate => 0x82,
            ApduStandardInstruction::GetChallenge => 0x84,
            ApduStandardInstruction::InternalAuthenticate => 0x88,
            ApduStandardInstruction::SelectFile => 0xa4,
            ApduStandardInstruction::ReadBinary => 0xb0,
            ApduStandardInstruction::ReadRecords => 0xb2,
            ApduStandardInstruction::GetResponse => 0xc0,
            ApduStandardInstruction::Envelope => 0xc2,
            ApduStandardInstruction::GetData => 0xca,
            ApduStandardInstruction::WriteBinary => 0xd0,
            ApduStandardInstruction::WriteRecord => 0xd2,
            ApduStandardInstruction::UpdateBinary => 0xd6,
            ApduStandardInstruction::PutData => 0xda,
            ApduStandardInstruction::UpdateData => 0xdc,
            ApduStandardInstruction::AppendRecord => 0xe2,
        }
    }
}


impl ApduClass {
    /// The class that a byte stands for, if any.
    pub fn try_from(b: u8) -> (r: Result<ApduClass, Iso7816Error>)
        ensures
            r matches Ok(c) ==> c.spec_value() == b,
            r is Err <==> (b != 0x00 && b != 0x80 && b != 0x84),
    {
        if b == 0x00 {
            Ok(ApduClass::StandardPlain)
        } else if b == 0x80 {
            Ok(ApduClass::ProprietaryPlain)
        } else if b == 0x84 {
            Ok(ApduClass::ProprietarySecure)
        } else {
            Err(Iso7816Error::ValueError)
        }
    }
}

/// The tag and length bytes in front of a TLV payload of `len` bytes: one
/// length byte below 128, else `0x82` and two big-endian length bytes.
pub open spec fn tlv_header(tag: u8, len: nat) -> Seq<u8> {
    if len < 128 {
        seq![tag, len as u8]
    } else {
        seq![tag, 0x82u8, (len / 256) as u8, (len % 256) as u8]
    }
}

/// A whole TLV object on the wire.
pub open spec fn tlv_bytes(t: (u8, Seq<u8>)) -> Seq<u8> {
    tlv_header(t.0, t.1.len()) + t.1
}

/// What the TLV at the front of `s` decodes to: tag, payload and the number
/// of bytes it takes.
pub open spec fn spec_parse_tlv(s: Seq<u8>) -> Option<(u8, Seq<u8>, nat)> {
    if s.len() < 2 {
        None
    } else if s[1] < 128 {
        let n = s[1] as nat;
        if 2 + n <= s.len() {
            Some((s[0], s.subrange(2, 2 + n as int), 2 + n))
        } else {
            None
        }
    } else if s[1] == 0x82 && s.len() >= 4 {
        let n = be16(s[2], s[3]) as nat;
        if 4 + n <= s.len() {
            Some((s[0], s.subrange(4, 4 + n as int), 4 + n))
        } else {
            None
        }
    } else {
        None
    }
}

/// A simple TLV object: a one-byte tag and a payload borrowed from the caller.
#[derive(Debug)]
pub struct SimpleTlv<'a> {
    tag: u8,
    header: heapless::Vec<u8, 7>,
    data: &'a [u8],
}

impl<'a> View for SimpleTlv<'a> {
    type V = (u8, Seq<u8>);

    closed spec fn view(&self) -> (u8, Seq<u8>) {
        (self.tag, self.data@)
    }
}

impl<'a> SimpleTlv<'a> {
    /// The stored header is the encoding of the tag and the payload length.
    pub closed spec fn wf(&self) -> bool {
        &&& self.data@.len() <= MAX_TLV_DATA
        &&& field_bytes(self.header) == tlv_header(self.tag, self.data@.len())
    }

    pub fn new(tag: u8, data: &'a [u8]) -> (r: Self)
        requires
            data@.len() <= MAX_TLV_DATA,
        ensures
            r.wf(),
            r@ == (tag, data@),
    {
        let n = data.len();
        let mut header = field_new();
        let _ = field_push(&mut header, tag);
        if n < 128 {
            let _ = field_push(&mut header, n as u8);
        } else {
            let _ = field_push(&mut header, 0x82);
            let _ = field_push(&mut header, (n / 256) as u8);
            let _ = field_push(&mut header, (n % 256) as u8);
        }
        assert(field_bytes(header) =~= tlv_header(tag, n as nat));
        SimpleTlv { tag, header, data }
    }

    pub fn tag(&self) -> (r: u8)
        ensures
            r == self@.0,
    {
        self.tag
    }

    /// The number of bytes this object takes on the wire.
    pub fn total_len(&self) -> (r: usize)
        requires
            self.wf(),
        ensures
            r == tlv_bytes(self@).len(),
    {
        field_slice(&self.header).len() + self.data.len()
    }

    pub fn get_header(&self) -> (r: &heapless::Vec<u8, 7>)
        requires
            self.wf(),
        ensures
            field_bytes(*r) == tlv_header(self@.0, self@.1.len()),
    {
        &self.header
    }

    pub fn get_data(&self) -> (r: &'a [u8])
        ensures
            r@ == self@.1,
    {
        self.data
    }
}

/// A TLV object of up to 127 payload bytes has a two-byte header, a longer one
/// the four-byte header `tag 0x82 hi lo`; either way it decodes back to its
/// tag and payload, whatever follows it.
pub proof fn lemma_tlv_round_trip(tag: u8, data: Seq<u8>, rest: Seq<u8>)
    requires
        data.len() <= MAX_TLV_DATA,
    ensures
        data.len() < 128 ==> tlv_header(tag, data.len()) == seq![tag, data.len() as u8],
        data.len() >= 128 ==> tlv_header(tag, data.len()) == seq![
            tag,
            0x82u8,
            (data.len() / 256) as u8,
            (data.len() % 256) as u8,
        ],
        spec_parse_tlv(tlv_bytes((tag, data)) + rest) == Some(
            (tag, data, tlv_bytes((tag, data)).len()),
        ),
{
    let s = tlv_bytes((tag, data)) + rest;
    let h = tlv_header(tag, data.len());
    assert(s.subrange(h.len() as int, (h.len() + data.len()) as int) =~= data);
    if data.len() >= 128 {
        assert(be16(s[2], s[3]) == data.len());
    }
}

/// The sections that a list of TLV objects takes on the wire: for each
/// object its header, then its payload.
pub open spec fn tlv_sections(ts: Seq<(u8, Seq<u8>)>) -> Seq<Seq<u8>>
    decreases ts.len(),
{
    if ts.len() == 0 {
        seq![]
    } else {
        tlv_sections(ts.drop_last()).push(tlv_header(ts.last().0, ts.last().1.len())).push(
            ts.last().1,
        )
    }
}

/// A list of TLV objects on the wire, one after the other.
pub open spec fn tlvs_bytes(ts: Seq<(u8, Seq<u8>)>) -> Seq<u8> {
    tlv_sections(ts).flatten()
}

/// Short or extended length encoding: extended as soon as Lc exceeds 255 or
/// Le exceeds 256.
pub open spec fn is_extended(lc: nat, le: Option<usize>) -> bool {
    lc > 255 || (le matches Some(n) && n > 256)
}

/// The Lc field: absent when there is no payload.
pub open spec fn lc_bytes(lc: nat, ext: bool) -> Seq<u8> {
    if lc == 0 {
        seq![]
    } else if ext {
        seq![0u8, (lc / 256) as u8, (lc % 256) as u8]
    } else {
        seq![lc as u8]
    }
}

/// The Le field; 0 means 256 in the short form and 65536 in the extended one.
pub open spec fn le_bytes(le: Option<usize>, ext: bool) -> Seq<u8> {
    match le {
        None => seq![],
        Some(n) => if ext {
            seq![0u8, ((n / 256) % 256) as u8, (n % 256) as u8]
        } else {
            seq![(n % 256) as u8]
        },
    }
}

/// Class, instruction, `p1`, `p2` and the Lc field.
pub open spec fn capdu_head(cla: u8, ins: u8, p1: u8, p2: u8, lc: nat, ext: bool) -> Seq<u8> {
    seq![cla, ins, p1, p2] + lc_bytes(lc, ext)
}

/// A command APDU on the wire.
pub open spec fn capdu_bytes(
    cla: u8,
    ins: u8,
    p1: u8,
    p2: u8,
    ts: Seq<(u8, Seq<u8>)>,
    le: Option<usize>,
) -> Seq<u8> {
    let lc = tlvs_bytes(ts).len();
    let ext = is_extended(lc, le);
    capdu_head(cla, ins, p1, p2, lc, ext) + tlvs_bytes(ts) + le_bytes(le, ext)
}

/// An expected response length that the Le field can carry.
pub open spec fn le_ok(le: Option<usize>) -> bool {
    le matches Some(n) ==> n <= 65536
}

proof fn lemma_tlv_sections(ts: Seq<(u8, Seq<u8>)>)
    ensures
        tlv_sections(ts).len() == 2 * ts.len(),
        forall|i: int|
            0 <= i < ts.len() ==> #[trigger] tlv_sections(ts)[2 * i] == tlv_header(
                ts[i].0,
                ts[i].1.len(),
            ) && tlv_sections(ts)[2 * i + 1] == ts[i].1,
    decreases ts.len(),
{
    if ts.len() > 0 {
        let prev_ts = ts.drop_last();
        lemma_tlv_sections(prev_ts);
        let n = ts.len() - 1;
        let prev = tlv_sections(prev_ts);
        let all = tlv_sections(ts);
        assert(all == prev.push(tlv_header(ts.last().0, ts.last().1.len())).push(ts.last().1));
        assert forall|i: int| 0 <= i < ts.len() implies #[trigger] tlv_sections(ts)[2 * i]
            == tlv_header(ts[i].0, ts[i].1.len()) && tlv_sections(ts)[2 * i + 1] == ts[i].1 by {
            if i < n {
                assert(prev_ts[i] == ts[i]);
                assert(all[2 * i] == prev[2 * i]);
                assert(all[2 * i + 1] == prev[2 * i + 1]);
                assert(prev[2 * i] == tlv_header(prev_ts[i].0, prev_ts[i].1.len()));
            } else {
                assert(all[2 * i] == tlv_header(ts.last().0, ts.last().1.len()));
                assert(all[2 * i + 1] == ts.last().1);
            }
        }
    }
}

pub(crate) proof fn lemma_tlvs_bytes_push(ts: Seq<(u8, Seq<u8>)>, t: (u8, Seq<u8>))
    ensures
        tlvs_bytes(ts.push(t)) == tlvs_bytes(ts) + tlv_bytes(t),
{
    let a = tlv_sections(ts);
    assert(ts.push(t).drop_last() =~= ts);
    a.lemma_flatten_push(tlv_header(t.0, t.1.len()));
    a.push(tlv_header(t.0, t.1.len())).lemma_flatten_push(t.1);
    assert(tlvs_bytes(ts.push(t)) =~= tlvs_bytes(ts) + tlv_bytes(t));
}

proof fn lemma_flatten_split(s: Seq<Seq<u8>>, k: int)
    requires
        0 <= k < s.len(),
    ensures
        s.take(k + 1).flatten() == s.take(k).flatten() + s[k],
        s.flatten() == s.take(k + 1).flatten() + s.skip(k + 1).flatten(),
{
    assert(s.take(k + 1) =~= s.take(k).push(s[k]));
    s.take(k).lemma_flatten_push(s[k]);
    assert(s =~= s.take(k + 1) + s.skip(k + 1));
    lemma_flatten_concat(s.take(k + 1), s.skip(k + 1));
}

/// A command APDU: header fields, up to `MAX_TLVS` TLV objects and an
/// optional expected response length.
pub struct CApdu<'a> {
    pub cla: ApduClass,
    pub ins: u8,
    pub p1: u8,
    pub p2: u8,
    pub tlvs: Vec<SimpleTlv<'a>>,
    pub payload_len: usize,
    pub le: Option<usize>,
}

impl<'a> CApdu<'a> {
    /// Tag and payload of each TLV object, in order.
    pub open spec fn tlvs_view(&self) -> Seq<(u8, Seq<u8>)> {
        self.tlvs@.map_values(|t: SimpleTlv<'a>| t@)
    }

    pub open spec fn wf(&self) -> bool {
        &&& self.tlvs@.len() <= MAX_TLVS
        &&& forall|i: int| 0 <= i < self.tlvs@.len() ==> (#[trigger] self.tlvs@[i]).wf()
        &&& self.payload_len == tlvs_bytes(self.tlvs_view()).len()
        &&& self.payload_len <= MAX_TLV_DATA
    }

    /// The bytes that this command puts on the wire.
    pub open spec fn spec_bytes(&self) -> Seq<u8> {
        capdu_bytes(self.cla.spec_value(), self.ins, self.p1, self.p2, self.tlvs_view(), self.le)
    }

    pub fn new(cla: ApduClass, ins: u8, p1: u8, p2: u8, le: Option<usize>) -> (r: Self)
        ensures
            r.wf(),
            r.cla == cla && r.ins == ins && r.p1 == p1 && r.p2 == p2 && r.le == le,
            r.tlvs_view() == Seq::<(u8, Seq<u8>)>::empty(),
            r.spec_bytes() == capdu_bytes(cla.spec_value(), ins, p1, p2, r.tlvs_view(), le),
    {
        let r = CApdu { cla, ins, p1, p2, tlvs: Vec::new(), payload_len: 0, le };
        assert(r.tlvs_view() =~= Seq::<(u8, Seq<u8>)>::empty());
        assert(tlv_sections(r.tlvs_view()) =~= Seq::<Seq<u8>>::empty());
        r
    }

    /// Appends a TLV object to the payload.
    pub fn push(&mut self, tlv: SimpleTlv<'a>)
        requires
            old(self).wf(),
            tlv.wf(),
            old(self).tlvs_view().len() < MAX_TLVS,
            old(self).payload_len() + tlv_bytes(tlv@).len() <= MAX_TLV_DATA,
        ensures
            final(self).wf(),
            final(self).tlvs_view() == old(self).tlvs_view().push(tlv@),
            final(self).cla == old(self).cla && final(self).ins == old(self).ins,
            final(self).p1 == old(self).p1 && final(self).p2 == old(self).p2,
            final(self).le == old(self).le,
            final(self).spec_bytes() == capdu_bytes(
                old(self).cla.spec_value(),
                old(self).ins,
                old(self).p1,
                old(self).p2,
                old(self).tlvs_view().push(tlv@),
                old(self).le,
            ),
    {
        let ghost before = self.tlvs_view();
        let ghost t = tlv@;
        self.payload_len = self.payload_len + tlv.total_len();
        self.tlvs.push(tlv);
        assert(self.tlvs_view() =~= before.push(t));
        proof {
            lemma_tlvs_bytes_push(before, t);
        }
    }

    /// Total length of the TLV payload (the Lc value).
    pub open spec fn payload_len(&self) -> nat {
        tlvs_bytes(self.tlvs_view()).len()
    }

    pub fn get_payload_len(&self) -> (r: usize)
        requires
            self.wf(),
        ensures
            r == self.payload_len(),
    {
        self.payload_len
    }

    /// A cursor that yields the bytes of this command one at a time.
    pub fn byte_iter(&self) -> (r: CApduByteIterator<'_>)
        requires
            self.wf(),
            le_ok(self.le),
        ensures
            r.wf(),
            r@ == self.spec_bytes(),
    {
        CApduByteIterator::new(self)
    }

    /// The bytes of this command, collected from its byte cursor.
    pub fn to_vec(&self) -> (r: Vec<u8>)
        requires
            self.wf(),
            le_ok(self.le),
        ensures
            r@ == self.spec_bytes(),
    {
        let mut it = self.byte_iter();
        let mut out: Vec<u8> = Vec::new();
        loop
            invariant
                it.wf(),
                out@ + it@ == self.spec_bytes(),
            decreases it@.len(),
        {
            match it.next() {
                None => {
                    assert(out@ + it@ =~= out@);
                    return out;
                },
                Some(b) => {
                    out.push(b);
                    assert(out@ + it@ =~= self.spec_bytes());
                },
            }
        }
    }
}

/// Walks the bytes of a command APDU section by section: its header, the
/// header and payload of each TLV object, its trailer.
pub struct CApduByteIterator<'a> {
    capdu: &'a CApdu<'a>,
    extended: bool,
    capdu_header: heapless::Vec<u8, 7>,
    capdu_trailer: heapless::Vec<u8, 7>,
    section: usize,
    off: usize,
}

impl<'a> View for CApduByteIterator<'a> {
    type V = Seq<u8>;

    /// The bytes not yet handed out.
    closed spec fn view(&self) -> Seq<u8> {
        let all = self.capdu.spec_bytes();
        all.subrange(self.pos(), all.len() as int)
    }
}

impl<'a> CApduByteIterator<'a> {
    closed spec fn sections(&self) -> Seq<Seq<u8>> {
        seq![field_bytes(self.capdu_header)] + tlv_sections(self.capdu.tlvs_view()) + seq![
            field_bytes(self.capdu_trailer),
        ]
    }

    closed spec fn pos(&self) -> int {
        self.sections().take(self.section as int).flatten().len() + self.off
    }

    pub closed spec fn wf(&self) -> bool {
        let lc = self.capdu.payload_len();
        let ext = is_extended(lc, self.capdu.le);
        &&& self.capdu.wf()
        &&& self.extended == ext
        &&& field_bytes(self.capdu_header) == capdu_head(
            self.capdu.cla.spec_value(),
            self.capdu.ins,
            self.capdu.p1,
            self.capdu.p2,
            lc,
            ext,
        )
        &&& field_bytes(self.capdu_trailer) == le_bytes(self.capdu.le, ext)
        &&& self.section <= self.sections().len()
        &&& self.section < self.sections().len() ==> self.off
            < self.sections()[self.section as int].len()
        &&& self.section == self.sections().len() ==> self.off == 0
    }

    proof fn lemma_sections(&self)
        requires
            self.capdu.wf(),
        ensures
            self.sections().len() == 2 * self.capdu.tlvs@.len() + 2,
            self.sections().flatten() == field_bytes(self.capdu_header) + tlvs_bytes(self.capdu.tlvs_view())
                + field_bytes(self.capdu_trailer),
            self.sections()[0] == field_bytes(self.capdu_header),
            self.sections()[2 * self.capdu.tlvs@.len() + 1int] == field_bytes(self.capdu_trailer),
            forall|i: int|
                0 <= i < self.capdu.tlvs@.len() ==> #[trigger] self.sections()[2 * i + 1]
                    == field_bytes(self.capdu.tlvs@[i].header),
            forall|i: int|
                0 <= i < self.capdu.tlvs@.len() ==> #[trigger] self.sections()[2 * i + 2]
                    == self.capdu.tlvs@[i].data@,
    {
        let ts = self.capdu.tlvs_view();
        lemma_tlv_sections(ts);
        let mid = tlv_sections(ts);
        let s = self.sections();
        lemma_flatten_concat(seq![field_bytes(self.capdu_header)], mid);
        lemma_flatten_concat(seq![field_bytes(self.capdu_header)] + mid, seq![field_bytes(self.capdu_trailer)]);
        seq![field_bytes(self.capdu_header)].lemma_flatten_one_element();
        seq![field_bytes(self.capdu_trailer)].lemma_flatten_one_element();
        assert forall|i: int| 0 <= i < self.capdu.tlvs@.len() implies #[trigger] s[2 * i + 1]
            == field_bytes(self.capdu.tlvs@[i].header) && s[2 * i + 2] == self.capdu.tlvs@[i].data@ by {
            assert(s[2 * i + 1] == mid[2 * i]);
            assert(s[2 * i + 2] == mid[2 * i + 1]);
            assert(ts[i] == self.capdu.tlvs@[i]@);
            assert(self.capdu.tlvs@[i].wf());
        }
        assert forall|i: int| 0 <= i < self.capdu.tlvs@.len() implies #[trigger] s[2 * i + 2]
            == self.capdu.tlvs@[i].data@ by {
            assert(s[2 * i + 2] == mid[2 * i + 1]);
            assert(mid[2 * i] == tlv_header(ts[i].0, ts[i].1.len()));
            assert(ts[i] == self.capdu.tlvs@[i]@);
        }
    }

    fn new(capdu: &'a CApdu<'a>) -> (r: Self)
        requires
            capdu.wf(),
            le_ok(capdu.le),
        ensures
            r.wf(),
            r@ == capdu.spec_bytes(),
            r.capdu == capdu,
    {
        let lc = capdu.payload_len;
        let is_extended = lc > 255 || match capdu.le {
            Some(n) => n > 256,
            None => false,
        };
        let mut header = field_new();
        let _ = field_push(&mut header, capdu.cla.value());
        let _ = field_push(&mut header, capdu.ins);
        let _ = field_push(&mut header, capdu.p1);
        let _ = field_push(&mut header, capdu.p2);
        if lc > 0 {
            if is_extended {
                let _ = field_push(&mut header, 0x00);
                let _ = field_push(&mut header, (lc / 256) as u8);
                let _ = field_push(&mut header, (lc % 256) as u8);
            } else {
                let _ = field_push(&mut header, lc as u8);
            }
        }
        let mut trailer = field_new();
        match capdu.le {
            Some(le) => {
                if is_extended {
                    let _ = field_push(&mut trailer, 0x00);
                    let _ = field_push(&mut trailer, ((le / 256) % 256) as u8);
                    let _ = field_push(&mut trailer, (le % 256) as u8);
                } else {
                    let _ = field_push(&mut trailer, (le % 256) as u8);
                }
            },
            None => {},
        }
        let r = CApduByteIterator {
            capdu,
            extended: is_extended,
            capdu_header: header,
            capdu_trailer: trailer,
            section: 0,
            off: 0,
        };
        proof {
            r.lemma_sections();
            assert(field_bytes(r.capdu_header) =~= capdu_head(
                capdu.cla.spec_value(),
                capdu.ins,
                capdu.p1,
                capdu.p2,
                lc as nat,
                is_extended,
            ));
            assert(field_bytes(r.capdu_trailer) =~= le_bytes(capdu.le, is_extended));
            assert(r.sections().take(0) =~= Seq::<Seq<u8>>::empty());
            let all = capdu.spec_bytes();
            assert(all.subrange(0, all.len() as int) =~= all);
        }
        r
    }

    fn current_slice(&self) -> (r: Option<&[u8]>)
        requires
            self.capdu.wf(),
        ensures
            self.section < self.sections().len() ==> (r matches Some(s) && s@
                == self.sections()[self.section as int]),
            self.section >= self.sections().len() ==> r is None,
    {
        proof {
            self.lemma_sections();
        }
        let n = self.capdu.tlvs.len();
        if self.section == 0 {
            Some(field_slice(&self.capdu_header))
        } else if self.section <= 2 * n {
            let i = (self.section - 1) / 2;
            if self.section % 2 == 1 {
                assert(self.section == 2 * i + 1);
                assert(self.sections()[2 * (i as int) + 1] == field_bytes(self.capdu.tlvs@[i as int].header));
                Some(field_slice(&self.capdu.tlvs[i].header))
            } else {
                assert(self.section == 2 * i + 2);
                assert(self.sections()[2 * (i as int) + 2] == self.capdu.tlvs@[i as int].data@);
                Some(self.capdu.tlvs[i].data)
            }
        } else if self.section == 2 * n + 1 {
            Some(field_slice(&self.capdu_trailer))
        } else {
            None
        }
    }

    /// Hands out the next byte of the command, if any is left.
    pub fn next(&mut self) -> (r: Option<u8>)
        requires
            old(self).wf(),
        ensures
            final(self).wf(),
            match r {
                None => old(self)@.len() == 0 && final(self)@ == old(self)@,
                Some(b) => old(self)@.len() > 0 && b == old(self)@[0] && final(self)@ == old(
                    self,
                )@.drop_first(),
            },
    {
        proof {
            self.lemma_sections();
        }
        let ghost s = self.sections();
        let ghost all = self.capdu.spec_bytes();
        let ghost old_view = self@;
        let ghost old_pos = self.pos();
        assert(s.flatten() =~= all);
        let slice = match self.current_slice() {
            None => {
                assert(s.take(s.len() as int) =~= s);
                assert(self@ =~= Seq::<u8>::empty());
                return None;
            },
            Some(sl) => sl,
        };
        let ret = slice[self.off];
        proof {
            let k = self.section as int;
            lemma_flatten_split(s, k);
            assert(all[old_pos] == s[k][self.off as int]);
        }
        self.off = self.off + 1;
        let nsec = 2 * self.capdu.tlvs.len() + 2;
        while self.section < nsec
            invariant
                self.capdu == old(self).capdu,
                self.extended == old(self).extended,
                self.capdu_header == old(self).capdu_header,
                self.capdu_trailer == old(self).capdu_trailer,
                s == self.sections(),
                nsec == s.len(),
                self.capdu.wf(),
                self.section <= nsec,
                self.section < nsec ==> self.off <= s[self.section as int].len(),
                self.section == nsec ==> self.off == 0,
                self.pos() == old_pos + 1,
            ensures
                self.section < nsec ==> self.off < s[self.section as int].len(),
            decreases nsec - self.section,
        {
            let cur = self.current_slice();
            let len = match cur {
                Some(sl) => sl.len(),
                None => 0,
            };
            if self.off < len {
                break;
            }
            proof {
                lemma_flatten_split(s, self.section as int);
            }
            self.off = 0;
            self.section = self.section + 1;
        }
        proof {
            if self.section as int == s.len() {
                assert(s.take(s.len() as int) =~= s);
            } else {
                lemma_flatten_split(s, self.section as int);
            }
            assert(self@ =~= old_view.drop_first());
        }
        Some(ret)
    }
}

/// No command ever takes more than its TLV payload plus ten bytes: four of
/// header, three of Lc and three of Le.
pub proof fn lemma_capdu_size_bound(
    cla: u8,
    ins: u8,
    p1: u8,
    p2: u8,
    ts: Seq<(u8, Seq<u8>)>,
    le: Option<usize>,
)
    ensures
        capdu_bytes(cla, ins, p1, p2, ts, le).len() <= 4 + 3 + tlvs_bytes(ts).len() + 3,
{
}

/// Tag and payload of each TLV object of a list.
pub open spec fn tlvs_of<'a>(v: Seq<SimpleTlv<'a>>) -> Seq<(u8, Seq<u8>)> {
    v.map_values(|t: SimpleTlv<'a>| t@)
}

/// What a byte sequence decodes to as a list of TLV objects read one after
/// the other to its end.
pub open spec fn spec_parse_tlvs(s: Seq<u8>) -> Option<Seq<(u8, Seq<u8>)>>
    decreases s.len(),
{
    if s.len() == 0 {
        Some(seq![])
    } else {
        match spec_parse_tlv(s) {
            Some((t, d, n)) => if 0 < n <= s.len() {
                match spec_parse_tlvs(s.subrange(n as int, s.len() as int)) {
                    Some(rest) => Some(seq![(t, d)] + rest),
                    None => None,
                }
            } else {
                None
            },
            None => None,
        }
    }
}

/// The TLV list of a response payload, when it decodes and holds at most
/// `MAX_TLVS` objects.
pub open spec fn spec_response_tlvs(s: Seq<u8>) -> Option<Seq<(u8, Seq<u8>)>> {
    match spec_parse_tlvs(s) {
        Some(ts) => if ts.len() <= MAX_TLVS {
            Some(ts)
        } else {
            None
        },
        None => None,
    }
}

spec fn prepend(a: Seq<(u8, Seq<u8>)>, o: Option<Seq<(u8, Seq<u8>)>>) -> Option<
    Seq<(u8, Seq<u8>)>,
> {
    match o {
        Some(b) => Some(a + b),
        None => None,
    }
}

/// Reads the TLV object that starts at `pos`.
fn parse_tlv_at<'a>(s: &'a [u8], pos: usize) -> (r: Option<(u8, &'a [u8], usize)>)
    requires
        pos <= s@.len(),
    ensures
        match (r, spec_parse_tlv(s@.subrange(pos as int, s@.len() as int))) {
            (Some((t, d, n)), Some((t2, d2, n2))) => t == t2 && d@ == d2 && n == n2,
            (None, None) => true,
            _ => false,
        },
{
    let ghost sub = s@.subrange(pos as int, s@.len() as int);
    let avail = s.len() - pos;
    if avail < 2 {
        return None;
    }
    let tag = s[pos];
    let l = s[pos + 1];
    if l < 128 {
        let n = l as usize;
        if 2 + n <= avail {
            let d = vstd::slice::slice_subrange(s, pos + 2, pos + 2 + n);
            assert(d@ =~= sub.subrange(2, 2 + n as int));
            return Some((tag, d, 2 + n));
        }
        None
    } else if l == 0x82 && avail >= 4 {
        let n = s[pos + 2] as usize * 256 + s[pos + 3] as usize;
        if 4 + n <= avail {
            let d = vstd::slice::slice_subrange(s, pos + 4, pos + 4 + n);
            assert(d@ =~= sub.subrange(4, 4 + n as int));
            return Some((tag, d, 4 + n));
        }
        None
    } else {
        None
    }
}

/// Splits a response payload into its TLV objects, which borrow from it.
pub fn parse_tlvs<'a>(data: &'a [u8]) -> (r: Result<Vec<SimpleTlv<'a>>, T1Error>)
    ensures
        match r {
            Ok(v) => spec_response_tlvs(data@) == Some(tlvs_of(v@)) && forall|i: int|
                0 <= i < v@.len() ==> (#[trigger] v@[i]).wf(),
            Err(e) => e == T1Error::TlvParseError && spec_response_tlvs(data@) is None,
        },
{
    let mut out: Vec<SimpleTlv<'a>> = Vec::new();
    let mut pos: usize = 0;
    let n = data.len();
    assert(data@.subrange(0, n as int) =~= data@);
    assert(tlvs_of(out@) =~= Seq::<(u8, Seq<u8>)>::empty());
    while pos < n
        invariant
            n == data@.len(),
            pos <= n,
            out@.len() <= MAX_TLVS,
            forall|i: int| 0 <= i < out@.len() ==> (#[trigger] out@[i]).wf(),
            prepend(tlvs_of(out@), spec_parse_tlvs(data@.subrange(pos as int, n as int)))
                == spec_parse_tlvs(data@),
        decreases n - pos,
    {
        let ghost sub = data@.subrange(pos as int, n as int);
        match parse_tlv_at(data, pos) {
            None => {
                return Err(T1Error::TlvParseError);
            },
            Some((tag, d, used)) => {
                assert(sub.subrange(used as int, sub.len() as int) =~= data@.subrange(
                    pos + used,
                    n as int,
                ));
                if out.len() == MAX_TLVS {
                    proof {
                        match spec_parse_tlvs(data@.subrange(pos + used, n as int)) {
                            Some(rest) => {
                                assert((tlvs_of(out@) + (seq![(tag, d@)] + rest)).len() > MAX_TLVS);
                            },
                            None => {},
                        }
                    }
                    return Err(T1Error::TlvParseError);
                }
                let ghost before = tlvs_of(out@);
                out.push(SimpleTlv::new(tag, d));
                pos = pos + used;
                proof {
                    assert(tlvs_of(out@) =~= before.push((tag, d@)));
                    match spec_parse_tlvs(data@.subrange(pos as int, n as int)) {
                        Some(rest) => {
                            assert(before + (seq![(tag, d@)] + rest) =~= before.push((tag, d@))
                                + rest);
                        },
                        None => {},
                    }
                }
            },
        }
    }
    assert(data@.subrange(n as int, n as int) =~= Seq::<u8>::empty());
    assert(tlvs_of(out@) + Seq::<(u8, Seq<u8>)>::empty() =~= tlvs_of(out@));
    Ok(out)
}

/// A response APDU before its payload is split: the data bytes and the
/// status word.
pub struct RawRApdu<'a> {
    pub data: &'a [u8],
    pub sw: u16,
}

/// The status word that ends a response: its last two bytes, big-endian.
pub open spec fn response_sw(s: Seq<u8>) -> int {
    be16(s[s.len() - 2], s[s.len() - 1])
}

impl<'a> RawRApdu<'a> {
    /// Splits a whole response into its data and its status word.
    pub fn from_response(buf: &'a [u8]) -> (r: Result<RawRApdu<'a>, T1Error>)
        ensures
            buf@.len() < 2 <==> r is Err,
            r matches Err(e) ==> e == T1Error::ProtocolError,
            r matches Ok(raw) ==> raw.data@ == buf@.subrange(0, buf@.len() - 2) && raw.sw as int
                == response_sw(buf@),
    {
        let n = buf.len();
        if n < 2 {
            return Err(T1Error::ProtocolError);
        }
        let sw = crate::bytes::read_be_u16(vstd::slice::slice_subrange(buf, n - 2, n));
        Ok(RawRApdu { data: vstd::slice::slice_subrange(buf, 0, n - 2), sw })
    }
}

/// A response APDU: its TLV objects, borrowing from the receive buffer, and
/// its status word.
pub struct RApdu<'a> {
    pub tlvs: Vec<SimpleTlv<'a>>,
    pub sw: u16,
}

impl<'a> RApdu<'a> {
    /// Parses a whole response: TLV objects, then a two-byte status word.
    pub fn parse(buf: &'a [u8]) -> (r: Result<RApdu<'a>, T1Error>)
        ensures
            buf@.len() < 2 ==> r == Err::<RApdu<'a>, T1Error>(T1Error::ProtocolError),
            buf@.len() >= 2 ==> match (r, spec_response_tlvs(buf@.subrange(0, buf@.len() - 2))) {
                (Ok(ra), Some(ts)) => tlvs_of(ra.tlvs@) == ts && ra.sw as int == response_sw(buf@),
                (Err(e), None) => e == T1Error::TlvParseError,
                _ => false,
            },
    {
        let raw = RawRApdu::from_response(buf)?;
        let tlvs = parse_tlvs(raw.data)?;
        Ok(RApdu { tlvs, sw: raw.sw })
    }

    /// The first TLV object with the given tag.
    pub fn get_tlv(&self, tag: u8) -> (r: Option<&SimpleTlv<'a>>)
        ensures
            r is None <==> forall|i: int| 0 <= i < self.tlvs@.len() ==> (#[trigger] self.tlvs@[i])@.0 != tag,
            r matches Some(t) ==> exists|i: int|
                0 <= i < self.tlvs@.len() && self.tlvs@[i] == *t && t@.0 == tag && forall|j: int|
                    0 <= j < i ==> (#[trigger] self.tlvs@[j])@.0 != tag,
    {
        let mut i: usize = 0;
        while i < self.tlvs.len()
            invariant
                i <= self.tlvs@.len(),
                forall|j: int| 0 <= j < i ==> (#[trigger] self.tlvs@[j])@.0 != tag,
            decreases self.tlvs@.len() - i,
        {
            if self.tlvs[i].tag() == tag {
                return Some(&self.tlvs[i]);
            }
            i += 1;
        }
        None
    }
}

/// TLV objects that one command can carry: at most `MAX_TLVS`, each payload
/// and all of them together describable by a two-byte length.
pub open spec fn tlvs_fit(ts: Seq<(u8, Seq<u8>)>) -> bool {
    &&& ts.len() <= MAX_TLVS
    &&& forall|i: int| 0 <= i < ts.len() ==> #[trigger] ts[i].1.len() <= MAX_TLV_DATA
    &&& tlvs_bytes(ts).len() <= MAX_TLV_DATA
}

/// A proprietary command (class 0x80) that carries the given TLV objects.
pub fn build_command<'a>(
    ins: u8,
    p1: u8,
    p2: u8,
    tlvs: Vec<SimpleTlv<'a>>,
    le: Option<usize>,
) -> (r: CApdu<'a>)
    requires
        tlvs_fit(tlvs_of(tlvs@)),
        forall|i: int| 0 <= i < tlvs@.len() ==> (#[trigger] tlvs@[i]).wf(),
    ensures
        r.wf(),
        r.cla == ApduClass::ProprietaryPlain && r.ins == ins && r.p1 == p1 && r.p2 == p2,
        r.le == le,
        r.tlvs_view() == tlvs_of(tlvs@),
        r.spec_bytes() == capdu_bytes(0x80, ins, p1, p2, tlvs_of(tlvs@), le),
{
    let ghost ts = tlvs_of(tlvs@);
    let mut total: usize = 0;
    let mut i: usize = 0;
    assert(tlvs_of(tlvs@.take(0)) =~= Seq::<(u8, Seq<u8>)>::empty());
    assert(tlv_sections(Seq::<(u8, Seq<u8>)>::empty()) =~= Seq::<Seq<u8>>::empty());
    while i < tlvs.len()
        invariant
            i <= tlvs@.len(),
            ts == tlvs_of(tlvs@),
            tlvs_fit(ts),
            forall|k: int| 0 <= k < tlvs@.len() ==> (#[trigger] tlvs@[k]).wf(),
            total == tlvs_bytes(tlvs_of(tlvs@.take(i as int))).len(),
            total <= MAX_TLV_DATA,
        decreases tlvs@.len() - i,
    {
        let ghost pre = tlvs_of(tlvs@.take(i as int));
        assert(tlvs_of(tlvs@.take(i + 1)) =~= pre.push(tlvs@[i as int]@));
        proof {
            lemma_tlvs_bytes_push(pre, tlvs@[i as int]@);
            lemma_tlvs_bytes_prefix(ts, i as int + 1);
            assert(ts.take(i + 1) =~= tlvs_of(tlvs@.take(i + 1)));
        }
        total = total + tlvs[i].total_len();
        i += 1;
    }
    assert(tlvs@.take(i as int) =~= tlvs@);
    CApdu { cla: ApduClass::ProprietaryPlain, ins, p1, p2, tlvs, payload_len: total, le }
}

proof fn lemma_tlvs_bytes_prefix(ts: Seq<(u8, Seq<u8>)>, k: int)
    requires
        0 <= k <= ts.len(),
    ensures
        tlvs_bytes(ts.take(k)).len() <= tlvs_bytes(ts).len(),
    decreases ts.len() - k,
{
    if k < ts.len() {
        lemma_tlvs_bytes_prefix(ts, k + 1);
        assert(ts.take(k + 1) =~= ts.take(k).push(ts[k]));
        lemma_tlvs_bytes_push(ts.take(k), ts[k]);
    } else {
        assert(ts.take(k) =~= ts);
    }
}

/// The Le value that a short Le byte stands for.
pub open spec fn short_le(b: u8) -> int {
    if b == 0 {
        256
    } else {
        b as int
    }
}

/// The Le value that an extended Le field stands for.
pub open spec fn ext_le(hi: u8, lo: u8) -> int {
    if be16(hi, lo) == 0 {
        65536
    } else {
        be16(hi, lo)
    }
}

/// The Le value that an encoded command asks for: 0 is the largest length of
/// its encoding.
pub open spec fn effective_le(le: Option<usize>, ext: bool) -> Option<int> {
    match le {
        None => None,
        Some(n) => Some(
            if n == 0 {
                if ext {
                    65536
                } else {
                    256
                }
            } else {
                n as int
            },
        ),
    }
}

/// The payload and Le of a command, once the four header bytes are read:
/// `None` where the Lc and Le fields do not account for its length exactly.
pub open spec fn spec_capdu_body(s: Seq<u8>) -> Option<(Seq<u8>, Option<int>)> {
    if s.len() == 4 {
        Some((seq![], None))
    } else if s.len() == 5 {
        Some((seq![], Some(short_le(s[4]))))
    } else if s[4] != 0 {
        let lc = s[4] as int;
        if s.len() == 5 + lc {
            Some((s.subrange(5, 5 + lc), None))
        } else if s.len() == 6 + lc {
            Some((s.subrange(5, 5 + lc), Some(short_le(s[5 + lc]))))
        } else {
            None
        }
    } else if s.len() == 7 {
        Some((seq![], Some(ext_le(s[5], s[6]))))
    } else if s.len() < 7 {
        None
    } else {
        let lc = be16(s[5], s[6]);
        if lc == 0 {
            None
        } else if s.len() == 7 + lc {
            Some((s.subrange(7, 7 + lc), None))
        } else if s.len() == 10 + lc && s[7 + lc] == 0 {
            Some((s.subrange(7, 7 + lc), Some(ext_le(s[8 + lc], s[9 + lc]))))
        } else {
            None
        }
    }
}

/// What a command APDU on the wire decodes to: class, instruction, `p1`, `p2`,
/// its TLV objects and the Le value it asks for.
pub open spec fn spec_parse_capdu(s: Seq<u8>) -> Option<
    (u8, u8, u8, u8, Seq<(u8, Seq<u8>)>, Option<int>),
> {
    if s.len() < 4 {
        None
    } else {
        match spec_capdu_body(s) {
            Some((body, le)) => match spec_response_tlvs(body) {
                Some(ts) => Some((s[0], s[1], s[2], s[3], ts, le)),
                None => None,
            },
            None => None,
        }
    }
}

proof fn lemma_tlvs_bytes_cons(t: (u8, Seq<u8>), ts: Seq<(u8, Seq<u8>)>)
    ensures
        tlvs_bytes(seq![t] + ts) == tlv_bytes(t) + tlvs_bytes(ts),
    decreases ts.len(),
{
    let e = Seq::<(u8, Seq<u8>)>::empty();
    assert(tlv_sections(e) =~= Seq::<Seq<u8>>::empty());
    if ts.len() == 0 {
        assert(seq![t] + ts =~= e.push(t));
        lemma_tlvs_bytes_push(e, t);
        assert(tlvs_bytes(ts) =~= Seq::<u8>::empty());
        assert(tlv_bytes(t) + tlvs_bytes(ts) =~= tlv_bytes(t));
        assert(tlvs_bytes(e) + tlv_bytes(t) =~= tlv_bytes(t));
    } else {
        let init = ts.drop_last();
        lemma_tlvs_bytes_cons(t, init);
        assert(seq![t] + ts =~= (seq![t] + init).push(ts.last()));
        assert(ts =~= init.push(ts.last()));
        lemma_tlvs_bytes_push(seq![t] + init, ts.last());
        lemma_tlvs_bytes_push(init, ts.last());
        assert(tlv_bytes(t) + tlvs_bytes(init) + tlv_bytes(ts.last()) =~= tlv_bytes(t) + (
        tlvs_bytes(init) + tlv_bytes(ts.last())));
    }
}

proof fn lemma_parse_tlvs_bytes(ts: Seq<(u8, Seq<u8>)>)
    requires
        forall|i: int| 0 <= i < ts.len() ==> #[trigger] ts[i].1.len() <= MAX_TLV_DATA,
    ensures
        spec_parse_tlvs(tlvs_bytes(ts)) == Some(ts),
    decreases ts.len(),
{
    if ts.len() == 0 {
        assert(tlv_sections(ts) =~= Seq::<Seq<u8>>::empty());
        assert(tlvs_bytes(ts) =~= Seq::<u8>::empty());
        assert(ts =~= seq![]);
    } else {
        let t = ts[0];
        let rest = ts.drop_first();
        assert(ts =~= seq![t] + rest);
        lemma_tlvs_bytes_cons(t, rest);
        assert(forall|i: int| 0 <= i < rest.len() ==> #[trigger] rest[i] == ts[i + 1]);
        lemma_parse_tlvs_bytes(rest);
        let b = tlvs_bytes(ts);
        let rb = tlvs_bytes(rest);
        assert(t.1.len() <= MAX_TLV_DATA);
        lemma_tlv_round_trip(t.0, t.1, rb);
        let n = tlv_bytes(t).len();
        assert(b.subrange(n as int, b.len() as int) =~= rb);
        assert(seq![(t.0, t.1)] + rest =~= ts);
    }
}

/// Encoding a command and decoding its bytes gives back its header fields,
/// its TLV objects and the Le value that it asks for.
pub proof fn lemma_capdu_round_trip(
    cla: u8,
    ins: u8,
    p1: u8,
    p2: u8,
    ts: Seq<(u8, Seq<u8>)>,
    le: Option<usize>,
)
    requires
        tlvs_fit(ts),
        le_ok(le),
    ensures
        spec_parse_capdu(capdu_bytes(cla, ins, p1, p2, ts, le)) == Some(
            (cla, ins, p1, p2, ts, effective_le(le, is_extended(tlvs_bytes(ts).len(), le))),
        ),
{
    let body = tlvs_bytes(ts);
    let lc = body.len();
    let ext = is_extended(lc, le);
    let s = capdu_bytes(cla, ins, p1, p2, ts, le);
    lemma_parse_tlvs_bytes(ts);
    assert(spec_response_tlvs(body) == Some(ts));
    lemma_tlvs_len_lower(ts);
    if lc == 0 {
        assert(ts.len() == 0);
        assert(body =~= Seq::<u8>::empty());
        match le {
            None => {
                assert(s =~= seq![cla, ins, p1, p2]);
            },
            Some(n) => {
                if ext {
                    assert(s =~= seq![cla, ins, p1, p2, 0u8, ((n / 256) % 256) as u8, (n % 256) as u8]);
                    assert(be16(((n / 256) % 256) as u8, (n % 256) as u8) == n % 65536);
                } else {
                    assert(s =~= seq![cla, ins, p1, p2, (n % 256) as u8]);
                }
                assert(spec_capdu_body(s) == Some((Seq::<u8>::empty(), effective_le(le, ext))));
            },
        }
        assert(spec_capdu_body(s) == Some((body, effective_le(le, ext))));
    } else if !ext {
        assert(s.subrange(5, 5 + lc as int) =~= body);
        match le {
            None => {},
            Some(n) => {
                assert(s[5 + lc as int] == (n % 256) as u8);
            },
        }
        assert(spec_capdu_body(s) == Some((body, effective_le(le, ext))));
    } else {
        assert(s.subrange(7, 7 + lc as int) =~= body);
        assert(be16(s[5], s[6]) == lc);
        match le {
            None => {},
            Some(n) => {
                assert(s[7 + lc as int] == 0);
                assert(s[8 + lc as int] == ((n / 256) % 256) as u8);
                assert(s[9 + lc as int] == (n % 256) as u8);
                assert(be16(((n / 256) % 256) as u8, (n % 256) as u8) == n % 65536);
            },
        }
        assert(spec_capdu_body(s) == Some((body, effective_le(le, ext))));
    }
}

proof fn lemma_tlvs_len_lower(ts: Seq<(u8, Seq<u8>)>)
    ensures
        tlvs_bytes(ts).len() >= 2 * ts.len(),
    decreases ts.len(),
{
    if ts.len() == 0 {
    } else {
        lemma_tlvs_len_lower(ts.drop_last());
        assert(ts =~= ts.drop_last().push(ts.last()));
        lemma_tlvs_bytes_push(ts.drop_last(), ts.last());
    }
}

/// A command APDU read back from its bytes; its TLV objects borrow from them.
pub struct ParsedCApdu<'a> {
    pub cla: u8,
    pub ins: u8,
    pub p1: u8,
    pub p2: u8,
    pub tlvs: Vec<SimpleTlv<'a>>,
    /// The response length asked for, with 0 read as the largest length of
    /// its encoding.
    pub le: Option<usize>,
}

fn capdu_body<'a>(s: &'a [u8]) -> (r: Option<(&'a [u8], Option<usize>)>)
    requires
        s@.len() >= 4,
    ensures
        match (r, spec_capdu_body(s@)) {
            (Some((b, le)), Some((b2, le2))) => b@ == b2 && match le {
                None => le2 is None,
                Some(n) => le2 == Some(n as int),
            },
            (None, None) => true,
            _ => false,
        },
{
    let n = s.len();
    if n == 4 {
        let b = vstd::slice::slice_subrange(s, 4, 4);
        assert(b@ =~= Seq::<u8>::empty());
        Some((b, None))
    } else if n == 5 {
        let b = vstd::slice::slice_subrange(s, 5, 5);
        assert(b@ =~= Seq::<u8>::empty());
        let le: usize = if s[4] == 0 {
            256
        } else {
            s[4] as usize
        };
        Some((b, Some(le)))
    } else if s[4] != 0 {
        let lc = s[4] as usize;
        if n == 5 + lc {
            Some((vstd::slice::slice_subrange(s, 5, 5 + lc), None))
        } else if n == 6 + lc {
            let b = s[5 + lc];
            let le: usize = if b == 0 {
                256
            } else {
                b as usize
            };
            Some((vstd::slice::slice_subrange(s, 5, 5 + lc), Some(le)))
        } else {
            None
        }
    } else if n == 7 {
        let b = vstd::slice::slice_subrange(s, 7, 7);
        assert(b@ =~= Seq::<u8>::empty());
        let v = s[5] as usize * 256 + s[6] as usize;
        let le: usize = if v == 0 {
            65536
        } else {
            v
        };
        Some((b, Some(le)))
    } else if n < 7 {
        None
    } else {
        let lc = s[5] as usize * 256 + s[6] as usize;
        if lc == 0 {
            None
        } else if n == 7 + lc {
            Some((vstd::slice::slice_subrange(s, 7, 7 + lc), None))
        } else if n == 10 + lc && s[7 + lc] == 0 {
            let v = s[8 + lc] as usize * 256 + s[9 + lc] as usize;
            let le: usize = if v == 0 {
                65536
            } else {
                v
            };
            Some((vstd::slice::slice_subrange(s, 7, 7 + lc), Some(le)))
        } else {
            None
        }
    }
}

/// Decodes a command APDU: header, Lc, TLV payload and Le.
pub fn parse_capdu<'a>(s: &'a [u8]) -> (r: Option<ParsedCApdu<'a>>)
    ensures
        match (r, spec_parse_capdu(s@)) {
            (Some(p), Some((cla, ins, p1, p2, ts, le))) => {
                &&& p.cla == cla && p.ins == ins && p.p1 == p1 && p.p2 == p2
                &&& tlvs_of(p.tlvs@) == ts
                &&& match p.le {
                    None => le is None,
                    Some(n) => le == Some(n as int),
                }
            },
            (None, None) => true,
            _ => false,
        },
{
    if s.len() < 4 {
        return None;
    }
    let (body, le) = capdu_body(s)?;
    match parse_tlvs(body) {
        Ok(tlvs) => Some(ParsedCApdu { cla: s[0], ins: s[1], p1: s[2], p2: s[3], tlvs, le }),
        Err(_) => None,
    }
}

} // verus!
