use vstd::prelude::*;
use crate::apdu::{
    build_command, capdu_bytes, le_ok, lemma_tlvs_bytes_push, tlv_bytes, tlv_sections,
    tlvs_bytes, tlvs_fit, tlvs_of, CApdu, SimpleTlv, MAX_TLV_DATA,
};
use crate::consts::{
    Se050ApduInstruction, Se050ApduP1CredType, Se050ApduP1KeyType, Se050ApduP2, Se050TlvTag,
    APDU_INSTRUCTION_TRANSIENT,
};

verus! {

proof fn lemma_transient_ins()
    ensures
        0x01u8 | 0x80u8 == 0x81u8,
        0x04u8 | 0x80u8 == 0x84u8,
        0x05u8 | 0x80u8 == 0x85u8,
{
    assert(0x01u8 | 0x80u8 == 0x81u8) by (bit_vector);
    assert(0x04u8 | 0x80u8 == 0x84u8) by (bit_vector);
    assert(0x05u8 | 0x80u8 == 0x85u8) by (bit_vector);
}

proof fn lemma_tlv_len(t: (u8, Seq<u8>))
    ensures
        t.1.len() + 2 <= tlv_bytes(t).len() <= t.1.len() + 4,
{
}

proof fn lemma_tlvs_empty()
    ensures
        tlvs_bytes(Seq::<(u8, Seq<u8>)>::empty()) == Seq::<u8>::empty(),
{
    assert(tlv_sections(Seq::<(u8, Seq<u8>)>::empty()) =~= Seq::<Seq<u8>>::empty());
}

fn tlv_list1<'a>(t1: u8, d1: &'a [u8]) -> (r: Vec<SimpleTlv<'a>>)
    requires
        d1@.len() + 4 <= MAX_TLV_DATA,
    ensures
        tlvs_of(r@) == seq![(t1, d1@)],
        tlvs_fit(tlvs_of(r@)),
        forall|i: int| 0 <= i < r@.len() ==> (#[trigger] r@[i]).wf(),
{
    let r = vec![SimpleTlv::new(t1, d1)];
    proof {
        let e = Seq::<(u8, Seq<u8>)>::empty();
        lemma_tlvs_empty();
        lemma_tlvs_bytes_push(e, (t1, d1@));
        lemma_tlv_len((t1, d1@));
        assert(e.push((t1, d1@)) =~= seq![(t1, d1@)]);
        assert(tlvs_of(r@) =~= seq![(t1, d1@)]);
    }
    r
}

fn tlv_list2<'a>(t1: u8, d1: &'a [u8], t2: u8, d2: &'a [u8]) -> (r: Vec<SimpleTlv<'a>>)
    requires
        d1@.len() + d2@.len() + 8 <= MAX_TLV_DATA,
    ensures
        tlvs_of(r@) == seq![(t1, d1@), (t2, d2@)],
        tlvs_fit(tlvs_of(r@)),
        forall|i: int| 0 <= i < r@.len() ==> (#[trigger] r@[i]).wf(),
{
    let r = vec![SimpleTlv::new(t1, d1), SimpleTlv::new(t2, d2)];
    proof {
        let e = Seq::<(u8, Seq<u8>)>::empty();
        lemma_tlvs_empty();
        lemma_tlvs_bytes_push(e, (t1, d1@));
        lemma_tlvs_bytes_push(e.push((t1, d1@)), (t2, d2@));
        lemma_tlv_len((t1, d1@));
        lemma_tlv_len((t2, d2@));
        assert(e.push((t1, d1@)).push((t2, d2@)) =~= seq![(t1, d1@), (t2, d2@)]);
        assert(tlvs_of(r@) =~= seq![(t1, d1@), (t2, d2@)]);
    }
    r
}

fn tlv_list3<'a>(t1: u8, d1: &'a [u8], t2: u8, d2: &'a [u8], t3: u8, d3: &'a [u8]) -> (r: Vec<
    SimpleTlv<'a>,
>)
    requires
        d1@.len() + d2@.len() + d3@.len() + 12 <= MAX_TLV_DATA,
    ensures
        tlvs_of(r@) == seq![(t1, d1@), (t2, d2@), (t3, d3@)],
        tlvs_fit(tlvs_of(r@)),
        forall|i: int| 0 <= i < r@.len() ==> (#[trigger] r@[i]).wf(),
{
    let r = vec![SimpleTlv::new(t1, d1), SimpleTlv::new(t2, d2), SimpleTlv::new(t3, d3)];
    proof {
        let e = Seq::<(u8, Seq<u8>)>::empty();
        lemma_tlvs_empty();
        lemma_tlvs_bytes_push(e, (t1, d1@));
        lemma_tlvs_bytes_push(e.push((t1, d1@)), (t2, d2@));
        lemma_tlvs_bytes_push(e.push((t1, d1@)).push((t2, d2@)), (t3, d3@));
        lemma_tlv_len((t1, d1@));
        lemma_tlv_len((t2, d2@));
        lemma_tlv_len((t3, d3@));
        assert(e.push((t1, d1@)).push((t2, d2@)).push((t3, d3@)) =~= seq![
            (t1, d1@),
            (t2, d2@),
            (t3, d3@),
        ]);
        assert(tlvs_of(r@) =~= seq![(t1, d1@), (t2, d2@), (t3, d3@)]);
    }
    r
}

/// A management command with one TAG_1 object: CreateSession,
/// ExchangeSessionData, VerifySessionUserID, SetAppletFeatures (`p2` selects
/// which).
pub fn session_command<'a>(p2: Se050ApduP2, data: &'a [u8], le: Option<usize>) -> (r: CApdu<'a>)
    requires
        data@.len() + 4 <= MAX_TLV_DATA,
        le_ok(le),
    ensures
        r.wf(),
        le_ok(r.le),
        r.spec_bytes() == capdu_bytes(0x80, 0x84, 0x00, p2.spec_value(), seq![(0x41u8, data@)], le),
{
    proof {
        lemma_transient_ins();
    }
    let tlvs = tlv_list1(Se050TlvTag::Tag1.value(), data);
    build_command(
        Se050ApduInstruction::Mgmt.value() | APDU_INSTRUCTION_TRANSIENT,
        Se050ApduP1CredType::Default.value(),
        p2.value(),
        tlvs,
        le,
    )
}

/// ProcessSessionCmd: the wrapped command in TAG_1, the session id in a
/// SessionID object.
pub fn process_session_command<'a>(apdu: &'a [u8], session_id: &'a [u8]) -> (r: CApdu<'a>)
    requires
        apdu@.len() + session_id@.len() + 8 <= MAX_TLV_DATA,
    ensures
        r.wf(),
        le_ok(r.le),
        r.spec_bytes() == capdu_bytes(
            0x80,
            0x85,
            0x00,
            0x00,
            seq![(0x41u8, apdu@), (0x10u8, session_id@)],
            Some(0usize),
        ),
{
    proof {
        lemma_transient_ins();
    }
    let tlvs = tlv_list2(
        Se050TlvTag::Tag1.value(),
        apdu,
        Se050TlvTag::SessionID.value(),
        session_id,
    );
    build_command(
        Se050ApduInstruction::Process.value() | APDU_INSTRUCTION_TRANSIENT,
        Se050ApduP1CredType::Default.value(),
        Se050ApduP2::Default.value(),
        tlvs,
        Some(0),
    )
}

/// RefreshSession: the new policy in a Policy object.
pub fn refresh_session_command<'a>(policy: &'a [u8]) -> (r: CApdu<'a>)
    requires
        policy@.len() + 4 <= MAX_TLV_DATA,
    ensures
        r.wf(),
        le_ok(r.le),
        r.spec_bytes() == capdu_bytes(0x80, 0x84, 0x00, 0x1e, seq![(0x11u8, policy@)], None),
{
    proof {
        lemma_transient_ins();
    }
    let tlvs = tlv_list1(Se050TlvTag::Policy.value(), policy);
    build_command(
        Se050ApduInstruction::Mgmt.value() | APDU_INSTRUCTION_TRANSIENT,
        Se050ApduP1CredType::Default.value(),
        Se050ApduP2::SessionRefresh.value(),
        tlvs,
        None,
    )
}

/// CloseSession: no payload.
pub fn close_session_command<'a>() -> (r: CApdu<'a>)
    ensures
        r.wf(),
        le_ok(r.le),
        r.spec_bytes() == capdu_bytes(0x80, 0x84, 0x00, 0x1c, seq![], None),
{
    proof {
        lemma_transient_ins();
    }
    let r = CApdu::new(
        crate::apdu::ApduClass::ProprietaryPlain,
        Se050ApduInstruction::Mgmt.value() | APDU_INSTRUCTION_TRANSIENT,
        Se050ApduP1CredType::Default.value(),
        Se050ApduP2::SessionClose.value(),
        None,
    );
    r
}

/// WriteSecureObject with an object id in TAG_1 and a value under `tag`:
/// EC key pair generation (`p1` EC | KeyPair, curve under TAG_2), symmetric
/// keys (`p1` AES, DES or HMAC, key under TAG_3), user ids (`p1` UserID, value
/// under TAG_2).
pub fn write_object_command<'a>(
    p1: u8,
    object_id: &'a [u8],
    tag: Se050TlvTag,
    value: &'a [u8],
    le: Option<usize>,
) -> (r: CApdu<'a>)
    requires
        object_id@.len() + value@.len() + 8 <= MAX_TLV_DATA,
        le_ok(le),
    ensures
        r.wf(),
        le_ok(r.le),
        r.spec_bytes() == capdu_bytes(
            0x80,
            0x81,
            p1,
            0x00,
            seq![(0x41u8, object_id@), (tag.spec_value(), value@)],
            le,
        ),
{
    proof {
        lemma_transient_ins();
    }
    let tlvs = tlv_list2(Se050TlvTag::Tag1.value(), object_id, tag.value(), value);
    build_command(
        Se050ApduInstruction::Write.value() | APDU_INSTRUCTION_TRANSIENT,
        p1,
        Se050ApduP2::Default.value(),
        tlvs,
        le,
    )
}

/// The `p1` byte of an EC key pair: the EC credential type with the KeyPair bits.
pub fn ec_key_pair_p1() -> (r: u8)
    ensures
        r == 0x61,
{
    let r = Se050ApduP1CredType::EC.value() | Se050ApduP1KeyType::KeyPair.value();
    assert(0x01u8 | 0x60u8 == 0x61u8) by (bit_vector);
    r
}

/// CipherOneShot: key id in TAG_1, cipher mode in TAG_2, data in TAG_3; `p2`
/// chooses encryption or decryption.
pub fn cipher_oneshot_command<'a>(
    p2: Se050ApduP2,
    key_id: &'a [u8],
    mode: &'a [u8],
    data: &'a [u8],
) -> (r: CApdu<'a>)
    requires
        key_id@.len() + mode@.len() + data@.len() + 12 <= MAX_TLV_DATA,
    ensures
        r.wf(),
        le_ok(r.le),
        r.spec_bytes() == capdu_bytes(
            0x80,
            0x03,
            0x0e,
            p2.spec_value(),
            seq![(0x41u8, key_id@), (0x42u8, mode@), (0x43u8, data@)],
            Some(0usize),
        ),
{
    let tlvs = tlv_list3(
        Se050TlvTag::Tag1.value(),
        key_id,
        Se050TlvTag::Tag2.value(),
        mode,
        Se050TlvTag::Tag3.value(),
        data,
    );
    build_command(
        Se050ApduInstruction::Crypto.value(),
        Se050ApduP1CredType::Cipher.value(),
        p2.value(),
        tlvs,
        Some(0),
    )
}

/// GetRandom: the number of bytes wanted, two bytes big-endian, in TAG_1.
pub fn get_random_command<'a>(len_be: &'a [u8]) -> (r: CApdu<'a>)
    requires
        len_be@.len() == 2,
    ensures
        r.wf(),
        le_ok(r.le),
        r.spec_bytes() == capdu_bytes(0x80, 0x04, 0x00, 0x49, seq![(0x41u8, len_be@)], Some(0usize)),
{
    let tlvs = tlv_list1(Se050TlvTag::Tag1.value(), len_be);
    build_command(
        Se050ApduInstruction::Mgmt.value(),
        Se050ApduP1CredType::Default.value(),
        Se050ApduP2::Random.value(),
        tlvs,
        Some(0),
    )
}

} // verus!
