use vstd::prelude::*;
use crate::apdu::{
    build_command, response_sw, spec_response_tlvs, tlvs_fit, tlvs_of, CApdu, RApdu, RawRApdu,
    SimpleTlv, MAX_TLV_DATA,
};
use crate::atr::AnswerToReset;
use crate::block::T1Error;
use crate::bytes::{be16, read_be_u16, read_be_u24, write_be_u16};
use crate::commands::{
    cipher_oneshot_command, close_session_command, ec_key_pair_p1, get_random_command,
    process_session_command, refresh_session_command, session_command, write_object_command,
};
use crate::consts::{
    Se050ECCurveconstants, Se050ApduInstruction, Se050ApduP1CredType, Se050ApduP1KeyType, Se050ApduP2, Se050TlvTag,
    APDU_INSTRUCTION_TRANSIENT,
};

verus! {

/// Status word of a successful command.
pub const SW_NO_ERROR: u16 = 0x9000;

/// Size of the buffer that takes a response with a data field.
pub const RESPONSE_BUF_SIZE: usize = 260;

/// Size of the buffer that takes a response with no data field of interest.
pub const STATUS_BUF_SIZE: usize = 16;

/// Largest payload of a one-shot cipher command.
pub const MAX_CIPHER_DATA: usize = 240;

#[derive(Debug, PartialEq, Eq, Structural)]
pub enum Se050Error {
    UnknownError,
    T1Error(T1Error),
}

/// Handle of a secure object on the card.
#[derive(Clone, Copy, Debug, PartialEq, Eq)]
pub struct ObjectId(pub [u8; 4]);

/// What the SE050 applet reports when it is selected.
#[derive(Debug)]
pub struct Se050AppInfo {
    pub applet_version: u32,
    pub features: u16,
    pub securebox_version: u16,
}

/// Identifier of the SE050 applet.
pub open spec fn applet_aid() -> Seq<u8> {
    seq![
        0xa0u8, 0x00u8, 0x00u8, 0x03u8, 0x96u8, 0x54u8, 0x53u8, 0x00u8, 0x00u8, 0x00u8, 0x01u8,
        0x03u8, 0x00u8, 0x00u8, 0x00u8, 0x00u8,
    ]
}

/// The GlobalPlatform SELECT of the SE050 applet: class 0x00, SELECT FILE by
/// name, the 16-byte AID, Le = 0.
pub fn select_applet_apdu() -> (r: Vec<u8>)
    ensures
        r@ == seq![0x00u8, 0xa4u8, 0x04u8, 0x00u8, 16u8] + applet_aid() + seq![0x00u8],
{
    let r = vec![
        0x00u8, 0xa4, 0x04, 0x00, 16, 0xa0, 0x00, 0x00, 0x03, 0x96, 0x54, 0x53, 0x00, 0x00,
        0x00, 0x01, 0x03, 0x00, 0x00, 0x00, 0x00, 0x00,
    ];
    assert(r@ =~= seq![0x00u8, 0xa4u8, 0x04u8, 0x00u8, 16u8] + applet_aid() + seq![0x00u8]);
    r
}

impl Se050AppInfo {
    /// Reads the answer to the applet SELECT: seven data bytes (applet
    /// version, three bytes; features, two; securebox version, two; all
    /// big-endian) and status word 0x9000.
    pub fn from_select_response(data: &[u8], sw: u16) -> (r: Result<Se050AppInfo, Se050Error>)
        ensures
            r is Ok <==> sw == SW_NO_ERROR && data@.len() == 7,
            r matches Err(e) ==> e == Se050Error::UnknownError,
            r matches Ok(info) ==> {
                &&& info.applet_version as int == data@[0] as int * 65536 + data@[1] as int * 256
                    + data@[2] as int
                &&& info.features as int == be16(data@[3], data@[4])
                &&& info.securebox_version as int == be16(data@[5], data@[6])
            },
    {
        if sw != SW_NO_ERROR || data.len() != 7 {
            return Err(Se050Error::UnknownError);
        }
        Ok(Se050AppInfo {
            applet_version: read_be_u24(vstd::slice::slice_subrange(data, 0, 3)) as u32,
            features: read_be_u16(vstd::slice::slice_subrange(data, 3, 5)),
            securebox_version: read_be_u16(vstd::slice::slice_subrange(data, 5, 7)),
        })
    }
}

/// A response that parses into TLV objects and ends in status word 0x9000.
pub open spec fn response_ok(resp: Seq<u8>) -> bool {
    &&& resp.len() >= 2
    &&& spec_response_tlvs(resp.subrange(0, resp.len() - 2)) is Some
    &&& response_sw(resp) == SW_NO_ERROR
}

/// The TLV objects of a response that parses.
pub open spec fn response_tlvs(resp: Seq<u8>) -> Seq<(u8, Seq<u8>)> {
    match spec_response_tlvs(resp.subrange(0, resp.len() - 2)) {
        Some(ts) => ts,
        None => seq![],
    }
}

/// `i` is the first position in `ts` that holds an object with `tag`.
pub open spec fn first_with_tag(ts: Seq<(u8, Seq<u8>)>, i: int, tag: u8) -> bool {
    &&& 0 <= i < ts.len()
    &&& ts[i].0 == tag
    &&& forall|j: int| 0 <= j < i ==> #[trigger] ts[j].0 != tag
}

/// Checks the answer to a command: it must parse and end in 0x9000.
pub fn check_response(resp: &[u8]) -> (r: Result<(), Se050Error>)
    ensures
        r is Ok <==> response_ok(resp@),
        r matches Err(e) ==> e == Se050Error::UnknownError,
{
    match RApdu::parse(resp) {
        Ok(rapdu) => if rapdu.sw == SW_NO_ERROR {
            Ok(())
        } else {
            Err(Se050Error::UnknownError)
        },
        Err(_) => Err(Se050Error::UnknownError),
    }
}

/// Copies the payload of the first TAG_1 object of a successful response into
/// `out`, which it must fill exactly.
pub fn take_tag1_output(resp: &[u8], out: &mut [u8]) -> (r: Result<(), Se050Error>)
    ensures
        final(out)@.len() == old(out)@.len(),
        r is Ok <==> response_ok(resp@) && exists|i: int|
            first_with_tag(response_tlvs(resp@), i, 0x41) && response_tlvs(resp@)[i].1.len()
                == old(out)@.len(),
        r is Ok ==> exists|i: int|
            first_with_tag(response_tlvs(resp@), i, 0x41) && final(out)@ == response_tlvs(
                resp@,
            )[i].1,
        r matches Err(e) ==> e == Se050Error::UnknownError && final(out)@ == old(out)@,
{
    let rapdu = match RApdu::parse(resp) {
        Ok(x) => x,
        Err(_) => {
            return Err(Se050Error::UnknownError);
        },
    };
    if rapdu.sw != SW_NO_ERROR {
        return Err(Se050Error::UnknownError);
    }
    let ghost ts = response_tlvs(resp@);
    assert(ts == tlvs_of(rapdu.tlvs@));
    let tag = Se050TlvTag::Tag1.value();
    let t = match rapdu.get_tlv(tag) {
        Some(t) => t,
        None => {
            assert forall|i: int| !first_with_tag(ts, i, 0x41) by {
                if 0 <= i < ts.len() {
                    assert(ts[i] == rapdu.tlvs@[i]@);
                }
            }
            return Err(Se050Error::UnknownError);
        },
    };
    let ghost k = choose|i: int|
        0 <= i < rapdu.tlvs@.len() && rapdu.tlvs@[i] == *t && t@.0 == tag && forall|j: int|
            0 <= j < i ==> (#[trigger] rapdu.tlvs@[j])@.0 != tag;
    assert(first_with_tag(ts, k, 0x41)) by {
        assert(ts[k] == rapdu.tlvs@[k]@);
        assert forall|j: int| 0 <= j < k implies #[trigger] ts[j].0 != 0x41 by {
            assert(ts[j] == rapdu.tlvs@[j]@);
        }
    }
    assert forall|i: int| first_with_tag(ts, i, 0x41) implies i == k by {
        if i < k {
            assert(ts[i] == rapdu.tlvs@[i]@);
        }
    }
    let d = t.get_data();
    if d.len() != out.len() {
        return Err(Se050Error::UnknownError);
    }
    let n = d.len();
    let mut j: usize = 0;
    while j < n
        invariant
            n == d@.len(),
            n == out@.len(),
            j <= n,
            forall|m: int| 0 <= m < j ==> #[trigger] out@[m] == d@[m],
        decreases n - j,
    {
        out[j] = d[j];
        j += 1;
    }
    assert(out@ =~= d@);
    Ok(())
}

/// The transport that carries APDUs to the card and back.
pub trait T1Proto {
    /// Sends a command APDU.
    fn send_apdu(&mut self, apdu: &CApdu) -> Result<(), T1Error>;

    /// Sends a command APDU given as bytes.
    fn send_apdu_raw(&mut self, apdu: &[u8]) -> Result<(), T1Error>;

    /// Receives a response APDU into `buf`; returns how many bytes of it the
    /// response takes, status word included.
    fn receive_apdu_raw(&mut self, buf: &mut [u8]) -> Result<usize, T1Error>;

    /// Resets the interface and returns the card's ATR.
    fn interface_soft_reset(&mut self) -> Result<AnswerToReset, T1Error>;
}

/// The SE050 secure element behind a T=1 transport.
pub struct Se050<T: T1Proto> {
    pub t1_proto: T,
    pub atr_info: Option<AnswerToReset>,
    pub app_info: Option<Se050AppInfo>,
}

impl<T: T1Proto> Se050<T> {
    pub fn new(t1: T) -> (r: Se050<T>)
        ensures
            r.t1_proto == t1,
            r.atr_info is None,
            r.app_info is None,
    {
        Se050 { t1_proto: t1, atr_info: None, app_info: None }
    }

    /// Sends a command and reads the response into `buf`; returns its length.
    fn transceive(&mut self, capdu: &CApdu, buf: &mut Vec<u8>) -> (r: Result<usize, Se050Error>)
        ensures
            r matches Err(e) ==> e == Se050Error::UnknownError,
            r matches Ok(n) ==> n <= final(buf)@.len(),
    {
        match self.t1_proto.send_apdu(capdu) {
            Ok(()) => {},
            Err(_) => {
                return Err(Se050Error::UnknownError);
            },
        }
        let n = match self.t1_proto.receive_apdu_raw(buf.as_mut_slice()) {
            Ok(n) => n,
            Err(_) => {
                return Err(Se050Error::UnknownError);
            },
        };
        if n > buf.len() {
            return Err(Se050Error::UnknownError);
        }
        Ok(n)
    }

    /// Runs a command whose response carries nothing but its status.
    fn run_command(&mut self, capdu: &CApdu) -> (r: Result<(), Se050Error>)
        ensures
            r matches Err(e) ==> e == Se050Error::UnknownError,
    {
        let mut buf: Vec<u8> = vec![0u8; STATUS_BUF_SIZE];
        let n = self.transceive(capdu, &mut buf)?;
        check_response(vstd::slice::slice_subrange(buf.as_slice(), 0, n))
    }

    /// Runs a command whose response carries its output in a TAG_1 object.
    fn run_output_command(&mut self, capdu: &CApdu, out: &mut [u8]) -> (r: Result<(), Se050Error>)
        ensures
            final(out)@.len() == old(out)@.len(),
            r matches Err(e) ==> e == Se050Error::UnknownError,
            r is Err ==> final(out)@ == old(out)@,
    {
        let mut buf: Vec<u8> = vec![0u8; RESPONSE_BUF_SIZE];
        let n = self.transceive(capdu, &mut buf)?;
        take_tag1_output(vstd::slice::slice_subrange(buf.as_slice(), 0, n), out)
    }

    /// Interface soft reset, then SELECT of the applet; keeps the ATR and the
    /// applet information.
    pub fn enable(&mut self) -> (r: Result<(), Se050Error>)
        ensures
            r is Ok ==> final(self).atr_info is Some && final(self).app_info is Some,
            r matches Err(e) ==> e == Se050Error::UnknownError,
            r is Err ==> final(self).app_info == old(self).app_info,
    {
        let atr = match self.t1_proto.interface_soft_reset() {
            Ok(a) => a,
            Err(_) => {
                return Err(Se050Error::UnknownError);
            },
        };
        self.atr_info = Some(atr);
        let select = select_applet_apdu();
        match self.t1_proto.send_apdu_raw(select.as_slice()) {
            Ok(()) => {},
            Err(_) => {
                return Err(Se050Error::UnknownError);
            },
        }
        let mut buf: Vec<u8> = vec![0u8; 11];
        let n = match self.t1_proto.receive_apdu_raw(buf.as_mut_slice()) {
            Ok(n) => n,
            Err(_) => {
                return Err(Se050Error::UnknownError);
            },
        };
        if n > buf.len() {
            return Err(Se050Error::UnknownError);
        }
        let raw = match RawRApdu::from_response(vstd::slice::slice_subrange(buf.as_slice(), 0, n)) {
            Ok(x) => x,
            Err(_) => {
                return Err(Se050Error::UnknownError);
            },
        };
        let info = Se050AppInfo::from_select_response(raw.data, raw.sw)?;
        self.app_info = Some(info);
        Ok(())
    }

    /// Nothing to shut down on the host side.
    pub fn disable(&mut self) {
    }

    /// SetAppletFeatures: the applet configuration in TAG_1.
    #[allow(non_snake_case)]
    pub fn SetAppletFeatures(&mut self, AppletConfig: &[u8]) -> (r: Result<(), Se050Error>)
        requires
            AppletConfig@.len() + 4 <= MAX_TLV_DATA,
        ensures
            r matches Err(e) ==> e == Se050Error::UnknownError,
    {
        let capdu = session_command(Se050ApduP2::Default, AppletConfig, None);
        self.run_command(&capdu)
    }

    /// CreateSession with the authentication object `authobjid`.
    #[allow(non_snake_case)]
    pub fn CreateSession(&mut self, authobjid: &[u8]) -> (r: Result<(), Se050Error>)
        requires
            authobjid@.len() + 4 <= MAX_TLV_DATA,
        ensures
            r matches Err(e) ==> e == Se050Error::UnknownError,
    {
        let capdu = session_command(Se050ApduP2::SessionCreate, authobjid, Some(12));
        self.run_command(&capdu)
    }

    /// ExchangeSessionData: sets the policies of the current session.
    #[allow(non_snake_case)]
    pub fn ExchangeSessionData(&mut self, SessionPolicies: &[u8]) -> (r: Result<(), Se050Error>)
        requires
            SessionPolicies@.len() + 4 <= MAX_TLV_DATA,
        ensures
            r matches Err(e) ==> e == Se050Error::UnknownError,
    {
        let capdu = session_command(Se050ApduP2::SessionPolicy, SessionPolicies, Some(0));
        self.run_command(&capdu)
    }

    /// ProcessSessionCmd: runs `APDUcommand` inside session `SessionID`.
    #[allow(non_snake_case)]
    pub fn ProcessSessionCmd(&mut self, APDUcommand: &[u8], SessionID: &[u8]) -> (r: Result<
        (),
        Se050Error,
    >)
        requires
            APDUcommand@.len() + SessionID@.len() + 8 <= MAX_TLV_DATA,
        ensures
            r matches Err(e) ==> e == Se050Error::UnknownError,
    {
        let capdu = process_session_command(APDUcommand, SessionID);
        self.run_command(&capdu)
    }

    /// RefreshSession with a new policy.
    #[allow(non_snake_case)]
    pub fn RefreshSession(&mut self, Policy: &[u8]) -> (r: Result<(), Se050Error>)
        requires
            Policy@.len() + 4 <= MAX_TLV_DATA,
        ensures
            r matches Err(e) ==> e == Se050Error::UnknownError,
    {
        let capdu = refresh_session_command(Policy);
        self.run_command(&capdu)
    }

    /// CloseSession of the running session.
    #[allow(non_snake_case)]
    pub fn CloseSession(&mut self) -> (r: Result<(), Se050Error>)
        ensures
            r matches Err(e) ==> e == Se050Error::UnknownError,
    {
        let capdu = close_session_command();
        self.run_command(&capdu)
    }

    /// VerifySessionUserID with the user id value.
    #[allow(non_snake_case)]
    pub fn VerifySessionUserID(&mut self, UserIDvalue: &[u8]) -> (r: Result<(), Se050Error>)
        requires
            UserIDvalue@.len() + 4 <= MAX_TLV_DATA,
        ensures
            r matches Err(e) ==> e == Se050Error::UnknownError,
    {
        let capdu = session_command(Se050ApduP2::SessionUserID, UserIDvalue, None);
        self.run_command(&capdu)
    }

    /// Generates an EC key pair on the given curve under object id
    /// 0xae51ae51.
    #[allow(non_snake_case)]
    pub fn generate_ECCURVE_key(&mut self, ECCurve: &[u8]) -> (r: Result<ObjectId, Se050Error>)
        requires
            ECCurve@.len() + 12 <= MAX_TLV_DATA,
        ensures
            r matches Err(e) ==> e == Se050Error::UnknownError,
            r matches Ok(id) ==> id.0@ == seq![0xaeu8, 0x51u8, 0xaeu8, 0x51u8],
    {
        let oid: [u8; 4] = [0xae, 0x51, 0xae, 0x51];
        let capdu = write_object_command(
            ec_key_pair_p1(),
            oid.as_slice(),
            Se050TlvTag::Tag2,
            ECCurve,
            None,
        );
        self.run_command(&capdu)?;
        assert(oid@ =~= seq![0xaeu8, 0x51u8, 0xaeu8, 0x51u8]);
        Ok(ObjectId(oid))
    }

    /// Generates a NIST P-256 key pair under object id 0xae51ae51.
    pub fn generate_p256_key(&mut self) -> (r: Result<ObjectId, Se050Error>)
        ensures
            r matches Err(e) ==> e == Se050Error::UnknownError,
            r matches Ok(id) ==> id.0@ == seq![0xaeu8, 0x51u8, 0xaeu8, 0x51u8],
    {
        let curve: [u8; 1] = [Se050ECCurveconstants::NIST_P256.value()];
        self.generate_ECCURVE_key(curve.as_slice())
    }

    /// Writes a 16-byte symmetric key of the given kind under object id
    /// 0xae50ae50.
    fn write_symm_key(&mut self, kind: Se050ApduP1CredType, key: &[u8]) -> (r: Result<
        (),
        Se050Error,
    >)
        requires
            key@.len() == 16,
        ensures
            r matches Err(e) ==> e == Se050Error::UnknownError,
    {
        let oid: [u8; 4] = [0xae, 0x50, 0xae, 0x50];
        let capdu = write_object_command(
            kind.value(),
            oid.as_slice(),
            Se050TlvTag::Tag3,
            key,
            Some(0),
        );
        self.run_command(&capdu)
    }

    pub fn write_aes_key(&mut self, key: &[u8]) -> (r: Result<(), Se050Error>)
        requires
            key@.len() == 16,
        ensures
            r matches Err(e) ==> e == Se050Error::UnknownError,
    {
        self.write_symm_key(Se050ApduP1CredType::AES, key)
    }

    pub fn write_des_key(&mut self, key: &[u8]) -> (r: Result<(), Se050Error>)
        requires
            key@.len() == 16,
        ensures
            r matches Err(e) ==> e == Se050Error::UnknownError,
    {
        self.write_symm_key(Se050ApduP1CredType::DES, key)
    }

    pub fn write_hmac_key(&mut self, key: &[u8]) -> (r: Result<(), Se050Error>)
        requires
            key@.len() == 16,
        ensures
            r matches Err(e) ==> e == Se050Error::UnknownError,
    {
        self.write_symm_key(Se050ApduP1CredType::HMAC, key)
    }

    /// Creates a user id object 0xae51ae51 with the given value.
    #[allow(non_snake_case)]
    pub fn WriteUserID(&mut self, UserIdentifierValue: &[u8]) -> (r: Result<ObjectId, Se050Error>)
        requires
            UserIdentifierValue@.len() + 12 <= MAX_TLV_DATA,
        ensures
            r matches Err(e) ==> e == Se050Error::UnknownError,
            r matches Ok(id) ==> id.0@ == seq![0xaeu8, 0x51u8, 0xaeu8, 0x51u8],
    {
        let oid: [u8; 4] = [0xae, 0x51, 0xae, 0x51];
        let capdu = write_object_command(
            Se050ApduP1CredType::UserID.value(),
            oid.as_slice(),
            Se050TlvTag::Tag2,
            UserIdentifierValue,
            None,
        );
        self.run_command(&capdu)?;
        assert(oid@ =~= seq![0xaeu8, 0x51u8, 0xaeu8, 0x51u8]);
        Ok(ObjectId(oid))
    }

    /// One-shot cipher with key 0xae50ae50: `data` must be a whole number of
    /// 16-byte blocks, at most 240 bytes, and `out` as long as `data`.
    fn cipher_oneshot(&mut self, p2: Se050ApduP2, mode: &[u8], data: &[u8], out: &mut [u8]) -> (r:
        Result<(), Se050Error>)
        requires
            mode@.len() + data@.len() + 16 <= MAX_TLV_DATA,
        ensures
            final(out)@.len() == old(out)@.len(),
            (data@.len() > MAX_CIPHER_DATA || data@.len() % 16 != 0 || old(out)@.len()
                != data@.len()) ==> r == Err::<(), Se050Error>(Se050Error::UnknownError)
                && final(out)@ == old(out)@,
            r matches Err(e) ==> e == Se050Error::UnknownError,
            r is Err ==> final(out)@ == old(out)@,
    {
        if data.len() > MAX_CIPHER_DATA || data.len() % 16 != 0 {
            return Err(Se050Error::UnknownError);
        }
        if out.len() != data.len() {
            return Err(Se050Error::UnknownError);
        }
        let oid: [u8; 4] = [0xae, 0x50, 0xae, 0x50];
        let capdu = cipher_oneshot_command(p2, oid.as_slice(), mode, data);
        self.run_output_command(&capdu, out)
    }

    pub fn encrypt_aes_oneshot(&mut self, CipherMode: &[u8], data: &[u8], enc: &mut [u8]) -> (r:
        Result<(), Se050Error>)
        requires
            CipherMode@.len() + data@.len() + 16 <= MAX_TLV_DATA,
        ensures
            final(enc)@.len() == old(enc)@.len(),
            (data@.len() > MAX_CIPHER_DATA || data@.len() % 16 != 0 || old(enc)@.len()
                != data@.len()) ==> r == Err::<(), Se050Error>(Se050Error::UnknownError),
            r matches Err(e) ==> e == Se050Error::UnknownError,
            r is Err ==> final(enc)@ == old(enc)@,
    {
        self.cipher_oneshot(Se050ApduP2::EncryptOneshot, CipherMode, data, enc)
    }

    pub fn decrypt_aes_oneshot(&mut self, CipherMode: &[u8], data: &[u8], enc: &mut [u8]) -> (r:
        Result<(), Se050Error>)
        requires
            CipherMode@.len() + data@.len() + 16 <= MAX_TLV_DATA,
        ensures
            final(enc)@.len() == old(enc)@.len(),
            (data@.len() > MAX_CIPHER_DATA || data@.len() % 16 != 0 || old(enc)@.len()
                != data@.len()) ==> r == Err::<(), Se050Error>(Se050Error::UnknownError),
            r matches Err(e) ==> e == Se050Error::UnknownError,
            r is Err ==> final(enc)@ == old(enc)@,
    {
        self.cipher_oneshot(Se050ApduP2::DecryptOneshot, CipherMode, data, enc)
    }

    pub fn encrypt_des_oneshot(&mut self, CipherMode: &[u8], data: &[u8], enc: &mut [u8]) -> (r:
        Result<(), Se050Error>)
        requires
            CipherMode@.len() + data@.len() + 16 <= MAX_TLV_DATA,
        ensures
            final(enc)@.len() == old(enc)@.len(),
            (data@.len() > MAX_CIPHER_DATA || data@.len() % 16 != 0 || old(enc)@.len()
                != data@.len()) ==> r == Err::<(), Se050Error>(Se050Error::UnknownError),
            r matches Err(e) ==> e == Se050Error::UnknownError,
            r is Err ==> final(enc)@ == old(enc)@,
    {
        self.cipher_oneshot(Se050ApduP2::EncryptOneshot, CipherMode, data, enc)
    }

    pub fn decrypt_des_oneshot(&mut self, CipherMode: &[u8], data: &[u8], enc: &mut [u8]) -> (r:
        Result<(), Se050Error>)
        requires
            CipherMode@.len() + data@.len() + 16 <= MAX_TLV_DATA,
        ensures
            final(enc)@.len() == old(enc)@.len(),
            (data@.len() > MAX_CIPHER_DATA || data@.len() % 16 != 0 || old(enc)@.len()
                != data@.len()) ==> r == Err::<(), Se050Error>(Se050Error::UnknownError),
            r matches Err(e) ==> e == Se050Error::UnknownError,
            r is Err ==> final(enc)@ == old(enc)@,
    {
        self.cipher_oneshot(Se050ApduP2::DecryptOneshot, CipherMode, data, enc)
    }

    /// Fills `buf` with random bytes from the card.
    pub fn get_random(&mut self, buf: &mut [u8]) -> (r: Result<(), Se050Error>)
        requires
            old(buf)@.len() <= 0xffff,
        ensures
            final(buf)@.len() == old(buf)@.len(),
            r matches Err(e) ==> e == Se050Error::UnknownError,
            r is Err ==> final(buf)@ == old(buf)@,
    {
        let mut buflen: Vec<u8> = vec![0u8, 0u8];
        write_be_u16(buflen.as_mut_slice(), buf.len() as u16);
        let capdu = get_random_command(buflen.as_slice());
        self.run_output_command(&capdu, buf)
    }
}

/// The operations of an SE050 secure element.
pub trait Se050Device {
    fn enable(&mut self) -> (r: Result<(), Se050Error>)
        ensures
            r matches Err(e) ==> e == Se050Error::UnknownError,
    ;

    fn disable(&mut self);

    #[allow(non_snake_case)]
    fn SetAppletFeatures(&mut self, AppletConfig: &[u8]) -> (r: Result<(), Se050Error>)
        requires
            AppletConfig@.len() + 4 <= MAX_TLV_DATA,
        ensures
            r matches Err(e) ==> e == Se050Error::UnknownError,
    ;

    #[allow(non_snake_case)]
    fn CreateSession(&mut self, authobjid: &[u8]) -> (r: Result<(), Se050Error>)
        requires
            authobjid@.len() + 4 <= MAX_TLV_DATA,
        ensures
            r matches Err(e) ==> e == Se050Error::UnknownError,
    ;

    #[allow(non_snake_case)]
    fn ExchangeSessionData(&mut self, SessionPolicies: &[u8]) -> (r: Result<(), Se050Error>)
        requires
            SessionPolicies@.len() + 4 <= MAX_TLV_DATA,
        ensures
            r matches Err(e) ==> e == Se050Error::UnknownError,
    ;

    #[allow(non_snake_case)]
    fn ProcessSessionCmd(&mut self, APDUcommand: &[u8], SessionID: &[u8]) -> (r: Result<(), Se050Error>)
        requires
            APDUcommand@.len() + SessionID@.len() + 8 <= MAX_TLV_DATA,
        ensures
            r matches Err(e) ==> e == Se050Error::UnknownError,
    ;

    #[allow(non_snake_case)]
    fn RefreshSession(&mut self, Policy: &[u8]) -> (r: Result<(), Se050Error>)
        requires
            Policy@.len() + 4 <= MAX_TLV_DATA,
        ensures
            r matches Err(e) ==> e == Se050Error::UnknownError,
    ;

    #[allow(non_snake_case)]
    fn CloseSession(&mut self) -> (r: Result<(), Se050Error>)
        ensures
            r matches Err(e) ==> e == Se050Error::UnknownError,
    ;

    #[allow(non_snake_case)]
    fn VerifySessionUserID(&mut self, UserIDvalue: &[u8]) -> (r: Result<(), Se050Error>)
        requires
            UserIDvalue@.len() + 4 <= MAX_TLV_DATA,
        ensures
            r matches Err(e) ==> e == Se050Error::UnknownError,
    ;

    #[allow(non_snake_case)]
    fn generate_ECCURVE_key(&mut self, ECCurve: &[u8]) -> (r: Result<ObjectId, Se050Error>)
        requires
            ECCurve@.len() + 12 <= MAX_TLV_DATA,
        ensures
            r matches Err(e) ==> e == Se050Error::UnknownError,
    ;

    fn generate_p256_key(&mut self) -> (r: Result<ObjectId, Se050Error>)
        ensures
            r matches Err(e) ==> e == Se050Error::UnknownError,
    ;

    fn write_aes_key(&mut self, key: &[u8]) -> (r: Result<(), Se050Error>)
        requires
            key@.len() == 16,
        ensures
            r matches Err(e) ==> e == Se050Error::UnknownError,
    ;

    fn write_des_key(&mut self, key: &[u8]) -> (r: Result<(), Se050Error>)
        requires
            key@.len() == 16,
        ensures
            r matches Err(e) ==> e == Se050Error::UnknownError,
    ;

    fn write_hmac_key(&mut self, key: &[u8]) -> (r: Result<(), Se050Error>)
        requires
            key@.len() == 16,
        ensures
            r matches Err(e) ==> e == Se050Error::UnknownError,
    ;

    #[allow(non_snake_case)]
    fn WriteUserID(&mut self, UserIdentifierValue: &[u8]) -> (r: Result<ObjectId, Se050Error>)
        requires
            UserIdentifierValue@.len() + 12 <= MAX_TLV_DATA,
        ensures
            r matches Err(e) ==> e == Se050Error::UnknownError,
    ;

    #[allow(non_snake_case)]
    fn encrypt_aes_oneshot(&mut self, CipherMode: &[u8], data: &[u8], enc: &mut [u8]) -> (r: Result<(), Se050Error>)
        requires
            CipherMode@.len() + data@.len() + 16 <= MAX_TLV_DATA,
        ensures
            r matches Err(e) ==> e == Se050Error::UnknownError,
            final(enc)@.len() == old(enc)@.len(),
            r is Err ==> final(enc)@ == old(enc)@,
    ;

    #[allow(non_snake_case)]
    fn decrypt_aes_oneshot(&mut self, CipherMode: &[u8], data: &[u8], enc: &mut [u8]) -> (r: Result<(), Se050Error>)
        requires
            CipherMode@.len() + data@.len() + 16 <= MAX_TLV_DATA,
        ensures
            r matches Err(e) ==> e == Se050Error::UnknownError,
            final(enc)@.len() == old(enc)@.len(),
            r is Err ==> final(enc)@ == old(enc)@,
    ;

    #[allow(non_snake_case)]
    fn encrypt_des_oneshot(&mut self, CipherMode: &[u8], data: &[u8], enc: &mut [u8]) -> (r: Result<(), Se050Error>)
        requires
            CipherMode@.len() + data@.len() + 16 <= MAX_TLV_DATA,
        ensures
            r matches Err(e) ==> e == Se050Error::UnknownError,
            final(enc)@.len() == old(enc)@.len(),
            r is Err ==> final(enc)@ == old(enc)@,
    ;

    #[allow(non_snake_case)]
    fn decrypt_des_oneshot(&mut self, CipherMode: &[u8], data: &[u8], enc: &mut [u8]) -> (r: Result<(), Se050Error>)
        requires
            CipherMode@.len() + data@.len() + 16 <= MAX_TLV_DATA,
        ensures
            r matches Err(e) ==> e == Se050Error::UnknownError,
            final(enc)@.len() == old(enc)@.len(),
            r is Err ==> final(enc)@ == old(enc)@,
    ;

    fn get_random(&mut self, buf: &mut [u8]) -> (r: Result<(), Se050Error>)
        requires
            old(buf)@.len() <= 0xffff,
        ensures
            r matches Err(e) ==> e == Se050Error::UnknownError,
            final(buf)@.len() == old(buf)@.len(),
            r is Err ==> final(buf)@ == old(buf)@,
    ;
}

impl<T: T1Proto> Se050Device for Se050<T> {
    fn enable(&mut self) -> (r: Result<(), Se050Error>) {
        Se050::<T>::enable(self)
    }

    fn disable(&mut self) {
        Se050::<T>::disable(self)
    }

    #[allow(non_snake_case)]
    fn SetAppletFeatures(&mut self, AppletConfig: &[u8]) -> (r: Result<(), Se050Error>) {
        Se050::<T>::SetAppletFeatures(self, AppletConfig)
    }

    #[allow(non_snake_case)]
    fn CreateSession(&mut self, authobjid: &[u8]) -> (r: Result<(), Se050Error>) {
        Se050::<T>::CreateSession(self, authobjid)
    }

    #[allow(non_snake_case)]
    fn ExchangeSessionData(&mut self, SessionPolicies: &[u8]) -> (r: Result<(), Se050Error>) {
        Se050::<T>::ExchangeSessionData(self, SessionPolicies)
    }

    #[allow(non_snake_case)]
    fn ProcessSessionCmd(&mut self, APDUcommand: &[u8], SessionID: &[u8]) -> (r: Result<(), Se050Error>) {
        Se050::<T>::ProcessSessionCmd(self, APDUcommand, SessionID)
    }

    #[allow(non_snake_case)]
    fn RefreshSession(&mut self, Policy: &[u8]) -> (r: Result<(), Se050Error>) {
        Se050::<T>::RefreshSession(self, Policy)
    }

    #[allow(non_snake_case)]
    fn CloseSession(&mut self) -> (r: Result<(), Se050Error>) {
        Se050::<T>::CloseSession(self)
    }

    #[allow(non_snake_case)]
    fn VerifySessionUserID(&mut self, UserIDvalue: &[u8]) -> (r: Result<(), Se050Error>) {
        Se050::<T>::VerifySessionUserID(self, UserIDvalue)
    }

    #[allow(non_snake_case)]
    fn generate_ECCURVE_key(&mut self, ECCurve: &[u8]) -> (r: Result<ObjectId, Se050Error>) {
        Se050::<T>::generate_ECCURVE_key(self, ECCurve)
    }

    fn generate_p256_key(&mut self) -> (r: Result<ObjectId, Se050Error>) {
        Se050::<T>::generate_p256_key(self)
    }

    fn write_aes_key(&mut self, key: &[u8]) -> (r: Result<(), Se050Error>) {
        Se050::<T>::write_aes_key(self, key)
    }

    fn write_des_key(&mut self, key: &[u8]) -> (r: Result<(), Se050Error>) {
        Se050::<T>::write_des_key(self, key)
    }

    fn write_hmac_key(&mut self, key: &[u8]) -> (r: Result<(), Se050Error>) {
        Se050::<T>::write_hmac_key(self, key)
    }

    #[allow(non_snake_case)]
    fn WriteUserID(&mut self, UserIdentifierValue: &[u8]) -> (r: Result<ObjectId, Se050Error>) {
        Se050::<T>::WriteUserID(self, UserIdentifierValue)
    }

    #[allow(non_snake_case)]
    fn encrypt_aes_oneshot(&mut self, CipherMode: &[u8], data: &[u8], enc: &mut [u8]) -> (r: Result<(), Se050Error>) {
        Se050::<T>::encrypt_aes_oneshot(self, CipherMode, data, enc)
    }

    #[allow(non_snake_case)]
    fn decrypt_aes_oneshot(&mut self, CipherMode: &[u8], data: &[u8], enc: &mut [u8]) -> (r: Result<(), Se050Error>) {
        Se050::<T>::decrypt_aes_oneshot(self, CipherMode, data, enc)
    }

    #[allow(non_snake_case)]
    fn encrypt_des_oneshot(&mut self, CipherMode: &[u8], data: &[u8], enc: &mut [u8]) -> (r: Result<(), Se050Error>) {
        Se050::<T>::encrypt_des_oneshot(self, CipherMode, data, enc)
    }

    #[allow(non_snake_case)]
    fn decrypt_des_oneshot(&mut self, CipherMode: &[u8], data: &[u8], enc: &mut [u8]) -> (r: Result<(), Se050Error>) {
        Se050::<T>::decrypt_des_oneshot(self, CipherMode, data, enc)
    }

    fn get_random(&mut self, buf: &mut [u8]) -> (r: Result<(), Se050Error>) {
        Se050::<T>::get_random(self, buf)
    }
}

} // verus!
