use se050::se050::select_applet_apdu;
use se050::{
    AnswerToReset, CApdu, Se050, Se050AppInfo, Se050Device, Se050Error, T1Error, T1Proto, T1State,
};

/// A transport that records what it is sent and answers from a script.
struct ScriptedLink {
    sent: Vec<Vec<u8>>,
    answers: Vec<Vec<u8>>,
}

impl ScriptedLink {
    fn new(answers: Vec<Vec<u8>>) -> Self {
        ScriptedLink { sent: Vec::new(), answers }
    }
}

impl T1Proto for ScriptedLink {
    fn send_apdu(&mut self, apdu: &CApdu) -> Result<(), T1Error> {
        self.sent.push(apdu.to_vec());
        Ok(())
    }

    fn send_apdu_raw(&mut self, apdu: &[u8]) -> Result<(), T1Error> {
        self.sent.push(apdu.to_vec());
        Ok(())
    }

    fn receive_apdu_raw(&mut self, buf: &mut [u8]) -> Result<usize, T1Error> {
        if self.answers.is_empty() {
            return Err(T1Error::ReceiveError);
        }
        let a = self.answers.remove(0);
        if a.len() > buf.len() {
            return Err(T1Error::BufferOverrunError(a.len() - buf.len()));
        }
        buf[..a.len()].copy_from_slice(&a);
        Ok(a.len())
    }

    fn interface_soft_reset(&mut self) -> Result<AnswerToReset, T1Error> {
        let mut t1 = T1State::new(0x5a);
        let mut frame = vec![0xa5, 0xef, 0x23];
        frame.extend_from_slice(&[
            0x00, 0xA0, 0x00, 0x00, 0x03, 0x96, 0x04, 0x03, 0xE8, 0x00, 0xFE, 0x02, 0x0B, 0x03,
            0xE8, 0x08, 0x01, 0x00, 0x00, 0x00, 0x00, 0x64, 0x00, 0x00, 0x0A, 0x4A, 0x43, 0x4F,
            0x50, 0x34, 0x20, 0x41, 0x54, 0x50, 0x4F, 0x87, 0x77,
        ]);
        t1.on_soft_reset_response(&frame)
    }
}

#[test]
fn select_applet_command_bytes() {
    let apdu = select_applet_apdu();
    assert_eq!(apdu.len(), 22);
    assert_eq!(&apdu[..5], &[0x00, 0xa4, 0x04, 0x00, 0x10]);
    assert_eq!(
        &apdu[5..21],
        &[0xA0, 0x00, 0x00, 0x03, 0x96, 0x54, 0x53, 0x00, 0x00, 0x00, 0x01, 0x03, 0x00, 0x00, 0x00, 0x00]
    );
    assert_eq!(apdu[21], 0x00);
}

#[test]
fn app_info_from_select_answer() {
    let data = [0x03, 0x01, 0x00, 0x3f, 0xff, 0x01, 0x0b];
    let info = Se050AppInfo::from_select_response(&data, 0x9000).unwrap();
    assert_eq!(info.applet_version, 0x030100);
    assert_eq!(info.features, 0x3fff);
    assert_eq!(info.securebox_version, 0x010b);
    assert_eq!(
        Se050AppInfo::from_select_response(&data, 0x6a82).err(),
        Some(Se050Error::UnknownError)
    );
    assert_eq!(
        Se050AppInfo::from_select_response(&data[..6], 0x9000).err(),
        Some(Se050Error::UnknownError)
    );
}

#[test]
fn enable_selects_applet_after_soft_reset() {
    let link = ScriptedLink::new(vec![vec![0x03, 0x01, 0x00, 0x3f, 0xff, 0x01, 0x0b, 0x90, 0x00]]);
    let mut se = Se050::new(link);
    assert!(se.enable().is_ok());
    assert_eq!(se.t1_proto.sent, vec![select_applet_apdu()]);
    assert_eq!(se.atr_info.as_ref().unwrap().dllp.ifsc, 254);
    let info = se.app_info.as_ref().unwrap();
    assert_eq!(info.applet_version, 0x030100);
    assert_eq!(info.features, 0x3fff);
    assert_eq!(info.securebox_version, 0x010b);
}

#[test]
fn enable_fails_on_bad_status() {
    let link = ScriptedLink::new(vec![vec![0x03, 0x01, 0x00, 0x3f, 0xff, 0x01, 0x0b, 0x6a, 0x82]]);
    let mut se = Se050::new(link);
    assert_eq!(se.enable().err(), Some(Se050Error::UnknownError));
    assert!(se.app_info.is_none());
}

#[test]
fn get_random_sends_length_and_copies_output() {
    let link = ScriptedLink::new(vec![vec![0x41, 4, 1, 2, 3, 4, 0x90, 0x00]]);
    let mut se = Se050::new(link);
    let mut buf = [0u8; 4];
    assert!(se.get_random(&mut buf).is_ok());
    assert_eq!(buf, [1, 2, 3, 4]);
    assert_eq!(se.t1_proto.sent[0], vec![0x80, 0x04, 0x00, 0x49, 0x04, 0x41, 0x02, 0x00, 0x04, 0x00]);
}

#[test]
fn get_random_rejects_short_output() {
    let link = ScriptedLink::new(vec![vec![0x41, 2, 1, 2, 0x90, 0x00]]);
    let mut se = Se050::new(link);
    let mut buf = [9u8; 4];
    assert_eq!(se.get_random(&mut buf).err(), Some(Se050Error::UnknownError));
    assert_eq!(buf, [9; 4]);
}

#[test]
fn create_session_command_bytes() {
    let link = ScriptedLink::new(vec![vec![0x41, 0x08, 1, 2, 3, 4, 5, 6, 7, 8, 0x90, 0x00]]);
    let mut se = Se050::new(link);
    assert!(se.CreateSession(&[0x00, 0x00, 0x00, 0x02]).is_ok());
    assert_eq!(
        se.t1_proto.sent[0],
        vec![0x80, 0x84, 0x00, 0x1b, 0x06, 0x41, 0x04, 0x00, 0x00, 0x00, 0x02, 0x0c]
    );
}

#[test]
fn generate_p256_key_returns_fixed_object() {
    let link = ScriptedLink::new(vec![vec![0x90, 0x00]]);
    let mut se = Se050::new(link);
    let id = se.generate_p256_key().unwrap();
    assert_eq!(id.0, [0xae, 0x51, 0xae, 0x51]);
    assert_eq!(
        se.t1_proto.sent[0],
        vec![0x80, 0x81, 0x61, 0x00, 0x09, 0x41, 0x04, 0xae, 0x51, 0xae, 0x51, 0x42, 0x01, 0x03]
    );
}

#[test]
fn write_aes_key_command_bytes() {
    let link = ScriptedLink::new(vec![vec![0x90, 0x00]]);
    let mut se = Se050::new(link);
    let key = [0x11u8; 16];
    assert!(se.write_aes_key(&key).is_ok());
    let mut expected = vec![0x80, 0x81, 0x03, 0x00, 0x18, 0x41, 0x04, 0xae, 0x50, 0xae, 0x50, 0x43, 0x10];
    expected.extend_from_slice(&key);
    expected.push(0x00);
    assert_eq!(se.t1_proto.sent[0], expected);
}

#[test]
fn cipher_oneshot_checks_sizes_before_sending() {
    let link = ScriptedLink::new(vec![]);
    let mut se = Se050::new(link);
    let data = [0u8; 15];
    let mut out = [0u8; 15];
    assert_eq!(se.encrypt_aes_oneshot(&[0x0d], &data, &mut out).err(), Some(Se050Error::UnknownError));
    let data = [0u8; 16];
    let mut out = [0u8; 32];
    assert_eq!(se.decrypt_des_oneshot(&[0x01], &data, &mut out).err(), Some(Se050Error::UnknownError));
    assert!(se.t1_proto.sent.is_empty());
}

#[test]
fn encrypt_aes_oneshot_round() {
    let mut answer = vec![0x41, 16];
    answer.extend_from_slice(&[0xabu8; 16]);
    answer.extend_from_slice(&[0x90, 0x00]);
    let link = ScriptedLink::new(vec![answer]);
    let mut se = Se050::new(link);
    let data = [0x55u8; 16];
    let mut out = [0u8; 16];
    assert!(se.encrypt_aes_oneshot(&[0x0d], &data, &mut out).is_ok());
    assert_eq!(out, [0xab; 16]);
    let sent = &se.t1_proto.sent[0];
    assert_eq!(&sent[..4], &[0x80, 0x03, 0x0e, 0x37]);
    assert_eq!(sent[4] as usize, 6 + 3 + 18);
    assert_eq!(*sent.last().unwrap(), 0x00);
}

#[test]
fn close_session_has_no_payload() {
    let link = ScriptedLink::new(vec![vec![0x90, 0x00]]);
    let mut se = Se050::new(link);
    assert!(se.CloseSession().is_ok());
    assert_eq!(se.t1_proto.sent[0], vec![0x80, 0x84, 0x00, 0x1c]);
}

#[test]
fn device_trait_reports_card_errors_as_unknown() {
    let link = ScriptedLink::new(vec![vec![0x69, 0x85]]);
    let mut se = Se050::new(link);
    let key = [0u8; 16];
    assert_eq!(Se050Device::write_aes_key(&mut se, &key).err(), Some(Se050Error::UnknownError));
    let mut out = [7u8; 16];
    assert_eq!(
        Se050Device::encrypt_aes_oneshot(&mut se, &[0x0d], &[0u8; 16], &mut out).err(),
        Some(Se050Error::UnknownError)
    );
    assert_eq!(out, [7u8; 16]);
}
