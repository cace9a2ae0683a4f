use purecrypto_tpm::transport::simulator::{
    reply_length, send_command_frame, send_result, signal_result, MAX_RESPONSE,
    TPM_SEND_COMMAND, TPM_SESSION_END, TPM_SIGNAL_NV_ON, TPM_SIGNAL_POWER_ON,
};
use purecrypto_tpm::Error;

#[test]
fn send_command_frame_layout() {
    let cmd = [0x80u8, 0x01, 0, 0, 0, 0x0C, 0, 0, 0x01, 0x44, 0, 0];
    let f = send_command_frame(3, &cmd);
    let mut expected = vec![0, 0, 0, 8, 3, 0, 0, 0, 12];
    expected.extend_from_slice(&cmd);
    assert_eq!(f, expected);
    assert_eq!(send_command_frame(0, &[]), vec![0, 0, 0, 8, 0, 0, 0, 0, 0]);
}

#[test]
fn selector_and_signal_codes() {
    assert_eq!(TPM_SEND_COMMAND, 8);
    assert_eq!(TPM_SESSION_END, 20);
    assert_eq!(TPM_SIGNAL_POWER_ON, 1);
    assert_eq!(TPM_SIGNAL_NV_ON, 11);
    assert_eq!(MAX_RESPONSE, 1 << 20);
}

#[test]
fn reply_length_limit() {
    assert_eq!(reply_length(0).unwrap(), 0);
    assert_eq!(reply_length(1 << 20).unwrap(), 1 << 20);
    match reply_length((1 << 20) + 1) {
        Err(Error::Transport(s)) => assert_eq!(s, "simulator response too large: 1048577 bytes"),
        other => panic!("unexpected {:?}", other),
    }
}

#[test]
fn simulator_result_codes() {
    assert!(send_result(0).is_ok());
    match send_result(7) {
        Err(Error::Transport(s)) => assert_eq!(s, "simulator send failed: rc=7"),
        other => panic!("unexpected {:?}", other),
    }
    assert!(signal_result(TPM_SIGNAL_POWER_ON, 0).is_ok());
    match signal_result(TPM_SIGNAL_NV_ON, 257) {
        Err(Error::Transport(s)) => assert_eq!(s, "simulator platform signal 11 failed: rc=257"),
        other => panic!("unexpected {:?}", other),
    }
}
