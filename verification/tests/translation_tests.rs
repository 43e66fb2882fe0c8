use ctp_gateway::api::{info_to_result, result_to_string, DisconnectionReason, RspError, RspInfo};

#[test]
fn translate_absent_descriptor_is_ok() {
    assert_eq!(info_to_result(None), Ok(()));
}

#[test]
fn translate_zero_code_is_ok_regardless_of_message() {
    // The message bytes are not even a valid legacy sequence; code 0 wins.
    let info = RspInfo { error_id: 0, error_msg: vec![0x80, 0x80, 0x80] };
    assert_eq!(info_to_result(Some(&info)), Ok(()));
}

#[test]
fn translate_nonzero_code_is_error_with_that_code() {
    let info = RspInfo { error_id: 3, error_msg: b"invalid credentials\0\0\0".to_vec() };
    let r = info_to_result(Some(&info));
    assert_eq!(
        r,
        Err(RspError { id: 3, msg: String::from("invalid credentials") })
    );
}

#[test]
fn translate_decodes_legacy_message_bytes() {
    // GB 18030: 0xB4 0xED 0xCE 0xF3 is U+9519 U+8BEF.
    let info = RspInfo { error_id: 42, error_msg: vec![0xB4, 0xED, 0xCE, 0xF3, 0, 0] };
    let r = info_to_result(Some(&info));
    assert_eq!(
        r,
        Err(RspError { id: 42, msg: String::from("\u{9519}\u{8BEF}") })
    );
}

#[test]
fn translate_undecodable_message_keeps_the_error() {
    let info = RspInfo { error_id: 7, error_msg: vec![0x80, 0xFF] };
    let r = info_to_result(Some(&info));
    assert_eq!(
        r,
        Err(RspError { id: 7, msg: String::from("<undecodable venue message>") })
    );
}

#[test]
fn result_to_string_renders_ok() {
    assert_eq!(result_to_string(&Ok(())), "Ok(())");
}

#[test]
fn result_to_string_renders_error() {
    let r = Err(RspError { id: 5, msg: String::from("boom") });
    assert_eq!(result_to_string(&r), "Err(RspError{ id: 5, msg: boom })");
}

#[test]
fn result_to_string_renders_multidigit_and_negative_ids() {
    let r = Err(RspError { id: 90210, msg: String::from("m") });
    assert_eq!(result_to_string(&r), "Err(RspError{ id: 90210, msg: m })");
    let n = Err(RspError { id: -12, msg: String::new() });
    assert_eq!(result_to_string(&n), "Err(RspError{ id: -12, msg:  })");
}

#[test]
fn result_to_string_renders_extreme_ids() {
    let r = Err(RspError { id: i32::MIN, msg: String::from("x") });
    assert_eq!(result_to_string(&r), "Err(RspError{ id: -2147483648, msg: x })");
    let m = Err(RspError { id: i32::MAX, msg: String::from("y") });
    assert_eq!(result_to_string(&m), "Err(RspError{ id: 2147483647, msg: y })");
}

#[test]
fn disconnection_reason_code_mapping() {
    assert_eq!(DisconnectionReason::from(0x1001), DisconnectionReason::ReadError);
    assert_eq!(DisconnectionReason::from(0x1002), DisconnectionReason::WriteError);
    assert_eq!(DisconnectionReason::from(0x2001), DisconnectionReason::HeartbeatTimeout);
    assert_eq!(DisconnectionReason::from(0x2002), DisconnectionReason::HeartbeatSendError);
    assert_eq!(DisconnectionReason::from(0x2003), DisconnectionReason::ErrorMessageReceived);
    assert_eq!(DisconnectionReason::from(0), DisconnectionReason::Unknown);
    assert_eq!(DisconnectionReason::from(0x9999), DisconnectionReason::Unknown);
    assert_eq!(DisconnectionReason::from(-1), DisconnectionReason::Unknown);
}

#[test]
fn covert_cstr_to_str_decodes_signed_buffer() {
    let raw: [i8; 6] = [b'm' as i8, b'd' as i8, 0, b'z' as i8, 0, 0];
    assert_eq!(
        ctp_gateway::api::covert_cstr_to_str(&raw),
        Ok(String::from("md"))
    );
}

#[test]
fn covert_cstr_to_str_handles_high_bytes() {
    // 0xC4 0xE3 as signed bytes; decodes to U+4F60.
    let raw: [i8; 4] = [0xC4u8 as i8, 0xE3u8 as i8, 0, 0];
    assert_eq!(
        ctp_gateway::api::covert_cstr_to_str(&raw),
        Ok(String::from("\u{4F60}"))
    );
}

#[test]
fn covert_cstr_to_str_reports_invalid_sequences() {
    let raw: [i8; 2] = [0xFFu8 as i8, 0xFFu8 as i8];
    assert_eq!(
        ctp_gateway::api::covert_cstr_to_str(&raw),
        Err(ctp_gateway::codec::DecodeError::InvalidSequence)
    );
}

#[test]
fn rsp_error_to_text() {
    let e = RspError { id: 3, msg: String::from("invalid credentials") };
    assert_eq!(e.to_text(), "3 invalid credentials");
    let n = RspError { id: -7, msg: String::from("x") };
    assert_eq!(n.to_text(), "-7 x");
}
