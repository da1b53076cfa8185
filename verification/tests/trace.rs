use rustdv::sim::trace::{
    control_reply, decode_status, error_message, flush, message_or_default, start, status, stop,
    HostReply,
    RawTraceStatus, TraceError, TraceState, TraceStatus, COMMAND_FLUSH, COMMAND_START,
    COMMAND_STATUS, COMMAND_STOP,
};

#[test]
fn ordinary_rust_test_reports_missing_verilator_host() {
    assert_eq!(status().command, COMMAND_STATUS);
    let error = control_reply(HostReply::Missing).unwrap_err();
    assert!(matches!(error, TraceError::Unavailable(_)));
    assert_eq!(
        error.message(),
        "the current simulator host does not provide runtime FST tracing"
    );
}

fn raw(abi: u32, capability: u32, state: u32) -> RawTraceStatus {
    RawTraceStatus {
        abi_version: abi,
        capability,
        state,
        reserved: 0,
        start_time_steps: 10,
        end_time_steps: 20,
        dump_count: 3,
    }
}

#[test]
fn status_records_decode() {
    assert_eq!(
        decode_status(raw(1, 1, 1)),
        Ok(TraceStatus { state: TraceState::Active, start_time_steps: 10, end_time_steps: 20, dump_count: 3 })
    );
    assert_eq!(decode_status(raw(1, 1, 0)).unwrap().state, TraceState::Idle);
    assert_eq!(decode_status(raw(1, 0, 9)).unwrap().state, TraceState::Unavailable);
    assert_eq!(
        decode_status(raw(2, 1, 1)),
        Err(TraceError::Host("unsupported Verilator trace ABI 2 (expected 1)".to_string()))
    );
    assert_eq!(
        decode_status(raw(1, 1, 7)),
        Err(TraceError::Host("invalid Verilator trace status capability=1 state=7".to_string()))
    );
    assert_eq!(
        decode_status(raw(1, 5, 0)),
        Err(TraceError::Host("invalid Verilator trace status capability=5 state=0".to_string()))
    );
}

#[test]
fn error_buffers_decode_up_to_the_nul() {
    let mut buffer = [0u8; 16];
    buffer[..5].copy_from_slice(b"oops!");
    buffer[6] = b'z';
    assert_eq!(error_message(&buffer), "oops!");
    assert_eq!(error_message(&[0u8; 4]), "Verilator trace host returned an unspecified error");
    assert_eq!(error_message(b"no nul"), "no nul");
    assert_eq!(error_message(&[0xff, 0]), "\u{fffd}");
}

#[test]
fn host_codes_map_to_errors() {
    let reply = |code: i32| HostReply::Returned { code, raw: raw(1, 1, 0), error: b"why\0".to_vec() };
    assert_eq!(control_reply(reply(0)).unwrap().state, TraceState::Idle);
    assert_eq!(control_reply(reply(1)), Err(TraceError::Unavailable("why".to_string())));
    assert_eq!(control_reply(reply(3)), Err(TraceError::InvalidPath("why".to_string())));
    assert_eq!(control_reply(reply(4)), Err(TraceError::WrongState("why".to_string())));
    assert_eq!(control_reply(reply(2)), Err(TraceError::Host("why".to_string())));
    assert_eq!(control_reply(reply(-1)), Err(TraceError::Host("why".to_string())));
}

#[test]
fn requests_carry_their_commands() {
    assert_eq!(flush().command, COMMAND_FLUSH);
    assert_eq!(stop().command, COMMAND_STOP);
    assert!(stop().path.is_none());
    let req = start(b"/tmp/trace.fst").unwrap();
    assert_eq!(req.command, COMMAND_START);
    assert_eq!(req.path.as_deref(), Some(&b"/tmp/trace.fst"[..]));
    assert_eq!(
        start(b"/tmp/a\0b"),
        Err(TraceError::InvalidPath("trace path contains an interior NUL byte".to_string()))
    );
}

#[test]
fn empty_host_messages_get_the_fixed_text() {
    assert_eq!(
        message_or_default(String::new()),
        "Verilator trace host returned an unspecified error"
    );
    assert_eq!(message_or_default("disk full".to_string()), "disk full");
}
