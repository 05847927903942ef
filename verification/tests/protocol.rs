use rescue_serial::error::RescueError;
use rescue_serial::mode::RescueMode;
use rescue_serial::serial::RescueSerial;
use rescue_serial::sim::{SimReply, SimUart};

fn ok_reply(msg: &str) -> SimReply {
    SimReply::Matched(vec![String::from(msg), String::from("ok")])
}

fn error_reply(msg: &str) -> SimReply {
    SimReply::Matched(vec![String::from(msg), String::from("error")])
}

fn session_with(script: Vec<SimReply>) -> RescueSerial<SimUart> {
    RescueSerial::new(SimUart::new(115200, script))
}

#[test]
fn new_has_default_delays() {
    let s = session_with(vec![]);
    assert_eq!(s.reset_delay_ms, 50);
    assert_eq!(s.enter_delay_ms, 5000);
}

#[test]
fn set_mode_writes_tag_and_terminator() {
    let mut s = session_with(vec![ok_reply("mode accepted")]);
    let r = s.set_mode(RescueMode::wait());
    assert!(r.is_ok());
    assert_eq!(s.uart.bytes_written().as_slice(), b"WAIT\r");
    assert_eq!(s.uart.replies_left(), 0);
}

#[test]
fn set_mode_succeeds_only_on_ok_status() {
    let mut s = session_with(vec![ok_reply("")]);
    assert!(s.set_mode(RescueMode::reboot()).is_ok());

    let mut s = session_with(vec![error_reply("nope")]);
    assert!(s.set_mode(RescueMode::reboot()).is_err());
}

#[test]
fn set_mode_error_preserves_diagnostic_text() {
    let mut s = session_with(vec![error_reply("unknown mode")]);
    match s.set_mode(RescueMode::wait()) {
        Err(RescueError::BadMode(msg)) => assert_eq!(msg, "unknown mode"),
        other => panic!("expected BadMode, got {:?}", other),
    }
    // The command bytes were written before the device answered.
    assert_eq!(s.uart.bytes_written().as_slice(), b"WAIT\r");
}

#[test]
fn set_mode_timeout_is_distinct_from_bad_mode() {
    let mut s = session_with(vec![]);
    assert!(matches!(s.set_mode(RescueMode::wait()), Err(RescueError::Timeout)));

    let mut s = session_with(vec![SimReply::TimedOut]);
    assert!(matches!(s.set_mode(RescueMode::wait()), Err(RescueError::Timeout)));
}

#[test]
fn set_mode_surfaces_read_failure() {
    let mut s = session_with(vec![SimReply::Failed]);
    assert!(matches!(s.set_mode(RescueMode::wait()), Err(RescueError::Io)));
}

#[test]
fn set_speed_supported_rates_write_their_symbols() {
    let table: [(u32, &[u8]); 6] = [
        (115200, b"115K"),
        (230400, b"230K"),
        (460800, b"460K"),
        (921600, b"921K"),
        (1333333, b"1M33"),
        (1500000, b"1M50"),
    ];
    for (rate, symbol) in table {
        let mut s = RescueSerial::new(SimUart::new(9600, vec![ok_reply(""), ok_reply("")]));
        let r = s.set_speed(rate);
        assert!(r.is_ok(), "rate {rate}");
        let mut expected = b"BAUD\r".to_vec();
        expected.extend_from_slice(symbol);
        assert_eq!(s.uart.bytes_written().as_slice(), expected.as_slice(), "rate {rate}");
        assert_eq!(s.uart.current_baud(), rate, "rate {rate}");
    }
}

#[test]
fn set_speed_unsupported_rate_writes_nothing() {
    let mut s = session_with(vec![ok_reply(""), ok_reply("")]);
    match s.set_speed(57600) {
        Err(RescueError::BadMode(msg)) => assert_eq!(msg, "unsupported baud rate"),
        other => panic!("expected BadMode, got {:?}", other),
    }
    assert_eq!(s.uart.bytes_written().len(), 0);
    assert_eq!(s.uart.current_baud(), 115200);
    assert_eq!(s.uart.replies_left(), 2);
}

#[test]
fn set_speed_error_response_preserves_message_and_rate() {
    let mut s = session_with(vec![ok_reply(""), error_reply("cannot switch")]);
    match s.set_speed(921600) {
        Err(RescueError::BadMode(msg)) => assert_eq!(msg, "cannot switch"),
        other => panic!("expected BadMode, got {:?}", other),
    }
    assert_eq!(s.uart.current_baud(), 115200);
    // The symbol was already on the wire when the device objected.
    assert_eq!(s.uart.bytes_written().as_slice(), b"BAUD\r921K");
}

#[test]
fn set_speed_bad_mode_command_stops_before_symbol() {
    let mut s = session_with(vec![error_reply("no baud mode")]);
    match s.set_speed(460800) {
        Err(RescueError::BadMode(msg)) => assert_eq!(msg, "no baud mode"),
        other => panic!("expected BadMode, got {:?}", other),
    }
    assert_eq!(s.uart.bytes_written().as_slice(), b"BAUD\r");
    assert_eq!(s.uart.current_baud(), 115200);
}

#[test]
fn set_speed_timeout_after_symbol_keeps_old_rate() {
    let mut s = session_with(vec![ok_reply("")]);
    assert!(matches!(s.set_speed(230400), Err(RescueError::Timeout)));
    assert_eq!(s.uart.current_baud(), 115200);
    assert_eq!(s.uart.bytes_written().as_slice(), b"BAUD\r230K");
}

#[test]
fn set_speed_1333333_scenario() {
    let mut s = session_with(vec![ok_reply(""), ok_reply("")]);
    assert!(s.set_speed(1333333).is_ok());
    assert_eq!(s.uart.bytes_written().as_slice(), b"BAUD\r1M33");
    assert_eq!(s.uart.current_baud(), 1333333);
}

#[test]
fn enter_success_consumes_banner_and_optional_ack() {
    let banner = SimReply::Matched(vec![String::from("rescue:v1")]);
    let mut s = session_with(vec![banner, ok_reply("rescue")]);
    assert!(s.enter(false).is_ok());
    assert!(!s.uart.break_is_on());
    assert_eq!(s.uart.replies_left(), 0);
    assert_eq!(s.uart.bytes_written().len(), 0);
}

#[test]
fn enter_success_without_optional_ack() {
    let banner = SimReply::Matched(vec![String::from("rescue:v1")]);
    let mut s = session_with(vec![banner]);
    assert!(s.enter(true).is_ok());
    assert!(!s.uart.break_is_on());
    assert_eq!(s.uart.replies_left(), 0);
}

#[test]
fn enter_swallows_error_status_on_optional_ack() {
    let banner = SimReply::Matched(vec![String::from("rescue:v1")]);
    let mut s = session_with(vec![banner, error_reply("odd state")]);
    assert!(s.enter(false).is_ok());
    assert!(!s.uart.break_is_on());
}

#[test]
fn enter_timeout_leaves_break_deasserted() {
    let mut s = session_with(vec![]);
    assert!(matches!(s.enter(false), Err(RescueError::Timeout)));
    assert!(!s.uart.break_is_on());

    let mut s = session_with(vec![SimReply::TimedOut]);
    assert!(matches!(s.enter(true), Err(RescueError::Timeout)));
    assert!(!s.uart.break_is_on());
}

#[test]
fn enter_read_failure_leaves_break_deasserted() {
    let mut s = session_with(vec![SimReply::Failed]);
    assert!(matches!(s.enter(false), Err(RescueError::Io)));
    assert!(!s.uart.break_is_on());
}

#[test]
fn wait_selects_the_wait_mode() {
    let mut s = session_with(vec![ok_reply("")]);
    assert!(s.wait().is_ok());
    assert_eq!(s.uart.bytes_written().as_slice(), b"WAIT\r");
}

#[test]
fn reboot_selects_the_reboot_mode() {
    let mut s = session_with(vec![ok_reply("")]);
    assert!(s.reboot().is_ok());
    assert_eq!(s.uart.bytes_written().as_slice(), b"REBO\r");
}

#[test]
fn loopback_round_trip_empty_payload() {
    let mut s = session_with(vec![]);
    assert!(s.send(&[]).is_ok());
    let got = s.recv().expect("payload expected");
    assert_eq!(got.len(), 0);
}

#[test]
fn loopback_round_trip_single_byte() {
    let mut s = session_with(vec![]);
    assert!(s.send(&[0xA5]).is_ok());
    assert_eq!(s.recv().expect("payload expected"), vec![0xA5]);
}

#[test]
fn loopback_round_trip_multi_block_payload() {
    // Larger than any single block of the underlying codec.
    let payload: Vec<u8> = (0..3000u32).map(|i| (i % 251) as u8).collect();
    let mut s = session_with(vec![]);
    assert!(s.send(&payload).is_ok());
    assert_eq!(s.recv().expect("payload expected"), payload);
    // The command channel saw none of it.
    assert_eq!(s.uart.bytes_written().len(), 0);
}

#[test]
fn loopback_preserves_payload_order() {
    let mut s = session_with(vec![]);
    assert!(s.send(b"first").is_ok());
    assert!(s.send(b"second").is_ok());
    assert_eq!(s.recv().expect("payload expected"), b"first".to_vec());
    assert_eq!(s.recv().expect("payload expected"), b"second".to_vec());
}

#[test]
fn recv_with_nothing_to_deliver_fails() {
    let mut s = session_with(vec![]);
    assert!(matches!(s.recv(), Err(RescueError::Io)));
}

#[test]
fn recv_returns_preloaded_payload() {
    let mut sim = SimUart::new(115200, vec![]);
    sim.preload_payload(vec![1, 2, 3]);
    let mut s = RescueSerial::new(sim);
    assert_eq!(s.recv().expect("payload expected"), vec![1, 2, 3]);
    assert_eq!(s.uart.payloads_left(), 0);
}
