use rescue_serial::baud::baud_symbol;
use rescue_serial::error::RescueError;
use rescue_serial::mode::{tag_bytes, RescueMode, BAUD_WORD, REBOOT_WORD, WAIT_WORD};
use rescue_serial::uart::ack_to_result;

#[test]
fn reserved_tags_have_their_ascii_words() {
    assert_eq!(tag_bytes(RescueMode::reboot()), *b"REBO");
    assert_eq!(tag_bytes(RescueMode::baud()), *b"BAUD");
    assert_eq!(tag_bytes(RescueMode::wait()), *b"WAIT");
    assert_eq!(RescueMode::reboot().0, REBOOT_WORD);
    assert_eq!(RescueMode::baud().0, BAUD_WORD);
    assert_eq!(RescueMode::wait().0, WAIT_WORD);
}

#[test]
fn from_tag_round_trips_ascii_tags() {
    let mode = RescueMode::from_tag(b"EFLA").expect("ascii tag");
    assert_eq!(tag_bytes(mode), *b"EFLA");
    assert_eq!(mode.0, 0x45464C41);
    let baud = RescueMode::from_tag(b"BAUD").expect("ascii tag");
    assert_eq!(baud, RescueMode::baud());
}

#[test]
fn from_tag_rejects_non_ascii_bytes() {
    assert!(RescueMode::from_tag(&[0x80, b'A', b'B', b'C']).is_none());
    assert!(RescueMode::from_tag(&[b'A', b'B', b'C', 0xFF]).is_none());
}

#[test]
fn baud_symbol_maps_exactly_the_six_rates() {
    assert_eq!(baud_symbol(115200), Some(*b"115K"));
    assert_eq!(baud_symbol(230400), Some(*b"230K"));
    assert_eq!(baud_symbol(460800), Some(*b"460K"));
    assert_eq!(baud_symbol(921600), Some(*b"921K"));
    assert_eq!(baud_symbol(1333333), Some(*b"1M33"));
    assert_eq!(baud_symbol(1500000), Some(*b"1M50"));
    assert_eq!(baud_symbol(0), None);
    assert_eq!(baud_symbol(9600), None);
    assert_eq!(baud_symbol(1000000), None);
    assert_eq!(baud_symbol(u32::MAX), None);
}

#[test]
fn ack_with_ok_status_succeeds() {
    let groups = vec![String::from("anything"), String::from("ok")];
    assert!(ack_to_result(groups).is_ok());
}

#[test]
fn ack_with_error_status_carries_text_verbatim() {
    let groups = vec![String::from("flash locked"), String::from("error")];
    match ack_to_result(groups) {
        Err(RescueError::BadMode(msg)) => assert_eq!(msg, "flash locked"),
        other => panic!("expected BadMode, got {:?}", other),
    }
}

#[test]
fn ack_without_status_group_is_not_an_error() {
    assert!(ack_to_result(vec![]).is_ok());
    assert!(ack_to_result(vec![String::from("lone group")]).is_ok());
}
