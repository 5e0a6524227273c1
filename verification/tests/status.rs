use libiguana::status::STATUS_RESPONSE_LEN;
use libiguana::{BoardState, LibiguanaError, Status};

const KNOWN: [(u8, Status); 10] = [
    (0x00, Status::Normal),
    (0x01, Status::Busy),
    (0x40, Status::Stopped),
    (0x41, Status::Breakpoint),
    (0x43, Status::Memfault),
    (0x44, Status::Finished),
    (0x80, Status::Running),
    (0x81, Status::RunningSwi),
    (0x82, Status::Stepping),
    (0x30, Status::Broken),
];

#[test]
fn every_known_code_is_its_state() {
    for (code, status) in KNOWN {
        assert_eq!(Status::try_from(code), Ok(status));
    }
}

#[test]
fn every_state_has_its_code() {
    for (code, status) in KNOWN {
        assert_eq!(status.code(), code);
        assert_eq!(Status::try_from(status.code()), Ok(status));
    }
}

#[test]
fn every_other_byte_is_refused() {
    let mut accepted = 0;
    for code in 0..=255u8 {
        match Status::try_from(code) {
            Ok(status) => {
                accepted += 1;
                assert!(KNOWN.contains(&(code, status)));
            }
            Err(()) => assert!(KNOWN.iter().all(|(known, _)| *known != code)),
        }
    }
    assert_eq!(accepted, 10);
}

#[test]
fn neighbours_of_known_codes_are_refused() {
    for code in [0x02u8, 0x2F, 0x31, 0x3F, 0x42, 0x45, 0x7F, 0x83, 0xFF] {
        assert_eq!(Status::try_from(code), Err(()));
    }
}

#[test]
fn status_response_is_nine_bytes() {
    assert_eq!(STATUS_RESPONSE_LEN, 9);
}

#[test]
fn board_state_decodes_state_and_counters() {
    let state = BoardState::decode(&[0x80, 0x10, 0x00, 0x00, 0x00, 0xD2, 0x04, 0x00, 0x00]).unwrap();
    assert_eq!(
        state,
        BoardState {
            status: Status::Running,
            steps_remaining: 16,
            steps_since_reset: 1234,
        }
    );
    let state = BoardState::decode(&[0x41, 0x78, 0x56, 0x34, 0x12, 0xFF, 0xFF, 0xFF, 0xFF]).unwrap();
    assert_eq!(state.status, Status::Breakpoint);
    assert_eq!(state.steps_remaining, 0x1234_5678);
    assert_eq!(state.steps_since_reset, u32::MAX);
}

#[test]
fn board_state_with_unknown_status_is_invalid_status() {
    let result = BoardState::decode(&[0x99, 1, 2, 3, 4, 5, 6, 7, 8]);
    assert!(matches!(result, Err(LibiguanaError::InvalidStatus(0x99))));
    let result = BoardState::decode(&[0x02, 0, 0, 0, 0, 0, 0, 0, 0]);
    assert!(matches!(result, Err(LibiguanaError::InvalidStatus(0x02))));
    let result = BoardState::decode(&[0xFF; 9]);
    assert!(matches!(result, Err(LibiguanaError::InvalidStatus(0xFF))));
}

#[test]
fn board_state_never_defaults_on_an_unknown_byte() {
    for code in 0..=255u8 {
        let known = KNOWN.iter().find(|(known, _)| *known == code);
        match (BoardState::decode(&[code, 0, 0, 0, 0, 0, 0, 0, 0]), known) {
            (Ok(state), Some((_, status))) => assert_eq!(state.status, *status),
            (Err(LibiguanaError::InvalidStatus(byte)), None) => assert_eq!(byte, code),
            (other, _) => panic!("code {code:#04x} decoded to {other:?}"),
        }
    }
}
