use cancomponents::button_message::{ButtonMessage, ButtonState};
use std::convert::TryFrom;

#[test]
fn multi_counts_take_labels() {
    let cases = [
        (0u16, ButtonState::Hold),
        (1, ButtonState::Single),
        (2, ButtonState::Double),
        (3, ButtonState::Tripple),
        (4, ButtonState::Quadruple),
        (5, ButtonState::Multi),
        (6, ButtonState::Multi),
        (125, ButtonState::Multi),
        (256, ButtonState::Multi),
        (65535, ButtonState::Multi),
    ];
    for (count, label) in cases {
        let m = ButtonMessage::new(3, ButtonState::Multi, count);
        assert_eq!(m.state, label);
        assert_eq!(m.count, count);
        assert_eq!(m.num, 3);
    }
}

#[test]
fn other_states_are_kept() {
    let m = ButtonMessage::new(2, ButtonState::Hold, 7);
    assert_eq!(m, ButtonMessage { num: 2, state: ButtonState::Hold, count: 7 });
    let m = ButtonMessage::new(0, ButtonState::Released, 1);
    assert_eq!(m.state, ButtonState::Released);
}

#[test]
fn to_bytes_is_big_endian() {
    let m = ButtonMessage::new(1, ButtonState::Hold, 0x1234);
    assert_eq!(m.to_bytes(), [1, 2, 0x12, 0x34]);
    let m = ButtonMessage { num: 3, state: ButtonState::Multi, count: 9 };
    assert_eq!(m.to_bytes(), [3, 127, 0, 9]);
}

#[test]
fn from_bytes_reads_record() {
    let m = ButtonMessage::from_bytes(&[2, 4, 0x01, 0x02]).unwrap();
    assert_eq!(m, ButtonMessage { num: 2, state: ButtonState::Double, count: 0x0102 });
    let m = ButtonMessage::from_bytes(&[0, 127, 0, 2, 99]).unwrap();
    assert_eq!(m, ButtonMessage { num: 0, state: ButtonState::Multi, count: 2 });
}

#[test]
fn from_bytes_short_records() {
    let m = ButtonMessage::from_bytes(&[5, 1]).unwrap();
    assert_eq!(m, ButtonMessage { num: 5, state: ButtonState::Pressed, count: 0 });
    let m = ButtonMessage::from_bytes(&[5, 1, 7]).unwrap();
    assert_eq!(m.count, 7);
}

#[test]
fn from_bytes_rejects() {
    assert_eq!(ButtonMessage::from_bytes(&[]), Err(()));
    assert_eq!(ButtonMessage::from_bytes(&[1]), Err(()));
    assert_eq!(ButtonMessage::from_bytes(&[1, 7, 0, 0]), Err(()));
    assert_eq!(ButtonMessage::from_bytes(&[1, 126, 0, 0]), Err(()));
    assert_eq!(ButtonMessage::from_bytes(&[1, 128, 0, 0]), Err(()));
    assert_eq!(ButtonMessage::from_bytes(&[1, 255, 0, 0]), Err(()));
}

#[test]
fn round_trip_of_built_messages() {
    for state in [
        ButtonState::Released,
        ButtonState::Pressed,
        ButtonState::Hold,
        ButtonState::Single,
        ButtonState::Double,
        ButtonState::Tripple,
        ButtonState::Quadruple,
        ButtonState::Multi,
    ] {
        for count in [0u16, 1, 2, 4, 5, 300, 65535] {
            let m = ButtonMessage::new(9, state, count);
            assert_eq!(ButtonMessage::from_bytes(&m.to_bytes()), Ok(m));
        }
    }
    let m = ButtonMessage::new(1, ButtonState::Multi, 3);
    let back = ButtonMessage::from_bytes(&m.to_bytes()).unwrap();
    assert_eq!(back.state, ButtonState::Tripple);
}

#[test]
fn state_codes() {
    assert_eq!(ButtonState::try_from(0u8), Ok(ButtonState::Released));
    assert_eq!(ButtonState::try_from(6u8), Ok(ButtonState::Quadruple));
    assert_eq!(ButtonState::try_from(127u8), Ok(ButtonState::Multi));
    assert_eq!(ButtonState::try_from(128u8), Err(()));
    assert_eq!(ButtonState::Multi.code(), 127);
    assert_eq!(ButtonState::Tripple.code(), 5);
}
