use cancomponents::device_type::DeviceType;
use cancomponents::extension::Extension;
use cancomponents::relais::RelaisMode;
use cancomponents::update::{Update, UpdateErrorCode};

#[test]
fn device_type_codes() {
    assert_eq!(DeviceType::from_primitive(4), DeviceType::Button);
    assert_eq!(DeviceType::from_primitive(8), DeviceType::SSR);
    assert_eq!(DeviceType::from_primitive(1), DeviceType::Unknown);
    assert_eq!(DeviceType::from_primitive(200), DeviceType::Unknown);
    assert_eq!(DeviceType::Relais.code(), 5);
}

#[test]
fn extension_codes() {
    assert_eq!(Extension::from_primitive(0), Extension::Off);
    assert_eq!(Extension::from_primitive(7), Extension::HardwareRollershutter);
    assert_eq!(Extension::from_primitive(8), Extension::Unknown);
    assert_eq!(Extension::Unknown.code(), 255);
}

#[test]
fn relais_mode_codes() {
    assert_eq!(RelaisMode::try_from_primitive(2), Some(RelaisMode::SoftwareRollershutter));
    assert_eq!(RelaisMode::try_from_primitive(4), None);
    assert_eq!(RelaisMode::HardwareRollershutter.code(), 3);
}

#[test]
fn update_error_codes() {
    assert_eq!(UpdateErrorCode::from_primitive(6), UpdateErrorCode::VerifyFailed);
    assert_eq!(UpdateErrorCode::from_primitive(9), UpdateErrorCode::Unknown);
    assert_eq!(UpdateErrorCode::Write.code(), 4);
}

#[test]
fn update_start_header() {
    let data = [0xde, 0xad, 0xbe, 0xef, 0x00, 0x01, 0x02, 0x03];
    assert_eq!(Update::start_header(&data), Ok((0xdeadbeef, 0x00010203)));
    assert_eq!(Update::start_header(&data[..7]), Err(UpdateErrorCode::InvalidData));
}

use cancomponents::echo_guard::{EchoAction, EchoGuard, EchoOutcome};

#[test]
fn echo_guard_restarts_after_four_misses() {
    let mut g = EchoGuard::new();
    assert_eq!(g.iterate(EchoOutcome::Timeout), EchoAction::Watch);
    assert_eq!(g.iterate(EchoOutcome::Timeout), EchoAction::Watch);
    assert_eq!(g.iterate(EchoOutcome::Timeout), EchoAction::Watch);
    assert_eq!(g.iterate(EchoOutcome::Timeout), EchoAction::Restart);
    assert_eq!(g.miss_count, 4);
}

#[test]
fn echo_clears_misses() {
    let mut g = EchoGuard::new();
    g.iterate(EchoOutcome::Timeout);
    g.iterate(EchoOutcome::Timeout);
    g.iterate(EchoOutcome::Timeout);
    assert_eq!(g.iterate(EchoOutcome::Echo), EchoAction::Pause);
    assert_eq!(g.miss_count, 0);
    assert_eq!(g.iterate(EchoOutcome::Timeout), EchoAction::Watch);
}

#[test]
fn echo_guard_miss_count_saturates() {
    let mut g = EchoGuard { miss_count: u32::MAX };
    assert_eq!(g.iterate(EchoOutcome::Timeout), EchoAction::Restart);
    assert_eq!(g.miss_count, u32::MAX);
}
