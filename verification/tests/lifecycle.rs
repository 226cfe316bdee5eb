use via_sync::edits::DeviceWrite;
use via_sync::edits::Edit;
use via_sync::mirror::ByteFeature;
use via_sync::mirror::CapabilityMirror;
use via_sync::mirror::EditorSection;
use via_sync::session::ConnectError;
use via_sync::session::SessionState;

#[test]
fn successful_connection_discovers_only_backlight() {
    let mut s = SessionState::new();
    let params = s.submit_input("7372", "0002", "ff60").unwrap();
    assert_eq!(params.vendor_id, 0x7372);
    assert_eq!(params.product_id, 0x0002);
    assert_eq!(params.usage_page, 0xff60);
    assert_eq!(s.params(), Some(params));

    // A present device that supports only the backlight: discovery returns a
    // value for the two backlight settings and an absence signal for the rest.
    let mut m = CapabilityMirror::absent();
    m.record_byte(ByteFeature::BacklightBrightness, Some(128));
    m.record_byte(ByteFeature::BacklightEffect, Some(1));
    s.complete_connection(m);

    assert!(s.is_connected());
    let m = s.mirror().unwrap();
    assert_eq!(m.byte_value(ByteFeature::BacklightBrightness), Some(128));
    assert_eq!(m.byte_value(ByteFeature::BacklightEffect), Some(1));
    assert_eq!(m.byte_value(ByteFeature::RgbMatrixBrightness), None);
    assert_eq!(m.byte_value(ByteFeature::LedMatrixBrightness), None);
    assert_eq!(m.flag_value(via_sync::mirror::FlagFeature::AudioEnabled), None);
    assert!(m.section_enabled(EditorSection::Backlight));
    assert!(!m.section_enabled(EditorSection::Rgblight));
    assert!(!m.section_enabled(EditorSection::RgbMatrix));
    assert!(!m.section_enabled(EditorSection::LedMatrix));
    assert!(!m.section_enabled(EditorSection::Audio));
}

#[test]
fn invalid_input_reports_and_stays_awaiting() {
    let mut s = SessionState::new();
    let r = s.submit_input("zzzz", "0002", "ff60");
    assert_eq!(r, Err(ConnectError::InvalidInput));
    assert_eq!(s, SessionState::AwaitingInput);
    assert!(s.accepts_input());
    assert_eq!(s.params(), None);
}

#[test]
fn device_absent_is_reported_and_retryable() {
    let mut s = SessionState::new();
    let r = s.submit_input("7372", "0002", "ff60");
    assert!(r.is_ok());
    s.open_failed();
    assert_eq!(s, SessionState::Failed(ConnectError::DeviceUnavailable));
    assert_eq!(s.error(), Some(ConnectError::DeviceUnavailable));
    assert!(s.accepts_input());

    // The operator retries with new input from the failed state.
    let r = s.submit_input("7372", "0002", "ff60");
    assert!(r.is_ok());
}

#[test]
fn failed_write_is_discarded_and_mirror_keeps_the_value() {
    let mut s = SessionState::new();
    s.submit_input("7372", "0002", "ff60").unwrap();
    let mut m = CapabilityMirror::absent();
    m.record_byte(ByteFeature::RgbMatrixEffectSpeed, Some(5));
    s.complete_connection(m);

    // The device rejects every write; the session performs the write the
    // controller asked for, and the failure is discarded, never fed back.
    let failing_device = |_w: DeviceWrite| -> Result<(), ()> { Err(()) };
    let w = s.edit(Edit::SetByte(ByteFeature::RgbMatrixEffectSpeed, 128));
    let request = w.expect("a present feature gets its write");
    assert_eq!(request, DeviceWrite::Byte(ByteFeature::RgbMatrixEffectSpeed, 128));
    let _ = failing_device(request);

    // The mirror took the value before the write and keeps it regardless;
    // no error is shown to the operator.
    assert!(s.is_connected());
    assert_eq!(
        s.mirror().unwrap().byte_value(ByteFeature::RgbMatrixEffectSpeed),
        Some(128)
    );
    assert_eq!(s.error(), None);
}

#[test]
fn edits_in_session_reach_the_mirror() {
    let mut s = SessionState::new();
    s.submit_input("0", "0", "0").unwrap();
    let mut m = CapabilityMirror::absent();
    m.record_byte(ByteFeature::BacklightEffect, Some(3));
    s.complete_connection(m);

    let w = s.edit(Edit::Increment(ByteFeature::BacklightEffect));
    assert_eq!(w, Some(DeviceWrite::Byte(ByteFeature::BacklightEffect, 4)));
    let w = s.edit(Edit::SetByte(ByteFeature::RgblightEffect, 9));
    assert_eq!(w, None);
    assert_eq!(s.mirror().unwrap().byte_value(ByteFeature::BacklightEffect), Some(4));
}

#[test]
fn disconnect_discards_the_mirror() {
    let mut s = SessionState::new();
    s.submit_input("1", "2", "3").unwrap();
    let mut m = CapabilityMirror::absent();
    m.record_byte(ByteFeature::BacklightBrightness, Some(50));
    s.complete_connection(m);
    assert!(s.is_connected());

    s.disconnect();
    assert_eq!(s, SessionState::AwaitingInput);
    assert_eq!(s.mirror(), None);
    assert!(s.accepts_input());
}
