use via_sync::edits::DeviceWrite;
use via_sync::edits::Edit;
use via_sync::mirror::ByteFeature;
use via_sync::mirror::CapabilityMirror;
use via_sync::mirror::ColorFeature;
use via_sync::mirror::ColorPair;
use via_sync::mirror::EditorSection;
use via_sync::mirror::FlagFeature;

#[test]
fn absent_feature_gets_no_write() {
    let mut m = CapabilityMirror::absent();
    let before = m;
    assert_eq!(m.apply_edit(Edit::SetByte(ByteFeature::BacklightBrightness, 10)), None);
    assert_eq!(m.apply_edit(Edit::Increment(ByteFeature::RgblightEffect)), None);
    assert_eq!(m.apply_edit(Edit::Decrement(ByteFeature::LedMatrixEffectSpeed)), None);
    assert_eq!(m.apply_edit(Edit::SetHue(ColorFeature::Rgblight, 5)), None);
    assert_eq!(m.apply_edit(Edit::SetSaturation(ColorFeature::RgbMatrix, 5)), None);
    assert_eq!(m.apply_edit(Edit::SetFlag(FlagFeature::AudioEnabled, true)), None);
    assert_eq!(m, before);
}

#[test]
fn absent_feature_stays_absent_while_others_are_edited() {
    let mut m = CapabilityMirror::absent();
    m.record_byte(ByteFeature::BacklightBrightness, Some(100));
    let w = m.apply_edit(Edit::SetByte(ByteFeature::BacklightBrightness, 50));
    assert_eq!(w, Some(DeviceWrite::Byte(ByteFeature::BacklightBrightness, 50)));
    assert_eq!(m.byte_value(ByteFeature::RgbMatrixBrightness), None);
    assert_eq!(m.color_value(ColorFeature::RgbMatrix), None);
    assert_eq!(m.flag_value(FlagFeature::AudioClickyEnabled), None);
}

#[test]
fn same_write_twice_is_idempotent_but_writes_twice() {
    let mut m = CapabilityMirror::absent();
    m.record_byte(ByteFeature::RgblightBrightness, Some(17));
    let mut issued: Vec<DeviceWrite> = Vec::new();

    if let Some(w) = m.apply_edit(Edit::SetByte(ByteFeature::RgblightBrightness, 42)) {
        issued.push(w);
    }
    let between = m;
    if let Some(w) = m.apply_edit(Edit::SetByte(ByteFeature::RgblightBrightness, 42)) {
        issued.push(w);
    }

    assert_eq!(m, between);
    assert_eq!(m.byte_value(ByteFeature::RgblightBrightness), Some(42));
    assert_eq!(
        issued,
        vec![
            DeviceWrite::Byte(ByteFeature::RgblightBrightness, 42),
            DeviceWrite::Byte(ByteFeature::RgblightBrightness, 42),
        ]
    );
}

#[test]
fn decrement_at_zero_saturates_and_still_writes() {
    let mut m = CapabilityMirror::absent();
    m.record_byte(ByteFeature::BacklightEffect, Some(0));
    let w = m.apply_edit(Edit::Decrement(ByteFeature::BacklightEffect));
    assert_eq!(w, Some(DeviceWrite::Byte(ByteFeature::BacklightEffect, 0)));
    assert_eq!(m.byte_value(ByteFeature::BacklightEffect), Some(0));
}

#[test]
fn increment_at_top_saturates_and_still_writes() {
    let mut m = CapabilityMirror::absent();
    m.record_byte(ByteFeature::RgbMatrixEffect, Some(255));
    let w = m.apply_edit(Edit::Increment(ByteFeature::RgbMatrixEffect));
    assert_eq!(w, Some(DeviceWrite::Byte(ByteFeature::RgbMatrixEffect, 255)));
    assert_eq!(m.byte_value(ByteFeature::RgbMatrixEffect), Some(255));
}

#[test]
fn increment_and_decrement_move_by_one() {
    let mut m = CapabilityMirror::absent();
    m.record_byte(ByteFeature::LedMatrixBrightness, Some(5));
    let w = m.apply_edit(Edit::Increment(ByteFeature::LedMatrixBrightness));
    assert_eq!(w, Some(DeviceWrite::Byte(ByteFeature::LedMatrixBrightness, 6)));
    let w = m.apply_edit(Edit::Decrement(ByteFeature::LedMatrixBrightness));
    assert_eq!(w, Some(DeviceWrite::Byte(ByteFeature::LedMatrixBrightness, 5)));
    assert_eq!(m.byte_value(ByteFeature::LedMatrixBrightness), Some(5));
}

#[test]
fn hue_edit_carries_unchanged_saturation() {
    let mut m = CapabilityMirror::absent();
    m.record_color(ColorFeature::Rgblight, Some(ColorPair { hue: 10, sat: 20 }));
    let w = m.apply_edit(Edit::SetHue(ColorFeature::Rgblight, 99));
    assert_eq!(w, Some(DeviceWrite::Color(ColorFeature::Rgblight, 99, 20)));
    assert_eq!(m.color_value(ColorFeature::Rgblight), Some(ColorPair { hue: 99, sat: 20 }));
}

#[test]
fn saturation_edit_carries_unchanged_hue() {
    let mut m = CapabilityMirror::absent();
    m.record_color(ColorFeature::RgbMatrix, Some(ColorPair { hue: 64, sat: 128 }));
    let w = m.apply_edit(Edit::SetSaturation(ColorFeature::RgbMatrix, 7));
    assert_eq!(w, Some(DeviceWrite::Color(ColorFeature::RgbMatrix, 64, 7)));
    assert_eq!(m.color_value(ColorFeature::RgbMatrix), Some(ColorPair { hue: 64, sat: 7 }));
}

#[test]
fn flag_edit_writes_the_new_value() {
    let mut m = CapabilityMirror::absent();
    m.record_flag(FlagFeature::AudioEnabled, Some(false));
    let w = m.apply_edit(Edit::SetFlag(FlagFeature::AudioEnabled, true));
    assert_eq!(w, Some(DeviceWrite::Flag(FlagFeature::AudioEnabled, true)));
    assert_eq!(m.flag_value(FlagFeature::AudioEnabled), Some(true));
}

#[test]
fn discovery_records_fill_only_their_slot() {
    let mut m = CapabilityMirror::absent();
    m.record_byte(ByteFeature::BacklightBrightness, Some(1));
    m.record_color(ColorFeature::Rgblight, Some(ColorPair { hue: 2, sat: 3 }));
    m.record_flag(FlagFeature::AudioClickyEnabled, Some(true));
    m.record_info(Some(9), Some(4), Some(16));

    assert_eq!(m.byte_value(ByteFeature::BacklightBrightness), Some(1));
    assert_eq!(m.byte_value(ByteFeature::BacklightEffect), None);
    assert_eq!(m.color_value(ColorFeature::Rgblight), Some(ColorPair { hue: 2, sat: 3 }));
    assert_eq!(m.color_value(ColorFeature::RgbMatrix), None);
    assert_eq!(m.flag_value(FlagFeature::AudioClickyEnabled), Some(true));
    assert_eq!(m.flag_value(FlagFeature::AudioEnabled), None);
    assert_eq!(m.protocol_version, Some(9));
    assert_eq!(m.layer_count, Some(4));
    assert_eq!(m.macro_count, Some(16));
}

#[test]
fn discovery_order_does_not_affect_the_mirror() {
    let mut one = CapabilityMirror::absent();
    one.record_byte(ByteFeature::BacklightBrightness, Some(7));
    one.record_color(ColorFeature::RgbMatrix, Some(ColorPair { hue: 1, sat: 2 }));
    one.record_flag(FlagFeature::AudioEnabled, None);
    one.record_byte(ByteFeature::RgblightEffect, None);

    let mut other = CapabilityMirror::absent();
    other.record_byte(ByteFeature::RgblightEffect, None);
    other.record_flag(FlagFeature::AudioEnabled, None);
    other.record_color(ColorFeature::RgbMatrix, Some(ColorPair { hue: 1, sat: 2 }));
    other.record_byte(ByteFeature::BacklightBrightness, Some(7));

    assert_eq!(one, other);
}

#[test]
fn sections_enabled_by_their_leading_setting() {
    let mut m = CapabilityMirror::absent();
    assert!(!m.section_enabled(EditorSection::Backlight));
    assert!(!m.section_enabled(EditorSection::Audio));
    m.record_byte(ByteFeature::BacklightBrightness, Some(0));
    m.record_flag(FlagFeature::AudioEnabled, Some(false));
    assert!(m.section_enabled(EditorSection::Backlight));
    assert!(m.section_enabled(EditorSection::Audio));
    assert!(!m.section_enabled(EditorSection::Rgblight));
    assert!(!m.section_enabled(EditorSection::RgbMatrix));
    assert!(!m.section_enabled(EditorSection::LedMatrix));
}
