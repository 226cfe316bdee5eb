//! The write-through controller: every edit gesture mutates the capability
//! mirror first and then issues exactly one device write carrying the same
//! value. A failed device write is discarded by design: nothing in the mirror
//! depends on the outcome of a write, so the mirror is optimistic and may
//! diverge from true device state.

use vstd::prelude::*;

use crate::mirror::ByteFeature;
use crate::mirror::CapabilityMirror;
use crate::mirror::ColorFeature;
use crate::mirror::ColorPair;
use crate::mirror::FlagFeature;

verus! {

/// One write operation to issue to the device configuration service.
/// A color write always carries the whole (hue, saturation) pair.
#[derive(Clone, Copy, PartialEq, Eq, Structural, Debug)]
pub enum DeviceWrite {
    Byte(ByteFeature, u8),
    Color(ColorFeature, u8, u8),
    Flag(FlagFeature, bool),
}

/// One edit gesture on the editing surface. The increment and decrement
/// gestures saturate at the domain boundary; the others carry an explicit
/// new value for a single component.
#[derive(Clone, Copy, PartialEq, Eq, Structural, Debug)]
pub enum Edit {
    SetByte(ByteFeature, u8),
    Increment(ByteFeature),
    Decrement(ByteFeature),
    SetHue(ColorFeature, u8),
    SetSaturation(ColorFeature, u8),
    SetFlag(FlagFeature, bool),
}

/// Increment that saturates at the top of the 8-bit domain.
pub open spec fn sat_inc(v: u8) -> u8 {
    if v == 255 {
        255
    } else {
        (v + 1) as u8
    }
}

/// Decrement that saturates at the bottom of the 8-bit domain.
pub open spec fn sat_dec(v: u8) -> u8 {
    if v == 0 {
        0
    } else {
        (v - 1) as u8
    }
}

/// The mirror after one edit gesture: the local mutation of write-through.
/// A gesture on an absent feature changes nothing.
pub open spec fn mirror_after(m: CapabilityMirror, e: Edit) -> CapabilityMirror {
    match e {
        Edit::SetByte(f, v) => match m.spec_byte(f) {
            Some(_) => m.spec_with_byte(f, Some(v)),
            None => m,
        },
        Edit::Increment(f) => match m.spec_byte(f) {
            Some(v) => m.spec_with_byte(f, Some(sat_inc(v))),
            None => m,
        },
        Edit::Decrement(f) => match m.spec_byte(f) {
            Some(v) => m.spec_with_byte(f, Some(sat_dec(v))),
            None => m,
        },
        Edit::SetHue(f, hue) => match m.spec_color(f) {
            Some(c) => m.spec_with_color(f, Some(ColorPair { hue, sat: c.sat })),
            None => m,
        },
        Edit::SetSaturation(f, sat) => match m.spec_color(f) {
            Some(c) => m.spec_with_color(f, Some(ColorPair { hue: c.hue, sat })),
            None => m,
        },
        Edit::SetFlag(f, b) => match m.spec_flag(f) {
            Some(_) => m.spec_with_flag(f, Some(b)),
            None => m,
        },
    }
}

/// The single device write issued by one edit gesture, carrying the value the
/// mirror just took. Writes follow the gesture, not value-change detection: a
/// saturated gesture still issues its write. A gesture on an absent feature
/// issues none.
pub open spec fn write_issued(m: CapabilityMirror, e: Edit) -> Option<DeviceWrite> {
    match e {
        Edit::SetByte(f, v) => match m.spec_byte(f) {
            Some(_) => Some(DeviceWrite::Byte(f, v)),
            None => None,
        },
        Edit::Increment(f) => match m.spec_byte(f) {
            Some(v) => Some(DeviceWrite::Byte(f, sat_inc(v))),
            None => None,
        },
        Edit::Decrement(f) => match m.spec_byte(f) {
            Some(v) => Some(DeviceWrite::Byte(f, sat_dec(v))),
            None => None,
        },
        Edit::SetHue(f, hue) => match m.spec_color(f) {
            Some(c) => Some(DeviceWrite::Color(f, hue, c.sat)),
            None => None,
        },
        Edit::SetSaturation(f, sat) => match m.spec_color(f) {
            Some(c) => Some(DeviceWrite::Color(f, c.hue, sat)),
            None => None,
        },
        Edit::SetFlag(f, b) => match m.spec_flag(f) {
            Some(_) => Some(DeviceWrite::Flag(f, b)),
            None => None,
        },
    }
}

/// The feature addressed by an edit is absent from the mirror.
pub open spec fn edit_target_absent(m: CapabilityMirror, e: Edit) -> bool {
    match e {
        Edit::SetByte(f, _) => m.spec_byte(f) is None,
        Edit::Increment(f) => m.spec_byte(f) is None,
        Edit::Decrement(f) => m.spec_byte(f) is None,
        Edit::SetHue(f, _) => m.spec_color(f) is None,
        Edit::SetSaturation(f, _) => m.spec_color(f) is None,
        Edit::SetFlag(f, _) => m.spec_flag(f) is None,
    }
}

/// The edits that carry an explicit value, as opposed to the saturating
/// increment and decrement gestures.
pub open spec fn is_value_edit(e: Edit) -> bool {
    match e {
        Edit::SetByte(_, _) => true,
        Edit::Increment(_) => false,
        Edit::Decrement(_) => false,
        Edit::SetHue(_, _) => true,
        Edit::SetSaturation(_, _) => true,
        Edit::SetFlag(_, _) => true,
    }
}

impl CapabilityMirror {
    /// Write-through dispatch of one edit gesture: mutate the mirror first,
    /// then report the single device write to issue. The caller performs the
    /// write and discards its outcome; the mirror above never depends on it.
    pub fn apply_edit(&mut self, e: Edit) -> (w: Option<DeviceWrite>)
        ensures
            *final(self) == mirror_after(*old(self), e),
            w == write_issued(*old(self), e),
    {
        match e {
            Edit::SetByte(f, v) => self.write_byte(f, v),
            Edit::Increment(f) => match self.byte_value(f) {
                Some(v) => self.write_byte(f, if v == 255 { 255 } else { v + 1 }),
                None => None,
            },
            Edit::Decrement(f) => match self.byte_value(f) {
                Some(v) => self.write_byte(f, if v == 0 { 0 } else { v - 1 }),
                None => None,
            },
            Edit::SetHue(f, hue) => match self.color_value(f) {
                Some(c) => self.write_color(f, hue, c.sat),
                None => None,
            },
            Edit::SetSaturation(f, sat) => match self.color_value(f) {
                Some(c) => self.write_color(f, c.hue, sat),
                None => None,
            },
            Edit::SetFlag(f, b) => self.write_flag(f, b),
        }
    }

    /// Store one 8-bit value and report the matching device write; a store to
    /// an absent slot is refused.
    fn write_byte(&mut self, f: ByteFeature, v: u8) -> (w: Option<DeviceWrite>)
        ensures
            old(self).spec_byte(f) is Some ==> *final(self) == old(self).spec_with_byte(
                f,
                Some(v),
            ) && w == Some(DeviceWrite::Byte(f, v)),
            old(self).spec_byte(f) is None ==> *final(self) == *old(self) && w is None,
    {
        match f {
            ByteFeature::BacklightBrightness => {
                if self.backlight_brightness.is_some() {
                    self.backlight_brightness = Some(v);
                    Some(DeviceWrite::Byte(f, v))
                } else {
                    None
                }
            },
            ByteFeature::BacklightEffect => {
                if self.backlight_effect.is_some() {
                    self.backlight_effect = Some(v);
                    Some(DeviceWrite::Byte(f, v))
                } else {
                    None
                }
            },
            ByteFeature::RgblightBrightness => {
                if self.rgblight_brightness.is_some() {
                    self.rgblight_brightness = Some(v);
                    Some(DeviceWrite::Byte(f, v))
                } else {
                    None
                }
            },
            ByteFeature::RgblightEffect => {
                if self.rgblight_effect.is_some() {
                    self.rgblight_effect = Some(v);
                    Some(DeviceWrite::Byte(f, v))
                } else {
                    None
                }
            },
            ByteFeature::RgblightEffectSpeed => {
                if self.rgblight_effect_speed.is_some() {
                    self.rgblight_effect_speed = Some(v);
                    Some(DeviceWrite::Byte(f, v))
                } else {
                    None
                }
            },
            ByteFeature::RgbMatrixBrightness => {
                if self.rgb_matrix_brightness.is_some() {
                    self.rgb_matrix_brightness = Some(v);
                    Some(DeviceWrite::Byte(f, v))
                } else {
                    None
                }
            },
            ByteFeature::RgbMatrixEffect => {
                if self.rgb_matrix_effect.is_some() {
                    self.rgb_matrix_effect = Some(v);
                    Some(DeviceWrite::Byte(f, v))
                } else {
                    None
                }
            },
            ByteFeature::RgbMatrixEffectSpeed => {
                if self.rgb_matrix_effect_speed.is_some() {
                    self.rgb_matrix_effect_speed = Some(v);
                    Some(DeviceWrite::Byte(f, v))
                } else {
                    None
                }
            },
            ByteFeature::LedMatrixBrightness => {
                if self.led_matrix_brightness.is_some() {
                    self.led_matrix_brightness = Some(v);
                    Some(DeviceWrite::Byte(f, v))
                } else {
                    None
                }
            },
            ByteFeature::LedMatrixEffect => {
                if self.led_matrix_effect.is_some() {
                    self.led_matrix_effect = Some(v);
                    Some(DeviceWrite::Byte(f, v))
                } else {
                    None
                }
            },
            ByteFeature::LedMatrixEffectSpeed => {
                if self.led_matrix_effect_speed.is_some() {
                    self.led_matrix_effect_speed = Some(v);
                    Some(DeviceWrite::Byte(f, v))
                } else {
                    None
                }
            },
        }
    }

    /// Store one whole color pair and report the matching device write; a
    /// store to an absent slot is refused.
    fn write_color(&mut self, f: ColorFeature, hue: u8, sat: u8) -> (w: Option<DeviceWrite>)
        ensures
            old(self).spec_color(f) is Some ==> *final(self) == old(self).spec_with_color(
                f,
                Some(ColorPair { hue, sat }),
            ) && w == Some(DeviceWrite::Color(f, hue, sat)),
            old(self).spec_color(f) is None ==> *final(self) == *old(self) && w is None,
    {
        match f {
            ColorFeature::Rgblight => {
                if self.rgblight_color.is_some() {
                    self.rgblight_color = Some(ColorPair { hue, sat });
                    Some(DeviceWrite::Color(f, hue, sat))
                } else {
                    None
                }
            },
            ColorFeature::RgbMatrix => {
                if self.rgb_matrix_color.is_some() {
                    self.rgb_matrix_color = Some(ColorPair { hue, sat });
                    Some(DeviceWrite::Color(f, hue, sat))
                } else {
                    None
                }
            },
        }
    }

    /// Store one on/off value and report the matching device write; a store
    /// to an absent slot is refused.
    fn write_flag(&mut self, f: FlagFeature, b: bool) -> (w: Option<DeviceWrite>)
        ensures
            old(self).spec_flag(f) is Some ==> *final(self) == old(self).spec_with_flag(
                f,
                Some(b),
            ) && w == Some(DeviceWrite::Flag(f, b)),
            old(self).spec_flag(f) is None ==> *final(self) == *old(self) && w is None,
    {
        match f {
            FlagFeature::AudioEnabled => {
                if self.audio_enabled.is_some() {
                    self.audio_enabled = Some(b);
                    Some(DeviceWrite::Flag(f, b))
                } else {
                    None
                }
            },
            FlagFeature::AudioClickyEnabled => {
                if self.audio_clicky_enabled.is_some() {
                    self.audio_clicky_enabled = Some(b);
                    Some(DeviceWrite::Flag(f, b))
                } else {
                    None
                }
            },
        }
    }
}

/// A feature the device does not implement is never written: an edit gesture
/// whose target the mirror marks absent changes nothing and issues no device
/// write at all.
pub proof fn lemma_absent_feature_never_written(m: CapabilityMirror, e: Edit)
    requires
        edit_target_absent(m, e),
    ensures
        mirror_after(m, e) == m,
        write_issued(m, e) is None,
{
}

/// Editing never changes which 8-bit settings are present: presence is fixed
/// at discovery and holds for the rest of the session.
pub proof fn lemma_edit_preserves_byte_presence(m: CapabilityMirror, e: Edit, f: ByteFeature)
    ensures
        mirror_after(m, e).spec_byte(f) is Some <==> m.spec_byte(f) is Some,
{
}

/// Editing never changes which color pairs are present.
pub proof fn lemma_edit_preserves_color_presence(m: CapabilityMirror, e: Edit, f: ColorFeature)
    ensures
        mirror_after(m, e).spec_color(f) is Some <==> m.spec_color(f) is Some,
{
}

/// Editing never changes which on/off settings are present.
pub proof fn lemma_edit_preserves_flag_presence(m: CapabilityMirror, e: Edit, f: FlagFeature)
    ensures
        mirror_after(m, e).spec_flag(f) is Some <==> m.spec_flag(f) is Some,
{
}

/// Write-through is idempotent for value-carrying edits: issuing the same
/// write value twice in succession leaves the mirror unchanged between the
/// two gestures, and each gesture still issues the same device write — one
/// write per gesture, two in all.
pub proof fn lemma_same_write_twice(m: CapabilityMirror, e: Edit)
    requires
        is_value_edit(e),
    ensures
        mirror_after(mirror_after(m, e), e) == mirror_after(m, e),
        write_issued(mirror_after(m, e), e) == write_issued(m, e),
{
}

/// Saturation at the bottom of the domain: a decrement gesture on a setting
/// at 0 leaves the mirror at 0 and still issues exactly one device write
/// carrying 0 — the write follows the gesture, not a value change.
pub proof fn lemma_decrement_saturates(m: CapabilityMirror, f: ByteFeature)
    requires
        m.spec_byte(f) == Some(0u8),
    ensures
        mirror_after(m, Edit::Decrement(f)) == m,
        write_issued(m, Edit::Decrement(f)) == Some(DeviceWrite::Byte(f, 0u8)),
{
}

/// Saturation at the top of the domain: an increment gesture on a setting at
/// 255 leaves the mirror at 255 and still issues exactly one device write
/// carrying 255.
pub proof fn lemma_increment_saturates(m: CapabilityMirror, f: ByteFeature)
    requires
        m.spec_byte(f) == Some(255u8),
    ensures
        mirror_after(m, Edit::Increment(f)) == m,
        write_issued(m, Edit::Increment(f)) == Some(DeviceWrite::Byte(f, 255u8)),
{
}

/// The mirror after a whole session of edit gestures, applied in order.
pub open spec fn mirror_after_all(m: CapabilityMirror, es: Seq<Edit>) -> CapabilityMirror
    decreases es.len(),
{
    if es.len() == 0 {
        m
    } else {
        mirror_after(mirror_after_all(m, es.drop_last()), es.last())
    }
}

/// The write is for the given 8-bit setting.
pub open spec fn write_targets_byte(w: Option<DeviceWrite>, f: ByteFeature) -> bool {
    w matches Some(DeviceWrite::Byte(g, _)) && g == f
}

/// The write is for the given color pair.
pub open spec fn write_targets_color(w: Option<DeviceWrite>, f: ColorFeature) -> bool {
    w matches Some(DeviceWrite::Color(g, _, _)) && g == f
}

/// The write is for the given on/off setting.
pub open spec fn write_targets_flag(w: Option<DeviceWrite>, f: FlagFeature) -> bool {
    w matches Some(DeviceWrite::Flag(g, _)) && g == f
}

/// An 8-bit setting absent at discovery is still absent after any prefix of
/// the session's gestures.
proof fn lemma_absent_byte_prefix(m: CapabilityMirror, es: Seq<Edit>, i: int, f: ByteFeature)
    requires
        m.spec_byte(f) is None,
        0 <= i <= es.len(),
    ensures
        mirror_after_all(m, es.take(i)).spec_byte(f) is None,
    decreases i,
{
    if i == 0 {
        assert(es.take(0) =~= Seq::<Edit>::empty());
    } else {
        lemma_absent_byte_prefix(m, es, i - 1, f);
        assert(es.take(i).drop_last() =~= es.take(i - 1));
        lemma_edit_preserves_byte_presence(mirror_after_all(m, es.take(i - 1)), es[i - 1], f);
    }
}

/// A color pair absent at discovery is still absent after any prefix of the
/// session's gestures.
proof fn lemma_absent_color_prefix(m: CapabilityMirror, es: Seq<Edit>, i: int, f: ColorFeature)
    requires
        m.spec_color(f) is None,
        0 <= i <= es.len(),
    ensures
        mirror_after_all(m, es.take(i)).spec_color(f) is None,
    decreases i,
{
    if i == 0 {
        assert(es.take(0) =~= Seq::<Edit>::empty());
    } else {
        lemma_absent_color_prefix(m, es, i - 1, f);
        assert(es.take(i).drop_last() =~= es.take(i - 1));
        lemma_edit_preserves_color_presence(mirror_after_all(m, es.take(i - 1)), es[i - 1], f);
    }
}

/// An on/off setting absent at discovery is still absent after any prefix of
/// the session's gestures.
proof fn lemma_absent_flag_prefix(m: CapabilityMirror, es: Seq<Edit>, i: int, f: FlagFeature)
    requires
        m.spec_flag(f) is None,
        0 <= i <= es.len(),
    ensures
        mirror_after_all(m, es.take(i)).spec_flag(f) is None,
    decreases i,
{
    if i == 0 {
        assert(es.take(0) =~= Seq::<Edit>::empty());
    } else {
        lemma_absent_flag_prefix(m, es, i - 1, f);
        assert(es.take(i).drop_last() =~= es.take(i - 1));
        lemma_edit_preserves_flag_presence(mirror_after_all(m, es.take(i - 1)), es[i - 1], f);
    }
}

/// Over a whole session: an 8-bit setting marked absent at discovery stays
/// absent to the session's end, and no gesture of the session — the `i`-th,
/// for any `i` — issues a device write for it. Reads are not re-probed either:
/// in this core a read exists only as part of discovery.
pub proof fn lemma_absent_byte_never_written(m: CapabilityMirror, es: Seq<Edit>, i: int, f: ByteFeature)
    requires
        m.spec_byte(f) is None,
        0 <= i < es.len(),
    ensures
        mirror_after_all(m, es).spec_byte(f) is None,
        !write_targets_byte(write_issued(mirror_after_all(m, es.take(i)), es[i]), f),
{
    assert(es.take(es.len() as int) =~= es);
    lemma_absent_byte_prefix(m, es, es.len() as int, f);
    lemma_absent_byte_prefix(m, es, i, f);
}

/// Over a whole session: a color pair marked absent at discovery stays absent
/// and never receives a device write.
pub proof fn lemma_absent_color_never_written(m: CapabilityMirror, es: Seq<Edit>, i: int, f: ColorFeature)
    requires
        m.spec_color(f) is None,
        0 <= i < es.len(),
    ensures
        mirror_after_all(m, es).spec_color(f) is None,
        !write_targets_color(write_issued(mirror_after_all(m, es.take(i)), es[i]), f),
{
    assert(es.take(es.len() as int) =~= es);
    lemma_absent_color_prefix(m, es, es.len() as int, f);
    lemma_absent_color_prefix(m, es, i, f);
}

/// Over a whole session: an on/off setting marked absent at discovery stays
/// absent and never receives a device write.
pub proof fn lemma_absent_flag_never_written(m: CapabilityMirror, es: Seq<Edit>, i: int, f: FlagFeature)
    requires
        m.spec_flag(f) is None,
        0 <= i < es.len(),
    ensures
        mirror_after_all(m, es).spec_flag(f) is None,
        !write_targets_flag(write_issued(mirror_after_all(m, es.take(i)), es[i]), f),
{
    assert(es.take(es.len() as int) =~= es);
    lemma_absent_flag_prefix(m, es, es.len() as int, f);
    lemma_absent_flag_prefix(m, es, i, f);
}

/// Color pair integrity: an edit of the hue component alone issues one device
/// write that carries the unchanged saturation component alongside the new
/// hue, and the mirror keeps that same pair; the saturation edit is
/// symmetric with the hue it keeps.
pub proof fn lemma_color_pair_integrity(m: CapabilityMirror, cf: ColorFeature, v: u8, c0: ColorPair)
    requires
        m.spec_color(cf) == Some(c0),
    ensures
        write_issued(m, Edit::SetHue(cf, v)) == Some(DeviceWrite::Color(cf, v, c0.sat)),
        mirror_after(m, Edit::SetHue(cf, v)).spec_color(cf) == Some(
            ColorPair { hue: v, sat: c0.sat },
        ),
        write_issued(m, Edit::SetSaturation(cf, v)) == Some(DeviceWrite::Color(cf, c0.hue, v)),
        mirror_after(m, Edit::SetSaturation(cf, v)).spec_color(cf) == Some(
            ColorPair { hue: c0.hue, sat: v },
        ),
{
}

} // verus!
