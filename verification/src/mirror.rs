//! The capability mirror: a local optional-valued snapshot of every device
//! setting, populated once by capability discovery at connection time.

use vstd::prelude::*;

verus! {

/// The individually addressable 8-bit lighting settings.
#[derive(Clone, Copy, PartialEq, Eq, Structural, Debug)]
pub enum ByteFeature {
    BacklightBrightness,
    BacklightEffect,
    RgblightBrightness,
    RgblightEffect,
    RgblightEffectSpeed,
    RgbMatrixBrightness,
    RgbMatrixEffect,
    RgbMatrixEffectSpeed,
    LedMatrixBrightness,
    LedMatrixEffect,
    LedMatrixEffectSpeed,
}

/// The lighting groups that carry a (hue, saturation) color pair.
#[derive(Clone, Copy, PartialEq, Eq, Structural, Debug)]
pub enum ColorFeature {
    Rgblight,
    RgbMatrix,
}

/// The on/off audio settings.
#[derive(Clone, Copy, PartialEq, Eq, Structural, Debug)]
pub enum FlagFeature {
    AudioEnabled,
    AudioClickyEnabled,
}

/// A color as the device stores it: hue and saturation, eight bits each.
/// Brightness is a separate setting; a rendered preview that adds full
/// brightness is display-only and never sent to the device.
#[derive(Clone, Copy, PartialEq, Eq, Structural, Debug)]
pub struct ColorPair {
    pub hue: u8,
    pub sat: u8,
}

/// The editor panels of the surface; each is enabled by the presence of one
/// mirrored setting.
#[derive(Clone, Copy, PartialEq, Eq, Structural, Debug)]
pub enum EditorSection {
    Audio,
    Backlight,
    Rgblight,
    RgbMatrix,
    LedMatrix,
}

/// Local snapshot of the device's settings. Every feature is independently
/// present with a value or absent (the device does not implement it);
/// presence is decided once, at discovery, and never re-probed.
#[derive(Clone, Copy, PartialEq, Eq, Debug)]
pub struct CapabilityMirror {
    pub backlight_brightness: Option<u8>,
    pub backlight_effect: Option<u8>,
    pub rgblight_brightness: Option<u8>,
    pub rgblight_effect: Option<u8>,
    pub rgblight_effect_speed: Option<u8>,
    pub rgblight_color: Option<ColorPair>,
    pub rgb_matrix_brightness: Option<u8>,
    pub rgb_matrix_effect: Option<u8>,
    pub rgb_matrix_effect_speed: Option<u8>,
    pub rgb_matrix_color: Option<ColorPair>,
    pub led_matrix_brightness: Option<u8>,
    pub led_matrix_effect: Option<u8>,
    pub led_matrix_effect_speed: Option<u8>,
    pub protocol_version: Option<u16>,
    pub layer_count: Option<u8>,
    pub macro_count: Option<u8>,
    pub audio_enabled: Option<bool>,
    pub audio_clicky_enabled: Option<bool>,
}

impl CapabilityMirror {
    /// The mirror before discovery: every feature absent.
    pub open spec fn spec_absent() -> Self {
        CapabilityMirror {
            backlight_brightness: None,
            backlight_effect: None,
            rgblight_brightness: None,
            rgblight_effect: None,
            rgblight_effect_speed: None,
            rgblight_color: None,
            rgb_matrix_brightness: None,
            rgb_matrix_effect: None,
            rgb_matrix_effect_speed: None,
            rgb_matrix_color: None,
            led_matrix_brightness: None,
            led_matrix_effect: None,
            led_matrix_effect_speed: None,
            protocol_version: None,
            layer_count: None,
            macro_count: None,
            audio_enabled: None,
            audio_clicky_enabled: None,
        }
    }

    /// The mirrored value of an 8-bit setting.
    pub open spec fn spec_byte(self, f: ByteFeature) -> Option<u8> {
        match f {
            ByteFeature::BacklightBrightness => self.backlight_brightness,
            ByteFeature::BacklightEffect => self.backlight_effect,
            ByteFeature::RgblightBrightness => self.rgblight_brightness,
            ByteFeature::RgblightEffect => self.rgblight_effect,
            ByteFeature::RgblightEffectSpeed => self.rgblight_effect_speed,
            ByteFeature::RgbMatrixBrightness => self.rgb_matrix_brightness,
            ByteFeature::RgbMatrixEffect => self.rgb_matrix_effect,
            ByteFeature::RgbMatrixEffectSpeed => self.rgb_matrix_effect_speed,
            ByteFeature::LedMatrixBrightness => self.led_matrix_brightness,
            ByteFeature::LedMatrixEffect => self.led_matrix_effect,
            ByteFeature::LedMatrixEffectSpeed => self.led_matrix_effect_speed,
        }
    }

    /// The mirrored color pair of a lighting group.
    pub open spec fn spec_color(self, f: ColorFeature) -> Option<ColorPair> {
        match f {
            ColorFeature::Rgblight => self.rgblight_color,
            ColorFeature::RgbMatrix => self.rgb_matrix_color,
        }
    }

    /// The mirrored value of an on/off setting.
    pub open spec fn spec_flag(self, f: FlagFeature) -> Option<bool> {
        match f {
            FlagFeature::AudioEnabled => self.audio_enabled,
            FlagFeature::AudioClickyEnabled => self.audio_clicky_enabled,
        }
    }

    /// The mirror with one 8-bit slot replaced; every other slot unchanged.
    pub open spec fn spec_with_byte(self, f: ByteFeature, v: Option<u8>) -> Self {
        match f {
            ByteFeature::BacklightBrightness => CapabilityMirror { backlight_brightness: v, ..self },
            ByteFeature::BacklightEffect => CapabilityMirror { backlight_effect: v, ..self },
            ByteFeature::RgblightBrightness => CapabilityMirror { rgblight_brightness: v, ..self },
            ByteFeature::RgblightEffect => CapabilityMirror { rgblight_effect: v, ..self },
            ByteFeature::RgblightEffectSpeed => CapabilityMirror { rgblight_effect_speed: v, ..self },
            ByteFeature::RgbMatrixBrightness => CapabilityMirror { rgb_matrix_brightness: v, ..self },
            ByteFeature::RgbMatrixEffect => CapabilityMirror { rgb_matrix_effect: v, ..self },
            ByteFeature::RgbMatrixEffectSpeed => CapabilityMirror { rgb_matrix_effect_speed: v, ..self },
            ByteFeature::LedMatrixBrightness => CapabilityMirror { led_matrix_brightness: v, ..self },
            ByteFeature::LedMatrixEffect => CapabilityMirror { led_matrix_effect: v, ..self },
            ByteFeature::LedMatrixEffectSpeed => CapabilityMirror { led_matrix_effect_speed: v, ..self },
        }
    }

    /// The mirror with one color slot replaced; every other slot unchanged.
    pub open spec fn spec_with_color(self, f: ColorFeature, v: Option<ColorPair>) -> Self {
        match f {
            ColorFeature::Rgblight => CapabilityMirror { rgblight_color: v, ..self },
            ColorFeature::RgbMatrix => CapabilityMirror { rgb_matrix_color: v, ..self },
        }
    }

    /// The mirror with one on/off slot replaced; every other slot unchanged.
    pub open spec fn spec_with_flag(self, f: FlagFeature, v: Option<bool>) -> Self {
        match f {
            FlagFeature::AudioEnabled => CapabilityMirror { audio_enabled: v, ..self },
            FlagFeature::AudioClickyEnabled => CapabilityMirror { audio_clicky_enabled: v, ..self },
        }
    }

    /// Whether a panel of the editing surface is enabled: each panel is keyed
    /// by the presence of its leading setting in the mirror.
    pub open spec fn spec_section_enabled(self, s: EditorSection) -> bool {
        match s {
            EditorSection::Audio => self.audio_enabled is Some,
            EditorSection::Backlight => self.backlight_brightness is Some,
            EditorSection::Rgblight => self.rgblight_brightness is Some,
            EditorSection::RgbMatrix => self.rgb_matrix_brightness is Some,
            EditorSection::LedMatrix => self.led_matrix_brightness is Some,
        }
    }

    /// The empty mirror that discovery starts from.
    pub fn absent() -> (m: Self)
        ensures
            m == Self::spec_absent(),
    {
        CapabilityMirror {
            backlight_brightness: None,
            backlight_effect: None,
            rgblight_brightness: None,
            rgblight_effect: None,
            rgblight_effect_speed: None,
            rgblight_color: None,
            rgb_matrix_brightness: None,
            rgb_matrix_effect: None,
            rgb_matrix_effect_speed: None,
            rgb_matrix_color: None,
            led_matrix_brightness: None,
            led_matrix_effect: None,
            led_matrix_effect_speed: None,
            protocol_version: None,
            layer_count: None,
            macro_count: None,
            audio_enabled: None,
            audio_clicky_enabled: None,
        }
    }

    /// Read one 8-bit setting out of the mirror.
    pub fn byte_value(&self, f: ByteFeature) -> (r: Option<u8>)
        ensures
            r == self.spec_byte(f),
    {
        match f {
            ByteFeature::BacklightBrightness => self.backlight_brightness,
            ByteFeature::BacklightEffect => self.backlight_effect,
            ByteFeature::RgblightBrightness => self.rgblight_brightness,
            ByteFeature::RgblightEffect => self.rgblight_effect,
            ByteFeature::RgblightEffectSpeed => self.rgblight_effect_speed,
            ByteFeature::RgbMatrixBrightness => self.rgb_matrix_brightness,
            ByteFeature::RgbMatrixEffect => self.rgb_matrix_effect,
            ByteFeature::RgbMatrixEffectSpeed => self.rgb_matrix_effect_speed,
            ByteFeature::LedMatrixBrightness => self.led_matrix_brightness,
            ByteFeature::LedMatrixEffect => self.led_matrix_effect,
            ByteFeature::LedMatrixEffectSpeed => self.led_matrix_effect_speed,
        }
    }

    /// Read one color pair out of the mirror.
    pub fn color_value(&self, f: ColorFeature) -> (r: Option<ColorPair>)
        ensures
            r == self.spec_color(f),
    {
        match f {
            ColorFeature::Rgblight => self.rgblight_color,
            ColorFeature::RgbMatrix => self.rgb_matrix_color,
        }
    }

    /// Read one on/off setting out of the mirror.
    pub fn flag_value(&self, f: FlagFeature) -> (r: Option<bool>)
        ensures
            r == self.spec_flag(f),
    {
        match f {
            FlagFeature::AudioEnabled => self.audio_enabled,
            FlagFeature::AudioClickyEnabled => self.audio_clicky_enabled,
        }
    }

    /// Record the discovery read of one 8-bit setting: the slot takes exactly
    /// what the read returned, value or absence signal; nothing else moves.
    pub fn record_byte(&mut self, f: ByteFeature, r: Option<u8>)
        ensures
            *final(self) == old(self).spec_with_byte(f, r),
    {
        match f {
            ByteFeature::BacklightBrightness => {
                self.backlight_brightness = r;
            },
            ByteFeature::BacklightEffect => {
                self.backlight_effect = r;
            },
            ByteFeature::RgblightBrightness => {
                self.rgblight_brightness = r;
            },
            ByteFeature::RgblightEffect => {
                self.rgblight_effect = r;
            },
            ByteFeature::RgblightEffectSpeed => {
                self.rgblight_effect_speed = r;
            },
            ByteFeature::RgbMatrixBrightness => {
                self.rgb_matrix_brightness = r;
            },
            ByteFeature::RgbMatrixEffect => {
                self.rgb_matrix_effect = r;
            },
            ByteFeature::RgbMatrixEffectSpeed => {
                self.rgb_matrix_effect_speed = r;
            },
            ByteFeature::LedMatrixBrightness => {
                self.led_matrix_brightness = r;
            },
            ByteFeature::LedMatrixEffect => {
                self.led_matrix_effect = r;
            },
            ByteFeature::LedMatrixEffectSpeed => {
                self.led_matrix_effect_speed = r;
            },
        }
    }

    /// Record the discovery read of one color pair.
    pub fn record_color(&mut self, f: ColorFeature, r: Option<ColorPair>)
        ensures
            *final(self) == old(self).spec_with_color(f, r),
    {
        match f {
            ColorFeature::Rgblight => {
                self.rgblight_color = r;
            },
            ColorFeature::RgbMatrix => {
                self.rgb_matrix_color = r;
            },
        }
    }

    /// Record the discovery read of one on/off setting.
    pub fn record_flag(&mut self, f: FlagFeature, r: Option<bool>)
        ensures
            *final(self) == old(self).spec_with_flag(f, r),
    {
        match f {
            FlagFeature::AudioEnabled => {
                self.audio_enabled = r;
            },
            FlagFeature::AudioClickyEnabled => {
                self.audio_clicky_enabled = r;
            },
        }
    }

    /// Record the discovery reads of the read-only device information:
    /// protocol version, layer count and macro count have no editor and are
    /// never written back.
    pub fn record_info(
        &mut self,
        protocol_version: Option<u16>,
        layer_count: Option<u8>,
        macro_count: Option<u8>,
    )
        ensures
            *final(self) == (CapabilityMirror {
                protocol_version,
                layer_count,
                macro_count,
                ..*old(self)
            }),
    {
        self.protocol_version = protocol_version;
        self.layer_count = layer_count;
        self.macro_count = macro_count;
    }

    /// Whether a panel of the editing surface is enabled.
    pub fn section_enabled(&self, s: EditorSection) -> (r: bool)
        ensures
            r == self.spec_section_enabled(s),
    {
        match s {
            EditorSection::Audio => self.audio_enabled.is_some(),
            EditorSection::Backlight => self.backlight_brightness.is_some(),
            EditorSection::Rgblight => self.rgblight_brightness.is_some(),
            EditorSection::RgbMatrix => self.rgb_matrix_brightness.is_some(),
            EditorSection::LedMatrix => self.led_matrix_brightness.is_some(),
        }
    }
}

/// Discovery order does not affect the outcome: reads have no side effects
/// and no slot depends on another, so recording the reads of two distinct
/// 8-bit settings commutes — and by exchange, so does any discovery order.
pub proof fn lemma_record_byte_commutes(
    m: CapabilityMirror,
    f: ByteFeature,
    r: Option<u8>,
    g: ByteFeature,
    q: Option<u8>,
)
    requires
        f != g,
    ensures
        m.spec_with_byte(f, r).spec_with_byte(g, q) == m.spec_with_byte(g, q).spec_with_byte(f, r),
{
}

/// Recording the reads of the two distinct color pairs commutes.
pub proof fn lemma_record_color_commutes(
    m: CapabilityMirror,
    f: ColorFeature,
    r: Option<ColorPair>,
    g: ColorFeature,
    q: Option<ColorPair>,
)
    requires
        f != g,
    ensures
        m.spec_with_color(f, r).spec_with_color(g, q) == m.spec_with_color(g, q).spec_with_color(
            f,
            r,
        ),
{
}

/// Recording the reads of two distinct on/off settings commutes.
pub proof fn lemma_record_flag_commutes(
    m: CapabilityMirror,
    f: FlagFeature,
    r: Option<bool>,
    g: FlagFeature,
    q: Option<bool>,
)
    requires
        f != g,
    ensures
        m.spec_with_flag(f, r).spec_with_flag(g, q) == m.spec_with_flag(g, q).spec_with_flag(f, r),
{
}

/// Recording reads of settings of different kinds always commutes: the three
/// kinds of slot never overlap.
pub proof fn lemma_record_kinds_commute(
    m: CapabilityMirror,
    f: ByteFeature,
    r: Option<u8>,
    cf: ColorFeature,
    cq: Option<ColorPair>,
    bf: FlagFeature,
    bq: Option<bool>,
)
    ensures
        m.spec_with_byte(f, r).spec_with_color(cf, cq) == m.spec_with_color(cf, cq).spec_with_byte(
            f,
            r,
        ),
        m.spec_with_byte(f, r).spec_with_flag(bf, bq) == m.spec_with_flag(bf, bq).spec_with_byte(
            f,
            r,
        ),
        m.spec_with_color(cf, cq).spec_with_flag(bf, bq) == m.spec_with_flag(
            bf,
            bq,
        ).spec_with_color(cf, cq),
{
}

} // verus!
