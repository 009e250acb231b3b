//! The tool's default configuration for new text: font, size, spacing and fill.

use vstd::prelude::*;

verus! {

/// An sRGB color with straight alpha, one byte per channel.
#[derive(Clone, Copy, Debug, PartialEq, Eq, Structural)]
pub struct Rgba {
    pub r: u8,
    pub g: u8,
    pub b: u8,
    pub a: u8,
}

impl Rgba {
    /// The opaque gray whose three channels are `v`.
    pub open spec fn gray(v: u8) -> Rgba {
        Rgba { r: v, g: v, b: v, a: 255 }
    }

    pub fn black() -> (r: Rgba)
        ensures
            r == Rgba::gray(0),
    {
        Rgba { r: 0, g: 0, b: 0, a: 255 }
    }

    pub fn white() -> (r: Rgba)
        ensures
            r == Rgba::gray(255),
    {
        Rgba { r: 255, g: 255, b: 255, a: 255 }
    }
}

/// Family of the font that new text uses until another is chosen.
pub const DEFAULT_FONT_FAMILY: &'static str = "Cabin";

/// Style of the font that new text uses until another is chosen.
pub const DEFAULT_FONT_STYLE: &'static str = "Normal (400)";

/// Which color fills new text.
#[derive(Clone, Copy, Debug, PartialEq, Eq, Structural)]
pub enum ToolColorType {
    Primary,
    Secondary,
    Custom,
}

/// The fill configuration: a mode, a custom color, and the last known global
/// working colors.
#[derive(Clone, Copy, Debug, PartialEq, Eq, Structural)]
pub struct ToolColorOptions {
    pub color_type: ToolColorType,
    pub custom_color: Option<Rgba>,
    pub primary_working_color: Option<Rgba>,
    pub secondary_working_color: Option<Rgba>,
}

impl ToolColorOptions {
    /// Fill with the primary working color, black until told otherwise.
    pub fn new_primary() -> (r: ToolColorOptions)
        ensures
            r.color_type == ToolColorType::Primary,
            r.custom_color == Some(Rgba::gray(0)),
            r.primary_working_color == Some(Rgba::gray(0)),
            r.secondary_working_color == Some(Rgba::gray(255)),
    {
        ToolColorOptions {
            color_type: ToolColorType::Primary,
            custom_color: Some(Rgba::black()),
            primary_working_color: Some(Rgba::black()),
            secondary_working_color: Some(Rgba::white()),
        }
    }

    /// The color that the current mode selects; `None` means no fill.
    pub open spec fn active(self) -> Option<Rgba> {
        match self.color_type {
            ToolColorType::Primary => self.primary_working_color,
            ToolColorType::Secondary => self.secondary_working_color,
            ToolColorType::Custom => self.custom_color,
        }
    }

    pub fn active_color(&self) -> (r: Option<Rgba>)
        ensures
            r == self.active(),
    {
        match self.color_type {
            ToolColorType::Primary => self.primary_working_color,
            ToolColorType::Secondary => self.secondary_working_color,
            ToolColorType::Custom => self.custom_color,
        }
    }
}

/// Defaults for new text. Sizes are in canvas units; the two ratios are in
/// hundredths (`120` is a line height of 1.2 times the font size).
#[derive(Debug)]
pub struct TextOptions {
    pub font_size: u32,
    pub line_height_ratio: u32,
    pub character_spacing: u32,
    pub font_name: String,
    pub font_style: String,
    pub fill: ToolColorOptions,
}

/// A change to one of the defaults.
#[derive(Debug)]
pub enum TextOptionsUpdate {
    FillColor(Option<Rgba>),
    FillColorType(ToolColorType),
    Font { family: String, style: String },
    FontSize(u32),
    LineHeightRatio(u32),
    CharacterSpacing(u32),
    WorkingColors(Option<Rgba>, Option<Rgba>),
}

impl Default for TextOptions {
    fn default() -> (r: TextOptions)
        ensures
            r.font_size == 24,
            r.line_height_ratio == 120,
            r.character_spacing == 100,
            r.font_name@ == DEFAULT_FONT_FAMILY@,
            r.font_style@ == DEFAULT_FONT_STYLE@,
            r.fill.color_type == ToolColorType::Primary,
            r.fill.custom_color == Some(Rgba::gray(0)),
            r.fill.primary_working_color == Some(Rgba::gray(0)),
            r.fill.secondary_working_color == Some(Rgba::gray(255)),
    {
        TextOptions {
            font_size: 24,
            line_height_ratio: 120,
            character_spacing: 100,
            font_name: DEFAULT_FONT_FAMILY.to_owned(),
            font_style: DEFAULT_FONT_STYLE.to_owned(),
            fill: ToolColorOptions::new_primary(),
        }
    }
}

impl TextOptions {
    /// The options after `u`: the field it names takes its value, and choosing
    /// a custom fill color also switches the fill to the custom mode.
    pub open spec fn updated(self, u: TextOptionsUpdate) -> TextOptions {
        match u {
            TextOptionsUpdate::FillColor(c) => TextOptions {
                fill: ToolColorOptions { custom_color: c, color_type: ToolColorType::Custom, ..self.fill },
                ..self
            },
            TextOptionsUpdate::FillColorType(t) => TextOptions {
                fill: ToolColorOptions { color_type: t, ..self.fill },
                ..self
            },
            TextOptionsUpdate::Font { family, style } => TextOptions { font_name: family, font_style: style, ..self },
            TextOptionsUpdate::FontSize(v) => TextOptions { font_size: v, ..self },
            TextOptionsUpdate::LineHeightRatio(v) => TextOptions { line_height_ratio: v, ..self },
            TextOptionsUpdate::CharacterSpacing(v) => TextOptions { character_spacing: v, ..self },
            TextOptionsUpdate::WorkingColors(p, s) => TextOptions {
                fill: ToolColorOptions { primary_working_color: p, secondary_working_color: s, ..self.fill },
                ..self
            },
        }
    }

    /// Applies one change to the defaults.
    pub fn apply(&mut self, update: TextOptionsUpdate)
        ensures
            *final(self) == old(self).updated(update),
    {
        match update {
            TextOptionsUpdate::FillColor(color) => {
                self.fill.custom_color = color;
                self.fill.color_type = ToolColorType::Custom;
            },
            TextOptionsUpdate::FillColorType(color_type) => self.fill.color_type = color_type,
            TextOptionsUpdate::Font { family, style } => {
                self.font_name = family;
                self.font_style = style;
            },
            TextOptionsUpdate::FontSize(font_size) => self.font_size = font_size,
            TextOptionsUpdate::LineHeightRatio(ratio) => self.line_height_ratio = ratio,
            TextOptionsUpdate::CharacterSpacing(spacing) => self.character_spacing = spacing,
            TextOptionsUpdate::WorkingColors(primary, secondary) => {
                self.fill.primary_working_color = primary;
                self.fill.secondary_working_color = secondary;
            },
        }
    }
}

} // verus!
