use vstd::prelude::*;

verus! {

/// An sRGB color with alpha.
#[derive(Debug, Clone, Copy, PartialEq, Eq, Structural)]
pub struct Rgba {
    pub r: u8,
    pub g: u8,
    pub b: u8,
    pub a: u8,
}

pub open spec fn rgb(r: u8, g: u8, b: u8) -> Rgba {
    Rgba { r, g, b, a: 255 }
}

/// The semantic color slots of a theme.
#[derive(Debug, Clone, Copy, PartialEq, Eq, Structural)]
pub enum ThemeToken {
    BgCanvas,
    BgHeader,
    BgPanel,
    BgPanelHeader,
    BgSurface,
    BgSurfaceHover,
    BgSurfaceActive,
    TextPrimary,
    TextSecondary,
    TextMuted,
    TextActive,
    AccentBlue,
    AccentOrange,
    AccentHover,
    AccentBorder,
    BorderSubtle,
    BorderStrong,
    BorderFocus,
    StatusInfo,
    StatusWarning,
    StatusError,
    StatusSuccess,
}

/// The built-in Petunia Dark palette.
pub open spec fn spec_fallback_color(token: ThemeToken) -> Rgba {
    match token {
        ThemeToken::BgCanvas => rgb(0x12, 0x12, 0x12),
        ThemeToken::BgHeader => rgb(0x1a, 0x1a, 0x1a),
        ThemeToken::BgPanel => rgb(0x20, 0x20, 0x20),
        ThemeToken::BgPanelHeader => rgb(0x28, 0x28, 0x28),
        ThemeToken::BgSurface => rgb(0x2d, 0x2d, 0x2d),
        ThemeToken::BgSurfaceHover => rgb(0x38, 0x38, 0x38),
        ThemeToken::BgSurfaceActive => rgb(0x39, 0x2e, 0x49),
        ThemeToken::TextPrimary => rgb(0xde, 0xde, 0xde),
        ThemeToken::TextSecondary => rgb(0x9c, 0x9c, 0x9c),
        ThemeToken::TextMuted => rgb(0x62, 0x62, 0x62),
        ThemeToken::TextActive => rgb(0xff, 0xff, 0xff),
        ThemeToken::AccentBlue => rgb(0xb5, 0x8c, 0xff),
        ThemeToken::AccentOrange => rgb(0xe6, 0x7e, 0x22),
        ThemeToken::AccentHover => rgb(0xc9, 0xae, 0xff),
        ThemeToken::AccentBorder => rgb(0xb5, 0x8c, 0xff),
        ThemeToken::BorderSubtle => rgb(0x2f, 0x2f, 0x2f),
        ThemeToken::BorderStrong => rgb(0x3e, 0x3e, 0x3e),
        ThemeToken::BorderFocus => rgb(0xb5, 0x8c, 0xff),
        ThemeToken::StatusInfo => rgb(0x38, 0xbd, 0xf8),
        ThemeToken::StatusWarning => rgb(0xf3, 0x9c, 0x12),
        ThemeToken::StatusError => rgb(0xef, 0x53, 0x50),
        ThemeToken::StatusSuccess => rgb(0x2e, 0xcc, 0x71),
    }
}

/// The color of a token when the active theme is not in the registry: the
/// built-in Petunia Dark palette.
pub fn fallback_color(token: ThemeToken) -> (c: Rgba)
    ensures
        c == spec_fallback_color(token),
{
    match token {
        ThemeToken::BgCanvas => Rgba { r: 0x12, g: 0x12, b: 0x12, a: 255 },
        ThemeToken::BgHeader => Rgba { r: 0x1a, g: 0x1a, b: 0x1a, a: 255 },
        ThemeToken::BgPanel => Rgba { r: 0x20, g: 0x20, b: 0x20, a: 255 },
        ThemeToken::BgPanelHeader => Rgba { r: 0x28, g: 0x28, b: 0x28, a: 255 },
        ThemeToken::BgSurface => Rgba { r: 0x2d, g: 0x2d, b: 0x2d, a: 255 },
        ThemeToken::BgSurfaceHover => Rgba { r: 0x38, g: 0x38, b: 0x38, a: 255 },
        ThemeToken::BgSurfaceActive => Rgba { r: 0x39, g: 0x2e, b: 0x49, a: 255 },
        ThemeToken::TextPrimary => Rgba { r: 0xde, g: 0xde, b: 0xde, a: 255 },
        ThemeToken::TextSecondary => Rgba { r: 0x9c, g: 0x9c, b: 0x9c, a: 255 },
        ThemeToken::TextMuted => Rgba { r: 0x62, g: 0x62, b: 0x62, a: 255 },
        ThemeToken::TextActive => Rgba { r: 0xff, g: 0xff, b: 0xff, a: 255 },
        ThemeToken::AccentBlue => Rgba { r: 0xb5, g: 0x8c, b: 0xff, a: 255 },
        ThemeToken::AccentOrange => Rgba { r: 0xe6, g: 0x7e, b: 0x22, a: 255 },
        ThemeToken::AccentHover => Rgba { r: 0xc9, g: 0xae, b: 0xff, a: 255 },
        ThemeToken::AccentBorder => Rgba { r: 0xb5, g: 0x8c, b: 0xff, a: 255 },
        ThemeToken::BorderSubtle => Rgba { r: 0x2f, g: 0x2f, b: 0x2f, a: 255 },
        ThemeToken::BorderStrong => Rgba { r: 0x3e, g: 0x3e, b: 0x3e, a: 255 },
        ThemeToken::BorderFocus => Rgba { r: 0xb5, g: 0x8c, b: 0xff, a: 255 },
        ThemeToken::StatusInfo => Rgba { r: 0x38, g: 0xbd, b: 0xf8, a: 255 },
        ThemeToken::StatusWarning => Rgba { r: 0xf3, g: 0x9c, b: 0x12, a: 255 },
        ThemeToken::StatusError => Rgba { r: 0xef, g: 0x53, b: 0x50, a: 255 },
        ThemeToken::StatusSuccess => Rgba { r: 0x2e, g: 0xcc, b: 0x71, a: 255 },
    }
}

/// In the built-in palette the accent, its border and the focus ring are one
/// color, and every token is opaque.
pub proof fn lemma_fallback_palette_shares_the_accent(token: ThemeToken)
    ensures
        spec_fallback_color(ThemeToken::AccentBlue) == spec_fallback_color(ThemeToken::AccentBorder),
        spec_fallback_color(ThemeToken::AccentBlue) == spec_fallback_color(ThemeToken::BorderFocus),
        spec_fallback_color(token).a == 255,
{
}

} // verus!

verus! {

/// The fill and the foreground of a toggle button of the viewport bar: an
/// active toggle is filled with the accent and drawn in the active text
/// color; an inactive one takes the hover surface under the pointer, the
/// plain surface otherwise, and the secondary text color.
pub fn toggle_colors(active: bool, hovered: bool) -> (r: (ThemeToken, ThemeToken))
    ensures
        r.0 == (if active { ThemeToken::AccentBlue } else if hovered { ThemeToken::BgSurfaceHover } else { ThemeToken::BgSurface }),
        r.1 == (if active { ThemeToken::TextActive } else { ThemeToken::TextSecondary }),
{
    let fill = if active {
        ThemeToken::AccentBlue
    } else if hovered {
        ThemeToken::BgSurfaceHover
    } else {
        ThemeToken::BgSurface
    };
    let fg = if active { ThemeToken::TextActive } else { ThemeToken::TextSecondary };
    (fill, fg)
}

} // verus!
