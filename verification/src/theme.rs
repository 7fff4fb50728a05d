//! Semantic styles over a palette: widgets ask for roles, not for literal colors.
use vstd::prelude::*;

verus! {

/// A terminal color: the sixteen named colors, the terminal default, an RGB triple or an
/// index into the 256-color table.
#[derive(Clone, Copy, PartialEq, Eq, Structural, Debug)]
pub enum Color {
    Reset,
    Black,
    Red,
    Green,
    Yellow,
    Blue,
    Magenta,
    Cyan,
    Gray,
    DarkGray,
    LightRed,
    LightGreen,
    LightYellow,
    LightBlue,
    LightMagenta,
    LightCyan,
    White,
    Rgb(u8, u8, u8),
    Indexed(u8),
}

/// A text style: foreground and background colors (unset leaves the terminal's) and
/// whether the text is bold.
#[derive(Clone, Copy, PartialEq, Eq, Structural, Debug)]
pub struct Style {
    pub fg: Option<Color>,
    pub bg: Option<Color>,
    pub bold: bool,
}

/// The colors a theme is built from.
#[derive(Clone, Copy, PartialEq, Eq, Structural, Debug)]
pub struct Palette {
    pub background: Color,
    pub foreground: Color,
    pub accent: Color,
    pub muted: Color,
    pub success: Color,
    pub warning: Color,
    pub error: Color,
    pub selection_bg: Color,
    pub selection_fg: Color,
}

pub open spec fn dark_palette() -> Palette {
    Palette {
        background: Color::Black,
        foreground: Color::Gray,
        accent: Color::Cyan,
        muted: Color::DarkGray,
        success: Color::Green,
        warning: Color::Yellow,
        error: Color::Red,
        selection_bg: Color::Rgb(45, 45, 85),
        selection_fg: Color::Cyan,
    }
}

pub open spec fn light_palette() -> Palette {
    Palette {
        background: Color::White,
        foreground: Color::Rgb(40, 40, 40),
        accent: Color::Blue,
        muted: Color::Rgb(120, 120, 120),
        success: Color::Rgb(0, 120, 0),
        warning: Color::Rgb(160, 120, 0),
        error: Color::Rgb(180, 0, 0),
        selection_bg: Color::Rgb(220, 220, 255),
        selection_fg: Color::Rgb(0, 0, 120),
    }
}

impl Palette {
    /// The dark palette the dashboard uses.
    pub fn dark() -> (res: Palette)
        ensures
            res == dark_palette(),
    {
        Palette {
            background: Color::Black,
            foreground: Color::Gray,
            accent: Color::Cyan,
            muted: Color::DarkGray,
            success: Color::Green,
            warning: Color::Yellow,
            error: Color::Red,
            selection_bg: Color::Rgb(45, 45, 85),
            selection_fg: Color::Cyan,
        }
    }

    /// A light palette.
    pub fn light() -> (res: Palette)
        ensures
            res == light_palette(),
    {
        Palette {
            background: Color::White,
            foreground: Color::Rgb(40, 40, 40),
            accent: Color::Blue,
            muted: Color::Rgb(120, 120, 120),
            success: Color::Rgb(0, 120, 0),
            warning: Color::Rgb(160, 120, 0),
            error: Color::Rgb(180, 0, 0),
            selection_bg: Color::Rgb(220, 220, 255),
            selection_fg: Color::Rgb(0, 0, 120),
        }
    }
}

/// A style with only a foreground color.
pub open spec fn fg_style(c: Color, bold: bool) -> Style {
    Style { fg: Some(c), bg: None, bold }
}

/// Semantic styles over a palette.
pub struct Theme(Palette);

impl Theme {
    /// The palette the theme draws from.
    pub closed spec fn palette(&self) -> Palette {
        self.0
    }

    pub fn new(palette: Palette) -> (res: Theme)
        ensures
            res.palette() == palette,
    {
        Theme(palette)
    }

    /// Highlighted text: bold accent color.
    pub fn accent(&self) -> (res: Style)
        ensures
            res == fg_style(self.palette().accent, true),
    {
        Style { fg: Some(self.0.accent), bg: None, bold: true }
    }

    /// Ordinary text.
    pub fn normal(&self) -> (res: Style)
        ensures
            res == fg_style(self.palette().foreground, false),
    {
        Style { fg: Some(self.0.foreground), bg: None, bold: false }
    }

    /// Secondary text.
    pub fn muted(&self) -> (res: Style)
        ensures
            res == fg_style(self.palette().muted, false),
    {
        Style { fg: Some(self.0.muted), bg: None, bold: false }
    }

    pub fn success(&self) -> (res: Style)
        ensures
            res == fg_style(self.palette().success, true),
    {
        Style { fg: Some(self.0.success), bg: None, bold: true }
    }

    pub fn warning(&self) -> (res: Style)
        ensures
            res == fg_style(self.palette().warning, true),
    {
        Style { fg: Some(self.0.warning), bg: None, bold: true }
    }

    pub fn error(&self) -> (res: Style)
        ensures
            res == fg_style(self.palette().error, true),
    {
        Style { fg: Some(self.0.error), bg: None, bold: true }
    }

    /// Border of a pane without focus.
    pub fn border(&self) -> (res: Style)
        ensures
            res == fg_style(self.palette().muted, false),
    {
        Style { fg: Some(self.0.muted), bg: None, bold: false }
    }

    /// The selected list row.
    pub fn selected(&self) -> (res: Style)
        ensures
            res == (Style { fg: Some(self.palette().selection_fg), bg: Some(self.palette().selection_bg), bold: false }),
    {
        Style { fg: Some(self.0.selection_fg), bg: Some(self.0.selection_bg), bold: false }
    }

    /// The frame's background fill.
    pub fn background(&self) -> (res: Style)
        ensures
            res == (Style { fg: None, bg: Some(self.palette().background), bold: false }),
    {
        Style { fg: None, bg: Some(self.0.background), bold: false }
    }

    pub fn status_bar(&self) -> (res: Style)
        ensures
            res == (Style { fg: Some(self.palette().foreground), bg: Some(self.palette().selection_bg), bold: false }),
    {
        Style { fg: Some(self.0.foreground), bg: Some(self.0.selection_bg), bold: false }
    }

    /// A colored state pill: the color as background, the palette background as text, bold.
    pub fn badge(&self, color: Color) -> (res: Style)
        ensures
            res == (Style { fg: Some(self.palette().background), bg: Some(color), bold: true }),
    {
        Style { fg: Some(self.0.background), bg: Some(color), bold: true }
    }
}

} // verus!
