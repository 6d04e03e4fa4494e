use vstd::prelude::*;

verus! {

/// One of the sixteen ANSI palette colors, or the terminal's default color.
#[derive(Debug, Clone, Copy, PartialEq, Eq, Structural)]
pub enum AnsiColor {
    Black,
    Red,
    Green,
    Yellow,
    Blue,
    Magenta,
    Cyan,
    White,
    BrightBlack,
    BrightRed,
    BrightGreen,
    BrightYellow,
    BrightBlue,
    BrightMagenta,
    BrightCyan,
    BrightWhite,
    Default,
}

/// The palette entry of a color as red, green and blue components.
pub open spec fn palette_rgb(c: AnsiColor) -> (u8, u8, u8) {
    match c {
        AnsiColor::Black => (0, 0, 0),
        AnsiColor::Red => (205, 49, 49),
        AnsiColor::Green => (13, 188, 121),
        AnsiColor::Yellow => (229, 229, 16),
        AnsiColor::Blue => (36, 114, 200),
        AnsiColor::Magenta => (188, 63, 188),
        AnsiColor::Cyan => (17, 168, 205),
        AnsiColor::White => (229, 229, 229),
        AnsiColor::BrightBlack => (102, 102, 102),
        AnsiColor::BrightRed => (241, 76, 76),
        AnsiColor::BrightGreen => (35, 209, 139),
        AnsiColor::BrightYellow => (245, 245, 67),
        AnsiColor::BrightBlue => (59, 142, 234),
        AnsiColor::BrightMagenta => (214, 112, 214),
        AnsiColor::BrightCyan => (41, 184, 219),
        AnsiColor::BrightWhite => (255, 255, 255),
        AnsiColor::Default => (229, 229, 229),
    }
}

impl AnsiColor {
    /// The color's red, green and blue components for rendering.
    pub fn to_rgb(&self) -> (r: (u8, u8, u8))
        ensures
            r == palette_rgb(*self),
    {
        match self {
            AnsiColor::Black => (0, 0, 0),
            AnsiColor::Red => (205, 49, 49),
            AnsiColor::Green => (13, 188, 121),
            AnsiColor::Yellow => (229, 229, 16),
            AnsiColor::Blue => (36, 114, 200),
            AnsiColor::Magenta => (188, 63, 188),
            AnsiColor::Cyan => (17, 168, 205),
            AnsiColor::White => (229, 229, 229),
            AnsiColor::BrightBlack => (102, 102, 102),
            AnsiColor::BrightRed => (241, 76, 76),
            AnsiColor::BrightGreen => (35, 209, 139),
            AnsiColor::BrightYellow => (245, 245, 67),
            AnsiColor::BrightBlue => (59, 142, 234),
            AnsiColor::BrightMagenta => (214, 112, 214),
            AnsiColor::BrightCyan => (41, 184, 219),
            AnsiColor::BrightWhite => (255, 255, 255),
            AnsiColor::Default => (229, 229, 229),
        }
    }
}

/// Rendering attributes in effect for a run of text.
#[derive(Debug, Clone, Copy, PartialEq, Eq, Structural)]
pub struct TextStyle {
    pub fg_color: AnsiColor,
    pub bg_color: Option<AnsiColor>,
    pub bold: bool,
    pub italic: bool,
    pub underline: bool,
}

/// Default foreground, no background, and no bold, italic or underline.
pub open spec fn default_style() -> TextStyle {
    TextStyle {
        fg_color: AnsiColor::Default,
        bg_color: None,
        bold: false,
        italic: false,
        underline: false,
    }
}

impl Default for TextStyle {
    fn default() -> (r: Self)
        ensures
            r == default_style(),
    {
        TextStyle {
            fg_color: AnsiColor::Default,
            bg_color: None,
            bold: false,
            italic: false,
            underline: false,
        }
    }
}

/// The palette color that a standard (0..=7) or bright (8..=15) index names.
pub open spec fn palette_color(i: u16) -> AnsiColor
    recommends
        i < 16,
{
    if i == 0 {
        AnsiColor::Black
    } else if i == 1 {
        AnsiColor::Red
    } else if i == 2 {
        AnsiColor::Green
    } else if i == 3 {
        AnsiColor::Yellow
    } else if i == 4 {
        AnsiColor::Blue
    } else if i == 5 {
        AnsiColor::Magenta
    } else if i == 6 {
        AnsiColor::Cyan
    } else if i == 7 {
        AnsiColor::White
    } else if i == 8 {
        AnsiColor::BrightBlack
    } else if i == 9 {
        AnsiColor::BrightRed
    } else if i == 10 {
        AnsiColor::BrightGreen
    } else if i == 11 {
        AnsiColor::BrightYellow
    } else if i == 12 {
        AnsiColor::BrightBlue
    } else if i == 13 {
        AnsiColor::BrightMagenta
    } else if i == 14 {
        AnsiColor::BrightCyan
    } else {
        AnsiColor::BrightWhite
    }
}

/// The effect of one Select Graphic Rendition parameter on a style.
/// Codes outside the recognised set leave the style unchanged.
pub open spec fn sgr_step(s: TextStyle, code: u16) -> TextStyle {
    if code == 0 {
        default_style()
    } else if code == 1 {
        TextStyle { bold: true, ..s }
    } else if code == 3 {
        TextStyle { italic: true, ..s }
    } else if code == 4 {
        TextStyle { underline: true, ..s }
    } else if code == 22 {
        TextStyle { bold: false, ..s }
    } else if code == 23 {
        TextStyle { italic: false, ..s }
    } else if code == 24 {
        TextStyle { underline: false, ..s }
    } else if 30 <= code <= 37 {
        TextStyle { fg_color: palette_color((code - 30) as u16), ..s }
    } else if code == 39 {
        TextStyle { fg_color: AnsiColor::Default, ..s }
    } else if 90 <= code <= 97 {
        TextStyle { fg_color: palette_color((code - 82) as u16), ..s }
    } else if 40 <= code <= 47 {
        TextStyle { bg_color: Some(palette_color((code - 40) as u16)), ..s }
    } else if code == 49 {
        TextStyle { bg_color: None, ..s }
    } else if 100 <= code <= 107 {
        TextStyle { bg_color: Some(palette_color((code - 92) as u16)), ..s }
    } else {
        s
    }
}

/// The parameters of one SGR sequence applied left to right.
pub open spec fn sgr_apply(s: TextStyle, codes: Seq<u16>) -> TextStyle
    decreases codes.len(),
{
    if codes.len() == 0 {
        s
    } else {
        sgr_step(sgr_apply(s, codes.drop_last()), codes.last())
    }
}

/// The palette color for an index below 16.
pub fn color_from_index(i: u16) -> (c: AnsiColor)
    requires
        i < 16,
    ensures
        c == palette_color(i),
{
    match i {
        0 => AnsiColor::Black,
        1 => AnsiColor::Red,
        2 => AnsiColor::Green,
        3 => AnsiColor::Yellow,
        4 => AnsiColor::Blue,
        5 => AnsiColor::Magenta,
        6 => AnsiColor::Cyan,
        7 => AnsiColor::White,
        8 => AnsiColor::BrightBlack,
        9 => AnsiColor::BrightRed,
        10 => AnsiColor::BrightGreen,
        11 => AnsiColor::BrightYellow,
        12 => AnsiColor::BrightBlue,
        13 => AnsiColor::BrightMagenta,
        14 => AnsiColor::BrightCyan,
        _ => AnsiColor::BrightWhite,
    }
}

impl TextStyle {
    /// Applies one SGR parameter to this style.
    pub fn apply_sgr_code(&mut self, code: u16)
        ensures
            *final(self) == sgr_step(*old(self), code),
    {
        if code == 0 {
            *self = TextStyle::default();
        } else if code == 1 {
            self.bold = true;
        } else if code == 3 {
            self.italic = true;
        } else if code == 4 {
            self.underline = true;
        } else if code == 22 {
            self.bold = false;
        } else if code == 23 {
            self.italic = false;
        } else if code == 24 {
            self.underline = false;
        } else if 30 <= code && code <= 37 {
            self.fg_color = color_from_index(code - 30);
        } else if code == 39 {
            self.fg_color = AnsiColor::Default;
        } else if 90 <= code && code <= 97 {
            self.fg_color = color_from_index(code - 82);
        } else if 40 <= code && code <= 47 {
            self.bg_color = Some(color_from_index(code - 40));
        } else if code == 49 {
            self.bg_color = None;
        } else if 100 <= code && code <= 107 {
            self.bg_color = Some(color_from_index(code - 92));
        }
    }
}

/// One emitted run of text with the style that was in effect.
#[derive(Debug, Clone)]
pub struct StyledText {
    pub text: String,
    pub style: TextStyle,
}

impl View for StyledText {
    type V = (Seq<char>, TextStyle);

    open spec fn view(&self) -> (Seq<char>, TextStyle) {
        (self.text@, self.style)
    }
}

/// A unit delivered to the consumer of a terminal session.
#[derive(Debug, Clone)]
pub enum OutputLine {
    Styled(Vec<StyledText>),
    Stderr(String),
}

} // verus!
