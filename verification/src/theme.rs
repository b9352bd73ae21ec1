//! Workbook theme data: the twelve-color scheme, the font scheme, and the
//! format scheme, with the standard office defaults.

use vstd::prelude::*;

verus! {

/// A theme color.
#[derive(Debug, Clone, Copy, PartialEq, Eq, Structural)]
pub enum Color {
    /// Chosen automatically.
    Auto,
    /// An indexed palette color.
    Indexed(u32),
    /// A red, green, blue triple.
    Rgb { r: u8, g: u8, b: u8 },
    /// An alpha, red, green, blue quadruple.
    Argb { a: u8, r: u8, g: u8, b: u8 },
    /// A reference to a theme color slot.
    Theme { index: u32 },
}

/// The twelve standard theme colors, by slot: two dark, two light, six
/// accents, and the two hyperlink colors.
#[derive(Debug, Clone, PartialEq)]
pub struct ColorScheme {
    /// Scheme name.
    pub name: Option<String>,
    /// Dark color one, typically for text.
    pub dark1: Color,
    /// Light color one, typically for backgrounds.
    pub light1: Color,
    /// Dark color two.
    pub dark2: Color,
    /// Light color two.
    pub light2: Color,
    /// Accent color one.
    pub accent1: Color,
    /// Accent color two.
    pub accent2: Color,
    /// Accent color three.
    pub accent3: Color,
    /// Accent color four.
    pub accent4: Color,
    /// Accent color five.
    pub accent5: Color,
    /// Accent color six.
    pub accent6: Color,
    /// Hyperlink color.
    pub hyperlink: Color,
    /// Followed-hyperlink color.
    pub followed_hyperlink: Color,
}

impl ColorScheme {
    /// The color in slot `index`, if the slot exists.
    pub open spec fn spec_color(self, index: u32) -> Option<Color> {
        if index == 0 {
            Some(self.dark1)
        } else if index == 1 {
            Some(self.light1)
        } else if index == 2 {
            Some(self.dark2)
        } else if index == 3 {
            Some(self.light2)
        } else if index == 4 {
            Some(self.accent1)
        } else if index == 5 {
            Some(self.accent2)
        } else if index == 6 {
            Some(self.accent3)
        } else if index == 7 {
            Some(self.accent4)
        } else if index == 8 {
            Some(self.accent5)
        } else if index == 9 {
            Some(self.accent6)
        } else if index == 10 {
            Some(self.hyperlink)
        } else if index == 11 {
            Some(self.followed_hyperlink)
        } else {
            None
        }
    }

    /// Get a theme color by its slot index, zero through eleven.
    pub fn get_color(&self, index: u32) -> (r: Option<Color>)
        ensures
            r == self.spec_color(index),
    {
        match index {
            0 => Some(self.dark1),
            1 => Some(self.light1),
            2 => Some(self.dark2),
            3 => Some(self.light2),
            4 => Some(self.accent1),
            5 => Some(self.accent2),
            6 => Some(self.accent3),
            7 => Some(self.accent4),
            8 => Some(self.accent5),
            9 => Some(self.accent6),
            10 => Some(self.hyperlink),
            11 => Some(self.followed_hyperlink),
            _ => None,
        }
    }

    /// All twelve theme colors in slot order.
    pub fn colors(&self) -> (r: [Color; 12])
        ensures
            forall|i: int| 0 <= i < 12 ==> r@[i] == self.spec_color(i as u32)->0,
    {
        let r = [
            self.dark1,
            self.light1,
            self.dark2,
            self.light2,
            self.accent1,
            self.accent2,
            self.accent3,
            self.accent4,
            self.accent5,
            self.accent6,
            self.hyperlink,
            self.followed_hyperlink,
        ];
        proof {
            assert(forall|i: int| 0 <= i < 12 ==> r@[i] == self.spec_color(i as u32)->0);
        }
        r
    }
}

/// The standard office color scheme.
pub open spec fn spec_office_colors(c: ColorScheme) -> bool {
    &&& c.dark1 == (Color::Rgb { r: 0, g: 0, b: 0 })
    &&& c.light1 == (Color::Rgb { r: 255, g: 255, b: 255 })
    &&& c.dark2 == (Color::Rgb { r: 68, g: 84, b: 106 })
    &&& c.light2 == (Color::Rgb { r: 238, g: 236, b: 225 })
    &&& c.accent1 == (Color::Rgb { r: 68, g: 114, b: 196 })
    &&& c.accent2 == (Color::Rgb { r: 237, g: 125, b: 49 })
    &&& c.accent3 == (Color::Rgb { r: 165, g: 165, b: 165 })
    &&& c.accent4 == (Color::Rgb { r: 255, g: 192, b: 0 })
    &&& c.accent5 == (Color::Rgb { r: 91, g: 155, b: 213 })
    &&& c.accent6 == (Color::Rgb { r: 112, g: 173, b: 71 })
    &&& c.hyperlink == (Color::Rgb { r: 5, g: 99, b: 193 })
    &&& c.followed_hyperlink == (Color::Rgb { r: 149, g: 79, b: 114 })
}

impl Default for ColorScheme {
    /// The standard office colors, under the office scheme name.
    fn default() -> (r: Self)
        ensures
            spec_office_colors(r),
            r.name matches Some(n) && n@ == "Office"@,
    {
        ColorScheme {
            name: Some("Office".to_owned()),
            dark1: Color::Rgb { r: 0, g: 0, b: 0 },
            light1: Color::Rgb { r: 255, g: 255, b: 255 },
            dark2: Color::Rgb { r: 68, g: 84, b: 106 },
            light2: Color::Rgb { r: 238, g: 236, b: 225 },
            accent1: Color::Rgb { r: 68, g: 114, b: 196 },
            accent2: Color::Rgb { r: 237, g: 125, b: 49 },
            accent3: Color::Rgb { r: 165, g: 165, b: 165 },
            accent4: Color::Rgb { r: 255, g: 192, b: 0 },
            accent5: Color::Rgb { r: 91, g: 155, b: 213 },
            accent6: Color::Rgb { r: 112, g: 173, b: 71 },
            hyperlink: Color::Rgb { r: 5, g: 99, b: 193 },
            followed_hyperlink: Color::Rgb { r: 149, g: 79, b: 114 },
        }
    }
}

/// Font faces for the different script classes.
#[derive(Debug, Clone, PartialEq)]
pub struct ThemeFont {
    /// Latin script font.
    pub latin: Option<String>,
    /// East Asian script font.
    pub east_asian: Option<String>,
    /// Complex script font.
    pub complex_script: Option<String>,
}

/// The theme's major and minor fonts: major for headings, minor for body
/// text.
#[derive(Debug, Clone, PartialEq)]
pub struct FontScheme {
    /// Scheme name.
    pub name: Option<String>,
    /// Major font, typically for headings.
    pub major_font: ThemeFont,
    /// Minor font, typically for body text.
    pub minor_font: ThemeFont,
}

impl Default for FontScheme {
    /// The standard office fonts.
    fn default() -> (r: Self)
        ensures
            r.name matches Some(n) && n@ == "Office"@,
            r.major_font.latin matches Some(f) && f@ == "Calibri Light"@,
            r.minor_font.latin matches Some(f) && f@ == "Calibri"@,
            r.major_font.east_asian is None,
            r.major_font.complex_script is None,
            r.minor_font.east_asian is None,
            r.minor_font.complex_script is None,
    {
        FontScheme {
            name: Some("Office".to_owned()),
            major_font: ThemeFont {
                latin: Some("Calibri Light".to_owned()),
                east_asian: None,
                complex_script: None,
            },
            minor_font: ThemeFont {
                latin: Some("Calibri".to_owned()),
                east_asian: None,
                complex_script: None,
            },
        }
    }
}

/// A fill style of the format scheme.
#[derive(Debug, Clone, PartialEq)]
pub struct FillStyle {
    /// Style name or identifier.
    pub name: Option<String>,
    /// Fill color.
    pub color: Option<Color>,
    /// Fill pattern or gradient information.
    pub pattern: Option<String>,
}

/// A line style of the format scheme. Width text is kept verbatim.
#[derive(Debug, Clone, PartialEq)]
pub struct LineStyle {
    /// Style name or identifier.
    pub name: Option<String>,
    /// Line color.
    pub color: Option<Color>,
    /// Line width in points, as numeric text.
    pub width: Option<String>,
    /// Line dash pattern.
    pub dash: Option<String>,
}

/// An effect style of the format scheme.
#[derive(Debug, Clone, PartialEq)]
pub struct EffectStyle {
    /// Style name or identifier.
    pub name: Option<String>,
    /// Effect type, such as a shadow or a glow.
    pub effect_type: Option<String>,
    /// Effect parameters.
    pub parameters: Option<String>,
}

/// The format scheme: fill, line and effect styles.
#[derive(Debug, Clone, PartialEq)]
pub struct FormatScheme {
    /// Scheme name.
    pub name: Option<String>,
    /// Fill style definitions.
    pub fill_styles: Vec<FillStyle>,
    /// Line style definitions.
    pub line_styles: Vec<LineStyle>,
    /// Effect style definitions.
    pub effect_styles: Vec<EffectStyle>,
}

/// A workbook theme: its color scheme, font scheme, and format scheme.
#[derive(Debug, Clone, PartialEq)]
pub struct Theme {
    /// Theme name.
    pub name: Option<String>,
    /// Color scheme with the twelve theme colors.
    pub color_scheme: ColorScheme,
    /// Font scheme with the major and minor fonts.
    pub font_scheme: FontScheme,
    /// Format scheme with line, fill and effect styles.
    pub format_scheme: Option<FormatScheme>,
}

impl Default for Theme {
    /// The standard office theme.
    fn default() -> (r: Self)
        ensures
            r.name matches Some(n) && n@ == "Office Theme"@,
            spec_office_colors(r.color_scheme),
            r.format_scheme is None,
    {
        Theme {
            name: Some("Office Theme".to_owned()),
            color_scheme: Default::default(),
            font_scheme: Default::default(),
            format_scheme: None,
        }
    }
}

} // verus!
