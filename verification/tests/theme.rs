use sheetstream::theme::{Color, ColorScheme, FontScheme, Theme};

#[test]
fn default_theme_is_the_office_theme() {
    let theme = Theme::default();
    assert_eq!(theme.name.as_deref(), Some("Office Theme"));
    assert_eq!(theme.color_scheme.name.as_deref(), Some("Office"));
    assert!(theme.format_scheme.is_none());
}

#[test]
fn default_fonts() {
    let fonts = FontScheme::default();
    assert_eq!(fonts.major_font.latin.as_deref(), Some("Calibri Light"));
    assert_eq!(fonts.minor_font.latin.as_deref(), Some("Calibri"));
    assert!(fonts.major_font.east_asian.is_none());
    assert!(fonts.minor_font.complex_script.is_none());
}

#[test]
fn color_slots_in_order() {
    let scheme = ColorScheme::default();
    assert_eq!(scheme.get_color(0), Some(Color::Rgb { r: 0, g: 0, b: 0 }));
    assert_eq!(scheme.get_color(1), Some(Color::Rgb { r: 255, g: 255, b: 255 }));
    assert_eq!(scheme.get_color(4), Some(Color::Rgb { r: 68, g: 114, b: 196 }));
    assert_eq!(scheme.get_color(10), Some(Color::Rgb { r: 5, g: 99, b: 193 }));
    assert_eq!(scheme.get_color(11), Some(Color::Rgb { r: 149, g: 79, b: 114 }));
    assert_eq!(scheme.get_color(12), None);

    let all = scheme.colors();
    assert_eq!(all.len(), 12);
    for i in 0..12u32 {
        assert_eq!(Some(all[i as usize]), scheme.get_color(i));
    }
}
