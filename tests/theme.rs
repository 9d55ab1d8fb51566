use dioxus_terminal::{Color, Theme};

#[test]
fn test_theme_default_is_dark() {
    assert_eq!(Theme::default(), Theme::dark());
}

#[test]
fn test_theme_zinc() {
    let theme = Theme::zinc();
    assert_eq!(theme.background, Color::new(24, 24, 27));
    assert_eq!(theme.foreground, Color::new(228, 228, 231));
}

#[test]
fn test_theme_custom() {
    let theme = Theme::new(Color::new(10, 20, 30), Color::new(200, 210, 220));
    assert_eq!(theme.background.r, 10);
    assert_eq!(theme.foreground.r, 200);
}

#[test]
fn test_theme_override() {
    // Background/foreground props should override theme
    let theme = Theme::zinc();
    let custom_bg = Color::new(100, 100, 100);

    let bg = Some(custom_bg).unwrap_or(theme.background);
    let fg = None.unwrap_or(theme.foreground);

    assert_eq!(bg, custom_bg);
    assert_eq!(fg, theme.foreground);
}

#[test]
fn resolve_prefers_explicit_colors() {
    let theme = Theme::zinc();
    let custom_bg = Color::new(100, 100, 100);
    let (bg, fg) = theme.resolve(Some(custom_bg), None);
    assert_eq!(bg, custom_bg);
    assert_eq!(fg, Color::new(228, 228, 231));
    let (bg, fg) = theme.resolve(None, Some(Color::new(1, 2, 3)));
    assert_eq!(bg, Color::new(24, 24, 27));
    assert_eq!(fg, Color::new(1, 2, 3));
}

#[test]
fn presets_have_no_cursor_or_selection() {
    let all = [
        Theme::dark(),
        Theme::zinc(),
        Theme::slate(),
        Theme::nord(),
        Theme::dracula(),
        Theme::monokai(),
        Theme::solarized_dark(),
        Theme::solarized_light(),
        Theme::light(),
        Theme::github_dark(),
        Theme::tokyo_night(),
        Theme::catppuccin(),
        Theme::one_dark(),
        Theme::gruvbox(),
    ];
    for t in all.iter() {
        assert_eq!(t.cursor, None);
        assert_eq!(t.selection, None);
    }
    assert_eq!(Theme::nord().background, Color::new(46, 52, 64));
    assert_eq!(Theme::gruvbox().foreground, Color::new(235, 219, 178));
    assert_eq!(Theme::light().background, Color::new(255, 255, 255));
}
