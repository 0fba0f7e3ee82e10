use tuigreet::config::ThemeConfig;
use tuigreet::theme::{
    apply_cli_theme, theme_from_config, ColorValue, Component, StyleSpec, Theme, Themed,
};

fn fg(c: ColorValue) -> Option<(Component, ColorValue)> {
    Some((Component::Fg, c))
}

#[test]
fn parse_reads_directives_and_fills_fallbacks() {
    let theme = Theme::parse("container=black;text=white;border=blue;action=#ff8000");
    assert_eq!(theme.slot(Themed::Container), Some((Component::Bg, ColorValue::Black)));
    assert_eq!(theme.slot(Themed::Text), fg(ColorValue::White));
    // time and greet fall back to text, title to border, button to action.
    assert_eq!(theme.slot(Themed::Time), fg(ColorValue::White));
    assert_eq!(theme.slot(Themed::Greet), fg(ColorValue::White));
    assert_eq!(theme.slot(Themed::Title), fg(ColorValue::Blue));
    assert_eq!(theme.slot(Themed::ActionButton), fg(ColorValue::Rgb(255, 128, 0)));
    assert_eq!(theme.slot(Themed::Prompt), None);
}

#[test]
fn parse_skips_unknown_keys_bad_colours_and_pieces_without_equals() {
    let theme = Theme::parse("nonsense;prompt=notacolour;input=12;foo=red;time=light-red;;");
    assert_eq!(theme.slot(Themed::Prompt), None);
    assert_eq!(theme.slot(Themed::Input), fg(ColorValue::Indexed(12)));
    assert_eq!(theme.slot(Themed::Time), fg(ColorValue::LightRed));
    assert_eq!(theme.slot(Themed::Text), None);
}

#[test]
fn later_directives_win_and_value_splits_at_the_first_equals() {
    let theme = Theme::parse("text=red;text=green");
    assert_eq!(theme.slot(Themed::Text), fg(ColorValue::Green));
    let theme = Theme::parse("text==red");
    assert_eq!(theme.slot(Themed::Text), None);
}

#[test]
fn of_applies_targets_in_order() {
    let theme = Theme::parse("container=blue;border=red;text=yellow");
    assert_eq!(
        theme.of(&[Themed::Container, Themed::Border]),
        StyleSpec { fg: Some(ColorValue::Red), bg: Some(ColorValue::Blue) }
    );
    // Later targets override earlier ones on the same side.
    assert_eq!(
        theme.of(&[Themed::Border, Themed::Text]),
        StyleSpec { fg: Some(ColorValue::Yellow), bg: None }
    );
    assert_eq!(
        theme.of(&[Themed::Text, Themed::Prompt]),
        StyleSpec { fg: Some(ColorValue::Yellow), bg: None }
    );
    assert_eq!(theme.of(&[]), StyleSpec { fg: None, bg: None });
}

#[test]
fn from_config_parses_each_colour() {
    let mut config = ThemeConfig::default();
    config.container = Some("dark gray".to_string());
    config.text = Some("Bright-Green".to_string());
    config.border = Some("#00ff00".to_string());
    config.button = Some("nope".to_string());
    config.action = Some("cyan".to_string());
    let theme = Theme::from_config(&config);
    assert_eq!(theme.slot(Themed::Container), Some((Component::Bg, ColorValue::DarkGray)));
    assert_eq!(theme.slot(Themed::Text), fg(ColorValue::LightGreen));
    assert_eq!(theme.slot(Themed::Time), fg(ColorValue::LightGreen));
    assert_eq!(theme.slot(Themed::Greet), fg(ColorValue::LightGreen));
    assert_eq!(theme.slot(Themed::Title), fg(ColorValue::Rgb(0, 255, 0)));
    // An unreadable colour counts as unset: the button falls back to the action.
    assert_eq!(theme.slot(Themed::ActionButton), fg(ColorValue::Cyan));
}

#[test]
fn default_theme_has_no_colour() {
    let theme = Theme::default();
    for t in [
        Themed::Container,
        Themed::Time,
        Themed::Text,
        Themed::Border,
        Themed::Title,
        Themed::Greet,
        Themed::Prompt,
        Themed::Input,
        Themed::Action,
        Themed::ActionButton,
    ] {
        assert_eq!(theme.slot(t), None);
    }
}

#[test]
fn theme_from_table() {
    let config = ThemeConfig::default();
    let theme = theme_from_config(&config);
    assert_eq!(theme.slot(Themed::Text), None);

    let mut config = ThemeConfig::default();
    config.border = Some("magenta".to_string());
    config.container = Some("white".to_string());
    let theme = theme_from_config(&config);
    assert_eq!(theme.slot(Themed::Border), fg(ColorValue::Magenta));
    assert_eq!(theme.slot(Themed::Title), fg(ColorValue::Magenta));
    assert_eq!(theme.slot(Themed::Container), Some((Component::Bg, ColorValue::White)));
}

#[test]
fn cli_theme_replaces_the_base() {
    let base = Theme::parse("text=red");
    let kept = apply_cli_theme(base, None);
    assert_eq!(kept.slot(Themed::Text), fg(ColorValue::Red));
    let replaced = apply_cli_theme(base, Some("border=blue"));
    assert_eq!(replaced.slot(Themed::Text), None);
    assert_eq!(replaced.slot(Themed::Border), fg(ColorValue::Blue));
}
