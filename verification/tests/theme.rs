use output_picker::output_grid::Paint;
use output_picker::theme::container;
use output_picker::theme::text;
use output_picker::theme::{color, Appearance, Color, Theme};

#[test]
fn color_splits_the_channels() {
    assert_eq!(color(0x6791c9), Color { r: 0x67, g: 0x91, b: 0xc9 });
    assert_eq!(color(0x000000), Color { r: 0, g: 0, b: 0 });
    assert_eq!(color(0xff0102), Color { r: 255, g: 1, b: 2 });
    assert_eq!(color(0xab123456), Color { r: 0x12, g: 0x34, b: 0x56 });
}

#[test]
fn default_theme_colors() {
    let theme = Theme::default();
    assert_eq!(theme.background.primary, color(0x101115));
    assert_eq!(theme.background.secondary, color(0x0e0f13));
    assert_eq!(theme.background.tertiary, color(0x131419));
    assert_eq!(theme.text.primary, color(0xc4c4c4));
    assert_eq!(theme.text.secondary, color(0xc4c6d0));
    assert_eq!(theme.text.tertiary, color(0x53536a));
    assert_eq!(theme.accent, Color { r: 0x67, g: 0x91, b: 0xc9 });
    assert_eq!(theme.error, color(0xdf5b61));
    assert_eq!(theme.warning, color(0xde8f78));
    assert_eq!(theme.info, color(0x87c7a1));
    assert_eq!(theme.separator, color(0x222230));
    assert_eq!(theme.ansi.black, color(0x14161f));
    assert_eq!(theme.ansi.magenta, color(0xbc83e3));
    assert_eq!(theme.ansi.cyan, color(0x70b9cc));
    assert_eq!(theme.ansi_bright.black, color(0x161922));
    assert_eq!(theme.ansi_bright.yellow, color(0xffb29b));
    assert_eq!(theme.ansi_bright.white, color(0xcccccc));
}

#[test]
fn paints_resolve_to_theme_colors() {
    let theme = Theme::default();
    assert_eq!(theme.resolve(Paint::BackgroundTertiary), color(0x131419));
    assert_eq!(theme.resolve(Paint::Accent), color(0x6791c9));
    assert_eq!(theme.resolve(Paint::TextTertiary), color(0x53536a));
}

#[test]
fn window_style_uses_primary_colors() {
    let theme = Theme::default();
    assert_eq!(
        theme.default_style(),
        Appearance { text_color: color(0xc4c4c4), background_color: color(0x101115) }
    );
}

#[test]
fn container_styles() {
    let theme = Theme::default();
    let solid = |c: Color| container::Style { background: container::Background::Solid(c), border: None };
    assert_eq!(container::primary(&theme), solid(color(0x101115)));
    assert_eq!(container::secondary(&theme), solid(color(0x0e0f13)));
    assert_eq!(container::tertiary(&theme), solid(color(0x131419)));
    assert_eq!(container::default(&theme), container::secondary(&theme));
    assert_eq!(
        container::bordered(&theme),
        container::Style {
            background: container::Background::Transparent,
            border: Some(container::Border { color: color(0x222230), width: 2 }),
        }
    );
}

#[test]
fn text_styles() {
    let theme = Theme::default();
    assert_eq!(text::accent(&theme).color, Some(color(0x6791c9)));
    assert_eq!(text::primary(&theme).color, Some(color(0xc4c4c4)));
    assert_eq!(text::secondary(&theme).color, Some(color(0xc4c6d0)));
    assert_eq!(text::tertiary(&theme).color, Some(color(0x53536a)));
    assert_eq!(text::default(&theme), text::primary(&theme));
}
