use jeebon::diagnostic::{decimal, panic_line, SourceLocation};
use jeebon::theme::{AppState, Surface, Theme, ThemeEffect, THEME_ATTRIBUTE};

#[test]
fn initial_theme_is_light() {
    let s = AppState::new();
    assert_eq!(s.theme, Theme::Light);
    assert_eq!(s.mount(Surface::Present), ThemeEffect::SetAttribute(Theme::Light));
}

#[test]
fn dark_then_light_writes_twice_in_order() {
    let mut s = AppState::new();
    let effects = s.apply_writes(&vec![Theme::Dark, Theme::Light], Surface::Present);
    assert_eq!(effects, vec![ThemeEffect::SetAttribute(Theme::Dark), ThemeEffect::SetAttribute(Theme::Light)]);
    assert_eq!(Theme::Dark.as_attr(), "dark");
    assert_eq!(Theme::Light.as_attr(), "light");
    assert_eq!(s.theme, Theme::Light);
    assert_eq!(THEME_ATTRIBUTE, "data-bs-theme");
}

#[test]
fn same_theme_twice_still_writes_twice() {
    let mut s = AppState::new();
    assert_eq!(s.set_theme(Theme::Dark, Surface::Present), ThemeEffect::SetAttribute(Theme::Dark));
    assert_eq!(s.set_theme(Theme::Dark, Surface::Present), ThemeEffect::SetAttribute(Theme::Dark));
    assert_eq!(s.theme, Theme::Dark);
}

#[test]
fn absent_surface_skips_with_diagnostic() {
    let mut s = AppState::new();
    let e = s.set_theme(Theme::Dark, Surface::NoWindow);
    assert_eq!(e, ThemeEffect::Skip(Surface::NoWindow));
    assert_eq!(e.diagnostic(), Some("(Theme Update Effect) Failed to get window."));
    assert_eq!(s.theme, Theme::Dark);
    assert_eq!(
        ThemeEffect::Skip(Surface::NoDocument).diagnostic(),
        Some("(Theme Update Effect) Failed to get document.")
    );
    assert_eq!(
        ThemeEffect::Skip(Surface::NoRootElement).diagnostic(),
        Some("(Theme Update Effect) Failed to get document_element.")
    );
    assert_eq!(ThemeEffect::SetAttribute(Theme::Light).diagnostic(), None);
}

#[test]
fn decimal_notation() {
    assert_eq!(decimal(0), "0");
    assert_eq!(decimal(7), "7");
    assert_eq!(decimal(10), "10");
    assert_eq!(decimal(4294967295), "4294967295");
}

#[test]
fn panic_line_with_and_without_location() {
    let loc = Some(SourceLocation { file: "src/main.rs".to_string(), line: 42, column: 9 });
    assert_eq!(panic_line("boom", &loc), "PANIC occurred at src/main.rs:42:9: boom");
    assert_eq!(panic_line("boom", &None), "PANIC occurred at unknown location: boom");
}
