use ail::object::{Object, ID};
use ail::widget::{Button, WidgetState};
use ail::{Color, ColorPair, Rect, Theme, WindowTheme};

#[derive(Clone, Copy, Debug, PartialEq)]
enum Msg {
    Hovered,
}

#[test]
fn it_works() {}

#[test]
fn id() {}

#[test]
fn id_equality_is_structural_on_the_label() {
    let a = ID::from("alpha");
    let b = ID::from("alpha");
    let c = ID::from("beta");
    assert_eq!(a, b);
    assert_ne!(a, c);
    assert_eq!(a.as_str(), "alpha");
}

#[test]
fn rect_accessors_report_the_corner_and_extents() {
    let r = Rect::from_coordinate(10, 20, 240, 40);
    assert_eq!(r.x(), 10);
    assert_eq!(r.y(), 20);
    assert_eq!(r.width(), 240);
    assert_eq!(r.height(), 40);
}

#[test]
fn rect_default_covers_800_by_600() {
    let r = Rect::default();
    assert_eq!(r.x(), 0);
    assert_eq!(r.y(), 0);
    assert_eq!(r.width(), 800);
    assert_eq!(r.height(), 600);
}

#[test]
fn color_inversion_flips_channels_and_swaps_shades() {
    assert_eq!(Color::Black.inversion(), Color::White);
    assert_eq!(Color::White.inversion(), Color::Black);
    assert_eq!(
        Color::ARGB(255, 10, 20, 30).inversion(),
        Color::ARGB(255, 245, 235, 225)
    );
}

#[test]
fn color_pair_keeps_its_three_colors() {
    let p = ColorPair::new(Color::Black, Color::White, Color::ARGB(1, 2, 3, 4));
    assert_eq!(p.color, Color::Black);
    assert_eq!(p.bgr, Color::White);
    assert_eq!(p.shadow, Color::ARGB(1, 2, 3, 4));
}

#[test]
fn default_theme_is_the_light_palette() {
    let t = Theme::new();
    assert_eq!(t, Theme::light());
    assert_eq!(t, Theme::default());
    assert_eq!(t.window, WindowTheme::Light);
    assert_eq!(t.normal.color, Color::Black);
    assert_eq!(t.normal.bgr, Color::White);
    assert_eq!(t.normal.shadow, Color::ARGB(255, 128, 128, 128));
    assert_eq!(t.bgr, Color::ARGB(255, 240, 240, 240));
}

#[test]
fn dark_palettes_carry_a_dark_window_affinity() {
    assert_eq!(Theme::dark().window, WindowTheme::Dark);
    assert_eq!(Theme::dark_high_contrast().window, WindowTheme::Dark);
    assert_eq!(Theme::light_high_contrast().window, WindowTheme::Light);
    assert_eq!(Theme::dark_high_contrast().bgr, Color::Black);
}

#[test]
fn a_new_button_is_unfocused_and_labelled_button() {
    let b: Button<Msg> = Button::new("my_button");
    assert_eq!(b.text(), "Button");
    assert!(matches!(b.state(), WidgetState::Unfocus));
    assert_eq!(b.id(), ID::from("my_button"));
}

#[test]
fn button_setters_replace_label_and_state_machine_triggers_move_state() {
    let mut b: Button<Msg> = Button::new("b");
    b.set_text("Hello");
    assert_eq!(b.text(), "Hello");
    let yielded = b.handle_hover();
    assert_eq!(yielded, None);
    assert!(matches!(b.state(), WidgetState::Hover));
    b.handle_unfocus();
    assert!(matches!(b.state(), WidgetState::Unfocus));
    b.on_hover(Msg::Hovered);
    assert_eq!(b.handle_hover(), Some(Msg::Hovered));
}
