// Colours and themes as text.

use cosmic_theme_editor::model::{
    Accent, AsCss, Container, ContainerType, Destructive, Theme, Widget,
};
use cosmic_theme_editor::util::{hex_from_rgba, Rgba8};

fn rgba(red: u8, green: u8, blue: u8, alpha: u8) -> Rgba8 {
    Rgba8 { red, green, blue, alpha }
}

fn widget(n: u8) -> Widget<Rgba8> {
    Widget {
        default: rgba(n, 0x01, 0, 0xff),
        hover: rgba(n, 0x02, 0, 0xff),
        pressed: rgba(n, 0x03, 0, 0xff),
        focused: rgba(n, 0x04, 0, 0xff),
        divider: rgba(n, 0x05, 0, 0xff),
        text: rgba(n, 0x06, 0, 0xff),
        text_opacity_80: rgba(n, 0x07, 0, 0xcc),
        disabled: rgba(n, 0x08, 0, 0x80),
        disabled_text: rgba(n, 0x09, 0, 0x80),
    }
}

fn container(prefix: ContainerType, n: u8) -> Container<Rgba8> {
    Container {
        prefix,
        container: rgba(n, 0xa1, 0, 0xff),
        container_component: widget(n),
        container_divider: rgba(n, 0xa2, 0, 0xff),
        container_text: rgba(n, 0xa3, 0, 0xff),
        container_text_opacity_80: rgba(n, 0xa4, 0, 0xcc),
    }
}

fn states(class: &str, selected: &str, n: &str) -> String {
    format!(
        "*.{class} {{
  background-color: #{n}0100ff;
  color: #{n}0600ff;
  border-radius: 8px;
  border-color: #{n}0100ff;
}}

*.{class}:hover {{
  background-color: #{n}0200ff;
  color: #{n}0600ff;
  border-radius: 8px;
  border-color: #{n}0100ff;
}}

*.{class}:{selected} {{
  background-color: #{n}0400ff;
  outline-color: #{n}0100ff;
  color: #{n}0600ff;
  border-radius: 8px;
  border-color: #{n}0100ff;
}}

*.{class}:active {{
  background-color: #{n}0300ff;
  color: #{n}0600ff;
  border-radius: 8px;
  border-color: #{n}0100ff;
}}

*.{class}:disabled {{
  background-color: #{n}080080;
  color: #{n}0600ff;
  border-radius: 8px;
  border-color: #{n}0100ff;
}}

"
    )
}

fn container_css(class: &str, corners: &str, n: &str) -> String {
    format!(
        "/* {class} CSS */
*.{class} {{
  background-color: #{n}a100ff;
  color: #{n}a300ff;
  {corners}
}}

{}*.{class}-divider {{
  background-color: #{n}a200ff;
}}

*.{class}-divider {{
  background-color: #{n}0500ff;
}}
",
        states(&format!("{class}-component"), "selected", n)
    )
}

#[test]
fn a_colour_is_written_in_eight_hexadecimal_digits() {
    assert_eq!(hex_from_rgba(&rgba(0, 0, 0, 0)), "#00000000");
    assert_eq!(hex_from_rgba(&rgba(255, 255, 255, 255)), "#ffffffff");
    assert_eq!(hex_from_rgba(&rgba(0x12, 0xab, 0xf0, 0x0f)), "#12abf00f");
    assert_eq!(hex_from_rgba(&rgba(219, 20, 61, 128)), "#db143d80");
    assert_eq!(hex_from_rgba(&Rgba8::default()), "#00000000");
}

#[test]
fn every_byte_is_written_high_digit_first() {
    let digits = "0123456789abcdef".as_bytes();
    for b in 0..=255u8 {
        let expected = format!(
            "#{}{}00{}{}ff",
            digits[(b / 16) as usize] as char,
            digits[(b % 16) as usize] as char,
            digits[(b % 16) as usize] as char,
            digits[(b / 16) as usize] as char
        );
        assert_eq!(hex_from_rgba(&rgba(b, 0, b.rotate_left(4), 255)), expected);
    }
}

#[test]
fn the_background_has_square_corners() {
    assert_eq!(
        container(ContainerType::Background, 0x11).as_css(),
        container_css("background", "", "11")
    );
}

#[test]
fn the_other_containers_have_round_corners() {
    assert_eq!(
        container(ContainerType::Primary, 0x22).as_css(),
        container_css("primary-container", "border-radius: 8px;", "22")
    );
    assert_eq!(
        container(ContainerType::Secondary, 0x33).as_css(),
        container_css("secondary-container", "border-radius: 8px;", "33")
    );
}

#[test]
fn a_container_begins_and_ends_as_written() {
    let css = container(ContainerType::Primary, 0x22).as_css();
    assert!(css.starts_with(
        "/* primary-container CSS */\n*.primary-container {\n  background-color: #22a100ff;\n  color: #22a300ff;\n  border-radius: 8px;\n}\n\n*.primary-container-component {\n"
    ));
    assert!(css.ends_with(
        "}\n\n*.primary-container-divider {\n  background-color: #22a200ff;\n}\n\n*.primary-container-divider {\n  background-color: #220500ff;\n}\n"
    ));
}

#[test]
fn the_suggested_action_is_written_in_each_state() {
    let accent = Accent {
        accent: rgba(0x44, 0xb1, 0, 0xff),
        accent_text: rgba(0x44, 0xb2, 0, 0xff),
        accent_nav_handle_text: rgba(0x44, 0xb3, 0, 0xff),
        suggested: widget(0x44),
    };
    assert_eq!(
        accent.as_css(),
        format!("/* Suggested CSS */\n{}", states("suggested-action", "selected", "44"))
    );
}

#[test]
fn the_destructive_action_is_written_in_each_state() {
    let destructive = Destructive { destructive: widget(0x55) };
    assert_eq!(
        destructive.as_css(),
        format!("/* Destructive CSS */\n{}", states("destructive-action", "seleceted", "55"))
    );
}

#[test]
fn a_theme_is_its_containers_and_two_buttons() {
    let theme = Theme {
        background: container(ContainerType::Background, 0x11),
        primary: container(ContainerType::Primary, 0x22),
        secondary: container(ContainerType::Secondary, 0x33),
        accent: Accent {
            accent: rgba(0x44, 0xb1, 0, 0xff),
            accent_text: rgba(0x44, 0xb2, 0, 0xff),
            accent_nav_handle_text: rgba(0x44, 0xb3, 0, 0xff),
            suggested: widget(0x44),
        },
        destructive: Destructive { destructive: widget(0x55) },
        window_header_background: rgba(0x66, 0, 0, 0xff),
        text_button_text: rgba(0x77, 0, 0, 0xff),
    };
    let expected = format!(
        "{}{}{}/* Accent CSS */
* {{
  background-image: none;
  outline-color: #44b100ff;
}}

button.suggested-action {{
  background-color: #440100ff;
  color: #440600ff;
}}

button.destructive-action {{
  background-color: #550100ff;
  outline-color: #550100ff;
  color: #550600ff;
}}
",
        container_css("background", "", "11"),
        container_css("primary-container", "border-radius: 8px;", "22"),
        container_css("secondary-container", "border-radius: 8px;", "33"),
    );
    assert_eq!(theme.as_css(), expected);
}
