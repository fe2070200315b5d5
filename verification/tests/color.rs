use game_engine::element::{hex_color_to_rgba, parse_hex_color, ElemColor};
use game_engine::engine_api;

#[test]
fn rgb_code_gets_opaque_alpha() {
    assert_eq!(hex_color_to_rgba("#FF8000"), [255, 128, 0, 255]);
}

#[test]
fn rgba_code_reads_all_four_channels() {
    assert_eq!(hex_color_to_rgba("#12ab34cd"), [0x12, 0xab, 0x34, 0xcd]);
}

#[test]
fn short_codes_keep_defaults() {
    assert_eq!(hex_color_to_rgba("#"), [0, 0, 0, 255]);
    assert_eq!(hex_color_to_rgba(""), [0, 0, 0, 255]);
    assert_eq!(hex_color_to_rgba("#0a"), [10, 0, 0, 255]);
}

#[test]
fn first_character_is_not_checked() {
    assert_eq!(hex_color_to_rgba("x010203"), [1, 2, 3, 255]);
}

#[test]
fn plus_sign_group_reads_like_from_str_radix() {
    assert_eq!(hex_color_to_rgba("#+F0000"), [15, 0, 0, 255]);
    assert_eq!(u8::from_str_radix("+F", 16), Ok(15));
}

#[test]
fn engine_api_reexports_the_same_parser() {
    assert_eq!(engine_api::hex_color_to_rgba("#010203"), [1, 2, 3, 255]);
}

#[test]
fn invalid_codes_are_refused() {
    assert_eq!(parse_hex_color("#FFF"), None);
    assert_eq!(parse_hex_color("#GG0000"), None);
    assert_eq!(parse_hex_color("#-10000"), None);
    assert_eq!(parse_hex_color("#0000000000"), None);
    assert_eq!(parse_hex_color("é"), None);
    assert_eq!(parse_hex_color("#FF00é0"), None);
    assert_eq!(parse_hex_color("#FFFFFFFF"), Some([255, 255, 255, 255]));
}

#[test]
fn elem_color_setters_keep_the_low_byte() {
    let mut c = ElemColor { r: 1, g: 2, b: 3, a: 4 };
    c.set_r(300);
    c.set_g(-1);
    c.set_b(255);
    c.set_a(256);
    assert_eq!(c, ElemColor { r: 44, g: 255, b: 255, a: 0 });
    assert_eq!(c.get_r(), 44);
    assert_eq!(c.get_g(), 255);
    assert_eq!(c.get_b(), 255);
    assert_eq!(c.get_a(), 0);
}
