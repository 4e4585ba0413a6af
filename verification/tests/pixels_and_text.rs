use bns_macros::color::{color_channels, general_is_soul_triggered, pixel_hex, CLR_INVALID};
use bns_macros::keys::{general_talisman, VK_R};
use bns_macros::text::{encode_utf16, parse_i32, parse_unsigned, same_text, split_on_char, strip_hex_prefix_str, trim_char_matches};

#[test]
fn pixel_hex_writes_red_green_blue() {
    // COLORREF is laid out 0x00BBGGRR
    assert_eq!(pixel_hex(0x0033_2211), "0x112233");
    assert_eq!(pixel_hex(0), "0x000000");
    assert_eq!(pixel_hex(0x00FF_FFFF), "0xFFFFFF");
    assert_eq!(pixel_hex(0x00AB_CDEF), "0xEFCDAB");
}

#[test]
fn pixel_hex_ignores_the_top_byte() {
    assert_eq!(pixel_hex(CLR_INVALID), "0xFFFFFF");
    assert_eq!(pixel_hex(0x1200_0001), "0x010000");
}

#[test]
fn color_channels_split() {
    assert_eq!(color_channels(0x00AB_CDEF), (0xEF, 0xCD, 0xAB));
    assert_eq!(color_channels(4331614), (4331614 & 0xff, (4331614 >> 8) & 0xff, (4331614 >> 16) & 0xff));
}

#[test]
fn soul_is_triggered_when_blue_and_not_red() {
    // blue 250, red 10
    assert!(general_is_soul_triggered(0x00FA_000A));
    // blue 241, red 19: the edges
    assert!(general_is_soul_triggered(0x00F1_0013));
    // blue 240 is not enough
    assert!(!general_is_soul_triggered(0x00F0_0000));
    // red 20 is too much
    assert!(!general_is_soul_triggered(0x00FF_0014));
    // the green channel does not matter
    assert!(general_is_soul_triggered(0x00FF_FF00));
}

#[test]
fn talisman_is_r() {
    assert_eq!(general_talisman(), VK_R);
    assert_eq!(general_talisman(), 0x52);
}

#[test]
fn split_like_str_split() {
    assert_eq!(split_on_char("a,b,,c", ','), vec!["a", "b", "", "c"]);
    assert_eq!(split_on_char("", ','), vec![""]);
    assert_eq!(split_on_char(",", ','), vec!["", ""]);
    assert_eq!(split_on_char("10,20;30,40", ';'), vec!["10,20", "30,40"]);
}

#[test]
fn trim_nul_padding() {
    assert_eq!(trim_char_matches("\0\0Blade & Soul\0\0\0", '\0'), "Blade & Soul");
    assert_eq!(trim_char_matches("\0\0", '\0'), "");
    assert_eq!(trim_char_matches("a\0b", '\0'), "a\0b");
}

#[test]
fn strip_every_hex_prefix() {
    assert_eq!(strip_hex_prefix_str("0x91"), "91");
    assert_eq!(strip_hex_prefix_str("0x0x7B"), "7B");
    assert_eq!(strip_hex_prefix_str("91"), "91");
    assert_eq!(strip_hex_prefix_str("0X91"), "0X91");
}

#[test]
fn parse_unsigned_like_from_str_radix() {
    assert_eq!(parse_unsigned("2C0", 16, u64::MAX), Some(0x2C0));
    assert_eq!(parse_unsigned("ff", 16, 0xFFFF), Some(255));
    assert_eq!(parse_unsigned("+12", 10, u64::MAX), Some(12));
    assert_eq!(parse_unsigned("", 10, u64::MAX), None);
    assert_eq!(parse_unsigned("+", 10, u64::MAX), None);
    assert_eq!(parse_unsigned("12a", 10, u64::MAX), None);
    assert_eq!(parse_unsigned("10000", 16, 0xFFFF), None);
    assert_eq!(parse_unsigned("FFFF", 16, 0xFFFF), Some(0xFFFF));
    assert_eq!(parse_unsigned("FFFFFFFFFFFFFFFF", 16, u64::MAX), Some(u64::MAX));
    assert_eq!(parse_unsigned("10000000000000000", 16, u64::MAX), None);
    assert_eq!(parse_unsigned("-1", 10, u64::MAX), None);
}

#[test]
fn parse_i32_like_str_parse() {
    assert_eq!(parse_i32("123"), Some(123));
    assert_eq!(parse_i32("-400"), Some(-400));
    assert_eq!(parse_i32("+7"), Some(7));
    assert_eq!(parse_i32("2147483647"), Some(i32::MAX));
    assert_eq!(parse_i32("-2147483648"), Some(i32::MIN));
    assert_eq!(parse_i32("2147483648"), None);
    assert_eq!(parse_i32("-"), None);
    assert_eq!(parse_i32(" 1"), None);
}

#[test]
fn utf16_units() {
    assert_eq!(encode_utf16("ab"), vec![0x61, 0x62]);
    assert_eq!(encode_utf16("é"), vec![0xE9]);
    assert_eq!(encode_utf16("𝄞"), "𝄞".encode_utf16().collect::<Vec<u16>>());
}

#[test]
fn pixel_hex_reads_back_as_a_colour_setting() {
    for pixel in [0u32, 0x0033_2211, 0x00AB_CDEF, 0x00FF_FFFF, 0xFFFF_FFFF, 0x0001_0203] {
        let (r, g, b) = color_channels(pixel);
        let written = pixel_hex(pixel);
        let stripped = strip_hex_prefix_str(written.as_str());
        assert_eq!(parse_unsigned(stripped.as_str(), 16, 0xFF_FFFF), Some((r as u64) << 16 | (g as u64) << 8 | b as u64));
    }
}

#[test]
fn same_text_compares_every_character() {
    assert!(same_text("true", "true"));
    assert!(!same_text("true", "True"));
    assert!(!same_text("true", "tru"));
    assert!(same_text("", ""));
    assert!(!same_text("é", "e"));
}
