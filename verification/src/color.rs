use vstd::prelude::*;

use crate::text::{hex_digit, push_hex_digit};

verus! {

/// The value `GetPixel` reports for a point outside the clipping region.
pub const CLR_INVALID: u32 = 0xFFFF_FFFF;

/// Red channel of a COLORREF value laid out as `0x00BBGGRR`.
pub open spec fn red_of(pixel: u32) -> int {
    pixel as int % 256
}

/// Green channel of a COLORREF value.
pub open spec fn green_of(pixel: u32) -> int {
    (pixel as int / 256) % 256
}

/// Blue channel of a COLORREF value.
pub open spec fn blue_of(pixel: u32) -> int {
    (pixel as int / 65536) % 256
}

/// The two upper-case hexadecimal digits of a byte.
pub open spec fn hex_byte(b: int) -> Seq<char> {
    seq![hex_digit(b / 16), hex_digit(b % 16)]
}

/// The colour of a pixel written as `0xRRGGBB` with upper-case digits, the
/// form in which colours stand in the configuration files.
pub open spec fn pixel_hex_spec(pixel: u32) -> Seq<char> {
    seq!['0', 'x'] + hex_byte(red_of(pixel)) + hex_byte(green_of(pixel)) + hex_byte(blue_of(pixel))
}

/// Splits a COLORREF into its red, green and blue channels.
pub fn color_channels(pixel: u32) -> (rgb: (u32, u32, u32))
    ensures
        rgb.0 == red_of(pixel),
        rgb.1 == green_of(pixel),
        rgb.2 == blue_of(pixel),
{
    let red = pixel & 0xff;
    let green = (pixel >> 8) & 0xff;
    let blue = (pixel >> 16) & 0xff;
    assert(red == pixel % 256) by (bit_vector)
        requires red == pixel & 0xff;
    assert(green == (pixel / 256) % 256) by (bit_vector)
        requires green == (pixel >> 8) & 0xff;
    assert(blue == (pixel / 65536) % 256) by (bit_vector)
        requires blue == (pixel >> 16) & 0xff;
    (red, green, blue)
}

/// Formats a pixel colour as `0xRRGGBB` (upper-case hexadecimal).
pub fn pixel_hex(pixel: u32) -> (s: String)
    ensures
        s@ == pixel_hex_spec(pixel),
{
    let (red, green, blue) = color_channels(pixel);
    let mut s = String::new();
    crate::text::string_push(&mut s, '0');
    crate::text::string_push(&mut s, 'x');
    push_hex_digit(&mut s, red / 16);
    push_hex_digit(&mut s, red % 16);
    push_hex_digit(&mut s, green / 16);
    push_hex_digit(&mut s, green % 16);
    push_hex_digit(&mut s, blue / 16);
    push_hex_digit(&mut s, blue % 16);
    assert(s@ =~= pixel_hex_spec(pixel));
    s
}

/// The soul indicator glows blue: more than 240 blue and less than 20 red.
pub open spec fn soul_triggered_spec(pixel: u32) -> bool {
    blue_of(pixel) > 240 && red_of(pixel) < 20
}

/// Whether the pixel sampled from the soul indicator shows the soul as triggered.
pub fn general_is_soul_triggered(pixel: u32) -> (triggered: bool)
    ensures
        triggered == soul_triggered_spec(pixel),
{
    let (red, _green, blue) = color_channels(pixel);
    blue > 240 && red < 20
}

} // verus!
