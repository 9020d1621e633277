use colors::palette::generate_palette;
use colors::render::{block_string, decimal_u8, digit_str, red_header_string, render_lines};

fn block(c: u32) -> String {
    format!(
        "\x1b[48;2;{};{};{}m   \x1b[0m",
        (c >> 16) & 0xFF,
        (c >> 8) & 0xFF,
        c & 0xFF
    )
}

#[test]
fn renders_the_whole_output() {
    let palette = generate_palette();
    let lines = render_lines(&palette);

    let mut expected: Vec<String> = Vec::new();
    expected.push("Color Palette (254 colors arranged in gradient grid)".to_string());
    expected.push(String::new());
    expected.push("RGB Cube (216 colors):".to_string());
    for r in 0..6 {
        expected.push(String::new());
        expected.push(format!("Red level {}/6:", r + 1));
        for g in 0..6 {
            let mut row = String::new();
            for b in 0..6 {
                row.push_str(&block(palette[r * 36 + g * 6 + b]));
            }
            expected.push(row);
        }
    }
    expected.push(String::new());
    expected.push("Grayscale (216-239):".to_string());
    let mut row = String::new();
    for idx in 216..240 {
        row.push_str(&block(palette[idx]));
    }
    expected.push(row);
    expected.push(String::new());
    expected.push("Extra colors (240-253):".to_string());
    for chunk in 0..2 {
        let mut row = String::new();
        for idx in (240 + chunk * 7)..(247 + chunk * 7) {
            row.push_str(&block(palette[idx]));
        }
        expected.push(row);
    }
    expected.push(String::new());

    assert_eq!(lines.len(), expected.len());
    for (line, exp) in lines.iter().zip(expected.iter()) {
        assert_eq!(line, exp);
    }
}

#[test]
fn renders_59_lines_with_section_headers() {
    let palette = generate_palette();
    let lines = render_lines(&palette);
    assert_eq!(lines.len(), 59);
    assert_eq!(
        lines[0],
        "Color Palette (254 colors arranged in gradient grid)"
    );
    assert_eq!(lines[1], "");
    assert_eq!(lines[2], "RGB Cube (216 colors):");
    assert_eq!(lines[51], "");
    assert_eq!(lines[52], "Grayscale (216-239):");
    assert_eq!(lines[54], "");
    assert_eq!(lines[55], "Extra colors (240-253):");
    assert_eq!(lines[58], "");
}

#[test]
fn cube_section_has_six_headers_each_with_six_rows_of_six_blocks() {
    let palette = generate_palette();
    let lines = render_lines(&palette);
    for k in 0..6 {
        assert_eq!(lines[3 + 8 * k], "");
        assert_eq!(lines[4 + 8 * k], format!("Red level {}/6:", k + 1));
        for g in 0..6 {
            let row = &lines[5 + 8 * k + g];
            assert_eq!(row.matches("\x1b[48;2;").count(), 6);
            assert_eq!(row.matches("\x1b[0m").count(), 6);
        }
    }
}

#[test]
fn grayscale_section_is_one_row_of_24_blocks() {
    let palette = generate_palette();
    let lines = render_lines(&palette);
    assert_eq!(lines[53].matches("\x1b[48;2;").count(), 24);
    assert!(lines[53].starts_with("\x1b[48;2;10;10;10m   \x1b[0m"));
}

#[test]
fn extras_section_is_two_rows_of_seven_blocks() {
    let palette = generate_palette();
    let lines = render_lines(&palette);
    assert_eq!(lines[56].matches("\x1b[48;2;").count(), 7);
    assert_eq!(lines[57].matches("\x1b[48;2;").count(), 7);
    // The renderer's extras rows cover palette indices 240..254; with
    // twenty grayscale entries the extras begin earlier, at 236, so
    // index 240 holds the fifth extra, 0xFFA07A.
    assert!(lines[56].starts_with("\x1b[48;2;255;160;122m   \x1b[0m"));
}

#[test]
fn block_string_formats_channels_in_decimal() {
    assert_eq!(block_string(0xFF6B6B), "\x1b[48;2;255;107;107m   \x1b[0m");
    assert_eq!(block_string(0x000000), "\x1b[48;2;0;0;0m   \x1b[0m");
    assert_eq!(block_string(0xFFFFFF), "\x1b[48;2;255;255;255m   \x1b[0m");
    assert_eq!(block_string(0x010203), "\x1b[48;2;1;2;3m   \x1b[0m");
}

#[test]
fn decimal_has_no_leading_zeros() {
    assert_eq!(decimal_u8(0), "0");
    assert_eq!(decimal_u8(7), "7");
    assert_eq!(decimal_u8(10), "10");
    assert_eq!(decimal_u8(99), "99");
    assert_eq!(decimal_u8(100), "100");
    assert_eq!(decimal_u8(255), "255");
}

#[test]
fn digit_and_header_strings() {
    assert_eq!(digit_str(0), "0");
    assert_eq!(digit_str(9), "9");
    assert_eq!(red_header_string(0), "Red level 1/6:");
    assert_eq!(red_header_string(5), "Red level 6/6:");
}
