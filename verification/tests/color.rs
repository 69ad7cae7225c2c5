use fractal_renderer::color::{
    color_raw, from_hex, parse_color_list, to_raw_colors, vec_from_hex, Color, ColorError,
};

#[test]
fn test_hex_to_color() {
    let hex = "ffffff";
    let color = from_hex(hex);
    assert_ne!(color.is_err(), true);
}

#[test]
fn test_hex_vec_to_color() {
    let hex = vec!["ffffff", "ffffff"];
    let color = vec_from_hex(&hex);
    assert_ne!(color.is_err(), true);
}

#[test]
fn hex_gives_the_channels_and_full_alpha() {
    assert_eq!(from_hex("11ffff"), Ok(Color { r: 0x11, g: 0xff, b: 0xff, a: 255 }));
    assert_eq!(from_hex("1100ff"), Ok(Color { r: 0x11, g: 0x00, b: 0xff, a: 255 }));
    assert_eq!(from_hex("000000"), Ok(Color { r: 0, g: 0, b: 0, a: 255 }));
    assert_eq!(from_hex("55cdfc"), Ok(Color { r: 85, g: 205, b: 252, a: 255 }));
}

#[test]
fn hex_reads_both_cases() {
    assert_eq!(from_hex("AbCdEf"), Ok(Color { r: 0xab, g: 0xcd, b: 0xef, a: 255 }));
    assert_eq!(from_hex("ABCDEF"), from_hex("abcdef"));
}

#[test]
fn hex_agrees_with_the_standard_parser_on_every_byte() {
    for value in 0u32..=255 {
        let lower = format!("{:02x}{:02x}{:02x}", value, 255 - value, value / 2);
        let upper = format!("{:02X}{:02X}{:02X}", value, 255 - value, value / 2);
        let expected = Color {
            r: value as u8,
            g: (255 - value) as u8,
            b: (value / 2) as u8,
            a: 255,
        };
        assert_eq!(from_hex(&lower), Ok(expected));
        assert_eq!(from_hex(&upper), Ok(expected));
        let color = from_hex(&lower).unwrap();
        let red = color.r as f64 / 255.0;
        assert!((red - value as f64 / 255.0).abs() < 1e-12);
        assert_eq!(color.a as f64 / 255.0, 1.0);
    }
}

#[test]
fn hex_of_another_length_is_rejected() {
    assert_eq!(from_hex(""), Err(ColorError::InvalidColorFormat));
    assert_eq!(from_hex("fffff"), Err(ColorError::InvalidColorFormat));
    assert_eq!(from_hex("fffffff"), Err(ColorError::InvalidColorFormat));
    assert_eq!(from_hex("ffffffff"), Err(ColorError::InvalidColorFormat));
    assert_eq!(from_hex("#ffffff"), Err(ColorError::InvalidColorFormat));
}

#[test]
fn hex_with_another_character_is_rejected() {
    assert_eq!(from_hex("zz0000"), Err(ColorError::InvalidColorFormat));
    assert_eq!(from_hex("00000g"), Err(ColorError::InvalidColorFormat));
    assert_eq!(from_hex("0000 0"), Err(ColorError::InvalidColorFormat));
    assert_eq!(from_hex("+f+f+f"), Err(ColorError::InvalidColorFormat));
    assert_eq!(from_hex("-10000"), Err(ColorError::InvalidColorFormat));
    assert_eq!(from_hex("0x1234"), Err(ColorError::InvalidColorFormat));
}

#[test]
fn hex_that_is_not_ascii_is_rejected() {
    // six bytes, five characters
    assert_eq!(from_hex("a\u{e9}123"), Err(ColorError::InvalidColorFormat));
    // six characters, more bytes
    assert_eq!(from_hex("\u{ff11}\u{ff11}ffff"), Err(ColorError::InvalidColorFormat));
    assert_eq!(from_hex("\u{20ac}\u{20ac}"), Err(ColorError::InvalidColorFormat));
}

#[test]
fn vec_from_hex_keeps_the_order() {
    let colors = vec_from_hex(&["ffffff", "11ffff", "1100ff"]).unwrap();
    assert_eq!(
        colors,
        vec![
            Color { r: 255, g: 255, b: 255, a: 255 },
            Color { r: 0x11, g: 255, b: 255, a: 255 },
            Color { r: 0x11, g: 0, b: 255, a: 255 },
        ]
    );
}

#[test]
fn vec_from_hex_of_nothing_is_empty() {
    let none: Vec<&str> = vec![];
    assert_eq!(vec_from_hex(&none), Ok(vec![]));
}

#[test]
fn vec_from_hex_fails_on_one_bad_color() {
    assert_eq!(vec_from_hex(&["ffffff", "zz0000", "000000"]), Err(ColorError::InvalidColorFormat));
    assert_eq!(vec_from_hex(&["ffffff", ""]), Err(ColorError::InvalidColorFormat));
}

#[test]
fn color_list_is_split_at_commas() {
    let colors = parse_color_list("ffffff,11ffff,1100ff").unwrap();
    assert_eq!(
        colors,
        vec![
            Color { r: 255, g: 255, b: 255, a: 255 },
            Color { r: 0x11, g: 255, b: 255, a: 255 },
            Color { r: 0x11, g: 0, b: 255, a: 255 },
        ]
    );
    assert_eq!(parse_color_list("102030"), Ok(vec![Color { r: 0x10, g: 0x20, b: 0x30, a: 255 }]));
}

#[test]
fn color_list_agrees_with_split_and_vec_from_hex() {
    let lists = [
        "ffffff,11ffff,1100ff",
        "000000",
        "",
        ",",
        "ffffff,",
        ",ffffff",
        "ffffff,,000000",
        "zz0000",
        "ffffff,zz0000",
        "ffffff, 000000",
        "fffff,f000000",
    ];
    for list in lists {
        let pieces: Vec<&str> = list.split(',').collect();
        assert_eq!(parse_color_list(list), vec_from_hex(&pieces));
    }
}

#[test]
fn color_list_with_an_empty_piece_is_rejected() {
    assert_eq!(parse_color_list(""), Err(ColorError::InvalidColorFormat));
    assert_eq!(parse_color_list("ffffff,"), Err(ColorError::InvalidColorFormat));
    assert_eq!(parse_color_list(",ffffff"), Err(ColorError::InvalidColorFormat));
    assert_eq!(parse_color_list("ffffff,,ffffff"), Err(ColorError::InvalidColorFormat));
}

#[test]
fn color_list_with_an_invalid_digit_is_rejected() {
    assert_eq!(parse_color_list("zz0000"), Err(ColorError::InvalidColorFormat));
    assert_eq!(parse_color_list("ffffff,zz0000,000000"), Err(ColorError::InvalidColorFormat));
    assert_eq!(parse_color_list("ffffff;000000"), Err(ColorError::InvalidColorFormat));
}

#[test]
fn color_raw_is_red_green_blue_alpha() {
    assert_eq!(color_raw(&Color { r: 1, g: 2, b: 3, a: 4 }), [1, 2, 3, 4]);
}

#[test]
fn raw_colors_are_four_values_per_color_in_order() {
    let colors = vec![
        Color { r: 1, g: 2, b: 3, a: 4 },
        Color { r: 5, g: 6, b: 7, a: 8 },
        Color { r: 9, g: 10, b: 11, a: 12 },
    ];
    assert_eq!(to_raw_colors(&colors), vec![1, 2, 3, 4, 5, 6, 7, 8, 9, 10, 11, 12]);
    assert_eq!(to_raw_colors(&[]), Vec::<u8>::new());
}

#[test]
fn raw_colors_have_four_times_the_length_up_to_the_cap() {
    for n in [1usize, 2, 5, 511, 512, 1023, 1024] {
        let colors: Vec<Color> = (0..n)
            .map(|i| Color { r: i as u8, g: (i >> 8) as u8, b: 7, a: 255 })
            .collect();
        let raw = to_raw_colors(&colors);
        assert_eq!(raw.len(), 4 * n);
        for (i, color) in colors.iter().enumerate() {
            assert_eq!(&raw[4 * i..4 * i + 4], &color_raw(color));
        }
    }
}
