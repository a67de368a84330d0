use pathtracer::ppm::{ppm_bytes, push_decimal, push_pixel_line, Pixel};

#[test]
fn decimal_digits_of_small_and_large_numbers() {
    let cases: Vec<(u32, &str)> = vec![
        (0, "0"),
        (7, "7"),
        (10, "10"),
        (255, "255"),
        (256, "256"),
        (1000000, "1000000"),
        (u32::MAX, "4294967295"),
    ];
    for (value, expected) in cases {
        let mut out: Vec<u8> = Vec::new();
        push_decimal(&mut out, value);
        assert_eq!(String::from_utf8(out).unwrap(), expected);
    }
}

#[test]
fn pixel_line_has_three_channels_and_newline() {
    let mut out: Vec<u8> = Vec::new();
    push_pixel_line(&mut out, Pixel { red: 12, green: 0, blue: 255 });
    assert_eq!(String::from_utf8(out).unwrap(), "12 0 255\n");
}

#[test]
fn image_bytes_start_with_the_header() {
    let pixels = vec![Pixel { red: 1, green: 2, blue: 3 }, Pixel { red: 4, green: 5, blue: 6 }];
    let bytes = ppm_bytes(2, 1, &pixels);
    let text = String::from_utf8(bytes).unwrap();
    assert_eq!(text, "P3\n2 1\n255\n1 2 3\n4 5 6\n");
}

#[test]
fn small_image_grid_is_well_formed() {
    // A 16-by-9 image: the header names the dimensions and the maximum
    // channel value, and exactly 16 * 9 pixel lines follow, each holding
    // three integers that fit in eight bits.
    let width: u32 = 16;
    let height: u32 = 9;
    let mut pixels: Vec<Pixel> = Vec::new();
    for k in 0..(width * height) {
        pixels.push(Pixel {
            red: (k % 256) as u8,
            green: (k * 3 % 256) as u8,
            blue: 255 - (k % 256) as u8,
        });
    }
    let bytes = ppm_bytes(width, height, &pixels);
    let text = String::from_utf8(bytes).unwrap();
    let lines: Vec<&str> = text.lines().collect();
    assert_eq!(lines.len(), 3 + (width * height) as usize);
    assert_eq!(lines[0], "P3");
    assert_eq!(lines[1], "16 9");
    assert_eq!(lines[2], "255");
    for line in &lines[3..] {
        let channels: Vec<&str> = line.split(' ').collect();
        assert_eq!(channels.len(), 3);
        for channel in channels {
            let value: u32 = channel.parse().unwrap();
            assert!(value <= 255);
        }
    }
}
