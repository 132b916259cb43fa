use ardoise::imagery::Imagery;
use ardoise::pixel::Bgr8;

#[test]
fn test_transform_to_grey_4bpp() {
    let black = Bgr8 { b: 0, g: 0, r: 0 };
    let white = Bgr8 { b: 255, g: 255, r: 255 };

    let old_slice = &[
        white, black, white, white, /**/
        white, black, white, white,
    ];

    let mut brg8_vec: Vec<Bgr8> = Vec::new();
    for brg in old_slice.iter() {
        brg8_vec.push(brg.clone());
    }

    let grey_vec: Vec<u8> = Imagery::transform_to_grey_4bpp(&brg8_vec);

    assert_eq!(
        grey_vec,
        vec![0b0000_1111, 0b1111_1111 /**/, 0b0000_1111, 0b1111_1111]
    );
}

#[test]
fn packing_halves_the_length() {
    for k in 0..6usize {
        let pixels = vec![Bgr8 { b: 10, g: 20, r: 30 }; 4 * k];
        assert_eq!(Imagery::transform_to_grey_4bpp(&pixels).len(), 2 * k);
    }
}

#[test]
fn packing_puts_the_second_pixel_in_the_high_half() {
    let dark = Bgr8 { b: 40, g: 40, r: 40 }; // grey 40: level 2
    let light = Bgr8 { b: 200, g: 200, r: 200 }; // grey 200: level 12
    assert_eq!(dark.grey_4bpp(), 2);
    assert_eq!(light.grey_4bpp(), 12);
    assert_eq!(
        Imagery::transform_to_grey_4bpp(&vec![dark, light, light, dark]),
        vec![0xC2, 0x2C]
    );
}

#[test]
fn packing_of_nothing_is_nothing() {
    assert_eq!(Imagery::transform_to_grey_4bpp(&Vec::new()), Vec::<u8>::new());
}

#[test]
fn grey_weighs_the_channels() {
    assert_eq!(Bgr8 { b: 0, g: 0, r: 255 }.grey(), 54); // 0.2125 * 255 = 54.1875
    assert_eq!(Bgr8 { b: 0, g: 255, r: 0 }.grey(), 182); // 0.7154 * 255 = 182.427
    assert_eq!(Bgr8 { b: 255, g: 0, r: 0 }.grey(), 18); // 0.0721 * 255 = 18.3855
    assert_eq!(Bgr8 { b: 0, g: 0, r: 255 }.grey_4bpp(), 3);
    assert_eq!(Bgr8 { b: 0, g: 255, r: 0 }.grey_4bpp(), 11);
    assert_eq!(Bgr8 { b: 255, g: 0, r: 0 }.grey_4bpp(), 1);
    assert_eq!(Bgr8 { b: 255, g: 255, r: 255 }.grey(), 255);
    assert_eq!(Bgr8 { b: 0, g: 0, r: 0 }.grey(), 0);
}

#[test]
fn grey_rounds_to_the_nearest_level() {
    // the weighted sum of 16, 16, 16 falls just short of 16
    let p = Bgr8 { b: 16, g: 16, r: 16 };
    assert_eq!(p.grey(), 16);
    assert_eq!(p.grey_4bpp(), 1);
    // 0.0721 * 221 = 15.93
    let blue = Bgr8 { b: 221, g: 0, r: 0 };
    assert_eq!(blue.grey(), 16);
    assert_eq!(blue.grey_4bpp(), 1);
    // 0.0721 * 214 = 15.43
    let darker = Bgr8 { b: 214, g: 0, r: 0 };
    assert_eq!(darker.grey(), 15);
    assert_eq!(darker.grey_4bpp(), 0);
}

#[test]
fn packing_takes_the_rounded_grey() {
    let blue = Bgr8 { b: 221, g: 0, r: 0 };
    let black = Bgr8 { b: 0, g: 0, r: 0 };
    assert_eq!(
        Imagery::transform_to_grey_4bpp(&vec![blue, black, black, black]),
        vec![0x01, 0x00]
    );
    assert_eq!(
        Imagery::transform_to_grey_4bpp(&vec![black, blue, black, black]),
        vec![0x10, 0x00]
    );
}

#[test]
fn transform_to_grey_keeps_order_and_length() {
    let pixels = vec![
        Bgr8 { b: 0, g: 0, r: 0 },
        Bgr8 { b: 255, g: 255, r: 255 },
        Bgr8 { b: 0, g: 255, r: 0 },
    ];
    assert_eq!(Imagery::transform_to_grey(&pixels), vec![0, 255, 182]);
}

fn single_precision_luminance(p: Bgr8) -> f32 {
    let r: f32 = p.r.into();
    let g: f32 = p.g.into();
    let b: f32 = p.b.into();
    r * 0.2125 + g * 0.7154 + b * 0.0721
}

fn greys_match_single_precision(reds: std::ops::Range<u16>) {
    for r in reds {
        for g in 0..=255u8 {
            for b in 0..=255u8 {
                let p = Bgr8 { b, g, r: r as u8 };
                let luminance = single_precision_luminance(p);
                let grey = luminance.round() as u8;
                assert_eq!(p.grey(), grey, "{:?}", p);
                assert_eq!(p.grey_4bpp(), grey / 16, "{:?}", p);
            }
        }
    }
}

#[test]
fn greys_match_single_precision_reds_0_to_31() {
    greys_match_single_precision(0..32);
}

#[test]
fn greys_match_single_precision_reds_32_to_63() {
    greys_match_single_precision(32..64);
}

#[test]
fn greys_match_single_precision_reds_64_to_95() {
    greys_match_single_precision(64..96);
}

#[test]
fn greys_match_single_precision_reds_96_to_127() {
    greys_match_single_precision(96..128);
}

#[test]
fn greys_match_single_precision_reds_128_to_159() {
    greys_match_single_precision(128..160);
}

#[test]
fn greys_match_single_precision_reds_160_to_191() {
    greys_match_single_precision(160..192);
}

#[test]
fn greys_match_single_precision_reds_192_to_223() {
    greys_match_single_precision(192..224);
}

#[test]
fn greys_match_single_precision_reds_224_to_255() {
    greys_match_single_precision(224..256);
}
