use zx_host::color::{colour_conv, Rgb, ZxBrightness, ZxColor};

fn all_hues() -> Vec<ZxColor> {
    vec![
        ZxColor::Black,
        ZxColor::Blue,
        ZxColor::Red,
        ZxColor::Purple,
        ZxColor::Green,
        ZxColor::Cyan,
        ZxColor::Yellow,
        ZxColor::White,
    ]
}

#[test]
fn translation_table_is_distinct() {
    // The 15 semantic inputs: Black once, every other hue at both levels.
    let mut pixels: Vec<Rgb> = Vec::new();
    pixels.push(colour_conv(&ZxColor::Black, ZxBrightness::Normal));
    for hue in all_hues() {
        if hue != ZxColor::Black {
            pixels.push(colour_conv(&hue, ZxBrightness::Normal));
            pixels.push(colour_conv(&hue, ZxBrightness::Bright));
        }
    }
    assert_eq!(pixels.len(), 15);
    for i in 0..pixels.len() {
        for j in 0..pixels.len() {
            if i != j {
                assert_ne!(pixels[i], pixels[j]);
            }
        }
    }
}

#[test]
fn normal_is_half_of_bright_per_channel() {
    for hue in all_hues() {
        let bright = colour_conv(&hue, ZxBrightness::Bright);
        let normal = colour_conv(&hue, ZxBrightness::Normal);
        assert_eq!(normal.r, bright.r / 2);
        assert_eq!(normal.g, bright.g / 2);
        assert_eq!(normal.b, bright.b / 2);
    }
}

#[test]
fn black_ignores_brightness() {
    let a = colour_conv(&ZxColor::Black, ZxBrightness::Normal);
    let b = colour_conv(&ZxColor::Black, ZxBrightness::Bright);
    assert_eq!(a, b);
    assert_eq!(a, Rgb { r: 0, g: 0, b: 0 });
}

#[test]
fn exact_native_values() {
    assert_eq!(
        colour_conv(&ZxColor::Red, ZxBrightness::Bright),
        Rgb { r: 31, g: 0, b: 0 }
    );
    assert_eq!(
        colour_conv(&ZxColor::Red, ZxBrightness::Normal),
        Rgb { r: 15, g: 0, b: 0 }
    );
    assert_eq!(
        colour_conv(&ZxColor::Cyan, ZxBrightness::Normal),
        Rgb { r: 0, g: 31, b: 15 }
    );
    assert_eq!(
        colour_conv(&ZxColor::White, ZxBrightness::Bright),
        Rgb { r: 31, g: 63, b: 31 }
    );
    assert_eq!(
        colour_conv(&ZxColor::Yellow, ZxBrightness::Bright),
        Rgb { r: 31, g: 63, b: 0 }
    );
    assert_eq!(
        colour_conv(&ZxColor::Purple, ZxBrightness::Normal),
        Rgb { r: 15, g: 0, b: 15 }
    );
}
