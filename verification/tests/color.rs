use embedded_graphics::pixelcolor::{Rgb555, Rgb888, RgbColor};
use n64_gfx::gfx::{RGBA5551, RGBA8888, U1, U5};

#[test]
fn packed_round_trip_a() {
    for w in [0u32, 1, 0xFF, 0xDEAD_BEEF, 0x8000_0001, 0xFFFF_FFFF] {
        assert_eq!(RGBA8888::from_u32(w).into_u32(), w);
    }
}

#[test]
fn packed_round_trip_b() {
    for w in [0u16, 1, 0xFF, 0xBEEF, 0x8001, 0xFFFF] {
        assert_eq!(RGBA5551::from_u16(w).into_u16(), w);
    }
}

#[test]
fn construct_a_layout() {
    let c = RGBA8888::new(0x12, 0x34, 0x56, 0x78);
    assert_eq!(c.into_u32(), 0x1234_5678);
}

#[test]
fn channels_inverse_a() {
    for r in [0u8, 1, 127, 128, 255] {
        for a in [0u8, 3, 254, 255] {
            let c = RGBA8888::new(r, 200, 9, a);
            assert_eq!(c.r(), r);
            assert_eq!(c.g(), 200);
            assert_eq!(c.b(), 9);
            assert_eq!(c.a(), a);
        }
    }
}

#[test]
fn construct_b_layout() {
    let c = RGBA5551::new(U5::new(31), U5::new(16), U5::new(0), U1::new(1));
    assert_eq!(c.into_u16(), 0xFC01);
    let c = RGBA5551::new(U5::new(0), U5::new(0), U5::new(0), U1::new(0));
    assert_eq!(c.into_u16(), 0);
}

#[test]
fn channels_inverse_b() {
    for r in [0u8, 1, 17, 31] {
        for a in [0u8, 1] {
            let c = RGBA5551::new(U5::new(r), U5::new(30), U5::new(5), U1::new(a));
            assert_eq!(c.r().value(), r);
            assert_eq!(c.g().value(), 30);
            assert_eq!(c.b().value(), 5);
            assert_eq!(c.a().value(), a);
        }
    }
}

#[test]
fn narrow_keeps_top_bits() {
    let c = RGBA8888::new(0xFF, 0x80, 0x07, 0xFF);
    let n = RGBA5551::from_rgba8888(c);
    assert_eq!(n.r().value(), 31);
    assert_eq!(n.g().value(), 16);
    assert_eq!(n.b().value(), 0);
    assert_eq!(n.a().value(), 1);
}

#[test]
fn narrow_quantizes_alpha() {
    let opaque = RGBA5551::from_rgba8888(RGBA8888::new(0, 0, 0, 0x80));
    assert_eq!(opaque.a().value(), 1);
    let transparent = RGBA5551::from_rgba8888(RGBA8888::new(0, 0, 0, 0x7F));
    assert_eq!(transparent.a().value(), 0);
}

#[test]
fn widen_replicates_bits() {
    let w = RGBA8888::from_rgba5551(RGBA5551::from_u16(0xF801));
    assert_eq!(w.into_u32(), 0xFF00_00FF);
    let w = RGBA8888::from_rgba5551(RGBA5551::new(
        U5::new(16),
        U5::new(1),
        U5::new(0),
        U1::new(0),
    ));
    assert_eq!(w.r(), (16 << 3) | (16 >> 2));
    assert_eq!(w.g(), (1 << 3) | (1 >> 2));
    assert_eq!(w.b(), 0);
    assert_eq!(w.a(), 0);
}

#[test]
fn convert_round_trip_error_bound() {
    for v in 0u16..=255 {
        let orig = v as u8;
        let narrowed = RGBA5551::from_rgba8888(RGBA8888::new(orig, orig, orig, 0xFF));
        let recovered = RGBA8888::from_rgba5551(narrowed);
        for got in [recovered.r(), recovered.g(), recovered.b()] {
            let diff = (got as i32 - orig as i32).abs();
            assert!(diff <= 7, "channel {orig} came back as {got}");
        }
        assert_eq!(recovered.a(), 0xFF);
    }
    for alpha in 0u16..=255 {
        let a = alpha as u8;
        let recovered = RGBA8888::from_rgba5551(RGBA5551::from_rgba8888(RGBA8888::new(0, 0, 0, a)));
        let expected = if a >= 128 { 0xFF } else { 0x00 };
        assert_eq!(recovered.a(), expected);
    }
}

#[test]
fn gamma_a_squares_channels() {
    let c = RGBA8888::linear(255, 0, 16, 9);
    assert_eq!(c.into_u32(), 0xFE00_0109);
    let c = RGBA8888::linear(128, 64, 32, 0xFF);
    assert_eq!(c.r(), ((128u32 * 128) >> 8) as u8);
    assert_eq!(c.g(), ((64u32 * 64) >> 8) as u8);
    assert_eq!(c.b(), ((32u32 * 32) >> 8) as u8);
    assert_eq!(c.a(), 0xFF);
}

#[test]
fn gamma_b_squares_channels() {
    let c = RGBA5551::linear(U5::new(31), U5::new(0), U5::new(4), U1::new(1));
    assert_eq!(c.r().value(), ((31u32 * 31) >> 5) as u8);
    assert_eq!(c.g().value(), 0);
    assert_eq!(c.b().value(), ((4u32 * 4) >> 5) as u8);
    assert_eq!(c.a().value(), 1);
}

#[test]
fn named_constants_packed_values() {
    assert_eq!(RGBA8888::black().into_u32(), 0x0000_00FF);
    assert_eq!(RGBA8888::red().into_u32(), 0xFF00_00FF);
    assert_eq!(RGBA8888::green().into_u32(), 0x00FF_00FF);
    assert_eq!(RGBA8888::blue().into_u32(), 0x0000_FFFF);
    assert_eq!(RGBA8888::yellow().into_u32(), 0xFFFF_00FF);
    assert_eq!(RGBA8888::magenta().into_u32(), 0xFF00_FFFF);
    assert_eq!(RGBA8888::cyan().into_u32(), 0x00FF_FFFF);
    assert_eq!(RGBA8888::white().into_u32(), 0xFFFF_FFFF);
    assert_eq!(RGBA5551::black().into_u16(), 0x0001);
    assert_eq!(RGBA5551::red().into_u16(), 0xF801);
    assert_eq!(RGBA5551::green().into_u16(), 0x07C1);
    assert_eq!(RGBA5551::blue().into_u16(), 0x003F);
    assert_eq!(RGBA5551::yellow().into_u16(), 0xFFC1);
    assert_eq!(RGBA5551::magenta().into_u16(), 0xF83F);
    assert_eq!(RGBA5551::cyan().into_u16(), 0x07FF);
    assert_eq!(RGBA5551::white().into_u16(), 0xFFFF);
}

#[test]
fn named_constants_agree_across_formats() {
    let pairs = [
        (RGBA8888::black(), RGBA5551::black()),
        (RGBA8888::red(), RGBA5551::red()),
        (RGBA8888::green(), RGBA5551::green()),
        (RGBA8888::blue(), RGBA5551::blue()),
        (RGBA8888::yellow(), RGBA5551::yellow()),
        (RGBA8888::magenta(), RGBA5551::magenta()),
        (RGBA8888::cyan(), RGBA5551::cyan()),
        (RGBA8888::white(), RGBA5551::white()),
    ];
    for (a, b) in pairs {
        assert_eq!(RGBA5551::from_rgba8888(a), b);
        assert_eq!(RGBA8888::from_rgba5551(b), a);
    }
}

#[test]
fn named_constants_match_ecosystem_palette() {
    let ours = [
        (RGBA8888::black(), Rgb888::BLACK, RGBA5551::black(), Rgb555::BLACK),
        (RGBA8888::red(), Rgb888::RED, RGBA5551::red(), Rgb555::RED),
        (RGBA8888::green(), Rgb888::GREEN, RGBA5551::green(), Rgb555::GREEN),
        (RGBA8888::blue(), Rgb888::BLUE, RGBA5551::blue(), Rgb555::BLUE),
        (RGBA8888::yellow(), Rgb888::YELLOW, RGBA5551::yellow(), Rgb555::YELLOW),
        (RGBA8888::magenta(), Rgb888::MAGENTA, RGBA5551::magenta(), Rgb555::MAGENTA),
        (RGBA8888::cyan(), Rgb888::CYAN, RGBA5551::cyan(), Rgb555::CYAN),
        (RGBA8888::white(), Rgb888::WHITE, RGBA5551::white(), Rgb555::WHITE),
    ];
    for (a, reference_a, b, reference_b) in ours {
        assert_eq!(a.r(), reference_a.r());
        assert_eq!(a.g(), reference_a.g());
        assert_eq!(a.b(), reference_a.b());
        assert_eq!(a.a(), 0xFF);
        assert_eq!(b.r().value(), reference_b.r());
        assert_eq!(b.g().value(), reference_b.g());
        assert_eq!(b.b().value(), reference_b.b());
        assert_eq!(b.a().value(), 1);
    }
}
