use raytracer::color::Color;

#[test]
fn new_keeps_channels() {
    let c = Color::new(12, 34, 56);
    assert_eq!(c.r, 12);
    assert_eq!(c.g, 34);
    assert_eq!(c.b, 56);
}

#[test]
fn black_is_black() {
    let c = Color::black();
    assert_eq!(c, Color::new(0, 0, 0));
    assert!(c.is_black());
    assert!(!Color::new(0, 0, 1).is_black());
    assert!(!Color::new(1, 0, 0).is_black());
}

#[test]
fn from_hex_unpacks_channels() {
    let c = Color::from_hex(0x123456);
    assert_eq!(c, Color::new(0x12, 0x34, 0x56));
    assert_eq!(Color::from_hex(0xFF00FF), Color::new(255, 0, 255));
    // Bits above the low three bytes are ignored.
    assert_eq!(Color::from_hex(0xAB123456), Color::new(0x12, 0x34, 0x56));
}

#[test]
fn to_hex_packs_channels() {
    assert_eq!(Color::new(1, 2, 3).to_hex(), 0x010203);
    assert_eq!(Color::new(255, 255, 255).to_hex(), 0xFFFFFF);
    assert_eq!(Color::new(40, 24, 128).to_hex(), 0x281880);
    assert_eq!(Color::black().to_hex(), 0);
}

#[test]
fn hex_round_trip() {
    // from_hex(to_hex(c)) == c, sampled densely over the channel cube and
    // exhaustively along each axis.
    for r in (0..=255u16).step_by(15) {
        for g in (0..=255u16).step_by(15) {
            for b in (0..=255u16).step_by(15) {
                let c = Color::new(r as u8, g as u8, b as u8);
                assert_eq!(Color::from_hex(c.to_hex()), c);
            }
        }
    }
    for v in 0..=255u8 {
        for c in [Color::new(v, 255 - v, v ^ 0x5A), Color::new(255 - v, v, v)] {
            assert_eq!(Color::from_hex(c.to_hex()), c);
        }
    }
}

#[test]
fn add_saturates() {
    assert_eq!(Color::new(250, 0, 0).add(Color::new(10, 0, 0)), Color::new(255, 0, 0));
    assert_eq!(Color::new(100, 50, 200).add(Color::new(50, 50, 100)), Color::new(150, 100, 255));
    assert_eq!(Color::new(255, 255, 255).add(Color::new(255, 255, 255)), Color::new(255, 255, 255));
    assert_eq!(Color::new(1, 2, 3).add(Color::black()), Color::new(1, 2, 3));
}

#[test]
fn add_assign_saturates() {
    let mut c = Color::new(250, 7, 100);
    c.add_assign(Color::new(10, 8, 100));
    assert_eq!(c, Color::new(255, 15, 200));
    c.add_assign(Color::new(0, 250, 100));
    assert_eq!(c, Color::new(255, 255, 255));
}

#[test]
fn to_f32_truncates_to_unit_range() {
    assert_eq!(Color::new(255, 255, 255).to_f32(), Color::new(1, 1, 1));
    assert_eq!(Color::new(254, 128, 0).to_f32(), Color::new(0, 0, 0));
    assert_eq!(Color::new(0, 255, 1).to_f32(), Color::new(0, 1, 0));
}
