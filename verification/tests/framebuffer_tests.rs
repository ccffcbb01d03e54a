use raytracer::color::Color;
use raytracer::framebuffer::Framebuffer;

#[test]
fn new_starts_zeroed() {
    let fb = Framebuffer::new(4, 3);
    assert_eq!(fb.width(), 4);
    assert_eq!(fb.height(), 3);
    assert_eq!(fb.data().len(), 12);
    for x in 0..4 {
        for y in 0..3 {
            assert_eq!(fb.get_pixel(x, y), 0);
        }
    }
}

#[test]
fn set_pixel_packs_and_places() {
    let mut fb = Framebuffer::new(3, 2);
    fb.set_pixel(2, 1, Color::new(0x12, 0x34, 0x56));
    assert_eq!(fb.get_pixel(2, 1), 0x123456);
    // Row-major: (x, y) sits at y * width + x.
    assert_eq!(fb.data()[1 * 3 + 2], 0x123456);
    assert_eq!(fb.get_pixel(0, 0), 0);
    assert_eq!(fb.get_pixel(2, 0), 0);
    assert_eq!(fb.get_pixel(1, 1), 0);
}

#[test]
fn set_row_replaces_one_row() {
    let mut fb = Framebuffer::new(3, 3);
    fb.set_pixel(0, 0, Color::new(1, 1, 1));
    fb.set_pixel(0, 2, Color::new(2, 2, 2));
    fb.set_row(1, &[0xAA, 0xBB, 0xCC]);
    assert_eq!(fb.get_pixel(0, 1), 0xAA);
    assert_eq!(fb.get_pixel(1, 1), 0xBB);
    assert_eq!(fb.get_pixel(2, 1), 0xCC);
    // The other rows keep their pixels.
    assert_eq!(fb.get_pixel(0, 0), 0x010101);
    assert_eq!(fb.get_pixel(0, 2), 0x020202);
}

#[test]
fn clear_zeroes_everything() {
    let mut fb = Framebuffer::new(2, 2);
    fb.set_row(0, &[1, 2]);
    fb.set_row(1, &[3, 4]);
    fb.clear();
    for x in 0..2 {
        for y in 0..2 {
            assert_eq!(fb.get_pixel(x, y), 0);
        }
    }
    assert_eq!(fb.width(), 2);
    assert_eq!(fb.height(), 2);
}
