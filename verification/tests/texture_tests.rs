use raytracer::color::Color;
use raytracer::texture::Texture;

#[test]
fn from_rgb_reads_row_major_triples() {
    let data = vec![
        1, 2, 3, 4, 5, 6, // row 0
        7, 8, 9, 10, 11, 12, // row 1
        13, 14, 15, 16, 17, 18, // row 2
    ];
    let t = Texture::from_rgb(2, 3, &data);
    assert_eq!(t.width(), 2);
    assert_eq!(t.height(), 3);
    assert_eq!(t.get_color(0, 0), Color::new(1, 2, 3));
    assert_eq!(t.get_color(1, 0), Color::new(4, 5, 6));
    assert_eq!(t.get_color(0, 1), Color::new(7, 8, 9));
    assert_eq!(t.get_color(1, 1), Color::new(10, 11, 12));
    assert_eq!(t.get_color(0, 2), Color::new(13, 14, 15));
    assert_eq!(t.get_color(1, 2), Color::new(16, 17, 18));
}

#[test]
fn get_color_off_grid_is_magenta() {
    let t = Texture::from_rgb(2, 2, &vec![0u8; 12]);
    let magenta = Color::new(255, 0, 255);
    assert_eq!(t.get_color(2, 0), magenta);
    assert_eq!(t.get_color(0, 2), magenta);
    assert_eq!(t.get_color(7, 9), magenta);
    assert_eq!(t.get_color(1, 1), Color::black());
}

#[test]
fn new_decodes_png_bytes() {
    let img = image::RgbImage::from_raw(2, 1, vec![10, 20, 30, 200, 150, 100]).unwrap();
    let mut png: Vec<u8> = Vec::new();
    img.write_to(&mut std::io::Cursor::new(&mut png), image::ImageFormat::Png).unwrap();

    let t = Texture::new(&png).expect("valid PNG must decode");
    assert_eq!(t.width(), 2);
    assert_eq!(t.height(), 1);
    assert_eq!(t.get_color(0, 0), Color::new(10, 20, 30));
    assert_eq!(t.get_color(1, 0), Color::new(200, 150, 100));
}

#[test]
fn new_rejects_undecodable_bytes() {
    assert!(Texture::new(&[0u8, 1, 2, 3, 4]).is_none());
    assert!(Texture::new(&[]).is_none());
}
