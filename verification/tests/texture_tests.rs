use std::io::Cursor;

use radiance_switch::texture::{image_or_missing, load_rgba8, RgbaImage, SwitchGLTexture};

fn png_2x1() -> Vec<u8> {
    let mut img = image::RgbaImage::new(2, 1);
    img.put_pixel(0, 0, image::Rgba([255, 0, 0, 255]));
    img.put_pixel(1, 0, image::Rgba([0, 0, 255, 128]));
    let mut bytes = Cursor::new(Vec::new());
    img.write_to(&mut bytes, image::ImageFormat::Png).unwrap();
    bytes.into_inner()
}

#[test]
fn decodes_png_to_rgba8() {
    let decoded = load_rgba8(&png_2x1()).unwrap();
    assert_eq!(decoded.width(), 2);
    assert_eq!(decoded.height(), 1);
    assert_eq!(decoded.pixels(), &[255, 0, 0, 255, 0, 0, 255, 128][..]);
}

#[test]
fn undecodable_bytes_give_none() {
    assert!(load_rgba8(&[1, 2, 3, 4]).is_none());
    assert!(load_rgba8(&[]).is_none());
}

#[test]
fn own_image_wins_over_missing() {
    let own = RgbaImage::new(1, 1, vec![1, 2, 3, 4]);
    let chosen = image_or_missing(Some(own), &png_2x1()).unwrap();
    assert_eq!(chosen.width(), 1);
    assert_eq!(chosen.pixels(), &[1, 2, 3, 4][..]);
}

#[test]
fn missing_image_falls_back_to_asset() {
    let chosen = image_or_missing(None, &png_2x1()).unwrap();
    assert_eq!((chosen.width(), chosen.height()), (2, 1));
    assert!(image_or_missing(None, b"not an image").is_none());
}

#[test]
fn texture_getters() {
    let t = SwitchGLTexture::new(9, 128, 64);
    assert_eq!(t.texture_id(), 9);
    assert_eq!(t.width(), 128);
    assert_eq!(t.height(), 64);
    assert_eq!(t.imgui_texture_id(), 9usize);
}

#[test]
fn decodes_other_formats_by_their_magic_bytes() {
    let img = image::RgbaImage::from_pixel(3, 2, image::Rgba([10, 20, 30, 255]));
    let mut bytes = Cursor::new(Vec::new());
    img.write_to(&mut bytes, image::ImageFormat::Bmp).unwrap();
    let decoded = load_rgba8(bytes.get_ref()).unwrap();
    assert_eq!((decoded.width(), decoded.height()), (3, 2));
    assert_eq!(&decoded.pixels()[0..4], &[10, 20, 30, 255][..]);
    assert_eq!(decoded.pixels().len(), 4 * 3 * 2);
    let chosen = image_or_missing(None, bytes.get_ref()).unwrap();
    assert_eq!((chosen.width(), chosen.height()), (3, 2));
}
