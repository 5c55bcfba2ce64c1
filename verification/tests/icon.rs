use image::{ImageFormat, RgbaImage};
use std::io::Cursor;
use vrr_window::utils::{load_icon, DecodedImage, IconImage};

const ICON_PNG: [u8; 103] = [
    137, 80, 78, 71, 13, 10, 26, 10, 0, 0, 0, 13, 73, 72, 68, 82,
    0, 0, 0, 16, 0, 0, 0, 16, 8, 6, 0, 0, 0, 31, 243, 255,
    97, 0, 0, 0, 46, 73, 68, 65, 84, 120, 218, 99, 80, 80, 80, 248,
    79, 9, 102, 0, 17, 14, 11, 254, 195, 49, 58, 64, 150, 67, 151, 31,
    68, 6, 16, 171, 1, 93, 126, 56, 25, 48, 12, 162, 113, 52, 29, 80,
    150, 157, 1, 141, 52, 241, 215, 205, 10, 239, 195, 0, 0, 0, 0, 73,
    69, 78, 68, 174, 66, 96, 130,
];

fn png_of(width: u32, height: u32, rgba: Vec<u8>) -> Vec<u8> {
    let image = RgbaImage::from_raw(width, height, rgba).unwrap();
    let mut bytes = Cursor::new(Vec::new());
    image.write_to(&mut bytes, ImageFormat::Png).unwrap();
    bytes.into_inner()
}

#[test]
fn load_icon_decodes_pixels_and_dimensions() {
    let pixels = vec![255, 0, 0, 255, 0, 255, 0, 128, 0, 0, 255, 0, 9, 8, 7, 6, 5, 4, 3, 2, 1, 2, 3, 4];
    let png = png_of(3, 2, pixels.clone());
    assert_ne!(png, pixels);
    let icon = load_icon(&png).unwrap();
    assert_eq!(icon.width(), 3);
    assert_eq!(icon.height(), 2);
    assert_eq!(icon.rgba(), &pixels);
}

#[test]
fn load_icon_decodes_a_single_pixel() {
    let pixels = vec![10, 20, 30, 40];
    let png = png_of(1, 1, pixels.clone());
    let icon = load_icon(&png).unwrap();
    assert_eq!(icon.width(), 1);
    assert_eq!(icon.height(), 1);
    assert_eq!(icon.rgba(), &pixels);
}

#[test]
fn load_icon_rejects_what_is_no_image() {
    assert!(load_icon(&[]).is_none());
    assert!(load_icon(b"not an image").is_none());
    let mut png = png_of(1, 1, vec![1, 2, 3, 4]);
    png.truncate(20);
    assert!(load_icon(&png).is_none());
}

#[test]
fn icon_needs_four_bytes_for_each_pixel() {
    let icon = IconImage::from_decoded(DecodedImage { rgba: vec![0; 24], width: 3, height: 2 });
    assert!(icon.is_some());
    let icon = IconImage::from_decoded(DecodedImage { rgba: vec![0; 23], width: 3, height: 2 });
    assert!(icon.is_none());
    let icon = IconImage::from_decoded(DecodedImage { rgba: vec![0; 24], width: 2, height: 2 });
    assert!(icon.is_none());
    let icon = IconImage::from_decoded(DecodedImage { rgba: vec![0; 20], width: 3, height: 2 });
    assert!(icon.is_none());
    let icon = IconImage::from_decoded(DecodedImage { rgba: Vec::new(), width: 0, height: 7 });
    assert!(icon.is_some());
    let icon =
        IconImage::from_decoded(DecodedImage { rgba: Vec::new(), width: 65536, height: 65536 });
    assert!(icon.is_none());
}

#[test]
fn duplicate_keeps_the_icon() {
    let icon = IconImage::from_decoded(DecodedImage { rgba: vec![1, 2, 3, 4], width: 1, height: 1 })
        .unwrap();
    let copy = icon.duplicate();
    assert_eq!(copy.rgba(), icon.rgba());
    assert_eq!(copy.width(), 1);
    assert_eq!(copy.height(), 1);
}

#[test]
fn icon_is_accepted_by_the_windowing_system() {
    let png = png_of(2, 2, vec![7; 16]);
    let icon = load_icon(&png).unwrap();
    let made = winit::window::Icon::from_rgba(icon.rgba().clone(), icon.width(), icon.height());
    assert!(made.is_ok());
}

#[test]
fn bundled_icon_decodes_to_sixteen_by_sixteen() {
    let icon = load_icon(&ICON_PNG).unwrap();
    assert_eq!(icon.width(), 16);
    assert_eq!(icon.height(), 16);
    assert_eq!(icon.rgba().len(), 16 * 16 * 4);
    assert_eq!(&icon.rgba()[..8], &[32, 32, 32, 255, 32, 32, 32, 255]);
    assert_eq!(&icon.rgba()[17 * 4..18 * 4], &[64, 160, 255, 255]);
}
