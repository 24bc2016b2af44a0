use diorama::color::Color;
use diorama::decode::TextureError;
use diorama::skybox::Skybox;
use diorama::texture::Texture;

// A PNG of 2 x 2 pixels: red, green; blue, (10, 20, 30).
const RGB_PNG: [u8; 76] = [
    137, 80, 78, 71, 13, 10, 26, 10, 0, 0, 0, 13, 73, 72, 68, 82, 0, 0, 0, 2, 0, 0, 0, 2, 8, 2, 0,
    0, 0, 253, 212, 154, 115, 0, 0, 0, 19, 73, 68, 65, 84, 120, 218, 99, 248, 207, 192, 192, 0,
    194, 12, 255, 185, 68, 228, 0, 26, 88, 3, 58, 226, 146, 110, 217, 0, 0, 0, 0, 73, 69, 78, 68,
    174, 66, 96, 130,
];

// A greyscale PNG of 3 x 1 pixels: 0, 128, 255.
const GRAY_PNG: [u8; 69] = [
    137, 80, 78, 71, 13, 10, 26, 10, 0, 0, 0, 13, 73, 72, 68, 82, 0, 0, 0, 3, 0, 0, 0, 1, 8, 0, 0,
    0, 0, 62, 139, 75, 104, 0, 0, 0, 12, 73, 68, 65, 84, 120, 218, 99, 96, 104, 248, 15, 0, 2, 3,
    1, 128, 26, 156, 38, 59, 0, 0, 0, 0, 73, 69, 78, 68, 174, 66, 96, 130,
];

// A PNG with an alpha channel, 1 x 2 pixels: (1, 2, 3) opaque, then
// (200, 100, 50) transparent.
const RGBA_PNG: [u8; 75] = [
    137, 80, 78, 71, 13, 10, 26, 10, 0, 0, 0, 13, 73, 72, 68, 82, 0, 0, 0, 1, 0, 0, 0, 2, 8, 6, 0,
    0, 0, 153, 129, 182, 39, 0, 0, 0, 18, 73, 68, 65, 84, 120, 218, 99, 96, 100, 98, 254, 207,
    112, 34, 197, 136, 1, 0, 10, 226, 2, 100, 66, 60, 206, 251, 0, 0, 0, 0, 73, 69, 78, 68, 174,
    66, 96, 130,
];

fn encode(width: u32, height: u32, data: &[u8]) -> Vec<u8> {
    let img = image::RgbImage::from_raw(width, height, data.to_vec()).unwrap();
    let mut bytes = Vec::new();
    img.write_to(&mut std::io::Cursor::new(&mut bytes), image::ImageFormat::Png).unwrap();
    bytes
}

#[test]
fn decodes_a_colour_png() {
    let texture = Texture::decode(&RGB_PNG).unwrap();
    assert_eq!((texture.width, texture.height), (2, 2));
    assert_eq!(texture.data, vec![255, 0, 0, 0, 255, 0, 0, 0, 255, 10, 20, 30]);
    assert_ne!(texture.data, RGB_PNG.to_vec());
    assert_eq!(texture.texel(1, 1), Color::new(10, 20, 30));
    assert_eq!(texture.texel(0, 1), Color::new(0, 0, 255));
}

#[test]
fn decodes_grey_to_three_equal_channels() {
    let texture = Texture::decode(&GRAY_PNG).unwrap();
    assert_eq!((texture.width, texture.height), (3, 1));
    assert_eq!(texture.data, vec![0, 0, 0, 128, 128, 128, 255, 255, 255]);
}

#[test]
fn decoding_drops_the_alpha_channel() {
    let texture = Texture::decode(&RGBA_PNG).unwrap();
    assert_eq!((texture.width, texture.height), (1, 2));
    assert_eq!(texture.data, vec![1, 2, 3, 200, 100, 50]);
}

#[test]
fn decoding_gives_back_what_was_encoded() {
    let data: Vec<u8> = (0..5 * 4 * 3).map(|i| (i * 7 % 256) as u8).collect();
    let texture = Texture::decode(&encode(5, 4, &data)).unwrap();
    assert_eq!((texture.width, texture.height), (5, 4));
    assert_eq!(texture.data, data);
    let grass = Texture::create_grass_texture();
    let again = Texture::decode(&encode(32, 32, &grass.data)).unwrap();
    assert_eq!(again.data, grass.data);
}

#[test]
fn what_is_no_png_is_undecodable() {
    assert_eq!(Texture::decode(&[]).err(), Some(TextureError::Undecodable));
    assert_eq!(Texture::decode(&[1, 2, 3, 4]).err(), Some(TextureError::Undecodable));
    assert_eq!(Texture::decode(b"GIF89a").err(), Some(TextureError::Undecodable));
    assert_eq!(Texture::decode(&RGB_PNG[..40]).err(), Some(TextureError::Undecodable));
    let mut damaged = RGB_PNG;
    damaged[50] ^= 0xFF;
    assert_eq!(Texture::decode(&damaged).err(), Some(TextureError::Undecodable));
}

#[test]
fn raw_data_must_hold_every_pixel() {
    let texture = Texture::from_rgb(2, 1, vec![1, 2, 3, 4, 5, 6]).unwrap();
    assert_eq!((texture.width, texture.height), (2, 1));
    assert_eq!(texture.data, vec![1, 2, 3, 4, 5, 6]);
    assert_eq!(Texture::from_rgb(2, 1, vec![1, 2, 3, 4, 5]).err(), Some(TextureError::Incomplete));
    assert_eq!(Texture::from_rgb(2, 1, vec![0; 7]).err(), Some(TextureError::Incomplete));
    assert_eq!(Texture::from_rgb(1, 1, vec![]).err(), Some(TextureError::Incomplete));
    assert!(Texture::from_rgb(0, 0, vec![]).is_ok());
    assert!(Texture::from_rgb(0, 9, vec![]).is_ok());
    assert_eq!(Texture::from_rgb(0, 0, vec![1]).err(), Some(TextureError::Incomplete));
    assert_eq!(
        Texture::from_rgb(u32::MAX, u32::MAX, vec![1, 2, 3]).err(),
        Some(TextureError::Incomplete)
    );
}

#[test]
fn a_sky_is_decoded_face_by_face() {
    let faces: Vec<Vec<u8>> = (1..=6u8).map(|n| encode(1, 1, &[n, n, n])).collect();
    let sky = Skybox::decode(&faces[0], &faces[1], &faces[2], &faces[3], &faces[4], &faces[5]).unwrap();
    assert_eq!(sky.px.data, vec![1, 1, 1]);
    assert_eq!(sky.nx.data, vec![2, 2, 2]);
    assert_eq!(sky.py.data, vec![3, 3, 3]);
    assert_eq!(sky.ny.data, vec![4, 4, 4]);
    assert_eq!(sky.pz.data, vec![5, 5, 5]);
    assert_eq!(sky.nz.data, vec![6, 6, 6]);
}

#[test]
fn a_sky_with_a_bad_face_is_an_error() {
    let good = encode(1, 1, &[9, 9, 9]);
    let bad = vec![0u8; 10];
    for broken in 0..6 {
        let face = |i: usize| if i == broken { &bad[..] } else { &good[..] };
        let result = Skybox::decode(face(0), face(1), face(2), face(3), face(4), face(5));
        assert_eq!(result.err(), Some(TextureError::Undecodable));
    }
    assert!(Skybox::decode(&good, &good, &good, &good, &good, &good).is_ok());
}
