use image::{DynamicImage, GrayImage, ImageOutputFormat, RgbImage, RgbaImage};
use space_view::skybox::{
    decode_face, face_fits, AddressMode, CubeFaces, CubePixels, FacePixels, FilterMode,
    SamplerDescriptor, Skybox,
};
use space_view::surface::RenderError;
use std::io::Cursor;

fn png(image: DynamicImage) -> Vec<u8> {
    let mut bytes: Vec<u8> = Vec::new();
    image.write_to(&mut Cursor::new(&mut bytes), ImageOutputFormat::Png).unwrap();
    bytes
}

fn plain(width: u32, height: u32, colour: [u8; 4]) -> Vec<u8> {
    let mut raw: Vec<u8> = Vec::new();
    for _ in 0..width * height {
        raw.extend_from_slice(&colour);
    }
    raw
}

fn plain_png(width: u32, height: u32, colour: [u8; 4]) -> Vec<u8> {
    png(DynamicImage::ImageRgba8(
        RgbaImage::from_raw(width, height, plain(width, height, colour)).unwrap(),
    ))
}

fn face(width: u32, height: u32, colour: [u8; 4]) -> FacePixels {
    FacePixels { width, height, rgba: plain(width, height, colour) }
}

const COLOURS: [[u8; 4]; 6] = [
    [255, 0, 0, 255],
    [0, 255, 0, 255],
    [0, 0, 255, 255],
    [255, 255, 0, 128],
    [0, 255, 255, 64],
    [255, 0, 255, 0],
];

#[test]
fn decoding_yields_size_and_pixels() {
    let raw: Vec<u8> = vec![1, 2, 3, 4, 5, 6, 7, 8, 9, 10, 11, 12, 13, 14, 15, 16, 17, 18, 19, 20, 21, 22, 23, 24];
    let encoded = png(DynamicImage::ImageRgba8(RgbaImage::from_raw(3, 2, raw.clone()).unwrap()));
    let decoded = decode_face(&encoded).unwrap();
    assert_eq!(decoded.width, 3);
    assert_eq!(decoded.height, 2);
    assert_eq!(decoded.rgba, raw);
    assert_ne!(decoded.rgba, encoded);
}

#[test]
fn decoding_converts_to_rgba() {
    let rgb = png(DynamicImage::ImageRgb8(RgbImage::from_raw(1, 2, vec![10, 20, 30, 40, 50, 60]).unwrap()));
    let decoded = decode_face(&rgb).unwrap();
    assert_eq!((decoded.width, decoded.height), (1, 2));
    assert_eq!(decoded.rgba, vec![10, 20, 30, 255, 40, 50, 60, 255]);

    let grey = png(DynamicImage::ImageLuma8(GrayImage::from_raw(2, 1, vec![7, 200]).unwrap()));
    let decoded = decode_face(&grey).unwrap();
    assert_eq!((decoded.width, decoded.height), (2, 1));
    assert_eq!(decoded.rgba, vec![7, 7, 7, 255, 200, 200, 200, 255]);
}

#[test]
fn decoding_rejects_what_is_no_image() {
    assert_eq!(decode_face(b"not an image").err(), Some(RenderError::ResourceConstruction));
    assert_eq!(decode_face(&[]).err(), Some(RenderError::ResourceConstruction));
}

#[test]
fn decoding_rejects_a_truncated_image() {
    let encoded = plain_png(4, 4, [1, 2, 3, 4]);
    let cut = &encoded[..encoded.len() / 2];
    assert_eq!(decode_face(cut).err(), Some(RenderError::ResourceConstruction));
}

#[test]
fn sky_packs_the_faces_in_cube_map_order() {
    let encoded: Vec<Vec<u8>> = COLOURS.iter().map(|colour| plain_png(2, 2, *colour)).collect();
    let faces = CubeFaces {
        pos_x: &encoded[0],
        neg_x: &encoded[1],
        pos_y: &encoded[2],
        neg_y: &encoded[3],
        pos_z: &encoded[4],
        neg_z: &encoded[5],
    };
    let sky = Skybox::new(&faces).unwrap();
    assert_eq!(sky.width, 2);
    assert_eq!(sky.height, 2);
    assert_eq!(sky.data.len(), 6 * 2 * 2 * 4);
    for (layer, colour) in COLOURS.iter().enumerate() {
        assert_eq!(&sky.data[layer * 16..(layer + 1) * 16], &plain(2, 2, *colour)[..]);
    }
    assert_eq!(sky.sampler, SamplerDescriptor::sky());
}

#[test]
fn sky_fails_on_an_unreadable_face() {
    let good = plain_png(2, 2, [9, 9, 9, 9]);
    let bad: Vec<u8> = vec![0x89, b'P', b'N', b'G', 1, 2, 3];
    for broken in 0..6 {
        let pick = |index: usize| if index == broken { &bad[..] } else { &good[..] };
        let faces = CubeFaces {
            pos_x: pick(0),
            neg_x: pick(1),
            pos_y: pick(2),
            neg_y: pick(3),
            pos_z: pick(4),
            neg_z: pick(5),
        };
        assert_eq!(Skybox::new(&faces).err(), Some(RenderError::ResourceConstruction));
    }
}

#[test]
fn sky_fails_on_faces_of_different_sizes() {
    let good = plain_png(2, 2, [9, 9, 9, 9]);
    let wide = plain_png(4, 1, [9, 9, 9, 9]);
    for odd in 1..6 {
        let pick = |index: usize| if index == odd { &wide[..] } else { &good[..] };
        let faces = CubeFaces {
            pos_x: pick(0),
            neg_x: pick(1),
            pos_y: pick(2),
            neg_y: pick(3),
            pos_z: pick(4),
            neg_z: pick(5),
        };
        assert_eq!(Skybox::new(&faces).err(), Some(RenderError::ResourceConstruction));
    }
}

#[test]
fn pixels_are_packed_as_they_come() {
    let faces = CubePixels {
        pos_x: face(1, 1, COLOURS[0]),
        neg_x: face(1, 1, COLOURS[1]),
        pos_y: face(1, 1, COLOURS[2]),
        neg_y: face(1, 1, COLOURS[3]),
        pos_z: face(1, 1, COLOURS[4]),
        neg_z: face(1, 1, COLOURS[5]),
    };
    let sky = Skybox::from_pixels(faces).unwrap();
    assert_eq!((sky.width, sky.height), (1, 1));
    assert_eq!(
        sky.data,
        vec![
            255, 0, 0, 255, 0, 255, 0, 255, 0, 0, 255, 255, 255, 255, 0, 128, 0, 255, 255, 64, 255,
            0, 255, 0
        ]
    );
}

#[test]
fn pixels_of_a_wrong_length_are_rejected() {
    let mut short = face(2, 2, COLOURS[3]);
    short.rgba.pop();
    let faces = CubePixels {
        pos_x: face(2, 2, COLOURS[0]),
        neg_x: face(2, 2, COLOURS[1]),
        pos_y: face(2, 2, COLOURS[2]),
        neg_y: short,
        pos_z: face(2, 2, COLOURS[4]),
        neg_z: face(2, 2, COLOURS[5]),
    };
    assert_eq!(Skybox::from_pixels(faces).err(), Some(RenderError::ResourceConstruction));
}

#[test]
fn first_face_must_fill_its_own_size() {
    let mut first = face(2, 2, COLOURS[0]);
    first.rgba.extend_from_slice(&[0, 0, 0, 0]);
    let faces = CubePixels {
        pos_x: first,
        neg_x: face(2, 2, COLOURS[1]),
        pos_y: face(2, 2, COLOURS[2]),
        neg_y: face(2, 2, COLOURS[3]),
        pos_z: face(2, 2, COLOURS[4]),
        neg_z: face(2, 2, COLOURS[5]),
    };
    assert_eq!(Skybox::from_pixels(faces).err(), Some(RenderError::ResourceConstruction));
}

#[test]
fn faces_of_the_same_area_but_another_shape_are_rejected() {
    let faces = CubePixels {
        pos_x: face(2, 3, COLOURS[0]),
        neg_x: face(3, 2, COLOURS[1]),
        pos_y: face(2, 3, COLOURS[2]),
        neg_y: face(2, 3, COLOURS[3]),
        pos_z: face(2, 3, COLOURS[4]),
        neg_z: face(2, 3, COLOURS[5]),
    };
    assert_eq!(Skybox::from_pixels(faces).err(), Some(RenderError::ResourceConstruction));
}

#[test]
fn face_fits_its_size() {
    assert!(face_fits(&face(3, 5, COLOURS[0]), 3, 5));
    assert!(!face_fits(&face(3, 5, COLOURS[0]), 5, 3));
    assert!(!face_fits(&FacePixels { width: 1, height: 1, rgba: vec![1, 2, 3] }, 1, 1));
    assert!(!face_fits(&FacePixels { width: 1, height: 1, rgba: vec![1, 2, 3, 4, 5] }, 1, 1));
    assert!(face_fits(&FacePixels { width: 0, height: 9, rgba: vec![] }, 0, 9));
}

#[test]
fn sky_sampler_clamps_and_filters_linearly() {
    let sampler = SamplerDescriptor::sky();
    assert_eq!(sampler.address_mode_u, AddressMode::ClampToEdge);
    assert_eq!(sampler.address_mode_v, AddressMode::ClampToEdge);
    assert_eq!(sampler.address_mode_w, AddressMode::ClampToEdge);
    assert_eq!(sampler.mag_filter, FilterMode::Linear);
    assert_eq!(sampler.min_filter, FilterMode::Linear);
    assert_eq!(sampler.mipmap_filter, FilterMode::Linear);
}
