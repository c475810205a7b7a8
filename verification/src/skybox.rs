//! The sky: a cube map of six faces behind everything else.
//!
//! The six faces come as encoded images. They are decoded to RGBA pixels
//! and packed into the layers of one texture, in the order that cube maps
//! use: +X, -X, +Y, -Y, +Z, -Z.

use crate::surface::RenderError;
use vstd::prelude::*;

verus! {

/// The error of the `image` crate.
#[verifier::external_type_specification]
#[verifier::external_body]
pub struct ExImageError(image::ImageError);

/// What a texture coordinate outside the texture reads.
#[derive(Debug, Clone, Copy, PartialEq, Eq, Structural)]
pub enum AddressMode {
    ClampToEdge,
    Repeat,
    MirrorRepeat,
    ClampToBorder,
}

/// How texels are combined into a sample.
#[derive(Debug, Clone, Copy, PartialEq, Eq, Structural)]
pub enum FilterMode {
    Nearest,
    Linear,
}

/// The state of a sampler.
#[derive(Debug, Clone, Copy, PartialEq, Eq, Structural)]
pub struct SamplerDescriptor {
    pub address_mode_u: AddressMode,
    pub address_mode_v: AddressMode,
    pub address_mode_w: AddressMode,
    pub mag_filter: FilterMode,
    pub min_filter: FilterMode,
    pub mipmap_filter: FilterMode,
}

impl SamplerDescriptor {
    /// The sampler of the sky clamps to the edge in every direction and
    /// filters linearly, between texels and between mip levels.
    pub open spec fn spec_sky() -> SamplerDescriptor {
        SamplerDescriptor {
            address_mode_u: AddressMode::ClampToEdge,
            address_mode_v: AddressMode::ClampToEdge,
            address_mode_w: AddressMode::ClampToEdge,
            mag_filter: FilterMode::Linear,
            min_filter: FilterMode::Linear,
            mipmap_filter: FilterMode::Linear,
        }
    }

    /// The sampler of the sky.
    pub fn sky() -> (sampler: SamplerDescriptor)
        ensures
            sampler == Self::spec_sky(),
    {
        SamplerDescriptor {
            address_mode_u: AddressMode::ClampToEdge,
            address_mode_v: AddressMode::ClampToEdge,
            address_mode_w: AddressMode::ClampToEdge,
            mag_filter: FilterMode::Linear,
            min_filter: FilterMode::Linear,
            mipmap_filter: FilterMode::Linear,
        }
    }
}

/// A decoded image as a value: its size in pixels and its pixels, four
/// bytes each, row after row.
pub struct Pixels {
    pub width: u32,
    pub height: u32,
    pub rgba: Seq<u8>,
}

/// A decoded face.
#[derive(Debug)]
pub struct FacePixels {
    pub width: u32,
    pub height: u32,
    pub rgba: Vec<u8>,
}

impl View for FacePixels {
    type V = Pixels;

    open spec fn view(&self) -> Pixels {
        Pixels { width: self.width, height: self.height, rgba: self.rgba@ }
    }
}

/// The six faces of the cube as encoded images.
#[derive(Debug, Clone, Copy)]
pub struct CubeFaces<'a> {
    pub pos_x: &'a [u8],
    pub neg_x: &'a [u8],
    pub pos_y: &'a [u8],
    pub neg_y: &'a [u8],
    pub pos_z: &'a [u8],
    pub neg_z: &'a [u8],
}

/// The six faces of the cube as pixels.
#[derive(Debug)]
pub struct CubePixels {
    pub pos_x: FacePixels,
    pub neg_x: FacePixels,
    pub pos_y: FacePixels,
    pub neg_y: FacePixels,
    pub pos_z: FacePixels,
    pub neg_z: FacePixels,
}

impl View for CubePixels {
    type V = Seq<Pixels>;

    /// The faces in the order of the texture's layers.
    open spec fn view(&self) -> Seq<Pixels> {
        seq![
            self.pos_x@,
            self.neg_x@,
            self.pos_y@,
            self.neg_y@,
            self.pos_z@,
            self.neg_z@,
        ]
    }
}

/// The number of faces of a cube.
pub const FACES: usize = 6;

/// The image that `image::load_from_memory` decodes from `encoded` and
/// `into_rgba8` converts to RGBA, or `None` where the bytes are no image
/// that the crate reads.
pub uninterp spec fn decoded_rgba8(encoded: Seq<u8>) -> Option<Pixels>;

/// Decodes an image with `image::load_from_memory`, which guesses the
/// format from the bytes, and converts it to RGBA with `into_rgba8`. The
/// result is the image's width, height and raw buffer, as a function of the
/// bytes alone.
#[verifier::external_body]
fn decode_rgba8(encoded: &[u8]) -> (decoded: Result<FacePixels, image::ImageError>)
    ensures
        match decoded {
            Ok(face) => decoded_rgba8(encoded@) == Some(face@),
            Err(_) => decoded_rgba8(encoded@).is_none(),
        },
{
    let image = image::load_from_memory(encoded)?.into_rgba8();
    Ok(FacePixels { width: image.width(), height: image.height(), rgba: image.into_raw() })
}

/// The face has the given size and four bytes for each of its pixels.
pub open spec fn fits(face: Pixels, width: u32, height: u32) -> bool {
    &&& face.width == width
    &&& face.height == height
    &&& face.rgba.len() == 4 * width * height
}

/// All faces have the size of the first, and the pixels to fill it.
pub open spec fn same_size(faces: Seq<Pixels>) -> bool {
    forall|i: int| 0 <= i < faces.len() ==> fits(#[trigger] faces[i], faces[0].width, faces[0].height)
}

/// The faces' pixels, one face after the other.
pub open spec fn packed(faces: Seq<Pixels>) -> Seq<u8>
    decreases faces.len(),
{
    if faces.len() == 0 {
        Seq::empty()
    } else {
        packed(faces.drop_last()) + faces.last().rgba
    }
}

/// What the encoded faces decode to, in the order of the texture's layers.
pub open spec fn decoded_faces(faces: CubeFaces) -> Seq<Option<Pixels>> {
    seq![
        decoded_rgba8(faces.pos_x@),
        decoded_rgba8(faces.neg_x@),
        decoded_rgba8(faces.pos_y@),
        decoded_rgba8(faces.neg_y@),
        decoded_rgba8(faces.pos_z@),
        decoded_rgba8(faces.neg_z@),
    ]
}

/// The data of the sky's texture and the state of its sampler.
#[derive(Debug)]
pub struct Skybox {
    /// The width of each face in pixels.
    pub width: u32,
    /// The height of each face in pixels.
    pub height: u32,
    /// The pixels of the six layers.
    pub data: Vec<u8>,
    pub sampler: SamplerDescriptor,
}

impl Skybox {
    /// The sky is made of the given faces.
    pub open spec fn is_made_of(self, faces: Seq<Pixels>) -> bool {
        &&& self.width == faces[0].width
        &&& self.height == faces[0].height
        &&& self.data@ == packed(faces)
        &&& self.sampler == SamplerDescriptor::spec_sky()
    }

    /// Decodes the six faces and packs them. The sky is built if and only
    /// if every face is an image that can be read and all six have the same
    /// size; otherwise nothing is built.
    pub fn new(faces: &CubeFaces) -> (sky: Result<Skybox, RenderError>)
        ensures
            sky.is_ok() <==> {
                &&& forall|i: int| 0 <= i < FACES ==> (#[trigger] decoded_faces(*faces)[i]).is_some()
                &&& same_size(decoded_faces(*faces).map_values(|face: Option<Pixels>| face.unwrap()))
            },
            sky matches Ok(s) ==> s.is_made_of(
                decoded_faces(*faces).map_values(|face: Option<Pixels>| face.unwrap()),
            ),
            sky matches Err(error) ==> error == RenderError::ResourceConstruction,
    {
        let pos_x = decode_face(faces.pos_x)?;
        let neg_x = decode_face(faces.neg_x)?;
        let pos_y = decode_face(faces.pos_y)?;
        let neg_y = decode_face(faces.neg_y)?;
        let pos_z = decode_face(faces.pos_z)?;
        let neg_z = decode_face(faces.neg_z)?;
        let pixels = CubePixels { pos_x, neg_x, pos_y, neg_y, pos_z, neg_z };
        assert(pixels@ =~= decoded_faces(*faces).map_values(|face: Option<Pixels>| face.unwrap()));
        Skybox::from_pixels(pixels)
    }

    /// Packs six decoded faces. The sky is built if and only if all faces
    /// have the size of the first and four bytes for each pixel.
    pub fn from_pixels(faces: CubePixels) -> (sky: Result<Skybox, RenderError>)
        ensures
            sky.is_ok() <==> same_size(faces@),
            sky matches Ok(s) ==> s.is_made_of(faces@),
            sky matches Err(error) ==> error == RenderError::ResourceConstruction,
    {
        let width: u32 = faces.pos_x.width;
        let height: u32 = faces.pos_x.height;
        let ok = face_fits(&faces.pos_x, width, height) && face_fits(&faces.neg_x, width, height)
            && face_fits(&faces.pos_y, width, height) && face_fits(&faces.neg_y, width, height)
            && face_fits(&faces.pos_z, width, height) && face_fits(&faces.neg_z, width, height);
        if !ok {
            assert(!same_size(faces@)) by {
                if same_size(faces@) {
                    assert(fits(faces@[0], width, height));
                    assert(fits(faces@[1], width, height));
                    assert(fits(faces@[2], width, height));
                    assert(fits(faces@[3], width, height));
                    assert(fits(faces@[4], width, height));
                    assert(fits(faces@[5], width, height));
                }
            }
            return Err(RenderError::ResourceConstruction);
        }
        let ghost all = faces@;
        let mut faces = faces;
        let mut data: Vec<u8> = Vec::new();
        data.append(&mut faces.pos_x.rgba);
        data.append(&mut faces.neg_x.rgba);
        data.append(&mut faces.pos_y.rgba);
        data.append(&mut faces.neg_y.rgba);
        data.append(&mut faces.pos_z.rgba);
        data.append(&mut faces.neg_z.rgba);
        proof {
            lemma_packed_six(all);
        }
        Ok(Skybox { width, height, data, sampler: SamplerDescriptor::sky() })
    }
}

/// Decodes one face. A face that cannot be read is a resource that cannot
/// be built.
pub fn decode_face(encoded: &[u8]) -> (face: Result<FacePixels, RenderError>)
    ensures
        match face {
            Ok(pixels) => decoded_rgba8(encoded@) == Some(pixels@),
            Err(error) => error == RenderError::ResourceConstruction && decoded_rgba8(
                encoded@,
            ).is_none(),
        },
{
    match decode_rgba8(encoded) {
        Ok(pixels) => Ok(pixels),
        Err(_) => Err(RenderError::ResourceConstruction),
    }
}

/// Tests whether a face has the given size and the pixels to fill it.
pub fn face_fits(face: &FacePixels, width: u32, height: u32) -> (ok: bool)
    ensures
        ok == fits(face@, width, height),
{
    if face.width != width || face.height != height {
        return false;
    }
    let len: usize = face.rgba.len();
    assert(4 * width * height == 4 * (width * height) && width * height <= u64::MAX)
        by (nonlinear_arith)
        requires
            width <= u32::MAX,
            height <= u32::MAX,
    ;
    if len % 4 != 0 {
        return false;
    }
    let area: u64 = width as u64 * height as u64;
    (len / 4) as u64 == area
}

/// Six faces packed are the six laid end to end.
pub proof fn lemma_packed_six(faces: Seq<Pixels>)
    requires
        faces.len() == FACES,
    ensures
        packed(faces) == faces[0].rgba + faces[1].rgba + faces[2].rgba + faces[3].rgba
            + faces[4].rgba + faces[5].rgba,
{
    reveal_with_fuel(packed, 7);
    let first5 = faces.drop_last();
    let first4 = first5.drop_last();
    let first3 = first4.drop_last();
    let first2 = first3.drop_last();
    let first1 = first2.drop_last();
    let first0 = first1.drop_last();
    assert(first0.len() == 0);
    assert(packed(first1) =~= faces[0].rgba);
}

} // verus!
