//! GL textures and the RGBA images uploaded into them, with the fallback to
//! the engine's "missing texture" image when a texture has no image of its own.

use vstd::prelude::*;

verus! {

/// A decoded RGBA8 image: width, height and the raw pixel bytes.
pub struct RgbaImage {
    width: u32,
    height: u32,
    pixels: Vec<u8>,
}

impl View for RgbaImage {
    type V = (u32, u32, Seq<u8>);

    closed spec fn view(&self) -> (u32, u32, Seq<u8>) {
        (self.width, self.height, self.pixels@)
    }
}

impl RgbaImage {
    pub fn new(width: u32, height: u32, pixels: Vec<u8>) -> (r: Self)
        ensures
            r@ == (width, height, pixels@),
    {
        RgbaImage { width, height, pixels }
    }

    pub fn width(&self) -> (r: u32)
        ensures
            r == self@.0,
    {
        self.width
    }

    pub fn height(&self) -> (r: u32)
        ensures
            r == self@.1,
    {
        self.height
    }

    pub fn pixels(&self) -> (r: &[u8])
        ensures
            r@ == self@.2,
    {
        self.pixels.as_slice()
    }
    /// A copy of this image, pixel for pixel.
    pub fn duplicate(&self) -> (r: Self)
        ensures
            r@ == self@,
    {
        let pixels = self.pixels.clone();
        assert(pixels@ =~= self.pixels@);
        RgbaImage { width: self.width, height: self.height, pixels }
    }
}

/// An RGBA8 image whose byte count matches its size: four bytes a pixel.
pub open spec fn rgba8_sized(image: (u32, u32, Seq<u8>)) -> bool {
    image.2.len() == 4 * image.0 * image.1
}

pub open spec fn image_view(image: Option<RgbaImage>) -> Option<(u32, u32, Seq<u8>)> {
    match image {
        Some(i) => Some(i@),
        None => None,
    }
}

/// Decodes an image with `image::load_from_memory` (format guessed from the
/// bytes) and takes the decoded image as plain RGBA8 values
/// (`DynamicImage::to_rgba8`, then its width, height and raw bytes). What the
/// decode gives also depends on the format-detection and decoding hooks that
/// any code in the process may register with the `image` crate, so the
/// contract names no result: it claims only that a decoded image holds four
/// bytes for each of its pixels, as `to_rgba8` builds a buffer of exactly
/// that size. Which bytes decode, and to what, is left unsaid.
#[verifier::external_body]
fn decode_rgba8(bytes: &[u8]) -> (r: Option<RgbaImage>)
    ensures
        r matches Some(i) ==> rgba8_sized(i@),
{
    match image::load_from_memory(bytes) {
        Ok(decoded) => {
            let rgba = decoded.to_rgba8();
            Some(RgbaImage { width: rgba.width(), height: rgba.height(), pixels: rgba.into_raw() })
        },
        Err(_) => None,
    }
}

/// Decodes an image (such as the engine's missing-texture asset) to RGBA8;
/// `None` where it does not decode.
pub fn load_rgba8(bytes: &[u8]) -> (r: Option<RgbaImage>)
    ensures
        r matches Some(i) ==> rgba8_sized(i@),
{
    decode_rgba8(bytes)
}

/// The image a texture is built from: its own when it has one, otherwise the
/// decoded missing-texture asset (`None` if that does not decode).
pub fn image_or_missing(image: Option<RgbaImage>, missing_asset: &[u8]) -> (r: Option<RgbaImage>)
    ensures
        image matches Some(i) ==> image_view(r) == Some(i@),
        image is None ==> (r matches Some(m) ==> rgba8_sized(m@)),
{
    match image {
        Some(i) => Some(i),
        None => decode_rgba8(missing_asset),
    }
}

/// The image of each texture, in order: its own, or `missing` where it has none.
pub open spec fn filled_images(images: Seq<Option<RgbaImage>>, missing: (u32, u32, Seq<u8>)) -> Seq<(u32, u32, Seq<u8>)> {
    images.map_values(
        |o: Option<RgbaImage>|
            match o {
                Some(i) => i@,
                None => missing,
            },
    )
}

pub open spec fn views(v: Seq<RgbaImage>) -> Seq<(u32, u32, Seq<u8>)> {
    v.map_values(|i: RgbaImage| i@)
}

/// The images a material's textures are built from, given the decoded
/// missing-texture image: one per texture of the material definition and in
/// its order, each texture's own image or `missing` where it has none.
pub fn fill_missing_images(images: Vec<Option<RgbaImage>>, missing: &RgbaImage) -> (r: Vec<RgbaImage>)
    ensures
        views(r@) == filled_images(images@, missing@),
{
    let ghost input = images@;
    let mut rest = images;
    let mut taken: Vec<Option<RgbaImage>> = Vec::new();
    // Take the images out in reverse, then map them back in order.
    while rest.len() > 0
        invariant
            rest@.len() + taken@.len() == input.len(),
            forall|i: int| 0 <= i < rest@.len() ==> rest@[i] == input[i],
            forall|j: int| 0 <= j < taken@.len() ==> taken@[j] == input[input.len() - 1 - j],
        decreases rest@.len(),
    {
        let img = rest.pop().unwrap();
        taken.push(img);
    }
    let mut r: Vec<RgbaImage> = Vec::new();
    while taken.len() > 0
        invariant
            r@.len() + taken@.len() == input.len(),
            forall|j: int| 0 <= j < taken@.len() ==> taken@[j] == input[input.len() - 1 - j],
            forall|i: int| 0 <= i < r@.len() ==> (#[trigger] r@[i])@ == filled_images(input, missing@)[i],
        decreases taken@.len(),
    {
        let ghost k = r@.len() as int;
        let img = taken.pop().unwrap();
        assert(img == input[k]);
        match img {
            Some(i) => r.push(i),
            None => r.push(missing.duplicate()),
        }
    }
    assert(views(r@) =~= filled_images(input, missing@));
    r
}

proof fn lemma_filled(r: Seq<RgbaImage>, input: Seq<Option<RgbaImage>>, m: (u32, u32, Seq<u8>))
    requires
        views(r) == filled_images(input, m),
    ensures
        r.len() == input.len(),
        forall|i: int|
            0 <= i < r.len() ==> (input[i] matches Some(x) ==> (#[trigger] r[i])@ == x@) && (input[i] is None
                ==> r[i]@ == m),
{
    assert(views(r).len() == r.len());
    assert forall|i: int| 0 <= i < r.len() implies (input[i] matches Some(x) ==> (#[trigger] r[i])@ == x@) && (
    input[i] is None ==> r[i]@ == m) by {
        assert(views(r)[i] == r[i]@);
    }
}

/// Whether some texture has no image of its own.
pub open spec fn some_missing(images: Seq<Option<RgbaImage>>) -> bool {
    exists|i: int| 0 <= i < images.len() && (#[trigger] images[i]) is None
}

fn any_missing(images: &Vec<Option<RgbaImage>>) -> (r: bool)
    ensures
        r == some_missing(images@),
{
    let mut i: usize = 0;
    while i < images.len()
        invariant
            i <= images@.len(),
            forall|j: int| 0 <= j < i ==> (#[trigger] images@[j]) is Some,
        decreases images@.len() - i,
    {
        if images[i].is_none() {
            return true;
        }
        i = i + 1;
    }
    false
}

/// The images a material's textures are built from: each texture's own image
/// in order, with the missing-texture asset, decoded once, in the place of
/// every image that is absent. `None` only where an image is absent and the
/// asset does not decode.
pub fn material_images(images: Vec<Option<RgbaImage>>, missing_asset: &[u8]) -> (r: Option<Vec<RgbaImage>>)
    ensures
        r is None ==> some_missing(images@),
        !some_missing(images@) ==> r is Some,
        r matches Some(v) ==> {
            &&& v@.len() == images@.len()
            &&& forall|i: int|
                0 <= i < v@.len() ==> (images@[i] matches Some(x) ==> (#[trigger] v@[i])@ == x@) && (
                images@[i] is None ==> rgba8_sized(v@[i]@))
            &&& forall|i: int, j: int|
                0 <= i < v@.len() && 0 <= j < v@.len() && images@[i] is None && images@[j] is None ==> (
                #[trigger] v@[i])@ == (#[trigger] v@[j])@
        },
{
    if any_missing(&images) {
        match decode_rgba8(missing_asset) {
            Some(missing) => {
                let ghost input = images@;
                let r = fill_missing_images(images, &missing);
                proof {
                    lemma_filled(r@, input, missing@);
                }
                Some(r)
            },
            None => None,
        }
    } else {
        let placeholder = RgbaImage { width: 0, height: 0, pixels: Vec::new() };
        let ghost input = images@;
        let r = fill_missing_images(images, &placeholder);
        proof {
            lemma_filled(r@, input, placeholder@);
        }
        Some(r)
    }
}

/// A GL texture: its name and its size in pixels.
pub struct SwitchGLTexture {
    texture_id: u32,
    width: u32,
    height: u32,
}

impl View for SwitchGLTexture {
    type V = (u32, u32, u32);

    closed spec fn view(&self) -> (u32, u32, u32) {
        (self.texture_id, self.width, self.height)
    }
}

impl SwitchGLTexture {
    /// A texture whose pixels were uploaded to the GL texture `texture_id`.
    pub fn new(texture_id: u32, width: u32, height: u32) -> (r: Self)
        ensures
            r@ == (texture_id, width, height),
    {
        SwitchGLTexture { texture_id, width, height }
    }

    pub fn texture_id(&self) -> (r: u32)
        ensures
            r == self@.0,
    {
        self.texture_id
    }

    pub fn width(&self) -> (r: u32)
        ensures
            r == self@.1,
    {
        self.width
    }

    pub fn height(&self) -> (r: u32)
        ensures
            r == self@.2,
    {
        self.height
    }

    /// The imgui texture id of this texture: by the backend's convention the
    /// GL texture name itself.
    pub fn imgui_texture_id(&self) -> (r: usize)
        ensures
            r == self@.0 as usize,
    {
        self.texture_id as usize
    }
}

} // verus!
