//! The font atlas and the bytes of its upload.
//!
//! epaint keeps the atlas as one byte of coverage per pixel, with a version
//! counter that changes whenever the pixels change. The graphics device wants
//! four channels per pixel, so an upload repeats every byte four times.

use vstd::prelude::*;
use epaint::Texture;

verus! {

/// epaint's font atlas.
#[verifier::external_type_specification]
#[verifier::external_body]
pub struct ExTexture(epaint::Texture);

/// What a font atlas holds.
pub struct AtlasView {
    pub version: u64,
    pub width: usize,
    pub height: usize,
    pub pixels: Seq<u8>,
}

/// The contents of a font atlas: its public fields `version`, `width`,
/// `height` and `pixels`, under the same names.
pub uninterp spec fn atlas_view(texture: Texture) -> AtlasView;

/// Copies the atlas's field `version`.
#[verifier::external_body]
pub(crate) fn version_of(texture: &Texture) -> (version: u64)
    ensures
        version == atlas_view(*texture).version,
{
    texture.version
}

/// `Texture::size`: the atlas's width, then its height.
#[verifier::external_body]
pub(crate) fn size_of(texture: &Texture) -> (size: [usize; 2])
    ensures
        size[0] == atlas_view(*texture).width,
        size[1] == atlas_view(*texture).height,
{
    texture.size()
}

/// Borrows the atlas's field `pixels`.
#[verifier::external_body]
pub(crate) fn pixels_of(texture: &Texture) -> (pixels: &Vec<u8>)
    ensures
        pixels@ == atlas_view(*texture).pixels,
{
    &texture.pixels
}

/// An image to create on the graphics device: two-dimensional, one layer,
/// no mipmaps, four 8-bit channels per pixel, row by row.
#[derive(Clone, Debug, PartialEq, Eq)]
pub struct TextureUpload {
    /// The atlas version that the image shows.
    pub version: u64,
    pub width: u32,
    pub height: u32,
    /// Four bytes for every pixel of the atlas.
    pub data: Vec<u8>,
}

/// A texture upload over sequences.
pub struct UploadView {
    pub version: u64,
    pub width: u32,
    pub height: u32,
    pub data: Seq<u8>,
}

impl View for TextureUpload {
    type V = UploadView;

    open spec fn view(&self) -> UploadView {
        UploadView {
            version: self.version,
            width: self.width,
            height: self.height,
            data: self.data@,
        }
    }
}

/// Every byte of `pixels` four times over: byte `i` of the result is pixel
/// `i / 4`.
pub open spec fn expanded(pixels: Seq<u8>) -> Seq<u8> {
    Seq::new(4 * pixels.len(), |i: int| pixels[i / 4])
}

/// The upload that shows an atlas. Width and height are cut to 32 bits, as
/// the image's dimensions are.
pub open spec fn upload_of(atlas: AtlasView) -> UploadView {
    UploadView {
        version: atlas.version,
        width: atlas.width as u32,
        height: atlas.height as u32,
        data: expanded(atlas.pixels),
    }
}

/// Replicates each single-channel pixel into four identical channels.
pub fn expand_pixels(pixels: &Vec<u8>) -> (data: Vec<u8>)
    ensures
        data@ == expanded(pixels@),
{
    let mut data: Vec<u8> = Vec::new();
    let mut i: usize = 0;
    while i < pixels.len()
        invariant
            i <= pixels.len(),
            data@ == expanded(pixels@.take(i as int)),
        decreases pixels.len() - i,
    {
        let p = pixels[i];
        data.push(p);
        data.push(p);
        data.push(p);
        data.push(p);
        proof {
            assert(data@ == expanded(pixels@.take(i + 1)));
        }
        i += 1;
    }
    proof {
        assert(pixels@.take(pixels.len() as int) == pixels@);
    }
    data
}

/// Prepares the upload of a font atlas.
pub fn upload_for(texture: &Texture) -> (upload: TextureUpload)
    ensures
        upload@ == upload_of(atlas_view(*texture)),
{
    let size = size_of(texture);
    TextureUpload {
        version: version_of(texture),
        width: #[verifier::truncate] (size[0] as u32),
        height: #[verifier::truncate] (size[1] as u32),
        data: expand_pixels(pixels_of(texture)),
    }
}

} // verus!
