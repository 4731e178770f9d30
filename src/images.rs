//! Rendering of STCI images to RGBA pixels, their metadata, and their
//! encoding as PNG data URIs.
use vstd::prelude::*;

use crate::encoding::{base64_of, encode_base64, MAX_ENCODED_INPUT};
use crate::error::{Error, ErrorKind};
use crate::params::{check_no_parent_ref, has_parent_ref};

verus! {

/// One sub-image of an indexed STCI file: palette indices, row by row.
#[derive(Clone, Debug)]
pub struct StciSubImage {
    pub width: u16,
    pub height: u16,
    pub offset_x: i16,
    pub offset_y: i16,
    pub data: Vec<u8>,
}

impl StciSubImage {
    /// One palette index per pixel.
    pub open spec fn wf(&self) -> bool {
        self.data@.len() == self.width as int * self.height as int
    }
}

/// A decoded STCI file. RGB data holds one colour per pixel, row by row.
#[derive(Clone, Debug)]
pub enum Stci {
    Indexed { sub_images: Vec<StciSubImage>, palette: Vec<(u8, u8, u8)> },
    Rgb { width: u16, height: u16, data: Vec<(u8, u8, u8)> },
}

/// The number of palette entries of an indexed STCI file.
pub const PALETTE_SIZE: usize = 256;

impl Stci {
    /// Every sub-image holds one index per pixel and the palette covers every
    /// index; RGB data holds one colour per pixel.
    pub open spec fn wf(&self) -> bool {
        match *self {
            Stci::Indexed { sub_images, palette } => palette@.len() == PALETTE_SIZE
                && forall|k: int| 0 <= k < sub_images@.len() ==> #[trigger] sub_images@[k].wf(),
            Stci::Rgb { width, height, data } => data@.len() == width as int * height as int,
        }
    }

    #[verifier::loop_isolation(false)]
    pub fn is_well_formed(&self) -> (r: bool)
        ensures
            r == self.wf(),
    {
        match self {
            Stci::Indexed { sub_images, palette } => {
                if palette.len() != PALETTE_SIZE {
                    return false;
                }
                let mut k: usize = 0;
                while k < sub_images.len()
                    invariant
                        k <= sub_images@.len(),
                        forall|j: int| 0 <= j < k ==> #[trigger] sub_images@[j].wf(),
                    decreases sub_images@.len() - k,
                {
                    let s = &sub_images[k];
                    proof {
                        lemma_u16_product_fits(s.width, s.height);
                    }
                    if s.data.len() != (s.width as usize) * (s.height as usize) {
                        assert(!sub_images@[k as int].wf());
                        return false;
                    }
                    k = k + 1;
                }
                true
            },
            Stci::Rgb { width, height, data } => {
                proof {
                    lemma_u16_product_fits(*width, *height);
                }
                data.len() == (*width as usize) * (*height as usize)
            },
        }
    }
}

proof fn lemma_four_times(w: int, h: int)
    ensures
        4 * (w * h) == 4 * w * h,
{
    assert(4 * (w * h) == 4 * w * h) by (nonlinear_arith);
}

proof fn lemma_u16_product_fits(a: u16, b: u16)
    ensures
        a as int * b as int <= u32::MAX,
{
    assert(a as int * b as int <= 65535 * 65535) by (nonlinear_arith)
        requires a <= 65535, b <= 65535;
}

/// An image of `width` by `height` pixels, four bytes (red, green, blue,
/// alpha) per pixel, row by row.
#[derive(Clone, Debug)]
pub struct RgbaImage {
    pub width: u32,
    pub height: u32,
    pub pixels: Vec<u8>,
}

/// The RGBA bytes of one pixel given by a palette index: index 0 is fully
/// transparent black, every other index is its opaque palette colour.
pub open spec fn indexed_pixel(index: u8, palette: Seq<(u8, u8, u8)>) -> Seq<u8> {
    if index == 0 {
        seq![0u8, 0u8, 0u8, 0u8]
    } else {
        let c = palette[index as int];
        seq![c.0, c.1, c.2, 255u8]
    }
}

/// The RGBA bytes of one opaque colour.
pub open spec fn rgb_pixel(c: (u8, u8, u8)) -> Seq<u8> {
    seq![c.0, c.1, c.2, 255u8]
}

/// The RGBA bytes of a run of palette indices.
pub open spec fn indexed_rgba(data: Seq<u8>, palette: Seq<(u8, u8, u8)>) -> Seq<u8>
    decreases data.len(),
{
    if data.len() == 0 {
        Seq::empty()
    } else {
        indexed_rgba(data.drop_last(), palette) + indexed_pixel(data.last(), palette)
    }
}

/// The RGBA bytes of a run of colours.
pub open spec fn rgb_rgba(data: Seq<(u8, u8, u8)>) -> Seq<u8>
    decreases data.len(),
{
    if data.len() == 0 {
        Seq::empty()
    } else {
        rgb_rgba(data.drop_last()) + rgb_pixel(data.last())
    }
}

/// Which sub-image a render asks for: the first where none is named.
pub open spec fn chosen_subimage(subimage: Option<usize>) -> int {
    match subimage {
        Some(k) => k as int,
        None => 0,
    }
}

/// The image that rendering `subimage` of `stci` gives, if it exists.
pub open spec fn rendered(stci: Stci, subimage: Option<usize>) -> Option<(u32, u32, Seq<u8>)> {
    let k = chosen_subimage(subimage);
    match stci {
        Stci::Indexed { sub_images, palette } => if k < sub_images@.len() {
            let s = sub_images@[k];
            Some((s.width as u32, s.height as u32, indexed_rgba(s.data@, palette@)))
        } else {
            None
        },
        Stci::Rgb { width, height, data } => if k == 0 {
            Some((width as u32, height as u32, rgb_rgba(data@)))
        } else {
            None
        },
    }
}

proof fn lemma_indexed_rgba_len(data: Seq<u8>, palette: Seq<(u8, u8, u8)>)
    ensures
        indexed_rgba(data, palette).len() == 4 * data.len(),
    decreases data.len(),
{
    if data.len() > 0 {
        lemma_indexed_rgba_len(data.drop_last(), palette);
    }
}

proof fn lemma_rgb_rgba_len(data: Seq<(u8, u8, u8)>)
    ensures
        rgb_rgba(data).len() == 4 * data.len(),
    decreases data.len(),
{
    if data.len() > 0 {
        lemma_rgb_rgba_len(data.drop_last());
    }
}

fn render_indexed(data: &Vec<u8>, palette: &Vec<(u8, u8, u8)>) -> (r: Vec<u8>)
    requires
        palette@.len() == PALETTE_SIZE,
    ensures
        r@ == indexed_rgba(data@, palette@),
{
    let mut pixels: Vec<u8> = Vec::new();
    let mut i: usize = 0;
    while i < data.len()
        invariant
            palette@.len() == PALETTE_SIZE,
            i <= data@.len(),
            pixels@ == indexed_rgba(data@.subrange(0, i as int), palette@),
        decreases data@.len() - i,
    {
        let index = data[i];
        proof {
            let next = data@.subrange(0, i + 1);
            assert(next.drop_last() =~= data@.subrange(0, i as int));
            assert(next.last() == index);
        }
        if index == 0 {
            pixels.push(0);
            pixels.push(0);
            pixels.push(0);
            pixels.push(0);
        } else {
            let c = palette[index as usize];
            pixels.push(c.0);
            pixels.push(c.1);
            pixels.push(c.2);
            pixels.push(255);
        }
        proof {
            let next = data@.subrange(0, i + 1);
            assert(pixels@ =~= indexed_rgba(next.drop_last(), palette@) + indexed_pixel(next.last(), palette@));
        }
        i = i + 1;
    }
    assert(data@.subrange(0, data@.len() as int) =~= data@);
    pixels
}

fn render_rgb(data: &Vec<(u8, u8, u8)>) -> (r: Vec<u8>)
    ensures
        r@ == rgb_rgba(data@),
{
    let mut pixels: Vec<u8> = Vec::new();
    let mut i: usize = 0;
    while i < data.len()
        invariant
            i <= data@.len(),
            pixels@ == rgb_rgba(data@.subrange(0, i as int)),
        decreases data@.len() - i,
    {
        let c = data[i];
        proof {
            let next = data@.subrange(0, i + 1);
            assert(next.drop_last() =~= data@.subrange(0, i as int));
            assert(next.last() == c);
        }
        pixels.push(c.0);
        pixels.push(c.1);
        pixels.push(c.2);
        pixels.push(255);
        proof {
            let next = data@.subrange(0, i + 1);
            assert(pixels@ =~= rgb_rgba(next.drop_last()) + rgb_pixel(next.last()));
        }
        i = i + 1;
    }
    assert(data@.subrange(0, data@.len() as int) =~= data@);
    pixels
}

/// Parameters of the operation that renders one sub-image of an image file.
#[derive(Clone, Debug)]
pub struct RenderImageFile {
    pub file: String,
    pub subimage: Option<usize>,
}

impl RenderImageFile {
    pub fn name() -> (r: &'static str)
        ensures
            r@ == "render_image_file"@,
    {
        "render_image_file"
    }

    pub fn validate(&self) -> (r: Result<(), Error>)
        ensures
            r is Ok <==> !has_parent_ref(self.file@),
            r matches Err(e) ==> e.kind == ErrorKind::Parameter && e.message@ == "file path cannot contain `..`"@,
    {
        check_no_parent_ref(self.file.as_str())
    }

    /// Renders the requested sub-image (the first where none is named) of a
    /// decoded file: index 0 of an indexed image is transparent, every other
    /// pixel opaque. Asking for a sub-image that the file does not have is a
    /// parameter error.
    pub fn render(&self, stci: &Stci) -> (r: Result<RgbaImage, Error>)
        requires
            stci.wf(),
        ensures
            match rendered(*stci, self.subimage) {
                Some((w, h, px)) => r matches Ok(img) && img.width == w && img.height == h
                    && img.pixels@ == px && px.len() == 4 * (w as int) * (h as int),
                None => r matches Err(e) && e.kind == ErrorKind::Parameter,
            },
    {
        let k: usize = match self.subimage {
            Some(k) => k,
            None => 0,
        };
        match stci {
            Stci::Indexed { sub_images, palette } => {
                if k >= sub_images.len() {
                    return Err(Error::new(ErrorKind::Parameter, "indexed stci does not contain the requested subimage"));
                }
                let s = &sub_images[k];
                assert(sub_images@[k as int].wf());
                proof {
                    lemma_indexed_rgba_len(s.data@, palette@);
                    lemma_four_times(s.width as int, s.height as int);
                }
                let pixels = render_indexed(&s.data, palette);
                Ok(RgbaImage { width: s.width as u32, height: s.height as u32, pixels })
            },
            Stci::Rgb { width, height, data } => {
                if k != 0 {
                    return Err(Error::new(ErrorKind::Parameter, "rgb stci only contains 1 subimage"));
                }
                proof {
                    lemma_rgb_rgba_len(data@);
                    lemma_four_times(*width as int, *height as int);
                }
                let pixels = render_rgb(data);
                Ok(RgbaImage { width: *width as u32, height: *height as u32, pixels })
            },
        }
    }
}

/// Size and placement of one sub-image.
#[derive(Clone, Copy, Debug, PartialEq, Eq, Structural)]
pub struct SubImageMetadata {
    pub width: u16,
    pub height: u16,
    pub offset_x: i16,
    pub offset_y: i16,
}

/// Size and placement of every sub-image of a file.
#[derive(Clone, Debug)]
pub struct ImageFileMetadata {
    pub images: Vec<SubImageMetadata>,
}

/// Parameters of the operation that reads the metadata of an image file.
#[derive(Clone, Debug)]
pub struct ReadImageMetadata {
    pub file: String,
}

impl ReadImageMetadata {
    pub fn name() -> (r: &'static str)
        ensures
            r@ == "read_image_metadata"@,
    {
        "read_image_metadata"
    }

    /// One entry per sub-image of an indexed file; a single entry at offset
    /// zero for an RGB file.
    pub fn metadata(stci: &Stci) -> (r: ImageFileMetadata)
        ensures
            match *stci {
                Stci::Indexed { sub_images, .. } => r.images@.len() == sub_images@.len()
                    && forall|k: int| 0 <= k < sub_images@.len() ==> #[trigger] r.images@[k] == (SubImageMetadata {
                        width: sub_images@[k].width,
                        height: sub_images@[k].height,
                        offset_x: sub_images@[k].offset_x,
                        offset_y: sub_images@[k].offset_y,
                    }),
                Stci::Rgb { width, height, .. } => r.images@ == seq![SubImageMetadata {
                    width,
                    height,
                    offset_x: 0,
                    offset_y: 0,
                }],
            },
    {
        match stci {
            Stci::Indexed { sub_images, .. } => {
                let mut images: Vec<SubImageMetadata> = Vec::new();
                let mut k: usize = 0;
                while k < sub_images.len()
                    invariant
                        k <= sub_images@.len(),
                        images@.len() == k,
                        forall|j: int| 0 <= j < k ==> #[trigger] images@[j] == (SubImageMetadata {
                            width: sub_images@[j].width,
                            height: sub_images@[j].height,
                            offset_x: sub_images@[j].offset_x,
                            offset_y: sub_images@[j].offset_y,
                        }),
                    decreases sub_images@.len() - k,
                {
                    let s = &sub_images[k];
                    images.push(SubImageMetadata {
                        width: s.width,
                        height: s.height,
                        offset_x: s.offset_x,
                        offset_y: s.offset_y,
                    });
                    k = k + 1;
                }
                ImageFileMetadata { images }
            },
            Stci::Rgb { width, height, .. } => {
                let images = vec![SubImageMetadata { width: *width, height: *height, offset_x: 0, offset_y: 0 }];
                assert(images@ =~= seq![SubImageMetadata { width: *width, height: *height, offset_x: 0, offset_y: 0 }]);
                ImageFileMetadata { images }
            },
        }
    }
}

/// The bytes of the PNG file that the `image` crate writes for RGBA pixels.
pub uninterp spec fn png_of(width: u32, height: u32, rgba: Seq<u8>) -> Seq<u8>;

#[verifier::external_type_specification]
#[verifier::external_body]
pub struct ExImageError(image::ImageError);

/// Relies on image::png::PngEncoder::encode (fast compression, sub filter):
/// writes the PNG file of the pixels into a buffer. The png crate's
/// `write_header` refuses a zero width or height; with the data length right
/// and a `Vec` to write into, nothing else fails.
#[verifier::external_body]
fn encode_png(rgba: &Vec<u8>, width: u32, height: u32) -> (r: Result<Vec<u8>, image::ImageError>)
    requires
        rgba@.len() == 4 * (width as int) * (height as int),
    ensures
        r is Ok <==> (width > 0 && height > 0),
        r matches Ok(v) ==> v@ == png_of(width, height, rgba@),
{
    let mut png_data = Vec::new();
    image::png::PngEncoder::new(&mut png_data).encode(rgba, width, height, image::ColorType::Rgba8)?;
    Ok(png_data)
}

/// The data URI of PNG bytes.
pub open spec fn png_data_uri(png: Seq<u8>) -> Seq<char> {
    "data:image/png;base64,"@ + base64_of(png)
}

/// A rendered image, handed to the caller as a PNG data URI.
#[derive(Clone, Debug)]
pub struct Base64Image {
    pub image: RgbaImage,
}

impl Base64Image {
    pub fn new(image: RgbaImage) -> (r: Self)
        ensures
            r.image == image,
    {
        Base64Image { image }
    }

    /// The image as a PNG file. An image without rows or columns cannot be
    /// encoded: that failure is an I/O error.
    pub fn to_png_data(&self) -> (r: Result<Vec<u8>, Error>)
        requires
            self.image.pixels@.len() == 4 * (self.image.width as int) * (self.image.height as int),
        ensures
            r is Ok <==> (self.image.width > 0 && self.image.height > 0),
            r matches Ok(v) ==> v@ == png_of(self.image.width, self.image.height, self.image.pixels@),
            r matches Err(e) ==> e.kind == ErrorKind::Io,
    {
        match encode_png(&self.image.pixels, self.image.width, self.image.height) {
            Ok(v) => Ok(v),
            Err(e) => {
                let msg = e.to_string();
                Err(Error::new(ErrorKind::Io, msg.as_str()))
            },
        }
    }

    /// `data:image/png;base64,` followed by the PNG bytes in base64. Fails
    /// where the image has no rows or columns, or its PNG file is too large to
    /// encode.
    pub fn to_data_uri(&self) -> (r: Result<String, Error>)
        requires
            self.image.pixels@.len() == 4 * (self.image.width as int) * (self.image.height as int),
        ensures
            r is Ok <==> (self.image.width > 0 && self.image.height > 0 && png_of(
                self.image.width,
                self.image.height,
                self.image.pixels@,
            ).len() <= MAX_ENCODED_INPUT),
            r matches Ok(s) ==> s@ == png_data_uri(png_of(self.image.width, self.image.height, self.image.pixels@)),
            r matches Err(e) ==> e.kind == ErrorKind::Io,
    {
        let png = self.to_png_data()?;
        if png.len() > MAX_ENCODED_INPUT {
            return Err(Error::new(ErrorKind::Io, "encoded image is too large"));
        }
        Ok(png_uri_from_bytes(&png))
    }
}

/// The data URI of PNG bytes that were already encoded.
pub fn png_uri_from_bytes(png: &Vec<u8>) -> (r: String)
    requires
        png@.len() <= MAX_ENCODED_INPUT,
    ensures
        r@ == png_data_uri(png@),
{
    let mut s = "data:image/png;base64,".to_string();
    let b = encode_base64(png);
    s.append(b.as_str());
    s
}

} // verus!
