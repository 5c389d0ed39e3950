//! Button images: a plain RGBA raster, the base image of a button, and the
//! play/stop overlay.

use crate::geometry::ButtonConfig;
use vstd::prelude::*;

verus! {

/// An image as plain values: 8-bit RGBA pixels, row after row from the top.
#[derive(Debug, PartialEq, Eq)]
pub struct Picture {
    pub width: u32,
    pub height: u32,
    pub pixels: Vec<u8>,
}

/// The mathematical value of a [`Picture`].
pub struct PictureView {
    pub width: nat,
    pub height: nat,
    pub pixels: Seq<u8>,
}

impl View for Picture {
    type V = PictureView;

    open spec fn view(&self) -> PictureView {
        PictureView { width: self.width as nat, height: self.height as nat, pixels: self.pixels@ }
    }
}

impl PictureView {
    /// The raster holds exactly four bytes for each pixel.
    pub open spec fn wf(self) -> bool {
        self.pixels.len() == self.width * self.height * 4
    }
}

/// Why the image of a button could not be prepared.
#[derive(Clone, Copy, Debug, PartialEq, Eq, Structural)]
pub enum AssetError {
    /// The image file could not be read.
    Unreadable,
    /// The image file holds no image that can be decoded.
    Undecodable,
}

/// The play or the stop glyph.
#[derive(Clone, Copy, Debug, PartialEq, Eq, Structural)]
pub enum Icon {
    Play,
    Stop,
}

/// The pixels of an opaque black canvas of `width` by `height` pixels.
pub open spec fn black_pixels(width: nat, height: nat) -> Seq<u8> {
    Seq::new(
        width * height * 4,
        |i: int|
            if i % 4 == 3 {
                255u8
            } else {
                0u8
            },
    )
}

/// An opaque black canvas of `width` by `height` pixels.
pub open spec fn black_canvas(width: nat, height: nat) -> PictureView {
    PictureView { width, height, pixels: black_pixels(width, height) }
}

/// The image that `bytes` encode in the format that the extension of `path`
/// names, as 8-bit RGBA; `None` where the extension names no format that
/// the decoder knows, or the bytes are no image of that format.
pub uninterp spec fn decoded(path: Seq<char>, bytes: Seq<u8>) -> Option<PictureView>;

/// The raster that results from compositing the picture `top` onto the
/// picture `bottom`, top-left corners aligned.
pub uninterp spec fn overlaid(bottom: PictureView, top: PictureView) -> Seq<u8>;

#[verifier::external_type_specification]
#[verifier::external_body]
pub struct ExImageError(image::ImageError);

/// Calls `image::load_from_memory_with_format`, with the format that
/// `image::ImageFormat::from_path` finds for `path`, and converts the image
/// to 8-bit RGBA.
///
/// Trusted: the decoded image is a function of the path and the bytes alone,
/// named `decoded`; the call fails exactly where that is `None`, and the
/// converted raster holds four bytes per pixel.
#[verifier::external_body]
fn decode(path: &str, bytes: &[u8]) -> (res: Result<Picture, image::ImageError>)
    ensures
        match res {
            Ok(p) => p@.wf() && decoded(path@, bytes@) == Some(p@),
            Err(_) => decoded(path@, bytes@).is_none(),
        },
{
    let format = image::ImageFormat::from_path(path)?;
    let img = image::load_from_memory_with_format(bytes, format)?.into_rgba8();
    Ok(Picture { width: img.width(), height: img.height(), pixels: img.into_raw() })
}

/// Calls `image::DynamicImage::resize_exact` with the Gaussian filter.
///
/// Trusted: the result is `width` by `height` pixels, whatever the aspect
/// ratio of `src`. Nothing is claimed of the pixel values: the filter's
/// weights come from floating-point functions whose last bits may differ
/// from one machine to the next.
#[verifier::external_body]
fn resize_exact(src: &Picture, width: u32, height: u32) -> (out: Picture)
    requires
        src@.wf(),
        width > 0,
        height > 0,
        width * height * 4 <= usize::MAX,
    ensures
        out@.wf(),
        out.width == width,
        out.height == height,
{
    let buf = image::RgbaImage::from_raw(src.width, src.height, src.pixels.clone()).unwrap();
    let img = image::DynamicImage::ImageRgba8(buf);
    let out = img.resize_exact(width, height, image::imageops::FilterType::Gaussian).into_rgba8();
    Picture { width: out.width(), height: out.height(), pixels: out.into_raw() }
}

/// Calls `image::imageops::overlay` at the origin on a copy of `base`.
///
/// Trusted: the result has the size of `base`, and its pixels are a function
/// of the two pictures, named `overlaid`.
#[verifier::external_body]
fn overlay_at_origin(base: &Picture, icon: &Picture) -> (out: Picture)
    requires
        base@.wf(),
        icon@.wf(),
    ensures
        out@.wf(),
        out.width == base.width,
        out.height == base.height,
        out.pixels@ == overlaid(base@, icon@),
{
    let mut bottom =
        image::RgbaImage::from_raw(base.width, base.height, base.pixels.clone()).unwrap();
    let top = image::RgbaImage::from_raw(icon.width, icon.height, icon.pixels.clone()).unwrap();
    image::imageops::overlay(&mut bottom, &top, 0, 0);
    Picture { width: bottom.width(), height: bottom.height(), pixels: bottom.into_raw() }
}

impl Picture {
    /// The raster holds exactly four bytes for each pixel.
    pub open spec fn wf(&self) -> bool {
        self@.wf()
    }

    /// A copy of the picture.
    pub fn copy(&self) -> (out: Picture)
        ensures
            out@ == self@,
    {
        let mut pixels: Vec<u8> = Vec::new();
        let mut i: usize = 0;
        while i < self.pixels.len()
            invariant
                i <= self.pixels.len(),
                pixels@ == self.pixels@.take(i as int),
            decreases self.pixels.len() - i,
        {
            pixels.push(self.pixels[i]);
            assert(self.pixels@.take(i + 1) =~= self.pixels@.take(i as int).push(
                self.pixels@[i as int],
            ));
            i += 1;
        }
        assert(self.pixels@.take(i as int) =~= self.pixels@);
        Picture { width: self.width, height: self.height, pixels }
    }

    /// An opaque black canvas of `width` by `height` pixels.
    pub fn black(width: u32, height: u32) -> (out: Picture)
        requires
            width * height * 4 <= usize::MAX,
        ensures
            out@ == black_canvas(width as nat, height as nat),
            out@.wf(),
    {
        assert(width * height <= width * height * 4) by (nonlinear_arith);
        let count: usize = (width as usize) * (height as usize);
        let mut pixels: Vec<u8> = Vec::new();
        let mut done: usize = 0;
        while done < count
            invariant
                done <= count,
                count == width * height,
                pixels@.len() == 4 * done,
                forall|i: int|
                    0 <= i < pixels@.len() ==> pixels@[i] == (if i % 4 == 3 {
                        255u8
                    } else {
                        0u8
                    }),
            decreases count - done,
        {
            pixels.push(0);
            pixels.push(0);
            pixels.push(0);
            pixels.push(255);
            done += 1;
        }
        assert(pixels@ =~= black_pixels(width as nat, height as nat));
        Picture { width, height, pixels }
    }

    /// The picture stretched or shrunk to exactly `width` by `height` pixels,
    /// without regard to its aspect ratio.
    pub fn fit(&self, width: u32, height: u32) -> (out: Picture)
        requires
            self.wf(),
            width * height * 4 <= usize::MAX,
        ensures
            out.wf(),
            out.width == width,
            out.height == height,
    {
        if width == 0 || height == 0 {
            assert(width * height * 4 == 0) by (nonlinear_arith)
                requires
                    width == 0 || height == 0,
            ;
            Picture { width, height, pixels: Vec::new() }
        } else {
            resize_exact(self, width, height)
        }
    }

    /// A new picture: this one with `icon` composited at its top-left corner.
    /// The picture itself is left as it is.
    pub fn overlay(&self, icon: &Picture) -> (out: Picture)
        requires
            self.wf(),
            icon.wf(),
        ensures
            out.wf(),
            out@ == overlay_of(self@, icon@),
    {
        overlay_at_origin(self, icon)
    }
}

/// `base` with `icon` composited at its top-left corner: a picture of the
/// size of `base`.
pub open spec fn overlay_of(base: PictureView, icon: PictureView) -> PictureView {
    PictureView { width: base.width, height: base.height, pixels: overlaid(base, icon) }
}

/// Whether `p` is the base image that a decoded image file gives at the
/// button size `width` by `height`: any raster of exactly that size.
pub open spec fn is_fitted(p: PictureView, width: nat, height: nat) -> bool {
    p.wf() && p.width == width && p.height == height
}

/// What `prepare_image` owes for a configuration and the contents of its
/// image file (`None` where the file could not be read).
pub open spec fn prepared(
    conf: ButtonConfig,
    file: Option<Seq<u8>>,
    width: nat,
    height: nat,
    res: Result<Option<PictureView>, AssetError>,
) -> bool {
    if conf.text.is_some() {
        res == Ok::<Option<PictureView>, AssetError>(Some(black_canvas(width, height)))
    } else if let Some(path) = conf.image {
        match file {
            None => res == Err::<Option<PictureView>, AssetError>(AssetError::Unreadable),
            Some(bytes) => if decoded(path@, bytes).is_none() {
                res == Err::<Option<PictureView>, AssetError>(AssetError::Undecodable)
            } else {
                match res {
                    Ok(Some(p)) => is_fitted(p, width, height),
                    _ => false,
                }
            },
        }
    } else {
        res == Ok::<Option<PictureView>, AssetError>(None)
    }
}

/// Whether the image of `conf` cannot be prepared from `file`.
pub open spec fn image_fails(conf: ButtonConfig, file: Option<Seq<u8>>) -> bool {
    conf.text.is_none() && match conf.image {
        Some(path) => match file {
            None => true,
            Some(bytes) => decoded(path@, bytes).is_none(),
        },
        None => false,
    }
}

/// The views of a result of `prepare_image`.
pub open spec fn prepared_view(res: Result<Option<Picture>, AssetError>) -> Result<
    Option<PictureView>,
    AssetError,
> {
    match res {
        Ok(Some(p)) => Ok(Some(p@)),
        Ok(None) => Ok(None),
        Err(e) => Err(e),
    }
}

/// The base image of a button, from an image file already decoded or not.
///
/// `picture` is what decoding the file's contents gave, `None` where they
/// would not decode. The base image is that picture at exactly `width` by
/// `height` pixels.
pub fn fit_decoded(picture: Option<Picture>, width: u32, height: u32) -> (res: Result<
    Option<Picture>,
    AssetError,
>)
    requires
        picture matches Some(p) ==> p.wf(),
        width * height * 4 <= usize::MAX,
    ensures
        picture.is_none() ==> res == Err::<Option<Picture>, AssetError>(AssetError::Undecodable),
        picture.is_some() ==> (res matches Ok(Some(p)) && is_fitted(
            p@,
            width as nat,
            height as nat,
        )),
{
    match picture {
        None => Err(AssetError::Undecodable),
        Some(p) => Ok(Some(p.fit(width, height))),
    }
}

/// Decodes the contents of an image file, such as the play or the stop
/// glyph, at the size the image has. The extension of `path` names the
/// format.
pub fn load_picture(path: &str, bytes: &[u8]) -> (res: Result<Picture, AssetError>)
    ensures
        match res {
            Ok(p) => p.wf() && decoded(path@, bytes@) == Some(p@),
            Err(e) => e == AssetError::Undecodable && decoded(path@, bytes@).is_none(),
        },
{
    match decode(path, bytes) {
        Ok(p) => Ok(p),
        Err(_) => Err(AssetError::Undecodable),
    }
}

/// The base image of a button at the button size `width` by `height`.
///
/// With a text: an opaque black canvas, onto which the caller draws the
/// lines that `layout_text` places. Else with an image path: the image that
/// `image_file`, the contents of that file, encodes in the format that the
/// path's extension names, stretched to exactly `width` by `height`;
/// `Unreadable` where the contents are missing and `Undecodable` where they
/// encode no such image. Else nothing.
pub fn prepare_image(
    conf: &ButtonConfig,
    image_file: Option<&Vec<u8>>,
    width: u32,
    height: u32,
) -> (res: Result<Option<Picture>, AssetError>)
    requires
        width * height * 4 <= usize::MAX,
    ensures
        prepared(
            *conf,
            match image_file {
                Some(b) => Some(b@),
                None => None,
            },
            width as nat,
            height as nat,
            prepared_view(res),
        ),
        res matches Err(_) <==> image_fails(
            *conf,
            match image_file {
                Some(b) => Some(b@),
                None => None,
            },
        ),
        res matches Ok(Some(p)) ==> is_fitted(p@, width as nat, height as nat),
        res matches Ok(None) <==> conf.text.is_none() && conf.image.is_none(),
{
    if conf.text.is_some() {
        Ok(Some(Picture::black(width, height)))
    } else if let Some(path) = &conf.image {
        match image_file {
            None => Err(AssetError::Unreadable),
            Some(bytes) => {
                let picture = match load_picture(path.as_str(), bytes.as_slice()) {
                    Ok(p) => Some(p),
                    Err(_) => None,
                };
                fit_decoded(picture, width, height)
            },
        }
    } else {
        Ok(None)
    }
}

} // verus!
