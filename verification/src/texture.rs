//! Textures: images on the GPU and the way they are sampled.

use crate::command::{Command, Filter, Kind, Op, Sampling, Wrap};
use crate::context::Context;
use image::ImageError;
use vstd::prelude::*;

verus! {

/// The error of the image crate, carried through unopened.
#[verifier::external_type_specification]
#[verifier::external_body]
pub struct ExImageError(image::ImageError);

/// An image as rows of pixels, each pixel four 8-bit channels: red, green,
/// blue, alpha.
///
/// The pixels are at least as many as the width and the height call for,
/// so an upload never reads beyond them.
#[derive(Debug)]
pub struct Bitmap {
    width: u32,
    height: u32,
    pixels: Vec<u8>,
}

/// Whether `pixels` bytes are enough for an image of `width` by `height`
/// pixels of four channels.
pub open spec fn holds_image(width: u32, height: u32, pixels: Seq<u8>) -> bool {
    pixels.len() >= 4 * width * height
}

impl View for Bitmap {
    type V = (u32, u32, Seq<u8>);

    closed spec fn view(&self) -> (u32, u32, Seq<u8>) {
        (self.width, self.height, self.pixels@)
    }
}

impl Bitmap {
    #[verifier::type_invariant]
    spec fn complete(self) -> bool {
        holds_image(self.width, self.height, self.pixels@)
    }

    /// An image of the given size, if `pixels` holds enough bytes for it.
    pub fn new(width: u32, height: u32, pixels: Vec<u8>) -> (bitmap: Option<Bitmap>)
        ensures
            bitmap is Some <==> holds_image(width, height, pixels@),
            bitmap matches Some(b) ==> b@ == (width, height, pixels@),
    {
        let wide: u64 = width as u64;
        let high: u64 = height as u64;
        assert(wide * high <= 0xFFFF_FFFE_0000_0001) by (nonlinear_arith)
            requires
                wide <= 0xFFFF_FFFF,
                high <= 0xFFFF_FFFF,
        ;
        let area: u64 = wide * high;
        let quads: u64 = (pixels.len() / 4) as u64;
        assert(4 * width * height == 4 * area) by (nonlinear_arith)
            requires
                area == width * height,
        ;
        if quads >= area {
            Some(Bitmap { width, height, pixels })
        } else {
            None
        }
    }

    /// The number of pixels in a row.
    pub fn width(&self) -> (width: u32)
        ensures
            width == self@.0,
    {
        self.width
    }

    /// The number of rows.
    pub fn height(&self) -> (height: u32)
        ensures
            height == self@.1,
    {
        self.height
    }

    /// The channels of the pixels, row after row.
    pub fn pixels(&self) -> (pixels: &Vec<u8>)
        ensures
            pixels@ == self@.2,
            holds_image(self@.0, self@.1, pixels@),
    {
        proof {
            use_type_invariant(self);
        }
        &self.pixels
    }
}

/// The image that the image crate reads from a file with the given path and
/// contents: its width, its height and its pixels. `None` where the crate
/// rejects the file.
pub uninterp spec fn decoded_image(path: Seq<char>, contents: Seq<u8>) -> Option<
    (u32, u32, Seq<u8>),
>;

/// Decodes the contents of an image file.
///
/// Calls `image::ImageFormat::from_path`, which picks the format by the
/// extension of `path`, then `image::load_from_memory_with_format` on
/// `contents`, and turns the result into four 8-bit channels with
/// `DynamicImage::into_rgba8`. Nothing is proved of the decoding: the
/// contract gives its result a name, as a function of the path and the
/// contents, and adds what the crate's image buffer guarantees of every
/// image: that the buffer is large enough for the width and the height.
#[verifier::external_body]
fn decode_rgba8(path: &str, contents: &[u8]) -> (decoded: Result<Bitmap, ImageError>)
    ensures
        match decoded {
            Ok(bitmap) => decoded_image(path@, contents@) == Some(bitmap@) && holds_image(
                bitmap@.0,
                bitmap@.1,
                bitmap@.2,
            ),
            Err(_) => decoded_image(path@, contents@) is None,
        },
{
    let format = image::ImageFormat::from_path(path)?;
    let picture = image::load_from_memory_with_format(contents, format)?.into_rgba8();
    Ok(Bitmap { width: picture.width(), height: picture.height(), pixels: picture.into_raw() })
}

/// The image that a file yields: that of its contents where it could be
/// read, none where it could not.
pub open spec fn image_of(path: Seq<char>, file: Result<Vec<u8>, ImageError>) -> Option<
    (u32, u32, Seq<u8>),
> {
    match file {
        Ok(contents) => decoded_image(path, contents@),
        Err(_) => None,
    }
}

/// What uploading an image issues.
pub open spec fn upload_ops(image: Option<(u32, u32, Seq<u8>)>) -> Seq<Op> {
    match image {
        Some((width, height, pixels)) => seq![
            Op::TextureImage { width, height, pixels },
            Op::GenerateMipmap,
        ],
        None => Seq::empty(),
    }
}

/// The owner of one texture.
#[derive(Debug)]
pub struct Texture {
    id: u32,
}

impl Texture {
    /// The name of the texture; 0 if the context had no name left for it.
    pub closed spec fn name(&self) -> u32 {
        self.id
    }

    /// What [`Texture::bind`] issues.
    pub open spec fn bind_ops(&self) -> Seq<Op> {
        seq![Op::BindTexture { name: self.name() }]
    }

    /// What [`Texture::activate`] issues.
    pub open spec fn activate_ops(&self, unit: u32) -> Seq<Op> {
        seq![Op::ActiveTexture { unit }, Op::BindTexture { name: self.name() }]
    }

    /// What [`Texture::set_wrapping`] issues.
    pub open spec fn set_wrapping_ops(&self, mode: Wrap) -> Seq<Op> {
        seq![
            Op::BindTexture { name: self.name() },
            Op::TextureParameter { sampling: Sampling::WrapS(mode) },
            Op::TextureParameter { sampling: Sampling::WrapT(mode) },
        ]
    }

    /// What [`Texture::set_filtering`] issues.
    pub open spec fn set_filtering_ops(&self, mode: Filter) -> Seq<Op> {
        seq![
            Op::BindTexture { name: self.name() },
            Op::TextureParameter { sampling: Sampling::Minify(mode) },
            Op::TextureParameter { sampling: Sampling::Magnify(mode) },
        ]
    }

    /// What [`Texture::load`] issues for a file that yields `image`.
    pub open spec fn load_ops(&self, image: Option<(u32, u32, Seq<u8>)>) -> Seq<Op> {
        self.bind_ops() + upload_ops(image)
    }

    /// What [`Texture::release`] issues.
    pub open spec fn release_ops(&self) -> Seq<Op> {
        seq![Op::Delete { kind: Kind::Texture, name: self.name() }]
    }

    /// Allocates a texture under a fresh name.
    pub fn new(ctx: &mut Context) -> (texture: Texture)
        ensures
            texture.name() == old(ctx).fresh(),
            final(ctx).counter() == old(ctx).counter_after(1),
            final(ctx).issued() == old(ctx).issued().push(
                Op::Create { kind: Kind::Texture, name: texture.name() },
            ),
    {
        let id: u32 = ctx.allocate();
        ctx.issue(Command::Create { kind: Kind::Texture, name: id });
        Texture { id }
    }

    /// The name of the texture.
    pub fn id(&self) -> (id: u32)
        ensures
            id == self.name(),
    {
        self.id
    }

    /// Binds the texture, then replaces its image with the one read from an
    /// image file and derives the reduced copies.
    ///
    /// `path` is the path of the file and `file` what reading it gave: its
    /// contents, or the error of the attempt. Where the file could not be
    /// read, that error is returned; where its contents are no image of the
    /// format that the path announces, the decoder's error is. In both cases
    /// nothing follows the bind: no part of an image is uploaded.
    pub fn load(&self, ctx: &mut Context, path: &str, file: Result<Vec<u8>, ImageError>) -> (loaded:
        Result<(), ImageError>)
        ensures
            loaded is Ok <==> image_of(path@, file) is Some,
            file matches Err(e) ==> loaded == Err::<(), ImageError>(e),
            image_of(path@, file) matches Some((width, height, pixels)) ==> holds_image(
                width,
                height,
                pixels,
            ),
            final(ctx).issued() == old(ctx).issued() + self.load_ops(image_of(path@, file)),
            final(ctx).counter() == old(ctx).counter(),
    {
        self.bind(ctx);
        let decoded = match file {
            Ok(contents) => decode_rgba8(path, contents.as_slice()),
            Err(e) => Err(e),
        };
        let loaded = self.load_decoded(ctx, decoded);
        assert(ctx.issued() =~= old(ctx).issued() + self.load_ops(image_of(path@, file)));
        loaded
    }

    /// Uploads a decoded image to the bound texture and derives the reduced
    /// copies; passes a decoding error on and uploads nothing.
    ///
    /// What is uploaded always holds enough pixels for its size.
    pub fn load_decoded(&self, ctx: &mut Context, decoded: Result<Bitmap, ImageError>) -> (loaded:
        Result<(), ImageError>)
        ensures
            match decoded {
                Ok(bitmap) => loaded is Ok && holds_image(bitmap@.0, bitmap@.1, bitmap@.2)
                    && final(ctx).issued() == old(ctx).issued() + upload_ops(Some(bitmap@)),
                Err(e) => loaded == Err::<(), ImageError>(e) && final(ctx).issued() == old(
                    ctx,
                ).issued(),
            },
            final(ctx).counter() == old(ctx).counter(),
    {
        match decoded {
            Ok(bitmap) => {
                let ghost image = Some(bitmap@);
                proof {
                    use_type_invariant(&bitmap);
                }
                ctx.issue(
                    Command::TextureImage {
                        width: bitmap.width,
                        height: bitmap.height,
                        pixels: bitmap.pixels,
                    },
                );
                ctx.issue(Command::GenerateMipmap);
                assert(ctx.issued() =~= old(ctx).issued() + upload_ops(image));
                Ok(())
            },
            Err(e) => Err(e),
        }
    }

    /// Binds the texture, then sets how coordinates outside the unit square
    /// are treated, alike along both axes.
    pub fn set_wrapping(&self, ctx: &mut Context, mode: Wrap)
        ensures
            final(ctx).issued() == old(ctx).issued() + self.set_wrapping_ops(mode),
            final(ctx).counter() == old(ctx).counter(),
    {
        self.bind(ctx);
        ctx.issue(Command::TextureParameter { sampling: Sampling::WrapS(mode) });
        ctx.issue(Command::TextureParameter { sampling: Sampling::WrapT(mode) });
        assert(ctx.issued() =~= old(ctx).issued() + self.set_wrapping_ops(mode));
    }

    /// Binds the texture, then sets how it is sampled, alike when reduced
    /// and when enlarged.
    pub fn set_filtering(&self, ctx: &mut Context, mode: Filter)
        ensures
            final(ctx).issued() == old(ctx).issued() + self.set_filtering_ops(mode),
            final(ctx).counter() == old(ctx).counter(),
    {
        self.bind(ctx);
        ctx.issue(Command::TextureParameter { sampling: Sampling::Minify(mode) });
        ctx.issue(Command::TextureParameter { sampling: Sampling::Magnify(mode) });
        assert(ctx.issued() =~= old(ctx).issued() + self.set_filtering_ops(mode));
    }

    /// Binds the texture to the selected texture unit.
    pub fn bind(&self, ctx: &mut Context)
        ensures
            final(ctx).issued() == old(ctx).issued() + self.bind_ops(),
            final(ctx).counter() == old(ctx).counter(),
    {
        ctx.issue(Command::BindTexture { name: self.id });
        assert(ctx.issued() =~= old(ctx).issued() + self.bind_ops());
    }

    /// Selects texture unit `unit`, counted from 0, and binds the texture to
    /// it.
    pub fn activate(&self, ctx: &mut Context, unit: u32)
        ensures
            final(ctx).issued() == old(ctx).issued() + self.activate_ops(unit),
            final(ctx).counter() == old(ctx).counter(),
    {
        ctx.issue(Command::ActiveTexture { unit });
        self.bind(ctx);
        assert(ctx.issued() =~= old(ctx).issued() + self.activate_ops(unit));
    }

    /// Destroys the texture.
    pub fn release(self, ctx: &mut Context)
        ensures
            final(ctx).issued() == old(ctx).issued() + self.release_ops(),
            final(ctx).counter() == old(ctx).counter(),
    {
        ctx.issue(Command::Delete { kind: Kind::Texture, name: self.id });
        assert(ctx.issued() =~= old(ctx).issued() + self.release_ops());
    }
}

} // verus!
