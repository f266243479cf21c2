use vstd::prelude::*;

use crate::attributes::GLType;
use crate::device::{run, DeviceState, GlCommand};
use crate::error::GLError;

verus! {

#[verifier::external_type_specification]
#[verifier::external_body]
pub struct ExDynamicImage(image::DynamicImage);

/// A texture coordinate axis: U horizontal, V vertical.
#[derive(Debug, Clone, Copy, PartialEq, Eq, Structural)]
pub enum TexAxis {
    UAxis,
    VAxis,
}

/// How texels are stored.
#[derive(Debug, Clone, Copy, PartialEq, Eq, Structural)]
pub enum TexFormat {
    Monochrome,
    Rgb,
    Rgba,
    Depth,
    DepthStencil,
}

/// Channel layout and depth of a decoded image.
#[derive(Debug, Clone, Copy, PartialEq, Eq, Structural)]
pub enum PixelLayout {
    Luma8,
    LumaA8,
    Rgb8,
    Rgba8,
    Luma16,
    LumaA16,
    Rgb16,
    Rgba16,
    Rgb32F,
    Rgba32F,
}

/// The texel format of an image's channels, where the device has one.
pub open spec fn spec_source_format(layout: PixelLayout) -> Option<TexFormat> {
    match layout {
        PixelLayout::Rgb8 | PixelLayout::Rgb16 | PixelLayout::Rgb32F => Some(TexFormat::Rgb),
        PixelLayout::Luma8 | PixelLayout::Luma16 => Some(TexFormat::Monochrome),
        PixelLayout::Rgba8 | PixelLayout::Rgba16 | PixelLayout::Rgba32F => Some(TexFormat::Rgba),
        _ => None,
    }
}

/// The scalar kind of an image's channels.
pub open spec fn spec_pixel_type(layout: PixelLayout) -> GLType {
    match layout {
        PixelLayout::Rgb8 | PixelLayout::Luma8 | PixelLayout::LumaA8 | PixelLayout::Rgba8 => GLType::Ubyte,
        PixelLayout::Luma16 | PixelLayout::LumaA16 | PixelLayout::Rgb16 | PixelLayout::Rgba16 => GLType::Ushort,
        PixelLayout::Rgb32F | PixelLayout::Rgba32F => GLType::Float,
    }
}

pub fn source_format(layout: PixelLayout) -> (r: Result<TexFormat, GLError>)
    ensures
        match r {
            Ok(f) => spec_source_format(layout) == Some(f),
            Err(e) => spec_source_format(layout) is None && e is ImageTypeNotImplemented,
        },
{
    match layout {
        PixelLayout::Rgb8 | PixelLayout::Rgb16 | PixelLayout::Rgb32F => Ok(TexFormat::Rgb),
        PixelLayout::Luma8 | PixelLayout::Luma16 => Ok(TexFormat::Monochrome),
        PixelLayout::Rgba8 | PixelLayout::Rgba16 | PixelLayout::Rgba32F => Ok(TexFormat::Rgba),
        _ => Err(GLError::ImageTypeNotImplemented),
    }
}

pub fn pixel_type(layout: PixelLayout) -> (r: GLType)
    ensures
        r == spec_pixel_type(layout),
{
    match layout {
        PixelLayout::Rgb8 | PixelLayout::Luma8 | PixelLayout::LumaA8 | PixelLayout::Rgba8 => GLType::Ubyte,
        PixelLayout::Luma16 | PixelLayout::LumaA16 | PixelLayout::Rgb16 | PixelLayout::Rgba16 => GLType::Ushort,
        PixelLayout::Rgb32F | PixelLayout::Rgba32F => GLType::Float,
    }
}

/// The channel layout of a decoded image, where it is one of the known ones.
pub uninterp spec fn layout_of(image: image::DynamicImage) -> Option<PixelLayout>;

/// The width and height of a decoded image, in pixels.
pub uninterp spec fn dimensions_of(image: image::DynamicImage) -> (u32, u32);

/// Relies on image's `DynamicImage`: tells its variants apart, `None` for a
/// variant added after these. The variant is part of the image's value.
#[verifier::external_body]
fn image_layout(image: &image::DynamicImage) -> (r: Option<PixelLayout>)
    ensures
        r == layout_of(*image),
{
    match image {
        image::DynamicImage::ImageLuma8(_) => Some(PixelLayout::Luma8),
        image::DynamicImage::ImageLumaA8(_) => Some(PixelLayout::LumaA8),
        image::DynamicImage::ImageRgb8(_) => Some(PixelLayout::Rgb8),
        image::DynamicImage::ImageRgba8(_) => Some(PixelLayout::Rgba8),
        image::DynamicImage::ImageLuma16(_) => Some(PixelLayout::Luma16),
        image::DynamicImage::ImageLumaA16(_) => Some(PixelLayout::LumaA16),
        image::DynamicImage::ImageRgb16(_) => Some(PixelLayout::Rgb16),
        image::DynamicImage::ImageRgba16(_) => Some(PixelLayout::Rgba16),
        image::DynamicImage::ImageRgb32F(_) => Some(PixelLayout::Rgb32F),
        image::DynamicImage::ImageRgba32F(_) => Some(PixelLayout::Rgba32F),
        _ => None,
    }
}

/// Relies on image's `GenericImageView::dimensions` for a `DynamicImage`:
/// its width and height in pixels.
#[verifier::external_body]
fn image_dimensions(image: &image::DynamicImage) -> (r: (u32, u32))
    ensures
        r == dimensions_of(*image),
{
    image::GenericImageView::dimensions(image)
}

/// A texture identifier assigned by the device.
#[derive(Debug, Clone, Copy, PartialEq, Eq, Structural)]
pub struct TextureId(pub u32);

impl TextureId {
    fn new(id: u32) -> (r: Result<TextureId, GLError>)
        ensures
            match r {
                Ok(t) => id != 0 && t.0 == id,
                Err(e) => id == 0 && e is CouldNotCreateTexture,
            },
    {
        if id == 0 {
            return Err(GLError::CouldNotCreateTexture);
        }
        Ok(TextureId(id))
    }
}

/// A 2D texture with its size and texel format.
#[derive(Debug, Clone, Copy, PartialEq, Eq, Structural)]
pub struct Texture {
    pub id: TextureId,
    pub width: u32,
    pub height: u32,
    pub tex_format: TexFormat,
}

/// Bind, define the texel storage, set the sampling, unbind.
pub open spec fn upload_texture_commands(
    id: u32,
    storage: TexFormat,
    width: u32,
    height: u32,
    source: TexFormat,
    pixel: GLType,
    with_data: bool,
) -> Seq<GlCommand> {
    seq![
        GlCommand::BindTexture { id },
        GlCommand::TexImage { storage, width, height, source, pixel, with_data },
        GlCommand::DefaultSampling,
        GlCommand::BindTexture { id: 0 },
    ]
}

/// A texture creation's result, with its commands as a sequence.
pub open spec fn outcome(r: Result<(Texture, Vec<GlCommand>), GLError>) -> Result<
    (Texture, Seq<GlCommand>),
    GLError,
> {
    match r {
        Ok((t, cmds)) => Ok((t, cmds@)),
        Err(e) => Err(e),
    }
}

/// A texture on the identifier `id` (0: the device made none) stored as
/// `format`, filled from an image of the given layout and size; it records the
/// image's own channel format.
pub open spec fn spec_stored_as(id: u32, layout: PixelLayout, width: u32, height: u32, format: TexFormat) -> Result<
    (Texture, Seq<GlCommand>),
    GLError,
> {
    if id == 0 {
        Err(GLError::CouldNotCreateTexture)
    } else {
        match spec_source_format(layout) {
            None => Err(GLError::ImageTypeNotImplemented),
            Some(f) => Ok(
                (
                    Texture { id: TextureId(id), width, height, tex_format: f },
                    upload_texture_commands(id, format, width, height, f, spec_pixel_type(layout), true),
                ),
            ),
        }
    }
}

/// A texture stored in the image's own channel format; an unsupported layout is
/// refused before the identifier is looked at.
pub open spec fn spec_new(id: u32, layout: PixelLayout, width: u32, height: u32) -> Result<
    (Texture, Seq<GlCommand>),
    GLError,
> {
    match spec_source_format(layout) {
        None => Err(GLError::ImageTypeNotImplemented),
        Some(f) => spec_stored_as(id, layout, width, height, f),
    }
}

/// The texel format of a decoded image's channels, where the device has one; a
/// caller checks this before asking the device for a texture identifier.
pub fn image_source_format(image: &image::DynamicImage) -> (r: Result<TexFormat, GLError>)
    ensures
        match r {
            Ok(f) => layout_of(*image) matches Some(l) && spec_source_format(l) == Some(f),
            Err(e) => e is ImageTypeNotImplemented && match layout_of(*image) {
                Some(l) => spec_source_format(l) is None,
                None => true,
            },
        },
{
    match image_layout(image) {
        Some(layout) => source_format(layout),
        None => Err(GLError::ImageTypeNotImplemented),
    }
}

impl Texture {
    /// An empty texture of the given size and format on the identifier `id`.
    pub fn allocate(id: u32, width: u32, height: u32, format: TexFormat) -> (r: Result<
        (Self, Vec<GlCommand>),
        GLError,
    >)
        ensures
            match r {
                Ok((t, cmds)) => id != 0 && t == (Texture {
                    id: TextureId(id),
                    width,
                    height,
                    tex_format: format,
                }) && cmds@ == upload_texture_commands(
                    id,
                    format,
                    width,
                    height,
                    format,
                    GLType::Ubyte,
                    false,
                ),
                Err(e) => id == 0 && e is CouldNotCreateTexture,
            },
    {
        let tid = TextureId::new(id)?;
        let cmds = vec![
            GlCommand::BindTexture { id },
            GlCommand::TexImage {
                storage: format,
                width,
                height,
                source: format,
                pixel: GLType::Ubyte,
                with_data: false,
            },
            GlCommand::DefaultSampling,
            GlCommand::BindTexture { id: 0 },
        ];
        Ok((Texture { id: tid, width, height, tex_format: format }, cmds))
    }

    /// A texture stored as `format`, filled with the pixels of an image of the
    /// given layout and size. The texture records the image's own channel format.
    pub fn new_stored_as(id: u32, layout: PixelLayout, width: u32, height: u32, format: TexFormat) -> (r:
        Result<(Self, Vec<GlCommand>), GLError>)
        ensures
            outcome(r) == spec_stored_as(id, layout, width, height, format),
    {
        let tid = TextureId::new(id)?;
        let image_format = source_format(layout)?;
        let pixel = pixel_type(layout);
        let cmds = vec![
            GlCommand::BindTexture { id },
            GlCommand::TexImage {
                storage: format,
                width,
                height,
                source: image_format,
                pixel,
                with_data: true,
            },
            GlCommand::DefaultSampling,
            GlCommand::BindTexture { id: 0 },
        ];
        Ok((Texture { id: tid, width, height, tex_format: image_format }, cmds))
    }

    /// A texture stored in the image's own channel format.
    pub fn new(id: u32, layout: PixelLayout, width: u32, height: u32) -> (r: Result<
        (Self, Vec<GlCommand>),
        GLError,
    >)
        ensures
            outcome(r) == spec_new(id, layout, width, height),
    {
        let format = source_format(layout)?;
        Self::new_stored_as(id, layout, width, height, format)
    }

    /// A texture holding a decoded image, stored in its own channel format.
    pub fn from_image(id: u32, image: &image::DynamicImage) -> (r: Result<
        (Self, Vec<GlCommand>),
        GLError,
    >)
        ensures
            outcome(r) == match layout_of(*image) {
                Some(l) => spec_new(id, l, dimensions_of(*image).0, dimensions_of(*image).1),
                None => Err(GLError::ImageTypeNotImplemented),
            },
    {
        let (width, height) = image_dimensions(image);
        match image_layout(image) {
            Some(layout) => Self::new(id, layout, width, height),
            None => Err(GLError::ImageTypeNotImplemented),
        }
    }

    /// A texture holding a decoded image, stored as `format`.
    pub fn from_image_stored_as(id: u32, image: &image::DynamicImage, format: TexFormat) -> (r: Result<
        (Self, Vec<GlCommand>),
        GLError,
    >)
        ensures
            outcome(r) == match layout_of(*image) {
                Some(l) => spec_stored_as(id, l, dimensions_of(*image).0, dimensions_of(*image).1, format),
                None => Err(GLError::ImageTypeNotImplemented),
            },
    {
        let (width, height) = image_dimensions(image);
        match image_layout(image) {
            Some(layout) => Self::new_stored_as(id, layout, width, height, format),
            None => Err(GLError::ImageTypeNotImplemented),
        }
    }

    /// Sets the wrap mode of the given axes, to clamping or to repeating.
    fn set_wrap(&self, dimensions: &[TexAxis], clamp: bool) -> (r: Vec<GlCommand>)
        ensures
            r@ == seq![GlCommand::BindTexture { id: self.id.0 }] + dimensions@.map_values(
                |a: TexAxis| GlCommand::SetWrap { axis: a, clamp },
            ) + seq![GlCommand::BindTexture { id: 0 }],
    {
        let mut cmds = vec![GlCommand::BindTexture { id: self.id.0 }];
        let mut i: usize = 0;
        while i < dimensions.len()
            invariant
                i <= dimensions@.len(),
                cmds@ == seq![GlCommand::BindTexture { id: self.id.0 }] + dimensions@.take(
                    i as int,
                ).map_values(|a: TexAxis| GlCommand::SetWrap { axis: a, clamp }),
            decreases dimensions@.len() - i,
        {
            cmds.push(GlCommand::SetWrap { axis: dimensions[i], clamp });
            assert(dimensions@.take(i + 1) =~= dimensions@.take(i as int).push(dimensions@[i as int]));
            i += 1;
        }
        assert(dimensions@.take(i as int) =~= dimensions@);
        cmds.push(GlCommand::BindTexture { id: 0 });
        cmds
    }

    /// Clamps texture coordinates along the given axes.
    pub fn clamp(&self, dimensions: &[TexAxis]) -> (r: Vec<GlCommand>)
        ensures
            r@ == seq![GlCommand::BindTexture { id: self.id.0 }] + dimensions@.map_values(
                |a: TexAxis| GlCommand::SetWrap { axis: a, clamp: true },
            ) + seq![GlCommand::BindTexture { id: 0 }],
    {
        self.set_wrap(dimensions, true)
    }

    /// Repeats texture coordinates along the given axes.
    pub fn repeat(&self, dimensions: &[TexAxis]) -> (r: Vec<GlCommand>)
        ensures
            r@ == seq![GlCommand::BindTexture { id: self.id.0 }] + dimensions@.map_values(
                |a: TexAxis| GlCommand::SetWrap { axis: a, clamp: false },
            ) + seq![GlCommand::BindTexture { id: 0 }],
    {
        self.set_wrap(dimensions, false)
    }
}

/// Creating a texture leaves no texture bound, from any state.
pub proof fn lemma_texture_upload_unbinds(
    s: DeviceState,
    id: u32,
    storage: TexFormat,
    width: u32,
    height: u32,
    source: TexFormat,
    pixel: GLType,
    with_data: bool,
)
    ensures
        run(s, upload_texture_commands(id, storage, width, height, source, pixel, with_data)).texture
            == 0,
{
    reveal_with_fuel(run, 5);
}

} // verus!
