use glwrap::device::GlCommand;
use glwrap::error::{FrameBufferStatus, GLError};
use glwrap::frame::{Attachment, FrameBuffer, FrameBufferBuilder, FrameBufferId, FrameBufferReport};
use glwrap::texture::{image_source_format, PixelLayout, TexAxis, TexFormat, Texture, TextureId};

fn tex(id: u32, w: u32, h: u32, f: TexFormat) -> Texture {
    Texture { id: TextureId(id), width: w, height: h, tex_format: f }
}

#[test]
fn attachments_of_different_sizes_are_incomplete() {
    let color = tex(1, 64, 64, TexFormat::Rgba);
    let depth = tex(2, 64, 32, TexFormat::Depth);
    let b = FrameBufferBuilder::new().attach_color(&color).attach_depth(&depth);
    let (r, cmds) = b.build(9, FrameBufferReport::Complete);
    assert!(matches!(r, Err(GLError::IncompleteFrameBuffer(FrameBufferStatus::IncompleteAttachment))));
    assert_eq!(
        cmds,
        vec![GlCommand::BindFramebuffer { id: 0 }, GlCommand::DeleteFramebuffer { id: 9 }]
    );
}

#[test]
fn equal_sized_attachments_build() {
    let color = tex(1, 64, 64, TexFormat::Rgba);
    let depth = tex(2, 64, 64, TexFormat::Depth);
    let b = FrameBufferBuilder::new().attach_color(&color).attach_depth(&depth);
    assert_eq!(
        b.attachment_commands(9),
        vec![
            GlCommand::BindFramebuffer { id: 9 },
            GlCommand::FramebufferTexture { attachment: Attachment::Color, texture: 1 },
            GlCommand::FramebufferTexture { attachment: Attachment::Depth, texture: 2 },
        ]
    );
    let (r, cmds) = b.build(9, FrameBufferReport::Complete);
    let fb = r.unwrap();
    assert_eq!(fb, FrameBuffer { id: FrameBufferId(9), has_depth_buffer: true });
    assert_eq!(cmds, vec![GlCommand::BindFramebuffer { id: 0 }]);
    assert_eq!(fb.clear(), vec![GlCommand::ClearColor, GlCommand::ClearDepth]);
    assert_eq!(fb.make_current(), vec![GlCommand::BindFramebuffer { id: 9 }]);
}

#[test]
fn device_reported_incompleteness_is_kept() {
    let color = tex(1, 8, 8, TexFormat::Rgb);
    let b = FrameBufferBuilder::new().attach_color(&color);
    let (r, cmds) = b.build(9, FrameBufferReport::Incomplete(FrameBufferStatus::Unsupported));
    assert!(matches!(r, Err(GLError::IncompleteFrameBuffer(FrameBufferStatus::Unsupported))));
    assert_eq!(
        cmds,
        vec![GlCommand::BindFramebuffer { id: 0 }, GlCommand::DeleteFramebuffer { id: 9 }]
    );
    let b = FrameBufferBuilder::new().attach_color(&color);
    let (r, cmds) = b.build(9, FrameBufferReport::Failed);
    assert!(matches!(r, Err(GLError::CouldNotCreateFrameBuffer)));
    assert_eq!(cmds.len(), 2);
    let b = FrameBufferBuilder::new().attach_color(&color);
    let (r, cmds) = b.build(0, FrameBufferReport::Complete);
    assert!(matches!(r, Err(GLError::CouldNotCreateFrameBuffer)));
    assert!(cmds.is_empty());
    let fb = FrameBufferBuilder::new().attach_color(&color).build(3, FrameBufferReport::Complete).0.unwrap();
    assert!(!fb.has_depth_buffer);
    assert_eq!(fb.clear(), vec![GlCommand::ClearColor]);
    let stencil = tex(4, 8, 8, TexFormat::DepthStencil);
    let b = FrameBufferBuilder::new().attach_stencil(&stencil);
    assert_eq!(b.attachment_commands(2)[1], GlCommand::FramebufferTexture { attachment: Attachment::Stencil, texture: 4 });
}

#[test]
fn texture_allocation_and_sources() {
    assert!(matches!(Texture::allocate(0, 4, 4, TexFormat::Depth), Err(GLError::CouldNotCreateTexture)));
    let (t, cmds) = Texture::allocate(3, 16, 8, TexFormat::Depth).unwrap();
    assert_eq!(t, tex(3, 16, 8, TexFormat::Depth));
    assert_eq!(cmds.len(), 4);
    assert_eq!(cmds[3], GlCommand::BindTexture { id: 0 });

    assert!(matches!(Texture::new(3, PixelLayout::LumaA8, 2, 2), Err(GLError::ImageTypeNotImplemented)));
    let (t, cmds) = Texture::new(3, PixelLayout::Rgba16, 2, 2).unwrap();
    assert_eq!(t.tex_format, TexFormat::Rgba);
    assert_eq!(
        cmds[1],
        GlCommand::TexImage {
            storage: TexFormat::Rgba,
            width: 2,
            height: 2,
            source: TexFormat::Rgba,
            pixel: glwrap::attributes::GLType::Ushort,
            with_data: true,
        }
    );
    let (t, _) = Texture::new_stored_as(3, PixelLayout::Luma8, 2, 2, TexFormat::Rgb).unwrap();
    assert_eq!(t.tex_format, TexFormat::Monochrome);
}

#[test]
fn texture_from_decoded_image() {
    let img = image::DynamicImage::new_rgb8(5, 3);
    let (t, cmds) = Texture::from_image(6, &img).unwrap();
    assert_eq!((t.width, t.height, t.tex_format), (5, 3, TexFormat::Rgb));
    assert_eq!(cmds[1], GlCommand::TexImage {
        storage: TexFormat::Rgb,
        width: 5,
        height: 3,
        source: TexFormat::Rgb,
        pixel: glwrap::attributes::GLType::Ubyte,
        with_data: true,
    });
    let img = image::DynamicImage::new_luma_a8(2, 2);
    assert!(matches!(Texture::from_image(6, &img), Err(GLError::ImageTypeNotImplemented)));
    assert!(matches!(image_source_format(&img), Err(GLError::ImageTypeNotImplemented)));
    let img = image::DynamicImage::new_rgba16(4, 7);
    assert_eq!(image_source_format(&img).unwrap(), TexFormat::Rgba);
    assert!(matches!(Texture::from_image(0, &img), Err(GLError::CouldNotCreateTexture)));
    let (t, cmds) = Texture::from_image_stored_as(8, &img, TexFormat::Rgb).unwrap();
    assert_eq!((t.width, t.height, t.tex_format), (4, 7, TexFormat::Rgba));
    assert_eq!(cmds[1], GlCommand::TexImage {
        storage: TexFormat::Rgb,
        width: 4,
        height: 7,
        source: TexFormat::Rgba,
        pixel: glwrap::attributes::GLType::Ushort,
        with_data: true,
    });
}

#[test]
fn wrap_modes_per_axis() {
    let t = tex(7, 4, 4, TexFormat::Rgb);
    assert_eq!(
        t.clamp(&[TexAxis::UAxis, TexAxis::VAxis]),
        vec![
            GlCommand::BindTexture { id: 7 },
            GlCommand::SetWrap { axis: TexAxis::UAxis, clamp: true },
            GlCommand::SetWrap { axis: TexAxis::VAxis, clamp: true },
            GlCommand::BindTexture { id: 0 },
        ]
    );
    assert_eq!(t.repeat(&[TexAxis::VAxis])[1], GlCommand::SetWrap { axis: TexAxis::VAxis, clamp: false });
}
