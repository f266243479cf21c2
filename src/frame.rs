use vstd::prelude::*;

use crate::device::{lemma_run_append, run, DeviceState, GlCommand};
use crate::error::{FrameBufferStatus, GLError};
use crate::texture::Texture;

verus! {

/// A framebuffer identifier; 0 is the default render target.
#[derive(Debug, Clone, Copy, PartialEq, Eq, Structural)]
pub struct FrameBufferId(pub u32);

/// A render target.
#[derive(Debug, Clone, Copy, PartialEq, Eq, Structural)]
pub struct FrameBuffer {
    pub id: FrameBufferId,
    pub has_depth_buffer: bool,
}

impl FrameBuffer {
    pub open spec fn spec_default() -> FrameBuffer {
        FrameBuffer { id: FrameBufferId(0), has_depth_buffer: true }
    }

    /// Clears the color, and the depth where there is a depth buffer.
    pub fn clear(&self) -> (r: Vec<GlCommand>)
        ensures
            r@ == if self.has_depth_buffer {
                seq![GlCommand::ClearColor, GlCommand::ClearDepth]
            } else {
                seq![GlCommand::ClearColor]
            },
    {
        let mut cmds = vec![GlCommand::ClearColor];
        if self.has_depth_buffer {
            cmds.push(GlCommand::ClearDepth);
        }
        cmds
    }

    /// Makes this the target of later draws.
    pub fn make_current(&self) -> (r: Vec<GlCommand>)
        ensures
            r@ == seq![GlCommand::BindFramebuffer { id: self.id.0 }],
    {
        vec![GlCommand::BindFramebuffer { id: self.id.0 }]
    }
}

impl Default for FrameBuffer {
    fn default() -> (r: Self)
        ensures
            r == FrameBuffer::spec_default(),
    {
        FrameBuffer { id: FrameBufferId(0), has_depth_buffer: true }
    }
}

/// Where a texture is attached in a framebuffer.
#[derive(Debug, Clone, Copy, PartialEq, Eq, Structural)]
pub enum Attachment {
    Color,
    Depth,
    Stencil,
}

/// The device's answer to a completeness check.
#[derive(Debug, Clone, Copy, PartialEq, Eq, Structural)]
pub enum FrameBufferReport {
    Complete,
    Incomplete(FrameBufferStatus),
    /// No standard answer: the check itself failed.
    Failed,
}

/// The textures to attach to a new framebuffer.
pub struct FrameBufferBuilder<'a> {
    pub color_texture: Option<&'a Texture>,
    pub depth_texture: Option<&'a Texture>,
    pub stencil_texture: Option<&'a Texture>,
}

/// Two optional attachments have the same size, or one is absent.
pub open spec fn same_size(a: Option<&Texture>, b: Option<&Texture>) -> bool {
    match (a, b) {
        (Some(x), Some(y)) => x.width == y.width && x.height == y.height,
        _ => true,
    }
}

fn sizes_agree(a: Option<&Texture>, b: Option<&Texture>) -> (r: bool)
    ensures
        r == same_size(a, b),
{
    match (a, b) {
        (Some(x), Some(y)) => x.width == y.width && x.height == y.height,
        _ => true,
    }
}

/// One attachment command, where there is a texture.
pub open spec fn attach(a: Attachment, t: Option<&Texture>) -> Seq<GlCommand> {
    match t {
        Some(t) => seq![GlCommand::FramebufferTexture { attachment: a, texture: t.id.0 }],
        None => Seq::empty(),
    }
}

impl<'a> FrameBufferBuilder<'a> {
    pub fn new() -> (r: Self)
        ensures
            r.color_texture is None,
            r.depth_texture is None,
            r.stencil_texture is None,
    {
        FrameBufferBuilder { color_texture: None, depth_texture: None, stencil_texture: None }
    }

    pub fn attach_color(self, texture: &'a Texture) -> (r: Self)
        ensures
            r.color_texture == Some(texture),
            r.depth_texture == self.depth_texture,
            r.stencil_texture == self.stencil_texture,
    {
        FrameBufferBuilder { color_texture: Some(texture), ..self }
    }

    pub fn attach_depth(self, texture: &'a Texture) -> (r: Self)
        ensures
            r.color_texture == self.color_texture,
            r.depth_texture == Some(texture),
            r.stencil_texture == self.stencil_texture,
    {
        FrameBufferBuilder { depth_texture: Some(texture), ..self }
    }

    pub fn attach_stencil(self, texture: &'a Texture) -> (r: Self)
        ensures
            r.color_texture == self.color_texture,
            r.depth_texture == self.depth_texture,
            r.stencil_texture == Some(texture),
    {
        FrameBufferBuilder { stencil_texture: Some(texture), ..self }
    }

    /// All attached textures have one size.
    pub open spec fn sizes_match(&self) -> bool {
        &&& same_size(self.color_texture, self.depth_texture)
        &&& same_size(self.color_texture, self.stencil_texture)
        &&& same_size(self.depth_texture, self.stencil_texture)
    }

    /// Binds the new framebuffer `id` and attaches each texture; the device's
    /// completeness report is read after these.
    pub fn attachment_commands(&self, id: u32) -> (r: Vec<GlCommand>)
        ensures
            r@ == seq![GlCommand::BindFramebuffer { id }] + attach(
                Attachment::Color,
                self.color_texture,
            ) + attach(Attachment::Depth, self.depth_texture) + attach(
                Attachment::Stencil,
                self.stencil_texture,
            ),
    {
        let mut cmds = vec![GlCommand::BindFramebuffer { id }];
        if let Some(t) = self.color_texture {
            cmds.push(GlCommand::FramebufferTexture { attachment: Attachment::Color, texture: t.id.0 });
        }
        if let Some(t) = self.depth_texture {
            cmds.push(GlCommand::FramebufferTexture { attachment: Attachment::Depth, texture: t.id.0 });
        }
        if let Some(t) = self.stencil_texture {
            cmds.push(
                GlCommand::FramebufferTexture { attachment: Attachment::Stencil, texture: t.id.0 },
            );
        }
        assert(cmds@ =~= seq![GlCommand::BindFramebuffer { id }] + attach(
            Attachment::Color,
            self.color_texture,
        ) + attach(Attachment::Depth, self.depth_texture) + attach(
            Attachment::Stencil,
            self.stencil_texture,
        ));
        cmds
    }

    /// The framebuffer `id` the device created (0: none), once its attachments are
    /// made; `report` is the device's completeness answer. Attachments of
    /// different sizes are refused whatever the device reports. The commands
    /// returned, on success and on failure alike, make the default target current
    /// again; on failure they also delete the framebuffer, so nothing of it stays.
    pub fn build(self, id: u32, report: FrameBufferReport) -> (r: (Result<FrameBuffer, GLError>, Vec<GlCommand>))
        ensures
            match r.0 {
                Ok(fb) => id != 0 && self.sizes_match() && report is Complete && fb == (FrameBuffer {
                    id: FrameBufferId(id),
                    has_depth_buffer: self.depth_texture is Some,
                }),
                Err(e) => if id == 0 {
                    e is CouldNotCreateFrameBuffer
                } else if !self.sizes_match() {
                    e == GLError::IncompleteFrameBuffer(FrameBufferStatus::IncompleteAttachment)
                } else {
                    match report {
                        FrameBufferReport::Complete => false,
                        FrameBufferReport::Incomplete(reason) => e == GLError::IncompleteFrameBuffer(
                            reason,
                        ),
                        FrameBufferReport::Failed => e is CouldNotCreateFrameBuffer,
                    }
                },
            },
            r.1@ == finish_commands(id, r.0 is Ok),
    {
        if id == 0 {
            return (Err(GLError::CouldNotCreateFrameBuffer), Vec::new());
        }
        let failed = vec![GlCommand::BindFramebuffer { id: 0 }, GlCommand::DeleteFramebuffer { id }];
        if !(sizes_agree(self.color_texture, self.depth_texture) && sizes_agree(
            self.color_texture,
            self.stencil_texture,
        ) && sizes_agree(self.depth_texture, self.stencil_texture)) {
            return (
                Err(GLError::IncompleteFrameBuffer(FrameBufferStatus::IncompleteAttachment)),
                failed,
            );
        }
        match report {
            FrameBufferReport::Complete => (
                Ok(FrameBuffer { id: FrameBufferId(id), has_depth_buffer: self.depth_texture.is_some() }),
                vec![GlCommand::BindFramebuffer { id: 0 }],
            ),
            FrameBufferReport::Incomplete(reason) => (Err(GLError::IncompleteFrameBuffer(reason)), failed),
            FrameBufferReport::Failed => (Err(GLError::CouldNotCreateFrameBuffer), failed),
        }
    }
}

/// What finishes a framebuffer's creation: nothing when the device made none;
/// otherwise the default target again, and, on failure, the framebuffer deleted.
pub open spec fn finish_commands(id: u32, ok: bool) -> Seq<GlCommand> {
    if id == 0 {
        Seq::empty()
    } else if ok {
        seq![GlCommand::BindFramebuffer { id: 0 }]
    } else {
        seq![GlCommand::BindFramebuffer { id: 0 }, GlCommand::DeleteFramebuffer { id }]
    }
}

/// Framebuffer completeness by size: a color and a depth texture of different
/// sizes never build (refused as an incomplete attachment, whatever the device
/// reports), while equally sized ones build once the device reports completeness.
pub proof fn lemma_framebuffer_sizes(color: &Texture, depth: &Texture)
    ensures
        ({
            let b = FrameBufferBuilder {
                color_texture: Some(color),
                depth_texture: Some(depth),
                stencil_texture: None,
            };
            &&& (color.width != depth.width || color.height != depth.height) ==> !b.sizes_match()
            &&& (color.width == depth.width && color.height == depth.height) ==> b.sizes_match()
        }),
{
}

/// Creating a framebuffer makes it current only while its attachments are made:
/// once built, or once refused, the default target is current again.
pub proof fn lemma_build_restores_default(s: DeviceState, b: FrameBufferBuilder, id: u32, ok: bool)
    requires
        id != 0,
    ensures
        run(
            s,
            seq![GlCommand::BindFramebuffer { id }] + attach(Attachment::Color, b.color_texture)
                + attach(Attachment::Depth, b.depth_texture) + attach(
                Attachment::Stencil,
                b.stencil_texture,
            ) + finish_commands(id, ok),
        ).framebuffer == 0,
{
    let front = seq![GlCommand::BindFramebuffer { id }] + attach(Attachment::Color, b.color_texture)
        + attach(Attachment::Depth, b.depth_texture) + attach(Attachment::Stencil, b.stencil_texture);
    lemma_run_append(s, front, finish_commands(id, ok));
    reveal_with_fuel(run, 3);
}

} // verus!
