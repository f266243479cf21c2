//! A checked binding layer over an immediate-mode graphics device: typed buffers
//! and their views, programs with resolved attribute slots, textures, framebuffers
//! and draw dispatch. Every operation that the device must perform is described as
//! a list of [`device::GlCommand`] values whose effect on the device's binding
//! state is stated and proved.
use vstd::prelude::*;

pub mod attributes;
pub mod buffer;
pub mod device;
pub mod error;
pub mod frame;
pub mod program;
pub mod texture;
pub mod uniform;
pub mod utils;

use crate::device::GlCommand;
use crate::frame::FrameBuffer;

verus! {

/// A uniform-block binding point.
#[derive(Debug, Clone, Copy, PartialEq, Eq, Structural)]
pub struct UniformBindingPoint(pub u32);

/// The process-wide handle to the device: the default render target and the
/// allocator of uniform-block binding points.
#[derive(Debug)]
pub struct GLWrap {
    pub next_free_uniform_binding_pt: UniformBindingPoint,
    pub default_framebuffer: FrameBuffer,
}

impl GLWrap {
    /// A fresh handle: binding points are allocated from 0, and the default
    /// framebuffer (identifier 0) has a depth buffer.
    pub fn new_from() -> (r: Self)
        ensures
            r.next_free_uniform_binding_pt.0 == 0,
            r.default_framebuffer == FrameBuffer::spec_default(),
    {
        GLWrap {
            next_free_uniform_binding_pt: UniformBindingPoint(0),
            default_framebuffer: FrameBuffer::default(),
        }
    }

    /// Hands out the next binding point; each one is handed out once.
    pub fn new_binding_point(&mut self) -> (r: UniformBindingPoint)
        requires
            old(self).next_free_uniform_binding_pt.0 < u32::MAX,
        ensures
            r == old(self).next_free_uniform_binding_pt,
            final(self).next_free_uniform_binding_pt.0 == r.0 + 1,
            final(self).default_framebuffer == old(self).default_framebuffer,
    {
        let id = self.next_free_uniform_binding_pt.0;
        self.next_free_uniform_binding_pt = UniformBindingPoint(id + 1);
        UniformBindingPoint(id)
    }

    /// Clears the color and the depth of the current target.
    pub fn clear(&self) -> (r: Vec<GlCommand>)
        ensures
            r@ == seq![GlCommand::ClearColor, GlCommand::ClearDepth],
    {
        vec![GlCommand::ClearColor, GlCommand::ClearDepth]
    }

    pub fn default_framebuffer(&self) -> (r: &FrameBuffer)
        ensures
            *r == self.default_framebuffer,
    {
        &self.default_framebuffer
    }
}

} // verus!
