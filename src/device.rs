//! The commands the binding layer hands to the device, and a model of the part of
//! the device's global state that they change: what is bound to each slot.
use vstd::prelude::*;

use crate::attributes::{GLType, GPUInfo};
use crate::buffer::{BufferKind, UpdateKind};
use crate::frame::Attachment;
use crate::program::DrawMode;
use crate::texture::{TexAxis, TexFormat};

verus! {

/// One device call, with plain values for its arguments. Data payloads (buffer
/// contents, pixels) are supplied by the caller that runs the command.
#[derive(Debug, Clone, PartialEq)]
pub enum GlCommand {
    BindBuffer { kind: BufferKind, id: u32 },
    BufferData { kind: BufferKind, size: usize, update: UpdateKind },
    BufferSubData { kind: BufferKind, offset: usize, size: usize },
    BindBufferBase { binding_point: u32, id: u32 },
    BindVertexArray { id: u32 },
    /// Float attribute layout for a slot.
    AttribPointer { slot: u32, info: GPUInfo, stride: usize, offset: usize },
    /// Integer attribute layout for a slot.
    AttribIPointer { slot: u32, info: GPUInfo, stride: usize, offset: usize },
    EnableAttrib { slot: u32 },
    ActiveTexture0,
    BindTexture { id: u32 },
    TexImage {
        storage: TexFormat,
        width: u32,
        height: u32,
        source: TexFormat,
        pixel: GLType,
        with_data: bool,
    },
    DefaultSampling,
    SetWrap { axis: TexAxis, clamp: bool },
    DrawArrays { mode: DrawMode, first: usize, count: usize },
    DrawElements { mode: DrawMode, count: usize, index_type: GLType },
    MultiDrawArrays { mode: DrawMode, ranges: Vec<(usize, usize)> },
    UseProgram { id: u32 },
    Uniform1i { location: i32, value: i32 },
    UniformBlockBinding { program: u32, block: u32, binding_point: u32 },
    BindFramebuffer { id: u32 },
    DeleteFramebuffer { id: u32 },
    FramebufferTexture { attachment: Attachment, texture: u32 },
    ClearColor,
    ClearDepth,
}

/// What is bound to each of the device's global slots (0: nothing).
pub struct DeviceState {
    pub array_buffer: u32,
    pub index_buffer: u32,
    pub uniform_buffer: u32,
    pub vao: u32,
    pub texture: u32,
    pub program: u32,
    pub framebuffer: u32,
    /// What each slot of each VAO reads: the array buffer bound when its layout
    /// was set, and that layout command.
    pub attribs: Map<(u32, u32), (u32, GlCommand)>,
}

impl DeviceState {
    pub open spec fn buffer(self, kind: BufferKind) -> u32 {
        match kind {
            BufferKind::ArrayBuffer => self.array_buffer,
            BufferKind::IndexBuffer => self.index_buffer,
            BufferKind::UniformBuffer => self.uniform_buffer,
        }
    }
}

/// The state after one command.
pub open spec fn step(s: DeviceState, c: GlCommand) -> DeviceState {
    match c {
        GlCommand::BindBuffer { kind, id } => match kind {
            BufferKind::ArrayBuffer => DeviceState { array_buffer: id, ..s },
            BufferKind::IndexBuffer => DeviceState { index_buffer: id, ..s },
            BufferKind::UniformBuffer => DeviceState { uniform_buffer: id, ..s },
        },
        GlCommand::BindVertexArray { id } => DeviceState { vao: id, ..s },
        GlCommand::BindTexture { id } => DeviceState { texture: id, ..s },
        GlCommand::UseProgram { id } => DeviceState { program: id, ..s },
        GlCommand::BindFramebuffer { id } => DeviceState { framebuffer: id, ..s },
        GlCommand::AttribPointer { slot, .. } | GlCommand::AttribIPointer { slot, .. } => if s.vao
            != 0 {
            DeviceState { attribs: s.attribs.insert((s.vao, slot), (s.array_buffer, c)), ..s }
        } else {
            s
        },
        _ => s,
    }
}

/// The state after a sequence of commands, run in order.
pub open spec fn run(s: DeviceState, cs: Seq<GlCommand>) -> DeviceState
    decreases cs.len(),
{
    if cs.len() == 0 {
        s
    } else {
        run(step(s, cs[0]), cs.drop_first())
    }
}

/// Running two sequences one after the other is running their concatenation.
pub proof fn lemma_run_append(s: DeviceState, a: Seq<GlCommand>, b: Seq<GlCommand>)
    ensures
        run(s, a + b) == run(run(s, a), b),
    decreases a.len(),
{
    if a.len() == 0 {
        assert(a + b =~= b);
    } else {
        assert((a + b).drop_first() =~= a.drop_first() + b);
        lemma_run_append(step(s, a[0]), a.drop_first(), b);
    }
}

/// The last binding of a buffer slot decides what stays bound there: a command
/// list that ends by binding 0 to a kind leaves no buffer of that kind bound.
pub proof fn lemma_ends_unbound(s: DeviceState, cs: Seq<GlCommand>, kind: BufferKind)
    requires
        cs.len() > 0,
        cs.last() == (GlCommand::BindBuffer { kind, id: 0 }),
    ensures
        run(s, cs).buffer(kind) == 0,
{
    assert(cs.drop_last() + seq![cs.last()] =~= cs);
    lemma_run_append(s, cs.drop_last(), seq![cs.last()]);
    reveal_with_fuel(run, 2);
}

} // verus!
