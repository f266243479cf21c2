use vstd::prelude::*;

use crate::attributes::{GPUData, GPUInfo};
use crate::device::{run, DeviceState, GlCommand};
use crate::error::GLError;
use crate::program::AttributePos;
use crate::{GLWrap, UniformBindingPoint};

verus! {

/// A buffer identifier assigned by the device.
#[derive(Debug, Clone, Copy, PartialEq, Eq, Structural)]
pub struct BufferId(pub u32);

/// A vertex-array-object identifier assigned by the device.
#[derive(Debug, Clone, Copy, PartialEq, Eq, Structural, Hash)]
pub struct VAOId(pub u32);

#[derive(Debug, Clone, Copy, PartialEq, Eq, Structural)]
pub enum BufferKind {
    ArrayBuffer,
    IndexBuffer,
    UniformBuffer,
}

/// How often the contents of a buffer are expected to change.
#[derive(Debug, Clone, Copy, PartialEq, Eq, Structural)]
pub enum UpdateKind {
    Dynamic,
    Static,
}

/// Chooses the kind and update policy of a buffer before its data is given.
#[derive(Debug)]
pub struct BufferBld {
    pub kind: BufferKind,
    pub update: UpdateKind,
}

/// Bind the buffer, hand it its data, unbind.
pub open spec fn upload_commands(kind: BufferKind, id: u32, size: nat, update: UpdateKind) -> Seq<
    GlCommand,
> {
    seq![
        GlCommand::BindBuffer { kind, id },
        GlCommand::BufferData { kind, size: size as usize, update },
        GlCommand::BindBuffer { kind, id: 0 },
    ]
}

impl BufferBld {
    pub fn array() -> (r: Self)
        ensures
            r.kind == BufferKind::ArrayBuffer,
            r.update == UpdateKind::Static,
    {
        BufferBld { kind: BufferKind::ArrayBuffer, update: UpdateKind::Static }
    }

    pub fn indices() -> (r: Self)
        ensures
            r.kind == BufferKind::IndexBuffer,
            r.update == UpdateKind::Static,
    {
        BufferBld { kind: BufferKind::IndexBuffer, update: UpdateKind::Static }
    }

    pub fn uniform() -> (r: Self)
        ensures
            r.kind == BufferKind::UniformBuffer,
            r.update == UpdateKind::Static,
    {
        BufferBld { kind: BufferKind::UniformBuffer, update: UpdateKind::Static }
    }

    pub fn static_draw(self) -> (r: Self)
        ensures
            r.kind == self.kind,
            r.update == UpdateKind::Static,
    {
        BufferBld { kind: self.kind, update: UpdateKind::Static }
    }

    pub fn dynamic(self) -> (r: Self)
        ensures
            r.kind == self.kind,
            r.update == UpdateKind::Dynamic,
    {
        BufferBld { kind: self.kind, update: UpdateKind::Dynamic }
    }

    /// A typed buffer holding `data`, on the identifier `id` that the device gave.
    /// On success the commands upload exactly `data.len()` elements.
    pub fn data<A>(self, data: &[A], id: u32) -> (r: Result<(Buffer<A>, Vec<GlCommand>), GLError>)
        requires
            data@.len() * size_of::<A>() <= usize::MAX,
        ensures
            match r {
                Ok((b, cmds)) => id != 0 && b.raw == (RawBuffer { id: BufferId(id), kind: self.kind })
                    && b.n_elems == data@.len() && cmds@ == upload_commands(
                    self.kind,
                    id,
                    (data@.len() * size_of::<A>()) as nat,
                    self.update,
                ),
                Err(e) => id == 0 && e is CouldNotCreateBuffer,
            },
    {
        let n_elems = data.len();
        let (raw, cmds) = self.data_raw(data, id)?;
        Ok((Buffer { raw, n_elems, _phantom: std::marker::PhantomData }, cmds))
    }

    /// An untyped buffer holding `data`, described by `n_elems` and `gpu_info`.
    pub fn data_any<A>(self, data: &[A], n_elems: usize, gpu_info: GPUInfo, id: u32) -> (r: Result<
        (AnyBuffer, Vec<GlCommand>),
        GLError,
    >)
        requires
            data@.len() * size_of::<A>() <= usize::MAX,
        ensures
            match r {
                Ok((b, cmds)) => id != 0 && b.raw == (RawBuffer { id: BufferId(id), kind: self.kind })
                    && b.n_elems == n_elems && b.gpu_info == gpu_info && cmds@ == upload_commands(
                    self.kind,
                    id,
                    (data@.len() * size_of::<A>()) as nat,
                    self.update,
                ),
                Err(e) => id == 0 && e is CouldNotCreateBuffer,
            },
    {
        let (raw, cmds) = self.data_raw(data, id)?;
        Ok((AnyBuffer { gpu_info, n_elems, raw }, cmds))
    }

    pub fn data_raw<A>(self, data: &[A], id: u32) -> (r: Result<(RawBuffer, Vec<GlCommand>), GLError>)
        requires
            data@.len() * size_of::<A>() <= usize::MAX,
        ensures
            match r {
                Ok((b, cmds)) => id != 0 && b == (RawBuffer { id: BufferId(id), kind: self.kind })
                    && cmds@ == upload_commands(
                    self.kind,
                    id,
                    (data@.len() * size_of::<A>()) as nat,
                    self.update,
                ),
                Err(e) => id == 0 && e is CouldNotCreateBuffer,
            },
    {
        let size = data.len() * core::mem::size_of::<A>();
        RawBuffer::from_data(self.update, self.kind, id, size)
    }
}

/// A device buffer of some kind.
#[derive(Debug, Clone, Copy, PartialEq, Eq, Structural)]
pub struct RawBuffer {
    pub id: BufferId,
    pub kind: BufferKind,
}

impl RawBuffer {
    /// Checks the identifier the device gave and describes the upload of `size`
    /// bytes, which leaves no buffer of `kind` bound.
    fn from_data(update: UpdateKind, kind: BufferKind, id: u32, size: usize) -> (r: Result<
        (Self, Vec<GlCommand>),
        GLError,
    >)
        ensures
            match r {
                Ok((b, cmds)) => id != 0 && b == (RawBuffer { id: BufferId(id), kind }) && cmds@
                    == upload_commands(kind, id, size as nat, update),
                Err(e) => id == 0 && e is CouldNotCreateBuffer,
            },
    {
        if id == 0 {
            return Err(GLError::CouldNotCreateBuffer);
        }
        let cmds = vec![
            GlCommand::BindBuffer { kind, id },
            GlCommand::BufferData { kind, size, update },
            GlCommand::BindBuffer { kind, id: 0 },
        ];
        assert(cmds@ == upload_commands(kind, id, size as nat, update));
        Ok((RawBuffer { id: BufferId(id), kind }, cmds))
    }

    /// A view of `n_elems` elements; no stride means tightly packed (0).
    pub fn view(&self, n_elems: usize, stride: Option<usize>, offset: usize, gpu_type: GPUInfo) -> (r:
        BufferView)
        ensures
            r == (BufferView {
                buffer_id: self.id,
                n_elems,
                stride: match stride {
                    Some(s) => s,
                    None => 0,
                },
                offset,
                data_info: gpu_type,
            }),
    {
        let stride = match stride {
            Some(s) => s,
            None => 0,
        };
        BufferView { buffer_id: self.id, n_elems, stride, offset, data_info: gpu_type }
    }

    pub fn as_typed<A>(self, n_elems: usize) -> (r: Buffer<A>)
        ensures
            r.raw == self,
            r.n_elems == n_elems,
    {
        Buffer { raw: self, n_elems, _phantom: std::marker::PhantomData }
    }

    pub fn as_any_typed(self, n_elems: usize, gpu_type: GPUInfo) -> (r: AnyBuffer)
        ensures
            r.raw == self,
            r.n_elems == n_elems,
            r.gpu_info == gpu_type,
    {
        AnyBuffer { gpu_info: gpu_type, n_elems, raw: self }
    }
}

/// A buffer whose element layout is only known at run time.
#[derive(Debug, Clone, Copy)]
pub struct AnyBuffer {
    pub gpu_info: GPUInfo,
    pub n_elems: usize,
    pub raw: RawBuffer,
}

impl AnyBuffer {
    pub fn id(&self) -> (r: BufferId)
        ensures
            r == self.raw.id,
    {
        self.raw.id
    }

    pub fn kind(&self) -> (r: BufferKind)
        ensures
            r == self.raw.kind,
    {
        self.raw.kind
    }
}

/// A buffer of `n_elems` values of type `A`; the device holds
/// `n_elems * size_of::<A>()` bytes for it.
#[derive(Debug)]
pub struct Buffer<A> {
    pub raw: RawBuffer,
    pub n_elems: usize,
    pub _phantom: std::marker::PhantomData<A>,
}

impl<A: GPUData> Buffer<A> {
    /// Forgets the element type, keeping its layout descriptor.
    pub fn to_untyped(self) -> (r: AnyBuffer)
        ensures
            r.raw == self.raw,
            r.n_elems == self.n_elems,
            r.gpu_info == A::spec_info(),
    {
        AnyBuffer { gpu_info: A::info(), n_elems: self.n_elems, raw: self.raw }
    }

    /// A view of the whole buffer: offset 0, stride 0 (tightly packed), the
    /// element type's own layout.
    pub fn direct_view(&self) -> (r: BufferView)
        ensures
            r == (BufferView {
                buffer_id: self.raw.id,
                n_elems: self.n_elems,
                stride: 0,
                offset: 0,
                data_info: A::spec_info(),
            }),
    {
        BufferView {
            buffer_id: self.raw.id,
            n_elems: self.n_elems,
            stride: 0,
            offset: 0,
            data_info: A::info(),
        }
    }

    /// A view of the elements `range.start .. range.end` only.
    pub fn view_range(&self, range: std::ops::Range<usize>) -> (r: BufferView)
        requires
            range.start <= range.end <= self.n_elems,
            range.start * size_of::<A>() <= usize::MAX,
        ensures
            r == (BufferView {
                buffer_id: self.raw.id,
                n_elems: (range.end - range.start) as usize,
                stride: size_of::<A>() as usize,
                offset: (range.start * size_of::<A>()) as usize,
                data_info: A::spec_info(),
            }),
    {
        let stride = core::mem::size_of::<A>();
        BufferView {
            buffer_id: self.raw.id,
            n_elems: range.end - range.start,
            stride,
            offset: range.start * stride,
            data_info: A::info(),
        }
    }
}

impl<A> Buffer<A> {
    /// Forgets the element type, with the layout descriptor given for it.
    pub fn to_untyped_as(self, info: GPUInfo) -> (r: AnyBuffer)
        ensures
            r.raw == self.raw,
            r.n_elems == self.n_elems,
            r.gpu_info == info,
    {
        AnyBuffer { gpu_info: info, n_elems: self.n_elems, raw: self.raw }
    }

    /// A view of the whole buffer, tightly packed, with the layout given for its
    /// elements.
    pub fn direct_view_as(&self, info: GPUInfo) -> (r: BufferView)
        ensures
            r == (BufferView {
                buffer_id: self.raw.id,
                n_elems: self.n_elems,
                stride: 0,
                offset: 0,
                data_info: info,
            }),
    {
        BufferView { buffer_id: self.raw.id, n_elems: self.n_elems, stride: 0, offset: 0, data_info: info }
    }

    /// A view of the elements `range.start .. range.end` only, with the layout
    /// given for its elements.
    pub fn view_range_as(&self, range: std::ops::Range<usize>, info: GPUInfo) -> (r: BufferView)
        requires
            range.start <= range.end <= self.n_elems,
            range.start * size_of::<A>() <= usize::MAX,
        ensures
            r == (BufferView {
                buffer_id: self.raw.id,
                n_elems: (range.end - range.start) as usize,
                stride: size_of::<A>() as usize,
                offset: (range.start * size_of::<A>()) as usize,
                data_info: info,
            }),
    {
        let stride = core::mem::size_of::<A>();
        BufferView {
            buffer_id: self.raw.id,
            n_elems: range.end - range.start,
            stride,
            offset: range.start * stride,
            data_info: info,
        }
    }
}

impl<A> Buffer<A> {
    /// Reads the same device bytes as `n_elems` values of `B`; fails when they
    /// would need more bytes than the buffer holds.
    pub fn interpret_as<B>(self, n_elems: usize) -> (r: Result<Buffer<B>, GLError>)
        ensures
            match r {
                Ok(b) => self.n_elems * size_of::<A>() >= n_elems * size_of::<B>() && b.raw == self.raw
                    && b.n_elems == n_elems,
                Err(e) => self.n_elems * size_of::<A>() < n_elems * size_of::<B>()
                    && e is BufferTooSmallForConversion,
            },
    {
        proof {
            lemma_usize_product_fits(self.n_elems as int, size_of::<A>() as int);
            lemma_usize_product_fits(n_elems as int, size_of::<B>() as int);
        }
        let have = (self.n_elems as u128) * (core::mem::size_of::<A>() as u128);
        let need = (n_elems as u128) * (core::mem::size_of::<B>() as u128);
        if have < need {
            return Err(GLError::BufferTooSmallForConversion);
        }
        Ok(Buffer { raw: self.raw, n_elems, _phantom: std::marker::PhantomData })
    }

    /// Replaces the bytes from `offset` on with `data`; leaves no buffer of this
    /// kind bound.
    pub fn replace_data(&self, offset: usize, data: &[A]) -> (r: Vec<GlCommand>)
        requires
            data@.len() * size_of::<A>() <= usize::MAX,
        ensures
            r@ == seq![
                GlCommand::BindBuffer { kind: self.raw.kind, id: self.raw.id.0 },
                GlCommand::BufferSubData {
                    kind: self.raw.kind,
                    offset,
                    size: (data@.len() * size_of::<A>()) as usize,
                },
                GlCommand::BindBuffer { kind: self.raw.kind, id: 0 },
            ],
    {
        let kind = self.raw.kind;
        let size = data.len() * core::mem::size_of::<A>();
        vec![
            GlCommand::BindBuffer { kind, id: self.raw.id.0 },
            GlCommand::BufferSubData { kind, offset, size },
            GlCommand::BindBuffer { kind, id: 0 },
        ]
    }

    /// A view of one field of every element: the field, of type `B`, lies
    /// `offset` bytes into each element, and the stride is the element size.
    pub fn view<B: GPUData>(&self, offset: usize) -> (r: BufferView)
        requires
            offset + size_of::<B>() <= size_of::<A>(),
        ensures
            r == (BufferView {
                buffer_id: self.raw.id,
                n_elems: self.n_elems,
                stride: size_of::<A>() as usize,
                offset,
                data_info: B::spec_info(),
            }),
    {
        BufferView {
            buffer_id: self.raw.id,
            n_elems: self.n_elems,
            stride: core::mem::size_of::<A>(),
            offset,
            data_info: B::info(),
        }
    }

    /// Gives a uniform buffer the next free binding point of `gl`.
    pub fn register(self, gl: &mut GLWrap) -> (r: Result<(UniformBuffer<A>, Vec<GlCommand>), GLError>)
        requires
            old(gl).next_free_uniform_binding_pt.0 < u32::MAX,
        ensures
            match r {
                Err(e) => !(self.raw.kind is UniformBuffer) && e is IsntUniformBuffer && *final(gl)
                    == *old(gl),
                Ok(_) => self.raw.kind is UniformBuffer,
            },
            r matches Ok((u, cmds)) ==> {
                let pt = old(gl).next_free_uniform_binding_pt.0;
                &&& u.buffer == self
                &&& u.binding_point.0 == pt
                &&& final(gl).next_free_uniform_binding_pt.0 == pt + 1
                &&& final(gl).default_framebuffer == old(gl).default_framebuffer
                &&& cmds@ == seq![
                    GlCommand::BindBuffer { kind: BufferKind::UniformBuffer, id: self.raw.id.0 },
                    GlCommand::BindBufferBase { binding_point: pt, id: self.raw.id.0 },
                    GlCommand::BindBuffer { kind: BufferKind::UniformBuffer, id: 0 },
                ]
            },
    {
        if self.raw.kind != BufferKind::UniformBuffer {
            return Err(GLError::IsntUniformBuffer);
        }
        let binding_point = gl.new_binding_point();
        let id = self.raw.id.0;
        let cmds = vec![
            GlCommand::BindBuffer { kind: BufferKind::UniformBuffer, id },
            GlCommand::BindBufferBase { binding_point: binding_point.0, id },
            GlCommand::BindBuffer { kind: BufferKind::UniformBuffer, id: 0 },
        ];
        Ok((UniformBuffer { buffer: self, binding_point }, cmds))
    }
}

/// Two values of `usize` multiply without leaving `u128`.
proof fn lemma_usize_product_fits(a: int, b: int)
    requires
        0 <= a <= usize::MAX,
        0 <= b <= usize::MAX,
    ensures
        a * b <= u128::MAX,
{
    assert(usize::MAX <= u64::MAX);
    assert(a * b <= u64::MAX * u64::MAX) by (nonlinear_arith)
        requires
            0 <= a <= u64::MAX,
            0 <= b <= u64::MAX,
    ;
}

/// A bindable column of a buffer: `n_elems` values laid out as `data_info`, the
/// first at byte `offset`, each `stride` bytes after the previous one.
#[derive(Debug, Clone, Copy, PartialEq, Eq, Structural)]
pub struct BufferView {
    pub buffer_id: BufferId,
    pub n_elems: usize,
    pub stride: usize,
    pub offset: usize,
    pub data_info: GPUInfo,
}

/// The attribute-layout command for a view at `slot`: the integer form for
/// integer scalar kinds, the float form otherwise.
pub open spec fn attrib_command(v: BufferView, slot: u32) -> GlCommand {
    if v.data_info.gl_type.spec_is_integer() {
        GlCommand::AttribIPointer { slot, info: v.data_info, stride: v.stride, offset: v.offset }
    } else {
        GlCommand::AttribPointer { slot, info: v.data_info, stride: v.stride, offset: v.offset }
    }
}

impl BufferView {
    pub fn new(buffer_id: BufferId, n_elems: usize, stride: usize, offset: usize, data_info: GPUInfo) -> (r:
        Self)
        ensures
            r == (BufferView { buffer_id, n_elems, stride, offset, data_info }),
    {
        BufferView { buffer_id, stride, offset, data_info, n_elems }
    }

    /// Points attribute slot `pos` at this view, leaving no array buffer bound.
    pub fn bind_to(self, pos: AttributePos) -> (r: Vec<GlCommand>)
        ensures
            r@ == seq![
                GlCommand::BindBuffer { kind: BufferKind::ArrayBuffer, id: self.buffer_id.0 },
                attrib_command(self, pos.0),
                GlCommand::BindBuffer { kind: BufferKind::ArrayBuffer, id: 0 },
            ],
    {
        let layout = if self.data_info.gl_type.is_integer() {
            GlCommand::AttribIPointer {
                slot: pos.0,
                info: self.data_info,
                stride: self.stride,
                offset: self.offset,
            }
        } else {
            GlCommand::AttribPointer {
                slot: pos.0,
                info: self.data_info,
                stride: self.stride,
                offset: self.offset,
            }
        };
        vec![
            GlCommand::BindBuffer { kind: BufferKind::ArrayBuffer, id: self.buffer_id.0 },
            layout,
            GlCommand::BindBuffer { kind: BufferKind::ArrayBuffer, id: 0 },
        ]
    }
}

/// A uniform buffer with the binding point it was registered on.
pub struct UniformBuffer<D> {
    pub buffer: Buffer<D>,
    pub binding_point: UniformBindingPoint,
}

/// A value that names a binding point.
pub trait BindingPoint {
    fn to_int(&self) -> u32;
}

/// Elements laid end to end, as the device holds them.
pub open spec fn flatten(elems: Seq<Seq<u8>>) -> Seq<u8>
    decreases elems.len(),
{
    if elems.len() == 0 {
        Seq::empty()
    } else {
        flatten(elems.drop_last()) + elems.last()
    }
}

proof fn lemma_flatten_element(elems: Seq<Seq<u8>>, stride: int, i: int)
    requires
        stride >= 0,
        forall|j: int| 0 <= j < elems.len() ==> (#[trigger] elems[j]).len() == stride,
        0 <= i < elems.len(),
    ensures
        flatten(elems).len() == elems.len() * stride,
        flatten(elems).subrange(i * stride, i * stride + stride) == elems[i],
    decreases elems.len(),
{
    let n = elems.len();
    let front = elems.drop_last();
    if i < n - 1 {
        lemma_flatten_element(front, stride, i);
        assert(i * stride + stride <= (n - 1) * stride) by (nonlinear_arith)
            requires
                0 <= i < n - 1,
                stride >= 0,
        ;
        assert(flatten(elems).subrange(i * stride, i * stride + stride) =~= flatten(front).subrange(
            i * stride,
            i * stride + stride,
        ));
    } else {
        if n > 1 {
            lemma_flatten_element(front, stride, 0);
        }
        assert(flatten(front).len() == (n - 1) * stride);
        assert(i * stride == (n - 1) * stride);
        assert(flatten(elems).subrange(i * stride, i * stride + stride) =~= elems.last());
    }
    assert(n * stride == (n - 1) * stride + stride) by (nonlinear_arith);
}

/// A field view reads each element's field, whatever the elements hold: in a
/// buffer of elements of `v.stride` bytes each, the `size` bytes that a view
/// with offset `v.offset` reads for element `i` are bytes `v.offset ..
/// v.offset + size` of element `i`. `Buffer::view` makes such views, with the
/// element size as stride and a field that ends within the element.
pub proof fn lemma_field_view_reads_field(elems: Seq<Seq<u8>>, v: BufferView, size: int, i: int)
    requires
        0 <= size,
        v.offset + size <= v.stride,
        forall|j: int| 0 <= j < elems.len() ==> (#[trigger] elems[j]).len() == v.stride,
        0 <= i < elems.len(),
    ensures
        flatten(elems).subrange(i * v.stride + v.offset, i * v.stride + v.offset + size)
            == elems[i].subrange(v.offset as int, v.offset + size),
{
    let stride = v.stride as int;
    lemma_flatten_element(elems, stride, i);
    let n = elems.len() as int;
    assert(i * stride + stride <= n * stride) by (nonlinear_arith)
        requires
            0 <= i < n,
            stride >= 0,
    ;
    assert(0 <= i * stride) by (nonlinear_arith)
        requires
            0 <= i,
            stride >= 0,
    ;
    let whole = flatten(elems).subrange(i * stride, i * stride + stride);
    assert(flatten(elems).subrange(i * stride + v.offset, i * stride + v.offset + size) =~= whole.subrange(
        v.offset as int,
        v.offset + size,
    ));
}

/// Creating a buffer leaves no buffer of its kind bound, from any state.
pub proof fn lemma_upload_unbinds(s: DeviceState, kind: BufferKind, id: u32, size: nat, update: UpdateKind)
    ensures
        run(s, upload_commands(kind, id, size, update)).buffer(kind) == 0,
{
    reveal_with_fuel(run, 4);
}

/// Pointing a slot at a view leaves no array buffer bound, from any state.
pub proof fn lemma_bind_to_unbinds(s: DeviceState, v: BufferView, slot: u32)
    ensures
        run(
            s,
            seq![
                GlCommand::BindBuffer { kind: BufferKind::ArrayBuffer, id: v.buffer_id.0 },
                attrib_command(v, slot),
                GlCommand::BindBuffer { kind: BufferKind::ArrayBuffer, id: 0 },
            ],
        ).array_buffer == 0,
{
    reveal_with_fuel(run, 4);
}

} // verus!
