use vstd::prelude::*;
use vstd::utf8::{decode_utf8, valid_utf8};

use std::rc::Rc;

use crate::attributes::GPUIndex;
use crate::buffer::{attrib_command, AnyBuffer, Buffer, BufferKind, BufferView, UniformBuffer, VAOId};
use crate::device::{lemma_run_append, run, DeviceState, GlCommand};
use crate::error::GLError;
use crate::texture::Texture;
use crate::uniform::{LayoutLocation, Uniform};

verus! {

/// A linked program's identifier.
#[derive(Debug, Clone, Copy, PartialEq, Eq, Structural, Hash)]
pub struct ProgramId(pub u32);

/// A resolved attribute slot.
#[derive(Debug, Clone, Copy, PartialEq, Eq, Structural)]
pub struct AttributePos(pub u32);

/// Primitive topology of a draw.
#[derive(Debug, Clone, Copy, PartialEq, Eq, Structural)]
pub enum DrawMode {
    Tris,
    Points,
    Lines,
    LineStrip,
    TriStrip,
}

/// The longest attribute name, in bytes, that enumeration accepts.
pub const MAX_ATTRIBUTE_NAME_LENGTH: usize = 50;

/// The size of the buffer an enumerated name is written into. The device cuts
/// a name to one byte less than the buffer and reports the length it wrote, so a
/// name over the limit comes back with a length of one more than the limit.
pub const ATTRIBUTE_NAME_BUFFER_SIZE: usize = MAX_ATTRIBUTE_NAME_LENGTH + 2;

/// Name to slot, as a sequence of insertions: a later one replaces an earlier
/// one with the same name.
pub open spec fn slot_map(entries: Seq<(String, AttributePos)>) -> Map<Seq<char>, u32>
    decreases entries.len(),
{
    if entries.len() == 0 {
        Map::empty()
    } else {
        slot_map(entries.drop_last()).insert(entries.last().0@, entries.last().1.0)
    }
}

/// Entries that insert no name `k` leave the slot of `k` as it was.
proof fn lemma_slot_map_skip(entries: Seq<(String, AttributePos)>, i: int, k: Seq<char>)
    requires
        0 <= i <= entries.len(),
        forall|j: int| i <= j < entries.len() ==> entries[j].0@ != k,
    ensures
        slot_map(entries).contains_key(k) == slot_map(entries.take(i)).contains_key(k),
        slot_map(entries)[k] == slot_map(entries.take(i))[k],
    decreases entries.len(),
{
    if entries.len() == i {
        assert(entries.take(i) =~= entries);
    } else {
        lemma_slot_map_skip(entries.drop_last(), i, k);
        assert(entries.drop_last().take(i) =~= entries.take(i));
    }
}

/// The slots of a linked program's attributes, by name.
#[derive(Debug)]
pub struct AttributeTable {
    entries: Vec<(String, AttributePos)>,
}

impl View for AttributeTable {
    type V = Map<Seq<char>, u32>;

    closed spec fn view(&self) -> Map<Seq<char>, u32> {
        slot_map(self.entries@)
    }
}

impl AttributeTable {
    pub fn new() -> (r: Self)
        ensures
            r@ == Map::<Seq<char>, u32>::empty(),
    {
        AttributeTable { entries: Vec::new() }
    }

    /// Records `name` at `pos`, replacing an earlier slot of the same name.
    pub fn insert(&mut self, name: String, pos: AttributePos)
        ensures
            final(self)@ == old(self)@.insert(name@, pos.0),
    {
        let ghost before = self.entries@;
        self.entries.push((name, pos));
        assert(self.entries@.drop_last() =~= before);
    }

    /// The slot recorded for `name`.
    pub fn get(&self, name: &String) -> (r: Option<AttributePos>)
        ensures
            match r {
                Some(p) => self@.contains_key(name@) && self@[name@] == p.0,
                None => !self@.contains_key(name@),
            },
    {
        let mut i: usize = self.entries.len();
        while i > 0
            invariant
                i <= self.entries@.len(),
                forall|j: int| i <= j < self.entries@.len() ==> self.entries@[j].0@ != name@,
            decreases i,
        {
            if self.entries[i - 1].0 == *name {
                proof {
                    lemma_slot_map_skip(self.entries@, i as int, name@);
                    let t = self.entries@.take(i as int);
                    assert(t.drop_last() =~= self.entries@.take(i - 1));
                    assert(t.last() == self.entries@[i - 1]);
                }
                return Some(self.entries[i - 1].1);
            }
            i -= 1;
        }
        proof {
            lemma_slot_map_skip(self.entries@, 0, name@);
        }
        None
    }
}

/// The entries that a list of declared names and their device locations give.
pub open spec fn declared_entries(names: Seq<String>, locations: Seq<i32>) -> Seq<
    (String, AttributePos),
> {
    Seq::new(names.len(), |i: int| (names[i], AttributePos(#[verifier::truncate] (locations[i] as u32))))
}

/// The slots of the enumerated active attributes; a location of -1 (a name the
/// device does not place) records nothing.
pub open spec fn active_map(active: Seq<(String, i32)>) -> Map<Seq<char>, u32>
    decreases active.len(),
{
    if active.len() == 0 {
        Map::empty()
    } else {
        let m = active_map(active.drop_last());
        if active.last().1 == -1 {
            m
        } else {
            m.insert(active.last().0@, active.last().1 as u32)
        }
    }
}

/// `k` ends an attribute name in `buffer`: the first `k` bytes hold no NUL, and
/// byte `k` is NUL or the end.
pub open spec fn name_end(buffer: Seq<u8>, k: int) -> bool {
    &&& 0 <= k <= buffer.len()
    &&& forall|j: int| 0 <= j < k ==> buffer[j] != 0
    &&& k == buffer.len() || buffer[k] == 0
}

/// Relies on `String::from_utf8`: it succeeds exactly on valid UTF-8, and the
/// string holds the characters those bytes encode.
#[verifier::external_body]
fn utf8_string(bytes: Vec<u8>) -> (r: Option<String>)
    ensures
        match r {
            Some(s) => valid_utf8(bytes@) && s@ == decode_utf8(bytes@),
            None => !valid_utf8(bytes@),
        },
{
    String::from_utf8(bytes).ok()
}

impl AttributeTable {
    /// The table of enumerated active attributes, each with the location the
    /// device reported for it.
    pub fn from_active(active: Vec<(String, i32)>) -> (r: AttributeTable)
        ensures
            r@ == active_map(active@),
    {
        let mut table = AttributeTable::new();
        let mut i: usize = 0;
        while i < active.len()
            invariant
                i <= active@.len(),
                table@ == active_map(active@.take(i as int)),
            decreases active@.len() - i,
        {
            assert(active@.take(i + 1).drop_last() =~= active@.take(i as int));
            let (name, pos) = (active[i].0.clone(), active[i].1);
            if pos != -1 {
                table.insert(name, AttributePos(#[verifier::truncate] (pos as u32)));
            }
            i += 1;
        }
        assert(active@.take(i as int) =~= active@);
        table
    }
}

/// Checks the active-attribute count the device reported.
pub fn attribute_count(n_attributes: i32) -> (r: Result<usize, GLError>)
    ensures
        match r {
            Ok(n) => n_attributes >= 0 && n == n_attributes,
            Err(e) => n_attributes < 0 && e is CannotGetAttributeCountOnProgram,
        },
{
    if n_attributes < 0 {
        return Err(GLError::CannotGetAttributeCountOnProgram);
    }
    Ok(n_attributes as usize)
}

/// Decodes an enumerated attribute name: the bytes of `buffer` before the first
/// NUL, of a name whose reported `length` must not exceed the limit. With a
/// buffer of `ATTRIBUTE_NAME_BUFFER_SIZE` bytes, every name over the limit is
/// reported with a length over it, and refused.
pub fn decode_attribute_name(buffer: &[u8], length: i32) -> (r: Result<String, GLError>)
    ensures
        match r {
            Ok(s) => 0 <= length <= MAX_ATTRIBUTE_NAME_LENGTH && exists|k: int|
                name_end(buffer@, k) && valid_utf8(#[trigger] buffer@.take(k)) && s@ == decode_utf8(
                    buffer@.take(k),
                ),
            Err(e) => ((length < 0 || length > MAX_ATTRIBUTE_NAME_LENGTH) && e is AttributeNameTooLong)
                || (0 <= length <= MAX_ATTRIBUTE_NAME_LENGTH && exists|k: int|
                name_end(buffer@, k) && !valid_utf8(#[trigger] buffer@.take(k))
                && e is AttributeNameEncodingError),
        },
{
    if length < 0 || length as usize > MAX_ATTRIBUTE_NAME_LENGTH {
        return Err(GLError::AttributeNameTooLong);
    }
    let mut bytes: Vec<u8> = Vec::new();
    let mut k: usize = 0;
    while k < buffer.len() && buffer[k] != 0
        invariant
            k <= buffer@.len(),
            bytes@ == buffer@.take(k as int),
            forall|j: int| 0 <= j < k ==> buffer@[j] != 0,
        decreases buffer@.len() - k,
    {
        bytes.push(buffer[k]);
        assert(buffer@.take(k + 1) =~= buffer@.take(k as int).push(buffer@[k as int]));
        k += 1;
    }
    assert(name_end(buffer@, k as int));
    match utf8_string(bytes) {
        Some(s) => Ok(s),
        None => Err(GLError::AttributeNameEncodingError),
    }
}

/// Over-long names are refused: the device writes at most one byte less than
/// the name buffer and reports what it wrote, so a name over the limit is reported
/// with a length over the limit, which `decode_attribute_name` refuses.
pub proof fn lemma_long_names_refused(actual_length: int)
    requires
        actual_length > MAX_ATTRIBUTE_NAME_LENGTH,
    ensures
        ({
            let written = if actual_length < ATTRIBUTE_NAME_BUFFER_SIZE - 1 {
                actual_length
            } else {
                ATTRIBUTE_NAME_BUFFER_SIZE - 1
            };
            written > MAX_ATTRIBUTE_NAME_LENGTH
        }),
{
}

/// Resolves each declared name with the location the device gave it; the first
/// name at -1 is not declared by the program.
pub fn from_attribute_names(names: Vec<String>, locations: Vec<i32>) -> (r: Result<
    AttributeTable,
    GLError,
>)
    requires
        names@.len() == locations@.len(),
    ensures
        match r {
            Ok(t) => (forall|i: int| 0 <= i < locations@.len() ==> locations@[i] != -1) && t@
                == slot_map(declared_entries(names@, locations@)),
            Err(e) => exists|i: int|
                0 <= i < locations@.len() && #[trigger] locations@[i] == -1 && (forall|j: int|
                    0 <= j < i ==> locations@[j] != -1) && e
                    == GLError::InexistentOrUndeclaredAttribute(names@[i]),
        },
{
    let mut table = AttributeTable { entries: Vec::new() };
    assert(declared_entries(names@, locations@).take(0) =~= Seq::empty());
    let mut i: usize = 0;
    while i < names.len()
        invariant
            names@.len() == locations@.len(),
            i <= names@.len(),
            forall|j: int| 0 <= j < i ==> locations@[j] != -1,
            table.entries@ == declared_entries(names@, locations@).take(i as int),
        decreases names@.len() - i,
    {
        if locations[i] == -1 {
            return Err(GLError::InexistentOrUndeclaredAttribute(names[i].clone()));
        }
        table.entries.push((names[i].clone(), AttributePos(#[verifier::truncate] (locations[i] as u32))));
        assert(table.entries@ =~= declared_entries(names@, locations@).take(i + 1));
        i += 1;
    }
    assert(declared_entries(names@, locations@).take(i as int) =~= declared_entries(
        names@,
        locations@,
    ));
    Ok(table)
}

/// Relies on `Rc::clone`: another handle on the same table.
#[verifier::external_body]
fn share(table: &Rc<AttributeTable>) -> (r: Rc<AttributeTable>)
    ensures
        r == *table,
{
    Rc::clone(table)
}

/// A linked program with one vertex array object of its own. The attribute
/// table is shared, read only, by the programs duplicated from it.
#[derive(Debug)]
pub struct Program {
    pub id: ProgramId,
    pub has_geometry: bool,
    pub maybe_texture: Option<Texture>,
    pub indices: Option<AnyBuffer>,
    pub vao: VAOId,
    pub n_elems: Option<usize>,
    pub attributes_loc: Rc<AttributeTable>,
}

/// The vertex count after binding a view of `n` elements: the largest count
/// bound so far.
pub open spec fn widen(current: Option<usize>, n: usize) -> Option<usize> {
    match current {
        None => Some(n),
        Some(m) => Some(if m < n { n } else { m }),
    }
}

/// Select the program's VAO, point the slot at the view, enable it, deselect.
pub open spec fn bind_commands(vao: u32, view: BufferView, slot: u32) -> Seq<GlCommand> {
    seq![
        GlCommand::BindVertexArray { id: vao },
        GlCommand::BindBuffer { kind: BufferKind::ArrayBuffer, id: view.buffer_id.0 },
        attrib_command(view, slot),
        GlCommand::BindBuffer { kind: BufferKind::ArrayBuffer, id: 0 },
        GlCommand::EnableAttrib { slot },
        GlCommand::BindVertexArray { id: 0 },
    ]
}

/// Bind the attached texture to unit 0, if any.
pub open spec fn texture_on(t: Option<Texture>) -> Seq<GlCommand> {
    match t {
        Some(t) => seq![GlCommand::ActiveTexture0, GlCommand::BindTexture { id: t.id.0 }],
        None => Seq::empty(),
    }
}

/// Unbind the attached texture, if any.
pub open spec fn texture_off(t: Option<Texture>) -> Seq<GlCommand> {
    match t {
        Some(_) => seq![GlCommand::BindTexture { id: 0 }],
        None => Seq::empty(),
    }
}

/// A draw framed by the texture binding of the program.
pub open spec fn framed(p: Program, body: Seq<GlCommand>) -> Seq<GlCommand> {
    texture_on(p.maybe_texture) + body + texture_off(p.maybe_texture)
}

/// Draw `count` vertices from `first` with the program's VAO.
pub open spec fn arrays_commands(p: Program, first: usize, count: usize, mode: DrawMode) -> Seq<
    GlCommand,
> {
    framed(
        p,
        seq![
            GlCommand::BindVertexArray { id: p.vao.0 },
            GlCommand::DrawArrays { mode, first, count },
        ],
    )
}

/// Draw through the index buffer `ib`, every index of it, read with its own
/// scalar kind.
pub open spec fn elements_commands(p: Program, ib: AnyBuffer, mode: DrawMode) -> Seq<GlCommand> {
    framed(
        p,
        seq![
            GlCommand::BindVertexArray { id: p.vao.0 },
            GlCommand::BindBuffer { kind: BufferKind::IndexBuffer, id: ib.raw.id.0 },
            GlCommand::DrawElements { mode, count: ib.n_elems, index_type: ib.gpu_info.gl_type },
        ],
    )
}

/// What a draw of the program issues: indexed when an index buffer is attached,
/// otherwise every bound vertex from 0; nothing when no attribute was ever bound.
pub open spec fn draw_commands(p: Program, mode: DrawMode) -> Option<Seq<GlCommand>> {
    match p.indices {
        Some(ib) => Some(elements_commands(p, ib, mode)),
        None => match p.n_elems {
            Some(n) => Some(arrays_commands(p, 0, n, mode)),
            None => None,
        },
    }
}

impl Program {
    pub open spec fn attributes(self) -> Map<Seq<char>, u32> {
        (*self.attributes_loc)@
    }

    /// A linked program, from what the device reported: its identifier, the link
    /// log (present when linking failed), the attribute slots or the error met in
    /// resolving them, a fresh VAO identifier, and, for an attached texture, its
    /// sampler uniform's name and location. Failures are checked in that order.
    pub fn new(
        id: u32,
        link_log: Option<String>,
        attributes: Result<AttributeTable, GLError>,
        vao: u32,
        has_geometry: bool,
        texture: Option<(String, Texture, i32)>,
    ) -> (r: Result<(Self, Vec<GlCommand>), GLError>)
        ensures
            match r {
                Ok((p, cmds)) => {
                    &&& link_log is None
                    &&& attributes is Ok
                    &&& vao != 0
                    &&& p.id.0 == id
                    &&& p.vao.0 == vao
                    &&& p.has_geometry == has_geometry
                    &&& p.n_elems is None
                    &&& p.indices is None
                    &&& p.attributes() == attributes->Ok_0@
                    &&& match texture {
                        Some((_, t, loc)) => loc != -1 && p.maybe_texture == Some(t) && cmds@
                            == seq![
                            GlCommand::UseProgram { id },
                            GlCommand::Uniform1i { location: loc, value: 0 },
                        ],
                        None => p.maybe_texture is None && cmds@ == Seq::<GlCommand>::empty(),
                    }
                },
                Err(e) => if link_log is Some {
                    e == GLError::LinkProgram(link_log->Some_0)
                } else if attributes is Err {
                    e == attributes->Err_0
                } else if vao == 0 {
                    e is CouldNotCreateVAO
                } else {
                    texture is Some && texture->Some_0.2 == -1 && e == GLError::InexistentUniform(
                        texture->Some_0.0,
                    )
                },
            },
    {
        if let Some(msg) = link_log {
            return Err(GLError::LinkProgram(msg));
        }
        let table = match attributes {
            Ok(t) => t,
            Err(e) => return Err(e),
        };
        if vao == 0 {
            return Err(GLError::CouldNotCreateVAO);
        }
        let mut cmds: Vec<GlCommand> = Vec::new();
        let maybe_texture = match texture {
            Some((name, t, loc)) => {
                if loc == -1 {
                    return Err(GLError::InexistentUniform(name));
                }
                cmds.push(GlCommand::UseProgram { id });
                cmds.push(GlCommand::Uniform1i { location: loc, value: 0 });
                Some(t)
            },
            None => None,
        };
        let p = Program {
            id: ProgramId(id),
            has_geometry,
            maybe_texture,
            indices: None,
            vao: VAOId(vao),
            n_elems: None,
            attributes_loc: Rc::new(table),
        };
        Ok((p, cmds))
    }

    /// A program sharing this one's compiled program, texture and attribute
    /// table, with the fresh VAO `vao` and nothing bound.
    pub fn duplicate(&self, vao: u32) -> (r: Result<Self, GLError>)
        ensures
            match r {
                Ok(p) => vao != 0 && p.id == self.id && p.has_geometry == self.has_geometry
                    && p.maybe_texture == self.maybe_texture && p.vao.0 == vao
                    && p.attributes_loc == self.attributes_loc && p.n_elems is None
                    && p.indices is None,
                Err(e) => vao == 0 && e is CouldNotCreateVAO,
            },
    {
        if vao == 0 {
            return Err(GLError::CouldNotCreateVAO);
        }
        Ok(Program {
            id: self.id,
            has_geometry: self.has_geometry,
            maybe_texture: self.maybe_texture,
            vao: VAOId(vao),
            attributes_loc: share(&self.attributes_loc),
            n_elems: None,
            indices: None,
        })
    }

    /// Feeds the attribute `attribute` from `buffer_view`. A name the program does
    /// not declare is refused and changes nothing.
    pub fn bind(&mut self, attribute: &str, buffer_view: BufferView) -> (r: Result<
        Vec<GlCommand>,
        GLError,
    >)
        ensures
            match r {
                Ok(cmds) => old(self).attributes().contains_key(attribute@) && cmds@ == bind_commands(
                    old(self).vao.0,
                    buffer_view,
                    old(self).attributes()[attribute@],
                ) && *final(self) == (Program {
                    n_elems: widen(old(self).n_elems, buffer_view.n_elems),
                    ..*old(self)
                }),
                Err(e) => !old(self).attributes().contains_key(attribute@) && (e matches
                GLError::InexistentOrUndeclaredAttribute(n) && n@ == attribute@) && *final(self)
                    == *old(self),
            },
    {
        let name = attribute.to_owned();
        match self.attributes_loc.get(&name) {
            Some(pos) => {
                let mut cmds = vec![GlCommand::BindVertexArray { id: self.vao.0 }];
                let n = buffer_view.n_elems;
                let mut layout = buffer_view.bind_to(pos);
                cmds.append(&mut layout);
                cmds.push(GlCommand::EnableAttrib { slot: pos.0 });
                cmds.push(GlCommand::BindVertexArray { id: 0 });
                let widened = match self.n_elems {
                    None => Some(n),
                    Some(m) => Some(if m < n { n } else { m }),
                };
                self.n_elems = widened;
                assert(cmds@ =~= bind_commands(old(self).vao.0, buffer_view, pos.0));
                Ok(cmds)
            },
            None => Err(GLError::InexistentOrUndeclaredAttribute(name)),
        }
    }

    /// Attaches an index buffer: draws then go through it.
    pub fn set_indices<A: GPUIndex>(&mut self, indices: Buffer<A>)
        ensures
            *final(self) == (Program {
                indices: Some(
                    AnyBuffer { gpu_info: A::spec_info(), n_elems: indices.n_elems, raw: indices.raw },
                ),
                ..*old(self)
            }),
    {
        self.indices = Some(indices.to_untyped());
    }

    pub fn set_indices_untyped(&mut self, indices: AnyBuffer)
        ensures
            *final(self) == (Program { indices: Some(indices), ..*old(self) }),
    {
        self.indices = Some(indices);
    }

    /// Detaches the index buffer: draws then use the bound vertex count.
    pub fn clear_indices(&mut self)
        ensures
            *final(self) == (Program { indices: None, ..*old(self) }),
    {
        self.indices = None;
    }

    /// The uniform `uniform_name`, at the location the device reported for it.
    pub fn uniform<T: ?Sized>(&self, uniform_name: &str, location: i32) -> (r: Result<
        Uniform<T>,
        GLError,
    >)
        ensures
            match r {
                Ok(u) => location != -1 && u.program_id == self.id && u.location.0 == location,
                Err(e) => location == -1 && (e matches GLError::InexistentUniform(n) && n@
                    == uniform_name@),
            },
    {
        if location == -1 {
            return Err(GLError::InexistentUniform(uniform_name.to_owned()));
        }
        Ok(Uniform {
            program_id: self.id,
            location: LayoutLocation(location),
            phantom: std::marker::PhantomData,
        })
    }

    pub fn set_current(&self) -> (r: Vec<GlCommand>)
        ensures
            r@ == seq![GlCommand::UseProgram { id: self.id.0 }],
    {
        vec![GlCommand::UseProgram { id: self.id.0 }]
    }

    /// Associates the uniform block `name`, at the block index the device
    /// reported (none for an unknown block), with the binding point of
    /// `uniform_buffer`.
    pub fn bind_uniform<D>(&self, name: &str, block_index: Option<u32>, uniform_buffer: &UniformBuffer<
        D,
    >) -> (r: Result<Vec<GlCommand>, GLError>)
        ensures
            match r {
                Ok(cmds) => block_index is Some && cmds@ == seq![
                    GlCommand::UniformBlockBinding {
                        program: self.id.0,
                        block: block_index->Some_0,
                        binding_point: uniform_buffer.binding_point.0,
                    },
                ],
                Err(e) => block_index is None && (e matches GLError::InexistentUniformBuffer(n) && n@
                    == name@),
            },
    {
        match block_index {
            Some(block) => Ok(
                vec![
                    GlCommand::UniformBlockBinding {
                        program: self.id.0,
                        block,
                        binding_point: uniform_buffer.binding_point.0,
                    },
                ],
            ),
            None => Err(GLError::InexistentUniformBuffer(name.to_owned())),
        }
    }

    fn bind_texture(&self, cmds: &mut Vec<GlCommand>)
        ensures
            final(cmds)@ == old(cmds)@ + texture_on(self.maybe_texture),
    {
        if let Some(texture) = &self.maybe_texture {
            cmds.push(GlCommand::ActiveTexture0);
            cmds.push(GlCommand::BindTexture { id: texture.id.0 });
        }
        assert(cmds@ =~= old(cmds)@ + texture_on(self.maybe_texture));
    }

    fn unbind_texture(&self, cmds: &mut Vec<GlCommand>)
        ensures
            final(cmds)@ == old(cmds)@ + texture_off(self.maybe_texture),
    {
        if self.maybe_texture.is_some() {
            cmds.push(GlCommand::BindTexture { id: 0 });
        }
        assert(cmds@ =~= old(cmds)@ + texture_off(self.maybe_texture));
    }

    /// Draws: through the index buffer when one is attached, otherwise every
    /// vertex bound so far.
    pub fn draw_buffer(&self, mode: DrawMode) -> (r: Result<Vec<GlCommand>, GLError>)
        ensures
            match r {
                Ok(cmds) => draw_commands(*self, mode) == Some(cmds@),
                Err(e) => draw_commands(*self, mode) is None && e is NoBufferAttached,
            },
    {
        match &self.indices {
            Some(indices) => Ok(self.draw_indexed_buffer(indices, mode)),
            None => match self.n_elems {
                Some(n) => Ok(self.draw_buffer_partial(0, n, mode)),
                None => Err(GLError::NoBufferAttached),
            },
        }
    }

    fn draw_indexed_buffer(&self, indices: &AnyBuffer, mode: DrawMode) -> (r: Vec<GlCommand>)
        ensures
            r@ == elements_commands(*self, *indices, mode),
    {
        let mut cmds: Vec<GlCommand> = Vec::new();
        self.bind_texture(&mut cmds);
        cmds.push(GlCommand::BindVertexArray { id: self.vao.0 });
        cmds.push(GlCommand::BindBuffer { kind: BufferKind::IndexBuffer, id: indices.id().0 });
        cmds.push(
            GlCommand::DrawElements {
                mode,
                count: indices.n_elems,
                index_type: indices.gpu_info.gl_type,
            },
        );
        self.unbind_texture(&mut cmds);
        assert(cmds@ =~= elements_commands(*self, *indices, mode));
        cmds
    }

    fn draw_buffer_partial(&self, from: usize, how_many: usize, mode: DrawMode) -> (r: Vec<GlCommand>)
        ensures
            r@ == arrays_commands(*self, from, how_many, mode),
    {
        let mut cmds: Vec<GlCommand> = Vec::new();
        self.bind_texture(&mut cmds);
        cmds.push(GlCommand::BindVertexArray { id: self.vao.0 });
        cmds.push(GlCommand::DrawArrays { mode, first: from, count: how_many });
        self.unbind_texture(&mut cmds);
        assert(cmds@ =~= arrays_commands(*self, from, how_many, mode));
        cmds
    }

    /// Draws every `(start, count)` range in one batched call.
    pub fn draw_buffer_partial_multi<A>(&self, ranges: &[(usize, usize)], mode: DrawMode) -> (r: Vec<
        GlCommand,
    >)
        ensures
            exists|v: Vec<(usize, usize)>|
                #[trigger] v@ == ranges@ && r@ == framed(
                    *self,
                    seq![
                        GlCommand::BindVertexArray { id: self.vao.0 },
                        GlCommand::MultiDrawArrays { mode, ranges: v },
                    ],
                ),
    {
        let mut cmds: Vec<GlCommand> = Vec::new();
        self.bind_texture(&mut cmds);
        let v = vstd::slice::slice_to_vec(ranges);
        let ghost gv = v;
        cmds.push(GlCommand::BindVertexArray { id: self.vao.0 });
        cmds.push(GlCommand::MultiDrawArrays { mode, ranges: v });
        self.unbind_texture(&mut cmds);
        assert(cmds@ =~= framed(
            *self,
            seq![
                GlCommand::BindVertexArray { id: self.vao.0 },
                GlCommand::MultiDrawArrays { mode, ranges: gv },
            ],
        ));
        cmds
    }
}

/// Declared attributes resolve completely: when linking declares distinct names
/// and the device places each of them, every name has the slot the device gave
/// it, and a name outside the list has none, so that binding it is refused.
pub proof fn lemma_declared_attributes_resolve(
    names: Seq<String>,
    locations: Seq<i32>,
    other: Seq<char>,
)
    requires
        names.len() == locations.len(),
        forall|i: int| 0 <= i < locations.len() ==> locations[i] != -1,
        forall|i: int, j: int| 0 <= i < j < names.len() ==> names[i]@ != names[j]@,
        forall|i: int| 0 <= i < names.len() ==> names[i]@ != other,
    ensures
        forall|i: int|
            0 <= i < names.len() ==> slot_map(declared_entries(names, locations)).contains_key(
                #[trigger] names[i]@,
            ) && slot_map(declared_entries(names, locations))[names[i]@] == locations[i] as u32,
        !slot_map(declared_entries(names, locations)).contains_key(other),
{
    let entries = declared_entries(names, locations);
    assert forall|i: int| 0 <= i < names.len() implies slot_map(entries).contains_key(
        #[trigger] names[i]@,
    ) && slot_map(entries)[names[i]@] == locations[i] as u32 by {
        lemma_slot_map_skip(entries, i + 1, names[i]@);
        let t = entries.take(i + 1);
        assert(t.last() == entries[i]);
    }
    lemma_slot_map_skip(entries, 0, other);
}

/// A name has a slot only if some entry inserted it.
proof fn lemma_slot_map_keys(entries: Seq<(String, AttributePos)>, k: Seq<char>)
    requires
        slot_map(entries).contains_key(k),
    ensures
        exists|j: int| 0 <= j < entries.len() && (#[trigger] entries[j]).0@ == k,
    decreases entries.len(),
{
    if entries.last().0@ == k {
        assert(entries[entries.len() - 1].0@ == k);
    } else {
        lemma_slot_map_keys(entries.drop_last(), k);
        let j = choose|j: int| 0 <= j < entries.drop_last().len() && (#[trigger] entries.drop_last()[j]).0@ == k;
        assert(entries[j] == entries.drop_last()[j]);
    }
}

/// The resolved table is exactly the declared attributes: its names are the
/// declared ones, and when the device places distinct names at distinct valid
/// (non-negative) locations, their slots differ.
pub proof fn lemma_declared_table_exact(names: Seq<String>, locations: Seq<i32>)
    requires
        names.len() == locations.len(),
        forall|i: int| 0 <= i < locations.len() ==> locations[i] >= 0,
        forall|i: int, j: int| 0 <= i < j < names.len() ==> names[i]@ != names[j]@,
        forall|i: int, j: int| 0 <= i < j < locations.len() ==> locations[i] != locations[j],
    ensures
        forall|k: Seq<char>|
            #[trigger] slot_map(declared_entries(names, locations)).contains_key(k) <==> exists|i: int|
                0 <= i < names.len() && (#[trigger] names[i])@ == k,
        forall|i: int, j: int|
            0 <= i < j < names.len() ==> slot_map(declared_entries(names, locations))[#[trigger] names[i]@]
                != slot_map(declared_entries(names, locations))[#[trigger] names[j]@],
{
    let entries = declared_entries(names, locations);
    assert forall|k: Seq<char>| #[trigger] slot_map(entries).contains_key(k) <==> exists|i: int|
        0 <= i < names.len() && (#[trigger] names[i])@ == k by {
        if slot_map(entries).contains_key(k) {
            lemma_slot_map_keys(entries, k);
            let j = choose|j: int| 0 <= j < entries.len() && (#[trigger] entries[j]).0@ == k;
            assert(names[j]@ == k);
        }
        if exists|i: int| 0 <= i < names.len() && (#[trigger] names[i])@ == k {
            let i = choose|i: int| 0 <= i < names.len() && (#[trigger] names[i])@ == k;
            lemma_slot_map_skip(entries, i + 1, k);
            assert(entries.take(i + 1).last() == entries[i]);
        }
    }
    assert forall|i: int, j: int| 0 <= i < j < names.len() implies slot_map(entries)[#[trigger] names[i]@]
        != slot_map(entries)[#[trigger] names[j]@] by {
        lemma_slot_map_skip(entries, i + 1, names[i]@);
        assert(entries.take(i + 1).last() == entries[i]);
        lemma_slot_map_skip(entries, j + 1, names[j]@);
        assert(entries.take(j + 1).last() == entries[j]);
    }
}

/// The vertex count only grows: binding views of `a` then `b` elements onto a
/// program with nothing bound leaves the larger of the two, and a direct draw
/// then issues exactly that many vertices, from 0.
pub proof fn lemma_vertex_count_after_two_binds(p: Program, a: usize, b: usize, mode: DrawMode)
    requires
        p.n_elems is None,
        p.indices is None,
    ensures
        ({
            let q = Program { n_elems: widen(widen(p.n_elems, a), b), ..p };
            let m = if a < b { b } else { a };
            &&& q.n_elems == Some(m)
            &&& draw_commands(q, mode) == Some(arrays_commands(q, 0, m, mode))
        }),
{
}

/// Binding a view never lowers the vertex count, and never leaves it below the
/// view's own count.
pub proof fn lemma_widen_monotone(current: Option<usize>, n: usize)
    ensures
        widen(current, n) is Some,
        widen(current, n)->Some_0 >= n,
        current is Some ==> widen(current, n)->Some_0 >= current->Some_0,
{
}

/// Indexed before direct: with an index buffer attached, a draw goes through all
/// of its indices whatever the bound vertex count; once it is detached, a draw
/// issues the bound vertex count from 0.
pub proof fn lemma_indexed_then_direct(p: Program, ib: AnyBuffer, n: usize, mode: DrawMode)
    requires
        p.n_elems == Some(n),
    ensures
        ({
            let with = Program { indices: Some(ib), ..p };
            let without = Program { indices: None, ..p };
            &&& draw_commands(with, mode) == Some(elements_commands(with, ib, mode))
            &&& draw_commands(without, mode) == Some(arrays_commands(without, 0, n, mode))
        }),
{
}

/// No command of `cmds` selects the VAO `vao`.
pub open spec fn never_selects(cmds: Seq<GlCommand>, vao: u32) -> bool {
    forall|k: int| 0 <= k < cmds.len() ==> #[trigger] cmds[k] != (GlCommand::BindVertexArray { id: vao })
}

/// Duplicated programs are independent: when `p` and `q` share a compiled
/// program and its attribute table but not their VAO, a bind on `p` and the
/// draw that follows never select `q`'s VAO, and `p` draws its own vertex
/// count while `q` keeps drawing its own.
pub proof fn lemma_duplicates_independent(
    p: Program,
    q: Program,
    name: Seq<char>,
    view: BufferView,
    mode: DrawMode,
)
    requires
        p.id == q.id,
        p.attributes_loc == q.attributes_loc,
        p.vao != q.vao,
        q.vao.0 != 0,
        p.attributes().contains_key(name),
        p.indices is None,
        q.indices is None,
    ensures
        never_selects(bind_commands(p.vao.0, view, p.attributes()[name]), q.vao.0),
        ({
            let bound = Program { n_elems: widen(p.n_elems, view.n_elems), ..p };
            let n = widen(p.n_elems, view.n_elems)->Some_0;
            &&& draw_commands(bound, mode) == Some(arrays_commands(bound, 0, n, mode))
            &&& never_selects(arrays_commands(bound, 0, n, mode), q.vao.0)
        }),
        q.n_elems is Some ==> draw_commands(q, mode) == Some(
            arrays_commands(q, 0, q.n_elems->Some_0, mode),
        ),
{
    let bound = Program { n_elems: widen(p.n_elems, view.n_elems), ..p };
    let n = widen(p.n_elems, view.n_elems)->Some_0;
    let c = arrays_commands(bound, 0, n, mode);
    assert(c =~= texture_on(p.maybe_texture) + seq![
        GlCommand::BindVertexArray { id: p.vao.0 },
        GlCommand::DrawArrays { mode, first: 0, count: n },
    ] + texture_off(p.maybe_texture));
}

/// Binding an attribute changes what one slot of the program's own VAO reads,
/// to the view's buffer and layout, and nothing that any other VAO reads.
pub proof fn lemma_bind_touches_own_vao(s: DeviceState, vao: u32, view: BufferView, slot: u32)
    requires
        vao != 0,
    ensures
        run(s, bind_commands(vao, view, slot)).attribs == s.attribs.insert(
            (vao, slot),
            (view.buffer_id.0, attrib_command(view, slot)),
        ),
        forall|other: u32, k: u32|
            other != vao ==> run(s, bind_commands(vao, view, slot)).attribs.contains_key((other, k))
                == s.attribs.contains_key((other, k)) && run(s, bind_commands(vao, view, slot)).attribs[(
            other,
            k,
        )] == s.attribs[(other, k)],
{
    reveal_with_fuel(run, 7);
}

/// A draw leaves no texture bound when the program has one.
pub proof fn lemma_draw_unbinds_texture(s: DeviceState, p: Program, mode: DrawMode)
    requires
        p.maybe_texture is Some,
        draw_commands(p, mode) is Some,
    ensures
        run(s, draw_commands(p, mode)->Some_0).texture == 0,
{
    let body = match p.indices {
        Some(ib) => seq![
            GlCommand::BindVertexArray { id: p.vao.0 },
            GlCommand::BindBuffer { kind: BufferKind::IndexBuffer, id: ib.raw.id.0 },
            GlCommand::DrawElements { mode, count: ib.n_elems, index_type: ib.gpu_info.gl_type },
        ],
        None => seq![
            GlCommand::BindVertexArray { id: p.vao.0 },
            GlCommand::DrawArrays { mode, first: 0, count: p.n_elems->Some_0 },
        ],
    };
    let front = texture_on(p.maybe_texture) + body;
    assert(draw_commands(p, mode)->Some_0 == front + texture_off(p.maybe_texture));
    lemma_run_append(s, front, texture_off(p.maybe_texture));
    reveal_with_fuel(run, 2);
}

/// Binding an attribute leaves no VAO and no array buffer bound, from any state.
pub proof fn lemma_bind_deselects(s: DeviceState, vao: u32, view: BufferView, slot: u32)
    ensures
        run(s, bind_commands(vao, view, slot)).vao == 0,
        run(s, bind_commands(vao, view, slot)).array_buffer == 0,
{
    reveal_with_fuel(run, 7);
}

} // verus!
