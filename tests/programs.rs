use glwrap::attributes::{GLType, GPUInfo};
use glwrap::buffer::{BufferBld, BufferId, BufferKind, BufferView};
use glwrap::device::GlCommand;
use glwrap::error::GLError;
use glwrap::program::{
    attribute_count, decode_attribute_name, ATTRIBUTE_NAME_BUFFER_SIZE, from_attribute_names, AttributeTable, DrawMode,
    Program,
};
use glwrap::texture::{TexFormat, Texture, TextureId};

fn names(list: &[&str]) -> Vec<String> {
    list.iter().map(|s| s.to_string()).collect()
}

fn linked(vao: u32) -> Program {
    let table = from_attribute_names(names(&["position", "normal"]), vec![0, 1]);
    let (p, cmds) = Program::new(5, None, table, vao, false, None).unwrap();
    assert!(cmds.is_empty());
    p
}

fn view(id: u32, n: usize) -> BufferView {
    BufferView::new(BufferId(id), n, 0, 0, GPUInfo { n_components: 3, gl_type: GLType::Float })
}

#[test]
fn declared_attributes_resolve_to_their_slots() {
    let table = from_attribute_names(names(&["position", "normal"]), vec![0, 1]).unwrap();
    let pos = table.get(&"position".to_string()).unwrap();
    let nor = table.get(&"normal".to_string()).unwrap();
    assert_eq!(pos.0, 0);
    assert_eq!(nor.0, 1);
    assert_ne!(pos, nor);
    assert!(table.get(&"color".to_string()).is_none());
}

#[test]
fn undeclared_attribute_is_refused() {
    let r = from_attribute_names(names(&["position", "color", "normal"]), vec![0, -1, -1]);
    match r {
        Err(GLError::InexistentOrUndeclaredAttribute(n)) => assert_eq!(n, "color"),
        other => panic!("unexpected {:?}", other),
    }
    let mut p = linked(3);
    match p.bind("color", view(1, 3)) {
        Err(GLError::InexistentOrUndeclaredAttribute(n)) => assert_eq!(n, "color"),
        other => panic!("unexpected {:?}", other),
    }
    assert_eq!(p.n_elems, None);
}

#[test]
fn binding_selects_vao_enables_slot_and_deselects() {
    let mut p = linked(3);
    let cmds = p.bind("normal", view(8, 4)).unwrap();
    assert_eq!(
        cmds,
        vec![
            GlCommand::BindVertexArray { id: 3 },
            GlCommand::BindBuffer { kind: BufferKind::ArrayBuffer, id: 8 },
            GlCommand::AttribPointer {
                slot: 1,
                info: GPUInfo { n_components: 3, gl_type: GLType::Float },
                stride: 0,
                offset: 0,
            },
            GlCommand::BindBuffer { kind: BufferKind::ArrayBuffer, id: 0 },
            GlCommand::EnableAttrib { slot: 1 },
            GlCommand::BindVertexArray { id: 0 },
        ]
    );
}

#[test]
fn vertex_count_is_the_largest_bound() {
    let mut p = linked(3);
    p.bind("position", view(1, 6)).unwrap();
    p.bind("normal", view(2, 3)).unwrap();
    assert_eq!(p.n_elems, Some(6));
    let cmds = p.draw_buffer(DrawMode::Tris).unwrap();
    assert_eq!(
        cmds,
        vec![
            GlCommand::BindVertexArray { id: 3 },
            GlCommand::DrawArrays { mode: DrawMode::Tris, first: 0, count: 6 },
        ]
    );
}

#[test]
fn indexed_draw_uses_index_count_until_detached() {
    let mut p = linked(3);
    p.bind("position", view(1, 6)).unwrap();
    let (indices, _) = BufferBld::indices().data(&[0u32, 1, 2], 12).unwrap();
    p.set_indices(indices);
    let cmds = p.draw_buffer(DrawMode::Tris).unwrap();
    assert_eq!(
        cmds,
        vec![
            GlCommand::BindVertexArray { id: 3 },
            GlCommand::BindBuffer { kind: BufferKind::IndexBuffer, id: 12 },
            GlCommand::DrawElements { mode: DrawMode::Tris, count: 3, index_type: GLType::Uint },
        ]
    );
    p.clear_indices();
    let cmds = p.draw_buffer(DrawMode::Points).unwrap();
    assert_eq!(cmds[1], GlCommand::DrawArrays { mode: DrawMode::Points, first: 0, count: 6 });
}

#[test]
fn byte_indices_use_their_own_type() {
    let mut p = linked(3);
    let (indices, _) = BufferBld::indices().data(&[0u8, 1, 2, 2], 12).unwrap();
    p.set_indices_untyped(indices.to_untyped());
    let cmds = p.draw_buffer(DrawMode::Lines).unwrap();
    assert_eq!(cmds[2], GlCommand::DrawElements { mode: DrawMode::Lines, count: 4, index_type: GLType::Ubyte });
}

#[test]
fn drawing_with_nothing_bound_fails() {
    let p = linked(3);
    assert!(matches!(p.draw_buffer(DrawMode::Tris), Err(GLError::NoBufferAttached)));
}

#[test]
fn duplicates_bind_and_draw_independently() {
    let mut a = linked(3);
    let mut b = a.duplicate(4).unwrap();
    assert_eq!(b.id, a.id);
    assert_eq!(b.n_elems, None);
    a.bind("position", view(1, 6)).unwrap();
    assert_eq!(b.n_elems, None);
    let cmds = b.bind("position", view(2, 9)).unwrap();
    assert_eq!(cmds[0], GlCommand::BindVertexArray { id: 4 });
    assert_eq!(a.n_elems, Some(6));
    assert_eq!(b.n_elems, Some(9));
    assert_eq!(a.draw_buffer(DrawMode::Tris).unwrap()[0], GlCommand::BindVertexArray { id: 3 });
    assert_eq!(
        b.draw_buffer(DrawMode::Tris).unwrap(),
        vec![
            GlCommand::BindVertexArray { id: 4 },
            GlCommand::DrawArrays { mode: DrawMode::Tris, first: 0, count: 9 },
        ]
    );
    assert!(matches!(a.duplicate(0), Err(GLError::CouldNotCreateVAO)));
}

#[test]
fn link_errors_come_first() {
    let table = from_attribute_names(names(&["position"]), vec![0]);
    match Program::new(5, Some("syntax error".to_string()), table, 0, false, None) {
        Err(GLError::LinkProgram(m)) => assert_eq!(m, "syntax error"),
        other => panic!("unexpected {:?}", other.map(|_| ())),
    }
    let bad = from_attribute_names(names(&["uv"]), vec![-1]);
    assert!(matches!(
        Program::new(5, None, bad, 0, false, None),
        Err(GLError::InexistentOrUndeclaredAttribute(_))
    ));
    let table = from_attribute_names(names(&["position"]), vec![0]);
    assert!(matches!(Program::new(5, None, table, 0, false, None), Err(GLError::CouldNotCreateVAO)));
}

fn texture() -> Texture {
    Texture { id: TextureId(21), width: 4, height: 4, tex_format: TexFormat::Rgb }
}

#[test]
fn program_texture_sampler_is_set_and_framed_around_draws() {
    let table = from_attribute_names(names(&["position"]), vec![0]);
    let missing = Program::new(5, None, table, 3, false, Some(("tex".to_string(), texture(), -1)));
    match missing {
        Err(GLError::InexistentUniform(n)) => assert_eq!(n, "tex"),
        other => panic!("unexpected {:?}", other.map(|_| ())),
    }
    let table = from_attribute_names(names(&["position"]), vec![0]);
    let (mut p, cmds) =
        Program::new(5, None, table, 3, true, Some(("tex".to_string(), texture(), 2))).unwrap();
    assert_eq!(
        cmds,
        vec![GlCommand::UseProgram { id: 5 }, GlCommand::Uniform1i { location: 2, value: 0 }]
    );
    p.bind("position", view(1, 3)).unwrap();
    assert_eq!(
        p.draw_buffer(DrawMode::TriStrip).unwrap(),
        vec![
            GlCommand::ActiveTexture0,
            GlCommand::BindTexture { id: 21 },
            GlCommand::BindVertexArray { id: 3 },
            GlCommand::DrawArrays { mode: DrawMode::TriStrip, first: 0, count: 3 },
            GlCommand::BindTexture { id: 0 },
        ]
    );
    assert_eq!(
        p.draw_buffer_partial_multi::<u32>(&[(0, 3), (6, 3)], DrawMode::LineStrip),
        vec![
            GlCommand::ActiveTexture0,
            GlCommand::BindTexture { id: 21 },
            GlCommand::BindVertexArray { id: 3 },
            GlCommand::MultiDrawArrays { mode: DrawMode::LineStrip, ranges: vec![(0, 3), (6, 3)] },
            GlCommand::BindTexture { id: 0 },
        ]
    );
}

#[test]
fn uniforms_resolve_by_location() {
    let p = linked(3);
    match p.uniform::<u32>("time", -1) {
        Err(GLError::InexistentUniform(n)) => assert_eq!(n, "time"),
        other => panic!("unexpected {:?}", other.map(|_| ())),
    }
    let u = p.uniform::<u32>("time", 4).unwrap();
    assert_eq!(u.location.0, 4);
    assert_eq!(u.program_id, p.id);
    assert_eq!(u.select_program(), vec![GlCommand::UseProgram { id: 5 }]);
    assert_eq!(p.set_current(), vec![GlCommand::UseProgram { id: 5 }]);
}

#[test]
fn uniform_blocks_bind_to_the_buffer_binding_point() {
    let mut gl = glwrap::GLWrap::new_from();
    let (ubo, _) = BufferBld::uniform().data(&[0u32; 4], 2).unwrap();
    let (u, _) = ubo.register(&mut gl).ok().unwrap();
    let p = linked(3);
    match p.bind_uniform("Camera", None, &u) {
        Err(GLError::InexistentUniformBuffer(n)) => assert_eq!(n, "Camera"),
        other => panic!("unexpected {:?}", other),
    }
    assert_eq!(
        p.bind_uniform("Camera", Some(1), &u).unwrap(),
        vec![GlCommand::UniformBlockBinding { program: 5, block: 1, binding_point: 0 }]
    );
}

#[test]
fn attribute_names_are_decoded_from_the_name_buffer() {
    let mut buffer = [0u8; ATTRIBUTE_NAME_BUFFER_SIZE];
    buffer[..8].copy_from_slice(b"position");
    assert_eq!(decode_attribute_name(&buffer, 8).unwrap(), "position");
    assert!(matches!(decode_attribute_name(&buffer, 51), Err(GLError::AttributeNameTooLong)));
    assert!(matches!(decode_attribute_name(&buffer, -1), Err(GLError::AttributeNameTooLong)));
    buffer[0] = 0xff;
    assert!(matches!(decode_attribute_name(&buffer, 8), Err(GLError::AttributeNameEncodingError)));
    let mut longest = [0u8; ATTRIBUTE_NAME_BUFFER_SIZE];
    longest[..50].copy_from_slice(&[b'a'; 50]);
    assert_eq!(decode_attribute_name(&longest, 50).unwrap().len(), 50);
    // a 60-byte name, cut by the device to the buffer size less one
    let mut cut = [b'b'; ATTRIBUTE_NAME_BUFFER_SIZE];
    cut[ATTRIBUTE_NAME_BUFFER_SIZE - 1] = 0;
    assert!(matches!(
        decode_attribute_name(&cut, (ATTRIBUTE_NAME_BUFFER_SIZE - 1) as i32),
        Err(GLError::AttributeNameTooLong)
    ));
}

#[test]
fn active_attributes_skip_unplaced_names() {
    assert!(matches!(attribute_count(-1), Err(GLError::CannotGetAttributeCountOnProgram)));
    assert_eq!(attribute_count(3).unwrap(), 3);
    let table = AttributeTable::from_active(vec![
        ("position".to_string(), 0),
        ("gl_VertexID".to_string(), -1),
        ("normal".to_string(), 2),
    ]);
    assert_eq!(table.get(&"normal".to_string()).unwrap().0, 2);
    assert!(table.get(&"gl_VertexID".to_string()).is_none());
    let mut t = AttributeTable::new();
    t.insert("a".to_string(), glwrap::program::AttributePos(1));
    t.insert("a".to_string(), glwrap::program::AttributePos(4));
    assert_eq!(t.get(&"a".to_string()).unwrap().0, 4);
}
