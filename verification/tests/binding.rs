use glcore::binding::BindingState;
use glcore::buffer_object::{BufferObject, Target, Usage};
use glcore::command::GlCommand;
use glcore::data::Type;
use glcore::element_buffer_object::ElementBufferObject;
use glcore::mesh::Mesh;
use glcore::object::Object;
use glcore::vertex_array_object::VertexArrayObject;
use glcore::vertex_attribute::VertexAttribute;
use glcore::vertex_buffer_object::VertexBufferObject;

#[test]
fn binding_twice_equals_binding_once() {
    let vbo = VertexBufferObject::new(7);
    let mut once = BindingState::new();
    vbo.bind(&mut once);
    let mut twice = BindingState::new();
    vbo.bind(&mut twice);
    vbo.bind(&mut twice);
    assert_eq!(once, twice);

    let vao = VertexArrayObject::new(9);
    vao.bind(&mut once);
    vao.bind(&mut twice);
    vao.bind(&mut twice);
    assert_eq!(once, twice);

    let ebo = ElementBufferObject::new(11);
    ebo.bind(&mut once);
    ebo.bind(&mut twice);
    ebo.bind(&mut twice);
    assert_eq!(once, twice);
}

#[test]
fn bind_sets_only_its_own_slot() {
    let mut state = BindingState::new();
    let vbo = VertexBufferObject::new(3);
    let command = vbo.bind(&mut state);
    assert_eq!(command, GlCommand::BindBuffer { target: Target::ArrayBuffer, handle: 3 });
    assert_eq!(state.bound_array_buffer, 3);
    assert_eq!(state.bound_element_array_buffer, 0);
    assert_eq!(state.bound_vertex_array, 0);
    assert_eq!(state.active_program, 0);

    let ebo = ElementBufferObject::new(4);
    ebo.bind(&mut state);
    assert_eq!(state.bound_array_buffer, 3);
    assert_eq!(state.bound_element_array_buffer, 4);
}

#[test]
fn allocate_data_follows_bind_upload_unbind() {
    let mut state = BindingState::new();
    let vbo = VertexBufferObject::new(5);
    let vertices: [u32; 3] = [10, 20, 30];
    let commands = vbo.allocate_data(&mut state, &vertices, Usage::StaticDraw);
    assert_eq!(
        commands,
        vec![
            GlCommand::BindBuffer { target: Target::ArrayBuffer, handle: 5 },
            GlCommand::BufferData {
                target: Target::ArrayBuffer,
                byte_size: 12,
                usage: Usage::StaticDraw,
            },
            GlCommand::BindBuffer { target: Target::ArrayBuffer, handle: 0 },
        ]
    );
    assert_eq!(state.bound_array_buffer, 0);
}

#[test]
fn reserve_data_sizes_by_element_count() {
    let mut state = BindingState::new();
    let ebo = ElementBufferObject::new(6);
    let commands = ebo.reserve_data::<u16>(&mut state, 10, Usage::DynamicDraw);
    assert_eq!(
        commands,
        vec![
            GlCommand::BindBuffer { target: Target::ElementArrayBuffer, handle: 6 },
            GlCommand::BufferData {
                target: Target::ElementArrayBuffer,
                byte_size: 20,
                usage: Usage::DynamicDraw,
            },
            GlCommand::BindBuffer { target: Target::ElementArrayBuffer, handle: 0 },
        ]
    );
}

#[test]
fn update_data_overwrites_a_sub_range() {
    let mut state = BindingState::new();
    let vbo = VertexBufferObject::new(8);
    let patch: [u8; 4] = [1, 2, 3, 4];
    let commands = vbo.update_data(&mut state, &patch, 16);
    assert_eq!(
        commands,
        vec![
            GlCommand::BindBuffer { target: Target::ArrayBuffer, handle: 8 },
            GlCommand::BufferSubData { target: Target::ArrayBuffer, byte_offset: 16, byte_size: 4 },
            GlCommand::BindBuffer { target: Target::ArrayBuffer, handle: 0 },
        ]
    );
}

#[test]
fn unbind_clears_the_target_slot() {
    let mut state = BindingState::new();
    let vbo = VertexBufferObject::new(5);
    vbo.bind(&mut state);
    assert_eq!(state.bound_array_buffer, 5);
    let command = vbo.unbind(&mut state);
    assert_eq!(command, GlCommand::BindBuffer { target: Target::ArrayBuffer, handle: 0 });
    assert_eq!(state.bound_array_buffer, 0);
}

#[test]
fn set_attribute_describes_the_bound_buffer() {
    let mut state = BindingState::new();
    let vbo = VertexBufferObject::new(2);
    let mut vao = VertexArrayObject::new(1);
    vao.bind(&mut state);
    vbo.bind(&mut state);

    let attribute = VertexAttribute::new(Type::Float, 3, false);
    let commands = vao.set_attribute(&state, 0, &attribute, 0, 36);
    assert_eq!(
        commands,
        vec![
            GlCommand::VertexAttribPointer {
                location: 0,
                components: 3,
                data_type: Type::Float,
                normalized: false,
                stride: 36,
                offset: 0,
            },
            GlCommand::EnableVertexAttribArray { location: 0 },
        ]
    );
}

#[test]
fn vertex_array_unbind_and_delete() {
    let mut state = BindingState::new();
    let vao = VertexArrayObject::new(12);
    vao.bind(&mut state);
    assert_eq!(state.bound_vertex_array, 12);
    let command = vao.unbind(&mut state);
    assert_eq!(command, GlCommand::BindVertexArray { handle: 0 });
    assert_eq!(state.bound_vertex_array, 0);
    assert_eq!(vao.delete(), GlCommand::DeleteVertexArray { handle: 12 });
}

#[test]
fn handles_report_construction() {
    assert_eq!(VertexBufferObject::new(21).handle(), 21);
    assert_eq!(ElementBufferObject::new(22).handle(), 22);
    assert_eq!(VertexArrayObject::new(23).handle(), 23);
    assert_eq!(VertexBufferObject::new(24).target(), Target::ArrayBuffer);
    assert_eq!(ElementBufferObject::new(25).target(), Target::ElementArrayBuffer);
    assert_eq!(VertexBufferObject::new(26).delete(), GlCommand::DeleteBuffer { handle: 26 });
    assert_eq!(ElementBufferObject::new(27).delete(), GlCommand::DeleteBuffer { handle: 27 });
}

#[test]
fn mesh_owns_what_it_uploads() {
    let mut state = BindingState::new();
    let mut mesh = Mesh::new();
    let vertices: [u32; 6] = [0, 1, 2, 3, 4, 5];
    let commands = mesh.add_vertex_data(&mut state, 31, &vertices);
    assert_eq!(
        commands,
        vec![
            GlCommand::BindBuffer { target: Target::ArrayBuffer, handle: 31 },
            GlCommand::BufferData {
                target: Target::ArrayBuffer,
                byte_size: 24,
                usage: Usage::StaticDraw,
            },
            GlCommand::BindBuffer { target: Target::ArrayBuffer, handle: 0 },
        ]
    );

    let indices: [u16; 3] = [0, 1, 2];
    let commands = mesh.add_element_data(&mut state, 32, &indices);
    assert_eq!(
        commands,
        vec![
            GlCommand::BindBuffer { target: Target::ElementArrayBuffer, handle: 32 },
            GlCommand::BufferData {
                target: Target::ElementArrayBuffer,
                byte_size: 6,
                usage: Usage::StaticDraw,
            },
            GlCommand::BindBuffer { target: Target::ElementArrayBuffer, handle: 0 },
        ]
    );
}
