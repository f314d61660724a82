use glcore::command::GlCommand;
use glcore::data::Type;
use glcore::drawcall::{DrawCall, Primitive};

#[test]
fn default_draw_call_is_non_indexed_single_vertex() {
    let call = DrawCall::new(Primitive::Triangles);
    let command = call.draw();
    assert_eq!(
        command,
        GlCommand::DrawArrays { primitive: Primitive::Triangles, first: 0, count: 1 }
    );
}

#[test]
fn indexed_draw_call_reads_count_indices() {
    let call = DrawCall::new(Primitive::Triangles);
    let call = DrawCall::count(call, 6);
    let call = DrawCall::index_type(call, Type::UInt);
    let command = call.draw();
    assert_eq!(
        command,
        GlCommand::DrawElements {
            primitive: Primitive::Triangles,
            count: 6,
            index_type: Type::UInt,
            byte_offset: 0,
        }
    );
}

#[test]
fn first_only_matters_when_draw_is_invoked() {
    let base = DrawCall::new(Primitive::Triangles);
    let base = DrawCall::count(base, 6);
    let base = DrawCall::index_type(base, Type::UShort);

    // Two descriptions differing only in `first` issue the same kind of
    // draw; the value surfaces only as the byte offset of draw().
    let with_offset = DrawCall::first(base, 24);
    let a = base.draw();
    let b = with_offset.draw();
    assert_eq!(
        a,
        GlCommand::DrawElements {
            primitive: Primitive::Triangles,
            count: 6,
            index_type: Type::UShort,
            byte_offset: 0,
        }
    );
    assert_eq!(
        b,
        GlCommand::DrawElements {
            primitive: Primitive::Triangles,
            count: 6,
            index_type: Type::UShort,
            byte_offset: 24,
        }
    );
}

#[test]
fn non_indexed_draw_keeps_first_and_count() {
    let call = DrawCall::new(Primitive::Points);
    let call = DrawCall::first(call, 5);
    let call = DrawCall::count(call, 17);
    assert_eq!(
        call.draw(),
        GlCommand::DrawArrays { primitive: Primitive::Points, first: 5, count: 17 }
    );
}
