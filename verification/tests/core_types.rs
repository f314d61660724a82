use glcore::data::Type;
use glcore::element_buffer_object::ElementBufferObject;
use glcore::vertex_attribute::{Layout, VertexAttribute};

#[test]
fn type_sizes_match_documented_widths() {
    assert_eq!(Type::Byte.get_size(), 1);
    assert_eq!(Type::UByte.get_size(), 1);
    assert_eq!(Type::Short.get_size(), 2);
    assert_eq!(Type::UShort.get_size(), 2);
    assert_eq!(Type::Half.get_size(), 2);
    assert_eq!(Type::Fixed.get_size(), 2);
    assert_eq!(Type::Float.get_size(), 4);
    assert_eq!(Type::Int.get_size(), 4);
    assert_eq!(Type::UInt.get_size(), 4);
    assert_eq!(Type::Double.get_size(), 8);
    assert_eq!(Type::NoType.get_size(), 0);
}

#[test]
fn attribute_size_is_components_times_width() {
    let types = [
        Type::NoType,
        Type::Float,
        Type::Fixed,
        Type::Half,
        Type::Double,
        Type::Byte,
        Type::UByte,
        Type::Short,
        Type::UShort,
        Type::Int,
        Type::UInt,
    ];
    for t in types {
        for components in 1..=4 {
            let attribute = VertexAttribute::new(t, components, false);
            assert_eq!(attribute.get_size(), components * t.get_size());
        }
    }
}

#[test]
fn packed_record_offsets_by_running_sum() {
    // Three attributes packed consecutively into one interleaved record.
    let position = VertexAttribute::new(Type::Float, 3, false);
    let uv = VertexAttribute::new(Type::Float, 2, false);
    let color = VertexAttribute::new(Type::Float, 4, false);

    let mut offset = 0;
    let mut offsets = Vec::new();
    for attribute in [position, uv, color] {
        offsets.push(offset);
        offset += attribute.get_size();
    }
    let stride = offset;

    assert_eq!(offsets, vec![0, 12, 20]);
    assert_eq!(stride, 36);

    let layouts = [
        Layout::new(position, offsets[0], stride),
        Layout::new(uv, offsets[1], stride),
        Layout::new(color, offsets[2], stride),
    ];
    assert_eq!(layouts[0].offset(), 0);
    assert_eq!(layouts[1].offset(), 12);
    assert_eq!(layouts[2].offset(), 20);
    for layout in layouts {
        assert_eq!(layout.stride(), 36);
    }
    assert_eq!(layouts[1].attribute().components(), 2);
    assert_eq!(layouts[1].attribute().data_type(), Type::Float);
}

#[test]
fn attribute_accessors_report_construction() {
    let attribute = VertexAttribute::new(Type::Short, 2, true);
    assert_eq!(attribute.data_type(), Type::Short);
    assert_eq!(attribute.components(), 2);
    assert!(attribute.is_normalized());
    assert!(!attribute.is_floating_point());

    assert!(VertexAttribute::new(Type::Float, 1, false).is_floating_point());
    assert!(VertexAttribute::new(Type::Double, 1, false).is_floating_point());
    assert!(VertexAttribute::new(Type::Fixed, 1, false).is_floating_point());
    assert!(!VertexAttribute::new(Type::Int, 1, false).is_floating_point());
}

#[test]
fn supported_index_types_are_unsigned() {
    assert!(ElementBufferObject::is_supported_type(Type::UByte));
    assert!(ElementBufferObject::is_supported_type(Type::UShort));
    assert!(ElementBufferObject::is_supported_type(Type::UInt));
    assert!(!ElementBufferObject::is_supported_type(Type::Byte));
    assert!(!ElementBufferObject::is_supported_type(Type::Short));
    assert!(!ElementBufferObject::is_supported_type(Type::Int));
    assert!(!ElementBufferObject::is_supported_type(Type::Float));
    assert!(!ElementBufferObject::is_supported_type(Type::Double));
    assert!(!ElementBufferObject::is_supported_type(Type::Half));
    assert!(!ElementBufferObject::is_supported_type(Type::Fixed));
    assert!(!ElementBufferObject::is_supported_type(Type::NoType));
}
