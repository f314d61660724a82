//! Description of one typed field of a per-vertex record, and its place
//! inside a strided record.

use vstd::prelude::*;

use crate::data::{spec_type_size, Type};

verus! {

/// One field of a per-vertex record: `components` scalars of
/// `data_type`, optionally normalized to the unit range at read time.
/// A record field has between one and four components.
#[derive(Clone, Copy, Debug, PartialEq, Eq, Structural)]
pub struct VertexAttribute {
    data_type: Type,
    components: i32,
    normalized: bool,
}

impl VertexAttribute {
    /// The attribute's component count stays in `1..=4`.
    #[verifier::type_invariant]
    pub closed spec fn wf(self) -> bool {
        1 <= self.components <= 4
    }

    /// The scalar kind of each component.
    pub closed spec fn spec_data_type(self) -> Type {
        self.data_type
    }

    /// How many scalars the attribute holds, between 1 and 4.
    pub closed spec fn spec_components(self) -> i32 {
        self.components
    }

    /// Whether the scalars are normalized to the unit range at read time.
    pub closed spec fn spec_normalized(self) -> bool {
        self.normalized
    }

    /// Byte size of the whole attribute: component count times the
    /// scalar's byte width.
    pub open spec fn spec_size(self) -> int {
        self.spec_components() * spec_type_size(self.spec_data_type())
    }

    /// An attribute of `components` scalars of `data_type`.
    pub fn new(data_type: Type, components: i32, normalized: bool) -> (r: Self)
        requires
            1 <= components <= 4,
        ensures
            r.spec_data_type() == data_type,
            r.spec_components() == components,
            r.spec_normalized() == normalized,
    {
        VertexAttribute { data_type, components, normalized }
    }

    /// Byte size of the attribute: `components * data_type.get_size()`.
    pub fn get_size(&self) -> (size: i32)
        ensures
            size == self.spec_size(),
    {
        proof {
            use_type_invariant(self);
        }
        self.data_type.get_size() * self.components
    }

    /// The scalar kind of each component.
    pub fn data_type(&self) -> (t: Type)
        ensures
            t == self.spec_data_type(),
    {
        self.data_type
    }

    /// How many scalars the attribute holds.
    pub fn components(&self) -> (c: i32)
        ensures
            c == self.spec_components(),
            1 <= c <= 4,
    {
        proof {
            use_type_invariant(self);
        }
        self.components
    }

    /// Whether the scalars are normalized at read time.
    pub fn is_normalized(&self) -> (n: bool)
        ensures
            n == self.spec_normalized(),
    {
        self.normalized
    }

    /// Whether the scalar kind is read as a (fixed- or floating-point)
    /// fractional value.
    pub fn is_floating_point(&self) -> (r: bool)
        ensures
            r == (self.spec_data_type() is Float || self.spec_data_type() is Double
                || self.spec_data_type() is Fixed),
    {
        matches!(self.data_type, Type::Float | Type::Double | Type::Fixed)
    }
}

/// Where one attribute sits inside a strided vertex record: the
/// attribute starts `offset` bytes into each record, and consecutive
/// records lie `stride` bytes apart. Whether `offset + size <= stride`
/// holds is the caller's responsibility; the layout does not enforce it.
#[derive(Clone, Copy, Debug, PartialEq, Eq, Structural)]
pub struct Layout {
    attribute: VertexAttribute,
    offset: i32,
    stride: i32,
}

impl Layout {
    /// The attribute being placed.
    pub closed spec fn spec_attribute(self) -> VertexAttribute {
        self.attribute
    }

    /// Byte offset of the attribute within each record.
    pub closed spec fn spec_offset(self) -> i32 {
        self.offset
    }

    /// Byte distance between consecutive records.
    pub closed spec fn spec_stride(self) -> i32 {
        self.stride
    }

    /// Places `attribute` at byte `offset` of a record of `stride` bytes.
    pub fn new(attribute: VertexAttribute, offset: i32, stride: i32) -> (r: Self)
        ensures
            r.spec_attribute() == attribute,
            r.spec_offset() == offset,
            r.spec_stride() == stride,
    {
        Layout { attribute, offset, stride }
    }

    /// The attribute being placed.
    pub fn attribute(&self) -> (a: VertexAttribute)
        ensures
            a == self.spec_attribute(),
    {
        self.attribute
    }

    /// Byte offset of the attribute within each record.
    pub fn offset(&self) -> (o: i32)
        ensures
            o == self.spec_offset(),
    {
        self.offset
    }

    /// Byte distance between consecutive records.
    pub fn stride(&self) -> (s: i32)
        ensures
            s == self.spec_stride(),
    {
        self.stride
    }
}

} // verus!
