//! Buffer targets, shader kinds, texture units and the byte arithmetic of
//! vertex attribute layouts.
use vstd::prelude::*;
use crate::gl_consts::{ARRAY_BUFFER, ELEMENT_ARRAY_BUFFER, FRAGMENT_SHADER, TEXTURE0, VERTEX_SHADER};

verus! {

/// A GL buffer binding point.
pub trait BufferTarget {
    /// The GL enumerant of the binding point.
    const TARGET: u32;
}

/// The vertex attribute buffer binding point.
pub struct ArrayBufferType {}

impl BufferTarget for ArrayBufferType {
    const TARGET: u32 = ARRAY_BUFFER;
}


/// The vertex index buffer binding point.
pub struct ElementArrayBufferType {}

impl BufferTarget for ElementArrayBufferType {
    const TARGET: u32 = ELEMENT_ARRAY_BUFFER;
}

/// A kind of GL shader.
pub trait ShaderFlavor {
    /// The GL enumerant of the shader kind.
    const FLAVOR: u32;
}

/// The vertex shader kind.
pub struct VertexShader {}

impl ShaderFlavor for VertexShader {
    const FLAVOR: u32 = VERTEX_SHADER;
}

/// The fragment shader kind.
pub struct FragmentShader {}

impl ShaderFlavor for FragmentShader {
    const FLAVOR: u32 = FRAGMENT_SHADER;
}

/// A texture image unit, counted from zero.
#[derive(Copy, Clone)]
pub struct ActiveTextureUnit(pub u32);

impl ActiveTextureUnit {
    /// The GL enumerant that selects this unit: `TEXTURE0` plus its number.
    pub fn gl_arg(&self) -> (r: u32)
        requires
            self.0 <= u32::MAX - TEXTURE0,
        ensures
            r == TEXTURE0 + self.0,
    {
        TEXTURE0 + self.0
    }
}

/// Distinct texture units are selected by distinct enumerants.
pub proof fn lemma_gl_arg_injective(a: u32, b: u32)
    requires
        a <= u32::MAX - TEXTURE0,
        b <= u32::MAX - TEXTURE0,
        a != b,
    ensures
        TEXTURE0 + a != TEXTURE0 + b,
{
}

/// The GL state that the library tracks: which texture unit is active.
pub struct GPUState {
    active_texture_unit: ActiveTextureUnit,
}

impl GPUState {
    /// The number of the active texture unit.
    pub closed spec fn spec_active_unit(&self) -> u32 {
        self.active_texture_unit.0
    }

    /// Unit zero is active, as in a fresh GL context.
    pub fn new() -> (r: Self)
        ensures
            r.spec_active_unit() == 0,
    {
        GPUState { active_texture_unit: ActiveTextureUnit(0) }
    }

    /// The active texture unit.
    pub fn active_texture_unit(&self) -> (r: &ActiveTextureUnit)
        ensures
            r.0 == self.spec_active_unit(),
    {
        &self.active_texture_unit
    }

    /// Records `idx` as the active unit and returns the enumerant that the
    /// caller passes to `glActiveTexture`.
    pub fn set_active_texture(&mut self, idx: ActiveTextureUnit) -> (arg: u32)
        requires
            idx.0 <= u32::MAX - TEXTURE0,
        ensures
            final(self).spec_active_unit() == idx.0,
            arg == TEXTURE0 + idx.0,
    {
        self.active_texture_unit = idx;
        self.active_texture_unit.gl_arg()
    }
}

/// Bytes in `len` elements of `elem_size` bytes, as a GL buffer size.
pub fn buffer_byte_count(len: usize, elem_size: usize) -> (r: isize)
    requires
        len * elem_size <= isize::MAX,
        len <= isize::MAX,
        elem_size <= isize::MAX,
    ensures
        r == len * elem_size,
{
    (len as isize) * (elem_size as isize)
}

/// The byte offset of element number `count` in an array of elements of
/// `elem_size` bytes, as GL takes it in place of a pointer.
pub fn gl_offset_for(count: i32, elem_size: usize) -> (r: i32)
    requires
        elem_size <= i32::MAX,
        i32::MIN <= count * elem_size <= i32::MAX,
    ensures
        r == count * elem_size,
{
    count * (elem_size as i32)
}

/// The arguments of one `glVertexAttribPointer` call, sizes in bytes.
#[derive(Copy, Clone, PartialEq, Eq, Structural)]
pub struct AttribPointer {
    /// The attribute location in the shader program.
    pub location: u32,
    /// Components per vertex: 3 for a vec3, 2 for a vec2.
    pub width: i32,
    /// Bytes from the start of one vertex to the start of the next.
    pub stride_bytes: i32,
    /// Bytes from the start of a vertex to this attribute.
    pub offset_bytes: i32,
}

/// Whether an attribute with `stride` and `offset` counted in elements of
/// `elem_size` bytes has byte sizes that fit the GL's `int`.
pub open spec fn attribute_in_range(stride: i32, offset: i32, elem_size: usize) -> bool {
    &&& elem_size <= i32::MAX
    &&& i32::MIN <= stride * elem_size <= i32::MAX
    &&& i32::MIN <= offset * elem_size <= i32::MAX
}

/// The pointer arguments for an attribute of `width` components at `offset`
/// elements into vertices of `stride` elements of `elem_size` bytes.
pub open spec fn spec_attribute_pointer(location: u32, width: i32, stride: i32, offset: i32, elem_size: usize) -> AttribPointer {
    AttribPointer {
        location,
        width,
        stride_bytes: (stride * elem_size) as i32,
        offset_bytes: (offset * elem_size) as i32,
    }
}

/// The byte counts of an attribute are its element counts times the size of
/// one element, whatever that size is, and the location and width pass
/// through.
pub proof fn lemma_attribute_bytes(location: u32, width: i32, stride: i32, offset: i32, elem_size: usize)
    requires
        attribute_in_range(stride, offset, elem_size),
    ensures
        spec_attribute_pointer(location, width, stride, offset, elem_size).location == location,
        spec_attribute_pointer(location, width, stride, offset, elem_size).width == width,
        spec_attribute_pointer(location, width, stride, offset, elem_size).stride_bytes == stride
            * elem_size,
        spec_attribute_pointer(location, width, stride, offset, elem_size).offset_bytes == offset
            * elem_size,
{
}

/// Converts an attribute's element counts to the byte counts GL takes.
pub fn attribute_pointer(location: u32, width: i32, stride: i32, offset: i32, elem_size: usize) -> (r: AttribPointer)
    requires
        attribute_in_range(stride, offset, elem_size),
    ensures
        r == spec_attribute_pointer(location, width, stride, offset, elem_size),
        r.location == location,
        r.width == width,
        r.stride_bytes == stride * elem_size,
        r.offset_bytes == offset * elem_size,
{
    proof {
        lemma_attribute_bytes(location, width, stride, offset, elem_size);
    }
    AttribPointer {
        location,
        width,
        stride_bytes: stride * (elem_size as i32),
        offset_bytes: gl_offset_for(offset, elem_size),
    }
}

/// The `glVertexAttribPointer` calls, in order, that rig the attributes
/// `(location, width, offset)` of vertices of `stride` elements of
/// `elem_size` bytes.
pub fn attribute_layout(stride: i32, elem_size: usize, attributes: &[(u32, i32, i32)]) -> (r: Vec<AttribPointer>)
    requires
        forall|i: int| 0 <= i < attributes.len() ==> attribute_in_range(stride, #[trigger] attributes@[i].2, elem_size),
    ensures
        r.len() == attributes.len(),
        forall|i: int| 0 <= i < attributes.len() ==> #[trigger] r@[i] == spec_attribute_pointer(
            attributes@[i].0,
            attributes@[i].1,
            stride,
            attributes@[i].2,
            elem_size,
        ),
        forall|i: int| 0 <= i < attributes.len() ==> {
            &&& (#[trigger] r@[i]).location == attributes@[i].0
            &&& r@[i].width == attributes@[i].1
            &&& r@[i].stride_bytes == stride * elem_size
            &&& r@[i].offset_bytes == attributes@[i].2 * elem_size
        },
{
    let mut r: Vec<AttribPointer> = Vec::new();
    let mut i: usize = 0;
    while i < attributes.len()
        invariant
            i <= attributes.len(),
            r.len() == i,
            forall|j: int| 0 <= j < attributes.len() ==> attribute_in_range(stride, #[trigger] attributes@[j].2, elem_size),
            forall|j: int| 0 <= j < i ==> #[trigger] r@[j] == spec_attribute_pointer(
                attributes@[j].0,
                attributes@[j].1,
                stride,
                attributes@[j].2,
                elem_size,
            ),
        decreases attributes.len() - i,
    {
        let (location, width, offset) = attributes[i];
        r.push(attribute_pointer(location, width, stride, offset, elem_size));
        i = i + 1;
    }
    assert forall|k: int| 0 <= k < attributes.len() implies {
        &&& (#[trigger] r@[k]).location == attributes@[k].0
        &&& r@[k].width == attributes@[k].1
        &&& r@[k].stride_bytes == stride * elem_size
        &&& r@[k].offset_bytes == attributes@[k].2 * elem_size
    } by {
        lemma_attribute_bytes(attributes@[k].0, attributes@[k].1, stride, attributes@[k].2, elem_size);
    }
    r
}

} // verus!
