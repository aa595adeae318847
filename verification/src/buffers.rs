//! How a vertex record is laid out in a buffer.
//!
//! A vertex is a run of 32-bit components. A layout names the attributes
//! that make up a vertex, each with its number of components and the
//! component at which it starts, and knows the stride: the number of bytes
//! from one vertex to the next. From a layout the attribute pointers are
//! derived, which are what the graphics API is told.

use vstd::prelude::*;

verus! {

/// Bytes per component.
pub const COMPONENT_BYTES: i32 = 4;

/// One attribute of a vertex.
#[derive(Clone, Copy, Debug, PartialEq, Eq)]
pub struct BufferAttribute<'a> {
    /// The name of the shader input that the attribute feeds.
    pub name: &'a str,
    /// The number of components.
    pub size: i32,
    /// The component of the vertex at which the attribute starts.
    pub offset: i32,
}

/// The attributes of a vertex and the distance between two vertices.
#[derive(Debug, PartialEq, Eq)]
pub struct BufferLayout<'a> {
    /// Bytes from one vertex to the next.
    pub stride: i32,
    /// The attributes, in the order of their shader locations.
    pub attributes: Vec<BufferAttribute<'a>>,
}

/// What the graphics API is told of one attribute.
#[derive(Clone, Copy, Debug, PartialEq, Eq)]
pub struct AttributePointer {
    /// The shader location: the attribute's place in the layout.
    pub index: u32,
    /// The number of components.
    pub size: i32,
    /// Bytes from one vertex to the next.
    pub stride: i32,
    /// The byte of the vertex at which the attribute starts.
    pub offset: i32,
}

/// The number of components in a vertex made of `attributes`.
pub open spec fn total_size(attributes: Seq<BufferAttribute<'_>>) -> int
    decreases attributes.len(),
{
    if attributes.len() == 0 {
        0
    } else {
        total_size(attributes.drop_last()) + attributes.last().size
    }
}

/// The stride, in bytes, of a vertex made of `attributes`.
pub open spec fn stride_of(attributes: Seq<BufferAttribute<'_>>) -> int {
    4 * total_size(attributes)
}

/// Whether a number can be held in an `i32`.
pub open spec fn fits_i32(x: int) -> bool {
    i32::MIN <= x <= i32::MAX
}

/// Whether `pointer` is what the graphics API is to be told of
/// `attribute`, which stands at place `i` of a layout of the given stride:
/// the location is the place, the byte offset is four times the component
/// offset, and size and stride are handed on.
pub open spec fn points_at(
    pointer: AttributePointer,
    attribute: BufferAttribute<'_>,
    i: int,
    stride: i32,
) -> bool {
    &&& pointer.index == i
    &&& pointer.size == attribute.size
    &&& pointer.stride == stride
    &&& pointer.offset == 4 * attribute.offset
}

/// Adds up the components of `attributes`.
fn sum_sizes(attributes: &[BufferAttribute<'_>]) -> (sum: i128)
    ensures
        sum == total_size(attributes@),
{
    let mut sum: i128 = 0;
    let mut i: usize = 0;
    while i < attributes.len()
        invariant
            i <= attributes@.len(),
            sum == total_size(attributes@.take(i as int)),
            -0x8000_0000 * i <= sum <= 0x8000_0000 * i,
        decreases attributes@.len() - i,
    {
        proof {
            assert(attributes@.take(i + 1).drop_last() == attributes@.take(i as int));
        }
        sum = sum + attributes[i].size as i128;
        i += 1;
    }
    proof {
        assert(attributes@.take(i as int) == attributes@);
    }
    sum
}

/// Copies `attributes` into a vector.
fn copy_attributes<'a>(attributes: &[BufferAttribute<'a>]) -> (copy: Vec<BufferAttribute<'a>>)
    ensures
        copy@ == attributes@,
{
    let mut copy: Vec<BufferAttribute<'a>> = Vec::new();
    let mut i: usize = 0;
    while i < attributes.len()
        invariant
            i <= attributes@.len(),
            copy@ == attributes@.take(i as int),
        decreases attributes@.len() - i,
    {
        copy.push(attributes[i]);
        proof {
            assert(attributes@.take(i + 1) == attributes@.take(i as int).push(attributes@[i as int]));
        }
        i += 1;
    }
    proof {
        assert(attributes@.take(i as int) == attributes@);
    }
    copy
}

impl<'a> BufferLayout<'a> {
    /// Whether the stride is what the attributes add up to.
    pub open spec fn is_consistent(self) -> bool {
        self.stride == stride_of(self.attributes@)
    }

    /// The layout of a vertex made of `attributes`: the stride is four bytes
    /// for each component of each attribute.
    pub fn new(attributes: &[BufferAttribute<'a>]) -> (layout: BufferLayout<'a>)
        requires
            fits_i32(stride_of(attributes@)),
        ensures
            layout.stride == stride_of(attributes@),
            layout.attributes@ == attributes@,
            layout.is_consistent(),
    {
        let sum: i128 = sum_sizes(attributes);
        let scale: i128 = COMPONENT_BYTES as i128;
        let stride: i128 = sum * scale;
        BufferLayout { stride: stride as i32, attributes: copy_attributes(attributes) }
    }

    /// As [`BufferLayout::new`], for any attributes: `None` where the stride
    /// cannot be held in an `i32`.
    pub fn try_new(attributes: &[BufferAttribute<'a>]) -> (layout: Option<BufferLayout<'a>>)
        ensures
            layout.is_some() == fits_i32(stride_of(attributes@)),
            layout matches Some(l) ==> l.stride == stride_of(attributes@) && l.attributes@
                == attributes@ && l.is_consistent(),
    {
        let sum: i128 = sum_sizes(attributes);
        if sum < -0x2000_0000 || sum > 0x1fff_ffff {
            None
        } else {
            Some(BufferLayout::new(attributes))
        }
    }

    /// The attribute pointers of this layout, one for each attribute in
    /// order: the location is the attribute's place, the byte offset four
    /// times its component offset. `None` where there are more attributes
    /// than locations can be numbered in 32 bits, or a byte offset cannot be
    /// held in an `i32`.
    pub fn attribute_pointers(&self) -> (pointers: Option<Vec<AttributePointer>>)
        ensures
            pointers.is_some() == (self.attributes@.len() <= 0x1_0000_0000 && forall|i: int|
                0 <= i < self.attributes@.len() ==> fits_i32(4 * #[trigger] self.attributes@[i].offset)),
            pointers matches Some(p) ==> p@.len() == self.attributes@.len() && forall|i: int|
                0 <= i < p@.len() ==> points_at(
                    #[trigger] p@[i],
                    self.attributes@[i],
                    i,
                    self.stride,
                ),
    {
        let count: usize = self.attributes.len();
        if count as u128 > 0x1_0000_0000u128 {
            return None;
        }
        let mut pointers: Vec<AttributePointer> = Vec::new();
        let mut i: usize = 0;
        while i < count
            invariant
                i <= count,
                count == self.attributes@.len(),
                count <= 0x1_0000_0000,
                pointers@.len() == i,
                forall|k: int|
                    0 <= k < i ==> fits_i32(4 * #[trigger] self.attributes@[k].offset),
                forall|k: int|
                    0 <= k < i ==> points_at(
                        #[trigger] pointers@[k],
                        self.attributes@[k],
                        k,
                        self.stride,
                    ),
            decreases count - i,
        {
            let attribute = self.attributes[i];
            let scale: i64 = COMPONENT_BYTES as i64;
            let bytes: i64 = attribute.offset as i64 * scale;
            if bytes < i32::MIN as i64 || bytes > i32::MAX as i64 {
                return None;
            }
            pointers.push(
                AttributePointer {
                    index: i as u32,
                    size: attribute.size,
                    stride: self.stride,
                    offset: bytes as i32,
                },
            );
            i += 1;
        }
        Some(pointers)
    }
}

/// A vertex of three attributes with three, three and two components has a
/// stride of 32 bytes, whatever the attributes are called and wherever
/// they start.
pub proof fn lemma_stride_of_3_3_2(attributes: Seq<BufferAttribute<'_>>)
    requires
        attributes.len() == 3,
        attributes[0].size == 3,
        attributes[1].size == 3,
        attributes[2].size == 2,
    ensures
        stride_of(attributes) == 32,
        fits_i32(stride_of(attributes)),
{
    let two = attributes.drop_last();
    let one = two.drop_last();
    let none = one.drop_last();
    assert(total_size(none) == 0);
    assert(total_size(one) == 3);
    assert(total_size(two) == 6);
}

/// The stride counts every attribute: a vertex with one more attribute is
/// longer by four bytes for each of its components.
pub proof fn lemma_stride_grows_by_attribute(
    attributes: Seq<BufferAttribute<'_>>,
    added: BufferAttribute<'_>,
)
    ensures
        stride_of(attributes.push(added)) == stride_of(attributes) + 4 * added.size,
{
    assert(attributes.push(added).drop_last() == attributes);
}

} // verus!
