//! Layout of a vertex record and of a transform matrix.
//!
//! One glyph quad is drawn from one vertex record of thirteen scalars of four
//! bytes each. The record is read by five named vertex attributes, each of
//! which covers a run of scalars:
//!
//! | attribute          | scalars | holds                                   |
//! |--------------------|---------|-----------------------------------------|
//! | `left_top`         | 0..3    | left, top and depth of the quad         |
//! | `right_bottom`     | 3..5    | right and bottom of the quad            |
//! | `tex_left_top`     | 5..7    | left and top of the texture rectangle   |
//! | `tex_right_bottom` | 7..9    | right and bottom of the texture rectangle |
//! | `color`            | 9..13   | red, green, blue, alpha                 |
//!
//! The functions here are generic in the scalar, of which they only move
//! values around.

use vstd::prelude::*;

verus! {

/// The number of scalars in one vertex record.
pub const VERTEX_SCALARS: usize = 13;

/// The size of one scalar in bytes.
pub const SCALAR_BYTES: usize = 4;

/// The size of one vertex record in bytes, which is also the distance between
/// two records in the vertex buffer.
pub const VERTEX_BYTES: usize = 52;

/// The number of corners of the quad that is drawn once per vertex record.
pub const QUAD_CORNERS: i32 = 4;

/// The number of vertex attributes that read a record.
pub const ATTRIBUTES: usize = 5;

/// A named vertex attribute: `components` scalars of each record, starting
/// `offset` bytes into it.
#[derive(Clone, Copy, Debug, PartialEq, Eq)]
pub struct Attribute {
    pub name: &'static str,
    pub components: i32,
    pub offset: usize,
}

/// An axis-aligned rectangle, from its least to its greatest coordinate on
/// either axis.
#[derive(Debug, PartialEq)]
pub struct Rect<T> {
    pub min_x: T,
    pub min_y: T,
    pub max_x: T,
    pub max_y: T,
}

/// The name of the attribute at `index`, in the order of the record.
pub open spec fn attribute_name(index: int) -> Seq<char> {
    if index == 0 {
        "left_top"@
    } else if index == 1 {
        "right_bottom"@
    } else if index == 2 {
        "tex_left_top"@
    } else if index == 3 {
        "tex_right_bottom"@
    } else {
        "color"@
    }
}

/// The number of scalars that the attribute at `index` reads.
pub open spec fn attribute_components(index: int) -> int {
    if index == 0 {
        3
    } else if index == 1 {
        2
    } else if index == 2 {
        2
    } else if index == 3 {
        2
    } else {
        4
    }
}

/// The number of scalars that the attributes before `index` read together.
pub open spec fn scalars_before(index: int) -> int
    decreases index,
{
    if index <= 0 {
        0
    } else {
        scalars_before(index - 1) + attribute_components(index - 1)
    }
}

/// The scalars of `record` that `attribute` reads.
pub open spec fn field<T>(record: Seq<T>, attribute: Attribute) -> Seq<T> {
    let first: int = attribute.offset as int / SCALAR_BYTES as int;
    record.subrange(first, first + attribute.components)
}

/// The attribute at `index`, in the order of the record.
pub open spec fn attribute_at(index: int, attribute: Attribute) -> bool {
    &&& attribute.name@ == attribute_name(index)
    &&& attribute.components == attribute_components(index)
    &&& attribute.offset == SCALAR_BYTES * scalars_before(index)
}

/// The record that [`pack_vertex`] makes of a quad.
pub open spec fn packed<T>(pixels: Rect<T>, depth: T, texture: Rect<T>, color: Seq<T>) -> Seq<T> {
    seq![
        pixels.min_x,
        pixels.max_y,
        depth,
        pixels.max_x,
        pixels.min_y,
        texture.min_x,
        texture.max_y,
        texture.max_x,
        texture.min_y,
        color[0],
        color[1],
        color[2],
        color[3],
    ]
}

/// The attributes leave no gap and no overlap: each begins where the one
/// before it ends, and together they cover the record exactly.
pub proof fn lemma_attributes_tile_record()
    ensures
        scalars_before(0) == 0,
        forall|index: int| 0 <= index < ATTRIBUTES ==> scalars_before(index + 1) == #[trigger] scalars_before(index)
            + attribute_components(index),
        scalars_before(ATTRIBUTES as int) == VERTEX_SCALARS,
        SCALAR_BYTES * VERTEX_SCALARS == VERTEX_BYTES,
{
    reveal_with_fuel(scalars_before, 6);
}

/// Where each attribute begins, counted in scalars.
pub proof fn lemma_attribute_starts()
    ensures
        scalars_before(0) == 0,
        scalars_before(1) == 3,
        scalars_before(2) == 5,
        scalars_before(3) == 7,
        scalars_before(4) == 9,
        scalars_before(5) == 13,
{
    reveal_with_fuel(scalars_before, 6);
}

/// Each attribute reads its own part of a packed record: the corners of the
/// quad with its depth, the corners of the texture rectangle, and the color.
pub proof fn lemma_attributes_read_packed_record<T>(
    pixels: Rect<T>,
    depth: T,
    texture: Rect<T>,
    color: Seq<T>,
    attributes: Seq<Attribute>,
)
    requires
        color.len() == 4,
        attributes.len() == ATTRIBUTES,
        forall|index: int| 0 <= index < ATTRIBUTES ==> attribute_at(index, #[trigger] attributes[index]),
    ensures
        field(packed(pixels, depth, texture, color), attributes[0]) == seq![pixels.min_x, pixels.max_y, depth],
        field(packed(pixels, depth, texture, color), attributes[1]) == seq![pixels.max_x, pixels.min_y],
        field(packed(pixels, depth, texture, color), attributes[2]) == seq![texture.min_x, texture.max_y],
        field(packed(pixels, depth, texture, color), attributes[3]) == seq![texture.max_x, texture.min_y],
        field(packed(pixels, depth, texture, color), attributes[4]) == color,
{
    lemma_attribute_starts();
    assert(attribute_at(0, attributes[0]));
    assert(attribute_at(1, attributes[1]));
    assert(attribute_at(2, attributes[2]));
    assert(attribute_at(3, attributes[3]));
    assert(attribute_at(4, attributes[4]));
    let record: Seq<T> = packed(pixels, depth, texture, color);
    assert(field(record, attributes[0]) =~= seq![pixels.min_x, pixels.max_y, depth]);
    assert(field(record, attributes[1]) =~= seq![pixels.max_x, pixels.min_y]);
    assert(field(record, attributes[2]) =~= seq![texture.min_x, texture.max_y]);
    assert(field(record, attributes[3]) =~= seq![texture.max_x, texture.min_y]);
    assert(field(record, attributes[4]) =~= color);
}

/// The vertex attributes, in the order of the record.
pub fn vertex_attributes() -> (attributes: Vec<Attribute>)
    ensures
        attributes@.len() == ATTRIBUTES,
        forall|index: int| 0 <= index < ATTRIBUTES ==> attribute_at(index, #[trigger] attributes@[index]),
{
    let names: [&'static str; 5] = ["left_top", "right_bottom", "tex_left_top", "tex_right_bottom", "color"];
    let components: [i32; 5] = [3, 2, 2, 2, 4];
    let mut attributes: Vec<Attribute> = Vec::new();
    let mut offset: usize = 0;
    let mut index: usize = 0;
    while index < ATTRIBUTES
        invariant
            index <= ATTRIBUTES,
            attributes@.len() == index,
            offset == SCALAR_BYTES * scalars_before(index as int),
            offset <= VERTEX_BYTES,
            forall|i: int| 0 <= i < 5 ==> names@[i]@ == attribute_name(i),
            forall|i: int| 0 <= i < 5 ==> components@[i] == attribute_components(i),
            forall|i: int| 0 <= i < index ==> attribute_at(i, #[trigger] attributes@[i]),
        decreases ATTRIBUTES - index,
    {
        proof {
            lemma_attribute_starts();
        }
        attributes.push(Attribute { name: names[index], components: components[index], offset });
        offset = offset + SCALAR_BYTES * (components[index] as usize);
        index = index + 1;
    }
    attributes
}

/// Packs one glyph quad into a vertex record.
///
/// `pixels` is the rectangle of the quad with `depth` its third coordinate,
/// `texture` the rectangle of the glyph in the atlas. The top of either is the
/// side of greatest `y`. Each attribute of [`vertex_attributes`] then reads
/// its own part of the record.
pub fn pack_vertex<T: Copy>(pixels: Rect<T>, depth: T, texture: Rect<T>, color: [T; 4]) -> (record: [T; 13])
    ensures
        record@ == packed(pixels, depth, texture, color@),
{
    [
        pixels.min_x,
        pixels.max_y,
        depth,
        pixels.max_x,
        pixels.min_y,
        texture.min_x,
        texture.max_y,
        texture.max_x,
        texture.min_y,
        color[0],
        color[1],
        color[2],
        color[3],
    ]
}

/// The entries of a 3×3 matrix given by its rows, column by column: position
/// `i` holds the entry of row `i % 3` and column `i / 3`.
pub open spec fn by_columns<T>(rows: [[T; 3]; 3]) -> Seq<T> {
    Seq::new(9, |i: int| rows@[i % 3]@[i / 3])
}

/// Flattens a 3×3 matrix given by its rows into column-major order: the entry
/// of row `r` and column `c` comes to stand at position `3 * c + r`.
pub fn column_major<T: Copy>(rows: [[T; 3]; 3]) -> (flat: [T; 9])
    ensures
        flat@ == by_columns(rows),
        forall|r: int, c: int| 0 <= r < 3 && 0 <= c < 3 ==> flat@[3 * c + r] == #[trigger] rows@[r]@[c],
{
    [
        rows[0][0],
        rows[1][0],
        rows[2][0],
        rows[0][1],
        rows[1][1],
        rows[2][1],
        rows[0][2],
        rows[1][2],
        rows[2][2],
    ]
}

} // verus!
