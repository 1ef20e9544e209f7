use vst_gui::layout::{
    column_major, pack_vertex, vertex_attributes, Attribute, Rect, ATTRIBUTES, QUAD_CORNERS, SCALAR_BYTES,
    VERTEX_BYTES, VERTEX_SCALARS,
};

#[test]
fn record_is_thirteen_scalars_of_four_bytes() {
    assert_eq!(VERTEX_SCALARS, 13);
    assert_eq!(SCALAR_BYTES, 4);
    assert_eq!(VERTEX_BYTES, 52);
    assert_eq!(VERTEX_BYTES, std::mem::size_of::<[f32; 13]>());
    assert_eq!(QUAD_CORNERS, 4);
    assert_eq!(ATTRIBUTES, 5);
}

#[test]
fn attributes_follow_the_record() {
    assert_eq!(
        vertex_attributes(),
        vec![
            Attribute { name: "left_top", components: 3, offset: 0 },
            Attribute { name: "right_bottom", components: 2, offset: 12 },
            Attribute { name: "tex_left_top", components: 2, offset: 20 },
            Attribute { name: "tex_right_bottom", components: 2, offset: 28 },
            Attribute { name: "color", components: 4, offset: 36 },
        ]
    );
}

#[test]
fn attributes_cover_the_record_without_gaps() {
    let mut end: usize = 0;
    for attribute in vertex_attributes() {
        assert_eq!(attribute.offset, end);
        end += SCALAR_BYTES * attribute.components as usize;
    }
    assert_eq!(end, VERTEX_BYTES);
}

#[test]
fn quad_is_packed_in_attribute_order() {
    let pixels = Rect { min_x: 10.0f32, min_y: 20.0, max_x: 30.0, max_y: 40.0 };
    let texture = Rect { min_x: 0.125f32, min_y: 0.25, max_x: 0.5, max_y: 0.75 };
    let record = pack_vertex(pixels, 0.5, texture, [1.0, 0.0, 0.25, 0.75]);
    assert_eq!(record, [10.0, 40.0, 0.5, 30.0, 20.0, 0.125, 0.75, 0.5, 0.25, 1.0, 0.0, 0.25, 0.75]);
}

#[test]
fn attributes_read_their_part_of_a_packed_quad() {
    let pixels = Rect { min_x: 1u32, min_y: 2, max_x: 3, max_y: 4 };
    let texture = Rect { min_x: 5u32, min_y: 6, max_x: 7, max_y: 8 };
    let record = pack_vertex(pixels, 9, texture, [10, 11, 12, 13]);
    let fields: Vec<Vec<u32>> = vertex_attributes()
        .iter()
        .map(|attribute| {
            let first = attribute.offset / SCALAR_BYTES;
            record[first..first + attribute.components as usize].to_vec()
        })
        .collect();
    assert_eq!(fields, vec![vec![1, 4, 9], vec![3, 2], vec![5, 8], vec![7, 6], vec![10, 11, 12, 13]]);
}

#[test]
fn rows_are_flattened_column_by_column() {
    let rows: [[f32; 3]; 3] = [[1.0, 2.0, 3.0], [4.0, 5.0, 6.0], [7.0, 8.0, 9.0]];
    assert_eq!(column_major(rows), [1.0, 4.0, 7.0, 2.0, 5.0, 8.0, 3.0, 6.0, 9.0]);
}

#[test]
fn translation_ends_up_in_the_last_column() {
    let rows: [[i32; 3]; 3] = [[1, 0, -7], [0, 1, 9], [0, 0, 1]];
    let flat = column_major(rows);
    assert_eq!(flat, [1, 0, 0, 0, 1, 0, -7, 9, 1]);
    assert_eq!((flat[6], flat[7]), (-7, 9));
}
