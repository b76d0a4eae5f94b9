// The graphics layer (textures, vertex arrays, views, float transforms and
// vectors) is not part of this crate; these tests hold no case.

#[test]
fn shape() {}

#[test]
fn texture_open() {}

#[test]
fn texture_resize() {}

#[test]
fn texture_update_image() {}

#[test]
fn texture_draw() {}

#[test]
fn texture_bind() {}

#[test]
fn vertex_array_bounds() {}

#[test]
fn vertex_array_draw() {}

#[test]
fn vertex_array_bind() {}

#[test]
fn view_tests() {}

#[test]
fn transform_transform_with_matrix() {}

#[test]
fn transform_transform_translate() {}

#[test]
fn transform_transform_rotate() {}

#[test]
fn transform_scale() {}

#[test]
fn transform_transform_transform_position() {}

#[test]
fn transform_transform_transform_box() {}

#[test]
fn transformable_tests() {}

#[test]
fn transformer_transform_with_matrix() {}

#[test]
fn transformer_transform_translate() {}

#[test]
fn transformer_transform_rotate() {}

#[test]
fn transform_magnify() {}

#[test]
fn transformer_transform_transform_position() {}

#[test]
fn transformer_transform_transform_box() {}

#[test]
fn vector_normalize() {}

#[test]
fn vector_cross_product() {}
