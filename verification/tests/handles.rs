//! Opaque handles and their zero sentinels.

use hitchcock::gl::{
    buffer_ids, buffers_from_raw, textures_from_raw, vertex_array_ids, vertex_arrays_from_raw,
    Buffer, Program, Shader, Texture, VertexArray,
};
use hitchcock::glfw::{GlProc, Monitor, Window};
use hitchcock::imgui::{Context, DrawData, FontAtlas};

#[test]
fn zero_handles_compare_equal_across_constructions() {
    assert_eq!(Buffer::zero(), Buffer::zero());
    assert_eq!(VertexArray::zero(), VertexArray::zero());
    assert_eq!(Texture::zero(), Texture::zero());
    assert_eq!(Buffer::zero().raw(), 0);
    assert_eq!(VertexArray::zero().raw(), 0);
    assert_eq!(Texture::zero().raw(), 0);
}

#[test]
fn zero_handles_distinct_from_generated_handles() {
    assert_ne!(Buffer::from_raw(1), Buffer::zero());
    assert_ne!(VertexArray::from_raw(2), VertexArray::zero());
    assert_ne!(Texture::from_raw(3), Texture::zero());
}

#[test]
fn handles_carry_their_raw_names() {
    assert_eq!(Shader::from_raw(11).raw(), 11);
    assert_eq!(Program::from_raw(12).raw(), 12);
    assert_eq!(Buffer::from_raw(13).raw(), 13);
    assert_eq!(VertexArray::from_raw(14).raw(), 14);
    assert_eq!(Texture::from_raw(15).raw(), 15);
    assert_eq!(Window::from_addr(0x1000).addr(), 0x1000);
    assert_eq!(Monitor::from_addr(0x2000).addr(), 0x2000);
    assert_eq!(GlProc::from_addr(0x3000).addr(), 0x3000);
    assert_eq!(Context::from_addr(0x4000).addr(), 0x4000);
    assert_eq!(FontAtlas::from_addr(0x5000).addr(), 0x5000);
    assert_eq!(DrawData::from_addr(0x6000).addr(), 0x6000);
}

#[test]
fn generated_handles_keep_assignment_order() {
    let ids = vec![5u32, 9, 2];
    let buffers = buffers_from_raw(&ids);
    assert_eq!(buffers.len(), 3);
    assert_eq!(buffers[0].raw(), 5);
    assert_eq!(buffers[1].raw(), 9);
    assert_eq!(buffers[2].raw(), 2);

    let textures = textures_from_raw(&ids);
    assert_eq!(textures[0].raw(), 5);
    assert_eq!(textures[2].raw(), 2);

    let arrays = vertex_arrays_from_raw(&ids);
    assert_eq!(arrays[0].raw(), 5);
    assert_eq!(arrays[1].raw(), 9);
}

#[test]
fn deletion_batches_keep_order() {
    let buffers = vec![Buffer::from_raw(7), Buffer::from_raw(3), Buffer::zero()];
    assert_eq!(buffer_ids(&buffers), vec![7, 3, 0]);

    let arrays = vec![VertexArray::from_raw(4), VertexArray::from_raw(6)];
    assert_eq!(vertex_array_ids(&arrays), vec![4, 6]);
}
