//! The geometry uploader: the triangle's vertices, and the commands that put
//! them on the device and describe their layout.

use crate::command::{Command, CommandView};
use vstd::prelude::*;

verus! {

/// The size of one float, in bytes.
pub const FLOAT_SIZE: usize = 4;

/// The number of floats that make up one vertex: x, y and z.
pub const VERTEX_COMPONENTS: i32 = 3;

/// The index of the one attribute that the vertices have: their position.
pub const POSITION_ATTRIBUTE: u32 = 0;

/// The bits of the float -0.5.
pub const MINUS_HALF: u32 = 0xbf00_0000;

/// The bits of the float 0.5.
pub const HALF: u32 = 0x3f00_0000;

/// The bits of the float 0.0.
pub const ZERO: u32 = 0;

/// The triangle, in normalized device coordinates: the bit patterns of the x,
/// y and z of its lower left, lower right and top vertex.
pub open spec fn triangle() -> Seq<u32> {
    seq![MINUS_HALF, MINUS_HALF, ZERO, HALF, MINUS_HALF, ZERO, ZERO, HALF, ZERO]
}

/// The number of bytes that the triangle takes on the device.
pub open spec fn triangle_bytes() -> int {
    triangle().len() * FLOAT_SIZE
}

/// The distance, in bytes, from one vertex to the next: the vertices are
/// tightly packed.
pub open spec fn vertex_stride() -> int {
    VERTEX_COMPONENTS * FLOAT_SIZE
}

/// The commands that upload the triangle into the buffer `vbo` and record its
/// layout in the vertex array `vao`.
pub open spec fn upload_commands(vao: u32, vbo: u32) -> Seq<CommandView> {
    seq![
        CommandView::BindVertexArray { array: vao },
        CommandView::BindArrayBuffer { buffer: vbo },
        CommandView::StaticArrayBufferData { size: triangle_bytes() as usize, data: triangle() },
        CommandView::FloatVertexAttribPointer {
            index: POSITION_ATTRIBUTE,
            components: VERTEX_COMPONENTS,
            normalized: false,
            stride: vertex_stride() as i32,
            offset: 0,
        },
        CommandView::EnableVertexAttribArray { index: POSITION_ATTRIBUTE },
        CommandView::BindArrayBuffer { buffer: 0 },
        CommandView::BindVertexArray { array: 0 },
    ]
}

/// The triangle takes nine floats, thirty-six bytes, and each vertex starts
/// twelve bytes after the one before.
pub proof fn lemma_triangle_layout()
    ensures
        triangle().len() == 9,
        triangle_bytes() == 9 * FLOAT_SIZE,
        triangle_bytes() == 36,
        vertex_stride() == 3 * FLOAT_SIZE,
        vertex_stride() == 12,
{
}

/// Among the commands of an upload, exactly one describes a vertex attribute:
/// attribute 0, three floats to a vertex, tightly packed.
pub proof fn lemma_upload_declares_one_attribute(vao: u32, vbo: u32)
    ensures
        upload_commands(vao, vbo)[3] == (CommandView::FloatVertexAttribPointer {
            index: 0,
            components: 3,
            normalized: false,
            stride: 12,
            offset: 0,
        }),
        forall|i: int|
            0 <= i < upload_commands(vao, vbo).len() && (#[trigger] upload_commands(
                vao,
                vbo,
            )[i]) is FloatVertexAttribPointer ==> i == 3,
{
}

/// The vertices of the triangle, as float bit patterns.
pub fn triangle_vertices() -> (vertices: Vec<u32>)
    ensures
        vertices@ == triangle(),
{
    let mut vertices: Vec<u32> = Vec::new();
    vertices.push(MINUS_HALF);
    vertices.push(MINUS_HALF);
    vertices.push(ZERO);
    vertices.push(HALF);
    vertices.push(MINUS_HALF);
    vertices.push(ZERO);
    vertices.push(ZERO);
    vertices.push(HALF);
    vertices.push(ZERO);
    vertices
}

/// Uploads the triangle: the commands that fill a vertex array and a buffer
/// which the device has allocated.
///
/// The array is bound before the buffer. The vertices go into the buffer as
/// static data. Attribute 0 is declared as three floats to a vertex, not
/// normalized, tightly packed, and enabled. Then the buffer and the array are
/// unbound, in that order.
pub fn create_vao(vao: u32, vbo: u32) -> (commands: Vec<Command>)
    ensures
        commands.deep_view() == upload_commands(vao, vbo),
{
    let vertices = triangle_vertices();
    let size = vertices.len() * FLOAT_SIZE;
    let stride = VERTEX_COMPONENTS * (FLOAT_SIZE as i32);
    let mut commands: Vec<Command> = Vec::new();
    commands.push(Command::BindVertexArray { array: vao });
    commands.push(Command::BindArrayBuffer { buffer: vbo });
    commands.push(Command::StaticArrayBufferData { size, data: vertices });
    commands.push(
        Command::FloatVertexAttribPointer {
            index: POSITION_ATTRIBUTE,
            components: VERTEX_COMPONENTS,
            normalized: false,
            stride,
            offset: 0,
        },
    );
    commands.push(Command::EnableVertexAttribArray { index: POSITION_ATTRIBUTE });
    commands.push(Command::BindArrayBuffer { buffer: 0 });
    commands.push(Command::BindVertexArray { array: 0 });
    commands
}

} // verus!
