//! The operations the program asks of the graphics device and of the window.

use vstd::prelude::*;

verus! {

/// One operation for the adapter to carry out.
///
/// Floating-point arguments travel as their IEEE-754 single-precision bit
/// patterns, so that a command is made of integers and text only.
#[derive(Debug, PartialEq, Eq)]
pub enum Command {
    /// Replace the source text of a shader object.
    ShaderSource { shader: u32, source: String },
    /// Compile the source held by a shader object.
    CompileShader { shader: u32 },
    /// Attach a shader object to a program object.
    AttachShader { program: u32, shader: u32 },
    /// Link the shader objects attached to a program object.
    LinkProgram { program: u32 },
    /// Delete a shader object.
    DeleteShader { shader: u32 },
    /// Make a vertex array the current one; `0` unbinds.
    BindVertexArray { array: u32 },
    /// Bind a buffer to the array-buffer target; `0` unbinds.
    BindArrayBuffer { buffer: u32 },
    /// Fill the buffer bound to the array-buffer target with `size` bytes, the
    /// floats whose bit patterns `data` lists, under the static-draw usage hint.
    StaticArrayBufferData { size: usize, data: Vec<u32> },
    /// Describe a vertex attribute of `components` floats per vertex, read from
    /// the bound array buffer every `stride` bytes starting at byte `offset`.
    FloatVertexAttribPointer {
        index: u32,
        components: i32,
        normalized: bool,
        stride: i32,
        offset: usize,
    },
    /// Enable a vertex attribute.
    EnableVertexAttribArray { index: u32 },
    /// Map rendered output onto a rectangle of the window.
    Viewport { x: i32, y: i32, width: i32, height: i32 },
    /// Choose the colour that clearing writes, as four float bit patterns.
    ClearColor { red: u32, green: u32, blue: u32, alpha: u32 },
    /// Clear the colour buffer.
    ClearColorBuffer,
    /// Make a program object the current one.
    UseProgram { program: u32 },
    /// Draw `count` vertices, starting at `first`, as triangles.
    DrawTriangles { first: i32, count: i32 },
    /// Swap the window's front and back buffers.
    SwapBuffers,
    /// Let the window system deliver pending input to the event queue.
    PollEvents,
}

/// What a [`Command`] says, with text and data as sequences.
pub enum CommandView {
    ShaderSource { shader: u32, source: Seq<char> },
    CompileShader { shader: u32 },
    AttachShader { program: u32, shader: u32 },
    LinkProgram { program: u32 },
    DeleteShader { shader: u32 },
    BindVertexArray { array: u32 },
    BindArrayBuffer { buffer: u32 },
    StaticArrayBufferData { size: usize, data: Seq<u32> },
    FloatVertexAttribPointer {
        index: u32,
        components: i32,
        normalized: bool,
        stride: i32,
        offset: usize,
    },
    EnableVertexAttribArray { index: u32 },
    Viewport { x: i32, y: i32, width: i32, height: i32 },
    ClearColor { red: u32, green: u32, blue: u32, alpha: u32 },
    ClearColorBuffer,
    UseProgram { program: u32 },
    DrawTriangles { first: i32, count: i32 },
    SwapBuffers,
    PollEvents,
}

impl View for Command {
    type V = CommandView;

    open spec fn view(&self) -> CommandView {
        match *self {
            Command::ShaderSource { shader, source } => CommandView::ShaderSource {
                shader,
                source: source@,
            },
            Command::CompileShader { shader } => CommandView::CompileShader { shader },
            Command::AttachShader { program, shader } => CommandView::AttachShader {
                program,
                shader,
            },
            Command::LinkProgram { program } => CommandView::LinkProgram { program },
            Command::DeleteShader { shader } => CommandView::DeleteShader { shader },
            Command::BindVertexArray { array } => CommandView::BindVertexArray { array },
            Command::BindArrayBuffer { buffer } => CommandView::BindArrayBuffer { buffer },
            Command::StaticArrayBufferData { size, data } => CommandView::StaticArrayBufferData {
                size,
                data: data@,
            },
            Command::FloatVertexAttribPointer { index, components, normalized, stride, offset } =>
                CommandView::FloatVertexAttribPointer {
                    index,
                    components,
                    normalized,
                    stride,
                    offset,
                },
            Command::EnableVertexAttribArray { index } => CommandView::EnableVertexAttribArray {
                index,
            },
            Command::Viewport { x, y, width, height } => CommandView::Viewport {
                x,
                y,
                width,
                height,
            },
            Command::ClearColor { red, green, blue, alpha } => CommandView::ClearColor {
                red,
                green,
                blue,
                alpha,
            },
            Command::ClearColorBuffer => CommandView::ClearColorBuffer,
            Command::UseProgram { program } => CommandView::UseProgram { program },
            Command::DrawTriangles { first, count } => CommandView::DrawTriangles { first, count },
            Command::SwapBuffers => CommandView::SwapBuffers,
            Command::PollEvents => CommandView::PollEvents,
        }
    }
}

impl DeepView for Command {
    type V = CommandView;

    open spec fn deep_view(&self) -> CommandView {
        self@
    }
}

} // verus!
