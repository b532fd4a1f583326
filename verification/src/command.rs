//! The requests that the library makes of its host.

use vstd::prelude::*;

verus! {

/// The binding point of a buffer.
#[derive(Clone, Copy, Debug, PartialEq, Eq, Structural)]
pub enum BufferTarget {
    /// Vertex records.
    Array,
    /// Vertex indices.
    ElementArray,
}

/// How often the contents of a buffer are expected to change.
#[derive(Clone, Copy, Debug, PartialEq, Eq, Structural)]
pub enum Usage {
    Static,
    Dynamic,
}

/// A stage of the shading pipeline.
#[derive(Clone, Copy, Debug, PartialEq, Eq, Structural)]
pub enum ShaderKind {
    Vertex,
    Fragment,
}

/// The kind of object behind a name.
#[derive(Clone, Copy, Debug, PartialEq, Eq, Structural)]
pub enum Kind {
    Buffer,
    Shader(ShaderKind),
    Program,
    Texture,
    VertexArray,
}

/// How texture coordinates outside the unit square are treated.
#[derive(Clone, Copy, Debug, PartialEq, Eq, Structural)]
pub enum Wrap {
    Repeat,
    MirroredRepeat,
    ClampToEdge,
}

/// How a texture is sampled between texels.
#[derive(Clone, Copy, Debug, PartialEq, Eq, Structural)]
pub enum Filter {
    Nearest,
    Linear,
}

/// A sampler parameter of the bound texture.
#[derive(Clone, Copy, Debug, PartialEq, Eq, Structural)]
pub enum Sampling {
    WrapS(Wrap),
    WrapT(Wrap),
    Minify(Filter),
    Magnify(Filter),
}

/// A weight in the blending equation.
#[derive(Clone, Copy, Debug, PartialEq, Eq, Structural)]
pub enum BlendFactor {
    SourceAlpha,
    OneMinusSourceAlpha,
}

/// One request to the host, in the form in which it is queued.
///
/// Objects are referred to by the names that the [`Context`](crate::context::Context)
/// hands out; the host keeps the correspondence with the driver's own handles.
/// `QueryCompile`, `QueryLink`, `QueryAttribute` and `ReadFile` are answered by
/// the host; every other command has no answer.
#[derive(Debug, PartialEq, Eq)]
pub enum Command {
    /// Create an object of the given kind under `name`.
    Create { kind: Kind, name: u32 },
    /// Destroy the object `name`.
    Delete { kind: Kind, name: u32 },
    /// Make buffer `name` current for `target`.
    BindBuffer { target: BufferTarget, name: u32 },
    /// Replace the storage of the buffer current for `target` with `data`.
    BufferData { target: BufferTarget, data: Vec<u8>, usage: Usage },
    /// Give shader `shader` its source text, as bytes without a terminator.
    ShaderSource { shader: u32, source: Vec<u8> },
    /// Compile shader `shader`.
    CompileShader { shader: u32 },
    /// Report the compile status and diagnostic log of `shader`.
    QueryCompile { shader: u32 },
    /// Attach `shader` to `program`.
    AttachShader { program: u32, shader: u32 },
    /// Link `program`.
    LinkProgram { program: u32 },
    /// Report the link status and diagnostic log of `program`.
    QueryLink { program: u32 },
    /// Make `program` the active program.
    UseProgram { program: u32 },
    /// Report the slot of the vertex attribute called `attribute` in
    /// `program`.
    QueryAttribute { program: u32, attribute: Vec<u8> },
    /// Write `value` to the integer uniform called `uniform` of `program`,
    /// wherever the driver locates it.
    SetUniform { program: u32, uniform: Vec<u8>, value: i32 },
    /// Select texture unit `unit`.
    ActiveTexture { unit: u32 },
    /// Bind texture `name` to the selected unit.
    BindTexture { name: u32 },
    /// Set one sampler parameter of the bound texture.
    TextureParameter { sampling: Sampling },
    /// Replace the image of the bound texture with `width` by `height`
    /// pixels of four 8-bit channels each.
    TextureImage { width: u32, height: u32, pixels: Vec<u8> },
    /// Derive the reduced copies of the bound texture's image.
    GenerateMipmap,
    /// Make vertex layout `name` current.
    BindVertexArray { name: u32 },
    /// Declare that attribute `location` reads `components` consecutive
    /// floating-point values at byte `offset` of each `stride`-byte record
    /// of the buffer current for [`BufferTarget::Array`].
    VertexAttribute { location: u32, components: i32, stride: i32, offset: i32 },
    /// Enable attribute `location` of the current layout.
    EnableAttribute { location: u32 },
    /// Choose the weights of the incoming and of the stored colour in
    /// blending.
    BlendFunction { incoming: BlendFactor, stored: BlendFactor },
    /// Turn blending on.
    EnableBlend,
    /// Set the colour that a clear writes; each channel is the bit pattern
    /// of a single-precision number.
    ClearColor { red: u32, green: u32, blue: u32, alpha: u32 },
    /// Clear the colour target.
    Clear,
    /// Draw triangles from `count` 32-bit indices of the buffer current for
    /// [`BufferTarget::ElementArray`].
    DrawElements { count: i32 },
    /// Read the whole file at `path`.
    ReadFile { path: String },
}

/// What a [`Command`] says, with its payload as mathematical sequences.
pub enum Op {
    Create { kind: Kind, name: u32 },
    Delete { kind: Kind, name: u32 },
    BindBuffer { target: BufferTarget, name: u32 },
    BufferData { target: BufferTarget, data: Seq<u8>, usage: Usage },
    ShaderSource { shader: u32, source: Seq<u8> },
    CompileShader { shader: u32 },
    QueryCompile { shader: u32 },
    AttachShader { program: u32, shader: u32 },
    LinkProgram { program: u32 },
    QueryLink { program: u32 },
    UseProgram { program: u32 },
    QueryAttribute { program: u32, attribute: Seq<u8> },
    SetUniform { program: u32, uniform: Seq<u8>, value: i32 },
    ActiveTexture { unit: u32 },
    BindTexture { name: u32 },
    TextureParameter { sampling: Sampling },
    TextureImage { width: u32, height: u32, pixels: Seq<u8> },
    GenerateMipmap,
    BindVertexArray { name: u32 },
    VertexAttribute { location: u32, components: i32, stride: i32, offset: i32 },
    EnableAttribute { location: u32 },
    BlendFunction { incoming: BlendFactor, stored: BlendFactor },
    EnableBlend,
    ClearColor { red: u32, green: u32, blue: u32, alpha: u32 },
    Clear,
    DrawElements { count: i32 },
    ReadFile { path: Seq<char> },
}

impl View for Command {
    type V = Op;

    open spec fn view(&self) -> Op {
        match *self {
            Command::Create { kind, name } => Op::Create { kind, name },
            Command::Delete { kind, name } => Op::Delete { kind, name },
            Command::BindBuffer { target, name } => Op::BindBuffer { target, name },
            Command::BufferData { target, data, usage } => Op::BufferData {
                target,
                data: data@,
                usage,
            },
            Command::ShaderSource { shader, source } => Op::ShaderSource {
                shader,
                source: source@,
            },
            Command::CompileShader { shader } => Op::CompileShader { shader },
            Command::QueryCompile { shader } => Op::QueryCompile { shader },
            Command::AttachShader { program, shader } => Op::AttachShader { program, shader },
            Command::LinkProgram { program } => Op::LinkProgram { program },
            Command::QueryLink { program } => Op::QueryLink { program },
            Command::UseProgram { program } => Op::UseProgram { program },
            Command::QueryAttribute { program, attribute } => Op::QueryAttribute {
                program,
                attribute: attribute@,
            },
            Command::SetUniform { program, uniform, value } => Op::SetUniform {
                program,
                uniform: uniform@,
                value,
            },
            Command::ActiveTexture { unit } => Op::ActiveTexture { unit },
            Command::BindTexture { name } => Op::BindTexture { name },
            Command::TextureParameter { sampling } => Op::TextureParameter { sampling },
            Command::TextureImage { width, height, pixels } => Op::TextureImage {
                width,
                height,
                pixels: pixels@,
            },
            Command::GenerateMipmap => Op::GenerateMipmap,
            Command::BindVertexArray { name } => Op::BindVertexArray { name },
            Command::VertexAttribute { location, components, stride, offset } => {
                Op::VertexAttribute { location, components, stride, offset }
            },
            Command::EnableAttribute { location } => Op::EnableAttribute { location },
            Command::BlendFunction { incoming, stored } => Op::BlendFunction { incoming, stored },
            Command::EnableBlend => Op::EnableBlend,
            Command::ClearColor { red, green, blue, alpha } => Op::ClearColor {
                red,
                green,
                blue,
                alpha,
            },
            Command::Clear => Op::Clear,
            Command::DrawElements { count } => Op::DrawElements { count },
            Command::ReadFile { path } => Op::ReadFile { path: path@ },
        }
    }
}

/// The views of a sequence of commands, in order.
pub open spec fn ops_of(commands: Seq<Command>) -> Seq<Op> {
    commands.map_values(|c: Command| c@)
}

} // verus!
