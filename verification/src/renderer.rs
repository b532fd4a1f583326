//! The renderer: one textured quad, assembled once and drawn every frame.
//!
//! Assembly needs seven answers from outside the library: three build
//! reports, two attribute slots and the contents of two image files. It is
//! therefore a chain of states, each a type of its own that waits for one
//! answer: [`Renderer::begin`] yields the first, `advance` moves from one to
//! the next, and [`Renderer::new`] turns the last into a [`Renderer`]. A
//! failure on the way destroys what the attempt had created and returns the
//! error: nothing between [`Stage::Uninitialized`] and [`Stage::Ready`]
//! outlives a failed attempt.

use crate::buffer::Buffer;
use crate::command::{BlendFactor, BufferTarget, Command, Filter, Kind, Op, ShaderKind, Usage, Wrap};
use crate::context::Context;
use crate::geometry::{encode_words, words_bytes};
use crate::program::{Linkage, ShaderProgram};
use crate::shader::{
    nul_free, reports_failure, BuildReport, Compilation, Shader, ShaderError, BUILD_OK,
};
use crate::texture::{holds_image, image_of, Texture};
use crate::vertex_array::VertexArray;
use image::ImageError;
use vstd::pervasive::unreached;
use vstd::prelude::*;
use vstd::string::is_ascii_spec_bytes;
use vstd::string::StringSliceAdditionalSpecFns;

verus! {

/// The source of the vertex stage: passes the position on and hands the
/// texture coordinate to the fragment stage.
pub const VERTEX_SHADER_SOURCE: &'static str = r#"
#version 330
in vec2 position;
in vec2 vertexTexCoord;

out vec2 texCoord;

void main() {
    gl_Position = vec4(position, 0.0, 1.0);
    texCoord = vertexTexCoord;
}
"#;

/// The source of the fragment stage: mixes the two textures.
pub const FRAGMENT_SHADER_SOURCE: &'static str = r#"
#version 330
out vec4 FragColor;

in vec2 texCoord;

uniform sampler2D texture0;
uniform sampler2D texture1;

void main() {
    vec4 color0 = texture(texture0, texCoord);
    vec4 color1 = texture(texture1, texCoord);
    FragColor = mix(color0, color1, 0.6) * color0.a;
}
"#;

/// The name of the position input of the vertex stage.
pub const POSITION_ATTRIBUTE: &'static str = "position";

/// The name of the texture coordinate input of the vertex stage.
pub const TEX_COORD_ATTRIBUTE: &'static str = "vertexTexCoord";

/// The name of the sampler of the first texture.
pub const FIRST_SAMPLER: &'static str = "texture0";

/// The name of the sampler of the second texture.
pub const SECOND_SAMPLER: &'static str = "texture1";

/// The file that holds the image of the first texture.
pub const FIRST_IMAGE_PATH: &'static str = "assets/logo.png";

/// The file that holds the image of the second texture.
pub const SECOND_IMAGE_PATH: &'static str = "assets/rust.jpg";

/// The four corners of the quad. A record is a position of two
/// single-precision numbers followed by a texture coordinate of two; each
/// number is given by its bit pattern.
pub const VERTICES: [u32; 16] = [
    0xBF00_0000, 0xBF00_0000, 0x0000_0000, 0x3F80_0000,
    0x3F00_0000, 0xBF00_0000, 0x3F80_0000, 0x3F80_0000,
    0x3F00_0000, 0x3F00_0000, 0x3F80_0000, 0x0000_0000,
    0xBF00_0000, 0x3F00_0000, 0x0000_0000, 0x0000_0000,
];

/// The corners of the two triangles that make up the quad.
pub const INDICES: [u32; 6] = [0, 1, 2, 2, 3, 0];

/// The number of indices that a frame draws.
pub const INDEX_COUNT: i32 = 6;

/// The size of a vertex record in bytes.
pub const VERTEX_STRIDE: i32 = 16;

/// The number of components of the position.
pub const POSITION_COMPONENTS: i32 = 2;

/// The byte at which the position starts within a record.
pub const POSITION_OFFSET: i32 = 0;

/// The number of components of the texture coordinate.
pub const TEX_COORD_COMPONENTS: i32 = 2;

/// The byte at which the texture coordinate starts within a record.
pub const TEX_COORD_OFFSET: i32 = 8;

/// The bit pattern of 0.5, the red, green and blue of the background.
pub const BACKGROUND_SHADE: u32 = 0x3F00_0000;

/// The bit pattern of 1.0, the alpha of the background.
pub const BACKGROUND_ALPHA: u32 = 0x3F80_0000;

/// How far the assembly of a renderer has come.
#[derive(Clone, Copy, Debug, PartialEq, Eq, Structural)]
pub enum Stage {
    /// The stages are not both compiled.
    Uninitialized,
    /// Both stages are compiled; the program is not linked.
    ShadersCompiled,
    /// The program is linked. No assembly waits here: the step that links
    /// goes on to upload the quad.
    ProgramLinked,
    /// The quad is uploaded; the layout is not fully described.
    BuffersUploaded,
    /// The layout is described; the textures are not both loaded.
    LayoutDescribed,
    /// Both textures are loaded. No assembly waits here: the step that
    /// loads the second goes on to turn blending on.
    TexturesLoaded,
    /// The renderer can draw.
    Ready,
}

/// Why a renderer could not be assembled.
#[derive(Debug)]
pub enum RendererInitError {
    /// An image file could not be read or decoded.
    ImageError(ImageError),
    /// A stage did not compile or the program did not link.
    ShaderError(ShaderError),
}

impl RendererInitError {
    /// The error in words: those of the error that it holds.
    pub fn message(&self) -> (text: String)
        ensures
            self matches RendererInitError::ShaderError(e) ==> e.reads_as(text@),
    {
        match self {
            RendererInitError::ImageError(e) => e.to_string(),
            RendererInitError::ShaderError(e) => e.message(),
        }
    }
}

/// The texts that the renderer passes to the driver hold no zero byte.
pub proof fn lemma_texts_nul_free()
    ensures
        nul_free(VERTEX_SHADER_SOURCE.spec_bytes()),
        nul_free(FRAGMENT_SHADER_SOURCE.spec_bytes()),
        nul_free(POSITION_ATTRIBUTE.spec_bytes()),
        nul_free(TEX_COORD_ATTRIBUTE.spec_bytes()),
        nul_free(FIRST_SAMPLER.spec_bytes()),
        nul_free(SECOND_SAMPLER.spec_bytes()),
{
    reveal_strlit(r#"
#version 330
in vec2 position;
in vec2 vertexTexCoord;

out vec2 texCoord;

void main() {
    gl_Position = vec4(position, 0.0, 1.0);
    texCoord = vertexTexCoord;
}
"#);
    reveal_strlit(r#"
#version 330
out vec4 FragColor;

in vec2 texCoord;

uniform sampler2D texture0;
uniform sampler2D texture1;

void main() {
    vec4 color0 = texture(texture0, texCoord);
    vec4 color1 = texture(texture1, texCoord);
    FragColor = mix(color0, color1, 0.6) * color0.a;
}
"#);
    reveal_strlit("position");
    reveal_strlit("vertexTexCoord");
    reveal_strlit("texture0");
    reveal_strlit("texture1");
    is_ascii_spec_bytes(VERTEX_SHADER_SOURCE);
    is_ascii_spec_bytes(FRAGMENT_SHADER_SOURCE);
    is_ascii_spec_bytes(POSITION_ATTRIBUTE);
    is_ascii_spec_bytes(TEX_COORD_ATTRIBUTE);
    is_ascii_spec_bytes(FIRST_SAMPLER);
    is_ascii_spec_bytes(SECOND_SAMPLER);
}

/// The program, the layout and the two buffers of a renderer.
#[derive(Debug)]
pub struct Pipeline {
    program: ShaderProgram,
    vertex_buffer: Buffer,
    index_buffer: Buffer,
    vertex_array: VertexArray,
}

impl Pipeline {
    pub closed spec fn program(&self) -> ShaderProgram {
        self.program
    }

    pub closed spec fn vertex_buffer(&self) -> Buffer {
        self.vertex_buffer
    }

    pub closed spec fn index_buffer(&self) -> Buffer {
        self.index_buffer
    }

    pub closed spec fn vertex_array(&self) -> VertexArray {
        self.vertex_array
    }

    /// What abandoning the pipeline issues: the parts are destroyed in the
    /// reverse of the order in which they were created.
    pub open spec fn abandon_ops(&self) -> Seq<Op> {
        self.index_buffer().release_ops() + self.vertex_buffer().release_ops()
            + self.vertex_array().release_ops() + self.program().release_ops()
    }

    /// What describing the position issues, given the driver's answer to
    /// the lookup of its name.
    pub open spec fn position_ops(&self, answer: i32) -> Seq<Op> {
        self.vertex_array().set_attribute_ops(
            crate::program::slot_of(answer),
            POSITION_COMPONENTS,
            VERTEX_STRIDE,
            POSITION_OFFSET,
        )
    }

    /// What describing the texture coordinate issues, given the driver's
    /// answer to the lookup of its name.
    pub open spec fn tex_coord_ops(&self, answer: i32) -> Seq<Op> {
        self.vertex_array().set_attribute_ops(
            crate::program::slot_of(answer),
            TEX_COORD_COMPONENTS,
            VERTEX_STRIDE,
            TEX_COORD_OFFSET,
        )
    }

    fn abandon(self, ctx: &mut Context)
        ensures
            final(ctx).issued() == old(ctx).issued() + self.abandon_ops(),
            final(ctx).counter() == old(ctx).counter(),
    {
        self.index_buffer.release(ctx);
        self.vertex_buffer.release(ctx);
        self.vertex_array.release(ctx);
        self.program.release(ctx);
        assert(ctx.issued() =~= old(ctx).issued() + self.abandon_ops());
    }
}

/// What creating a texture and setting its sampling issues, up to the
/// request for its image file.
pub open spec fn texture_setup_ops(texture: Texture, path: Seq<char>) -> Seq<Op> {
    seq![Op::Create { kind: Kind::Texture, name: texture.name() }] + texture.set_wrapping_ops(
        Wrap::Repeat,
    ) + texture.set_filtering_ops(Filter::Linear) + seq![Op::ReadFile { path }]
}

/// What creating the layout and the two buffers and uploading the quad
/// issues.
pub open spec fn geometry_ops(
    vertex_array: VertexArray,
    vertex_buffer: Buffer,
    index_buffer: Buffer,
) -> Seq<Op> {
    seq![Op::Create { kind: Kind::VertexArray, name: vertex_array.name() }]
        + vertex_array.bind_ops() + seq![
        Op::Create { kind: Kind::Buffer, name: vertex_buffer.name() },
    ] + vertex_buffer.set_data_ops(words_bytes(VERTICES@), Usage::Static) + seq![
        Op::Create { kind: Kind::Buffer, name: index_buffer.name() },
    ] + index_buffer.set_data_ops(words_bytes(INDICES@), Usage::Static)
}

/// What turning blending on issues.
pub open spec fn blend_ops() -> Seq<Op> {
    seq![
        Op::BlendFunction {
            incoming: BlendFactor::SourceAlpha,
            stored: BlendFactor::OneMinusSourceAlpha,
        },
        Op::EnableBlend,
    ]
}

/// Creates a texture that repeats and is sampled linearly, and asks for the
/// file at `path`.
fn set_up_texture(ctx: &mut Context, path: &str) -> (texture: Texture)
    ensures
        texture.name() == old(ctx).fresh(),
        final(ctx).counter() == old(ctx).counter_after(1),
        final(ctx).issued() == old(ctx).issued() + texture_setup_ops(texture, path@),
{
    let texture = Texture::new(ctx);
    texture.set_wrapping(ctx, Wrap::Repeat);
    texture.set_filtering(ctx, Filter::Linear);
    ctx.issue(Command::ReadFile { path: path.to_owned() });
    assert(ctx.issued() =~= old(ctx).issued() + texture_setup_ops(texture, path@));
    texture
}

/// An assembly that waits for the compile report of the vertex stage.
#[derive(Debug)]
pub struct VertexCompile {
    vertex: Compilation,
}

/// An assembly that waits for the compile report of the fragment stage.
#[derive(Debug)]
pub struct FragmentCompile {
    vertex: Shader,
    fragment: Compilation,
}

/// An assembly that waits for the link report of the program.
#[derive(Debug)]
pub struct Link {
    vertex: Shader,
    fragment: Shader,
    linkage: Linkage,
}

/// An assembly that waits for the slot of the position.
#[derive(Debug)]
pub struct PositionLookup {
    pipeline: Pipeline,
}

/// An assembly that waits for the slot of the texture coordinate.
#[derive(Debug)]
pub struct TexCoordLookup {
    pipeline: Pipeline,
}

/// An assembly that waits for the file of the first texture.
#[derive(Debug)]
pub struct FirstImage {
    pipeline: Pipeline,
    texture0: Texture,
}

/// An assembly that waits for the file of the second texture.
#[derive(Debug)]
pub struct SecondImage {
    pipeline: Pipeline,
    texture0: Texture,
    texture1: Texture,
}

/// A textured quad that is ready to be drawn.
#[derive(Debug)]
pub struct Renderer {
    pipeline: Pipeline,
    texture0: Texture,
    texture1: Texture,
}

impl VertexCompile {
    pub closed spec fn vertex(&self) -> Compilation {
        self.vertex
    }

    /// The stage of the assembly: nothing is compiled yet.
    pub fn stage(&self) -> (stage: Stage)
        ensures
            stage == Stage::Uninitialized,
    {
        Stage::Uninitialized
    }

    /// What giving the assembly up issues: the vertex stage is destroyed.
    pub open spec fn abandon_ops(&self) -> Seq<Op> {
        self.vertex().release_ops()
    }

    /// Gives the assembly up and destroys what it holds.
    pub fn abandon(self, ctx: &mut Context)
        ensures
            final(ctx).issued() == old(ctx).issued() + self.abandon_ops(),
            final(ctx).counter() == old(ctx).counter(),
    {
        self.vertex.release(ctx);
    }

    /// Takes the compile report of the vertex stage. On success the
    /// fragment stage is handed to the driver; on failure the vertex stage
    /// is destroyed and nothing else is attempted.
    pub fn advance(self, ctx: &mut Context, report: BuildReport) -> (next: Result<
        FragmentCompile,
        RendererInitError,
    >)
        ensures
            next is Ok <==> report.status == BUILD_OK,
            match next {
                Ok(state) => {
                    &&& state.vertex().name() == self.vertex().name()
                    &&& state.vertex().kind() == self.vertex().kind()
                    &&& state.fragment().name() == old(ctx).fresh()
                    &&& state.fragment().kind() == ShaderKind::Fragment
                    &&& final(ctx).counter() == old(ctx).counter_after(1)
                    &&& final(ctx).issued() == old(ctx).issued() + Shader::compile_ops(
                        state.fragment().name(),
                        FRAGMENT_SHADER_SOURCE.spec_bytes(),
                        ShaderKind::Fragment,
                    )
                },
                Err(error) => {
                    &&& error matches RendererInitError::ShaderError(e)
                    &&& reports_failure(e, report.log@, false)
                    &&& final(ctx).counter() == old(ctx).counter()
                    &&& final(ctx).issued() == old(ctx).issued() + self.abandon_ops()
                },
            },
    {
        match Shader::new(ctx, self.vertex, report) {
            Err(e) => Err(RendererInitError::ShaderError(e)),
            Ok(vertex) => {
                proof {
                    lemma_texts_nul_free();
                }
                match Shader::compile(ctx, FRAGMENT_SHADER_SOURCE, ShaderKind::Fragment) {
                    Ok(fragment) => Ok(FragmentCompile { vertex, fragment }),
                    Err(_) => unreached(),
                }
            },
        }
    }
}

impl FragmentCompile {
    pub closed spec fn vertex(&self) -> Shader {
        self.vertex
    }

    pub closed spec fn fragment(&self) -> Compilation {
        self.fragment
    }

    /// The stage of the assembly: the stages are not both compiled yet.
    pub fn stage(&self) -> (stage: Stage)
        ensures
            stage == Stage::Uninitialized,
    {
        Stage::Uninitialized
    }

    /// What giving the assembly up issues: both stages are destroyed, the
    /// later first.
    pub open spec fn abandon_ops(&self) -> Seq<Op> {
        self.fragment().release_ops() + self.vertex().release_ops()
    }

    /// Gives the assembly up and destroys what it holds.
    pub fn abandon(self, ctx: &mut Context)
        ensures
            final(ctx).issued() == old(ctx).issued() + self.abandon_ops(),
            final(ctx).counter() == old(ctx).counter(),
    {
        self.fragment.release(ctx);
        self.vertex.release(ctx);
        assert(ctx.issued() =~= old(ctx).issued() + self.abandon_ops());
    }

    /// Takes the compile report of the fragment stage. On success the
    /// program is created from the two stages and handed to the driver for
    /// linking; on failure both stages are destroyed and no link is
    /// attempted.
    pub fn advance(self, ctx: &mut Context, report: BuildReport) -> (next: Result<
        Link,
        RendererInitError,
    >)
        ensures
            next is Ok <==> report.status == BUILD_OK,
            match next {
                Ok(state) => {
                    &&& state.vertex() == self.vertex()
                    &&& state.fragment().name() == self.fragment().name()
                    &&& state.fragment().kind() == self.fragment().kind()
                    &&& state.linkage().name() == old(ctx).fresh()
                    &&& final(ctx).counter() == old(ctx).counter_after(1)
                    &&& final(ctx).issued() == old(ctx).issued() + ShaderProgram::link_ops(
                        state.linkage().name(),
                        seq![state.vertex(), state.fragment()],
                    )
                },
                Err(error) => {
                    &&& error matches RendererInitError::ShaderError(e)
                    &&& reports_failure(e, report.log@, false)
                    &&& final(ctx).counter() == old(ctx).counter()
                    &&& final(ctx).issued() == old(ctx).issued() + self.abandon_ops()
                },
            },
    {
        match Shader::new(ctx, self.fragment, report) {
            Err(e) => {
                self.vertex.release(ctx);
                assert(ctx.issued() =~= old(ctx).issued() + self.abandon_ops());
                Err(RendererInitError::ShaderError(e))
            },
            Ok(fragment) => {
                let mut shaders: Vec<Shader> = Vec::new();
                shaders.push(self.vertex);
                shaders.push(fragment);
                assert(shaders@ =~= seq![self.vertex, fragment]);
                let linkage = ShaderProgram::link(ctx, shaders.as_slice());
                let second = shaders.pop();
                let first = shaders.pop();
                match (first, second) {
                    (Some(vertex), Some(fragment)) => Ok(Link { vertex, fragment, linkage }),
                    _ => unreached(),
                }
            },
        }
    }
}

impl Link {
    pub closed spec fn vertex(&self) -> Shader {
        self.vertex
    }

    pub closed spec fn fragment(&self) -> Shader {
        self.fragment
    }

    pub closed spec fn linkage(&self) -> Linkage {
        self.linkage
    }

    /// The stage of the assembly: both stages are compiled.
    pub fn stage(&self) -> (stage: Stage)
        ensures
            stage == Stage::ShadersCompiled,
    {
        Stage::ShadersCompiled
    }

    /// What giving the assembly up issues: the program and both stages are
    /// destroyed.
    pub open spec fn abandon_ops(&self) -> Seq<Op> {
        self.linkage().release_ops() + self.vertex().release_ops() + self.fragment().release_ops()
    }

    /// Gives the assembly up and destroys what it holds.
    pub fn abandon(self, ctx: &mut Context)
        ensures
            final(ctx).issued() == old(ctx).issued() + self.abandon_ops(),
            final(ctx).counter() == old(ctx).counter(),
    {
        self.linkage.release(ctx);
        self.vertex.release(ctx);
        self.fragment.release(ctx);
        assert(ctx.issued() =~= old(ctx).issued() + self.abandon_ops());
    }

    /// What a successful link issues for the pipeline that it leads to: the
    /// stages are destroyed, the quad is uploaded and the slot of the
    /// position is asked for.
    pub open spec fn success_ops(&self, pipeline: Pipeline) -> Seq<Op> {
        self.vertex().release_ops() + self.fragment().release_ops() + geometry_ops(
            pipeline.vertex_array(),
            pipeline.vertex_buffer(),
            pipeline.index_buffer(),
        ) + pipeline.program().query_attrib_ops(POSITION_ATTRIBUTE.spec_bytes())
    }

    /// Takes the link report of the program. On success the stages, which
    /// the program no longer needs, are destroyed, the layout and the
    /// buffers are created, the quad is uploaded, and the slot of the
    /// position is asked for. On failure the program and the stages are
    /// destroyed.
    pub fn advance(self, ctx: &mut Context, report: BuildReport) -> (next: Result<
        PositionLookup,
        RendererInitError,
    >)
        ensures
            next is Ok <==> report.status == BUILD_OK,
            match next {
                Ok(state) => {
                    &&& state.pipeline().program().name() == self.linkage().name()
                    &&& state.pipeline().vertex_array().name() == old(ctx).fresh_after(0)
                    &&& state.pipeline().vertex_buffer().name() == old(ctx).fresh_after(1)
                    &&& state.pipeline().vertex_buffer().kind() == BufferTarget::Array
                    &&& state.pipeline().index_buffer().name() == old(ctx).fresh_after(2)
                    &&& state.pipeline().index_buffer().kind() == BufferTarget::ElementArray
                    &&& final(ctx).counter() == old(ctx).counter_after(3)
                    &&& final(ctx).issued() == old(ctx).issued() + self.success_ops(
                        state.pipeline(),
                    )
                },
                Err(error) => {
                    &&& error matches RendererInitError::ShaderError(e)
                    &&& reports_failure(e, report.log@, true)
                    &&& final(ctx).counter() == old(ctx).counter()
                    &&& final(ctx).issued() == old(ctx).issued() + self.abandon_ops()
                },
            },
    {
        match ShaderProgram::new(ctx, self.linkage, report) {
            Err(e) => {
                self.vertex.release(ctx);
                self.fragment.release(ctx);
                assert(ctx.issued() =~= old(ctx).issued() + self.abandon_ops());
                Err(RendererInitError::ShaderError(e))
            },
            Ok(program) => {
                self.vertex.release(ctx);
                self.fragment.release(ctx);

                let vertex_array = VertexArray::new(ctx);
                vertex_array.bind(ctx);

                let vertex_buffer = Buffer::new(ctx, BufferTarget::Array);
                let vertices = encode_words(VERTICES.as_slice());
                vertex_buffer.set_data(ctx, vertices.as_slice(), Usage::Static);

                let index_buffer = Buffer::new(ctx, BufferTarget::ElementArray);
                let indices = encode_words(INDICES.as_slice());
                index_buffer.set_data(ctx, indices.as_slice(), Usage::Static);

                proof {
                    lemma_texts_nul_free();
                }
                match program.query_attrib_location(ctx, POSITION_ATTRIBUTE) {
                    Ok(_) => {
                        let pipeline = Pipeline {
                            program,
                            vertex_buffer,
                            index_buffer,
                            vertex_array,
                        };
                        assert(ctx.issued() =~= old(ctx).issued() + self.success_ops(pipeline));
                        Ok(PositionLookup { pipeline })
                    },
                    Err(_) => unreached(),
                }
            },
        }
    }
}

impl PositionLookup {
    pub closed spec fn pipeline(&self) -> Pipeline {
        self.pipeline
    }

    /// The stage of the assembly: the quad is uploaded.
    pub fn stage(&self) -> (stage: Stage)
        ensures
            stage == Stage::BuffersUploaded,
    {
        Stage::BuffersUploaded
    }

    /// Gives the assembly up and destroys the pipeline.
    pub fn abandon(self, ctx: &mut Context)
        ensures
            final(ctx).issued() == old(ctx).issued() + self.pipeline().abandon_ops(),
            final(ctx).counter() == old(ctx).counter(),
    {
        self.pipeline.abandon(ctx);
    }

    /// Takes the slot of the position, describes the position to the
    /// layout, and asks for the slot of the texture coordinate.
    ///
    /// The slot is used as the driver gave it, also where it stands for a
    /// name that the program does not have.
    pub fn advance(self, ctx: &mut Context, answer: i32) -> (next: TexCoordLookup)
        ensures
            next.pipeline() == self.pipeline(),
            final(ctx).counter() == old(ctx).counter(),
            final(ctx).issued() == old(ctx).issued() + self.pipeline().position_ops(answer)
                + self.pipeline().program().query_attrib_ops(TEX_COORD_ATTRIBUTE.spec_bytes()),
    {
        let slot: u32 = self.pipeline.program.get_attrib_location(answer);
        self.pipeline.vertex_array.set_attribute(
            ctx,
            slot,
            POSITION_COMPONENTS,
            VERTEX_STRIDE,
            POSITION_OFFSET,
        );
        proof {
            lemma_texts_nul_free();
        }
        match self.pipeline.program.query_attrib_location(ctx, TEX_COORD_ATTRIBUTE) {
            Ok(_) => TexCoordLookup { pipeline: self.pipeline },
            Err(_) => unreached(),
        }
    }
}

impl TexCoordLookup {
    pub closed spec fn pipeline(&self) -> Pipeline {
        self.pipeline
    }

    /// The stage of the assembly: the layout is not fully described yet.
    pub fn stage(&self) -> (stage: Stage)
        ensures
            stage == Stage::BuffersUploaded,
    {
        Stage::BuffersUploaded
    }

    /// Gives the assembly up and destroys the pipeline.
    pub fn abandon(self, ctx: &mut Context)
        ensures
            final(ctx).issued() == old(ctx).issued() + self.pipeline().abandon_ops(),
            final(ctx).counter() == old(ctx).counter(),
    {
        self.pipeline.abandon(ctx);
    }

    /// Takes the slot of the texture coordinate, describes the texture
    /// coordinate to the layout, creates the first texture and asks for its
    /// image file.
    pub fn advance(self, ctx: &mut Context, answer: i32) -> (next: FirstImage)
        ensures
            next.pipeline() == self.pipeline(),
            next.texture0().name() == old(ctx).fresh(),
            final(ctx).counter() == old(ctx).counter_after(1),
            final(ctx).issued() == old(ctx).issued() + self.pipeline().tex_coord_ops(answer)
                + texture_setup_ops(next.texture0(), FIRST_IMAGE_PATH@),
    {
        let slot: u32 = self.pipeline.program.get_attrib_location(answer);
        self.pipeline.vertex_array.set_attribute(
            ctx,
            slot,
            TEX_COORD_COMPONENTS,
            VERTEX_STRIDE,
            TEX_COORD_OFFSET,
        );
        let texture0 = set_up_texture(ctx, FIRST_IMAGE_PATH);
        FirstImage { pipeline: self.pipeline, texture0 }
    }
}

impl FirstImage {
    pub closed spec fn pipeline(&self) -> Pipeline {
        self.pipeline
    }

    pub closed spec fn texture0(&self) -> Texture {
        self.texture0
    }

    /// The stage of the assembly: the layout is described.
    pub fn stage(&self) -> (stage: Stage)
        ensures
            stage == Stage::LayoutDescribed,
    {
        Stage::LayoutDescribed
    }

    /// What giving the assembly up issues: the texture and the pipeline are
    /// destroyed.
    pub open spec fn abandon_ops(&self) -> Seq<Op> {
        self.texture0().release_ops() + self.pipeline().abandon_ops()
    }

    /// What a failed load of the first image issues: after the bind of the
    /// load, the assembly is given up.
    pub open spec fn failure_ops(&self) -> Seq<Op> {
        self.texture0().bind_ops() + self.abandon_ops()
    }

    /// Gives the assembly up and destroys what it holds.
    pub fn abandon(self, ctx: &mut Context)
        ensures
            final(ctx).issued() == old(ctx).issued() + self.abandon_ops(),
            final(ctx).counter() == old(ctx).counter(),
    {
        self.texture0.release(ctx);
        self.pipeline.abandon(ctx);
        assert(ctx.issued() =~= old(ctx).issued() + self.abandon_ops());
    }

    /// What a successful load of the first image issues, for the second
    /// texture that it leads to.
    pub open spec fn success_ops(&self, image: Option<(u32, u32, Seq<u8>)>, texture1: Texture) -> Seq<
        Op,
    > {
        self.texture0().load_ops(image) + self.pipeline().program().set_int_uniform_ops(
            FIRST_SAMPLER.spec_bytes(),
            0,
        ) + texture_setup_ops(texture1, SECOND_IMAGE_PATH@)
    }

    /// Takes what reading the first image file gave. On success the image
    /// is uploaded, the first sampler is pointed at unit 0, the second
    /// texture is created and its image file is asked for. On failure
    /// everything that the assembly holds is destroyed.
    pub fn advance(self, ctx: &mut Context, file: Result<Vec<u8>, ImageError>) -> (next: Result<
        SecondImage,
        RendererInitError,
    >)
        ensures
            next is Ok <==> image_of(FIRST_IMAGE_PATH@, file) is Some,
            image_of(FIRST_IMAGE_PATH@, file) matches Some((width, height, pixels))
                ==> holds_image(width, height, pixels),
            match next {
                Ok(state) => {
                    &&& state.pipeline() == self.pipeline()
                    &&& state.texture0() == self.texture0()
                    &&& state.texture1().name() == old(ctx).fresh()
                    &&& final(ctx).counter() == old(ctx).counter_after(1)
                    &&& final(ctx).issued() == old(ctx).issued() + self.success_ops(
                        image_of(FIRST_IMAGE_PATH@, file),
                        state.texture1(),
                    )
                },
                Err(error) => {
                    &&& error is ImageError
                    &&& file matches Err(e) ==> error == RendererInitError::ImageError(e)
                    &&& final(ctx).counter() == old(ctx).counter()
                    &&& final(ctx).issued() == old(ctx).issued() + self.failure_ops()
                },
            },
    {
        match self.texture0.load(ctx, FIRST_IMAGE_PATH, file) {
            Err(e) => {
                self.texture0.release(ctx);
                self.pipeline.abandon(ctx);
                assert(ctx.issued() =~= old(ctx).issued() + self.failure_ops());
                Err(RendererInitError::ImageError(e))
            },
            Ok(_) => {
                proof {
                    lemma_texts_nul_free();
                }
                match self.pipeline.program.set_int_uniform(ctx, FIRST_SAMPLER, 0) {
                    Ok(_) => {
                        let texture1 = set_up_texture(ctx, SECOND_IMAGE_PATH);
                        assert(ctx.issued() =~= old(ctx).issued() + self.success_ops(
                            image_of(FIRST_IMAGE_PATH@, file),
                            texture1,
                        ));
                        Ok(
                            SecondImage {
                                pipeline: self.pipeline,
                                texture0: self.texture0,
                                texture1,
                            },
                        )
                    },
                    Err(_) => unreached(),
                }
            },
        }
    }
}

impl SecondImage {
    pub closed spec fn pipeline(&self) -> Pipeline {
        self.pipeline
    }

    pub closed spec fn texture0(&self) -> Texture {
        self.texture0
    }

    pub closed spec fn texture1(&self) -> Texture {
        self.texture1
    }

    /// The stage of the assembly: the textures are not both loaded yet.
    pub fn stage(&self) -> (stage: Stage)
        ensures
            stage == Stage::LayoutDescribed,
    {
        Stage::LayoutDescribed
    }

    /// What giving the assembly up issues: both textures and the pipeline
    /// are destroyed.
    pub open spec fn abandon_ops(&self) -> Seq<Op> {
        self.texture1().release_ops() + self.texture0().release_ops()
            + self.pipeline().abandon_ops()
    }

    /// What a failed load of the second image issues: after the bind of the
    /// load, the assembly is given up.
    pub open spec fn failure_ops(&self) -> Seq<Op> {
        self.texture1().bind_ops() + self.abandon_ops()
    }

    /// Gives the assembly up and destroys what it holds.
    pub fn abandon(self, ctx: &mut Context)
        ensures
            final(ctx).issued() == old(ctx).issued() + self.abandon_ops(),
            final(ctx).counter() == old(ctx).counter(),
    {
        self.texture1.release(ctx);
        self.texture0.release(ctx);
        self.pipeline.abandon(ctx);
        assert(ctx.issued() =~= old(ctx).issued() + self.abandon_ops());
    }

    /// What a successful load of the second image issues.
    pub open spec fn success_ops(&self, image: Option<(u32, u32, Seq<u8>)>) -> Seq<Op> {
        self.texture1().load_ops(image) + self.pipeline().program().set_int_uniform_ops(
            SECOND_SAMPLER.spec_bytes(),
            1,
        ) + blend_ops()
    }
}

impl Renderer {
    pub closed spec fn pipeline(&self) -> Pipeline {
        self.pipeline
    }

    pub closed spec fn texture0(&self) -> Texture {
        self.texture0
    }

    pub closed spec fn texture1(&self) -> Texture {
        self.texture1
    }

    /// What [`Renderer::draw`] issues.
    pub open spec fn draw_ops(&self) -> Seq<Op> {
        seq![
            Op::ClearColor {
                red: BACKGROUND_SHADE,
                green: BACKGROUND_SHADE,
                blue: BACKGROUND_SHADE,
                alpha: BACKGROUND_ALPHA,
            },
            Op::Clear,
        ] + self.texture0().activate_ops(0) + self.texture1().activate_ops(1)
            + self.pipeline().program().apply_ops() + self.pipeline().vertex_array().bind_ops()
            + seq![Op::DrawElements { count: INDEX_COUNT }]
    }

    /// What [`Renderer::release`] issues: one command for each resource that
    /// the renderer owns.
    pub open spec fn release_ops(&self) -> Seq<Op> {
        self.pipeline().program().release_ops() + self.pipeline().vertex_buffer().release_ops()
            + self.pipeline().index_buffer().release_ops()
            + self.pipeline().vertex_array().release_ops() + self.texture0().release_ops()
            + self.texture1().release_ops()
    }

    /// Starts the assembly of a renderer: hands the vertex stage to the
    /// driver for compilation.
    pub fn begin(ctx: &mut Context) -> (state: VertexCompile)
        ensures
            state.vertex().name() == old(ctx).fresh(),
            state.vertex().kind() == ShaderKind::Vertex,
            final(ctx).counter() == old(ctx).counter_after(1),
            final(ctx).issued() == old(ctx).issued() + Shader::compile_ops(
                state.vertex().name(),
                VERTEX_SHADER_SOURCE.spec_bytes(),
                ShaderKind::Vertex,
            ),
    {
        proof {
            lemma_texts_nul_free();
        }
        match Shader::compile(ctx, VERTEX_SHADER_SOURCE, ShaderKind::Vertex) {
            Ok(vertex) => VertexCompile { vertex },
            Err(_) => unreached(),
        }
    }

    /// Completes the assembly with what reading the second image file gave.
    /// On success the image is uploaded, the second sampler is pointed at
    /// unit 1 and blending by the alpha of the incoming colour is turned
    /// on. On failure everything that the assembly holds is destroyed.
    pub fn new(ctx: &mut Context, pending: SecondImage, file: Result<Vec<u8>, ImageError>) -> (built:
        Result<Renderer, RendererInitError>)
        ensures
            built is Ok <==> image_of(SECOND_IMAGE_PATH@, file) is Some,
            image_of(SECOND_IMAGE_PATH@, file) matches Some((width, height, pixels))
                ==> holds_image(width, height, pixels),
            match built {
                Ok(renderer) => {
                    &&& renderer.pipeline() == pending.pipeline()
                    &&& renderer.texture0() == pending.texture0()
                    &&& renderer.texture1() == pending.texture1()
                    &&& final(ctx).issued() == old(ctx).issued() + pending.success_ops(
                        image_of(SECOND_IMAGE_PATH@, file),
                    )
                },
                Err(error) => {
                    &&& error is ImageError
                    &&& file matches Err(e) ==> error == RendererInitError::ImageError(e)
                    &&& final(ctx).issued() == old(ctx).issued() + pending.failure_ops()
                },
            },
            final(ctx).counter() == old(ctx).counter(),
    {
        match pending.texture1.load(ctx, SECOND_IMAGE_PATH, file) {
            Err(e) => {
                pending.texture1.release(ctx);
                pending.texture0.release(ctx);
                pending.pipeline.abandon(ctx);
                assert(ctx.issued() =~= old(ctx).issued() + pending.failure_ops());
                Err(RendererInitError::ImageError(e))
            },
            Ok(_) => {
                proof {
                    lemma_texts_nul_free();
                }
                match pending.pipeline.program.set_int_uniform(ctx, SECOND_SAMPLER, 1) {
                    Ok(_) => {
                        ctx.issue(
                            Command::BlendFunction {
                                incoming: BlendFactor::SourceAlpha,
                                stored: BlendFactor::OneMinusSourceAlpha,
                            },
                        );
                        ctx.issue(Command::EnableBlend);
                        assert(ctx.issued() =~= old(ctx).issued() + pending.success_ops(
                            image_of(SECOND_IMAGE_PATH@, file),
                        ));
                        Ok(
                            Renderer {
                                pipeline: pending.pipeline,
                                texture0: pending.texture0,
                                texture1: pending.texture1,
                            },
                        )
                    },
                    Err(_) => unreached(),
                }
            },
        }
    }

    /// The stage of a renderer: it is ready.
    pub fn stage(&self) -> (stage: Stage)
        ensures
            stage == Stage::Ready,
    {
        Stage::Ready
    }

    /// Draws one frame: clears the colour target to the background, binds
    /// the textures to units 0 and 1, applies the program, binds the layout
    /// and draws the quad from its indices.
    ///
    /// Nothing is asked of the driver, so nothing can be reported: a
    /// renderer that was set up wrongly draws wrongly.
    pub fn draw(&self, ctx: &mut Context)
        ensures
            final(ctx).issued() == old(ctx).issued() + self.draw_ops(),
            final(ctx).counter() == old(ctx).counter(),
    {
        ctx.issue(
            Command::ClearColor {
                red: BACKGROUND_SHADE,
                green: BACKGROUND_SHADE,
                blue: BACKGROUND_SHADE,
                alpha: BACKGROUND_ALPHA,
            },
        );
        ctx.issue(Command::Clear);
        self.texture0.activate(ctx, 0);
        self.texture1.activate(ctx, 1);
        self.pipeline.program.apply(ctx);
        self.pipeline.vertex_array.bind(ctx);
        ctx.issue(Command::DrawElements { count: INDEX_COUNT });
        assert(ctx.issued() =~= old(ctx).issued() + self.draw_ops());
    }

    /// Destroys the renderer: the program, the buffers, the layout and the
    /// textures, each once.
    pub fn release(self, ctx: &mut Context)
        ensures
            final(ctx).issued() == old(ctx).issued() + self.release_ops(),
            final(ctx).counter() == old(ctx).counter(),
    {
        self.pipeline.program.release(ctx);
        self.pipeline.vertex_buffer.release(ctx);
        self.pipeline.index_buffer.release(ctx);
        self.pipeline.vertex_array.release(ctx);
        self.texture0.release(ctx);
        self.texture1.release(ctx);
        assert(ctx.issued() =~= old(ctx).issued() + self.release_ops());
    }
}

} // verus!
