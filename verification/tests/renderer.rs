use gl_renderer::command::{
    BlendFactor, BufferTarget, Command, Filter, Kind, Sampling, ShaderKind, Usage, Wrap,
};
use gl_renderer::context::Context;
use gl_renderer::geometry::encode_words;
use gl_renderer::renderer::{
    Renderer, RendererInitError, SecondImage, Stage, FIRST_IMAGE_PATH, FRAGMENT_SHADER_SOURCE,
    INDICES, SECOND_IMAGE_PATH, VERTEX_SHADER_SOURCE, VERTICES,
};
use gl_renderer::shader::{BuildReport, ShaderError};
use image::{DynamicImage, ImageError, ImageOutputFormat, RgbImage, RgbaImage};
use std::io::Cursor;

/// Stands in for the graphics driver: performs the commands on a record of
/// which objects exist.
struct Double {
    live: Vec<(Kind, u32)>,
    created: usize,
    deleted: usize,
    stray_deletes: usize,
    uploads: usize,
    links: usize,
    draws: Vec<i32>,
    buffers: Vec<(u32, Vec<u8>)>,
    array_buffer: u32,
    element_buffer: u32,
}

impl Double {
    fn new() -> Double {
        Double {
            live: Vec::new(),
            created: 0,
            deleted: 0,
            stray_deletes: 0,
            uploads: 0,
            links: 0,
            draws: Vec::new(),
            buffers: Vec::new(),
            array_buffer: 0,
            element_buffer: 0,
        }
    }

    fn perform(&mut self, ctx: &mut Context) -> Vec<Command> {
        let commands = ctx.take_commands();
        for command in &commands {
            match command {
                Command::Create { kind, name } => {
                    assert!(!self.live.iter().any(|(_, n)| n == name));
                    self.live.push((*kind, *name));
                    self.created += 1;
                }
                Command::Delete { kind, name } => {
                    match self.live.iter().position(|entry| *entry == (*kind, *name)) {
                        Some(at) => {
                            self.live.remove(at);
                            self.deleted += 1;
                        }
                        None => self.stray_deletes += 1,
                    }
                }
                Command::BindBuffer { target: BufferTarget::Array, name } => {
                    self.array_buffer = *name
                }
                Command::BindBuffer { target: BufferTarget::ElementArray, name } => {
                    self.element_buffer = *name
                }
                Command::BufferData { target, data, .. } => {
                    let name = match target {
                        BufferTarget::Array => self.array_buffer,
                        BufferTarget::ElementArray => self.element_buffer,
                    };
                    self.buffers.retain(|(n, _)| *n != name);
                    self.buffers.push((name, data.clone()));
                }
                Command::TextureImage { .. } => self.uploads += 1,
                Command::LinkProgram { .. } => self.links += 1,
                Command::DrawElements { count } => self.draws.push(*count),
                _ => {}
            }
        }
        commands
    }
}

fn ok() -> BuildReport {
    BuildReport { status: 1, log: Vec::new() }
}

fn failed(log: &str) -> BuildReport {
    BuildReport { status: 0, log: log.as_bytes().to_vec() }
}

fn png() -> Vec<u8> {
    let picture = RgbaImage::from_raw(2, 2, vec![40; 16]).unwrap();
    let mut out = Cursor::new(Vec::new());
    DynamicImage::ImageRgba8(picture).write_to(&mut out, ImageOutputFormat::Png).unwrap();
    out.into_inner()
}

fn jpeg() -> Vec<u8> {
    let picture = RgbImage::from_raw(8, 8, vec![200; 8 * 8 * 3]).unwrap();
    let mut out = Cursor::new(Vec::new());
    DynamicImage::ImageRgb8(picture).write_to(&mut out, ImageOutputFormat::Jpeg(90)).unwrap();
    out.into_inner()
}

fn until_second_image(ctx: &mut Context, double: &mut Double) -> SecondImage {
    let state = Renderer::begin(ctx);
    double.perform(ctx);
    let state = state.advance(ctx, ok()).unwrap();
    double.perform(ctx);
    let state = state.advance(ctx, ok()).unwrap();
    double.perform(ctx);
    let state = state.advance(ctx, ok()).unwrap();
    double.perform(ctx);
    let state = state.advance(ctx, 0);
    double.perform(ctx);
    let state = state.advance(ctx, 1);
    double.perform(ctx);
    let state = state.advance(ctx, Ok(png())).unwrap();
    double.perform(ctx);
    state
}

fn ready(ctx: &mut Context, double: &mut Double) -> Renderer {
    let state = until_second_image(ctx, double);
    let renderer = Renderer::new(ctx, state, Ok(jpeg())).unwrap();
    double.perform(ctx);
    renderer
}

#[test]
fn sources_and_paths_are_the_fixed_ones() {
    assert!(VERTEX_SHADER_SOURCE.starts_with("\n#version 330\nin vec2 position;\n"));
    assert!(VERTEX_SHADER_SOURCE.ends_with("texCoord = vertexTexCoord;\n}\n"));
    assert!(FRAGMENT_SHADER_SOURCE.contains("FragColor = mix(color0, color1, 0.6) * color0.a;"));
    assert_eq!(FIRST_IMAGE_PATH, "assets/logo.png");
    assert_eq!(SECOND_IMAGE_PATH, "assets/rust.jpg");
}

#[test]
fn assembly_issues_the_whole_sequence_in_order() {
    let mut ctx = Context::new();
    let mut double = Double::new();

    let state = Renderer::begin(&mut ctx);
    assert_eq!(state.stage(), Stage::Uninitialized);
    assert_eq!(
        double.perform(&mut ctx),
        vec![
            Command::Create { kind: Kind::Shader(ShaderKind::Vertex), name: 1 },
            Command::ShaderSource { shader: 1, source: VERTEX_SHADER_SOURCE.as_bytes().to_vec() },
            Command::CompileShader { shader: 1 },
            Command::QueryCompile { shader: 1 },
        ]
    );

    let state = state.advance(&mut ctx, ok()).unwrap();
    assert_eq!(state.stage(), Stage::Uninitialized);
    assert_eq!(
        double.perform(&mut ctx),
        vec![
            Command::Create { kind: Kind::Shader(ShaderKind::Fragment), name: 2 },
            Command::ShaderSource { shader: 2, source: FRAGMENT_SHADER_SOURCE.as_bytes().to_vec() },
            Command::CompileShader { shader: 2 },
            Command::QueryCompile { shader: 2 },
        ]
    );

    let state = state.advance(&mut ctx, ok()).unwrap();
    assert_eq!(state.stage(), Stage::ShadersCompiled);
    assert_eq!(
        double.perform(&mut ctx),
        vec![
            Command::Create { kind: Kind::Program, name: 3 },
            Command::AttachShader { program: 3, shader: 1 },
            Command::AttachShader { program: 3, shader: 2 },
            Command::LinkProgram { program: 3 },
            Command::QueryLink { program: 3 },
        ]
    );

    let state = state.advance(&mut ctx, ok()).unwrap();
    assert_eq!(state.stage(), Stage::BuffersUploaded);
    assert_eq!(
        double.perform(&mut ctx),
        vec![
            Command::Delete { kind: Kind::Shader(ShaderKind::Vertex), name: 1 },
            Command::Delete { kind: Kind::Shader(ShaderKind::Fragment), name: 2 },
            Command::Create { kind: Kind::VertexArray, name: 4 },
            Command::BindVertexArray { name: 4 },
            Command::Create { kind: Kind::Buffer, name: 5 },
            Command::BindBuffer { target: BufferTarget::Array, name: 5 },
            Command::BufferData {
                target: BufferTarget::Array,
                data: encode_words(&VERTICES),
                usage: Usage::Static,
            },
            Command::Create { kind: Kind::Buffer, name: 6 },
            Command::BindBuffer { target: BufferTarget::ElementArray, name: 6 },
            Command::BufferData {
                target: BufferTarget::ElementArray,
                data: encode_words(&INDICES),
                usage: Usage::Static,
            },
            Command::QueryAttribute { program: 3, attribute: b"position".to_vec() },
        ]
    );

    let state = state.advance(&mut ctx, 0);
    assert_eq!(state.stage(), Stage::BuffersUploaded);
    assert_eq!(
        double.perform(&mut ctx),
        vec![
            Command::BindVertexArray { name: 4 },
            Command::VertexAttribute { location: 0, components: 2, stride: 16, offset: 0 },
            Command::EnableAttribute { location: 0 },
            Command::QueryAttribute { program: 3, attribute: b"vertexTexCoord".to_vec() },
        ]
    );

    let state = state.advance(&mut ctx, 1);
    assert_eq!(state.stage(), Stage::LayoutDescribed);
    assert_eq!(
        double.perform(&mut ctx),
        vec![
            Command::BindVertexArray { name: 4 },
            Command::VertexAttribute { location: 1, components: 2, stride: 16, offset: 8 },
            Command::EnableAttribute { location: 1 },
            Command::Create { kind: Kind::Texture, name: 7 },
            Command::BindTexture { name: 7 },
            Command::TextureParameter { sampling: Sampling::WrapS(Wrap::Repeat) },
            Command::TextureParameter { sampling: Sampling::WrapT(Wrap::Repeat) },
            Command::BindTexture { name: 7 },
            Command::TextureParameter { sampling: Sampling::Minify(Filter::Linear) },
            Command::TextureParameter { sampling: Sampling::Magnify(Filter::Linear) },
            Command::ReadFile { path: "assets/logo.png".to_string() },
        ]
    );

    let state = state.advance(&mut ctx, Ok(png())).unwrap();
    assert_eq!(state.stage(), Stage::LayoutDescribed);
    assert_eq!(
        double.perform(&mut ctx),
        vec![
            Command::BindTexture { name: 7 },
            Command::TextureImage { width: 2, height: 2, pixels: vec![40; 16] },
            Command::GenerateMipmap,
            Command::UseProgram { program: 3 },
            Command::SetUniform { program: 3, uniform: b"texture0".to_vec(), value: 0 },
            Command::Create { kind: Kind::Texture, name: 8 },
            Command::BindTexture { name: 8 },
            Command::TextureParameter { sampling: Sampling::WrapS(Wrap::Repeat) },
            Command::TextureParameter { sampling: Sampling::WrapT(Wrap::Repeat) },
            Command::BindTexture { name: 8 },
            Command::TextureParameter { sampling: Sampling::Minify(Filter::Linear) },
            Command::TextureParameter { sampling: Sampling::Magnify(Filter::Linear) },
            Command::ReadFile { path: "assets/rust.jpg".to_string() },
        ]
    );

    let renderer = Renderer::new(&mut ctx, state, Ok(jpeg())).unwrap();
    assert_eq!(renderer.stage(), Stage::Ready);
    let last = double.perform(&mut ctx);
    assert_eq!(last.len(), 7);
    assert_eq!(last[0], Command::BindTexture { name: 8 });
    assert!(matches!(last[1], Command::TextureImage { width: 8, height: 8, .. }));
    assert_eq!(last[2], Command::GenerateMipmap);
    assert_eq!(last[3], Command::UseProgram { program: 3 });
    assert_eq!(last[4], Command::SetUniform { program: 3, uniform: b"texture1".to_vec(), value: 1 });
    assert_eq!(
        last[5],
        Command::BlendFunction {
            incoming: BlendFactor::SourceAlpha,
            stored: BlendFactor::OneMinusSourceAlpha,
        }
    );
    assert_eq!(last[6], Command::EnableBlend);

    assert_eq!(double.created, 8);
    assert_eq!(double.deleted, 2);
    assert_eq!(double.stray_deletes, 0);
    assert_eq!(
        double.live,
        vec![
            (Kind::Program, 3),
            (Kind::VertexArray, 4),
            (Kind::Buffer, 5),
            (Kind::Buffer, 6),
            (Kind::Texture, 7),
            (Kind::Texture, 8),
        ]
    );
}

#[test]
fn ready_renderer_draws_six_indices_once_a_frame() {
    let mut ctx = Context::new();
    let mut double = Double::new();
    let renderer = ready(&mut ctx, &mut double);
    assert!(double.draws.is_empty());

    renderer.draw(&mut ctx);
    assert_eq!(
        double.perform(&mut ctx),
        vec![
            Command::ClearColor {
                red: 0.5f32.to_bits(),
                green: 0.5f32.to_bits(),
                blue: 0.5f32.to_bits(),
                alpha: 1.0f32.to_bits(),
            },
            Command::Clear,
            Command::ActiveTexture { unit: 0 },
            Command::BindTexture { name: 7 },
            Command::ActiveTexture { unit: 1 },
            Command::BindTexture { name: 8 },
            Command::UseProgram { program: 3 },
            Command::BindVertexArray { name: 4 },
            Command::DrawElements { count: 6 },
        ]
    );
    assert_eq!(double.draws, vec![6]);

    renderer.draw(&mut ctx);
    renderer.draw(&mut ctx);
    double.perform(&mut ctx);
    assert_eq!(double.draws, vec![6, 6, 6]);
    assert_eq!(double.created, 8);
}

#[test]
fn describing_and_drawing_leave_the_buffers_alone() {
    let mut ctx = Context::new();
    let mut double = Double::new();
    let renderer = ready(&mut ctx, &mut double);
    let before = double.buffers.clone();
    assert_eq!(before, vec![(5, encode_words(&VERTICES)), (6, encode_words(&INDICES))]);
    renderer.draw(&mut ctx);
    renderer.draw(&mut ctx);
    double.perform(&mut ctx);
    assert_eq!(double.buffers, before);
}

#[test]
fn missing_attribute_is_used_as_the_driver_gave_it() {
    let mut ctx = Context::new();
    let mut double = Double::new();
    let state = Renderer::begin(&mut ctx);
    let state = state.advance(&mut ctx, ok()).unwrap();
    let state = state.advance(&mut ctx, ok()).unwrap();
    let state = state.advance(&mut ctx, ok()).unwrap();
    double.perform(&mut ctx);
    let _state = state.advance(&mut ctx, -1);
    let commands = double.perform(&mut ctx);
    assert_eq!(
        commands[1],
        Command::VertexAttribute { location: u32::MAX, components: 2, stride: 16, offset: 0 }
    );
    assert_eq!(commands[2], Command::EnableAttribute { location: u32::MAX });
}

#[test]
fn failed_vertex_stage_ends_the_assembly() {
    let mut ctx = Context::new();
    let mut double = Double::new();
    let state = Renderer::begin(&mut ctx);
    double.perform(&mut ctx);
    match state.advance(&mut ctx, failed("0:2: unexpected token")) {
        Err(RendererInitError::ShaderError(ShaderError::CompilationError(log))) => {
            assert_eq!(log, "0:2: unexpected token")
        }
        other => panic!("unexpected: {:?}", other),
    }
    assert_eq!(
        double.perform(&mut ctx),
        vec![Command::Delete { kind: Kind::Shader(ShaderKind::Vertex), name: 1 }]
    );
    assert!(double.live.is_empty());
    assert_eq!(double.created, 1);
    assert_eq!(double.links, 0);
}

#[test]
fn failed_fragment_stage_builds_nothing_further() {
    let mut ctx = Context::new();
    let mut double = Double::new();
    let state = Renderer::begin(&mut ctx);
    double.perform(&mut ctx);
    let state = state.advance(&mut ctx, ok()).unwrap();
    double.perform(&mut ctx);
    match state.advance(&mut ctx, failed("ERROR: 0:12: 'FragColour' : undeclared identifier")) {
        Err(RendererInitError::ShaderError(ShaderError::CompilationError(log))) => {
            assert_eq!(log, "ERROR: 0:12: 'FragColour' : undeclared identifier")
        }
        other => panic!("unexpected: {:?}", other),
    }
    let commands = double.perform(&mut ctx);
    assert_eq!(
        commands,
        vec![
            Command::Delete { kind: Kind::Shader(ShaderKind::Fragment), name: 2 },
            Command::Delete { kind: Kind::Shader(ShaderKind::Vertex), name: 1 },
        ]
    );
    assert!(double.live.is_empty());
    assert_eq!(double.created, 2);
    assert_eq!(double.links, 0);
    assert_eq!(double.uploads, 0);
    assert!(double.buffers.is_empty());
    assert_eq!(double.stray_deletes, 0);
}

#[test]
fn failed_link_destroys_program_and_stages() {
    let mut ctx = Context::new();
    let mut double = Double::new();
    let state = Renderer::begin(&mut ctx);
    let state = state.advance(&mut ctx, ok()).unwrap();
    let state = state.advance(&mut ctx, ok()).unwrap();
    double.perform(&mut ctx);
    match state.advance(&mut ctx, failed("error: varying texCoord not written")) {
        Err(RendererInitError::ShaderError(ShaderError::LinkingError(log))) => {
            assert_eq!(log, "error: varying texCoord not written")
        }
        other => panic!("unexpected: {:?}", other),
    }
    assert_eq!(
        double.perform(&mut ctx),
        vec![
            Command::Delete { kind: Kind::Program, name: 3 },
            Command::Delete { kind: Kind::Shader(ShaderKind::Vertex), name: 1 },
            Command::Delete { kind: Kind::Shader(ShaderKind::Fragment), name: 2 },
        ]
    );
    assert!(double.live.is_empty());
    assert!(double.buffers.is_empty());
}

#[test]
fn failure_with_a_log_that_is_no_text_is_reported_as_such() {
    let mut ctx = Context::new();
    let state = Renderer::begin(&mut ctx);
    let report = BuildReport { status: 0, log: vec![0xC0, 0x80] };
    assert!(matches!(
        state.advance(&mut ctx, report),
        Err(RendererInitError::ShaderError(ShaderError::Utf8Error(_)))
    ));
}

#[test]
fn unreadable_first_image_destroys_everything() {
    let mut ctx = Context::new();
    let mut double = Double::new();
    let state = Renderer::begin(&mut ctx);
    let state = state.advance(&mut ctx, ok()).unwrap();
    let state = state.advance(&mut ctx, ok()).unwrap();
    let state = state.advance(&mut ctx, ok()).unwrap();
    let state = state.advance(&mut ctx, 0);
    let state = state.advance(&mut ctx, 1);
    double.perform(&mut ctx);
    let missing = std::io::Error::new(std::io::ErrorKind::NotFound, "assets/logo.png");
    match state.advance(&mut ctx, Err(ImageError::IoError(missing))) {
        Err(RendererInitError::ImageError(ImageError::IoError(e))) => {
            assert_eq!(e.kind(), std::io::ErrorKind::NotFound)
        }
        other => panic!("unexpected: {:?}", other),
    }
    assert_eq!(
        double.perform(&mut ctx),
        vec![
            Command::BindTexture { name: 7 },
            Command::Delete { kind: Kind::Texture, name: 7 },
            Command::Delete { kind: Kind::Buffer, name: 6 },
            Command::Delete { kind: Kind::Buffer, name: 5 },
            Command::Delete { kind: Kind::VertexArray, name: 4 },
            Command::Delete { kind: Kind::Program, name: 3 },
        ]
    );
    assert!(double.live.is_empty());
    assert_eq!(double.uploads, 0);
    assert_eq!(double.stray_deletes, 0);
}

#[test]
fn undecodable_second_image_destroys_everything() {
    let mut ctx = Context::new();
    let mut double = Double::new();
    let state = until_second_image(&mut ctx, &mut double);
    assert_eq!(double.uploads, 1);
    let built = Renderer::new(&mut ctx, state, Ok(b"GIF89a, but named jpg".to_vec()));
    assert!(matches!(built, Err(RendererInitError::ImageError(_))));
    assert_eq!(
        double.perform(&mut ctx),
        vec![
            Command::BindTexture { name: 8 },
            Command::Delete { kind: Kind::Texture, name: 8 },
            Command::Delete { kind: Kind::Texture, name: 7 },
            Command::Delete { kind: Kind::Buffer, name: 6 },
            Command::Delete { kind: Kind::Buffer, name: 5 },
            Command::Delete { kind: Kind::VertexArray, name: 4 },
            Command::Delete { kind: Kind::Program, name: 3 },
        ]
    );
    assert!(double.live.is_empty());
    assert_eq!(double.uploads, 1);
    assert_eq!(double.created, double.deleted);
    assert_eq!(double.stray_deletes, 0);
}

#[test]
fn release_frees_each_resource_once() {
    let mut ctx = Context::new();
    let mut double = Double::new();
    let renderer = ready(&mut ctx, &mut double);
    assert_eq!(double.live.len(), 6);
    renderer.release(&mut ctx);
    assert_eq!(
        double.perform(&mut ctx),
        vec![
            Command::Delete { kind: Kind::Program, name: 3 },
            Command::Delete { kind: Kind::Buffer, name: 5 },
            Command::Delete { kind: Kind::Buffer, name: 6 },
            Command::Delete { kind: Kind::VertexArray, name: 4 },
            Command::Delete { kind: Kind::Texture, name: 7 },
            Command::Delete { kind: Kind::Texture, name: 8 },
        ]
    );
    assert!(double.live.is_empty());
    assert_eq!(double.created, 8);
    assert_eq!(double.deleted, 8);
    assert_eq!(double.stray_deletes, 0);
}

#[test]
fn two_renderers_of_one_context_share_no_name() {
    let mut ctx = Context::new();
    let mut double = Double::new();
    let first = ready(&mut ctx, &mut double);
    let second = ready(&mut ctx, &mut double);
    assert_eq!(double.live.len(), 12);
    first.release(&mut ctx);
    double.perform(&mut ctx);
    assert_eq!(double.live.len(), 6);
    second.draw(&mut ctx);
    double.perform(&mut ctx);
    assert_eq!(double.draws, vec![6]);
    second.release(&mut ctx);
    double.perform(&mut ctx);
    assert!(double.live.is_empty());
    assert_eq!(double.stray_deletes, 0);
}

#[test]
fn error_messages_are_those_of_the_cause() {
    let shader = RendererInitError::ShaderError(ShaderError::LinkingError("bad".to_string()));
    assert_eq!(shader.message(), "Error while linking shaders: bad");
    let missing = std::io::Error::new(std::io::ErrorKind::NotFound, "gone");
    let expected = ImageError::IoError(std::io::Error::new(std::io::ErrorKind::NotFound, "gone"))
        .to_string();
    assert_eq!(RendererInitError::ImageError(ImageError::IoError(missing)).message(), expected);
}

#[test]
fn abandoned_assembly_leaves_nothing_behind() {
    for steps in 0..7 {
        let mut ctx = Context::new();
        let mut double = Double::new();
        let first = Renderer::begin(&mut ctx);
        double.perform(&mut ctx);
        if steps == 0 {
            first.abandon(&mut ctx);
        } else {
            let second = first.advance(&mut ctx, ok()).unwrap();
            double.perform(&mut ctx);
            if steps == 1 {
                second.abandon(&mut ctx);
            } else {
                let third = second.advance(&mut ctx, ok()).unwrap();
                double.perform(&mut ctx);
                if steps == 2 {
                    third.abandon(&mut ctx);
                } else {
                    let fourth = third.advance(&mut ctx, ok()).unwrap();
                    double.perform(&mut ctx);
                    if steps == 3 {
                        fourth.abandon(&mut ctx);
                    } else {
                        let fifth = fourth.advance(&mut ctx, 0);
                        double.perform(&mut ctx);
                        if steps == 4 {
                            fifth.abandon(&mut ctx);
                        } else {
                            let sixth = fifth.advance(&mut ctx, 1);
                            double.perform(&mut ctx);
                            if steps == 5 {
                                sixth.abandon(&mut ctx);
                            } else {
                                let seventh = sixth.advance(&mut ctx, Ok(png())).unwrap();
                                double.perform(&mut ctx);
                                seventh.abandon(&mut ctx);
                            }
                        }
                    }
                }
            }
        }
        let unwound = double.perform(&mut ctx);
        assert!(unwound.iter().all(|command| matches!(command, Command::Delete { .. })));
        assert!(double.live.is_empty(), "after {} steps", steps);
        assert_eq!(double.created, double.deleted);
        assert_eq!(double.stray_deletes, 0);
    }
}

#[test]
fn abandoned_pipeline_is_destroyed_newest_first() {
    let mut ctx = Context::new();
    let mut double = Double::new();
    let state = Renderer::begin(&mut ctx);
    let state = state.advance(&mut ctx, ok()).unwrap();
    let state = state.advance(&mut ctx, ok()).unwrap();
    let state = state.advance(&mut ctx, ok()).unwrap();
    double.perform(&mut ctx);
    state.abandon(&mut ctx);
    assert_eq!(
        double.perform(&mut ctx),
        vec![
            Command::Delete { kind: Kind::Buffer, name: 6 },
            Command::Delete { kind: Kind::Buffer, name: 5 },
            Command::Delete { kind: Kind::VertexArray, name: 4 },
            Command::Delete { kind: Kind::Program, name: 3 },
        ]
    );
}
