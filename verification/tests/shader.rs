use gl_renderer::command::{Command, Kind, ShaderKind};
use gl_renderer::context::Context;
use gl_renderer::shader::{build_failure, find_nul, BuildReport, Shader, ShaderError, BUILD_OK};

fn ok_report() -> BuildReport {
    BuildReport { status: 1, log: Vec::new() }
}

#[test]
fn find_nul_gives_the_first_position() {
    assert_eq!(find_nul(b""), None);
    assert_eq!(find_nul(b"void main() {}"), None);
    assert_eq!(find_nul(b"\0"), Some(0));
    assert_eq!(find_nul(b"ab\0cd\0"), Some(2));
    assert_eq!(find_nul(b"abc\0"), Some(3));
}

#[test]
fn compile_submits_source_and_asks_for_the_report() {
    let mut ctx = Context::new();
    let compilation = Shader::compile(&mut ctx, "void main() {}", ShaderKind::Vertex);
    assert!(compilation.is_ok());
    assert_eq!(
        ctx.take_commands(),
        vec![
            Command::Create { kind: Kind::Shader(ShaderKind::Vertex), name: 1 },
            Command::ShaderSource { shader: 1, source: b"void main() {}".to_vec() },
            Command::CompileShader { shader: 1 },
            Command::QueryCompile { shader: 1 },
        ]
    );
}

#[test]
fn compile_keeps_text_beyond_ascii_as_utf8() {
    let mut ctx = Context::new();
    let compilation = Shader::compile(&mut ctx, "// é", ShaderKind::Fragment);
    assert!(compilation.is_ok());
    let commands = ctx.take_commands();
    assert_eq!(
        commands[1],
        Command::ShaderSource { shader: 1, source: vec![b'/', b'/', b' ', 0xC3, 0xA9] }
    );
}

#[test]
fn compile_refuses_a_source_with_a_zero_byte() {
    let mut ctx = Context::new();
    let refused = Shader::compile(&mut ctx, "void\0main", ShaderKind::Vertex);
    assert!(matches!(refused, Err(ShaderError::NulError(4))));
    assert_eq!(ctx.pending(), 0);
    assert_eq!(ctx.next_name(), 1);
}

#[test]
fn new_keeps_a_stage_that_compiled() {
    let mut ctx = Context::new();
    let compilation = Shader::compile(&mut ctx, "void main() {}", ShaderKind::Fragment).unwrap();
    ctx.take_commands();
    let shader = Shader::new(&mut ctx, compilation, ok_report()).unwrap();
    assert_eq!(shader.id(), 1);
    assert_eq!(ctx.pending(), 0);
}

#[test]
fn new_ignores_the_log_of_a_stage_that_compiled() {
    let mut ctx = Context::new();
    let compilation = Shader::compile(&mut ctx, "void main() {}", ShaderKind::Vertex).unwrap();
    ctx.take_commands();
    let report = BuildReport { status: BUILD_OK, log: vec![0xFF, 0xFE] };
    assert!(Shader::new(&mut ctx, compilation, report).is_ok());
    assert_eq!(ctx.pending(), 0);
}

#[test]
fn new_reports_the_log_of_a_stage_that_failed() {
    let mut ctx = Context::new();
    let compilation = Shader::compile(&mut ctx, "void main() {", ShaderKind::Fragment).unwrap();
    ctx.take_commands();
    let report = BuildReport { status: 0, log: b"0:1(14): error: syntax error".to_vec() };
    match Shader::new(&mut ctx, compilation, report) {
        Err(ShaderError::CompilationError(log)) => assert_eq!(log, "0:1(14): error: syntax error"),
        other => panic!("unexpected: {:?}", other),
    }
    assert_eq!(
        ctx.take_commands(),
        vec![Command::Delete { kind: Kind::Shader(ShaderKind::Fragment), name: 1 }]
    );
}

#[test]
fn new_takes_only_one_as_success() {
    for status in [0, -1, 2, i32::MAX, i32::MIN] {
        let mut ctx = Context::new();
        let compilation = Shader::compile(&mut ctx, "x", ShaderKind::Vertex).unwrap();
        let report = BuildReport { status, log: b"bad".to_vec() };
        assert!(matches!(
            Shader::new(&mut ctx, compilation, report),
            Err(ShaderError::CompilationError(_))
        ));
    }
}

#[test]
fn new_reports_a_log_that_is_no_text() {
    let mut ctx = Context::new();
    let compilation = Shader::compile(&mut ctx, "x", ShaderKind::Vertex).unwrap();
    ctx.take_commands();
    let report = BuildReport { status: 0, log: vec![b'o', b'k', 0xC3] };
    assert!(matches!(Shader::new(&mut ctx, compilation, report), Err(ShaderError::Utf8Error(_))));
    assert_eq!(
        ctx.take_commands(),
        vec![Command::Delete { kind: Kind::Shader(ShaderKind::Vertex), name: 1 }]
    );
}

#[test]
fn new_reports_an_empty_log_as_an_empty_text() {
    let mut ctx = Context::new();
    let compilation = Shader::compile(&mut ctx, "x", ShaderKind::Vertex).unwrap();
    let report = BuildReport { status: 0, log: Vec::new() };
    match Shader::new(&mut ctx, compilation, report) {
        Err(ShaderError::CompilationError(log)) => assert_eq!(log, ""),
        other => panic!("unexpected: {:?}", other),
    }
}

#[test]
fn build_failure_tells_linking_from_compiling() {
    match build_failure(b"undefined reference".to_vec(), true) {
        ShaderError::LinkingError(log) => assert_eq!(log, "undefined reference"),
        other => panic!("unexpected: {:?}", other),
    }
    match build_failure("größe".as_bytes().to_vec(), false) {
        ShaderError::CompilationError(log) => assert_eq!(log, "größe"),
        other => panic!("unexpected: {:?}", other),
    }
    assert!(matches!(build_failure(vec![0x80], true), ShaderError::Utf8Error(_)));
}

#[test]
fn abandoned_compilation_deletes_the_stage() {
    let mut ctx = Context::new();
    let compilation = Shader::compile(&mut ctx, "x", ShaderKind::Vertex).unwrap();
    ctx.take_commands();
    compilation.release(&mut ctx);
    assert_eq!(
        ctx.take_commands(),
        vec![Command::Delete { kind: Kind::Shader(ShaderKind::Vertex), name: 1 }]
    );
}

#[test]
fn release_deletes_the_stage_once() {
    let mut ctx = Context::new();
    let compilation = Shader::compile(&mut ctx, "x", ShaderKind::Fragment).unwrap();
    let shader = Shader::new(&mut ctx, compilation, ok_report()).unwrap();
    ctx.take_commands();
    shader.release(&mut ctx);
    assert_eq!(
        ctx.take_commands(),
        vec![Command::Delete { kind: Kind::Shader(ShaderKind::Fragment), name: 1 }]
    );
}

#[test]
fn messages_open_with_what_failed() {
    assert_eq!(
        ShaderError::CompilationError("line 3".to_string()).message(),
        "Error while compiling shader: line 3"
    );
    assert_eq!(
        ShaderError::LinkingError("no main".to_string()).message(),
        "Error while linking shaders: no main"
    );
    assert_eq!(
        ShaderError::NulError(7).message(),
        "nul byte found in provided data at position: 7"
    );
    let not_text = String::from_utf8(vec![0xFF]).unwrap_err();
    let expected = not_text.to_string();
    assert_eq!(ShaderError::Utf8Error(not_text).message(), expected);
}
