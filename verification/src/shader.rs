//! Shader stages: compiling source text and reporting what went wrong.

use crate::command::{Command, Kind, Op, ShaderKind};
use crate::context::Context;
use std::string::FromUtf8Error;
use vstd::prelude::*;
use vstd::slice::slice_to_vec;
use vstd::string::StringExecFns;
use vstd::string::StringSliceAdditionalSpecFns;
use vstd::utf8::{encode_utf8, valid_utf8};

verus! {

/// The error of `String::from_utf8`, carried through unopened.
#[verifier::external_type_specification]
#[verifier::external_body]
pub struct ExFromUtf8Error(std::string::FromUtf8Error);

/// Why a shader or a program could not be built or used.
#[derive(Debug)]
pub enum ShaderError {
    /// The driver refused the source of a stage; the text is its log.
    CompilationError(String),
    /// The driver could not link the stages; the text is its log.
    LinkingError(String),
    /// The driver's log is not text.
    Utf8Error(FromUtf8Error),
    /// A source text or a name holds a zero byte, first at this position, and
    /// so cannot be passed to the driver as a terminated string.
    NulError(usize),
}

impl ShaderError {
    /// Whether `text` puts the error in words, as far as the library
    /// chooses the words itself.
    pub open spec fn reads_as(&self, text: Seq<char>) -> bool {
        match self {
            ShaderError::CompilationError(log) => text == "Error while compiling shader: "@
                + log@,
            ShaderError::LinkingError(log) => text == "Error while linking shaders: "@ + log@,
            _ => true,
        }
    }

    /// The error in words.
    ///
    /// A compilation or linking error reads as a fixed opening followed by
    /// the driver's log. The other two read as the standard library words
    /// such a failure: for a zero byte, the sentence that `CString::new`
    /// gives with the position at its end.
    pub fn message(&self) -> (text: String)
        ensures
            self.reads_as(text@),
    {
        match self {
            ShaderError::CompilationError(log) => String::from_str(
                "Error while compiling shader: ",
            ).concat(log.as_str()),
            ShaderError::LinkingError(log) => String::from_str(
                "Error while linking shaders: ",
            ).concat(log.as_str()),
            ShaderError::Utf8Error(e) => e.to_string(),
            ShaderError::NulError(at) => String::from_str(
                "nul byte found in provided data at position: ",
            ).concat(at.to_string().as_str()),
        }
    }
}

/// What the driver says of a compile or a link.
#[derive(Debug, PartialEq, Eq)]
pub struct BuildReport {
    /// 1 for success; anything else for failure.
    pub status: i32,
    /// The diagnostic log, as the driver wrote it.
    pub log: Vec<u8>,
}

/// The status that reports success.
pub const BUILD_OK: i32 = 1;

/// Whether `at` is the position of the first zero byte of `bytes`.
pub open spec fn is_first_nul(bytes: Seq<u8>, at: int) -> bool {
    &&& 0 <= at < bytes.len()
    &&& bytes[at] == 0
    &&& forall|i: int| 0 <= i < at ==> bytes[i] != 0
}

/// Whether `bytes` holds no zero byte.
pub open spec fn nul_free(bytes: Seq<u8>) -> bool {
    forall|i: int| 0 <= i < bytes.len() ==> bytes[i] != 0
}

/// The position of the first zero byte of `bytes`, if there is one.
pub fn find_nul(bytes: &[u8]) -> (found: Option<usize>)
    ensures
        match found {
            Some(at) => is_first_nul(bytes@, at as int),
            None => nul_free(bytes@),
        },
{
    let mut at: usize = 0;
    while at < bytes.len()
        invariant
            at <= bytes@.len(),
            forall|i: int| 0 <= i < at ==> bytes@[i] != 0,
        decreases bytes@.len() - at,
    {
        if bytes[at] == 0 {
            return Some(at);
        }
        at += 1;
    }
    None
}

/// Reads bytes as text.
///
/// Calls `String::from_utf8`, which succeeds exactly on well-formed UTF-8
/// and then yields the string that is encoded by the very bytes it was
/// given.
#[verifier::external_body]
fn text_from_utf8(bytes: Vec<u8>) -> (text: Result<String, FromUtf8Error>)
    ensures
        text is Ok <==> valid_utf8(bytes@),
        text matches Ok(s) ==> encode_utf8(s@) == bytes@,
{
    String::from_utf8(bytes)
}

/// Whether `error` is how a failed build with the log `log` is reported:
/// the log as text, as a linking or a compilation error, or the complaint
/// that the log is no text.
pub open spec fn reports_failure(error: ShaderError, log: Seq<u8>, linking: bool) -> bool {
    if !valid_utf8(log) {
        error is Utf8Error
    } else if linking {
        error matches ShaderError::LinkingError(text) && encode_utf8(text@) == log
    } else {
        error matches ShaderError::CompilationError(text) && encode_utf8(text@) == log
    }
}

/// Turns the log of a failed build into the error that reports it.
pub fn build_failure(log: Vec<u8>, linking: bool) -> (error: ShaderError)
    ensures
        reports_failure(error, log@, linking),
{
    match text_from_utf8(log) {
        Ok(text) => {
            if linking {
                ShaderError::LinkingError(text)
            } else {
                ShaderError::CompilationError(text)
            }
        },
        Err(e) => ShaderError::Utf8Error(e),
    }
}

/// The owner of one compiled shader stage.
///
/// A `Shader` exists only for a stage whose compilation the driver has
/// reported as successful.
#[derive(Debug)]
pub struct Shader {
    id: u32,
    stage: ShaderKind,
}

/// A stage whose source has been handed to the driver and whose compile
/// report is awaited.
#[derive(Debug)]
pub struct Compilation {
    shader: Shader,
}

impl Compilation {
    /// The name of the stage that is being compiled.
    pub closed spec fn name(&self) -> u32 {
        self.shader.id
    }

    /// The kind of the stage that is being compiled.
    pub closed spec fn kind(&self) -> ShaderKind {
        self.shader.stage
    }

    /// What abandoning the compilation issues.
    pub open spec fn release_ops(&self) -> Seq<Op> {
        seq![Op::Delete { kind: Kind::Shader(self.kind()), name: self.name() }]
    }

    /// Destroys the stage without waiting for its report.
    pub fn release(self, ctx: &mut Context)
        ensures
            final(ctx).issued() == old(ctx).issued() + self.release_ops(),
            final(ctx).counter() == old(ctx).counter(),
    {
        self.shader.release(ctx);
    }
}

impl Shader {
    /// The name of the stage; 0 if the context had no name left for it.
    pub closed spec fn name(&self) -> u32 {
        self.id
    }

    /// The kind of the stage.
    pub closed spec fn kind(&self) -> ShaderKind {
        self.stage
    }

    /// What [`Shader::compile`] issues for a stage named `name`.
    pub open spec fn compile_ops(name: u32, source: Seq<u8>, kind: ShaderKind) -> Seq<Op> {
        seq![
            Op::Create { kind: Kind::Shader(kind), name },
            Op::ShaderSource { shader: name, source },
            Op::CompileShader { shader: name },
            Op::QueryCompile { shader: name },
        ]
    }

    /// What [`Shader::release`] issues.
    pub open spec fn release_ops(&self) -> Seq<Op> {
        seq![Op::Delete { kind: Kind::Shader(self.kind()), name: self.name() }]
    }

    /// Hands the source of a stage to the driver for compilation and asks
    /// for the report.
    ///
    /// A source that holds a zero byte cannot be passed on: it is refused
    /// with the position of the first such byte, and nothing is created.
    pub fn compile(ctx: &mut Context, source_code: &str, shader_type: ShaderKind) -> (submitted:
        Result<Compilation, ShaderError>)
        ensures
            match submitted {
                Ok(compilation) => {
                    &&& nul_free(source_code.spec_bytes())
                    &&& compilation.name() == old(ctx).fresh()
                    &&& compilation.kind() == shader_type
                    &&& final(ctx).counter() == old(ctx).counter_after(1)
                    &&& final(ctx).issued() == old(ctx).issued() + Shader::compile_ops(
                        compilation.name(),
                        source_code.spec_bytes(),
                        shader_type,
                    )
                },
                Err(error) => {
                    &&& error matches ShaderError::NulError(at)
                    &&& is_first_nul(source_code.spec_bytes(), at as int)
                    &&& final(ctx).counter() == old(ctx).counter()
                    &&& final(ctx).issued() == old(ctx).issued()
                },
            },
    {
        let bytes: &[u8] = source_code.as_bytes();
        match find_nul(bytes) {
            Some(at) => Err(ShaderError::NulError(at)),
            None => {
                let id: u32 = ctx.allocate();
                ctx.issue(Command::Create { kind: Kind::Shader(shader_type), name: id });
                ctx.issue(Command::ShaderSource { shader: id, source: slice_to_vec(bytes) });
                ctx.issue(Command::CompileShader { shader: id });
                ctx.issue(Command::QueryCompile { shader: id });
                assert(ctx.issued() =~= old(ctx).issued() + Shader::compile_ops(
                    id,
                    source_code.spec_bytes(),
                    shader_type,
                ));
                Ok(Compilation { shader: Shader { id, stage: shader_type } })
            },
        }
    }

    /// Completes a compilation with the driver's report.
    ///
    /// The stage is kept exactly when the report's status is [`BUILD_OK`].
    /// Otherwise the stage is destroyed and the report's log is returned as
    /// a [`ShaderError::CompilationError`], or, where the log is not
    /// well-formed UTF-8, the failure to read it as a
    /// [`ShaderError::Utf8Error`].
    pub fn new(ctx: &mut Context, compilation: Compilation, report: BuildReport) -> (built: Result<
        Shader,
        ShaderError,
    >)
        ensures
            built is Ok <==> report.status == BUILD_OK,
            match built {
                Ok(shader) => {
                    &&& shader.name() == compilation.name()
                    &&& shader.kind() == compilation.kind()
                    &&& final(ctx).issued() == old(ctx).issued()
                },
                Err(error) => {
                    &&& reports_failure(error, report.log@, false)
                    &&& final(ctx).issued() == old(ctx).issued() + compilation.release_ops()
                },
            },
            final(ctx).counter() == old(ctx).counter(),
    {
        if report.status == BUILD_OK {
            Ok(compilation.shader)
        } else {
            let error = build_failure(report.log, false);
            compilation.shader.release(ctx);
            Err(error)
        }
    }

    /// The name of the stage.
    pub fn id(&self) -> (id: u32)
        ensures
            id == self.name(),
    {
        self.id
    }

    /// Destroys the stage.
    pub fn release(self, ctx: &mut Context)
        ensures
            final(ctx).issued() == old(ctx).issued() + self.release_ops(),
            final(ctx).counter() == old(ctx).counter(),
    {
        ctx.issue(Command::Delete { kind: Kind::Shader(self.stage), name: self.id });
        assert(ctx.issued() =~= old(ctx).issued() + self.release_ops());
    }
}

} // verus!
