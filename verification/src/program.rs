//! Programs: linked shader stages, their attributes and their uniforms.

use crate::command::{Command, Kind, Op};
use crate::context::Context;
use crate::shader::{
    build_failure, find_nul, is_first_nul, nul_free, reports_failure, BuildReport, Shader,
    ShaderError, BUILD_OK,
};
use vstd::prelude::*;
use vstd::slice::slice_to_vec;
use vstd::string::StringSliceAdditionalSpecFns;

verus! {

/// The slot that stands for "the program has no attribute of that name".
pub const NOT_FOUND: u32 = 0xFFFF_FFFF;

/// The slot that a program's attribute lookup denotes: the driver's answer
/// read as an unsigned number of the same 32 bits.
pub open spec fn slot_of(answer: i32) -> u32 {
    if answer >= 0 {
        answer as u32
    } else {
        (answer + 0x1_0000_0000) as u32
    }
}

/// What attaching `shaders` to `program` issues, one command a stage, in
/// order.
pub open spec fn attach_ops(program: u32, shaders: Seq<Shader>) -> Seq<Op> {
    Seq::new(shaders.len(), |i: int| Op::AttachShader { program, shader: shaders[i].name() })
}

/// The owner of one linked program.
///
/// A `ShaderProgram` exists only for a program whose linking the driver has
/// reported as successful.
#[derive(Debug)]
pub struct ShaderProgram {
    id: u32,
}

/// A program whose stages have been handed to the driver for linking and
/// whose link report is awaited.
#[derive(Debug)]
pub struct Linkage {
    program: ShaderProgram,
}

impl Linkage {
    /// The name of the program that is being linked.
    pub closed spec fn name(&self) -> u32 {
        self.program.id
    }

    /// What abandoning the link issues.
    pub open spec fn release_ops(&self) -> Seq<Op> {
        seq![Op::Delete { kind: Kind::Program, name: self.name() }]
    }

    /// Destroys the program without waiting for its report.
    pub fn release(self, ctx: &mut Context)
        ensures
            final(ctx).issued() == old(ctx).issued() + self.release_ops(),
            final(ctx).counter() == old(ctx).counter(),
    {
        self.program.release(ctx);
    }
}

impl ShaderProgram {
    /// The name of the program; 0 if the context had no name left for it.
    pub closed spec fn name(&self) -> u32 {
        self.id
    }

    /// What [`ShaderProgram::link`] issues for a program named `name`.
    pub open spec fn link_ops(name: u32, shaders: Seq<Shader>) -> Seq<Op> {
        seq![Op::Create { kind: Kind::Program, name }] + attach_ops(name, shaders) + seq![
            Op::LinkProgram { program: name },
            Op::QueryLink { program: name },
        ]
    }

    /// What [`ShaderProgram::apply`] issues.
    pub open spec fn apply_ops(&self) -> Seq<Op> {
        seq![Op::UseProgram { program: self.name() }]
    }

    /// What [`ShaderProgram::query_attrib_location`] issues for a name
    /// without a zero byte.
    pub open spec fn query_attrib_ops(&self, attrib: Seq<u8>) -> Seq<Op> {
        seq![Op::QueryAttribute { program: self.name(), attribute: attrib }]
    }

    /// What [`ShaderProgram::set_int_uniform`] issues: the program is
    /// applied in any case, and the uniform is written where its name holds
    /// no zero byte.
    pub open spec fn set_int_uniform_ops(&self, name: Seq<u8>, value: i32) -> Seq<Op> {
        if nul_free(name) {
            seq![
                Op::UseProgram { program: self.name() },
                Op::SetUniform { program: self.name(), uniform: name, value },
            ]
        } else {
            seq![Op::UseProgram { program: self.name() }]
        }
    }

    /// What [`ShaderProgram::release`] issues.
    pub open spec fn release_ops(&self) -> Seq<Op> {
        seq![Op::Delete { kind: Kind::Program, name: self.name() }]
    }

    /// Creates a program under a fresh name, attaches every stage of
    /// `shaders` in order, has it linked and asks for the report.
    ///
    /// The stages are only borrowed: the program does not own them.
    pub fn link(ctx: &mut Context, shaders: &[Shader]) -> (linkage: Linkage)
        ensures
            linkage.name() == old(ctx).fresh(),
            final(ctx).counter() == old(ctx).counter_after(1),
            final(ctx).issued() == old(ctx).issued() + ShaderProgram::link_ops(
                linkage.name(),
                shaders@,
            ),
    {
        let id: u32 = ctx.allocate();
        ctx.issue(Command::Create { kind: Kind::Program, name: id });
        let ghost created = ctx.issued();
        let mut i: usize = 0;
        while i < shaders.len()
            invariant
                i <= shaders@.len(),
                ctx.counter() == old(ctx).counter_after(1),
                ctx.issued() == created + attach_ops(id, shaders@.take(i as int)),
            decreases shaders@.len() - i,
        {
            ctx.issue(Command::AttachShader { program: id, shader: shaders[i].id() });
            assert(ctx.issued() =~= created + attach_ops(id, shaders@.take(i + 1)));
            i += 1;
        }
        assert(shaders@.take(i as int) =~= shaders@);
        ctx.issue(Command::LinkProgram { program: id });
        ctx.issue(Command::QueryLink { program: id });
        assert(ctx.issued() =~= old(ctx).issued() + ShaderProgram::link_ops(id, shaders@));
        Linkage { program: ShaderProgram { id } }
    }

    /// Completes a link with the driver's report.
    ///
    /// The program is kept exactly when the report's status is
    /// [`BUILD_OK`]. Otherwise the program is destroyed and the report's log
    /// is returned as a [`ShaderError::LinkingError`], or, where the log is
    /// not well-formed UTF-8, the failure to read it as a
    /// [`ShaderError::Utf8Error`].
    pub fn new(ctx: &mut Context, linkage: Linkage, report: BuildReport) -> (built: Result<
        ShaderProgram,
        ShaderError,
    >)
        ensures
            built is Ok <==> report.status == BUILD_OK,
            match built {
                Ok(program) => {
                    &&& program.name() == linkage.name()
                    &&& final(ctx).issued() == old(ctx).issued()
                },
                Err(error) => {
                    &&& reports_failure(error, report.log@, true)
                    &&& final(ctx).issued() == old(ctx).issued() + linkage.release_ops()
                },
            },
            final(ctx).counter() == old(ctx).counter(),
    {
        if report.status == BUILD_OK {
            Ok(linkage.program)
        } else {
            let error = build_failure(report.log, true);
            linkage.program.release(ctx);
            Err(error)
        }
    }

    /// The name of the program.
    pub fn id(&self) -> (id: u32)
        ensures
            id == self.name(),
    {
        self.id
    }

    /// Makes the program the active one.
    pub fn apply(&self, ctx: &mut Context)
        ensures
            final(ctx).issued() == old(ctx).issued() + self.apply_ops(),
            final(ctx).counter() == old(ctx).counter(),
    {
        ctx.issue(Command::UseProgram { program: self.id });
        assert(ctx.issued() =~= old(ctx).issued() + self.apply_ops());
    }

    /// Asks the driver for the slot of the vertex attribute called
    /// `attrib`.
    ///
    /// The request is made for every name that holds no zero byte, whether
    /// or not the program has such an attribute. A name with a zero byte is
    /// refused with the position of the first one, and nothing is asked.
    pub fn query_attrib_location(&self, ctx: &mut Context, attrib: &str) -> (asked: Result<
        (),
        ShaderError,
    >)
        ensures
            asked is Ok <==> nul_free(attrib.spec_bytes()),
            match asked {
                Ok(_) => final(ctx).issued() == old(ctx).issued() + self.query_attrib_ops(
                    attrib.spec_bytes(),
                ),
                Err(error) => {
                    &&& error matches ShaderError::NulError(at)
                    &&& is_first_nul(attrib.spec_bytes(), at as int)
                    &&& final(ctx).issued() == old(ctx).issued()
                },
            },
            final(ctx).counter() == old(ctx).counter(),
    {
        let bytes: &[u8] = attrib.as_bytes();
        match find_nul(bytes) {
            Some(at) => Err(ShaderError::NulError(at)),
            None => {
                ctx.issue(
                    Command::QueryAttribute { program: self.id, attribute: slice_to_vec(bytes) },
                );
                assert(ctx.issued() =~= old(ctx).issued() + self.query_attrib_ops(
                    attrib.spec_bytes(),
                ));
                Ok(())
            },
        }
    }

    /// The slot of a vertex attribute, from the driver's answer to
    /// [`ShaderProgram::query_attrib_location`].
    ///
    /// The answer is passed on unexamined. For a name that the program does
    /// not have the driver answers -1, which comes out as [`NOT_FOUND`]: a
    /// slot like any other to the operations that take one, and not an
    /// error.
    pub fn get_attrib_location(&self, answer: i32) -> (slot: u32)
        ensures
            slot == slot_of(answer),
            answer == -1 ==> slot == NOT_FOUND,
    {
        if answer >= 0 {
            answer as u32
        } else {
            let below: u32 = (-(answer + 1)) as u32;
            NOT_FOUND - below
        }
    }

    /// Makes the program the active one, then writes `value` to its integer
    /// uniform called `name`.
    ///
    /// A name with a zero byte is refused with the position of the first
    /// one; the program has been applied by then. A name that the program
    /// does not have is no error: the write goes wherever the driver
    /// locates the name, which for an unknown name is nowhere.
    pub fn set_int_uniform(&self, ctx: &mut Context, name: &str, value: i32) -> (written: Result<
        (),
        ShaderError,
    >)
        ensures
            written is Ok <==> nul_free(name.spec_bytes()),
            written matches Err(error) ==> error matches ShaderError::NulError(at) && is_first_nul(
                name.spec_bytes(),
                at as int,
            ),
            final(ctx).issued() == old(ctx).issued() + self.set_int_uniform_ops(
                name.spec_bytes(),
                value,
            ),
            final(ctx).counter() == old(ctx).counter(),
    {
        self.apply(ctx);
        let bytes: &[u8] = name.as_bytes();
        match find_nul(bytes) {
            Some(at) => {
                assert(ctx.issued() =~= old(ctx).issued() + self.set_int_uniform_ops(
                    name.spec_bytes(),
                    value,
                ));
                Err(ShaderError::NulError(at))
            },
            None => {
                ctx.issue(
                    Command::SetUniform { program: self.id, uniform: slice_to_vec(bytes), value },
                );
                assert(ctx.issued() =~= old(ctx).issued() + self.set_int_uniform_ops(
                    name.spec_bytes(),
                    value,
                ));
                Ok(())
            },
        }
    }

    /// Destroys the program.
    pub fn release(self, ctx: &mut Context)
        ensures
            final(ctx).issued() == old(ctx).issued() + self.release_ops(),
            final(ctx).counter() == old(ctx).counter(),
    {
        ctx.issue(Command::Delete { kind: Kind::Program, name: self.id });
        assert(ctx.issued() =~= old(ctx).issued() + self.release_ops());
    }
}

} // verus!
