//! Buffers: vertex and index storage on the GPU.

use crate::command::{BufferTarget, Command, Kind, Op, Usage};
use crate::context::Context;
use vstd::prelude::*;
use vstd::slice::slice_to_vec;

verus! {

/// The owner of one buffer.
///
/// A buffer is created by [`Buffer::new`] and destroyed by
/// [`Buffer::release`], which consumes it: no operation can name the buffer
/// after its storage is gone.
#[derive(Debug)]
pub struct Buffer {
    id: u32,
    target: BufferTarget,
}

impl Buffer {
    /// The name of the buffer; 0 if the context had no name left for it.
    pub closed spec fn name(&self) -> u32 {
        self.id
    }

    /// The binding point that the buffer was created for.
    pub closed spec fn kind(&self) -> BufferTarget {
        self.target
    }

    /// What [`Buffer::bind`] issues.
    pub open spec fn bind_ops(&self) -> Seq<Op> {
        seq![Op::BindBuffer { target: self.kind(), name: self.name() }]
    }

    /// What [`Buffer::set_data`] issues.
    pub open spec fn set_data_ops(&self, data: Seq<u8>, usage: Usage) -> Seq<Op> {
        seq![
            Op::BindBuffer { target: self.kind(), name: self.name() },
            Op::BufferData { target: self.kind(), data, usage },
        ]
    }

    /// What [`Buffer::release`] issues.
    pub open spec fn release_ops(&self) -> Seq<Op> {
        seq![Op::Delete { kind: Kind::Buffer, name: self.name() }]
    }

    /// Allocates a buffer for `target` under a fresh name.
    pub fn new(ctx: &mut Context, target: BufferTarget) -> (buffer: Buffer)
        ensures
            buffer.name() == old(ctx).fresh(),
            buffer.kind() == target,
            final(ctx).counter() == old(ctx).counter_after(1),
            final(ctx).issued() == old(ctx).issued().push(
                Op::Create { kind: Kind::Buffer, name: buffer.name() },
            ),
    {
        let id: u32 = ctx.allocate();
        ctx.issue(Command::Create { kind: Kind::Buffer, name: id });
        Buffer { id, target }
    }

    /// The name of the buffer.
    pub fn id(&self) -> (id: u32)
        ensures
            id == self.name(),
    {
        self.id
    }

    /// The binding point that the buffer was created for.
    pub fn target(&self) -> (target: BufferTarget)
        ensures
            target == self.kind(),
    {
        self.target
    }

    /// Makes the buffer current for its target, then replaces its storage
    /// with a copy of `data`, tagged with `usage`.
    pub fn set_data(&self, ctx: &mut Context, data: &[u8], usage: Usage)
        ensures
            final(ctx).issued() == old(ctx).issued() + self.set_data_ops(data@, usage),
            final(ctx).counter() == old(ctx).counter(),
    {
        self.bind(ctx);
        let bytes: Vec<u8> = slice_to_vec(data);
        ctx.issue(Command::BufferData { target: self.target, data: bytes, usage });
        assert(ctx.issued() =~= old(ctx).issued() + self.set_data_ops(data@, usage));
    }

    /// Makes the buffer current for its target.
    pub fn bind(&self, ctx: &mut Context)
        ensures
            final(ctx).issued() == old(ctx).issued() + self.bind_ops(),
            final(ctx).counter() == old(ctx).counter(),
    {
        ctx.issue(Command::BindBuffer { target: self.target, name: self.id });
        assert(ctx.issued() =~= old(ctx).issued() + self.bind_ops());
    }

    /// Destroys the buffer.
    pub fn release(self, ctx: &mut Context)
        ensures
            final(ctx).issued() == old(ctx).issued() + self.release_ops(),
            final(ctx).counter() == old(ctx).counter(),
    {
        ctx.issue(Command::Delete { kind: Kind::Buffer, name: self.id });
        assert(ctx.issued() =~= old(ctx).issued() + self.release_ops());
    }
}

} // verus!
