//! Vertex layouts: how the bytes of a buffer feed the inputs of a shader.

use crate::command::{Command, Kind, Op};
use crate::context::Context;
use vstd::prelude::*;

verus! {

/// The owner of one vertex layout.
#[derive(Debug)]
pub struct VertexArray {
    id: u32,
}

impl VertexArray {
    /// The name of the layout; 0 if the context had no name left for it.
    pub closed spec fn name(&self) -> u32 {
        self.id
    }

    /// What [`VertexArray::bind`] issues.
    pub open spec fn bind_ops(&self) -> Seq<Op> {
        seq![Op::BindVertexArray { name: self.name() }]
    }

    /// What [`VertexArray::set_attribute`] issues.
    pub open spec fn set_attribute_ops(
        &self,
        attrib_pos: u32,
        components: i32,
        stride: i32,
        offset: i32,
    ) -> Seq<Op> {
        seq![
            Op::BindVertexArray { name: self.name() },
            Op::VertexAttribute { location: attrib_pos, components, stride, offset },
            Op::EnableAttribute { location: attrib_pos },
        ]
    }

    /// What [`VertexArray::release`] issues.
    pub open spec fn release_ops(&self) -> Seq<Op> {
        seq![Op::Delete { kind: Kind::VertexArray, name: self.name() }]
    }

    /// Allocates a layout under a fresh name.
    pub fn new(ctx: &mut Context) -> (layout: VertexArray)
        ensures
            layout.name() == old(ctx).fresh(),
            final(ctx).counter() == old(ctx).counter_after(1),
            final(ctx).issued() == old(ctx).issued().push(
                Op::Create { kind: Kind::VertexArray, name: layout.name() },
            ),
    {
        let id: u32 = ctx.allocate();
        ctx.issue(Command::Create { kind: Kind::VertexArray, name: id });
        VertexArray { id }
    }

    /// The name of the layout.
    pub fn id(&self) -> (id: u32)
        ensures
            id == self.name(),
    {
        self.id
    }

    /// Makes the layout current, then declares that attribute `attrib_pos`
    /// reads `components` consecutive floating-point values at byte `offset`
    /// of each `stride`-byte record of the current vertex buffer, and
    /// enables that attribute.
    ///
    /// The declaration is passed on as given: nothing compares it with the
    /// records that the buffer holds.
    pub fn set_attribute(
        &self,
        ctx: &mut Context,
        attrib_pos: u32,
        components: i32,
        stride: i32,
        offset: i32,
    )
        ensures
            final(ctx).issued() == old(ctx).issued() + self.set_attribute_ops(
                attrib_pos,
                components,
                stride,
                offset,
            ),
            final(ctx).counter() == old(ctx).counter(),
    {
        self.bind(ctx);
        ctx.issue(Command::VertexAttribute { location: attrib_pos, components, stride, offset });
        ctx.issue(Command::EnableAttribute { location: attrib_pos });
        assert(ctx.issued() =~= old(ctx).issued() + self.set_attribute_ops(
            attrib_pos,
            components,
            stride,
            offset,
        ));
    }

    /// Makes the layout current.
    pub fn bind(&self, ctx: &mut Context)
        ensures
            final(ctx).issued() == old(ctx).issued() + self.bind_ops(),
            final(ctx).counter() == old(ctx).counter(),
    {
        ctx.issue(Command::BindVertexArray { name: self.id });
        assert(ctx.issued() =~= old(ctx).issued() + self.bind_ops());
    }

    /// Destroys the layout.
    pub fn release(self, ctx: &mut Context)
        ensures
            final(ctx).issued() == old(ctx).issued() + self.release_ops(),
            final(ctx).counter() == old(ctx).counter(),
    {
        ctx.issue(Command::Delete { kind: Kind::VertexArray, name: self.id });
        assert(ctx.issued() =~= old(ctx).issued() + self.release_ops());
    }
}

} // verus!
