//! What holds of the commands that the library issues, whatever state the
//! graphics API is in when the host performs them.

use crate::buffer::Buffer;
use crate::command::{Kind, Op, Usage};
use crate::context::Context;
use crate::device::{lemma_run_concat, lemma_run_one, Binding, Device};
use crate::renderer::{FirstImage, FragmentCompile, Link, Pipeline, Renderer, SecondImage, VertexCompile, INDEX_COUNT};
use crate::shader::{reports_failure, ShaderError};
use crate::texture::Texture;
use crate::vertex_array::VertexArray;
use vstd::prelude::*;
use vstd::utf8::valid_utf8;

verus! {

/// Whether a command leaves the contents of every buffer alone.
pub open spec fn keeps_buffers(op: Op) -> bool {
    !(op is BufferData) && !(op matches Op::Delete { kind: Kind::Buffer, .. })
}

/// Whether a command neither creates an object nor builds or fills one: it
/// only binds or destroys.
pub open spec fn only_unwinds(op: Op) -> bool {
    op is Delete || op is BindTexture
}

/// Commands that leave the buffers alone leave them alone together.
pub proof fn lemma_buffers_kept(device: Device, ops: Seq<Op>)
    requires
        forall|i: int| 0 <= i < ops.len() ==> keeps_buffers(#[trigger] ops[i]),
    ensures
        device.run(ops).buffers == device.buffers,
    decreases ops.len(),
{
    if ops.len() > 0 {
        lemma_buffers_kept(device, ops.drop_last());
    }
}

/// Describing an attribute and then drawing a frame changes the contents
/// of no buffer.
pub proof fn lemma_describe_and_draw_keep_buffers(
    device: Device,
    layout: VertexArray,
    attrib_pos: u32,
    components: i32,
    stride: i32,
    offset: i32,
    renderer: Renderer,
)
    ensures
        device.run(
            layout.set_attribute_ops(attrib_pos, components, stride, offset)
                + renderer.draw_ops(),
        ).buffers == device.buffers,
{
    let ops = layout.set_attribute_ops(attrib_pos, components, stride, offset)
        + renderer.draw_ops();
    assert forall|i: int| 0 <= i < ops.len() implies keeps_buffers(#[trigger] ops[i]) by {}
    lemma_buffers_kept(device, ops);
}

/// Describing an attribute a second time in the same way changes nothing.
pub proof fn lemma_describe_is_idempotent(
    device: Device,
    layout: VertexArray,
    attrib_pos: u32,
    components: i32,
    stride: i32,
    offset: i32,
)
    ensures
        ({
            let ops = layout.set_attribute_ops(attrib_pos, components, stride, offset);
            device.run(ops).run(ops) == device.run(ops)
        }),
{
    let ops = layout.set_attribute_ops(attrib_pos, components, stride, offset);
    let bind = Op::BindVertexArray { name: layout.name() };
    let point = Op::VertexAttribute { location: attrib_pos, components, stride, offset };
    let enable = Op::EnableAttribute { location: attrib_pos };
    assert(ops =~= seq![bind] + seq![point] + seq![enable]);
    let once = device.apply(bind).apply(point).apply(enable);
    let twice = once.apply(bind).apply(point).apply(enable);
    lemma_run_three(device, bind, point, enable);
    lemma_run_three(once, bind, point, enable);
    assert(twice.layouts =~= once.layouts) by {
        assert(once.apply(bind).current_layout().insert(
            attrib_pos,
            Binding {
                location: attrib_pos,
                components,
                stride,
                offset,
                buffer: device.array_buffer,
            },
        ) =~= once.layouts[layout.name()]);
    }
    assert(twice.enabled =~= once.enabled);
}

/// Performing three commands is applying them in order.
pub proof fn lemma_run_three(device: Device, first: Op, second: Op, third: Op)
    ensures
        device.run(seq![first] + seq![second] + seq![third]) == device.apply(first).apply(
            second,
        ).apply(third),
{
    lemma_run_concat(device, seq![first] + seq![second], seq![third]);
    lemma_run_concat(device, seq![first], seq![second]);
    lemma_run_one(device, first);
    lemma_run_one(device.run(seq![first]), second);
    lemma_run_one(device.run(seq![first] + seq![second]), third);
}

/// After a load that succeeds, the texture holds the image that was
/// decoded, with its width and its height.
pub proof fn lemma_load_gives_image(
    device: Device,
    texture: Texture,
    width: u32,
    height: u32,
    pixels: Seq<u8>,
)
    ensures
        ({
            let after = device.run(texture.load_ops(Some((width, height, pixels))));
            &&& after.images.contains_key(texture.name())
            &&& after.images[texture.name()] == (width, height, pixels)
        }),
{
    let bind = Op::BindTexture { name: texture.name() };
    let image = Op::TextureImage { width, height, pixels };
    assert(texture.load_ops(Some((width, height, pixels))) =~= seq![bind] + seq![image] + seq![
        Op::GenerateMipmap,
    ]);
    lemma_run_three(device, bind, image, Op::GenerateMipmap);
}

/// After a load that fails, every texture holds what it held before.
pub proof fn lemma_failed_load_keeps_images(device: Device, texture: Texture)
    ensures
        device.run(texture.load_ops(None)).images == device.images,
{
    assert(texture.load_ops(None) =~= seq![Op::BindTexture { name: texture.name() }]);
    lemma_run_one(device, Op::BindTexture { name: texture.name() });
}

/// A frame draws once, at its end, and what it draws are the indices of the
/// quad.
pub proof fn lemma_draw_draws_once(device: Device, renderer: Renderer)
    ensures
        device.run(renderer.draw_ops()).draws == device.draws + 1,
        renderer.draw_ops().last() == (Op::DrawElements { count: INDEX_COUNT }),
        forall|i: int|
            0 <= i < renderer.draw_ops().len() - 1 ==> !(#[trigger] renderer.draw_ops()[i]
                is DrawElements),
{
    let ops = renderer.draw_ops();
    let before = ops.drop_last();
    assert(ops =~= before + seq![ops.last()]);
    lemma_run_concat(device, before, seq![ops.last()]);
    lemma_run_one(device.run(before), ops.last());
    lemma_draws_kept(device, before);
}

/// Commands that draw nothing leave the count of draws as it is.
pub proof fn lemma_draws_kept(device: Device, ops: Seq<Op>)
    requires
        forall|i: int| 0 <= i < ops.len() ==> !(#[trigger] ops[i] is DrawElements),
    ensures
        device.run(ops).draws == device.draws,
    decreases ops.len(),
{
    if ops.len() > 0 {
        lemma_draws_kept(device, ops.drop_last());
    }
}

/// The names that commands destroy: those that a `Delete` among them
/// carries.
pub open spec fn destroyed(ops: Seq<Op>) -> Set<u32> {
    Set::new(
        |name: u32|
            exists|i: int|
                0 <= i < ops.len() && (#[trigger] ops[i] matches Op::Delete { name: n, .. } && n
                    == name),
    )
}

/// Commands that only bind and destroy leave exactly those names in use
/// that were in use and are not destroyed.
pub proof fn lemma_unwinding(device: Device, ops: Seq<Op>)
    requires
        forall|i: int| 0 <= i < ops.len() ==> only_unwinds(#[trigger] ops[i]),
    ensures
        device.run(ops).live == device.live.difference(destroyed(ops)),
    decreases ops.len(),
{
    if ops.len() == 0 {
        assert(device.live.difference(destroyed(ops)) =~= device.live);
    } else {
        let before = ops.drop_last();
        lemma_unwinding(device, before);
        assert forall|name: u32| destroyed(before).contains(name) implies destroyed(ops).contains(
            name,
        ) by {
            let i = choose|i: int|
                0 <= i < before.len() && (#[trigger] before[i] matches Op::Delete { name: n, .. }
                    && n == name);
            assert(ops[i] == before[i]);
        }
        assert forall|name: u32| destroyed(ops).contains(name) implies destroyed(before).contains(
            name,
        ) || (ops.last() matches Op::Delete { name: n, .. } && n == name) by {
            let i = choose|i: int|
                0 <= i < ops.len() && (#[trigger] ops[i] matches Op::Delete { name: n, .. } && n
                    == name);
            if i < before.len() {
                assert(before[i] == ops[i]);
            }
        }
        match ops.last() {
            Op::Delete { kind, name } => {
                assert(ops[ops.len() - 1] == ops.last());
                assert(destroyed(ops).contains(name));
                assert(device.run(ops).live =~= device.live.difference(destroyed(ops)));
            },
            _ => {
                assert(device.run(ops).live =~= device.live.difference(destroyed(ops)));
            },
        }
    }
}

/// The names of the objects of a pipeline.
pub open spec fn pipeline_names(pipeline: Pipeline) -> Set<u32> {
    set![
        pipeline.program().name(),
        pipeline.vertex_buffer().name(),
        pipeline.index_buffer().name(),
        pipeline.vertex_array().name(),
    ]
}

/// The names of the objects that a renderer owns.
pub open spec fn renderer_names(renderer: Renderer) -> Set<u32> {
    pipeline_names(renderer.pipeline()).insert(renderer.texture0().name()).insert(
        renderer.texture1().name(),
    )
}

/// Destroying a renderer issues one `Delete` for each of the six objects
/// that it owns and nothing else, and leaves none of them in use.
pub proof fn lemma_release_frees_each_once(device: Device, renderer: Renderer)
    ensures
        renderer.release_ops() == seq![
            Op::Delete { kind: Kind::Program, name: renderer.pipeline().program().name() },
            Op::Delete { kind: Kind::Buffer, name: renderer.pipeline().vertex_buffer().name() },
            Op::Delete { kind: Kind::Buffer, name: renderer.pipeline().index_buffer().name() },
            Op::Delete {
                kind: Kind::VertexArray,
                name: renderer.pipeline().vertex_array().name(),
            },
            Op::Delete { kind: Kind::Texture, name: renderer.texture0().name() },
            Op::Delete { kind: Kind::Texture, name: renderer.texture1().name() },
        ],
        device.run(renderer.release_ops()).live == device.live.difference(
            renderer_names(renderer),
        ),
{
    let ops = renderer.release_ops();
    assert(ops =~= seq![
        Op::Delete { kind: Kind::Program, name: renderer.pipeline().program().name() },
        Op::Delete { kind: Kind::Buffer, name: renderer.pipeline().vertex_buffer().name() },
        Op::Delete { kind: Kind::Buffer, name: renderer.pipeline().index_buffer().name() },
        Op::Delete { kind: Kind::VertexArray, name: renderer.pipeline().vertex_array().name() },
        Op::Delete { kind: Kind::Texture, name: renderer.texture0().name() },
        Op::Delete { kind: Kind::Texture, name: renderer.texture1().name() },
    ]);
    lemma_unwinding(device, ops);
    assert(destroyed(ops) =~= renderer_names(renderer)) by {
        assert(ops[0] is Delete && ops[1] is Delete && ops[2] is Delete);
        assert(ops[3] is Delete && ops[4] is Delete && ops[5] is Delete);
    }
}

/// A vertex stage that fails to compile is destroyed, and that is all that
/// happens: nothing is created and no link is attempted.
pub proof fn lemma_failed_vertex_unwinds(device: Device, state: VertexCompile)
    ensures
        forall|i: int|
            0 <= i < state.abandon_ops().len() ==> only_unwinds(#[trigger] state.abandon_ops()[i]),
        device.run(state.abandon_ops()).live == device.live.remove(state.vertex().name()),
{
    let ops = state.abandon_ops();
    lemma_unwinding(device, ops);
    assert(destroyed(ops) =~= set![state.vertex().name()]) by {
        assert(ops[0] is Delete);
    }
    assert(device.live.difference(set![state.vertex().name()]) =~= device.live.remove(
        state.vertex().name(),
    ));
}

/// A fragment stage that fails to compile takes both stages with it, and
/// that is all that happens: no program, buffer, layout or texture is
/// created and no link is attempted.
pub proof fn lemma_failed_fragment_unwinds(device: Device, state: FragmentCompile)
    ensures
        forall|i: int|
            0 <= i < state.abandon_ops().len() ==> only_unwinds(#[trigger] state.abandon_ops()[i]),
        device.run(state.abandon_ops()).live == device.live.difference(
            set![state.vertex().name(), state.fragment().name()],
        ),
{
    let ops = state.abandon_ops();
    lemma_unwinding(device, ops);
    assert(destroyed(ops) =~= set![state.vertex().name(), state.fragment().name()]) by {
        assert(ops[0] is Delete && ops[1] is Delete);
    }
}

/// A link that fails takes the program and both stages with it, and that
/// is all that happens.
pub proof fn lemma_failed_link_unwinds(device: Device, state: Link)
    ensures
        forall|i: int|
            0 <= i < state.abandon_ops().len() ==> only_unwinds(#[trigger] state.abandon_ops()[i]),
        device.run(state.abandon_ops()).live == device.live.difference(
            set![state.linkage().name(), state.vertex().name(), state.fragment().name()],
        ),
{
    let ops = state.abandon_ops();
    lemma_unwinding(device, ops);
    assert(destroyed(ops) =~= set![
        state.linkage().name(),
        state.vertex().name(),
        state.fragment().name(),
    ]) by {
        assert(ops[0] is Delete && ops[1] is Delete && ops[2] is Delete);
    }
}

/// A first image that cannot be loaded takes the first texture and the
/// pipeline with it; nothing is uploaded and nothing is created.
pub proof fn lemma_failed_first_image_unwinds(device: Device, state: FirstImage)
    ensures
        forall|i: int|
            0 <= i < state.failure_ops().len() ==> only_unwinds(#[trigger] state.failure_ops()[i]),
        device.run(state.failure_ops()).live == device.live.difference(
            pipeline_names(state.pipeline()).insert(state.texture0().name()),
        ),
        device.run(state.failure_ops()).images == device.images.remove(state.texture0().name()),
{
    let ops = state.failure_ops();
    lemma_unwinding(device, ops);
    assert(destroyed(ops) =~= pipeline_names(state.pipeline()).insert(state.texture0().name()))
        by {
        assert(ops[1] is Delete && ops[2] is Delete && ops[3] is Delete);
        assert(ops[4] is Delete && ops[5] is Delete);
    }
    lemma_images_after_unwinding(device, ops);
    assert(device.images.remove_keys(destroyed_textures(ops)) =~= device.images.remove(
        state.texture0().name(),
    )) by {
        assert(ops[1] matches Op::Delete { kind: Kind::Texture, .. });
        assert(destroyed_textures(ops) =~= set![state.texture0().name()]);
    }
}

/// A second image that cannot be loaded takes both textures and the
/// pipeline with it; nothing is uploaded and nothing is created.
pub proof fn lemma_failed_second_image_unwinds(device: Device, state: SecondImage)
    ensures
        forall|i: int|
            0 <= i < state.failure_ops().len() ==> only_unwinds(#[trigger] state.failure_ops()[i]),
        device.run(state.failure_ops()).live == device.live.difference(
            pipeline_names(state.pipeline()).insert(state.texture0().name()).insert(
                state.texture1().name(),
            ),
        ),
{
    let ops = state.failure_ops();
    lemma_unwinding(device, ops);
    assert(destroyed(ops) =~= pipeline_names(state.pipeline()).insert(
        state.texture0().name(),
    ).insert(state.texture1().name())) by {
        assert(ops[1] is Delete && ops[2] is Delete && ops[3] is Delete);
        assert(ops[4] is Delete && ops[5] is Delete && ops[6] is Delete);
    }
}

/// The names of the textures that commands destroy.
pub open spec fn destroyed_textures(ops: Seq<Op>) -> Set<u32> {
    Set::new(
        |name: u32|
            exists|i: int|
                0 <= i < ops.len() && (#[trigger] ops[i] matches Op::Delete {
                    kind: Kind::Texture,
                    name: n,
                } && n == name),
    )
}

/// Commands that only bind and destroy give no texture a new image: the
/// textures that are not destroyed hold what they held.
pub proof fn lemma_images_after_unwinding(device: Device, ops: Seq<Op>)
    requires
        forall|i: int| 0 <= i < ops.len() ==> only_unwinds(#[trigger] ops[i]),
    ensures
        device.run(ops).images == device.images.remove_keys(destroyed_textures(ops)),
    decreases ops.len(),
{
    if ops.len() == 0 {
        assert(device.images.remove_keys(destroyed_textures(ops)) =~= device.images);
    } else {
        let before = ops.drop_last();
        lemma_images_after_unwinding(device, before);
        assert forall|name: u32| destroyed_textures(before).contains(
            name,
        ) implies destroyed_textures(ops).contains(name) by {
            let i = choose|i: int|
                0 <= i < before.len() && (#[trigger] before[i] matches Op::Delete {
                    kind: Kind::Texture,
                    name: n,
                } && n == name);
            assert(ops[i] == before[i]);
        }
        assert forall|name: u32| destroyed_textures(ops).contains(
            name,
        ) implies destroyed_textures(before).contains(name) || (ops.last() matches Op::Delete {
            kind: Kind::Texture,
            name: n,
        } && n == name) by {
            let i = choose|i: int|
                0 <= i < ops.len() && (#[trigger] ops[i] matches Op::Delete {
                    kind: Kind::Texture,
                    name: n,
                } && n == name);
            if i < before.len() {
                assert(before[i] == ops[i]);
            }
        }
        assert(ops[ops.len() - 1] == ops.last());
        assert(device.run(ops).images =~= device.images.remove_keys(destroyed_textures(ops)));
    }
}

/// A build that fails with a log that is text and is not empty is
/// reported with a text that is not empty.
pub proof fn lemma_failure_text_not_empty(error: ShaderError, log: Seq<u8>, linking: bool)
    requires
        reports_failure(error, log, linking),
        valid_utf8(log),
        log.len() > 0,
    ensures
        match error {
            ShaderError::CompilationError(text) => !linking && text@.len() > 0,
            ShaderError::LinkingError(text) => linking && text@.len() > 0,
            _ => false,
        },
{
}

/// After an upload the buffer is current for its target and holds the
/// bytes that were given.
pub proof fn lemma_set_data_fills_buffer(
    device: Device,
    buffer: Buffer,
    data: Seq<u8>,
    usage: Usage,
)
    ensures
        ({
            let after = device.run(buffer.set_data_ops(data, usage));
            &&& after.bound_buffer(buffer.kind()) == buffer.name()
            &&& after.buffers.contains_key(buffer.name())
            &&& after.buffers[buffer.name()] == data
        }),
{
    let bind = Op::BindBuffer { target: buffer.kind(), name: buffer.name() };
    let fill = Op::BufferData { target: buffer.kind(), data, usage };
    assert(buffer.set_data_ops(data, usage) =~= seq![bind] + seq![fill]);
    lemma_run_concat(device, seq![bind], seq![fill]);
    lemma_run_one(device, bind);
    lemma_run_one(device.run(seq![bind]), fill);
}

/// After an attribute is described, the layout is current and reads the
/// attribute as described, from the buffer that was current for vertex
/// records when the description was made.
pub proof fn lemma_attribute_reads_bound_buffer(
    device: Device,
    layout: VertexArray,
    attrib_pos: u32,
    components: i32,
    stride: i32,
    offset: i32,
)
    ensures
        ({
            let after = device.run(
                layout.set_attribute_ops(attrib_pos, components, stride, offset),
            );
            &&& after.vertex_array == layout.name()
            &&& after.current_layout().contains_key(attrib_pos)
            &&& after.current_layout()[attrib_pos] == Binding {
                location: attrib_pos,
                components,
                stride,
                offset,
                buffer: device.array_buffer,
            }
            &&& after.enabled.contains((layout.name(), attrib_pos))
        }),
{
    let bind = Op::BindVertexArray { name: layout.name() };
    let point = Op::VertexAttribute { location: attrib_pos, components, stride, offset };
    let enable = Op::EnableAttribute { location: attrib_pos };
    assert(layout.set_attribute_ops(attrib_pos, components, stride, offset) =~= seq![bind]
        + seq![point] + seq![enable]);
    lemma_run_three(device, bind, point, enable);
}

/// After a texture is activated on a unit, that unit is selected and the
/// texture is bound to it.
pub proof fn lemma_activate_binds_unit(device: Device, texture: Texture, unit: u32)
    ensures
        ({
            let after = device.run(texture.activate_ops(unit));
            &&& after.unit == unit
            &&& after.bound_texture() == texture.name()
        }),
{
    let select = Op::ActiveTexture { unit };
    let bind = Op::BindTexture { name: texture.name() };
    assert(texture.activate_ops(unit) =~= seq![select] + seq![bind]);
    lemma_run_concat(device, seq![select], seq![bind]);
    lemma_run_one(device, select);
    lemma_run_one(device.run(seq![select]), bind);
}

/// Of two allocations from one context the later yields a name that the
/// earlier did not yield, unless the names are used up by then.
pub proof fn lemma_fresh_names_differ(ctx: Context, earlier: nat, later: nat)
    requires
        earlier < later,
        ctx.fresh_after(later) != 0,
    ensures
        ctx.fresh_after(earlier) < ctx.fresh_after(later),
{
}

/// A pipeline that is given up leaves none of its objects in use, and
/// giving it up creates nothing.
pub proof fn lemma_abandoned_pipeline_unwinds(device: Device, pipeline: Pipeline)
    ensures
        forall|i: int|
            0 <= i < pipeline.abandon_ops().len() ==> only_unwinds(
                #[trigger] pipeline.abandon_ops()[i],
            ),
        device.run(pipeline.abandon_ops()).live == device.live.difference(
            pipeline_names(pipeline),
        ),
{
    let ops = pipeline.abandon_ops();
    lemma_unwinding(device, ops);
    assert(destroyed(ops) =~= pipeline_names(pipeline)) by {
        assert(ops[0] is Delete && ops[1] is Delete && ops[2] is Delete && ops[3] is Delete);
    }
}

} // verus!
