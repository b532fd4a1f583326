//! A model of the graphics state that the commands act on.
//!
//! The model keeps what the guarantees of the library speak of: which names
//! are in use, what is bound, what the buffers and textures hold, how the
//! layouts read the buffers, and how often something was drawn. It says what
//! the library expects of a host that performs its commands.

use crate::command::{BufferTarget, Kind, Op};
use vstd::prelude::*;

verus! {

/// One attribute of a vertex layout, with the buffer that was current when
/// it was declared.
pub struct Binding {
    pub location: u32,
    pub components: i32,
    pub stride: i32,
    pub offset: i32,
    pub buffer: u32,
}

/// The graphics state.
pub struct Device {
    /// The names of the objects that exist.
    pub live: Set<u32>,
    /// The buffer current for vertex records; 0 for none.
    pub array_buffer: u32,
    /// The buffer current for indices; 0 for none.
    pub element_buffer: u32,
    /// The contents of each buffer that has been given any.
    pub buffers: Map<u32, Seq<u8>>,
    /// The selected texture unit.
    pub unit: u32,
    /// The texture bound to each unit that has one.
    pub units: Map<u32, u32>,
    /// Width, height and pixels of each texture that has been given an
    /// image.
    pub images: Map<u32, (u32, u32, Seq<u8>)>,
    /// The active program; 0 for none.
    pub program: u32,
    /// The current vertex layout; 0 for none.
    pub vertex_array: u32,
    /// The attributes declared for each layout, by their slot.
    pub layouts: Map<u32, Map<u32, Binding>>,
    /// The attributes that are enabled, each as a layout and a slot.
    pub enabled: Set<(u32, u32)>,
    /// The number of draws so far.
    pub draws: nat,
}

impl Device {
    /// The buffer current for `target`.
    pub open spec fn bound_buffer(self, target: BufferTarget) -> u32 {
        match target {
            BufferTarget::Array => self.array_buffer,
            BufferTarget::ElementArray => self.element_buffer,
        }
    }

    /// The texture bound to the selected unit; 0 for none.
    pub open spec fn bound_texture(self) -> u32 {
        if self.units.contains_key(self.unit) {
            self.units[self.unit]
        } else {
            0
        }
    }

    /// The attributes declared so far for the current layout.
    pub open spec fn current_layout(self) -> Map<u32, Binding> {
        if self.layouts.contains_key(self.vertex_array) {
            self.layouts[self.vertex_array]
        } else {
            Map::empty()
        }
    }

    /// The state after one command.
    pub open spec fn apply(self, op: Op) -> Device {
        match op {
            Op::Create { kind, name } => if name != 0 {
                Device { live: self.live.insert(name), ..self }
            } else {
                self
            },
            Op::Delete { kind, name } => match kind {
                Kind::Buffer => Device {
                    live: self.live.remove(name),
                    buffers: self.buffers.remove(name),
                    ..self
                },
                Kind::Texture => Device {
                    live: self.live.remove(name),
                    images: self.images.remove(name),
                    ..self
                },
                Kind::VertexArray => Device {
                    live: self.live.remove(name),
                    layouts: self.layouts.remove(name),
                    ..self
                },
                _ => Device { live: self.live.remove(name), ..self },
            },
            Op::BindBuffer { target, name } => match target {
                BufferTarget::Array => Device { array_buffer: name, ..self },
                BufferTarget::ElementArray => Device { element_buffer: name, ..self },
            },
            Op::BufferData { target, data, usage } => Device {
                buffers: self.buffers.insert(self.bound_buffer(target), data),
                ..self
            },
            Op::UseProgram { program } => Device { program, ..self },
            Op::ActiveTexture { unit } => Device { unit, ..self },
            Op::BindTexture { name } => Device { units: self.units.insert(self.unit, name), ..self },
            Op::TextureImage { width, height, pixels } => Device {
                images: self.images.insert(self.bound_texture(), (width, height, pixels)),
                ..self
            },
            Op::BindVertexArray { name } => Device { vertex_array: name, ..self },
            Op::VertexAttribute { location, components, stride, offset } => Device {
                layouts: self.layouts.insert(
                    self.vertex_array,
                    self.current_layout().insert(
                        location,
                        Binding { location, components, stride, offset, buffer: self.array_buffer },
                    ),
                ),
                ..self
            },
            Op::EnableAttribute { location } => Device {
                enabled: self.enabled.insert((self.vertex_array, location)),
                ..self
            },
            Op::DrawElements { count } => Device { draws: self.draws + 1, ..self },
            _ => self,
        }
    }

    /// The state after a sequence of commands, performed in order.
    pub open spec fn run(self, ops: Seq<Op>) -> Device
        decreases ops.len(),
    {
        if ops.len() == 0 {
            self
        } else {
            self.run(ops.drop_last()).apply(ops.last())
        }
    }
}

/// Performing one command is applying it.
pub proof fn lemma_run_one(device: Device, op: Op)
    ensures
        device.run(seq![op]) == device.apply(op),
{
    assert(seq![op].drop_last() =~= Seq::<Op>::empty());
    reveal_with_fuel(Device::run, 2);
}

/// Performing two sequences one after the other is performing their
/// concatenation.
pub proof fn lemma_run_concat(device: Device, first: Seq<Op>, second: Seq<Op>)
    ensures
        device.run(first + second) == device.run(first).run(second),
    decreases second.len(),
{
    if second.len() == 0 {
        assert(first + second =~= first);
    } else {
        lemma_run_concat(device, first, second.drop_last());
        assert((first + second).drop_last() =~= first + second.drop_last());
        assert((first + second).last() == second.last());
    }
}

} // verus!
