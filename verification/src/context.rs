//! The render context: the queue of requests and the source of names.

use crate::command::{ops_of, Command, Op};
use vstd::prelude::*;

verus! {

/// The one value through which every operation of the library reaches the
/// graphics API.
///
/// It holds the commands that were issued and not yet taken by the host, in
/// order, and the next name to hand out. Names start at 1 and are never
/// reused; 0 names no object.
pub struct Context {
    queue: Vec<Command>,
    next: u32,
}

impl Context {
    /// The commands issued and not yet taken, oldest first.
    pub closed spec fn issued(&self) -> Seq<Op> {
        ops_of(self.queue@)
    }

    /// The counter from which names are drawn.
    pub closed spec fn counter(&self) -> u32 {
        self.next
    }

    /// The name that the next allocation yields: the counter, or 0 once the
    /// counter has reached the largest 32-bit value.
    pub open spec fn fresh(&self) -> u32 {
        self.fresh_after(0)
    }

    /// The name that an allocation yields after `n` others.
    pub open spec fn fresh_after(&self, n: nat) -> u32 {
        if self.counter() + n < u32::MAX {
            (self.counter() + n) as u32
        } else {
            0
        }
    }

    /// The counter after `n` allocations.
    pub open spec fn counter_after(&self, n: nat) -> u32 {
        if self.counter() + n <= u32::MAX {
            (self.counter() + n) as u32
        } else {
            u32::MAX
        }
    }

    /// A context with an empty queue in which no name has been handed out.
    pub fn new() -> (ctx: Context)
        ensures
            ctx.issued() == Seq::<Op>::empty(),
            ctx.counter() == 1,
    {
        let ctx = Context { queue: Vec::new(), next: 1 };
        assert(ctx.issued() =~= Seq::<Op>::empty());
        ctx
    }

    /// The name that the next object will get; 0 when the names are used
    /// up.
    pub fn next_name(&self) -> (name: u32)
        ensures
            name == self.fresh(),
    {
        if self.next < u32::MAX {
            self.next
        } else {
            0
        }
    }

    /// The number of commands waiting to be taken.
    pub fn pending(&self) -> (n: usize)
        ensures
            n == self.issued().len(),
    {
        self.queue.len()
    }

    /// Hands the waiting commands to the host, oldest first, and leaves the
    /// queue empty.
    pub fn take_commands(&mut self) -> (commands: Vec<Command>)
        ensures
            ops_of(commands@) == old(self).issued(),
            final(self).issued() == Seq::<Op>::empty(),
            final(self).counter() == old(self).counter(),
    {
        let mut commands: Vec<Command> = Vec::new();
        core::mem::swap(&mut self.queue, &mut commands);
        assert(self.issued() =~= Seq::<Op>::empty());
        commands
    }

    /// Draws a name that no earlier allocation of this context returned, or
    /// 0 when the names are used up.
    pub(crate) fn allocate(&mut self) -> (name: u32)
        ensures
            name == old(self).fresh(),
            final(self).counter() == old(self).counter_after(1),
            final(self).issued() == old(self).issued(),
    {
        if self.next < u32::MAX {
            let name: u32 = self.next;
            self.next = name + 1;
            name
        } else {
            0
        }
    }

    /// Places one command at the end of the queue.
    pub(crate) fn issue(&mut self, command: Command)
        ensures
            final(self).issued() == old(self).issued().push(command@),
            final(self).counter() == old(self).counter(),
    {
        self.queue.push(command);
        assert(self.issued() =~= old(self).issued().push(command@));
    }
}

} // verus!
