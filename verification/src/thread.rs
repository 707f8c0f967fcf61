//! Thread configuration and join handles.
//!
//! Spawning and joining run through the platform kernel outside this
//! library; the builder assembles name, priority, stack size and
//! attribute bits, and the join handle records the granted thread id.

use crate::io::SceUid;
use vstd::prelude::*;

verus! {

/// Error from a thread operation, wrapping the raw device code.
#[derive(Debug, Clone, Copy, PartialEq, Eq, Structural)]
pub struct ThreadError(pub i32);

impl ThreadError {
    /// The raw error code.
    pub fn code(self) -> (r: i32)
        ensures
            r == self.0,
    {
        self.0
    }
}

/// Thread attribute bits.
#[derive(Debug, Clone, Copy, PartialEq, Eq, Structural)]
pub struct ThreadAttributes(pub u32);

/// Attribute bit: user-mode thread.
pub const THREAD_ATTR_USER: u32 = 0x8000_0000;

/// Attribute bit: the thread may use the vector unit.
pub const THREAD_ATTR_VFPU: u32 = 0x0000_4000;

/// Builder for a kernel thread: its NUL-terminated name, priority, stack
/// size and attribute bits.
pub struct ThreadBuilder {
    /// NUL-terminated thread name.
    pub name: Vec<u8>,
    /// Scheduling priority (lower runs first).
    pub priority: i32,
    /// Stack size in bytes.
    pub stack_size: i32,
    /// Attribute bits.
    pub attributes: ThreadAttributes,
}

impl ThreadBuilder {
    /// A builder with priority 32, a 64 KiB stack and the user and
    /// vector-unit attribute bits.
    pub fn new(name: &[u8]) -> (r: Self)
        ensures
            r.name@ == name@,
            r.priority == 32,
            r.stack_size == 65536,
            r.attributes.0 == THREAD_ATTR_USER | THREAD_ATTR_VFPU,
    {
        let mut buf: Vec<u8> = Vec::new();
        let mut i: usize = 0;
        while i < name.len()
            invariant
                i <= name@.len(),
                buf@ == name@.subrange(0, i as int),
            decreases name@.len() - i,
        {
            buf.push(name[i]);
            i = i + 1;
        }
        proof {
            assert(buf@ == name@);
        }
        ThreadBuilder {
            name: buf,
            priority: 32,
            stack_size: 65536,
            attributes: ThreadAttributes(THREAD_ATTR_USER | THREAD_ATTR_VFPU),
        }
    }

    /// Set the priority.
    pub fn priority(self, prio: i32) -> (r: Self)
        ensures
            r.priority == prio,
            r.name@ == self.name@,
            r.stack_size == self.stack_size,
            r.attributes == self.attributes,
    {
        ThreadBuilder { priority: prio, ..self }
    }

    /// Set the stack size in bytes.
    pub fn stack_size(self, size: i32) -> (r: Self)
        ensures
            r.stack_size == size,
            r.name@ == self.name@,
            r.priority == self.priority,
            r.attributes == self.attributes,
    {
        ThreadBuilder { stack_size: size, ..self }
    }

    /// Set the attribute bits.
    pub fn attributes(self, attr: ThreadAttributes) -> (r: Self)
        ensures
            r.attributes == attr,
            r.name@ == self.name@,
            r.priority == self.priority,
            r.stack_size == self.stack_size,
    {
        ThreadBuilder { attributes: attr, ..self }
    }

    /// Whether the name is ready for the platform's create call, which
    /// demands a NUL terminator.
    pub fn name_terminated(&self) -> (r: bool)
        ensures
            r == (self.name@.len() > 0 && self.name@.last() == 0u8),
    {
        self.name.len() > 0 && self.name[self.name.len() - 1] == 0
    }
}

/// A handle to a spawned thread: the id the platform granted and whether
/// it was joined.
pub struct JoinHandle {
    /// The granted thread id.
    pub thid: SceUid,
    /// Whether the thread was joined.
    pub joined: bool,
}

impl JoinHandle {
    /// The thread's kernel id.
    pub fn id(&self) -> (r: SceUid)
        ensures
            r == self.thid,
    {
        self.thid
    }
}

} // verus!
