//! The child-side emit: a two-state machine — awaiting completion, done —
//! that tracks how much of the wire payload has been written into the
//! channel, so that "write all bytes" is a decided protocol rather than an
//! ad-hoc loop.
//!
//! The loop that performs the writes lives with the operating-system calls,
//! outside this crate; it asks this machine where the next write starts and
//! how much is left, feeds back the count each write reported, and stops when
//! the machine says the whole payload is out.

use vstd::prelude::*;

verus! {

/// Mathematical model of the emit: how many bytes the payload has, and how
/// many of them have been written so far.
pub ghost struct EmitModel {
    /// The length of the whole wire payload.
    pub total: nat,
    /// How many of its bytes have been written, from the front.
    pub written: nat,
}

/// The child's write progress over a payload of a fixed length.
pub struct Emit {
    total: usize,
    written: usize,
}

impl View for Emit {
    type V = EmitModel;

    closed spec fn view(&self) -> EmitModel {
        EmitModel { total: self.total as nat, written: self.written as nat }
    }
}

impl Emit {
    /// The machine never claims more written than there is to write.
    pub closed spec fn wf(&self) -> bool {
        self.written <= self.total
    }

    /// A fresh emit for a payload of `total` bytes: nothing written yet.
    pub fn new(total: usize) -> (r: Self)
        ensures
            r.wf(),
            r@ == (EmitModel { total: total as nat, written: 0 }),
    {
        Emit { total, written: 0 }
    }

    /// Where the next write starts: everything before it is already out.
    pub fn offset(&self) -> (r: usize)
        ensures
            r == self@.written,
    {
        self.written
    }

    /// How many bytes are still to be written.
    pub fn remaining(&self) -> (r: usize)
        requires
            self.wf(),
        ensures
            r == self@.total - self@.written,
    {
        self.total - self.written
    }

    /// Record that one write put the next `count` bytes of the payload out.
    pub fn advance(&mut self, count: usize)
        requires
            old(self).wf(),
            count <= old(self)@.total - old(self)@.written,
        ensures
            final(self).wf(),
            final(self)@.total == old(self)@.total,
            final(self)@.written == old(self)@.written + count,
    {
        self.written = self.written + count;
    }

    /// Whether the whole payload is out.
    pub fn is_complete(&self) -> (r: bool)
        requires
            self.wf(),
        ensures
            r == (self@.written == self@.total),
    {
        self.written == self.total
    }
}

} // verus!
