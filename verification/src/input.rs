//! The slot through which the dispatcher hands input bytes to a running program.

use vstd::prelude::*;

verus! {

/// Most bytes that one input may hold: the guest is told the length as 32 bits.
pub const MAX_INPUT_LEN: usize = 0xffff_ffff;

/// A slot for one input.  The dispatcher fills it, the execution task empties
/// it; while it is full it is not written again.
#[derive(Clone, Debug, PartialEq, Eq)]
pub struct PendingInput {
    pub bytes: Vec<u8>,
    pub ready: bool,
}

impl View for PendingInput {
    type V = Option<Seq<u8>>;

    /// The input that waits in the slot, if one does.
    open spec fn view(&self) -> Option<Seq<u8>> {
        if self.ready {
            Some(self.bytes@)
        } else {
            None
        }
    }
}

impl PendingInput {
    /// An input that waits is short enough to tell the guest its length.
    pub open spec fn valid(&self) -> bool {
        self.ready ==> self.bytes@.len() <= MAX_INPUT_LEN
    }

    /// Tells whether the slot is valid.
    pub fn is_valid(&self) -> (r: bool)
        ensures
            r == self.valid(),
    {
        !self.ready || self.bytes.len() <= MAX_INPUT_LEN
    }

    /// An empty slot.
    pub fn new() -> (slot: PendingInput)
        ensures
            slot@ is None,
            slot.valid(),
    {
        PendingInput { bytes: Vec::new(), ready: false }
    }

    /// Puts `bytes` into the slot and tells whether they were taken.  They are
    /// refused, and the slot keeps what it holds, while an earlier input still
    /// waits or when `bytes` is longer than the guest can be told.
    pub fn offer(&mut self, bytes: Vec<u8>) -> (taken: bool)
        requires
            old(self).valid(),
        ensures
            final(self).valid(),
            taken == (old(self)@ is None && bytes@.len() <= MAX_INPUT_LEN),
            taken ==> final(self)@ == Some(bytes@),
            !taken ==> final(self)@ == old(self)@,
    {
        if self.ready || bytes.len() > MAX_INPUT_LEN {
            false
        } else {
            self.bytes = bytes;
            self.ready = true;
            true
        }
    }

    /// The length of the input that waits, if one does.
    pub fn waiting(&self) -> (len: Option<u32>)
        requires
            self.valid(),
        ensures
            len == match self@ {
                Some(bytes) => Some(bytes.len() as u32),
                None => None,
            },
            len is Some ==> len->Some_0 as int == self.bytes@.len(),
    {
        if self.ready {
            Some(self.bytes.len() as u32)
        } else {
            None
        }
    }

    /// Empties the slot.
    pub fn clear(&mut self)
        ensures
            final(self)@ is None,
            final(self).valid(),
    {
        self.ready = false;
    }
}

} // verus!
