use vstd::prelude::*;

use crate::event::IoFailure;

verus! {

/// Pause between two looks at the receive buffer during a blocking read.
pub const READ_POLL_MS: u64 = 30;

/// The bookkeeping of one blocking read into a caller's buffer of `wanted` bytes.
pub struct ReadProgress {
    wanted: usize,
    got: usize,
}

impl ReadProgress {
    pub closed spec fn spec_wanted(&self) -> nat {
        self.wanted as nat
    }

    pub closed spec fn spec_got(&self) -> nat {
        self.got as nat
    }

    pub open spec fn wf(&self) -> bool {
        self.spec_got() <= self.spec_wanted()
    }

    pub fn new(wanted: usize) -> (r: Self)
        ensures
            r.spec_wanted() == wanted,
            r.spec_got() == 0,
            r.wf(),
    {
        ReadProgress { wanted, got: 0 }
    }

    /// Bytes placed in the caller's buffer so far; the next ones go there.
    pub fn got(&self) -> (r: usize)
        ensures
            r == self.spec_got(),
    {
        self.got
    }

    /// Room left in the caller's buffer.
    pub fn remaining(&self) -> (r: usize)
        requires
            self.wf(),
        ensures
            r == self.spec_wanted() - self.spec_got(),
    {
        self.wanted - self.got
    }

    /// Records `n` more bytes placed in the caller's buffer.
    pub fn record(&mut self, n: usize)
        requires
            old(self).wf(),
            n <= old(self).spec_wanted() - old(self).spec_got(),
        ensures
            final(self).wf(),
            final(self).spec_wanted() == old(self).spec_wanted(),
            final(self).spec_got() == old(self).spec_got() + n,
    {
        self.got = self.got + n;
    }

    /// Whether to keep polling: the buffer is not full and time is left.
    pub fn keep_polling(&self, time_left: bool) -> (r: bool)
        ensures
            r == (self.spec_got() < self.spec_wanted() && time_left),
    {
        self.got < self.wanted && time_left
    }

    /// The outcome of the read: the count when any byte arrived, nothing to
    /// do for an empty buffer, a timeout otherwise.
    pub fn finish(&self) -> (r: Result<usize, IoFailure>)
        requires
            self.wf(),
        ensures
            self.spec_wanted() == 0 ==> r == Ok::<usize, IoFailure>(0),
            self.spec_wanted() > 0 && self.spec_got() == 0 ==> r == Err::<usize, IoFailure>(
                IoFailure::TimedOut,
            ),
            self.spec_got() > 0 ==> r == Ok::<usize, IoFailure>(self.spec_got() as usize),
    {
        if self.wanted == 0 {
            Ok(0)
        } else if self.got == 0 {
            Err(IoFailure::TimedOut)
        } else {
            Ok(self.got)
        }
    }
}

} // verus!
