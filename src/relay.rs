//! The decisions of a bidirectional relay between the upstream leg and its
//! counterpart. The caller performs each read and write and reports what
//! happened; the session says what to do next and when it is over.

use vstd::prelude::*;

verus! {

/// The size of the buffer that each direction copies through.
pub const RELAY_BUFFER_LEN: usize = 1500;

#[derive(Debug, Clone, Copy, PartialEq, Eq, Structural)]
pub enum Direction {
    /// From the counterpart to the proxy.
    ToUpstream,
    /// From the proxy to the counterpart.
    FromUpstream,
}

#[derive(Debug, Clone, Copy, PartialEq, Eq, Structural)]
pub enum RelayAction {
    /// Write the first `n` bytes that were read to the other side.
    Forward(usize),
    /// The write went through: read again on this direction.
    Continue,
    /// This direction is over; the other one goes on.
    EndDirection,
}

/// Which of the two directions are still copying.
#[derive(Debug, Clone, Copy, PartialEq, Eq, Structural)]
pub struct RelaySession {
    to_upstream_open: bool,
    from_upstream_open: bool,
}

impl RelaySession {
    pub closed spec fn is_open(&self, d: Direction) -> bool {
        match d {
            Direction::ToUpstream => self.to_upstream_open,
            Direction::FromUpstream => self.from_upstream_open,
        }
    }

    pub fn new() -> (r: RelaySession)
        ensures
            r.is_open(Direction::ToUpstream),
            r.is_open(Direction::FromUpstream),
    {
        RelaySession { to_upstream_open: true, from_upstream_open: true }
    }

    fn close(&mut self, d: Direction)
        ensures
            !final(self).is_open(d),
            forall|e: Direction| e != d ==> final(self).is_open(e) == old(self).is_open(e),
    {
        match d {
            Direction::ToUpstream => self.to_upstream_open = false,
            Direction::FromUpstream => self.from_upstream_open = false,
        }
    }

    /// What a read on direction `d` calls for: `Some(0)` is an orderly close,
    /// `Some(n)` is `n` bytes to forward, `None` is a read error. A close or an
    /// error ends `d` alone.
    pub fn on_read(&mut self, d: Direction, read: Option<usize>) -> (r: RelayAction)
        requires
            old(self).is_open(d),
            (read matches Some(n) ==> n <= RELAY_BUFFER_LEN),
        ensures
            (read matches Some(n) && n > 0) ==> r == RelayAction::Forward(read.unwrap())
                && *final(self) == *old(self),
            !(read matches Some(n) && n > 0) ==> r == RelayAction::EndDirection
                && !final(self).is_open(d),
            forall|e: Direction| e != d ==> final(self).is_open(e) == old(self).is_open(e),
    {
        match read {
            Some(n) => {
                if n > 0 {
                    RelayAction::Forward(n)
                } else {
                    self.close(d);
                    RelayAction::EndDirection
                }
            },
            None => {
                self.close(d);
                RelayAction::EndDirection
            },
        }
    }

    /// What a write on direction `d` calls for: after a success `d` goes on
    /// reading, after a failure `d` ends.
    pub fn on_write(&mut self, d: Direction, ok: bool) -> (r: RelayAction)
        requires
            old(self).is_open(d),
        ensures
            ok ==> r == RelayAction::Continue && *final(self) == *old(self),
            !ok ==> r == RelayAction::EndDirection && !final(self).is_open(d),
            forall|e: Direction| e != d ==> final(self).is_open(e) == old(self).is_open(e),
    {
        if ok {
            RelayAction::Continue
        } else {
            self.close(d);
            RelayAction::EndDirection
        }
    }

    pub fn is_open_exec(&self, d: Direction) -> (r: bool)
        ensures
            r == self.is_open(d),
    {
        match d {
            Direction::ToUpstream => self.to_upstream_open,
            Direction::FromUpstream => self.from_upstream_open,
        }
    }

    /// The relay is over only once both directions have ended.
    pub fn is_finished(&self) -> (r: bool)
        ensures
            r == (!self.is_open(Direction::ToUpstream) && !self.is_open(Direction::FromUpstream)),
    {
        !self.to_upstream_open && !self.from_upstream_open
    }
}

} // verus!
