//! The progress indicator's state: which frame comes next, and whether it
//! has been told to stop.
use vstd::prelude::*;

verus! {

/// The frames, shown in turn.
pub open spec fn frame_at(i: nat) -> char {
    let k = i % 4;
    if k == 0 {
        '|'
    } else if k == 1 {
        '/'
    } else if k == 2 {
        '-'
    } else {
        '\\'
    }
}

/// The state of the "computing" indicator that turns while a run lasts.
#[derive(Debug)]
pub struct Spinner {
    frame: usize,
    stopped: bool,
}

impl Spinner {
    pub closed spec fn shown(&self) -> nat {
        self.frame as nat
    }

    pub closed spec fn is_stopped(&self) -> bool {
        self.stopped
    }

    pub closed spec fn wf(&self) -> bool {
        self.frame < 4
    }

    pub fn new() -> (r: Self)
        ensures
            r.wf(),
            !r.is_stopped(),
            r.shown() == 0,
    {
        Spinner { frame: 0, stopped: false }
    }

    /// Asks the indicator to stop at its next turn.
    pub fn stop(&mut self)
        ensures
            final(self).is_stopped(),
            final(self).shown() == old(self).shown(),
            old(self).wf() ==> final(self).wf(),
    {
        self.stopped = true;
    }

    /// Whether `stop` has been called.
    pub fn stopped(&self) -> (r: bool)
        ensures
            r == self.is_stopped(),
    {
        self.stopped
    }

    /// The frame to show now, and a turn to the next; none once stopped.
    pub fn next_frame(&mut self) -> (r: Option<char>)
        requires
            old(self).wf(),
        ensures
            final(self).wf(),
            final(self).is_stopped() == old(self).is_stopped(),
            old(self).is_stopped() ==> r is None && final(self).shown() == old(self).shown(),
            !old(self).is_stopped() ==> r == Some(frame_at(old(self).shown()))
                && final(self).shown() == (old(self).shown() + 1) % 4,
    {
        if self.stopped {
            return None;
        }
        let c = match self.frame {
            0 => '|',
            1 => '/',
            2 => '-',
            _ => '\\',
        };
        self.frame = (self.frame + 1) % 4;
        Some(c)
    }
}

} // verus!
