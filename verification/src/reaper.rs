//! The reaper's side of the channel: the probe pipe that tells one process
//! of the other's death, and what the watcher makes of each look at it.

use crate::error::ViaductError;
use vstd::prelude::*;

verus! {

/// Seconds between two looks at the probe pipe, unless the caller chooses
/// otherwise.
pub const REAPER_INTERVAL_SECS: u64 = 5;

/// A pipe that can be closed ahead of its owner's end: once it is taken out,
/// the holder is empty and every use of it reports a broken pipe.
#[derive(Debug)]
pub struct DroppablePipe<Pipe>(Option<Pipe>);

impl<Pipe> View for DroppablePipe<Pipe> {
    type V = Option<Pipe>;

    closed spec fn view(&self) -> Option<Pipe> {
        self.0
    }
}

impl<Pipe> DroppablePipe<Pipe> {
    /// A holder with the given pipe in it.
    pub fn new(pipe: Pipe) -> (holder: Self)
        ensures
            holder@ == Some(pipe),
    {
        DroppablePipe(Some(pipe))
    }

    /// Whether the pipe is still in the holder.
    pub fn is_open(&self) -> (open: bool)
        ensures
            open == self@ is Some,
    {
        self.0.is_some()
    }

    /// Takes the pipe out, to close it or to hand its raw handle on. The
    /// holder is empty afterwards.
    pub fn take(&mut self) -> (pipe: Option<Pipe>)
        ensures
            pipe == old(self)@,
            final(self)@ is None,
    {
        self.0.take()
    }

    /// The pipe for reading or writing, or `BrokenPipe` where it was taken
    /// out.
    pub fn pipe(&self) -> (pipe: Result<&Pipe, ViaductError>)
        ensures
            match self@ {
                Some(held) => pipe == Ok::<&Pipe, ViaductError>(&held),
                None => pipe == Err::<&Pipe, ViaductError>(ViaductError::BrokenPipe),
            },
    {
        match &self.0 {
            Some(pipe) => Ok(pipe),
            None => Err(ViaductError::BrokenPipe),
        }
    }

    /// The pipe for reading or writing through it, or `BrokenPipe` where it
    /// was taken out. The holder keeps whatever the caller leaves behind the
    /// reference.
    pub fn pipe_mut(&mut self) -> (pipe: Result<&mut Pipe, ViaductError>)
        ensures
            match old(self)@ {
                Some(held) => {
                    &&& pipe matches Ok(inside)
                    &&& *inside == held
                    &&& final(self)@ == Some(*final(inside))
                },
                None => {
                    &&& pipe matches Err(ViaductError::BrokenPipe)
                    &&& final(self)@ is None
                },
            },
    {
        match &mut self.0 {
            Some(pipe) => Ok(pipe),
            None => Err(ViaductError::BrokenPipe),
        }
    }
}

/// What the watcher does after a look at the probe pipe.
#[derive(Clone, Copy, Debug, PartialEq, Eq, Structural)]
pub enum ReaperStep {
    /// The peer is gone: call the callback.
    Fire,
    /// The peer lives: look again after this many seconds.
    Sleep(u64),
    /// The callback was called before: stop.
    Done,
}

/// What the watcher of a probe pipe holds.
pub struct ReaperView {
    /// Seconds between two looks.
    pub interval_secs: u64,
    /// Whether the callback was called.
    pub fired: bool,
}

impl ReaperView {
    /// Whether a look at the probe pipe found the peer gone: the read or
    /// write failed (`None`) or moved no byte.
    pub open spec fn gone(transferred: Option<usize>) -> bool {
        transferred is None || transferred == Some(0usize)
    }

    /// What the watcher does after a look that moved `transferred` bytes.
    pub open spec fn observe(self, transferred: Option<usize>) -> (ReaperView, ReaperStep) {
        if self.fired {
            (self, ReaperStep::Done)
        } else if Self::gone(transferred) {
            (ReaperView { fired: true, ..self }, ReaperStep::Fire)
        } else {
            (self, ReaperStep::Sleep(self.interval_secs))
        }
    }
}

/// The watcher of a probe pipe: it fires once, after the peer has dropped
/// its end.
#[derive(Debug)]
pub struct Reaper {
    interval_secs: u64,
    fired: bool,
}

impl View for Reaper {
    type V = ReaperView;

    closed spec fn view(&self) -> ReaperView {
        ReaperView { interval_secs: self.interval_secs, fired: self.fired }
    }
}

impl Reaper {
    /// A watcher that looks at the probe pipe every `interval_secs` seconds.
    pub fn new(interval_secs: u64) -> (reaper: Self)
        ensures
            reaper@ == (ReaperView { interval_secs, fired: false }),
    {
        Reaper { interval_secs, fired: false }
    }

    /// Takes the outcome of a look at the probe pipe: the number of bytes
    /// that the read or write moved, or `None` where it failed.
    pub fn observe(&mut self, transferred: Option<usize>) -> (step: ReaperStep)
        ensures
            (final(self)@, step) == old(self)@.observe(transferred),
    {
        if self.fired {
            return ReaperStep::Done;
        }
        let gone = match transferred {
            None => true,
            Some(count) => count == 0,
        };
        if gone {
            self.fired = true;
            ReaperStep::Fire
        } else {
            ReaperStep::Sleep(self.interval_secs)
        }
    }
}

/// The reaper fires once: after it has fired, whatever it is shown, it is
/// done and stays as it is; and it fires only on a look that found the peer
/// gone.
pub proof fn lemma_reaper_fires_once(reaper: ReaperView, first: Option<usize>, next: Option<usize>)
    ensures
        reaper.observe(first).1 == ReaperStep::Fire ==> {
            &&& !reaper.fired
            &&& ReaperView::gone(first)
            &&& reaper.observe(first).0.observe(next) == (
                reaper.observe(first).0,
                ReaperStep::Done,
            )
        },
{
}

} // verus!
