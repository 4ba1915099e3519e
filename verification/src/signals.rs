//! The slot for the foreground child, and what an interrupt does to it.
//!
//! The process launcher notes the outside program that it waits for in
//! the slot; the thread that listens for signals reads the slot. Whoever
//! shares the slot between the two guards it, so that no two of these
//! steps overlap.

use vstd::prelude::*;

verus! {

/// The number of the interrupt signal.
pub const SIGINT: i32 = 2;

/// The slot: the process that the shell waits for, if there is one.
#[derive(Debug)]
pub struct ForegroundSlot {
    child: Option<u32>,
}

/// What is to be done about a signal.
#[derive(Clone, Copy, Debug, PartialEq, Eq, Structural)]
pub enum Reaction {
    /// End this process.
    Kill(u32),
    /// Nothing at all.
    Ignore,
}

impl View for ForegroundSlot {
    type V = Option<u32>;

    closed spec fn view(&self) -> Option<u32> {
        self.child
    }
}

/// The reaction to a signal while the slot holds `child`: an interrupt
/// ends the foreground child and nothing else; without a foreground child,
/// and for every other signal, nothing happens.
pub open spec fn reaction_to(signal: i32, child: Option<u32>) -> Reaction {
    match child {
        Some(process) => if signal == SIGINT {
            Reaction::Kill(process)
        } else {
            Reaction::Ignore
        },
        None => Reaction::Ignore,
    }
}

impl ForegroundSlot {
    /// The slot of a shell that has started nothing yet.
    pub fn new() -> (slot: ForegroundSlot)
        ensures
            slot@ is None,
    {
        ForegroundSlot { child: None }
    }

    /// Notes the process that was just started. It takes the place of
    /// whatever the slot held.
    pub fn record(&mut self, process: u32)
        ensures
            final(self)@ == Some(process),
    {
        self.child = Some(process);
    }

    /// Empties the slot, once the process has ended.
    pub fn clear(&mut self)
        ensures
            final(self)@ is None,
    {
        self.child = None;
    }

    /// The process in the slot.
    pub fn current(&self) -> (child: Option<u32>)
        ensures
            child == self@,
    {
        self.child
    }

    /// Decides what a signal leads to. The slot stays as it is: the
    /// launcher empties it when the process has ended.
    pub fn on_signal(&self, signal: i32) -> (reaction: Reaction)
        ensures
            reaction == reaction_to(signal, self@),
    {
        match self.child {
            Some(process) => if signal == SIGINT {
                Reaction::Kill(process)
            } else {
                Reaction::Ignore
            },
            None => Reaction::Ignore,
        }
    }
}

/// An interrupt ends the process that the launcher has noted, and only
/// that one; once the launcher has emptied the slot, and before it has
/// noted anything, an interrupt does nothing.
pub proof fn law_interrupt(process: u32)
    ensures
        reaction_to(SIGINT, Some(process)) == Reaction::Kill(process),
        reaction_to(SIGINT, None) == Reaction::Ignore,
{
}

} // verus!
