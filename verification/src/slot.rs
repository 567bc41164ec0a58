//! The recorder slot: installation, guarded access and teardown.
//!
//! A [`RecorderSlot`] is the one value of a process that says whether a
//! recorder is installed, holds it, counts the accesses under way and keeps the
//! ceiling on the level of events. Each method is one operation on the slot,
//! stated over the steps of [`SlotModel`]. None of them blocks or fails on a
//! slot in any state: an operation that does not apply leaves the slot as it
//! was and says so in its result.
//!
//! A slot is made in one of two ways. Made with [`Teardown::Drained`], it counts
//! its guards and gives the recorder up at shutdown once they are all back.
//! Made with [`Teardown::External`], it leaves the life of the recorder to the
//! embedder: it counts nothing and is never shut down.

use crate::level::LogLevelFilter;
use crate::model::{SlotModel, SlotState, Teardown};
use vstd::prelude::*;

verus! {

/// The error of an installation on a slot that had been claimed before.
#[derive(Debug)]
pub struct SetLoggerError(());

impl SetLoggerError {
    /// A short description of the error.
    pub fn description(&self) -> (r: &'static str)
        ensures
            r@ == "set_logger() called multiple times"@,
    {
        "set_logger() called multiple times"
    }

    /// The message of the error.
    pub fn to_string(&self) -> (r: String)
        ensures
            r@ == "attempted to set a logger after the logging system was already initialized"@,
    {
        "attempted to set a logger after the logging system was already initialized".to_owned()
    }
}

/// The capability to read and to set the ceiling of a slot. A slot hands out
/// one, to the installer that claims it.
#[derive(Debug)]
pub struct MaxLogLevelFilter(());

/// A permit to use the recorder of a slot. While a guard is out, the slot
/// counts it, and the shutdown does not release the recorder.
#[derive(Debug)]
pub struct LoggerGuard(());

/// What the shutdown finds when it asks whether the recorder can be released.
#[derive(Debug)]
pub enum Drain<L> {
    /// The slot is not draining, or its recorder has been released before.
    Idle,
    /// Guards are still out: ask again.
    Busy,
    /// No guard is out. The recorder has left the slot and is the caller's to
    /// release.
    Released(L),
}

/// The state of the one recorder of a process.
pub struct RecorderSlot<L> {
    teardown: Teardown,
    state: SlotState,
    recorder: Option<L>,
    guards: usize,
    max_level: LogLevelFilter,
}

impl<L> View for RecorderSlot<L> {
    type V = SlotModel;

    closed spec fn view(&self) -> SlotModel {
        SlotModel {
            teardown: self.teardown,
            state: self.state,
            live: self.recorder is Some,
            guards: self.guards as nat,
            max_level: self.max_level,
        }
    }
}

impl<L> RecorderSlot<L> {
    #[verifier::type_invariant]
    spec fn well_formed(self) -> bool {
        self@.consistent()
    }

    /// The recorder that the slot holds, if it holds one.
    pub closed spec fn installed(self) -> Option<L> {
        self.recorder
    }

    /// The slot counts as holding a live recorder exactly when it holds one.
    pub proof fn law_live_is_installed(self)
        ensures
            self@.live <==> self.installed() is Some,
    {
    }

    /// A slot that has never been claimed and that looks after its recorder
    /// itself: it counts its guards and releases the recorder at shutdown. Its
    /// ceiling is `Off`.
    pub fn new() -> (slot: RecorderSlot<L>)
        ensures
            slot@ == SlotModel::initial(Teardown::Drained),
            slot@.wf(),
            slot.installed() is None,
    {
        RecorderSlot::with_teardown(Teardown::Drained)
    }

    /// A slot that has never been claimed, with the given way of looking after
    /// its recorder. Its ceiling is `Off`.
    pub fn with_teardown(teardown: Teardown) -> (slot: RecorderSlot<L>)
        ensures
            slot@ == SlotModel::initial(teardown),
            slot@.wf(),
            slot.installed() is None,
    {
        RecorderSlot {
            teardown,
            state: SlotState::Uninitialized,
            recorder: None,
            guards: 0,
            max_level: LogLevelFilter::Off,
        }
    }

    /// Who looks after the life of the recorder.
    pub fn teardown(&self) -> (r: Teardown)
        ensures
            r == self@.teardown,
    {
        self.teardown
    }

    /// The stage of the slot's life.
    pub fn state(&self) -> (r: SlotState)
        ensures
            r == self@.state,
            self@.consistent(),
            self@.live <==> self.installed() is Some,
    {
        proof {
            use_type_invariant(self);
        }
        self.state
    }

    /// The count of guards that are out.
    pub fn guard_count(&self) -> (r: usize)
        ensures
            r == self@.guards,
    {
        self.guards
    }

    /// The first step of an installation: claims the slot if nobody has. The
    /// one caller that finds the slot uninitialized gets the capability for the
    /// ceiling and has to complete the installation; every other caller gets
    /// the error, and the slot stays as it was.
    pub fn begin_install(&mut self) -> (r: Result<MaxLogLevelFilter, SetLoggerError>)
        ensures
            r is Ok <==> old(self)@.claimable(),
            final(self)@ == old(self)@.claim(),
            final(self).installed() == old(self).installed(),
            old(self)@.wf() ==> final(self)@.wf(),
    {
        proof {
            use_type_invariant(&*self);
        }
        match self.state {
            SlotState::Uninitialized => {
                self.state = SlotState::Initializing;
                Ok(MaxLogLevelFilter(()))
            },
            _ => Err(SetLoggerError(())),
        }
    }

    /// The last step of an installation: stores the recorder in a slot that is
    /// `Initializing` and makes it `Active`. On a slot in any other state nothing
    /// changes and the recorder comes back.
    pub fn complete_install(&mut self, recorder: L) -> (r: Result<(), L>)
        ensures
            final(self)@ == old(self)@.publish(),
            old(self)@.wf() ==> final(self)@.wf(),
            match r {
                Ok(_) => old(self)@.state == SlotState::Initializing && final(self).installed()
                    == Some(recorder),
                Err(back) => old(self)@.state != SlotState::Initializing && back == recorder
                    && final(self).installed() == old(self).installed(),
            },
    {
        proof {
            use_type_invariant(&*self);
        }
        match self.state {
            SlotState::Initializing => {
                *self = RecorderSlot {
                    teardown: self.teardown,
                    state: SlotState::Active,
                    recorder: Some(recorder),
                    guards: self.guards,
                    max_level: self.max_level,
                };
                Ok(())
            },
            _ => Err(recorder),
        }
    }

    /// Acquires a guard: counts the access in, reads the slot, and counts the
    /// access out again unless the slot is `Active`. A guard comes back if and only
    /// if the slot is `Active`; otherwise the slot is left as it was. It never
    /// blocks. (With as many guards out as the machine can count, none is given.)
    pub fn logger(&mut self) -> (guard: Option<LoggerGuard>)
        ensures
            guard is Some <==> old(self)@.available() && !old(self)@.full(),
            !old(self)@.full() ==> final(self)@ == old(self)@.acquire(),
            guard is Some ==> final(self)@ == old(self)@.enter(),
            guard is None ==> final(self)@ == old(self)@,
            final(self).installed() == old(self).installed(),
            old(self)@.wf() ==> final(self)@.wf(),
            guard is Some ==> final(self).installed() is Some,
    {
        proof {
            use_type_invariant(&*self);
        }
        if self.is_full() {
            return None;
        }
        self.count_in();
        match self.state {
            SlotState::Active => Some(LoggerGuard(())),
            _ => {
                self.count_out();
                None
            },
        }
    }

    /// Whether the count of guards stands at the limit of the machine.
    fn is_full(&self) -> (r: bool)
        ensures
            r == self@.full(),
    {
        match self.teardown {
            Teardown::Drained => self.guards == usize::MAX,
            Teardown::External => false,
        }
    }

    /// Counts an access in.
    fn count_in(&mut self)
        requires
            !old(self)@.full(),
        ensures
            final(self)@ == old(self)@.enter(),
            final(self).installed() == old(self).installed(),
    {
        proof {
            use_type_invariant(&*self);
        }
        match self.teardown {
            Teardown::Drained => {
                self.guards = self.guards + 1;
            },
            Teardown::External => {},
        }
    }

    /// Counts an access out.
    fn count_out(&mut self)
        ensures
            final(self)@ == old(self)@.leave(),
            final(self).installed() == old(self).installed(),
    {
        proof {
            use_type_invariant(&*self);
        }
        match self.teardown {
            Teardown::Drained => {
                if self.guards > 0 {
                    self.guards = self.guards - 1;
                }
            },
            Teardown::External => {},
        }
    }

    /// The recorder that a guard gives access to. A guard from this slot that
    /// has not been released finds it: while a guard is out the recorder stays.
    pub fn recorder(&self, guard: &LoggerGuard) -> (r: Option<&L>)
        ensures
            match r {
                Some(found) => self.installed() == Some(*found),
                None => self.installed() is None && self@.state != SlotState::Active,
            },
            self@.wf() && self@.guards > 0 ==> r is Some,
    {
        proof {
            use_type_invariant(self);
        }
        self.recorder.as_ref()
    }

    /// The first step of the shutdown: takes an `Active` slot to `Draining`, after
    /// which no guard is given out any more. Guards that are out stay valid. The
    /// result says whether the slot was `Active`.
    pub fn begin_shutdown(&mut self) -> (r: bool)
        ensures
            r == (old(self)@.counted() && old(self)@.state == SlotState::Active),
            final(self)@ == old(self)@.swap_out(),
            final(self).installed() == old(self).installed(),
            old(self)@.wf() ==> final(self)@.wf(),
    {
        proof {
            use_type_invariant(&*self);
        }
        match (self.teardown, self.state) {
            (Teardown::Drained, SlotState::Active) => {
                self.state = SlotState::Draining;
                true
            },
            _ => false,
        }
    }

    /// One poll of the shutdown: hands the recorder out for release once the
    /// slot is `Draining` and no guard is out. While guards are out the answer is
    /// `Busy` and nothing changes; the caller polls again.
    pub fn try_release(&mut self) -> (r: Drain<L>)
        ensures
            final(self)@ == old(self)@.release(),
            old(self)@.wf() ==> final(self)@.wf(),
            match r {
                Drain::Released(recorder) => old(self)@.releasable() && old(self).installed()
                    == Some(recorder) && final(self).installed() is None,
                Drain::Busy => old(self)@.state == SlotState::Draining && old(self)@.live
                    && old(self)@.guards > 0 && final(self).installed() == old(self).installed(),
                Drain::Idle => (old(self)@.state != SlotState::Draining || !old(self)@.live)
                    && final(self).installed() == old(self).installed(),
            },
    {
        proof {
            use_type_invariant(&*self);
        }
        match self.state {
            SlotState::Draining => {
                if self.recorder.is_none() {
                    Drain::Idle
                } else if self.guards > 0 {
                    Drain::Busy
                } else {
                    let mut taken: Option<L> = None;
                    core::mem::swap(&mut self.recorder, &mut taken);
                    match taken {
                        Some(recorder) => Drain::Released(recorder),
                        None => Drain::Idle,
                    }
                }
            },
            _ => Drain::Idle,
        }
    }

    /// The ceiling on the level of events.
    pub fn max_level(&self) -> (r: LogLevelFilter)
        ensures
            r == self@.max_level,
    {
        self.max_level
    }
}

impl LoggerGuard {
    /// Gives the guard back: the slot counts one guard less.
    pub fn release<L>(self, slot: &mut RecorderSlot<L>)
        ensures
            final(slot)@ == old(slot)@.leave(),
            final(slot).installed() == old(slot).installed(),
            old(slot)@.wf() ==> final(slot)@.wf(),
    {
        slot.count_out();
    }
}

impl MaxLogLevelFilter {
    /// Gets the current ceiling of the slot.
    pub fn get<L>(&self, slot: &RecorderSlot<L>) -> (r: LogLevelFilter)
        ensures
            r == slot@.max_level,
    {
        slot.max_level
    }

    /// Sets the ceiling of the slot.
    pub fn set<L>(&self, slot: &mut RecorderSlot<L>, level: LogLevelFilter)
        ensures
            final(slot)@ == old(slot)@.with_max_level(level),
            final(slot).installed() == old(slot).installed(),
            old(slot)@.wf() ==> final(slot)@.wf(),
    {
        proof {
            use_type_invariant(&*slot);
        }
        slot.max_level = level;
    }
}

} // verus!
