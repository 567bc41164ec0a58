//! The recorder slot as a mathematical value, and the atomic steps that change it.
//!
//! The slot is one value for the whole process. Whatever the threads of the
//! process do to it, they do by these steps, one at a time: an installer's
//! compare-and-swap and its later store, a caller's increment, read and
//! decrement, the shutdown's swap and its release. Each step is a total
//! function: where it does not apply, it leaves the slot as it was.

use crate::level::LogLevelFilter;
use vstd::prelude::*;

verus! {

/// The stage of the slot's life.
#[derive(Clone, Copy, Debug, PartialEq, Eq, Structural)]
pub enum SlotState {
    /// No installation has begun.
    Uninitialized,
    /// An installer has claimed the slot and not yet stored its recorder.
    Initializing,
    /// A recorder is installed and may be borrowed.
    Active,
    /// Shutdown has begun: no recorder is handed out any more.
    Draining,
}

/// Who looks after the life of the recorder once it is installed.
#[derive(Clone, Copy, Debug, PartialEq, Eq, Structural)]
pub enum Teardown {
    /// The slot does: it counts the guards that are out, and at shutdown it
    /// releases the recorder once they are all back.
    Drained,
    /// The embedder does: the slot counts nothing, is never shut down and never
    /// releases the recorder.
    External,
}

/// The slot as plain values.
pub struct SlotModel {
    /// Who looks after the life of the recorder. It is fixed when the slot is made.
    pub teardown: Teardown,
    /// The stage of the slot's life.
    pub state: SlotState,
    /// Whether the slot holds a recorder that has not been released.
    pub live: bool,
    /// The count of accesses that have been counted in and not yet counted out.
    pub guards: nat,
    /// The process-wide ceiling on the level of events.
    pub max_level: LogLevelFilter,
}

impl SlotModel {
    /// The slot at the start of the process.
    pub open spec fn initial(teardown: Teardown) -> SlotModel {
        SlotModel {
            teardown,
            state: SlotState::Uninitialized,
            live: false,
            guards: 0,
            max_level: LogLevelFilter::Off,
        }
    }

    /// The stage and the recorder agree: there is none before the installation
    /// is complete, and there is one while the slot is active. A slot that the
    /// embedder tears down counts no access and is never draining.
    pub open spec fn consistent(self) -> bool {
        &&& self.state == SlotState::Uninitialized || self.state == SlotState::Initializing
            ==> !self.live
        &&& self.state == SlotState::Active ==> self.live
        &&& self.teardown == Teardown::External ==> self.guards == 0 && self.state
            != SlotState::Draining
    }

    /// The slot between two operations: consistent, and every access that is
    /// counted in holds a guard on a live recorder.
    pub open spec fn wf(self) -> bool {
        &&& self.consistent()
        &&& self.guards > 0 ==> self.live && self.state != SlotState::Uninitialized && self.state
            != SlotState::Initializing
    }

    /// Whether the slot counts the accesses under way.
    pub open spec fn counted(self) -> bool {
        self.teardown == Teardown::Drained
    }

    /// Whether the count of accesses stands at the limit of the machine, so
    /// that no further access can be counted in.
    pub open spec fn full(self) -> bool {
        self.counted() && self.guards >= usize::MAX
    }

    /// Whether an installer's compare-and-swap succeeds on this slot.
    pub open spec fn claimable(self) -> bool {
        self.state == SlotState::Uninitialized
    }

    /// An installer's compare-and-swap: it takes an uninitialized slot to
    /// `Initializing` and changes nothing else.
    pub open spec fn claim(self) -> SlotModel {
        if self.claimable() {
            SlotModel { state: SlotState::Initializing, ..self }
        } else {
            self
        }
    }

    /// The store of the recorder by the installer that claimed the slot.
    pub open spec fn publish(self) -> SlotModel {
        if self.state == SlotState::Initializing {
            SlotModel { state: SlotState::Active, live: true, ..self }
        } else {
            self
        }
    }

    /// A caller counts itself in, where the slot counts.
    pub open spec fn enter(self) -> SlotModel {
        if self.counted() {
            SlotModel { guards: self.guards + 1, ..self }
        } else {
            self
        }
    }

    /// What a caller that reads the slot finds: whether a recorder can be borrowed.
    pub open spec fn available(self) -> bool {
        self.state == SlotState::Active
    }

    /// A caller counts itself out, where the slot counts.
    pub open spec fn leave(self) -> SlotModel {
        if self.counted() && self.guards > 0 {
            SlotModel { guards: (self.guards - 1) as nat, ..self }
        } else {
            self
        }
    }

    /// The whole of an acquisition: count in, read, and count out again where
    /// no recorder can be borrowed.
    pub open spec fn acquire(self) -> SlotModel {
        if self.enter().available() {
            self.enter()
        } else {
            self.enter().leave()
        }
    }

    /// The shutdown's swap: it takes an active slot to `Draining`. A slot that
    /// the embedder tears down is not shut down.
    pub open spec fn swap_out(self) -> SlotModel {
        if self.counted() && self.state == SlotState::Active {
            SlotModel { state: SlotState::Draining, ..self }
        } else {
            self
        }
    }

    /// Whether the shutdown may release the recorder now: the slot is
    /// draining, the recorder is still there, and no access is counted in.
    pub open spec fn releasable(self) -> bool {
        self.counted() && self.state == SlotState::Draining && self.live && self.guards == 0
    }

    /// The shutdown's release of the recorder.
    pub open spec fn release(self) -> SlotModel {
        if self.releasable() {
            SlotModel { live: false, ..self }
        } else {
            self
        }
    }

    /// The recorder sets the ceiling.
    pub open spec fn with_max_level(self, level: LogLevelFilter) -> SlotModel {
        SlotModel { max_level: level, ..self }
    }
}

/// An access that counts itself in and out again leaves the slot as it was. So
/// does a whole acquisition on a slot that is not active; on an active slot it
/// comes to counting in.
pub proof fn lemma_count_in_and_out(slot: SlotModel)
    ensures
        slot.enter().leave() == slot,
        slot.available() ==> slot.acquire() == slot.enter(),
        !slot.available() ==> slot.acquire() == slot,
{
}

/// Every operation on the slot keeps it well formed.
pub proof fn law_steps_keep_wf(slot: SlotModel, level: LogLevelFilter)
    requires
        slot.wf(),
    ensures
        SlotModel::initial(slot.teardown).wf(),
        slot.claim().wf(),
        slot.publish().wf(),
        slot.acquire().wf(),
        slot.leave().wf(),
        slot.swap_out().wf(),
        slot.release().wf(),
        slot.with_max_level(level).wf(),
{
}

} // verus!
