//! The slot under any number of threads, and what holds of every schedule.
//!
//! A world is the slot together with the calls that the threads of the process
//! have under way. A thread changes the world by one atomic step of
//! [`SlotModel`] at a time, and a schedule is any sequence of such steps, by
//! whatever threads and in whatever order. What is proved here of every
//! sequence of steps therefore holds however the threads are scheduled.

use crate::level::LogLevelFilter;
use crate::model::{SlotModel, SlotState, Teardown};
use vstd::prelude::*;

verus! {

/// How far one call of `enabled` or `log` has come.
pub enum CallStage {
    /// The call has not begun, or it has returned.
    Idle,
    /// The call has counted itself in and not yet read the slot.
    Entered,
    /// The call read an active slot and holds a guard on the recorder.
    Holding,
    /// The call read a slot without a recorder to borrow; it has yet to count
    /// itself out.
    Refused,
}

/// One atomic step of some thread.
pub enum Step {
    /// An installer's compare-and-swap on the slot.
    Claim,
    /// The store of the recorder by the installer that claimed the slot.
    Publish,
    /// The call with this number counts itself in.
    Enter(int),
    /// The call with this number reads the slot.
    Observe(int),
    /// The call with this number counts itself out: its guard is released, or
    /// it was refused one.
    Leave(int),
    /// The shutdown swaps the slot to `Draining`.
    Swap,
    /// The shutdown polls the count and releases the recorder if it is zero.
    Release,
    /// The recorder sets the ceiling.
    SetMaxLevel(LogLevelFilter),
}

/// The slot and the calls under way, with a record of what has happened.
pub struct World {
    /// The slot.
    pub slot: SlotModel,
    /// The stage of each call.
    pub calls: Seq<CallStage>,
    /// How many installations have been attempted.
    pub attempts: nat,
    /// How many of them succeeded.
    pub wins: nat,
    /// How many times the slot has become active.
    pub activations: nat,
    /// How many times the recorder has been released.
    pub releases: nat,
}

/// The number of calls that have counted themselves in and not yet out.
pub open spec fn in_flight(calls: Seq<CallStage>) -> nat
    decreases calls.len(),
{
    if calls.len() == 0 {
        0
    } else {
        in_flight(calls.drop_last()) + if calls.last() is Idle {
            0nat
        } else {
            1nat
        }
    }
}

impl World {
    /// The world at the start of the process, with room for `calls` calls.
    pub open spec fn start(calls: nat, teardown: Teardown) -> World {
        World {
            slot: SlotModel::initial(teardown),
            calls: Seq::new(calls, |i: int| CallStage::Idle),
            attempts: 0,
            wins: 0,
            activations: 0,
            releases: 0,
        }
    }

    /// Whether `i` numbers a call of this world that is at `stage`.
    pub open spec fn call_is(self, i: int, stage: CallStage) -> bool {
        0 <= i < self.calls.len() && self.calls[i] == stage
    }

    /// The world after one step. A step that does not apply where the world
    /// stands changes nothing.
    pub open spec fn next(self, step: Step) -> World {
        match step {
            Step::Claim => World {
                slot: self.slot.claim(),
                attempts: self.attempts + 1,
                wins: if self.slot.claimable() {
                    self.wins + 1
                } else {
                    self.wins
                },
                ..self
            },
            Step::Publish => World {
                slot: self.slot.publish(),
                activations: if self.slot.state == SlotState::Initializing {
                    self.activations + 1
                } else {
                    self.activations
                },
                ..self
            },
            Step::Enter(i) => if self.call_is(i, CallStage::Idle) {
                World {
                    slot: self.slot.enter(),
                    calls: self.calls.update(i, CallStage::Entered),
                    ..self
                }
            } else {
                self
            },
            Step::Observe(i) => if self.call_is(i, CallStage::Entered) {
                World {
                    calls: self.calls.update(
                        i,
                        if self.slot.available() {
                            CallStage::Holding
                        } else {
                            CallStage::Refused
                        },
                    ),
                    ..self
                }
            } else {
                self
            },
            Step::Leave(i) => if self.call_is(i, CallStage::Holding) || self.call_is(
                i,
                CallStage::Refused,
            ) {
                World {
                    slot: self.slot.leave(),
                    calls: self.calls.update(i, CallStage::Idle),
                    ..self
                }
            } else {
                self
            },
            Step::Swap => World { slot: self.slot.swap_out(), ..self },
            Step::Release => World {
                slot: self.slot.release(),
                releases: if self.slot.releasable() {
                    self.releases + 1
                } else {
                    self.releases
                },
                ..self
            },
            Step::SetMaxLevel(level) => World { slot: self.slot.with_max_level(level), ..self },
        }
    }

    /// The world after a sequence of steps.
    pub open spec fn run(self, steps: Seq<Step>) -> World
        decreases steps.len(),
    {
        if steps.len() == 0 {
            self
        } else {
            self.run(steps.drop_last()).next(steps.last())
        }
    }

    /// What holds of every world that the process can reach.
    pub open spec fn holds(self) -> bool {
        &&& self.slot.consistent()
        &&& self.slot.guards == if self.slot.counted() {
            in_flight(self.calls)
        } else {
            0nat
        }
        &&& forall|i: int| self.call_is(i, CallStage::Holding) ==> self.slot.live
        &&& self.wins == if self.slot.state == SlotState::Uninitialized {
            0nat
        } else {
            1nat
        }
        &&& self.slot.state == SlotState::Uninitialized <==> self.attempts == 0
        &&& self.activations == if self.slot.state == SlotState::Active || self.slot.state
            == SlotState::Draining {
            1nat
        } else {
            0nat
        }
        &&& self.releases == if self.slot.state == SlotState::Draining && !self.slot.live {
            1nat
        } else {
            0nat
        }
    }
}

/// The place of a stage in the life of the slot.
pub open spec fn stage_rank(state: SlotState) -> nat {
    match state {
        SlotState::Uninitialized => 0,
        SlotState::Initializing => 1,
        SlotState::Active => 2,
        SlotState::Draining => 3,
    }
}

/// Changing the stage of one call changes the count of calls in flight by that
/// call alone.
pub proof fn lemma_in_flight_update(calls: Seq<CallStage>, i: int, stage: CallStage)
    requires
        0 <= i < calls.len(),
    ensures
        in_flight(calls.update(i, stage)) + (if calls[i] is Idle {
            0nat
        } else {
            1nat
        }) == in_flight(calls) + (if stage is Idle {
            0nat
        } else {
            1nat
        }),
    decreases calls.len(),
{
    let changed = calls.update(i, stage);
    if i == calls.len() - 1 {
        assert(changed.drop_last() =~= calls.drop_last());
    } else {
        assert(changed.drop_last() =~= calls.drop_last().update(i, stage));
        lemma_in_flight_update(calls.drop_last(), i, stage);
    }
}

/// No call is in flight if and only if every call is idle.
pub proof fn lemma_in_flight_zero(calls: Seq<CallStage>)
    ensures
        in_flight(calls) == 0 <==> forall|i: int| 0 <= i < calls.len() ==> calls[i] is Idle,
    decreases calls.len(),
{
    if calls.len() > 0 {
        lemma_in_flight_zero(calls.drop_last());
        if in_flight(calls) == 0 {
            assert forall|i: int| 0 <= i < calls.len() implies calls[i] is Idle by {
                if i < calls.len() - 1 {
                    assert(calls.drop_last()[i] == calls[i]);
                }
            }
        } else if calls.last() is Idle {
            let j = choose|j: int|
                0 <= j < calls.drop_last().len() && !(calls.drop_last()[j] is Idle);
            assert(calls[j] == calls.drop_last()[j]);
        }
    }
}

/// The world at the start is sound.
pub proof fn lemma_start_holds(calls: nat, teardown: Teardown)
    ensures
        World::start(calls, teardown).holds(),
{
    lemma_in_flight_zero(World::start(calls, teardown).calls);
}

/// Every step keeps the world sound.
pub proof fn lemma_step_holds(world: World, step: Step)
    requires
        world.holds(),
    ensures
        world.next(step).holds(),
{
    let after = world.next(step);
    match step {
        Step::Enter(i) => {
            if world.call_is(i, CallStage::Idle) {
                lemma_in_flight_update(world.calls, i, CallStage::Entered);
                assert forall|j: int| after.call_is(j, CallStage::Holding) implies after.slot.live by {
                    assert(world.call_is(j, CallStage::Holding));
                }
            }
        },
        Step::Observe(i) => {
            if world.call_is(i, CallStage::Entered) {
                let seen = if world.slot.available() {
                    CallStage::Holding
                } else {
                    CallStage::Refused
                };
                lemma_in_flight_update(world.calls, i, seen);
                assert forall|j: int| after.call_is(j, CallStage::Holding) implies after.slot.live by {
                    if j != i {
                        assert(world.call_is(j, CallStage::Holding));
                    }
                }
            }
        },
        Step::Leave(i) => {
            if world.call_is(i, CallStage::Holding) || world.call_is(i, CallStage::Refused) {
                lemma_in_flight_update(world.calls, i, CallStage::Idle);
                assert forall|j: int| after.call_is(j, CallStage::Holding) implies after.slot.live by {
                    assert(world.call_is(j, CallStage::Holding));
                }
            }
        },
        Step::Release => {
            if world.slot.releasable() {
                lemma_in_flight_zero(world.calls);
                assert forall|j: int| after.call_is(j, CallStage::Holding) implies after.slot.live by {
                    assert(world.calls[j] is Idle);
                }
            } else {
                assert forall|j: int| after.call_is(j, CallStage::Holding) implies after.slot.live by {
                    assert(world.call_is(j, CallStage::Holding));
                }
            }
        },
        _ => {
            assert forall|j: int| after.call_is(j, CallStage::Holding) implies after.slot.live by {
                assert(world.call_is(j, CallStage::Holding));
            }
        },
    }
}

/// Every world that a schedule reaches from the start is sound.
pub proof fn lemma_reachable_holds(calls: nat, teardown: Teardown, steps: Seq<Step>)
    ensures
        World::start(calls, teardown).run(steps).holds(),
        World::start(calls, teardown).run(steps).slot.teardown == teardown,
    decreases steps.len(),
{
    if steps.len() == 0 {
        lemma_start_holds(calls, teardown);
    } else {
        lemma_reachable_holds(calls, teardown, steps.drop_last());
        lemma_step_holds(World::start(calls, teardown).run(steps.drop_last()), steps.last());
    }
}

/// The slot only moves forward through its stages, whatever the steps, and the
/// number of calls does not change.
pub proof fn lemma_run_moves_forward(world: World, steps: Seq<Step>)
    ensures
        stage_rank(world.slot.state) <= stage_rank(world.run(steps).slot.state),
        world.run(steps).calls.len() == world.calls.len(),
        world.attempts <= world.run(steps).attempts,
    decreases steps.len(),
{
    if steps.len() > 0 {
        lemma_run_moves_forward(world, steps.drop_last());
    }
}

/// Installation succeeds once. However many installations are attempted, by
/// whatever threads and in whatever order among themselves and among all
/// other steps, exactly one of them succeeds, the first, and every other
/// fails: of `n` attempts, `n - 1`. The slot becomes active at most once.
pub proof fn law_install_once(calls: nat, teardown: Teardown, steps: Seq<Step>)
    ensures
        ({
            let world = World::start(calls, teardown).run(steps);
            &&& world.attempts == 0 ==> world.wins == 0
            &&& world.attempts > 0 ==> world.wins == 1
            &&& world.wins <= world.attempts
            &&& world.activations <= world.wins
        }),
{
    lemma_reachable_holds(calls, teardown, steps);
}

/// An installation attempted on a world where one has been attempted before
/// fails and changes nothing in the slot, whatever has happened in between.
pub proof fn law_second_install_fails(
    calls: nat,
    teardown: Teardown,
    before: Seq<Step>,
    between: Seq<Step>,
)
    ensures
        ({
            let claimed = World::start(calls, teardown).run(before).next(Step::Claim);
            let later = claimed.run(between);
            &&& !later.slot.claimable()
            &&& later.next(Step::Claim).slot == later.slot
            &&& later.next(Step::Claim).wins == later.wins
        }),
{
    let claimed = World::start(calls, teardown).run(before).next(Step::Claim);
    lemma_run_moves_forward(claimed, between);
}

/// Without an active recorder no call gets hold of one. A call that reads a
/// slot that is not active is refused, whatever the schedule that led there;
/// and until the installation is complete no call holds a guard at all.
pub proof fn law_no_recorder_no_access(calls: nat, teardown: Teardown, steps: Seq<Step>, i: int)
    ensures
        ({
            let world = World::start(calls, teardown).run(steps);
            &&& !world.slot.available() && world.call_is(i, CallStage::Entered) ==> world.next(
                Step::Observe(i),
            ).call_is(i, CallStage::Refused)
            &&& world.slot.state == SlotState::Uninitialized || world.slot.state
                == SlotState::Initializing ==> !world.call_is(i, CallStage::Holding)
                && !world.next(Step::Observe(i)).call_is(i, CallStage::Holding)
        }),
{
    lemma_reachable_holds(calls, teardown, steps);
}

/// The count of guards is balanced. In every reachable world the count is the
/// number of calls in flight; so once every call has returned, it is zero.
pub proof fn law_guard_balance(calls: nat, teardown: Teardown, steps: Seq<Step>)
    ensures
        ({
            let world = World::start(calls, teardown).run(steps);
            &&& teardown == Teardown::Drained ==> world.slot.guards == in_flight(world.calls)
            &&& teardown == Teardown::External ==> world.slot.guards == 0
            &&& (forall|i: int| 0 <= i < world.calls.len() ==> world.calls[i] is Idle)
                ==> world.slot.guards == 0
        }),
{
    lemma_reachable_holds(calls, teardown, steps);
    lemma_in_flight_zero(World::start(calls, teardown).run(steps).calls);
}

/// The shutdown drains before it releases. A release takes effect only in a
/// world where every call has returned; a call that holds a guard finds the
/// recorder alive for as long as it holds it; and the recorder is released at
/// most once.
pub proof fn law_release_after_drain(calls: nat, teardown: Teardown, steps: Seq<Step>)
    ensures
        ({
            let world = World::start(calls, teardown).run(steps);
            &&& world.slot.releasable() ==> forall|i: int|
                0 <= i < world.calls.len() ==> world.calls[i] is Idle
            &&& forall|i: int| world.call_is(i, CallStage::Holding) ==> world.slot.live
            &&& forall|i: int|
                world.call_is(i, CallStage::Holding) ==> world.next(Step::Release).slot.live
            &&& world.releases <= 1
            &&& world.releases == 1 <==> world.slot.state == SlotState::Draining
                && !world.slot.live
            &&& teardown == Teardown::External ==> world.releases == 0
        }),
{
    let world = World::start(calls, teardown).run(steps);
    lemma_reachable_holds(calls, teardown, steps);
    lemma_in_flight_zero(world.calls);
    assert forall|i: int| world.call_is(i, CallStage::Holding) implies world.next(
        Step::Release,
    ).slot.live by {
        if world.slot.releasable() {
            assert(world.calls[i] is Idle);
        }
    }
}

/// Once the shutdown has swapped the slot, it stays `Draining` whatever
/// happens, no installation succeeds, and no call that reads the slot from then
/// on gets a guard.
pub proof fn law_no_access_after_swap(world: World, steps: Seq<Step>, i: int)
    requires
        world.slot.state == SlotState::Draining,
    ensures
        world.run(steps).slot.state == SlotState::Draining,
        world.run(steps).wins == world.wins,
        world.run(steps).call_is(i, CallStage::Entered) ==> world.run(steps).next(
            Step::Observe(i),
        ).call_is(i, CallStage::Refused),
    decreases steps.len(),
{
    if steps.len() > 0 {
        law_no_access_after_swap(world, steps.drop_last(), i);
    }
}

/// Once the slot is draining and no call holds a guard, none ever will. So a
/// shutdown that has seen the count at zero after its swap may release the
/// recorder at any later moment: it need not release in the same instant.
pub proof fn law_drained_stays_clear(world: World, steps: Seq<Step>, i: int)
    requires
        world.slot.state == SlotState::Draining,
        forall|j: int| !world.call_is(j, CallStage::Holding),
    ensures
        !world.run(steps).call_is(i, CallStage::Holding),
    decreases steps.len(),
{
    if steps.len() > 0 {
        let before = world.run(steps.drop_last());
        law_drained_stays_clear(world, steps.drop_last(), i);
        law_no_access_after_swap(world, steps.drop_last(), i);
        lemma_run_moves_forward(world, steps.drop_last());
        match steps.last() {
            Step::Observe(j) => {
                if j == i && before.call_is(i, CallStage::Entered) {
                    assert(before.next(Step::Observe(i)).call_is(i, CallStage::Refused));
                }
            },
            _ => {},
        }
    }
}

/// A whole acquisition is the three steps of one call with no step of another
/// thread in between: the call counts itself in, reads the slot, and counts
/// itself out again if it was refused. The slot is then as [`SlotModel::acquire`]
/// leaves it, and the call holds a guard if and only if the slot was active.
pub proof fn law_acquire_is_three_steps(world: World, i: int)
    requires
        world.call_is(i, CallStage::Idle),
    ensures
        ({
            let read = world.next(Step::Enter(i)).next(Step::Observe(i));
            &&& world.slot.available() ==> read.slot == world.slot.acquire() && read.call_is(
                i,
                CallStage::Holding,
            )
            &&& !world.slot.available() ==> read.call_is(i, CallStage::Refused) && read.next(
                Step::Leave(i),
            ).slot == world.slot.acquire() && read.next(Step::Leave(i)).call_is(i, CallStage::Idle)
        }),
{
}

/// A whole call of `enabled` or `log`, from counting in to counting out, leaves
/// the slot as it found it when no step of another thread comes in between.
pub proof fn law_call_restores_slot(world: World, i: int)
    requires
        world.call_is(i, CallStage::Idle),
    ensures
        world.next(Step::Enter(i)).next(Step::Observe(i)).next(Step::Leave(i)).slot == world.slot,
        world.next(Step::Enter(i)).next(Step::Observe(i)).next(Step::Leave(i)).calls
            =~= world.calls,
{
}

} // verus!
