//! The task handler: one forwarded task, end to end.
//!
//! For each forwarded task the handler scores the whole fleet, picks
//! the first least-cost car, drives it to the target floor, and marks
//! the task completed so it can return to the global queue as a
//! completion signal. Receiving tasks from the forwarding channel and
//! waking a worker afterwards live outside the core.

use vstd::prelude::*;

use crate::dispatch::{select_elevator, weight_spec};
use crate::elevator::{floor_in_range, run_events, Elevator, Event, Status};
use crate::task::{ElevatorTask, TaskType};

verus! {

/// The car's value after a completed run to `target`: stopped at the
/// target, everything else unchanged.
pub open spec fn run_result(e: Elevator, target: i32) -> Elevator {
    Elevator { floor: target, status: Status::Stop, ..e }
}

/// The fleet after car `i` completed a run to `target`: only that car
/// changes.
pub open spec fn fleet_after_run(fleet: Seq<Elevator>, i: int, target: i32) -> Seq<Elevator> {
    fleet.update(i, run_result(fleet[i], target))
}

/// Handles one forwarded task: selects the first least-cost car,
/// runs it to the task's target floor, and marks the task completed.
///
/// Returns the completed task (same floor and origin, status now
/// `Stop` — its one lifecycle transition, taken only here, after the
/// run), the index of the car that ran, and the run's event trace.
/// Every other car is left untouched.
pub fn handle_task(elevators: &mut Vec<Elevator>, task: ElevatorTask) -> (r: (
    ElevatorTask,
    usize,
    Vec<Event>,
))
    requires
        old(elevators).len() > 0,
        forall|i: int| 0 <= i < old(elevators).len() ==> (#[trigger] old(elevators)[i]).wf(),
        floor_in_range(task.target_floor as int),
        task.task_status != TaskType::Stop,
    ensures
        r.1 < old(elevators).len(),
        forall|j: int|
            0 <= j < old(elevators).len() ==> #[trigger] weight_spec(
                old(elevators)[j],
                task.target_floor as int,
            ) >= weight_spec(old(elevators)[r.1 as int], task.target_floor as int),
        forall|j: int|
            0 <= j < r.1 ==> #[trigger] weight_spec(old(elevators)[j], task.target_floor as int)
                > weight_spec(old(elevators)[r.1 as int], task.target_floor as int),
        final(elevators)@ == fleet_after_run(old(elevators)@, r.1 as int, task.target_floor),
        r.0.target_floor == task.target_floor,
        r.0.indoor_request == task.indoor_request,
        r.0.task_status == TaskType::Stop,
        r.2@ == run_events(old(elevators)[r.1 as int].floor as int, task.target_floor as int),
{
    let idx = select_elevator(elevators, &task);
    let car = &mut elevators[idx];
    let events = car.do_job(&task);
    proof {
        assert(elevators@ =~= fleet_after_run(old(elevators)@, idx as int, task.target_floor));
    }
    let mut done = task;
    done.complete();
    (done, idx, events)
}

/// Runs on distinct cars are independent: completing one task on one
/// car and another task on a different car yields the same fleet in
/// either order, so two tasks whose selected cars differ can proceed
/// fully in parallel with no serialization between them.
pub proof fn lemma_distinct_cars_commute(
    fleet: Seq<Elevator>,
    i1: int,
    t1: i32,
    i2: int,
    t2: i32,
)
    requires
        0 <= i1 < fleet.len(),
        0 <= i2 < fleet.len(),
        i1 != i2,
    ensures
        fleet_after_run(fleet_after_run(fleet, i1, t1), i2, t2) == fleet_after_run(
            fleet_after_run(fleet, i2, t2),
            i1,
            t1,
        ),
{
    assert(fleet_after_run(fleet_after_run(fleet, i1, t1), i2, t2) =~= fleet_after_run(
        fleet_after_run(fleet, i2, t2),
        i1,
        t1,
    ));
}

} // verus!
