//! The least-cost dispatch decision.
//!
//! A pure weight function scores each car for a task, smaller is
//! better, and selection keeps the first car attaining the minimum
//! over fleet iteration order. Two large values are reserved as
//! sentinels: `i32::MAX` excludes a faulted car short of a last
//! resort, and `i32::MAX - 1` deprioritizes a car moving the wrong
//! way without excluding it.

use vstd::prelude::*;

use crate::elevator::{dist, floor_in_range, Elevator, Status};
use crate::task::ElevatorTask;

verus! {

/// The dispatch cost of `e` for a task targeting `target`:
/// - a faulted car costs `i32::MAX`;
/// - a stopped car costs its distance to the target;
/// - a car already moving toward the target costs the remaining
///   distance;
/// - a car moving away costs `i32::MAX - 1`.
pub open spec fn weight_spec(e: Elevator, target: int) -> int {
    if e.status == Status::Error {
        i32::MAX as int
    } else if e.status == Status::Stop {
        dist(e.floor as int, target)
    } else if e.status == Status::GoingUp && target >= e.floor as int {
        target - e.floor as int
    } else if e.status == Status::GoingDown && target <= e.floor as int {
        e.floor as int - target
    } else {
        i32::MAX as int - 1
    }
}

/// Within the admitted floor range every real distance stays below
/// both sentinel costs, so a cost of `i32::MAX` identifies a faulted
/// car exactly.
pub proof fn lemma_weight_bounds(e: Elevator, target: int)
    requires
        e.wf(),
        floor_in_range(target),
    ensures
        weight_spec(e, target) <= i32::MAX as int,
        (weight_spec(e, target) == i32::MAX as int) == (e.status == Status::Error),
{
}

/// Computes the dispatch cost of one car for one task.
pub fn cal_weight(elevator: &Elevator, task: &ElevatorTask) -> (w: i32)
    requires
        elevator.wf(),
        floor_in_range(task.target_floor as int),
    ensures
        w as int == weight_spec(*elevator, task.target_floor as int),
{
    if elevator.status == Status::Error {
        return i32::MAX;
    }
    let floor = elevator.floor;
    if elevator.status == Status::Stop {
        if floor < task.target_floor {
            return task.target_floor - floor;
        } else {
            return floor - task.target_floor;
        }
    }
    if task.target_floor >= floor && elevator.status == Status::GoingUp {
        return task.target_floor - floor;
    }
    if task.target_floor <= floor && elevator.status == Status::GoingDown {
        return floor - task.target_floor;
    }
    i32::MAX - 1
}

/// Selects the car for a task: the index of the first car attaining
/// the minimal dispatch cost over fleet iteration order.
pub fn select_elevator(elevators: &Vec<Elevator>, task: &ElevatorTask) -> (idx: usize)
    requires
        elevators.len() > 0,
        forall|i: int| 0 <= i < elevators.len() ==> (#[trigger] elevators[i]).wf(),
        floor_in_range(task.target_floor as int),
    ensures
        idx < elevators.len(),
        forall|j: int|
            0 <= j < elevators.len() ==> #[trigger] weight_spec(elevators[j], task.target_floor as int)
                >= weight_spec(elevators[idx as int], task.target_floor as int),
        forall|j: int|
            0 <= j < idx ==> #[trigger] weight_spec(elevators[j], task.target_floor as int)
                > weight_spec(elevators[idx as int], task.target_floor as int),
{
    let ghost target: int = task.target_floor as int;
    let mut value: i32 = i32::MAX;
    let mut idx: usize = 0;
    let mut i: usize = 0;
    while i < elevators.len()
        invariant
            elevators.len() > 0,
            i <= elevators.len(),
            idx < elevators.len(),
            forall|k: int| 0 <= k < elevators.len() ==> (#[trigger] elevators[k]).wf(),
            floor_in_range(target),
            target == task.target_floor as int,
            value == i32::MAX ==> idx == 0 && forall|j: int|
                0 <= j < i ==> #[trigger] weight_spec(elevators[j], target) == i32::MAX as int,
            value < i32::MAX ==> {
                &&& idx < i
                &&& weight_spec(elevators[idx as int], target) == value as int
                &&& forall|j: int|
                    0 <= j < i ==> #[trigger] weight_spec(elevators[j], target) >= value as int
                &&& forall|j: int|
                    0 <= j < idx ==> #[trigger] weight_spec(elevators[j], target) > value as int
            },
        decreases elevators.len() - i,
    {
        let cur = cal_weight(&elevators[i], task);
        proof {
            lemma_weight_bounds(elevators@[i as int], target);
        }
        if cur < value {
            value = cur;
            idx = i;
        }
        i = i + 1;
    }
    proof {
        if value == i32::MAX {
            assert(weight_spec(elevators@[0], target) == i32::MAX as int);
        }
    }
    idx
}

/// When every car is stopped, dispatch selects the car minimizing the
/// absolute distance `|floor - target|`, and the first index wins
/// exact ties: any index satisfying the selection contract is a
/// first minimizer of the distance.
pub proof fn lemma_all_stop_selects_nearest(fleet: Seq<Elevator>, target: int, idx: int)
    requires
        0 <= idx < fleet.len(),
        forall|j: int| 0 <= j < fleet.len() ==> (#[trigger] fleet[j]).status == Status::Stop,
        forall|j: int|
            0 <= j < fleet.len() ==> #[trigger] weight_spec(fleet[j], target) >= weight_spec(
                fleet[idx],
                target,
            ),
        forall|j: int|
            0 <= j < idx ==> #[trigger] weight_spec(fleet[j], target) > weight_spec(
                fleet[idx],
                target,
            ),
    ensures
        forall|j: int|
            0 <= j < fleet.len() ==> #[trigger] dist(fleet[j].floor as int, target) >= dist(
                fleet[idx].floor as int,
                target,
            ),
        forall|j: int|
            0 <= j < idx ==> #[trigger] dist(fleet[j].floor as int, target) > dist(
                fleet[idx].floor as int,
                target,
            ),
{
    assert forall|j: int| 0 <= j < fleet.len() implies #[trigger] dist(fleet[j].floor as int, target)
        >= dist(fleet[idx].floor as int, target) by {
        assert(weight_spec(fleet[j], target) == dist(fleet[j].floor as int, target));
    }
    assert forall|j: int| 0 <= j < idx implies #[trigger] dist(fleet[j].floor as int, target)
        > dist(fleet[idx].floor as int, target) by {
        assert(weight_spec(fleet[j], target) == dist(fleet[j].floor as int, target));
    }
}

/// A faulted car is selected only as a last resort: when the selection
/// contract lands on a car in `Error` status, every car in the fleet
/// scores the sentinel maximum.
pub proof fn lemma_error_selected_last_resort(fleet: Seq<Elevator>, target: int, idx: int)
    requires
        floor_in_range(target),
        forall|j: int| 0 <= j < fleet.len() ==> (#[trigger] fleet[j]).wf(),
        0 <= idx < fleet.len(),
        fleet[idx].status == Status::Error,
        forall|j: int|
            0 <= j < fleet.len() ==> #[trigger] weight_spec(fleet[j], target) >= weight_spec(
                fleet[idx],
                target,
            ),
        forall|j: int|
            0 <= j < idx ==> #[trigger] weight_spec(fleet[j], target) > weight_spec(
                fleet[idx],
                target,
            ),
    ensures
        forall|j: int|
            0 <= j < fleet.len() ==> #[trigger] weight_spec(fleet[j], target) == i32::MAX as int,
{
    assert(weight_spec(fleet[idx], target) == i32::MAX as int);
    assert forall|j: int| 0 <= j < fleet.len() implies #[trigger] weight_spec(fleet[j], target)
        == i32::MAX as int by {
        lemma_weight_bounds(fleet[j], target);
    }
}

} // verus!
