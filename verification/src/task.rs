//! Movement requests and their lifecycle.
//!
//! A task describes one requested floor. Its `task_status` doubles as
//! the semantic kind of a freshly submitted request and, once reset to
//! `Stop` after processing, as a completion / shutdown sentinel marker.
//! Tasks compare and order by `target_floor` alone.

use vstd::prelude::*;

verus! {

/// The kind of a request, and the lifecycle tag of a task.
///
/// `Stop` marks a completed task; a task submitted directly with
/// `Stop` acts as a shutdown sentinel for one worker.
#[derive(Clone, Copy, Debug, PartialEq, Eq, Structural)]
pub enum TaskType {
    GoingUp,
    GoingDown,
    OpenDoor,
    CloseDoor,
    Stop,
}

/// A single elevator-movement request.
///
/// `target_floor` is fixed for the task's lifetime; only `task_status`
/// changes, exactly once, to `TaskType::Stop` when the run completes.
#[derive(Clone, Debug)]
pub struct ElevatorTask {
    /// Whether the request came from inside the car.
    pub indoor_request: bool,
    /// The requested floor.
    pub target_floor: i32,
    /// The request kind, later the completion tag.
    pub task_status: TaskType,
}

impl ElevatorTask {
    /// Builds a freshly submitted task carrying its request kind.
    pub fn new(indoor_request: bool, target_floor: i32, ts: TaskType) -> (t: Self)
        ensures
            t.indoor_request == indoor_request,
            t.target_floor == target_floor,
            t.task_status == ts,
    {
        Self { indoor_request, target_floor, task_status: ts }
    }

    /// Marks the task completed: only the status changes, to `Stop`.
    pub fn complete(&mut self)
        ensures
            final(self).indoor_request == old(self).indoor_request,
            final(self).target_floor == old(self).target_floor,
            final(self).task_status == TaskType::Stop,
    {
        self.task_status = TaskType::Stop;
    }

    /// Whether the task is a shutdown sentinel (or a completed task).
    pub fn is_sentinel(&self) -> (r: bool)
        ensures
            r == (self.task_status == TaskType::Stop),
    {
        self.task_status == TaskType::Stop
    }
}

impl PartialEq for ElevatorTask {
    /// Tasks are equal exactly when they target the same floor,
    /// matching the ordering used by the reorder buffer.
    fn eq(&self, other: &Self) -> (r: bool) {
        self.target_floor == other.target_floor
    }
}

impl vstd::std_specs::cmp::PartialEqSpecImpl for ElevatorTask {
    open spec fn obeys_eq_spec() -> bool {
        true
    }

    open spec fn eq_spec(&self, other: &Self) -> bool {
        self.target_floor == other.target_floor
    }
}

impl Eq for ElevatorTask {}

impl PartialOrd for ElevatorTask {
    /// Tasks order by `target_floor` alone, ascending.
    fn partial_cmp(&self, other: &Self) -> (r: Option<core::cmp::Ordering>) {
        if self.target_floor < other.target_floor {
            Some(core::cmp::Ordering::Less)
        } else if self.target_floor == other.target_floor {
            Some(core::cmp::Ordering::Equal)
        } else {
            Some(core::cmp::Ordering::Greater)
        }
    }
}

impl vstd::std_specs::cmp::PartialOrdSpecImpl for ElevatorTask {
    open spec fn obeys_partial_cmp_spec() -> bool {
        true
    }

    open spec fn partial_cmp_spec(&self, other: &Self) -> Option<core::cmp::Ordering> {
        if self.target_floor < other.target_floor {
            Some(core::cmp::Ordering::Less)
        } else if self.target_floor == other.target_floor {
            Some(core::cmp::Ordering::Equal)
        } else {
            Some(core::cmp::Ordering::Greater)
        }
    }
}

} // verus!
