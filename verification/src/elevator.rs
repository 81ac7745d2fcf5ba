//! The per-car state machine.
//!
//! A car owns a current floor, a direction hint and a status tag, and
//! is driven toward a target floor one discrete step at a time by a
//! resumable step function, so that concurrent cost queries can see
//! every intermediate floor. Travel latency, door dwell and log output
//! stay outside the core and happen between steps.

use vstd::prelude::*;

use crate::task::ElevatorTask;

verus! {

/// Widest floor magnitude the core admits. Keeping every floor within
/// this bound keeps every floor distance strictly below the two cost
/// values the dispatcher reserves as sentinels (`i32::MAX` and
/// `i32::MAX - 1`), and keeps single steps free of overflow.
pub const FLOOR_BOUND: i32 = 0x2000_0000;

/// Whether a floor number lies within the admitted range.
pub open spec fn floor_in_range(f: int) -> bool {
    -(FLOOR_BOUND as int) <= f <= FLOOR_BOUND as int
}

/// Runtime check of `floor_in_range`, for callers outside the core.
pub fn floor_ok(f: i32) -> (r: bool)
    ensures
        r == floor_in_range(f as int),
{
    -FLOOR_BOUND <= f && f <= FLOOR_BOUND
}

/// The absolute distance between two floors.
pub open spec fn dist(a: int, b: int) -> int {
    if a < b {
        b - a
    } else {
        a - b
    }
}

/// A car's motion status. `Error` marks a faulted car; it is set by an
/// external fault collaborator and only read here, by the dispatcher.
#[derive(Clone, Copy, Debug, PartialEq, Eq, Structural)]
pub enum Status {
    Stop,
    GoingUp,
    GoingDown,
    Error,
}

/// An observable event of one run: a one-floor movement, a door
/// opening on arrival, or the door closing again.
#[derive(Clone, Copy, Debug, PartialEq, Eq, Structural)]
pub enum Event {
    MovedUp(i32),
    MovedDown(i32),
    DoorOpened(i32),
    DoorClosed,
}

/// One elevator car.
///
/// `floor` is the car's current floor; it moves by exactly one per
/// movement step and never skips. In a concurrent deployment the cell
/// is shared under a per-car lock held only across one read-modify-
/// write; the core models its value directly.
#[derive(Clone, Copy, Debug)]
pub struct Elevator {
    pub id: usize,
    pub floor: i32,
    pub is_up: bool,
    pub capacity: i32,
    pub status: Status,
}

/// The exact event trace of a run from floor `from` to floor `target`:
/// one movement event per floor crossed, then one door-open at the
/// target and one door-close.
pub open spec fn run_events(from: int, target: int) -> Seq<Event>
    decreases dist(from, target),
{
    if from < target {
        seq![Event::MovedUp((from + 1) as i32)] + run_events(from + 1, target)
    } else if from > target {
        seq![Event::MovedDown((from - 1) as i32)] + run_events(from - 1, target)
    } else {
        seq![Event::DoorOpened(target as i32), Event::DoorClosed]
    }
}

/// A run from `from` to `target` takes exactly `dist(from, target)`
/// one-floor steps, followed by the door-open and door-close events.
pub proof fn lemma_run_events_len(from: int, target: int)
    ensures
        run_events(from, target).len() == dist(from, target) + 2,
    decreases dist(from, target),
{
    if from < target {
        lemma_run_events_len(from + 1, target);
    } else if from > target {
        lemma_run_events_len(from - 1, target);
    }
}

impl Elevator {
    /// The car's floor stays within the admitted range.
    pub open spec fn wf(self) -> bool {
        floor_in_range(self.floor as int)
    }

    /// A new car starts stopped at its initial floor, with the default
    /// capacity.
    pub fn new(id: usize, init_floor: i32) -> (e: Self)
        requires
            floor_in_range(init_floor as int),
        ensures
            e.id == id,
            e.floor == init_floor,
            e.is_up == false,
            e.capacity == 15,
            e.status == Status::Stop,
            e.wf(),
    {
        Self { id, floor: init_floor, is_up: false, capacity: 15, status: Status::Stop }
    }

    /// One upward step: the car records the new floor and departs (or
    /// keeps going) upward. The status is assigned, not merely
    /// computed, on every transition.
    pub fn up_floor(&mut self, floor: i32)
        requires
            floor_in_range(floor as int),
        ensures
            final(self).floor == floor,
            final(self).status == Status::GoingUp,
            final(self).id == old(self).id,
            final(self).is_up == old(self).is_up,
            final(self).capacity == old(self).capacity,
            final(self).wf(),
    {
        self.floor = floor;
        self.status = Status::GoingUp;
    }

    /// One downward step, the mirror of `up_floor`.
    pub fn down_floor(&mut self, floor: i32)
        requires
            floor_in_range(floor as int),
        ensures
            final(self).floor == floor,
            final(self).status == Status::GoingDown,
            final(self).id == old(self).id,
            final(self).is_up == old(self).is_up,
            final(self).capacity == old(self).capacity,
            final(self).wf(),
    {
        self.floor = floor;
        self.status = Status::GoingDown;
    }

    /// Arrival at `floor`: the door opens, dwells (latency outside the
    /// core), then closes; the car ends stopped.
    pub fn open_door(&mut self, floor: i32)
        requires
            old(self).floor == floor,
        ensures
            final(self).floor == old(self).floor,
            final(self).status == Status::Stop,
            final(self).id == old(self).id,
            final(self).is_up == old(self).is_up,
            final(self).capacity == old(self).capacity,
    {
        self.close_door();
    }

    /// The door closes and the car comes to rest.
    pub fn close_door(&mut self)
        ensures
            final(self).floor == old(self).floor,
            final(self).status == Status::Stop,
            final(self).id == old(self).id,
            final(self).is_up == old(self).is_up,
            final(self).capacity == old(self).capacity,
    {
        self.status = Status::Stop;
    }

    /// Runs the car to the task's target floor, one resumable step at
    /// a time, and returns the full event trace of the run: exactly
    /// one movement event per floor crossed, then door-open and
    /// door-close, ending stopped at the target.
    pub fn do_job(&mut self, task: &ElevatorTask) -> (events: Vec<Event>)
        requires
            old(self).wf(),
            floor_in_range(task.target_floor as int),
        ensures
            final(self).floor == task.target_floor,
            final(self).status == Status::Stop,
            final(self).id == old(self).id,
            final(self).is_up == old(self).is_up,
            final(self).capacity == old(self).capacity,
            final(self).wf(),
            events@ == run_events(old(self).floor as int, task.target_floor as int),
            events@.len() == dist(old(self).floor as int, task.target_floor as int) + 2,
    {
        let fut = DoTaskFuture::new(task);
        let mut events: Vec<Event> = Vec::new();
        loop
            invariant
                self.wf(),
                floor_in_range(task.target_floor as int),
                fut.target_floor == task.target_floor,
                self.id == old(self).id,
                self.is_up == old(self).is_up,
                self.capacity == old(self).capacity,
                run_events(old(self).floor as int, task.target_floor as int) == events@
                    + run_events(self.floor as int, task.target_floor as int),
            decreases dist(self.floor as int, task.target_floor as int),
        {
            let ghost floor_before: int = self.floor as int;
            match fut.poll(self) {
                StepPoll::Pending(e) => {
                    proof {
                        assert(run_events(old(self).floor as int, task.target_floor as int)
                            =~= events@ + seq![e]
                                + run_events(self.floor as int, task.target_floor as int));
                    }
                    events.push(e);
                },
                StepPoll::Ready(opened, closed) => {
                    proof {
                        assert(run_events(floor_before, task.target_floor as int)
                            =~= seq![opened, closed]);
                        assert(run_events(old(self).floor as int, task.target_floor as int)
                            =~= events@ + seq![opened] + seq![closed]);
                        lemma_run_events_len(old(self).floor as int, task.target_floor as int);
                    }
                    events.push(opened);
                    events.push(closed);
                    return events;
                },
            }
        }
    }
}

/// One result of polling the step machine: either the car moved one
/// floor and must be polled again, or it arrived, opened and closed
/// its door, and the run is complete.
#[derive(Clone, Copy, Debug, PartialEq, Eq, Structural)]
pub enum StepPoll {
    Pending(Event),
    Ready(Event, Event),
}

/// A resumable run of one car toward one task's target floor.
///
/// Each `poll` performs exactly one discrete step under the car's
/// lock; between polls the caller simulates travel latency and yields,
/// so concurrent cost queries observe every intermediate floor.
pub struct DoTaskFuture {
    pub target_floor: i32,
}

impl DoTaskFuture {
    /// Captures the task's target floor; the floor never changes over
    /// the task's lifetime.
    pub fn new(task: &ElevatorTask) -> (f: Self)
        ensures
            f.target_floor == task.target_floor,
    {
        Self { target_floor: task.target_floor }
    }

    /// One step of the run: move the car one floor toward the target
    /// (pending), or, when it stands at the target, open and close the
    /// door and come to rest (ready).
    pub fn poll(&self, ele: &mut Elevator) -> (r: StepPoll)
        requires
            old(ele).wf(),
            floor_in_range(self.target_floor as int),
        ensures
            final(ele).wf(),
            final(ele).id == old(ele).id,
            final(ele).is_up == old(ele).is_up,
            final(ele).capacity == old(ele).capacity,
            old(ele).floor < self.target_floor ==> {
                &&& final(ele).floor == old(ele).floor + 1
                &&& final(ele).status == Status::GoingUp
                &&& r == StepPoll::Pending(Event::MovedUp((old(ele).floor + 1) as i32))
            },
            old(ele).floor > self.target_floor ==> {
                &&& final(ele).floor == old(ele).floor - 1
                &&& final(ele).status == Status::GoingDown
                &&& r == StepPoll::Pending(Event::MovedDown((old(ele).floor - 1) as i32))
            },
            old(ele).floor == self.target_floor ==> {
                &&& final(ele).floor == old(ele).floor
                &&& final(ele).status == Status::Stop
                &&& r == StepPoll::Ready(Event::DoorOpened(self.target_floor), Event::DoorClosed)
            },
    {
        if ele.floor < self.target_floor {
            let next: i32 = ele.floor + 1;
            ele.up_floor(next);
            StepPoll::Pending(Event::MovedUp(next))
        } else if ele.floor > self.target_floor {
            let next: i32 = ele.floor - 1;
            ele.down_floor(next);
            StepPoll::Pending(Event::MovedDown(next))
        } else {
            ele.open_door(self.target_floor);
            StepPoll::Ready(Event::DoorOpened(self.target_floor), Event::DoorClosed)
        }
    }
}

} // verus!
