use elevator_dispatch::elevator::{
    floor_ok, DoTaskFuture, Elevator, Event, Status, StepPoll, FLOOR_BOUND,
};
use elevator_dispatch::task::{ElevatorTask, TaskType};

#[test]
fn new_car_starts_stopped() {
    let e = Elevator::new(3, 7);
    assert_eq!(e.id, 3);
    assert_eq!(e.floor, 7);
    assert!(!e.is_up);
    assert_eq!(e.capacity, 15);
    assert_eq!(e.status, Status::Stop);
}

#[test]
fn scenario_b_five_steps_then_doors() {
    let mut e = Elevator::new(0, 0);
    let task = ElevatorTask::new(true, 5, TaskType::GoingUp);
    let events = e.do_job(&task);
    assert_eq!(
        events,
        vec![
            Event::MovedUp(1),
            Event::MovedUp(2),
            Event::MovedUp(3),
            Event::MovedUp(4),
            Event::MovedUp(5),
            Event::DoorOpened(5),
            Event::DoorClosed,
        ]
    );
    // exactly |0 - 5| one-floor steps, then the two door events
    assert_eq!(events.len(), 5 + 2);
    assert_eq!(e.floor, 5);
    assert_eq!(e.status, Status::Stop);
}

#[test]
fn downward_run_steps_one_floor_at_a_time() {
    let mut e = Elevator::new(1, 3);
    let task = ElevatorTask::new(false, 0, TaskType::GoingDown);
    let events = e.do_job(&task);
    assert_eq!(
        events,
        vec![
            Event::MovedDown(2),
            Event::MovedDown(1),
            Event::MovedDown(0),
            Event::DoorOpened(0),
            Event::DoorClosed,
        ]
    );
    assert_eq!(events.len(), 3 + 2);
    assert_eq!(e.floor, 0);
    assert_eq!(e.status, Status::Stop);
}

#[test]
fn run_to_current_floor_only_works_the_door() {
    let mut e = Elevator::new(2, 4);
    let task = ElevatorTask::new(true, 4, TaskType::OpenDoor);
    let events = e.do_job(&task);
    assert_eq!(events, vec![Event::DoorOpened(4), Event::DoorClosed]);
    assert_eq!(e.floor, 4);
    assert_eq!(e.status, Status::Stop);
}

#[test]
fn poll_moves_exactly_one_floor_up() {
    let mut e = Elevator::new(0, 2);
    let task = ElevatorTask::new(true, 4, TaskType::GoingUp);
    let fut = DoTaskFuture::new(&task);
    assert_eq!(fut.target_floor, 4);
    let r = fut.poll(&mut e);
    assert_eq!(r, StepPoll::Pending(Event::MovedUp(3)));
    assert_eq!(e.floor, 3);
    assert_eq!(e.status, Status::GoingUp);
}

#[test]
fn poll_moves_exactly_one_floor_down() {
    let mut e = Elevator::new(0, 2);
    let task = ElevatorTask::new(true, 0, TaskType::GoingDown);
    let fut = DoTaskFuture::new(&task);
    let r = fut.poll(&mut e);
    assert_eq!(r, StepPoll::Pending(Event::MovedDown(1)));
    assert_eq!(e.floor, 1);
    assert_eq!(e.status, Status::GoingDown);
}

#[test]
fn poll_at_target_opens_and_closes_the_door() {
    let mut e = Elevator::new(0, 6);
    e.status = Status::GoingUp;
    let task = ElevatorTask::new(true, 6, TaskType::GoingUp);
    let fut = DoTaskFuture::new(&task);
    let r = fut.poll(&mut e);
    assert_eq!(r, StepPoll::Ready(Event::DoorOpened(6), Event::DoorClosed));
    assert_eq!(e.floor, 6);
    assert_eq!(e.status, Status::Stop);
}

#[test]
fn step_functions_assign_the_status() {
    let mut e = Elevator::new(0, 0);
    e.up_floor(1);
    assert_eq!(e.floor, 1);
    assert_eq!(e.status, Status::GoingUp);
    e.down_floor(0);
    assert_eq!(e.floor, 0);
    assert_eq!(e.status, Status::GoingDown);
    e.open_door(0);
    assert_eq!(e.floor, 0);
    assert_eq!(e.status, Status::Stop);
    e.up_floor(1);
    e.close_door();
    assert_eq!(e.status, Status::Stop);
}

#[test]
fn floor_range_check() {
    assert!(floor_ok(0));
    assert!(floor_ok(FLOOR_BOUND));
    assert!(floor_ok(-FLOOR_BOUND));
    assert!(!floor_ok(FLOOR_BOUND + 1));
    assert!(!floor_ok(-FLOOR_BOUND - 1));
}
