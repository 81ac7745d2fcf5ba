use elevator_dispatch::dispatch::{cal_weight, select_elevator};
use elevator_dispatch::elevator::{Elevator, Status};
use elevator_dispatch::task::{ElevatorTask, TaskType};

fn stopped_fleet(floors: &[i32]) -> Vec<Elevator> {
    floors
        .iter()
        .enumerate()
        .map(|(id, f)| Elevator::new(id, *f))
        .collect()
}

#[test]
fn scenario_a_first_minimal_cost_wins() {
    let fleet = stopped_fleet(&[0, 1, 1, 0, 3]);
    let task = ElevatorTask::new(true, 2, TaskType::GoingUp);
    let costs: Vec<i32> = fleet.iter().map(|e| cal_weight(e, &task)).collect();
    assert_eq!(costs, vec![2, 1, 1, 2, 1]);
    assert_eq!(select_elevator(&fleet, &task), 1);
}

#[test]
fn weight_of_stopped_car_is_distance() {
    let e = Elevator::new(0, 7);
    let down = ElevatorTask::new(false, 3, TaskType::GoingDown);
    let up = ElevatorTask::new(false, 12, TaskType::GoingUp);
    assert_eq!(cal_weight(&e, &down), 4);
    assert_eq!(cal_weight(&e, &up), 5);
}

#[test]
fn weight_of_error_car_is_sentinel_maximum() {
    let mut e = Elevator::new(0, 0);
    e.status = Status::Error;
    let task = ElevatorTask::new(false, 0, TaskType::GoingUp);
    assert_eq!(cal_weight(&e, &task), i32::MAX);
}

#[test]
fn weight_of_car_already_heading_past_target() {
    let mut e = Elevator::new(0, 2);
    e.status = Status::GoingUp;
    let task = ElevatorTask::new(false, 6, TaskType::GoingUp);
    assert_eq!(cal_weight(&e, &task), 4);

    let mut d = Elevator::new(1, 9);
    d.status = Status::GoingDown;
    let below = ElevatorTask::new(false, 5, TaskType::GoingDown);
    assert_eq!(cal_weight(&d, &below), 4);
}

#[test]
fn weight_of_car_moving_the_wrong_way() {
    let mut e = Elevator::new(0, 5);
    e.status = Status::GoingUp;
    let task = ElevatorTask::new(false, 1, TaskType::GoingDown);
    assert_eq!(cal_weight(&e, &task), i32::MAX - 1);

    let mut d = Elevator::new(1, 1);
    d.status = Status::GoingDown;
    let above = ElevatorTask::new(false, 5, TaskType::GoingUp);
    assert_eq!(cal_weight(&d, &above), i32::MAX - 1);
}

#[test]
fn scenario_d_error_car_loses_to_any_working_car() {
    // A distant stopped car still beats a faulted one.
    let mut fleet = stopped_fleet(&[0, 100]);
    fleet[0].status = Status::Error;
    let task = ElevatorTask::new(false, 0, TaskType::GoingUp);
    assert_eq!(select_elevator(&fleet, &task), 1);

    // Even a car moving the wrong way (cost MAX - 1) beats it.
    let mut fleet = stopped_fleet(&[0, 5]);
    fleet[0].status = Status::Error;
    fleet[1].status = Status::GoingUp;
    let below = ElevatorTask::new(false, 1, TaskType::GoingDown);
    assert_eq!(cal_weight(&fleet[1], &below), i32::MAX - 1);
    assert_eq!(select_elevator(&fleet, &below), 1);
}

#[test]
fn scenario_d_error_car_selected_when_all_are_maxed() {
    let mut fleet = stopped_fleet(&[4, 8, 2]);
    for e in fleet.iter_mut() {
        e.status = Status::Error;
    }
    let task = ElevatorTask::new(false, 3, TaskType::GoingUp);
    for e in &fleet {
        assert_eq!(cal_weight(e, &task), i32::MAX);
    }
    assert_eq!(select_elevator(&fleet, &task), 0);
}

#[test]
fn select_prefers_en_route_car_over_distant_stopped_one() {
    let mut fleet = stopped_fleet(&[0, 10]);
    fleet[0].status = Status::GoingUp;
    let task = ElevatorTask::new(false, 8, TaskType::GoingUp);
    // en-route cost 8, stopped cost 2
    assert_eq!(select_elevator(&fleet, &task), 1);
    let far = ElevatorTask::new(false, 4, TaskType::GoingUp);
    // en-route cost 4, stopped cost 6
    assert_eq!(select_elevator(&fleet, &far), 0);
}
