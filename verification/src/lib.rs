//! A verified elevator dispatch core.
//!
//! The library models a fleet of elevators, a least-cost dispatch
//! decision, a per-elevator resumable step machine that drives a car
//! one floor at a time toward a target, and the worker-side reorder
//! buffer with its sentinel-based shutdown rule. Thread plumbing
//! (queues, channels, parking) lives outside the library and hands it
//! plain values.

pub mod dispatch;
pub mod elevator;
pub mod handler;
pub mod scheduler;
pub mod task;
pub mod worker;

pub use elevator::Elevator;
pub use elevator::Status;
pub use scheduler::SchedulerBuilder;
pub use task::ElevatorTask;
pub use task::TaskType;
