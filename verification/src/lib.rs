//! Control core of a two-axis camera gimbal.
//!
//! A command server sets two angle setpoints and two indicator states; periodic and
//! reactive output tasks turn them into signals on four lines. Server and tasks meet only
//! in single-slot broadcast cells. Every task is written here as one turn: a function from
//! the cells, and from what came in, to what the task does next. The program around this
//! library waits, drives the lines and talks to the link.
//!
//! - [`cell`]: the broadcast cell.
//! - [`angle`]: angles as they come over the link, their order and saturation.
//! - [`servo`]: the pulse width for an angle, and the servo task.
//! - [`led`]: the indicator cells and the two indicator tasks.
//! - [`rpc`]: the requests, what each does to the cells, and recovery from link errors.
//! - [`sched`]: the two tiers and which task runs in which.
//! - [`timing`]: the periods of the periodic tasks.

pub mod angle;
pub mod cell;
pub mod led;
pub mod rpc;
pub mod sched;
pub mod servo;
pub mod timing;
