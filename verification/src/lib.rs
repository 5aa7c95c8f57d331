//! Verified control core of an electric vehicle's central controller.
//!
//! The crate holds the decisions of the controller as plain functions with
//! contracts: bus frames and their routing, fault classification and
//! recovery, the battery watchdog, the drivetrain telemetry decoder and the
//! functional state machine. Beside them stand the decisions of the boards
//! around the controller: the control expander, the sensor boards, the
//! steering wheel, and what the drivers of two parts compute. Time is passed
//! in as milliseconds of a monotonic clock; nothing in here waits, reads a
//! pin or touches the bus.

pub mod frame;
pub mod bms;
pub mod can_handler;
pub mod dti;
pub mod encoding;
pub mod fault;
pub mod lsm6dso;
pub mod monitor;
pub mod msb;
pub mod pca9539;
pub mod state_machine;
pub mod wheel;

pub use fault::{FaultCode, FaultSeverity};
pub use msb::DeviceLocation;
pub use state_machine::{FunctionalType, NeroType, PduCommand, StateTransition};
