//! Request frames for ZDT closed-loop stepper drivers.
//!
//! Every request sent to a driver is one frame on the serial line:
//! the driver address, the command's op code, the command's argument
//! bytes, and the fixed check byte `0x6B`.
pub mod frame;
pub mod hexdump;
pub mod laws;
pub mod requests;

pub use frame::{DriverReq, CHECK_BYTE};
pub use hexdump::format_buf;
pub use requests::{
    trigger_motion_boardcast, ControlPosition, ControlSpeed, EnableMotor, HaltMotor, MotionMode,
    RebootMotor, ResetFactory, ResetProtection, ResetZero, TriggerCalibration, TriggerMotion,
    SPEED_MAX,
};
