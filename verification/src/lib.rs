//! Verified sans-IO core of a USB DFU (Device Firmware Upgrade) host.
//!
//! The library decides, its caller performs: every operation is a chain of values, each of which
//! names the one thing to do next (a control transfer, a pause, bytes to hand over) and holds the
//! method that takes the outcome in and tells what comes after it. What a device is, the caller
//! says too, with an [`io::DfuIo`]; no function here touches a file or a clock.

pub mod buffer;
pub mod calls;
pub mod command;
pub mod control;
pub mod device;
pub mod download_session;
pub mod download_wire;
pub mod error;
pub mod feed;
pub mod functional_descriptor;
pub mod gather;
pub mod get_status;
pub mod instance;
pub mod io;
pub mod laws;
pub mod sans_io;
pub mod session_steps;
pub mod state;
pub mod synchronous;
pub mod upload;
pub mod upload_session;
pub mod wire;
