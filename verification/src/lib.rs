//! Device-mode driver logic for the Synopsys DesignWare USB 2.0 controller of
//! the H1 chip.

pub mod action;
pub mod bank;
pub mod bytes;
pub mod constants;
pub mod descriptor;
pub mod endpoint0;
pub mod endpoint1;
pub mod handler;
pub mod init;
pub mod interrupt;
pub mod laws;
pub mod request;
pub mod setup;
pub mod usb;
