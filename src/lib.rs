//! A client library for the usbmuxd device multiplexing daemon: the frame
//! codec, request and response payloads, the `ListDevices` exchange as a
//! state machine, and the lifecycle and subscribers of the device event
//! listener.

pub mod error;
pub mod frame;
pub mod listener;
pub mod plist_utils;
pub mod protocol;
pub mod session;
mod wire;
