//! Synchronous and streaming USB transfers over an asynchronous transport:
//! the transport's codes and records (`libusb`), the lifecycle of contexts,
//! devices and sessions and the blocking transfers (`usb`), and the decisions
//! of a stream of transfers kept in rotation (`stream`).
#![allow(non_camel_case_types, non_snake_case)]

pub mod libusb;
pub mod stream;
pub mod usb;
