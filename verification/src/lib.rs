//! Frame acquisition for a live camera preview.
//!
//! A capture worker reads raw frames from a device, normalises each one to
//! packed RGBA, and publishes it into a single-slot mailbox from which a
//! consumer always receives the freshest frame. The device, the worker thread
//! and the blocking itself live with the host application; this crate holds
//! the data types, the pixel conversion and every decision the worker and the
//! consumer take, each with a proved contract.

pub mod channel;
pub mod controls;
pub mod error;
pub mod frame;
pub mod source;
pub mod text;
pub mod worker;
