//! Streams frames from a Hamamatsu DCAM camera to consumers that may change
//! during a session.
//!
//! `acquisition` holds the session as a state machine that owns the frame
//! buffer and decides every step; the thread that drives it performs the
//! device and channel operations it asks for. `frame_buffer` lays out the
//! slots the camera writes into, `camera` holds the API connection and the
//! camera's accepted settings, `source` the settings of the next session, and
//! `bindings` the records of the DCAM C interface as plain values.
#![allow(non_upper_case_globals)]
#![allow(non_camel_case_types)]
#![allow(non_snake_case)]

pub mod bindings;
pub mod image_buffer;
pub mod frame_buffer;
pub mod camera;
pub mod acquisition;
pub mod source;
