//! Session-layer logic for a compositor automation client: synthetic
//! keyboard/pointer input injection and single-frame screen capture.
//!
//! This crate holds the verified core: parameter sampling, the session
//! state store and its event dispatch, output resolution, the
//! shared-memory allocation state machine, the screen-capture state
//! machine, pixel-buffer layout, socket-path resolution, and the
//! input-gesture plans. The surrounding process (socket I/O, the wire
//! codec, OS calls) drives these from outside.

pub mod capture;
pub mod errors;
pub mod input;
pub mod path;
pub mod pixels;
pub mod session;
pub mod shm;
pub mod value;
