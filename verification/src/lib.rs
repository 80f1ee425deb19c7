//! Window lifecycle for a host application that embeds an external
//! rendering engine.
//!
//! Every backend in [`windows`], [`linux`] and [`macos`] turns the same nine
//! lifecycle operations of [`window::BaseWindow`] into the requests of its
//! native protocol. A backend issues nothing: it says which requests are
//! due and in what order, and takes the replies as plain values. Whoever
//! drives it performs the requests on the running system.
//!
//! What the requests mean is fixed by [`model`], a mathematical model of the
//! native side. [`laws`] proves against it what holds of every backend, and
//! [`desktop`] is the model as a value that performs requests, for use
//! wherever the real native side is not at hand.

pub mod desktop;
pub mod error;
pub mod flags;
pub mod geometry;
pub mod handle;
pub mod laws;
pub mod lifecycle;
pub mod linux;
pub mod macos;
pub mod model;
pub mod request;
pub mod state;
pub mod wide;
pub mod window;
pub mod windows;
