//! Verified core of a bridge between a Vulkan application and a GPU drawing
//! backend: which driver table answers a function lookup, what the backend is
//! told about the application's device and queue, and how an image that the
//! application owns is described to the backend as a drawable surface.
//!
//! The library works on plain values. Handles and function addresses are
//! integers, with zero for null; the calls into the driver are functions that
//! the caller hands in; the drawing backend is told what the library decided
//! and its answers are handed back.

pub mod context;
pub mod driver;
pub mod resolver;
pub mod surface;
