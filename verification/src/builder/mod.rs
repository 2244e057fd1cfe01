//! Step-by-step construction of a client's settings.

pub mod voyage;

pub use voyage::VoyageBuilder;
