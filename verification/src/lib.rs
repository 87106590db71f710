//! Time as a capability: clocks that can be read, a test clock that can be
//! advanced through a shared handle, and a repository that stamps what it
//! stores with the reading of its clock.

pub mod clock;
pub mod controllable;
pub mod report;
pub mod repository;
pub mod time;
