//! A shared countdown of remaining occupancy time, in milliseconds, that
//! HTTP requests extend by whole hours and a periodic tick decays, together
//! with the status text that the decay loop publishes.

pub mod counter;
pub mod status;
pub mod timer;
pub mod laws;
