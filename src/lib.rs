//! Verified core of a small WiFi TCP server for a single-core microcontroller:
//! the statically partitioned buffer arena, the per-connection worker, the
//! WiFi link supervisor, the startup sequence, the sensor publisher and the
//! latest-value sample channel it publishes into. Each task's decisions are a
//! state machine here; the firmware performs the I/O they ask for.
use vstd::prelude::*;

pub mod arena;
pub mod channel;
pub mod sensor;
pub mod startup;
pub mod supervisor;
pub mod worker;

verus! {

} // verus!
