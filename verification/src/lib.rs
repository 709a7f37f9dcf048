//! A timekeeping core for a real-time application loop.
//!
//! A single external timestamp sample per tick is fanned out into four
//! coherent time tracks: raw wall time, a pausable and scalable virtual
//! time, a fixed-period time for deterministic stepping, and a "current"
//! snapshot of whichever track is active. Elapsed totals also carry a
//! wrapped (modulo) view so that long runs keep a bounded magnitude.
//!
//! All quantities are plain nanosecond counts and exact rational rate
//! factors; sampling a wall clock and any floating-point views of these
//! values are left to the host application.

pub mod clock;
pub mod laws;
pub mod time;
pub mod units;

pub use clock::Clock;
pub use time::Time;

pub use units::Duration;
pub use units::Instant;
pub use units::Speed;
pub use units::NANOS_PER_SEC;
