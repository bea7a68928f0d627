//! Keplerian two-body orbit state, in two interchangeable representations.
//!
//! A `CSV` holds Cartesian position and velocity; a `KOE` holds the six
//! classical orbital elements.  Both refer to a central body `CB` that fixes
//! the gravitational parameter and an orthonormal right-handed basis.  The
//! conversion engine transforms one representation into the other, handling
//! the circular and equatorial degeneracies explicitly.
//!
//! All quantities are fixed-point: an `i128` counts billionths of the
//! physical unit (see `fx::SCALE`), so every operation is exact integer
//! arithmetic with stated truncation, and the whole library is verified.

pub mod cb;
pub mod csv;
pub mod errors;
pub mod fx;
pub mod koe;
pub mod push;
pub mod tick;
pub mod solver;
pub mod trig;
pub mod vec3;

pub use cb::CB;
pub use csv::CSV;
pub use errors::ConversionError;
pub use errors::ShapeError;
pub use errors::ValidationError;
pub use fx::FX_LIM;
pub use fx::SCALE;
pub use koe::KOE;
pub use push::Push;
pub use solver::SolverConfig;
pub use tick::Tick;
pub use vec3::Vec3Fx;
