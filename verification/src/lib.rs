//! The verified core of a deferred renderer with irradiance probes: grid
//! arithmetic, the probe atlas, the probe cursor and the frame protocol.
pub mod vec;
pub mod probe_volume;
pub mod geo;
pub mod ori;
pub mod chamber;
pub mod render_unit;
pub mod ops;
pub mod frame;
pub mod log;
pub mod renderer;
pub mod configs;
pub mod fere;
