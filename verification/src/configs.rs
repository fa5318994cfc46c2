//! What an instance is configured with, once, when it is created.
use crate::vec::IVec2;
use vstd::prelude::*;

verus! {

/// Settings of the irradiance volumes. Their presence switches the
/// volumes on.
#[derive(Clone, Copy, Debug, PartialEq, Eq, Structural)]
pub struct IrradianceVolumeConfigs {}

/// The configuration of an instance. `S` is the caller's scalar type.
#[derive(Debug)]
pub struct FereConfigs<S> {
    pub resolution: IVec2,
    pub shadow_resolution: usize,
    pub probe_resolution: usize,
    pub max_major_lights: usize,
    pub irradiance_volume: Option<IrradianceVolumeConfigs>,
    /// Number of chamber slots.
    pub max_chamber_num: usize,
    /// The spacing that the probes of a volume aim at.
    pub pv_scale: S,
}

} // verus!
