//! How one draw call writes and lights its fragments.
use vstd::prelude::*;

verus! {

/// The lighting model of a draw call.
#[derive(Debug, PartialEq, Eq, Clone, Copy, Structural)]
pub enum Lighting {
    /// No lighting.
    Unlit,
    /// Deferred, fully lit.
    DefFull,
    /// Deferred, fixed colour.
    DefFixed,
    /// Deferred, rough.
    DefRough,
    /// Deferred, fully lit but without global illumination.
    DefFullButNoGi,
    /// Forward, major lights.
    ForMajor,
    /// Forward, fixed colour.
    ForFixed,
    /// Forward, rough.
    ForRough,
}

impl Lighting {
    /// The number by which the shaders know the model.
    pub open spec fn spec_code(self) -> int {
        match self {
            Lighting::Unlit => 0,
            Lighting::DefFull => 1,
            Lighting::DefFixed => 2,
            Lighting::DefRough => 3,
            Lighting::DefFullButNoGi => 4,
            Lighting::ForMajor => 11,
            Lighting::ForFixed => 12,
            Lighting::ForRough => 13,
        }
    }

    /// The number by which the shaders know the model.
    pub fn code(self) -> (r: i32)
        ensures
            r == self.spec_code(),
    {
        match self {
            Lighting::Unlit => 0,
            Lighting::DefFull => 1,
            Lighting::DefFixed => 2,
            Lighting::DefRough => 3,
            Lighting::DefFullButNoGi => 4,
            Lighting::ForMajor => 11,
            Lighting::ForFixed => 12,
            Lighting::ForRough => 13,
        }
    }
}

/// What a draw call writes: colour, depth, an object id and a lighting
/// model. An absent id or lighting model masks that output.
#[derive(Debug, PartialEq, Eq, Clone, Copy, Structural)]
pub struct RenderUnit {
    pub color: bool,
    pub depth: bool,
    pub depth_test: bool,
    pub id: Option<u32>,
    pub lighting: Option<Lighting>,
}

impl RenderUnit {
    /// The unit of the geometry pass: colour and depth written, depth
    /// tested, no id, the given lighting model.
    pub open spec fn geometry(lighting: Lighting) -> RenderUnit {
        RenderUnit {
            color: true,
            depth: true,
            depth_test: true,
            id: None,
            lighting: Some(lighting),
        }
    }

    /// The unit of the geometry pass with the given lighting model.
    pub fn for_geometry(lighting: Lighting) -> (r: RenderUnit)
        ensures
            r == RenderUnit::geometry(lighting),
    {
        RenderUnit { color: true, depth: true, depth_test: true, id: None, lighting: Some(lighting) }
    }
}

} // verus!
