//! The closed set of materials and their immutable physical properties.
//!
//! Densities and viscosities are stored in tenths (a density of 16 stands
//! for 1.6), so that all behavior arithmetic stays in integers.

use vstd::prelude::*;

verus! {

/// A substance that a grid cell can hold.
#[derive(Clone, Copy, Debug, PartialEq, Eq, Structural)]
pub enum Material {
    Empty,
    Sand,
    Water,
    Concrete,
    Smoke,
    Fire,
}

/// Numeric identifier of `Material::Empty`.
pub const EMPTY_ID: u8 = 0;
/// Numeric identifier of `Material::Sand`.
pub const SAND_ID: u8 = 1;
/// Numeric identifier of `Material::Water`.
pub const WATER_ID: u8 = 2;
/// Numeric identifier of `Material::Concrete`.
pub const CONCRETE_ID: u8 = 3;
/// Numeric identifier of `Material::Smoke`.
pub const SMOKE_ID: u8 = 4;
/// Numeric identifier of `Material::Fire`.
pub const FIRE_ID: u8 = 5;

/// Capability flag: the material can be moved at all.
pub const FLAG_MOVABLE: u8 = 1;
/// Capability flag: the material slides sideways when blocked.
pub const FLAG_FLOWS: u8 = 2;
/// Capability flag: the material moves up instead of down.
pub const FLAG_RISES: u8 = 4;
/// Capability flag: the material is subject to probabilistic removal.
pub const FLAG_DISPERSES: u8 = 8;

/// The immutable per-material property record: RGB color, density in
/// tenths (higher sinks through lower), and viscosity in tenths
/// (0 flows freely, 10 does not flow).
#[derive(Clone, Copy, Debug)]
pub struct MaterialProperties {
    pub color: (u8, u8, u8),
    pub density: u8,
    pub viscosity: u8,
}

impl Material {
    /// The numeric identifier of this material.
    pub open spec fn spec_id(self) -> u8 {
        match self {
            Material::Empty => 0,
            Material::Sand => 1,
            Material::Water => 2,
            Material::Concrete => 3,
            Material::Smoke => 4,
            Material::Fire => 5,
        }
    }

    /// The numeric identifier of this material.
    #[verifier::when_used_as_spec(spec_id)]
    pub fn id(self) -> (r: u8)
        ensures
            r == self.spec_id(),
    {
        match self {
            Material::Empty => 0,
            Material::Sand => 1,
            Material::Water => 2,
            Material::Concrete => 3,
            Material::Smoke => 4,
            Material::Fire => 5,
        }
    }

    /// The material a numeric identifier stands for; unknown identifiers
    /// fall back to `Empty`.
    pub open spec fn spec_from_id(id: u8) -> Material {
        if id == 1 {
            Material::Sand
        } else if id == 2 {
            Material::Water
        } else if id == 3 {
            Material::Concrete
        } else if id == 4 {
            Material::Smoke
        } else if id == 5 {
            Material::Fire
        } else {
            Material::Empty
        }
    }

    /// The material a numeric identifier stands for; unknown identifiers
    /// fall back to `Empty`.
    #[verifier::when_used_as_spec(spec_from_id)]
    pub fn from_id(id: u8) -> (r: Material)
        ensures
            r == Material::spec_from_id(id),
    {
        match id {
            1 => Material::Sand,
            2 => Material::Water,
            3 => Material::Concrete,
            4 => Material::Smoke,
            5 => Material::Fire,
            _ => Material::Empty,
        }
    }

    /// The property record of this material.
    pub open spec fn spec_properties(&self) -> MaterialProperties {
        match self {
            Material::Empty => MaterialProperties { color: (0, 0, 0), density: 0, viscosity: 0 },
            Material::Sand => MaterialProperties {
                color: (194, 178, 128),
                density: 16,
                viscosity: 9,
            },
            Material::Water => MaterialProperties {
                color: (0, 119, 190),
                density: 10,
                viscosity: 1,
            },
            Material::Concrete => MaterialProperties {
                color: (128, 128, 128),
                density: 24,
                viscosity: 10,
            },
            Material::Smoke => MaterialProperties {
                color: (200, 200, 200),
                density: 1,
                viscosity: 1,
            },
            Material::Fire => MaterialProperties {
                color: (255, 100, 0),
                density: 1,
                viscosity: 2,
            },
        }
    }

    /// The property record of this material: a total function over the
    /// six-variant enumeration, with no error path.
    #[verifier::when_used_as_spec(spec_properties)]
    pub fn properties(&self) -> (r: MaterialProperties)
        ensures
            r == self.spec_properties(),
    {
        match self {
            Material::Empty => MaterialProperties { color: (0, 0, 0), density: 0, viscosity: 0 },
            Material::Sand => MaterialProperties {
                color: (194, 178, 128),
                density: 16,
                viscosity: 9,
            },
            Material::Water => MaterialProperties {
                color: (0, 119, 190),
                density: 10,
                viscosity: 1,
            },
            Material::Concrete => MaterialProperties {
                color: (128, 128, 128),
                density: 24,
                viscosity: 10,
            },
            Material::Smoke => MaterialProperties {
                color: (200, 200, 200),
                density: 1,
                viscosity: 1,
            },
            Material::Fire => MaterialProperties {
                color: (255, 100, 0),
                density: 1,
                viscosity: 2,
            },
        }
    }

    /// The capability flag-set of this material.
    pub open spec fn spec_flags(self) -> u8 {
        match self {
            Material::Empty => 0,
            Material::Sand => 1,  // MOVABLE
            Material::Water => 3,  // MOVABLE | FLOWS
            Material::Concrete => 0,
            Material::Smoke => 15,  // MOVABLE | FLOWS | RISES | DISPERSES
            Material::Fire => 13,  // MOVABLE | RISES | DISPERSES
        }
    }

    /// The capability flag-set of this material.
    #[verifier::when_used_as_spec(spec_flags)]
    pub fn flags(self) -> (r: u8)
        ensures
            r == self.spec_flags(),
    {
        match self {
            Material::Empty => 0,
            Material::Sand => 1,
            Material::Water => 3,
            Material::Concrete => 0,
            Material::Smoke => 15,
            Material::Fire => 13,
        }
    }

    /// The RGB color of this material, as the property table gives it.
    pub fn color(&self) -> (r: (u8, u8, u8))
        ensures
            r == self.spec_properties().color,
    {
        self.properties().color
    }
}

} // verus!
