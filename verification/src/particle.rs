//! The per-cell payload: a material identifier, a cached capability
//! flag-set, and a 16-bit packed word holding density (5 bits), viscosity
//! (4 bits) and a 3-3-2 truncated RGB color.
//!
//! The packed word is always re-derivable from the material identifier via
//! the property table, except that Fire particles carry a per-instance
//! flicker color in the color bits.

use vstd::prelude::*;
use crate::material::Material;

verus! {

/// The packed properties word: density in bits 15..11, viscosity in bits
/// 10..7, then 3 bits red, 3 bits green, 2 bits blue.
pub open spec fn pack_spec(r: u8, g: u8, b: u8, density: u8, viscosity: u8) -> u16 {
    (((density & 0x1f) as u16) << 11) | (((viscosity & 0xf) as u16) << 7) | ((((r >> 5) & 7)
        as u16) << 4) | ((((g >> 5) & 7) as u16) << 1) | (((b >> 6) & 3) as u16)
}

/// The density field of a packed properties word, in tenths.
pub open spec fn density_bits(w: u16) -> u16 {
    (w >> 11) & 0x1f
}

/// The viscosity field of a packed properties word, in tenths.
pub open spec fn visc_bits(w: u16) -> u16 {
    (w >> 7) & 0xf
}

/// The color stored in a packed properties word, re-expanded to 8-bit
/// channels (low bits zero after the 3-3-2 truncation).
pub open spec fn color_bits(w: u16) -> (u8, u8, u8) {
    ((((w >> 4) & 7) << 5) as u8, (((w >> 1) & 7) << 5) as u8, ((w & 3) << 6) as u8)
}

/// Each field of a packed word is recovered by the matching shift/mask pair.
pub proof fn lemma_pack_fields(r: u8, g: u8, b: u8, density: u8, viscosity: u8)
    by (bit_vector)
    requires
        density <= 0x1f,
        viscosity <= 0xf,
    ensures
        density_bits(pack_spec(r, g, b, density, viscosity)) == density as u16,
        visc_bits(pack_spec(r, g, b, density, viscosity)) == viscosity as u16,
{
}

/// Every field of a packed word lies within its mask.
pub proof fn lemma_bits_bounds(w: u16)
    by (bit_vector)
    ensures
        density_bits(w) <= 0x1f,
        visc_bits(w) <= 0xf,
{
}

/// The payload occupying a single grid cell.
#[derive(Clone, Copy, Debug, PartialEq, Eq, Structural)]
pub struct Particle {
    pub material_type: u8,
    pub flags: u8,
    pub properties: u16,
}

/// The particle that `Particle::new` constructs for a material: identifier,
/// flag-set and packed word all taken from the property table.
pub open spec fn spec_particle_new(m: Material) -> Particle {
    Particle {
        material_type: m.spec_id(),
        flags: m.spec_flags(),
        properties: pack_spec(
            m.spec_properties().color.0,
            m.spec_properties().color.1,
            m.spec_properties().color.2,
            m.spec_properties().density,
            m.spec_properties().viscosity,
        ),
    }
}

/// `p` recolored to the 3-3-2 truncation of `(r, g, b)`, all other fields
/// unchanged.
pub open spec fn spec_with_color(p: Particle, r: u8, g: u8, b: u8) -> Particle {
    Particle {
        material_type: p.material_type,
        flags: p.flags,
        properties: pack_spec(
            r,
            g,
            b,
            density_bits(p.properties) as u8,
            visc_bits(p.properties) as u8,
        ),
    }
}

/// A freshly stamped particle of any material is well-formed.
pub proof fn lemma_particle_new_wf(m: Material)
    ensures
        spec_particle_new(m).wf(),
{
    let p = m.spec_properties();
    lemma_pack_fields(p.color.0, p.color.1, p.color.2, p.density, p.viscosity);
}

/// Recoloring a well-formed Fire particle yields a well-formed particle.
pub proof fn lemma_with_color_wf(p: Particle, r: u8, g: u8, b: u8)
    requires
        p.wf(),
        p.material_type == 5,
    ensures
        spec_with_color(p, r, g, b).wf(),
{
    lemma_bits_bounds(p.properties);
    lemma_pack_fields(r, g, b, density_bits(p.properties) as u8, visc_bits(p.properties) as u8);
}

impl Particle {
    /// The packed word is consistent with the property table for the stored
    /// material identifier; only a Fire particle may carry color bits that
    /// differ from the table.
    pub open spec fn wf(self) -> bool {
        let m = Material::spec_from_id(self.material_type);
        &&& self.material_type <= 5
        &&& self.flags == m.spec_flags()
        &&& density_bits(self.properties) == m.spec_properties().density as u16
        &&& visc_bits(self.properties) == m.spec_properties().viscosity as u16
        &&& (m != Material::Fire ==> self == spec_particle_new(m))
    }

    /// A fresh particle of the given material, with the flag-set and packed
    /// properties word taken from the property table.
    pub fn new(material_type: Material) -> (r: Particle)
        ensures
            r == spec_particle_new(material_type),
            r.wf(),
    {
        let props = material_type.properties();
        let flags = material_type.flags();
        let r = Particle {
            material_type: material_type.id(),
            flags,
            properties: Self::pack_properties(
                props.color.0,
                props.color.1,
                props.color.2,
                props.density,
                props.viscosity,
            ),
        };
        proof {
            lemma_pack_fields(
                props.color.0,
                props.color.1,
                props.color.2,
                props.density,
                props.viscosity,
            );
        }
        r
    }

    /// Pack density (0-31) and viscosity (0-15) into the upper bits and a
    /// 3-3-2 truncated RGB color into the lower bits.
    pub fn pack_properties(r: u8, g: u8, b: u8, density: u8, viscosity: u8) -> (w: u16)
        ensures
            w == pack_spec(r, g, b, density, viscosity),
    {
        let density = (density & 0x1f) as u16;
        let viscosity = (viscosity & 0xf) as u16;
        let r = ((r >> 5) & 7) as u16;
        let g = ((g >> 5) & 7) as u16;
        let b = ((b >> 6) & 3) as u16;
        (density << 11) | (viscosity << 7) | (r << 4) | (g << 1) | b
    }

    /// The stored color, re-expanded to 8-bit channels.
    pub fn get_color(&self) -> (c: (u8, u8, u8))
        ensures
            c == color_bits(self.properties),
    {
        let r = ((self.properties >> 4) & 7) << 5;
        let g = ((self.properties >> 1) & 7) << 5;
        let b = (self.properties & 3) << 6;
        (r as u8, g as u8, b as u8)
    }

    /// The stored density, in tenths.
    pub fn get_density(&self) -> (d: u16)
        ensures
            d == density_bits(self.properties),
    {
        (self.properties >> 11) & 0x1f
    }

    /// The stored viscosity, in tenths.
    pub fn get_viscosity(&self) -> (v: u16)
        ensures
            v == visc_bits(self.properties),
    {
        (self.properties >> 7) & 0xf
    }

    /// This particle recolored to the 3-3-2 truncation of `(r, g, b)`;
    /// density and viscosity bits are kept. Recoloring a Fire particle
    /// preserves well-formedness.
    pub fn with_color(self, r: u8, g: u8, b: u8) -> (p: Particle)
        ensures
            p == spec_with_color(self, r, g, b),
            self.wf() && self.material_type == 5 ==> p.wf(),
    {
        let db = ((self.properties >> 11) & 0x1f) as u8;
        let vb = ((self.properties >> 7) & 0xf) as u8;
        let p = Particle {
            material_type: self.material_type,
            flags: self.flags,
            properties: Self::pack_properties(r, g, b, db, vb),
        };
        proof {
            let w = self.properties;
            assert(((w >> 11) & 0x1f) <= 0x1f && ((w >> 7) & 0xf) <= 0xf) by (bit_vector);
            lemma_pack_fields(r, g, b, db, vb);
        }
        p
    }
}

} // verus!
