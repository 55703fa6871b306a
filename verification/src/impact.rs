//! What the proof programs compute: the global warming potential of a building
//! part from its materials, and that of a building from its parts and the energy
//! used on its site.
//!
//! A potential is a whole number of 32 bits. Where the figures of a definition come
//! to more, there is no declaration.

use std::sync::Arc;

use vstd::prelude::*;

use crate::epd::{
    BuildingDefinition, BuildingEpd, BuildingEpdView, BuildingPartDefinition, BuildingPartEPD,
    BuildingPartEpdView, ConstructionSiteEnergy, MaterialUse,
};

verus! {

/// The sum of the terms.
pub open spec fn sum_of(terms: Seq<nat>) -> nat
    decreases terms.len(),
{
    if terms.len() == 0 {
        0
    } else {
        sum_of(terms.drop_last()) + terms.last()
    }
}

/// The potential of each material: that of one unit, times the amount.
pub open spec fn material_terms(used: Seq<MaterialUse>) -> Seq<nat> {
    Seq::new(used.len(), |i: int| (used[i].a13_gwp * used[i].amount) as nat)
}

/// The potential of each building part.
pub open spec fn part_terms(parts: Seq<Arc<BuildingPartEPD>>) -> Seq<nat> {
    Seq::new(parts.len(), |i: int| parts[i].a14_gwp as nat)
}

/// The potential of each energy used on the site: that of one unit, times the
/// amount.
pub open spec fn energy_terms(site: Seq<ConstructionSiteEnergy>) -> Seq<nat> {
    Seq::new(site.len(), |i: int| (site[i].gwp * site[i].amount) as nat)
}

/// The potential of a building part over the stages A1 to A4: the sum over its
/// materials.
pub open spec fn building_part_gwp(used: Seq<MaterialUse>) -> nat {
    sum_of(material_terms(used))
}

/// The potential of a building over the stages A1 to A5: the sum over its parts
/// and over the energy used on its site.
pub open spec fn building_gwp(
    parts: Seq<Arc<BuildingPartEPD>>,
    site: Seq<ConstructionSiteEnergy>,
) -> nat {
    sum_of(part_terms(parts)) + sum_of(energy_terms(site))
}

/// The sum of the first terms is no more than the sum of all.
proof fn lemma_sum_grows(terms: Seq<nat>, upto: int)
    requires
        0 <= upto <= terms.len(),
    ensures
        sum_of(terms.subrange(0, upto)) <= sum_of(terms),
    decreases terms.len() - upto,
{
    if upto == terms.len() {
        assert(terms.subrange(0, upto) =~= terms);
    } else {
        assert(terms.subrange(0, upto + 1).drop_last() =~= terms.subrange(0, upto));
        lemma_sum_grows(terms, upto + 1);
    }
}

/// Adds the product of two figures to a sum, where the result is a potential.
fn add_product(sum: u32, unit: u32, amount: u32) -> (total: Option<u32>)
    ensures
        total == if sum + unit * amount <= u32::MAX {
            Some((sum + unit * amount) as u32)
        } else {
            None
        },
{
    assert(unit * amount <= 0xffff_ffff * 0xffff_ffff) by (nonlinear_arith)
        requires
            0 <= unit <= 0xffff_ffff,
            0 <= amount <= 0xffff_ffff,
    ;
    let product: u64 = unit as u64 * amount as u64;
    let total: u64 = sum as u64 + product;
    if total > 0xffff_ffff {
        None
    } else {
        Some(total as u32)
    }
}

/// The sum of the potentials of the materials; `None` where it is no potential.
fn sum_materials(used: &Vec<MaterialUse>) -> (total: Option<u32>)
    ensures
        total == if building_part_gwp(used@) <= u32::MAX {
            Some(building_part_gwp(used@) as u32)
        } else {
            None
        },
{
    let ghost terms = material_terms(used@);
    let mut sum: u32 = 0;
    let mut at: usize = 0;
    while at < used.len()
        invariant
            at <= used.len(),
            terms == material_terms(used@),
            sum == sum_of(terms.subrange(0, at as int)),
        decreases used.len() - at,
    {
        assert(terms.subrange(0, at + 1).drop_last() =~= terms.subrange(0, at as int));
        assert(terms.subrange(0, at + 1).last() == terms[at as int]);
        match add_product(sum, used[at].a13_gwp, used[at].amount) {
            None => {
                proof {
                    lemma_sum_grows(terms, at + 1);
                }
                return None;
            },
            Some(more) => {
                sum = more;
            },
        }
        at = at + 1;
    }
    assert(terms.subrange(0, at as int) =~= terms);
    Some(sum)
}

/// The sum of the potentials of the parts; `None` where it is no potential.
fn sum_parts(parts: &Vec<Arc<BuildingPartEPD>>) -> (total: Option<u32>)
    ensures
        total == if sum_of(part_terms(parts@)) <= u32::MAX {
            Some(sum_of(part_terms(parts@)) as u32)
        } else {
            None
        },
{
    let ghost terms = part_terms(parts@);
    let mut sum: u32 = 0;
    let mut at: usize = 0;
    while at < parts.len()
        invariant
            at <= parts.len(),
            terms == part_terms(parts@),
            sum == sum_of(terms.subrange(0, at as int)),
        decreases parts.len() - at,
    {
        assert(terms.subrange(0, at + 1).drop_last() =~= terms.subrange(0, at as int));
        assert(terms.subrange(0, at + 1).last() == terms[at as int]);
        let part: &BuildingPartEPD = &*parts[at];
        match add_product(sum, part.a14_gwp, 1) {
            None => {
                proof {
                    lemma_sum_grows(terms, at + 1);
                }
                return None;
            },
            Some(more) => {
                sum = more;
            },
        }
        at = at + 1;
    }
    assert(terms.subrange(0, at as int) =~= terms);
    Some(sum)
}

/// The sum of the potentials of the energy; `None` where it is no potential.
fn sum_energy(site: &Vec<ConstructionSiteEnergy>) -> (total: Option<u32>)
    ensures
        total == if sum_of(energy_terms(site@)) <= u32::MAX {
            Some(sum_of(energy_terms(site@)) as u32)
        } else {
            None
        },
{
    let ghost terms = energy_terms(site@);
    let mut sum: u32 = 0;
    let mut at: usize = 0;
    while at < site.len()
        invariant
            at <= site.len(),
            terms == energy_terms(site@),
            sum == sum_of(terms.subrange(0, at as int)),
        decreases site.len() - at,
    {
        assert(terms.subrange(0, at + 1).drop_last() =~= terms.subrange(0, at as int));
        assert(terms.subrange(0, at + 1).last() == terms[at as int]);
        match add_product(sum, site[at].gwp, site[at].amount) {
            None => {
                proof {
                    lemma_sum_grows(terms, at + 1);
                }
                return None;
            },
            Some(more) => {
                sum = more;
            },
        }
        at = at + 1;
    }
    assert(terms.subrange(0, at as int) =~= terms);
    Some(sum)
}

impl BuildingPartDefinition {
    /// The potential of the part; `None` where the figures come to more than a
    /// potential holds.
    pub fn a14_gwp(&self) -> (total: Option<u32>)
        ensures
            total == if building_part_gwp(self.used_material@) <= u32::MAX {
                Some(building_part_gwp(self.used_material@) as u32)
            } else {
                None
            },
    {
        sum_materials(&self.used_material)
    }

    /// What the building-part program declares of the definition: its date, its
    /// building, its part, and its potential; `None` where the figures come to more
    /// than a potential holds.
    pub fn declare(self) -> (declared: Option<BuildingPartEPD>)
        ensures
            match declared {
                Some(epd) => building_part_gwp(self.used_material@) <= u32::MAX && epd@ == (
                BuildingPartEpdView {
                    date: self.date@,
                    building: self.building@,
                    building_part_id: self.building_part_id@,
                    a14_gwp: building_part_gwp(self.used_material@) as u32,
                }),
                None => building_part_gwp(self.used_material@) > u32::MAX,
            },
    {
        match self.a14_gwp() {
            None => None,
            Some(a14_gwp) => Some(
                BuildingPartEPD {
                    date: self.date,
                    building: self.building,
                    building_part_id: self.building_part_id,
                    a14_gwp,
                },
            ),
        }
    }
}

impl BuildingDefinition {
    /// The potential of the building; `None` where the figures come to more than a
    /// potential holds.
    pub fn a15_gwp(&self) -> (total: Option<u32>)
        ensures
            total == if building_gwp(self.building_parts@, self.site_energy@) <= u32::MAX {
                Some(building_gwp(self.building_parts@, self.site_energy@) as u32)
            } else {
                None
            },
    {
        match sum_parts(&self.building_parts) {
            None => None,
            Some(a14_gwp) => match sum_energy(&self.site_energy) {
                None => None,
                Some(a5_gwp) => add_product(a14_gwp, a5_gwp, 1),
            },
        }
    }

    /// What the building program declares of the definition: its date, its
    /// building, and its potential; `None` where the figures come to more than a
    /// potential holds.
    pub fn declare(self) -> (declared: Option<BuildingEpd>)
        ensures
            match declared {
                Some(epd) => building_gwp(self.building_parts@, self.site_energy@) <= u32::MAX
                    && epd@ == (BuildingEpdView {
                    date: self.date@,
                    building: self.building@,
                    a15_gwp: building_gwp(self.building_parts@, self.site_energy@) as u32,
                }),
                None => building_gwp(self.building_parts@, self.site_energy@) > u32::MAX,
            },
    {
        match self.a15_gwp() {
            None => None,
            Some(a15_gwp) => Some(
                BuildingEpd { date: self.date, building: self.building, a15_gwp },
            ),
        }
    }
}

} // verus!
