use std::sync::Arc;

use zk_epdcalc::epd::{
    BuildingDefinition, BuildingPartDefinition, BuildingPartEPD, ConstructionSiteEnergy,
    MaterialUse,
};

fn part_definition(used_material: Vec<MaterialUse>) -> BuildingPartDefinition {
    BuildingPartDefinition {
        date: "2024-10-01".to_string(),
        building: "Building 1".to_string(),
        building_part_id: "xfe13293".to_string(),
        used_material,
    }
}

fn uses(amount: u32, a13_gwp: u32) -> MaterialUse {
    MaterialUse { amount, a13_gwp }
}

fn part(gwp: u32) -> Arc<BuildingPartEPD> {
    Arc::new(BuildingPartEPD {
        date: "2024-10-01".to_string(),
        building: "Building 1".to_string(),
        building_part_id: "part".to_string(),
        a14_gwp: gwp,
    })
}

fn energy(amount: u32, gwp: u32) -> ConstructionSiteEnergy {
    ConstructionSiteEnergy { amount, gwp }
}

fn building(
    building_parts: Vec<Arc<BuildingPartEPD>>,
    site_energy: Vec<ConstructionSiteEnergy>,
) -> BuildingDefinition {
    BuildingDefinition {
        date: "2024-11-05".to_string(),
        building: "Tower".to_string(),
        building_parts,
        site_energy,
    }
}

#[test]
fn potential_of_a_part_is_the_sum_over_its_materials() {
    assert_eq!(part_definition(vec![]).a14_gwp(), Some(0));
    assert_eq!(part_definition(vec![uses(4, 12)]).a14_gwp(), Some(48));
    assert_eq!(
        part_definition(vec![uses(4, 12), uses(2, 609), uses(1, 12), uses(0, 999)]).a14_gwp(),
        Some(4 * 12 + 2 * 609 + 12)
    );
}

#[test]
fn potential_of_a_part_ends_at_32_bits() {
    assert_eq!(part_definition(vec![uses(1, u32::MAX)]).a14_gwp(), Some(u32::MAX));
    assert_eq!(part_definition(vec![uses(65535, 65537)]).a14_gwp(), Some(u32::MAX));
    assert_eq!(part_definition(vec![uses(65536, 65536)]).a14_gwp(), None);
    assert_eq!(part_definition(vec![uses(u32::MAX, u32::MAX)]).a14_gwp(), None);
    assert_eq!(part_definition(vec![uses(1, u32::MAX), uses(1, 1)]).a14_gwp(), None);
    assert_eq!(part_definition(vec![uses(1, u32::MAX), uses(1, 0), uses(0, 7)]).a14_gwp(), Some(u32::MAX));
    assert_eq!(
        part_definition(vec![uses(2, 0x8000_0000), uses(5, 5)]).a14_gwp(),
        None
    );
}

#[test]
fn building_part_is_declared_with_its_potential() {
    let declared = part_definition(vec![uses(4, 12), uses(2, 609)]).declare().unwrap();
    assert_eq!(declared.date, "2024-10-01");
    assert_eq!(declared.building, "Building 1");
    assert_eq!(declared.building_part_id, "xfe13293");
    assert_eq!(declared.a14_gwp, 1266);
    assert!(part_definition(vec![uses(65536, 65536)]).declare().is_none());
}

#[test]
fn potential_of_a_building_is_the_sum_over_parts_and_energy() {
    assert_eq!(building(vec![], vec![]).a15_gwp(), Some(0));
    assert_eq!(building(vec![part(20), part(30)], vec![]).a15_gwp(), Some(50));
    assert_eq!(building(vec![], vec![energy(5, 9), energy(7, 2)]).a15_gwp(), Some(59));
    assert_eq!(
        building(vec![part(20), part(30), part(20)], vec![energy(5, 9), energy(7, 2)]).a15_gwp(),
        Some(129)
    );
}

#[test]
fn potential_of_a_building_ends_at_32_bits() {
    assert_eq!(building(vec![part(u32::MAX)], vec![]).a15_gwp(), Some(u32::MAX));
    assert_eq!(building(vec![part(u32::MAX), part(1)], vec![]).a15_gwp(), None);
    assert_eq!(building(vec![part(u32::MAX)], vec![energy(1, 1)]).a15_gwp(), None);
    assert_eq!(building(vec![part(u32::MAX - 6)], vec![energy(2, 3)]).a15_gwp(), Some(u32::MAX));
    assert_eq!(building(vec![], vec![energy(65536, 65536)]).a15_gwp(), None);
    assert_eq!(building(vec![part(1)], vec![energy(65535, 65537)]).a15_gwp(), None);
}

#[test]
fn building_is_declared_with_its_potential() {
    let declared =
        building(vec![part(20), part(30)], vec![energy(5, 9)]).declare().unwrap();
    assert_eq!(declared.date, "2024-11-05");
    assert_eq!(declared.building, "Tower");
    assert_eq!(declared.a15_gwp, 95);
    assert!(building(vec![part(u32::MAX), part(1)], vec![]).declare().is_none());
}
