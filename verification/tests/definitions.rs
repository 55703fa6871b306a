use std::sync::Arc;

use zk_epdcalc::dto::{
    BuildingDefinitionDto, BuildingPartDefinitionDto, BuildingPartDppDto, ConcreteMixtureDppDto,
    ConstructionSiteEnergyDto, CreateBuildingDefinitionDto, CreateBuildingPartRequestDTO,
    DefinitionError, DidMappingDto, EnergyDpp, MaterialUseDto, VerifiableCredentialDTO,
    VerifiablePresentationDTO,
};
use zk_epdcalc::epd::{
    BuildingDefinition, BuildingPartDefinition, BuildingPartEPD, ConcreteEpd,
    ConstructionSiteEnergy, MaterialUse, ZkBuildingPartEPD, ZkConcreteEpd,
};

fn mapping<T>(did: &str, subjects: Vec<T>) -> DidMappingDto<T> {
    DidMappingDto {
        did: did.to_string(),
        dpp_vp: VerifiablePresentationDTO {
            vcs: subjects
                .into_iter()
                .map(|credential_subject| VerifiableCredentialDTO { credential_subject })
                .collect(),
        },
    }
}

fn concrete(gwp: f64) -> ConcreteMixtureDppDto {
    ConcreteMixtureDppDto {
        id: "mixture".to_string(),
        epd: ZkConcreteEpd {
            epd: ConcreteEpd {
                description: "C25/30".to_string(),
                factory: "Wien".to_string(),
                a13_gwp: gwp.to_bits(),
            },
            zkp: "zkp".to_string(),
        },
        date: "2024-10-01".to_string(),
        volume: 3,
    }
}

fn uses(amount: u32, did: &str) -> MaterialUseDto {
    MaterialUseDto { amount, concrete_dpp_did: did.to_string() }
}

fn part_request(
    used_material: Vec<MaterialUseDto>,
    dpps: Vec<DidMappingDto<ConcreteMixtureDppDto>>,
) -> CreateBuildingPartRequestDTO {
    CreateBuildingPartRequestDTO {
        definition: BuildingPartDefinitionDto {
            date: "2024-10-01".to_string(),
            building: "Building 1".to_string(),
            building_part_id: "xfe13293".to_string(),
            used_material,
        },
        dpps,
    }
}

fn error_text(failure: &DefinitionError) -> String {
    failure.message()
}

#[test]
fn building_part_definition_takes_the_figures_of_the_passports() {
    let request = part_request(
        vec![uses(4, "did:b"), uses(2, "did:a"), uses(1, "did:b")],
        vec![mapping("did:a", vec![concrete(609.8)]), mapping("did:b", vec![concrete(12.0)])],
    );
    let definition = BuildingPartDefinition::try_from(request).unwrap();
    assert_eq!(definition.date, "2024-10-01");
    assert_eq!(definition.building, "Building 1");
    assert_eq!(definition.building_part_id, "xfe13293");
    assert_eq!(
        definition.used_material,
        vec![
            MaterialUse { amount: 4, a13_gwp: 12 },
            MaterialUse { amount: 2, a13_gwp: 609 },
            MaterialUse { amount: 1, a13_gwp: 12 },
        ]
    );
}

#[test]
fn building_part_without_material_is_fine() {
    let definition = BuildingPartDefinition::try_from(part_request(vec![], vec![])).unwrap();
    assert!(definition.used_material.is_empty());
    let definition = BuildingPartDefinition::try_from(part_request(
        vec![],
        vec![mapping("did:unused", Vec::<ConcreteMixtureDppDto>::new())],
    ))
    .unwrap();
    assert!(definition.used_material.is_empty());
}

#[test]
fn first_passport_under_an_identifier_counts() {
    let request = part_request(
        vec![uses(1, "did:a")],
        vec![mapping("did:a", vec![concrete(1.0)]), mapping("did:a", vec![concrete(2.0)])],
    );
    let definition = BuildingPartDefinition::try_from(request).unwrap();
    assert_eq!(definition.used_material, vec![MaterialUse { amount: 1, a13_gwp: 1 }]);
}

#[test]
fn first_credential_of_a_passport_counts() {
    let request = part_request(
        vec![uses(1, "did:a")],
        vec![mapping("did:a", vec![concrete(7.9), concrete(8.0)])],
    );
    let definition = BuildingPartDefinition::try_from(request).unwrap();
    assert_eq!(definition.used_material, vec![MaterialUse { amount: 1, a13_gwp: 7 }]);
}

#[test]
fn missing_passport_fails() {
    let request =
        part_request(vec![uses(1, "did:x")], vec![mapping("did:a", vec![concrete(1.0)])]);
    let failure = BuildingPartDefinition::try_from(request).unwrap_err();
    assert!(matches!(&failure, DefinitionError::MissingDidMapping(did) if did == "did:x"));
    assert_eq!(error_text(&failure), "Did document mapping not provided for did:x!");
}

#[test]
fn passport_without_credential_fails() {
    let request = part_request(vec![uses(1, "did:a")], vec![mapping("did:a", vec![])]);
    let failure = BuildingPartDefinition::try_from(request).unwrap_err();
    assert!(matches!(&failure, DefinitionError::MissingCredential(did) if did == "did:a"));
    assert_eq!(
        error_text(&failure),
        "Missing Verifiable Credential in Verifiable Presentation (did:a)!"
    );
}

#[test]
fn potential_out_of_range_fails() {
    for gwp in [-1.0, -5e-324, 4_294_967_295.5, 4_294_967_296.0, 1e300, f64::INFINITY, f64::NEG_INFINITY]
    {
        let request =
            part_request(vec![uses(1, "did:a")], vec![mapping("did:a", vec![concrete(gwp)])]);
        let failure = BuildingPartDefinition::try_from(request).unwrap_err();
        assert!(
            matches!(&failure, DefinitionError::GwpOutOfRange(bits) if *bits == gwp.to_bits()),
            "{gwp}"
        );
        assert_eq!(error_text(&failure), "a13_gwp out of range: ");
    }
}

#[test]
fn potential_is_cut_to_a_whole_number() {
    for (gwp, whole) in [
        (0.0, 0u32),
        (-0.0, 0),
        (0.99, 0),
        (1.0, 1),
        (609.8, 609),
        (4_294_967_295.0, u32::MAX),
        (4_294_967_294.5, 4_294_967_294),
        (f64::NAN, 0),
    ] {
        let request =
            part_request(vec![uses(9, "did:a")], vec![mapping("did:a", vec![concrete(gwp)])]);
        let definition = BuildingPartDefinition::try_from(request).unwrap();
        assert_eq!(definition.used_material, vec![MaterialUse { amount: 9, a13_gwp: whole }]);
    }
}

#[test]
fn first_failing_material_decides() {
    let request = part_request(
        vec![uses(1, "did:ok"), uses(1, "did:empty"), uses(1, "did:missing"), uses(1, "did:big")],
        vec![
            mapping("did:ok", vec![concrete(1.0)]),
            mapping("did:big", vec![concrete(1e12)]),
            mapping("did:empty", vec![]),
        ],
    );
    let failure = BuildingPartDefinition::try_from(request).unwrap_err();
    assert!(matches!(&failure, DefinitionError::MissingCredential(did) if did == "did:empty"));
    let request = part_request(
        vec![uses(1, "did:big"), uses(1, "did:missing")],
        vec![mapping("did:big", vec![concrete(1e12)])],
    );
    let failure = BuildingPartDefinition::try_from(request).unwrap_err();
    assert!(matches!(&failure, DefinitionError::GwpOutOfRange(_)));
}

#[test]
fn did_mapping_is_found_by_its_identifier() {
    let request = part_request(
        vec![],
        vec![mapping("did:a", vec![concrete(1.0)]), mapping("did:b", vec![concrete(2.0)])],
    );
    let found = request.get_did_mapping("did:b").unwrap();
    assert_eq!(found.did, "did:b");
    let credential = found.get_vc().unwrap();
    assert_eq!(f64::from_bits(credential.credential_subject.epd.epd.a13_gwp), 2.0);
    let failure = request.get_did_mapping("did:c").unwrap_err();
    assert!(matches!(failure, DefinitionError::MissingDidMapping(did) if did == "did:c"));
}

#[test]
fn credential_is_the_first_of_the_presentation() {
    let full = mapping("did:a", vec![10u32, 20, 30]);
    assert_eq!(full.get_vc().unwrap().credential_subject, 10);
    let empty: DidMappingDto<u32> = mapping("did:e", vec![]);
    let failure = empty.get_vc().unwrap_err();
    assert!(matches!(&failure, DefinitionError::MissingCredential(did) if did == "did:e"));
}

fn part_epd(id: &str, gwp: u32) -> ZkBuildingPartEPD {
    ZkBuildingPartEPD {
        epd: Arc::new(BuildingPartEPD {
            date: "2024-10-01".to_string(),
            building: "Building 1".to_string(),
            building_part_id: id.to_string(),
            a14_gwp: gwp,
        }),
        zkp: "zkp".to_string(),
    }
}

fn names_part(did: &str) -> BuildingPartDppDto {
    BuildingPartDppDto { building_part_dpp_did: did.to_string() }
}

fn names_energy(amount: u32, did: &str) -> ConstructionSiteEnergyDto {
    ConstructionSiteEnergyDto { amount, dpp_did: did.to_string() }
}

fn building_request(
    parts: Vec<BuildingPartDppDto>,
    energy: Vec<ConstructionSiteEnergyDto>,
    part_dpps: Vec<DidMappingDto<ZkBuildingPartEPD>>,
    energy_dpps: Vec<DidMappingDto<EnergyDpp>>,
) -> CreateBuildingDefinitionDto {
    CreateBuildingDefinitionDto {
        definition: BuildingDefinitionDto {
            date: "2024-11-05".to_string(),
            building: "Tower".to_string(),
            building_part_dids: parts,
            site_energy_dids: energy,
        },
        building_part_dpps: part_dpps,
        site_energy_dpps: energy_dpps,
    }
}

#[test]
fn building_definition_takes_the_figures_of_the_passports() {
    let request = building_request(
        vec![names_part("did:wall"), names_part("did:roof"), names_part("did:wall")],
        vec![names_energy(5, "did:diesel"), names_energy(7, "did:power")],
        vec![mapping("did:roof", vec![part_epd("roof", 30)]), mapping("did:wall", vec![part_epd("wall", 20)])],
        vec![mapping("did:power", vec![EnergyDpp { gwp: 2 }]), mapping("did:diesel", vec![EnergyDpp { gwp: 9 }])],
    );
    let definition = BuildingDefinition::try_from(request).unwrap();
    assert_eq!(definition.date, "2024-11-05");
    assert_eq!(definition.building, "Tower");
    let parts: Vec<(&str, u32)> = definition
        .building_parts
        .iter()
        .map(|part| (part.building_part_id.as_str(), part.a14_gwp))
        .collect();
    assert_eq!(parts, vec![("wall", 20), ("roof", 30), ("wall", 20)]);
    assert_eq!(
        definition.site_energy,
        vec![
            ConstructionSiteEnergy { amount: 5, gwp: 9 },
            ConstructionSiteEnergy { amount: 7, gwp: 2 },
        ]
    );
}

#[test]
fn building_parts_share_the_declaration_of_the_passport() {
    let wall = part_epd("wall", 20);
    let declared = Arc::clone(&wall.epd);
    let request = building_request(
        vec![names_part("did:wall"), names_part("did:wall")],
        vec![],
        vec![mapping("did:wall", vec![wall])],
        vec![],
    );
    let definition = BuildingDefinition::try_from(request).unwrap();
    assert_eq!(definition.building_parts.len(), 2);
    assert!(Arc::ptr_eq(&definition.building_parts[0], &declared));
    assert!(Arc::ptr_eq(&definition.building_parts[1], &declared));
}

#[test]
fn last_passport_under_an_identifier_counts_for_a_building() {
    let request = building_request(
        vec![names_part("did:wall")],
        vec![names_energy(1, "did:power")],
        vec![
            mapping("did:wall", vec![part_epd("old wall", 1)]),
            mapping("did:wall", vec![part_epd("new wall", 2), part_epd("spare", 3)]),
        ],
        vec![mapping("did:power", vec![EnergyDpp { gwp: 4 }]), mapping("did:power", vec![EnergyDpp { gwp: 5 }])],
    );
    let definition = BuildingDefinition::try_from(request).unwrap();
    assert_eq!(definition.building_parts[0].building_part_id, "new wall");
    assert_eq!(definition.site_energy, vec![ConstructionSiteEnergy { amount: 1, gwp: 5 }]);
}

#[test]
fn empty_building_is_fine() {
    let definition =
        BuildingDefinition::try_from(building_request(vec![], vec![], vec![], vec![])).unwrap();
    assert!(definition.building_parts.is_empty());
    assert!(definition.site_energy.is_empty());
}

#[test]
fn every_passport_of_a_building_needs_a_credential() {
    // The passport is not even named by the request.
    let request = building_request(
        vec![],
        vec![],
        vec![mapping("did:wall", vec![part_epd("wall", 1)]), mapping("did:idle", vec![])],
        vec![],
    );
    let failure = BuildingDefinition::try_from(request).unwrap_err();
    assert!(matches!(&failure, DefinitionError::MissingCredential(did) if did == "did:idle"));
    let request =
        building_request(vec![], vec![], vec![], vec![mapping("did:power", vec![])]);
    let failure = BuildingDefinition::try_from(request).unwrap_err();
    assert!(matches!(&failure, DefinitionError::MissingCredential(did) if did == "did:power"));
}

#[test]
fn unknown_building_part_fails() {
    let request = building_request(
        vec![names_part("did:wall"), names_part("did:door")],
        vec![],
        vec![mapping("did:wall", vec![part_epd("wall", 1)])],
        vec![],
    );
    let failure = BuildingDefinition::try_from(request).unwrap_err();
    assert!(matches!(&failure, DefinitionError::NoBuildingPartDpp(did) if did == "did:door"));
    assert_eq!(error_text(&failure), "No Dpp found for building part did:door");
}

#[test]
fn unknown_site_energy_fails() {
    let request = building_request(
        vec![],
        vec![names_energy(3, "did:wind")],
        vec![],
        vec![mapping("did:power", vec![EnergyDpp { gwp: 4 }])],
    );
    let failure = BuildingDefinition::try_from(request).unwrap_err();
    assert!(matches!(&failure, DefinitionError::NoSiteEnergyDpp(did) if did == "did:wind"));
    assert_eq!(error_text(&failure), "No Dpp found for SiteEnergy did:wind");
}

#[test]
fn failures_of_a_building_come_in_order() {
    // A part passport without credential comes before an unknown part.
    let request = building_request(
        vec![names_part("did:door")],
        vec![names_energy(3, "did:wind")],
        vec![mapping("did:wall", vec![])],
        vec![mapping("did:power", vec![])],
    );
    let failure = BuildingDefinition::try_from(request).unwrap_err();
    assert!(matches!(&failure, DefinitionError::MissingCredential(did) if did == "did:wall"));
    // An unknown part comes before an energy passport without credential.
    let request = building_request(
        vec![names_part("did:door")],
        vec![names_energy(3, "did:wind")],
        vec![mapping("did:wall", vec![part_epd("wall", 1)])],
        vec![mapping("did:power", vec![])],
    );
    let failure = BuildingDefinition::try_from(request).unwrap_err();
    assert!(matches!(&failure, DefinitionError::NoBuildingPartDpp(did) if did == "did:door"));
    // An energy passport without credential comes before an unknown energy.
    let request = building_request(
        vec![names_part("did:wall")],
        vec![names_energy(3, "did:wind")],
        vec![mapping("did:wall", vec![part_epd("wall", 1)])],
        vec![mapping("did:power", vec![])],
    );
    let failure = BuildingDefinition::try_from(request).unwrap_err();
    assert!(matches!(&failure, DefinitionError::MissingCredential(did) if did == "did:power"));
}
