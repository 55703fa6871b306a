use zk_epdcalc::epd::{BuildingPartEPD, VerifiedEpd, ZkBuildingPartEPD};
use zk_epdcalc::proving::{proof_mode, ProofConfig, ProofMode};
use zk_epdcalc::requests::{
    new_config_factory, snark_requested, ConfigFactoryMap, RequestRejection,
};
use zk_epdcalc::text::same_text;

const PART_ELF: [u8; 4] = [0x7f, b'E', b'L', b'F'];
const PART_ID: [u32; 8] = [1, 2, 3, 4, 5, 6, 7, 8];

fn registry() -> ConfigFactoryMap<u32> {
    ConfigFactoryMap::new(vec![("Concrete", 1), ("BuildingPart", 2), ("Building", 3)])
}

#[test]
fn registered_programs_are_found() {
    let registry = registry();
    assert_eq!(registry.get("Concrete").ok(), Some(&1));
    assert_eq!(registry.get("BuildingPart").ok(), Some(&2));
    assert_eq!(registry.get("Building").ok(), Some(&3));
}

#[test]
fn unknown_program_is_rejected_by_name() {
    let registry = registry();
    match registry.get("Bogus") {
        Err(RequestRejection::UnknownZkType(name)) => {
            assert_eq!(name, "Bogus");
            let rejection = RequestRejection::UnknownZkType(name);
            assert_eq!(rejection.status_code(), Some(400));
            assert_eq!(rejection.message(), "Unknown value for zktype: Bogus");
        }
        _ => panic!("an unregistered program is rejected"),
    }
    assert!(matches!(registry.get("concrete"), Err(RequestRejection::UnknownZkType(_))));
    assert!(matches!(registry.get(""), Err(RequestRejection::UnknownZkType(_))));
    assert!(matches!(registry.get("Building "), Err(RequestRejection::UnknownZkType(_))));
    let nothing: ConfigFactoryMap<u32> = ConfigFactoryMap::new(Vec::new());
    assert!(matches!(nothing.get("Concrete"), Err(RequestRejection::UnknownZkType(_))));
}

#[test]
fn later_registration_wins() {
    let registry = ConfigFactoryMap::new(vec![("A", 1), ("B", 2), ("A", 3)]);
    assert_eq!(registry.get("A").ok(), Some(&3));
    assert_eq!(registry.get("B").ok(), Some(&2));
}

#[test]
fn small_proof_only_when_asked_for() {
    assert!(snark_requested(Some(true)));
    assert!(!snark_requested(Some(false)));
    assert!(!snark_requested(None));
}

#[test]
fn factory_builds_jobs_and_claims() {
    let factory = new_config_factory::<String, BuildingPartEPD, ZkBuildingPartEPD>(
        &PART_ELF, &PART_ID,
    );
    let job = factory.build_proof_config("input".to_string(), true);
    assert_eq!(job.get_input(), "input");
    assert!(job.snark_p());
    assert_eq!(job.guest_elf(), &PART_ELF);
    assert_eq!(proof_mode(&job), ProofMode::Groth16);
    let job = factory.build_proof_config("other".to_string(), false);
    assert!(!job.snark_p());
    assert_eq!(proof_mode(&job), ProofMode::Default);

    let epd = BuildingPartEPD {
        date: "d".into(),
        building: "b".into(),
        building_part_id: "p".into(),
        a14_gwp: 3,
    };
    let claim = factory.build_verify_config(ZkBuildingPartEPD::from_result(epd.clone(), "zkp".into()));
    assert_eq!(claim.guest_id(), &PART_ID);
    assert_eq!(claim.zk_epd().get_zkp(), "zkp");
    assert_eq!(*claim.zk_epd().get_epd(), epd);
}

#[test]
fn texts_are_compared_by_their_characters() {
    assert!(same_text("", ""));
    assert!(same_text("did:web:a", "did:web:a"));
    assert!(!same_text("did:web:a", "did:web:b"));
    assert!(!same_text("did:web:a", "did:web:"));
    assert!(!same_text("a", ""));
    assert!(same_text("Gebäude", "Gebäude"));
    assert!(!same_text("Gebäude", "Gebaude"));
}
