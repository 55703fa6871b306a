//! Requests as they arrive, and what the proof programs take in.
//!
//! A request names the product passports that it builds on by their identifiers
//! (DIDs) and brings the passports along, each as a presentation of credentials.
//! The definition that a proof program takes in holds the figures themselves.

use std::sync::Arc;

use vstd::prelude::*;
use vstd::string::*;

use crate::binary64::{to_u32, whole_part, within_u32};
use crate::epd::{
    share, BuildingDefinition, BuildingDefinitionView, BuildingPartDefinition,
    BuildingPartDefinitionView, BuildingPartEPD, BuildingPartEpdView, ConstructionSiteEnergy,
    MaterialUse, ZkBuildingPartEPD, ZkConcreteEpd,
};
use crate::text::same_text;

verus! {

/// Why a request does not give a definition.
#[derive(Debug)]
pub enum DefinitionError {
    /// No passport was brought along for this identifier.
    MissingDidMapping(String),
    /// The presentation brought along for this identifier holds no credential.
    MissingCredential(String),
    /// The potential of a passport is greater than 4294967295 or less than zero;
    /// the payload is the bits of the number found.
    GwpOutOfRange(u64),
    /// No passport was brought along for this building part.
    NoBuildingPartDpp(String),
    /// No passport was brought along for this site energy.
    NoSiteEnergyDpp(String),
}

/// A [`DefinitionError`] with its text as a sequence of characters.
pub enum DefinitionErrorView {
    MissingDidMapping(Seq<char>),
    MissingCredential(Seq<char>),
    GwpOutOfRange(u64),
    NoBuildingPartDpp(Seq<char>),
    NoSiteEnergyDpp(Seq<char>),
}

impl View for DefinitionError {
    type V = DefinitionErrorView;

    open spec fn view(&self) -> DefinitionErrorView {
        match self {
            DefinitionError::MissingDidMapping(did) => DefinitionErrorView::MissingDidMapping(did@),
            DefinitionError::MissingCredential(did) => DefinitionErrorView::MissingCredential(did@),
            DefinitionError::GwpOutOfRange(bits) => DefinitionErrorView::GwpOutOfRange(*bits),
            DefinitionError::NoBuildingPartDpp(did) => DefinitionErrorView::NoBuildingPartDpp(did@),
            DefinitionError::NoSiteEnergyDpp(did) => DefinitionErrorView::NoSiteEnergyDpp(did@),
        }
    }
}

impl DefinitionErrorView {
    /// The text shown for this failure. For a potential out of range the text ends
    /// where the number is to follow.
    pub open spec fn message(self) -> Seq<char> {
        match self {
            DefinitionErrorView::MissingDidMapping(did) => "Did document mapping not provided for "@
                + did + "!"@,
            DefinitionErrorView::MissingCredential(did) => "Missing Verifiable Credential in Verifiable Presentation ("@
                + did + ")!"@,
            DefinitionErrorView::GwpOutOfRange(_) => "a13_gwp out of range: "@,
            DefinitionErrorView::NoBuildingPartDpp(did) => "No Dpp found for building part "@ + did,
            DefinitionErrorView::NoSiteEnergyDpp(did) => "No Dpp found for SiteEnergy "@ + did,
        }
    }
}

impl DefinitionError {
    /// The text shown for this failure. For a potential out of range the text ends
    /// where the number is to follow.
    pub fn message(&self) -> (text: String)
        ensures
            text@ == self@.message(),
    {
        match self {
            DefinitionError::MissingDidMapping(did) => {
                String::from_str("Did document mapping not provided for ").concat(
                    did.as_str(),
                ).concat("!")
            },
            DefinitionError::MissingCredential(did) => {
                String::from_str(
                    "Missing Verifiable Credential in Verifiable Presentation (",
                ).concat(did.as_str()).concat(")!")
            },
            DefinitionError::GwpOutOfRange(_) => String::from_str("a13_gwp out of range: "),
            DefinitionError::NoBuildingPartDpp(did) => {
                String::from_str("No Dpp found for building part ").concat(did.as_str())
            },
            DefinitionError::NoSiteEnergyDpp(did) => {
                String::from_str("No Dpp found for SiteEnergy ").concat(did.as_str())
            },
        }
    }
}

/// A credential: a statement about its subject.
#[derive(Debug)]
pub struct VerifiableCredentialDTO<Subject> {
    pub credential_subject: Subject,
}

/// A presentation: the credentials that a holder shows.
#[derive(Debug)]
pub struct VerifiablePresentationDTO<Subject> {
    pub vcs: Vec<VerifiableCredentialDTO<Subject>>,
}

/// A passport brought along with a request: its identifier and its presentation.
#[derive(Debug)]
pub struct DidMappingDto<T> {
    pub did: String,
    pub dpp_vp: VerifiablePresentationDTO<T>,
}

/// The credential that counts of a passport, the first of its presentation; the
/// failure that names the passport where the presentation is empty.
pub open spec fn credential_of<T>(mapping: DidMappingDto<T>) -> Result<
    VerifiableCredentialDTO<T>,
    DefinitionErrorView,
> {
    if mapping.dpp_vp.vcs@.len() > 0 {
        Ok(mapping.dpp_vp.vcs@[0])
    } else {
        Err(DefinitionErrorView::MissingCredential(mapping.did@))
    }
}

impl<T> DidMappingDto<T> {
    /// The credential that counts: the first of the presentation.
    pub fn get_vc(&self) -> (credential: Result<&VerifiableCredentialDTO<T>, DefinitionError>)
        ensures
            match credential {
                Ok(found) => credential_of(*self) == Ok::<
                    VerifiableCredentialDTO<T>,
                    DefinitionErrorView,
                >(*found),
                Err(failure) => credential_of(*self) == Err::<
                    VerifiableCredentialDTO<T>,
                    DefinitionErrorView,
                >(failure@),
            },
    {
        if self.dpp_vp.vcs.len() > 0 {
            Ok(&self.dpp_vp.vcs[0])
        } else {
            Err(DefinitionError::MissingCredential(self.did.clone()))
        }
    }
}

/// The first passport brought along under `did`.
pub open spec fn first_mapping<T>(dpps: Seq<DidMappingDto<T>>, did: Seq<char>) -> Option<
    DidMappingDto<T>,
>
    decreases dpps.len(),
{
    if dpps.len() == 0 {
        None
    } else {
        match first_mapping(dpps.drop_last(), did) {
            Some(found) => Some(found),
            None => if dpps.last().did@ == did {
                Some(dpps.last())
            } else {
                None
            },
        }
    }
}

/// The last passport brought along under `did`.
pub open spec fn last_mapping<T>(dpps: Seq<DidMappingDto<T>>, did: Seq<char>) -> Option<
    DidMappingDto<T>,
>
    decreases dpps.len(),
{
    if dpps.len() == 0 {
        None
    } else if dpps.last().did@ == did {
        Some(dpps.last())
    } else {
        last_mapping(dpps.drop_last(), did)
    }
}

/// The identifier of the first passport whose presentation is empty.
pub open spec fn first_without_credential<T>(dpps: Seq<DidMappingDto<T>>) -> Option<Seq<char>>
    decreases dpps.len(),
{
    if dpps.len() == 0 {
        None
    } else {
        match first_without_credential(dpps.drop_last()) {
            Some(did) => Some(did),
            None => if dpps.last().dpp_vp.vcs@.len() == 0 {
                Some(dpps.last().did@)
            } else {
                None
            },
        }
    }
}

/// What `each` makes of the items, in order; the first failure where it fails.
pub open spec fn gathered<A, B>(
    items: Seq<A>,
    each: spec_fn(A) -> Result<B, DefinitionErrorView>,
) -> Result<Seq<B>, DefinitionErrorView>
    decreases items.len(),
{
    if items.len() == 0 {
        Ok(Seq::empty())
    } else {
        match gathered(items.drop_last(), each) {
            Err(failure) => Err(failure),
            Ok(made) => match each(items.last()) {
                Err(failure) => Err(failure),
                Ok(one) => Ok(made.push(one)),
            },
        }
    }
}

/// The passport found under `did` stands first among those brought along under
/// `did`; none is found exactly where none was brought along.
pub proof fn law_first_mapping_is_first<T>(dpps: Seq<DidMappingDto<T>>, did: Seq<char>)
    ensures
        match first_mapping(dpps, did) {
            Some(found) => exists|at: int|
                0 <= at < dpps.len() && #[trigger] dpps[at] == found && found.did@ == did
                    && forall|before: int| 0 <= before < at ==> (#[trigger] dpps[before]).did@ != did,
            None => forall|at: int| 0 <= at < dpps.len() ==> (#[trigger] dpps[at]).did@ != did,
        },
    decreases dpps.len(),
{
    if dpps.len() > 0 {
        let shorter = dpps.drop_last();
        law_first_mapping_is_first(shorter, did);
        assert(forall|at: int| 0 <= at < shorter.len() ==> shorter[at] == dpps[at]);
        match first_mapping(shorter, did) {
            Some(found) => {
                let at = choose|at: int|
                    0 <= at < shorter.len() && #[trigger] shorter[at] == found && found.did@ == did
                        && forall|before: int|
                        0 <= before < at ==> (#[trigger] shorter[before]).did@ != did;
                assert(dpps[at] == found);
                assert forall|before: int| 0 <= before < at implies (#[trigger] dpps[before]).did@
                    != did by {
                    assert(shorter[before] == dpps[before]);
                }
            },
            None => {
                assert forall|at: int| 0 <= at < shorter.len() implies (#[trigger] dpps[at]).did@
                    != did by {
                    assert(shorter[at] == dpps[at]);
                }
                if dpps.last().did@ == did {
                    assert(dpps[dpps.len() - 1] == dpps.last());
                }
            },
        }
    }
}

/// The passport found last under `did` stands last among those brought along under
/// `did`; none is found exactly where none was brought along.
pub proof fn law_last_mapping_is_last<T>(dpps: Seq<DidMappingDto<T>>, did: Seq<char>)
    ensures
        match last_mapping(dpps, did) {
            Some(found) => exists|at: int|
                0 <= at < dpps.len() && #[trigger] dpps[at] == found && found.did@ == did
                    && forall|after: int|
                    at < after < dpps.len() ==> (#[trigger] dpps[after]).did@ != did,
            None => forall|at: int| 0 <= at < dpps.len() ==> (#[trigger] dpps[at]).did@ != did,
        },
    decreases dpps.len(),
{
    if dpps.len() > 0 {
        let shorter = dpps.drop_last();
        assert(forall|at: int| 0 <= at < shorter.len() ==> shorter[at] == dpps[at]);
        if dpps.last().did@ == did {
            assert(dpps[dpps.len() - 1] == dpps.last());
        } else {
            law_last_mapping_is_last(shorter, did);
            match last_mapping(shorter, did) {
                Some(found) => {
                    let at = choose|at: int|
                        0 <= at < shorter.len() && #[trigger] shorter[at] == found && found.did@
                            == did && forall|after: int|
                            at < after < shorter.len() ==> (#[trigger] shorter[after]).did@ != did;
                    assert(dpps[at] == found);
                    assert forall|after: int| at < after < dpps.len() implies (
                    #[trigger] dpps[after]).did@ != did by {
                        if after < shorter.len() {
                            assert(shorter[after] == dpps[after]);
                        }
                    }
                },
                None => {
                    assert forall|at: int| 0 <= at < dpps.len() implies (#[trigger] dpps[at]).did@
                        != did by {
                        if at < shorter.len() {
                            assert(shorter[at] == dpps[at]);
                        }
                    }
                },
            }
        }
    }
}

/// What is gathered is what `each` makes of every item, in order, where it fails
/// for none; where it fails, the failure is that of the first item for which it
/// fails.
pub proof fn law_gathered_in_order<A, B>(
    items: Seq<A>,
    each: spec_fn(A) -> Result<B, DefinitionErrorView>,
)
    ensures
        match gathered(items, each) {
            Ok(made) => made.len() == items.len() && forall|at: int|
                0 <= at < items.len() ==> each(#[trigger] items[at]) == Ok::<
                    B,
                    DefinitionErrorView,
                >(made[at]),
            Err(failure) => exists|at: int|
                0 <= at < items.len() && each(#[trigger] items[at]) == Err::<
                    B,
                    DefinitionErrorView,
                >(failure) && forall|before: int|
                    0 <= before < at ==> each(#[trigger] items[before]) is Ok,
        },
    decreases items.len(),
{
    if items.len() > 0 {
        let shorter = items.drop_last();
        law_gathered_in_order(shorter, each);
        assert(forall|at: int| 0 <= at < shorter.len() ==> shorter[at] == items[at]);
        match gathered(shorter, each) {
            Err(failure) => {
                let at = choose|at: int|
                    0 <= at < shorter.len() && each(#[trigger] shorter[at]) == Err::<
                        B,
                        DefinitionErrorView,
                    >(failure) && forall|before: int|
                        0 <= before < at ==> each(#[trigger] shorter[before]) is Ok;
                assert(items[at] == shorter[at]);
                assert forall|before: int| 0 <= before < at implies each(
                    #[trigger] items[before],
                ) is Ok by {
                    assert(shorter[before] == items[before]);
                }
            },
            Ok(made) => {
                assert(items[items.len() - 1] == items.last());
                match each(items.last()) {
                    Err(failure) => {
                        assert forall|before: int| 0 <= before < items.len() - 1 implies each(
                            #[trigger] items[before],
                        ) is Ok by {
                            assert(shorter[before] == items[before]);
                        }
                    },
                    Ok(one) => {
                        let all = made.push(one);
                        assert forall|at: int| 0 <= at < items.len() implies each(
                            #[trigger] items[at],
                        ) == Ok::<B, DefinitionErrorView>(all[at]) by {
                            if at < shorter.len() {
                                assert(shorter[at] == items[at]);
                            }
                        }
                    },
                }
            },
        }
    }
}

/// A passport found among the first `upto` is the one found in the whole list.
proof fn lemma_first_mapping_stays<T>(dpps: Seq<DidMappingDto<T>>, did: Seq<char>, upto: int)
    requires
        0 <= upto <= dpps.len(),
        first_mapping(dpps.subrange(0, upto), did) is Some,
    ensures
        first_mapping(dpps, did) == first_mapping(dpps.subrange(0, upto), did),
    decreases dpps.len() - upto,
{
    if upto == dpps.len() {
        assert(dpps.subrange(0, upto) =~= dpps);
    } else {
        let longer = dpps.subrange(0, upto + 1);
        assert(longer.drop_last() =~= dpps.subrange(0, upto));
        lemma_first_mapping_stays(dpps, did, upto + 1);
    }
}

/// Finds the first passport brought along under `did`.
fn find_first<'a, T>(dpps: &'a Vec<DidMappingDto<T>>, did: &str) -> (found: Option<
    &'a DidMappingDto<T>,
>)
    ensures
        match found {
            Some(mapping) => first_mapping(dpps@, did@) == Some(*mapping),
            None => first_mapping(dpps@, did@) is None,
        },
{
    let mut at: usize = 0;
    while at < dpps.len()
        invariant
            at <= dpps.len(),
            first_mapping(dpps@.subrange(0, at as int), did@) is None,
        decreases dpps.len() - at,
    {
        let ghost longer = dpps@.subrange(0, at + 1);
        assert(longer.drop_last() =~= dpps@.subrange(0, at as int));
        assert(longer.last() == dpps@[at as int]);
        if same_text(dpps[at].did.as_str(), did) {
            proof {
                lemma_first_mapping_stays(dpps@, did@, at + 1);
            }
            return Some(&dpps[at]);
        }
        at = at + 1;
    }
    assert(dpps@.subrange(0, at as int) =~= dpps@);
    None
}

/// Finds the last passport brought along under `did`.
fn find_last<'a, T>(dpps: &'a Vec<DidMappingDto<T>>, did: &str) -> (found: Option<
    &'a DidMappingDto<T>,
>)
    ensures
        match found {
            Some(mapping) => last_mapping(dpps@, did@) == Some(*mapping),
            None => last_mapping(dpps@, did@) is None,
        },
{
    let mut left: usize = dpps.len();
    assert(dpps@.subrange(0, left as int) =~= dpps@);
    while left > 0
        invariant
            left <= dpps.len(),
            last_mapping(dpps@, did@) == last_mapping(dpps@.subrange(0, left as int), did@),
        decreases left,
    {
        let ghost before = dpps@.subrange(0, left as int);
        left = left - 1;
        assert(before.last() == dpps@[left as int]);
        assert(before.drop_last() =~= dpps@.subrange(0, left as int));
        if same_text(dpps[left].did.as_str(), did) {
            return Some(&dpps[left]);
        }
    }
    None
}

/// Looks for a passport whose presentation is empty.
fn check_credentials<T>(dpps: &Vec<DidMappingDto<T>>) -> (checked: Result<(), DefinitionError>)
    ensures
        match checked {
            Ok(()) => first_without_credential(dpps@) is None,
            Err(failure) => first_without_credential(dpps@) matches Some(did) && failure@
                == DefinitionErrorView::MissingCredential(did),
        },
{
    let mut at: usize = 0;
    while at < dpps.len()
        invariant
            at <= dpps.len(),
            first_without_credential(dpps@.subrange(0, at as int)) is None,
        decreases dpps.len() - at,
    {
        let ghost longer = dpps@.subrange(0, at + 1);
        assert(longer.drop_last() =~= dpps@.subrange(0, at as int));
        assert(longer.last() == dpps@[at as int]);
        match dpps[at].get_vc() {
            Err(failure) => {
                proof {
                    lemma_first_without_credential_stays(dpps@, at + 1);
                }
                return Err(failure);
            },
            Ok(_) => {},
        }
        at = at + 1;
    }
    assert(dpps@.subrange(0, at as int) =~= dpps@);
    Ok(())
}

/// A passport without credential found among the first `upto` is the one found in
/// the whole list.
proof fn lemma_first_without_credential_stays<T>(dpps: Seq<DidMappingDto<T>>, upto: int)
    requires
        0 <= upto <= dpps.len(),
        first_without_credential(dpps.subrange(0, upto)) is Some,
    ensures
        first_without_credential(dpps) == first_without_credential(dpps.subrange(0, upto)),
    decreases dpps.len() - upto,
{
    if upto == dpps.len() {
        assert(dpps.subrange(0, upto) =~= dpps);
    } else {
        let longer = dpps.subrange(0, upto + 1);
        assert(longer.drop_last() =~= dpps.subrange(0, upto));
        lemma_first_without_credential_stays(dpps, upto + 1);
    }
}

/// One material of a building part, as a request names it.
#[derive(Debug)]
pub struct MaterialUseDto {
    pub amount: u32,
    pub concrete_dpp_did: String,
}

/// A building part, as a request describes it.
#[derive(Debug)]
pub struct BuildingPartDefinitionDto {
    pub date: String,
    pub building: String,
    pub building_part_id: String,
    pub used_material: Vec<MaterialUseDto>,
}

/// The passport of a concrete mixture.
#[derive(Debug)]
pub struct ConcreteMixtureDppDto {
    pub id: String,
    pub epd: ZkConcreteEpd,
    pub date: String,
    pub volume: u32,
}

/// The request to prove the declaration of a building part.
#[derive(Debug)]
pub struct CreateBuildingPartRequestDTO {
    pub definition: BuildingPartDefinitionDto,
    pub dpps: Vec<DidMappingDto<ConcreteMixtureDppDto>>,
}

/// What a material of a request comes to: its amount, and the potential that the
/// first passport under its identifier states, cut down to a whole number.
pub open spec fn material_of(
    named: MaterialUseDto,
    dpps: Seq<DidMappingDto<ConcreteMixtureDppDto>>,
) -> Result<MaterialUse, DefinitionErrorView> {
    match first_mapping(dpps, named.concrete_dpp_did@) {
        None => Err(DefinitionErrorView::MissingDidMapping(named.concrete_dpp_did@)),
        Some(mapping) => match credential_of(mapping) {
            Err(failure) => Err(failure),
            Ok(credential) => {
                let bits = credential.credential_subject.epd.epd.a13_gwp;
                if within_u32(bits) {
                    Ok(MaterialUse { amount: named.amount, a13_gwp: whole_part(bits) as u32 })
                } else {
                    Err(DefinitionErrorView::GwpOutOfRange(bits))
                }
            },
        },
    }
}

/// The definition that a request for a building part gives: its materials in the
/// order of the request, or the failure of the first material that fails.
pub open spec fn building_part_definition_of(request: CreateBuildingPartRequestDTO) -> Result<
    BuildingPartDefinitionView,
    DefinitionErrorView,
> {
    match gathered(
        request.definition.used_material@,
        |named: MaterialUseDto| material_of(named, request.dpps@),
    ) {
        Err(failure) => Err(failure),
        Ok(used_material) => Ok(
            BuildingPartDefinitionView {
                date: request.definition.date@,
                building: request.definition.building@,
                building_part_id: request.definition.building_part_id@,
                used_material,
            },
        ),
    }
}

impl CreateBuildingPartRequestDTO {
    /// The first passport brought along under `did`.
    pub fn get_did_mapping(&self, did: &str) -> (mapping: Result<
        &DidMappingDto<ConcreteMixtureDppDto>,
        DefinitionError,
    >)
        ensures
            match mapping {
                Ok(found) => first_mapping(self.dpps@, did@) == Some(*found),
                Err(failure) => first_mapping(self.dpps@, did@) is None && failure@
                    == DefinitionErrorView::MissingDidMapping(did@),
            },
    {
        match find_first(&self.dpps, did) {
            Some(found) => Ok(found),
            None => Err(DefinitionError::MissingDidMapping(String::from_str(did))),
        }
    }

    /// What one material of the request comes to.
    fn material(&self, named: &MaterialUseDto) -> (made: Result<MaterialUse, DefinitionError>)
        ensures
            match made {
                Ok(material) => material_of(*named, self.dpps@) == Ok::<
                    MaterialUse,
                    DefinitionErrorView,
                >(material),
                Err(failure) => material_of(*named, self.dpps@) == Err::<
                    MaterialUse,
                    DefinitionErrorView,
                >(failure@),
            },
    {
        let mapping = match self.get_did_mapping(named.concrete_dpp_did.as_str()) {
            Ok(mapping) => mapping,
            Err(failure) => {
                return Err(failure);
            },
        };
        let credential = match mapping.get_vc() {
            Ok(credential) => credential,
            Err(failure) => {
                return Err(failure);
            },
        };
        let bits = credential.credential_subject.epd.epd.a13_gwp;
        match to_u32(bits) {
            Some(a13_gwp) => Ok(MaterialUse { amount: named.amount, a13_gwp }),
            None => Err(DefinitionError::GwpOutOfRange(bits)),
        }
    }
}

impl BuildingPartDefinition {
    /// The definition that the request gives.
    pub fn try_from(request: CreateBuildingPartRequestDTO) -> (definition: Result<
        BuildingPartDefinition,
        DefinitionError,
    >)
        ensures
            match definition {
                Ok(made) => building_part_definition_of(request) == Ok::<
                    BuildingPartDefinitionView,
                    DefinitionErrorView,
                >(made@),
                Err(failure) => building_part_definition_of(request) == Err::<
                    BuildingPartDefinitionView,
                    DefinitionErrorView,
                >(failure@),
            },
    {
        let ghost each = |named: MaterialUseDto| material_of(named, request.dpps@);
        let mut used_material: Vec<MaterialUse> = Vec::new();
        let mut at: usize = 0;
        while at < request.definition.used_material.len()
            invariant
                at <= request.definition.used_material.len(),
                each == |named: MaterialUseDto| material_of(named, request.dpps@),
                gathered(request.definition.used_material@.subrange(0, at as int), each) == Ok::<
                    Seq<MaterialUse>,
                    DefinitionErrorView,
                >(used_material@),
            decreases request.definition.used_material.len() - at,
        {
            let ghost longer = request.definition.used_material@.subrange(0, at + 1);
            assert(longer.drop_last() =~= request.definition.used_material@.subrange(0, at as int));
            assert(longer.last() == request.definition.used_material@[at as int]);
            match request.material(&request.definition.used_material[at]) {
                Err(failure) => {
                    proof {
                        lemma_gathered_failure_stays(
                            request.definition.used_material@,
                            each,
                            at + 1,
                        );
                    }
                    return Err(failure);
                },
                Ok(material) => {
                    used_material.push(material);
                },
            }
            at = at + 1;
        }
        assert(request.definition.used_material@.subrange(0, at as int)
            =~= request.definition.used_material@);
        let definition = request.definition;
        Ok(
            BuildingPartDefinition {
                used_material,
                date: definition.date,
                building: definition.building,
                building_part_id: definition.building_part_id,
            },
        )
    }
}

/// A failure met among the first `upto` items is the failure of the whole.
proof fn lemma_gathered_failure_stays<A, B>(
    items: Seq<A>,
    each: spec_fn(A) -> Result<B, DefinitionErrorView>,
    upto: int,
)
    requires
        0 <= upto <= items.len(),
        gathered(items.subrange(0, upto), each) is Err,
    ensures
        gathered(items, each) == gathered(items.subrange(0, upto), each),
    decreases items.len() - upto,
{
    if upto == items.len() {
        assert(items.subrange(0, upto) =~= items);
    } else {
        let longer = items.subrange(0, upto + 1);
        assert(longer.drop_last() =~= items.subrange(0, upto));
        lemma_gathered_failure_stays(items, each, upto + 1);
    }
}

/// A building part of a building, as a request names it.
#[derive(Debug)]
pub struct BuildingPartDppDto {
    pub building_part_dpp_did: String,
}

/// Energy used on the construction site, as a request names it.
#[derive(Debug)]
pub struct ConstructionSiteEnergyDto {
    pub amount: u32,
    pub dpp_did: String,
}

/// The passport of a source of energy.
#[derive(Debug)]
pub struct EnergyDpp {
    pub gwp: u32,
}

/// A building, as a request describes it.
#[derive(Debug)]
pub struct BuildingDefinitionDto {
    pub date: String,
    pub building: String,
    pub building_part_dids: Vec<BuildingPartDppDto>,
    pub site_energy_dids: Vec<ConstructionSiteEnergyDto>,
}

/// The request to prove the declaration of a building.
#[derive(Debug)]
pub struct CreateBuildingDefinitionDto {
    pub definition: BuildingDefinitionDto,
    pub building_part_dpps: Vec<DidMappingDto<ZkBuildingPartEPD>>,
    pub site_energy_dpps: Vec<DidMappingDto<EnergyDpp>>,
}

/// What a building part of a request comes to: the declaration that the last
/// passport under its identifier states.
pub open spec fn building_part_of(
    named: BuildingPartDppDto,
    dpps: Seq<DidMappingDto<ZkBuildingPartEPD>>,
) -> Result<BuildingPartEpdView, DefinitionErrorView> {
    match last_mapping(dpps, named.building_part_dpp_did@) {
        None => Err(DefinitionErrorView::NoBuildingPartDpp(named.building_part_dpp_did@)),
        Some(mapping) => match credential_of(mapping) {
            Err(failure) => Err(failure),
            Ok(credential) => Ok(credential.credential_subject.epd@),
        },
    }
}

/// What a site energy of a request comes to: its amount, and the potential that
/// the last passport under its identifier states.
pub open spec fn site_energy_of(
    named: ConstructionSiteEnergyDto,
    dpps: Seq<DidMappingDto<EnergyDpp>>,
) -> Result<ConstructionSiteEnergy, DefinitionErrorView> {
    match last_mapping(dpps, named.dpp_did@) {
        None => Err(DefinitionErrorView::NoSiteEnergyDpp(named.dpp_did@)),
        Some(mapping) => match credential_of(mapping) {
            Err(failure) => Err(failure),
            Ok(credential) => Ok(
                ConstructionSiteEnergy {
                    gwp: credential.credential_subject.gwp,
                    amount: named.amount,
                },
            ),
        },
    }
}

/// The definition that a request for a building gives.
///
/// Every passport brought along must hold a credential, whether the request names
/// it or not. The passports of the building parts are looked at first, then the
/// parts that the request names, then the passports of the energy sources, then the
/// site energy that the request names; the first failure on that way is the failure
/// of the request.
pub open spec fn building_definition_of(request: CreateBuildingDefinitionDto) -> Result<
    BuildingDefinitionView,
    DefinitionErrorView,
> {
    match first_without_credential(request.building_part_dpps@) {
        Some(did) => Err(DefinitionErrorView::MissingCredential(did)),
        None => match gathered(
            request.definition.building_part_dids@,
            |named: BuildingPartDppDto| building_part_of(named, request.building_part_dpps@),
        ) {
            Err(failure) => Err(failure),
            Ok(building_parts) => match first_without_credential(request.site_energy_dpps@) {
                Some(did) => Err(DefinitionErrorView::MissingCredential(did)),
                None => match gathered(
                    request.definition.site_energy_dids@,
                    |named: ConstructionSiteEnergyDto|
                        site_energy_of(named, request.site_energy_dpps@),
                ) {
                    Err(failure) => Err(failure),
                    Ok(site_energy) => Ok(
                        BuildingDefinitionView {
                            date: request.definition.date@,
                            building: request.definition.building@,
                            building_parts,
                            site_energy,
                        },
                    ),
                },
            },
        },
    }
}

/// The declarations as sequences of characters.
pub open spec fn declarations(parts: Seq<Arc<BuildingPartEPD>>) -> Seq<BuildingPartEpdView> {
    Seq::new(parts.len(), |i: int| parts[i]@)
}

impl CreateBuildingDefinitionDto {
    /// What one building part of the request comes to.
    fn building_part(&self, named: &BuildingPartDppDto) -> (made: Result<
        Arc<BuildingPartEPD>,
        DefinitionError,
    >)
        ensures
            match made {
                Ok(part) => building_part_of(*named, self.building_part_dpps@) == Ok::<
                    BuildingPartEpdView,
                    DefinitionErrorView,
                >(part@),
                Err(failure) => building_part_of(*named, self.building_part_dpps@) == Err::<
                    BuildingPartEpdView,
                    DefinitionErrorView,
                >(failure@),
            },
    {
        match find_last(&self.building_part_dpps, named.building_part_dpp_did.as_str()) {
            None => Err(DefinitionError::NoBuildingPartDpp(named.building_part_dpp_did.clone())),
            Some(mapping) => match mapping.get_vc() {
                Err(failure) => Err(failure),
                Ok(credential) => Ok(share(&credential.credential_subject.epd)),
            },
        }
    }

    /// What one site energy of the request comes to.
    fn site_energy(&self, named: &ConstructionSiteEnergyDto) -> (made: Result<
        ConstructionSiteEnergy,
        DefinitionError,
    >)
        ensures
            match made {
                Ok(energy) => site_energy_of(*named, self.site_energy_dpps@) == Ok::<
                    ConstructionSiteEnergy,
                    DefinitionErrorView,
                >(energy),
                Err(failure) => site_energy_of(*named, self.site_energy_dpps@) == Err::<
                    ConstructionSiteEnergy,
                    DefinitionErrorView,
                >(failure@),
            },
    {
        match find_last(&self.site_energy_dpps, named.dpp_did.as_str()) {
            None => Err(DefinitionError::NoSiteEnergyDpp(named.dpp_did.clone())),
            Some(mapping) => match mapping.get_vc() {
                Err(failure) => Err(failure),
                Ok(credential) => Ok(
                    ConstructionSiteEnergy {
                        gwp: credential.credential_subject.gwp,
                        amount: named.amount,
                    },
                ),
            },
        }
    }

    /// The building parts that the request names, in its order.
    fn building_parts(&self) -> (made: Result<Vec<Arc<BuildingPartEPD>>, DefinitionError>)
        ensures
            ({
                let owed = gathered(
                    self.definition.building_part_dids@,
                    |named: BuildingPartDppDto| building_part_of(named, self.building_part_dpps@),
                );
                match made {
                    Ok(parts) => owed == Ok::<Seq<BuildingPartEpdView>, DefinitionErrorView>(
                        declarations(parts@),
                    ),
                    Err(failure) => owed == Err::<Seq<BuildingPartEpdView>, DefinitionErrorView>(
                        failure@,
                    ),
                }
            }),
    {
        let ghost each = |named: BuildingPartDppDto|
            building_part_of(named, self.building_part_dpps@);
        let mut parts: Vec<Arc<BuildingPartEPD>> = Vec::new();
        let mut at: usize = 0;
        assert(declarations(parts@) =~= Seq::empty());
        while at < self.definition.building_part_dids.len()
            invariant
                at <= self.definition.building_part_dids.len(),
                each == |named: BuildingPartDppDto|
                    building_part_of(named, self.building_part_dpps@),
                gathered(self.definition.building_part_dids@.subrange(0, at as int), each) == Ok::<
                    Seq<BuildingPartEpdView>,
                    DefinitionErrorView,
                >(declarations(parts@)),
            decreases self.definition.building_part_dids.len() - at,
        {
            let ghost longer = self.definition.building_part_dids@.subrange(0, at + 1);
            let ghost before = parts@;
            assert(longer.drop_last() =~= self.definition.building_part_dids@.subrange(
                0,
                at as int,
            ));
            assert(longer.last() == self.definition.building_part_dids@[at as int]);
            match self.building_part(&self.definition.building_part_dids[at]) {
                Err(failure) => {
                    proof {
                        lemma_gathered_failure_stays(
                            self.definition.building_part_dids@,
                            each,
                            at + 1,
                        );
                    }
                    return Err(failure);
                },
                Ok(part) => {
                    parts.push(part);
                    assert(declarations(parts@) =~= declarations(before).push(part@));
                },
            }
            at = at + 1;
        }
        assert(self.definition.building_part_dids@.subrange(0, at as int)
            =~= self.definition.building_part_dids@);
        Ok(parts)
    }

    /// The site energy that the request names, in its order.
    fn site_energies(&self) -> (made: Result<Vec<ConstructionSiteEnergy>, DefinitionError>)
        ensures
            ({
                let owed = gathered(
                    self.definition.site_energy_dids@,
                    |named: ConstructionSiteEnergyDto|
                        site_energy_of(named, self.site_energy_dpps@),
                );
                match made {
                    Ok(energy) => owed == Ok::<Seq<ConstructionSiteEnergy>, DefinitionErrorView>(
                        energy@,
                    ),
                    Err(failure) => owed == Err::<
                        Seq<ConstructionSiteEnergy>,
                        DefinitionErrorView,
                    >(failure@),
                }
            }),
    {
        let ghost each = |named: ConstructionSiteEnergyDto|
            site_energy_of(named, self.site_energy_dpps@);
        let mut energy: Vec<ConstructionSiteEnergy> = Vec::new();
        let mut at: usize = 0;
        while at < self.definition.site_energy_dids.len()
            invariant
                at <= self.definition.site_energy_dids.len(),
                each == |named: ConstructionSiteEnergyDto|
                    site_energy_of(named, self.site_energy_dpps@),
                gathered(self.definition.site_energy_dids@.subrange(0, at as int), each) == Ok::<
                    Seq<ConstructionSiteEnergy>,
                    DefinitionErrorView,
                >(energy@),
            decreases self.definition.site_energy_dids.len() - at,
        {
            let ghost longer = self.definition.site_energy_dids@.subrange(0, at + 1);
            assert(longer.drop_last() =~= self.definition.site_energy_dids@.subrange(
                0,
                at as int,
            ));
            assert(longer.last() == self.definition.site_energy_dids@[at as int]);
            match self.site_energy(&self.definition.site_energy_dids[at]) {
                Err(failure) => {
                    proof {
                        lemma_gathered_failure_stays(
                            self.definition.site_energy_dids@,
                            each,
                            at + 1,
                        );
                    }
                    return Err(failure);
                },
                Ok(one) => {
                    energy.push(one);
                },
            }
            at = at + 1;
        }
        assert(self.definition.site_energy_dids@.subrange(0, at as int)
            =~= self.definition.site_energy_dids@);
        Ok(energy)
    }
}

impl BuildingDefinition {
    /// The definition that the request gives.
    pub fn try_from(request: CreateBuildingDefinitionDto) -> (definition: Result<
        BuildingDefinition,
        DefinitionError,
    >)
        ensures
            match definition {
                Ok(made) => building_definition_of(request) == Ok::<
                    BuildingDefinitionView,
                    DefinitionErrorView,
                >(made@),
                Err(failure) => building_definition_of(request) == Err::<
                    BuildingDefinitionView,
                    DefinitionErrorView,
                >(failure@),
            },
    {
        match check_credentials(&request.building_part_dpps) {
            Err(failure) => {
                return Err(failure);
            },
            Ok(()) => {},
        }
        let building_parts = match request.building_parts() {
            Err(failure) => {
                return Err(failure);
            },
            Ok(parts) => parts,
        };
        match check_credentials(&request.site_energy_dpps) {
            Err(failure) => {
                return Err(failure);
            },
            Ok(()) => {},
        }
        let site_energy = match request.site_energies() {
            Err(failure) => {
                return Err(failure);
            },
            Ok(energy) => energy,
        };
        let definition = request.definition;
        let made = BuildingDefinition {
            date: definition.date,
            building: definition.building,
            building_parts,
            site_energy,
        };
        assert(made@.building_parts =~= declarations(building_parts@));
        Ok(made)
    }
}

} // verus!
