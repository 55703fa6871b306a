//! Environmental product declarations: what the proof programs take in, what they
//! commit to, and the claims made of their output.

use std::sync::Arc;

use vstd::prelude::*;
use vstd::std_specs::cmp::PartialEqSpecImpl;

use crate::binary64::{equal_numbers, same_number};
use crate::journal::{
    double_word, double_word_bytes, lemma_double_word_reads_back, lemma_text_reads_back,
    lemma_word_reads_back, read_double_word, read_text, read_word, text, text_bytes, text_fits,
    whole_words, word, word_bytes,
};

verus! {

/// A public output: a value that a proof program commits to its journal.
pub trait PublicOutput: Sized + View {
    /// The output that a journal holds; `None` where the journal is not laid out as
    /// an output of this kind.
    spec fn in_journal(journal: Seq<u8>) -> Option<Self::V>;

    /// Whether two outputs state the same result, field by field.
    spec fn agree(one: Self::V, other: Self::V) -> bool;

    /// Reads the output that `journal` holds.
    fn decode(journal: &[u8]) -> (output: Option<Self>)
        ensures
            match output {
                Some(found) => Self::in_journal(journal@) == Some(found@),
                None => Self::in_journal(journal@) is None,
            },
    ;

    /// Whether `self` and `other` state the same result.
    fn same_output(&self, other: &Self) -> (same: bool)
        ensures
            same == Self::agree(self@, other@),
    ;
}

/// An output together with the proof record that vouches for it.
pub trait VerifiedEpd<Epd: View>: Sized {
    /// The proof record, as text.
    spec fn proof_record(&self) -> Seq<char>;

    /// The output that is claimed.
    spec fn output(&self) -> Epd::V;

    /// The proof record, as text.
    fn get_zkp(&self) -> (zkp: &str)
        ensures
            zkp@ == self.proof_record(),
    ;

    /// The output that is claimed.
    fn get_epd(&self) -> (epd: &Epd)
        ensures
            epd@ == self.output(),
    ;

    /// Pairs an output with its proof record.
    fn from_result(epd: Epd, zkp: String) -> (made: Self)
        ensures
            made.output() == epd@,
            made.proof_record() == zkp@,
    ;
}

/// Another handle on a shared value, made with `Arc::clone`.
///
/// Trusted: the new handle holds the value that the old one holds.
#[verifier::external_body]
pub(crate) fn share<T>(held: &Arc<T>) -> (other: Arc<T>)
    ensures
        other == *held,
{
    Arc::clone(held)
}

/// One material of a building part.
#[derive(Debug, Clone, Copy, PartialEq, Eq, Structural)]
pub struct MaterialUse {
    /// How much of the material is used.
    pub amount: u32,
    /// The global warming potential of one unit, over the stages A1 to A3.
    pub a13_gwp: u32,
}

/// What the building-part program takes in.
#[derive(Debug)]
pub struct BuildingPartDefinition {
    pub date: String,
    pub building: String,
    pub building_part_id: String,
    pub used_material: Vec<MaterialUse>,
}

/// A [`BuildingPartDefinition`] with its texts as sequences of characters.
pub struct BuildingPartDefinitionView {
    pub date: Seq<char>,
    pub building: Seq<char>,
    pub building_part_id: Seq<char>,
    pub used_material: Seq<MaterialUse>,
}

impl View for BuildingPartDefinition {
    type V = BuildingPartDefinitionView;

    open spec fn view(&self) -> BuildingPartDefinitionView {
        BuildingPartDefinitionView {
            date: self.date@,
            building: self.building@,
            building_part_id: self.building_part_id@,
            used_material: self.used_material@,
        }
    }
}

/// What the building-part program commits to.
#[derive(Debug)]
pub struct BuildingPartEPD {
    pub date: String,
    pub building: String,
    pub building_part_id: String,
    /// The global warming potential of the part, over the stages A1 to A4.
    pub a14_gwp: u32,
}

/// A [`BuildingPartEPD`] with its texts as sequences of characters.
pub struct BuildingPartEpdView {
    pub date: Seq<char>,
    pub building: Seq<char>,
    pub building_part_id: Seq<char>,
    pub a14_gwp: u32,
}

impl View for BuildingPartEPD {
    type V = BuildingPartEpdView;

    open spec fn view(&self) -> BuildingPartEpdView {
        BuildingPartEpdView {
            date: self.date@,
            building: self.building@,
            building_part_id: self.building_part_id@,
            a14_gwp: self.a14_gwp,
        }
    }
}

impl PartialEq for BuildingPartEPD {
    fn eq(&self, other: &Self) -> (same: bool) {
        self.date == other.date && self.building == other.building && self.building_part_id
            == other.building_part_id && self.a14_gwp == other.a14_gwp
    }
}

impl Eq for BuildingPartEPD {

}

impl PartialEqSpecImpl for BuildingPartEPD {
    open spec fn obeys_eq_spec() -> bool {
        true
    }

    open spec fn eq_spec(&self, other: &Self) -> bool {
        self@ == other@
    }
}

impl Clone for BuildingPartEPD {
    fn clone(&self) -> (copy: Self)
        ensures
            copy@ == self@,
    {
        BuildingPartEPD {
            date: self.date.clone(),
            building: self.building.clone(),
            building_part_id: self.building_part_id.clone(),
            a14_gwp: self.a14_gwp,
        }
    }
}

impl PublicOutput for BuildingPartEPD {
    /// Three texts and a word: the date, the building, the part, the potential.
    open spec fn in_journal(journal: Seq<u8>) -> Option<BuildingPartEpdView> {
        if !whole_words(journal) {
            None
        } else {
            match text(journal, 0) {
                Some((date, at_building)) => match text(journal, at_building) {
                    Some((building, at_part)) => match text(journal, at_part) {
                        Some((building_part_id, at_gwp)) => match word(journal, at_gwp) {
                            Some((a14_gwp, _)) => Some(
                                BuildingPartEpdView { date, building, building_part_id, a14_gwp },
                            ),
                            None => None,
                        },
                        None => None,
                    },
                    None => None,
                },
                None => None,
            }
        }
    }

    open spec fn agree(one: BuildingPartEpdView, other: BuildingPartEpdView) -> bool {
        one == other
    }

    fn decode(journal: &[u8]) -> (output: Option<Self>) {
        if journal.len() % 4 != 0 {
            return None;
        }
        match read_text(journal, 0) {
            None => None,
            Some((date, at_building)) => match read_text(journal, at_building) {
                None => None,
                Some((building, at_part)) => match read_text(journal, at_part) {
                    None => None,
                    Some((building_part_id, at_gwp)) => match read_word(journal, at_gwp) {
                        None => None,
                        Some((a14_gwp, _)) => Some(
                            BuildingPartEPD { date, building, building_part_id, a14_gwp },
                        ),
                    },
                },
            },
        }
    }

    fn same_output(&self, other: &Self) -> (same: bool) {
        *self == *other
    }
}

/// A building-part output with the proof record that vouches for it.
#[derive(Debug)]
pub struct ZkBuildingPartEPD {
    pub epd: Arc<BuildingPartEPD>,
    pub zkp: String,
}

impl VerifiedEpd<BuildingPartEPD> for ZkBuildingPartEPD {
    open spec fn proof_record(&self) -> Seq<char> {
        self.zkp@
    }

    open spec fn output(&self) -> BuildingPartEpdView {
        self.epd@
    }

    fn get_zkp(&self) -> (zkp: &str) {
        self.zkp.as_str()
    }

    fn get_epd(&self) -> (epd: &BuildingPartEPD) {
        &*self.epd
    }

    fn from_result(epd: BuildingPartEPD, zkp: String) -> (made: Self) {
        ZkBuildingPartEPD { zkp, epd: Arc::new(epd) }
    }
}

/// Energy used on the construction site.
#[derive(Debug, Clone, Copy, PartialEq, Eq, Structural)]
pub struct ConstructionSiteEnergy {
    /// How much energy is used.
    pub amount: u32,
    /// The global warming potential of one unit.
    pub gwp: u32,
}

/// What the building program takes in.
#[derive(Debug)]
pub struct BuildingDefinition {
    pub date: String,
    pub building: String,
    pub building_parts: Vec<Arc<BuildingPartEPD>>,
    pub site_energy: Vec<ConstructionSiteEnergy>,
}

/// A [`BuildingDefinition`] with its texts as sequences of characters.
pub struct BuildingDefinitionView {
    pub date: Seq<char>,
    pub building: Seq<char>,
    pub building_parts: Seq<BuildingPartEpdView>,
    pub site_energy: Seq<ConstructionSiteEnergy>,
}

impl View for BuildingDefinition {
    type V = BuildingDefinitionView;

    open spec fn view(&self) -> BuildingDefinitionView {
        BuildingDefinitionView {
            date: self.date@,
            building: self.building@,
            building_parts: Seq::new(
                self.building_parts@.len(),
                |i: int| self.building_parts@[i]@,
            ),
            site_energy: self.site_energy@,
        }
    }
}

/// What the building program commits to.
#[derive(Debug)]
pub struct BuildingEpd {
    pub date: String,
    pub building: String,
    /// The global warming potential of the building, over the stages A1 to A5.
    pub a15_gwp: u32,
}

/// A [`BuildingEpd`] with its texts as sequences of characters.
pub struct BuildingEpdView {
    pub date: Seq<char>,
    pub building: Seq<char>,
    pub a15_gwp: u32,
}

impl View for BuildingEpd {
    type V = BuildingEpdView;

    open spec fn view(&self) -> BuildingEpdView {
        BuildingEpdView { date: self.date@, building: self.building@, a15_gwp: self.a15_gwp }
    }
}

impl PartialEq for BuildingEpd {
    fn eq(&self, other: &Self) -> (same: bool) {
        self.date == other.date && self.building == other.building && self.a15_gwp
            == other.a15_gwp
    }
}

impl Eq for BuildingEpd {

}

impl PartialEqSpecImpl for BuildingEpd {
    open spec fn obeys_eq_spec() -> bool {
        true
    }

    open spec fn eq_spec(&self, other: &Self) -> bool {
        self@ == other@
    }
}

impl PublicOutput for BuildingEpd {
    /// Two texts and a word: the date, the building, the potential.
    open spec fn in_journal(journal: Seq<u8>) -> Option<BuildingEpdView> {
        if !whole_words(journal) {
            None
        } else {
            match text(journal, 0) {
                Some((date, at_building)) => match text(journal, at_building) {
                    Some((building, at_gwp)) => match word(journal, at_gwp) {
                        Some((a15_gwp, _)) => Some(BuildingEpdView { date, building, a15_gwp }),
                        None => None,
                    },
                    None => None,
                },
                None => None,
            }
        }
    }

    open spec fn agree(one: BuildingEpdView, other: BuildingEpdView) -> bool {
        one == other
    }

    fn decode(journal: &[u8]) -> (output: Option<Self>) {
        if journal.len() % 4 != 0 {
            return None;
        }
        match read_text(journal, 0) {
            None => None,
            Some((date, at_building)) => match read_text(journal, at_building) {
                None => None,
                Some((building, at_gwp)) => match read_word(journal, at_gwp) {
                    None => None,
                    Some((a15_gwp, _)) => Some(BuildingEpd { date, building, a15_gwp }),
                },
            },
        }
    }

    fn same_output(&self, other: &Self) -> (same: bool) {
        *self == *other
    }
}

/// A building output with the proof record that vouches for it.
#[derive(Debug)]
pub struct ZkBuildingEpd {
    epd: BuildingEpd,
    zkp: String,
}

impl VerifiedEpd<BuildingEpd> for ZkBuildingEpd {
    closed spec fn proof_record(&self) -> Seq<char> {
        self.zkp@
    }

    closed spec fn output(&self) -> BuildingEpdView {
        self.epd@
    }

    fn get_zkp(&self) -> (zkp: &str) {
        self.zkp.as_str()
    }

    fn get_epd(&self) -> (epd: &BuildingEpd) {
        &self.epd
    }

    fn from_result(epd: BuildingEpd, zkp: String) -> (made: Self) {
        ZkBuildingEpd { epd, zkp }
    }
}

/// What the concrete program commits to.
#[derive(Debug)]
pub struct ConcreteEpd {
    pub description: String,
    pub factory: String,
    /// The global warming potential of the mixture, over the stages A1 to A3: the
    /// bits of a double-precision number.
    pub a13_gwp: u64,
}

/// A [`ConcreteEpd`] with its texts as sequences of characters.
pub struct ConcreteEpdView {
    pub description: Seq<char>,
    pub factory: Seq<char>,
    pub a13_gwp: u64,
}

impl View for ConcreteEpd {
    type V = ConcreteEpdView;

    open spec fn view(&self) -> ConcreteEpdView {
        ConcreteEpdView {
            description: self.description@,
            factory: self.factory@,
            a13_gwp: self.a13_gwp,
        }
    }
}

impl ConcreteEpdView {
    /// Whether the two state the same result: equal potentials, as numbers, the same
    /// factory and the same description.
    pub open spec fn same_as(self, other: ConcreteEpdView) -> bool {
        equal_numbers(self.a13_gwp, other.a13_gwp) && self.factory == other.factory
            && self.description == other.description
    }
}

impl PartialEq for ConcreteEpd {
    fn eq(&self, other: &Self) -> (same: bool) {
        same_number(self.a13_gwp, other.a13_gwp) && self.factory == other.factory
            && self.description == other.description
    }
}

impl Eq for ConcreteEpd {

}

impl PartialEqSpecImpl for ConcreteEpd {
    open spec fn obeys_eq_spec() -> bool {
        true
    }

    open spec fn eq_spec(&self, other: &Self) -> bool {
        self@.same_as(other@)
    }
}

impl Clone for ConcreteEpd {
    fn clone(&self) -> (copy: Self)
        ensures
            copy@ == self@,
    {
        ConcreteEpd {
            description: self.description.clone(),
            factory: self.factory.clone(),
            a13_gwp: self.a13_gwp,
        }
    }
}

impl PublicOutput for ConcreteEpd {
    /// Two texts and a 64-bit number: the description, the factory, the potential.
    open spec fn in_journal(journal: Seq<u8>) -> Option<ConcreteEpdView> {
        if !whole_words(journal) {
            None
        } else {
            match text(journal, 0) {
                Some((description, at_factory)) => match text(journal, at_factory) {
                    Some((factory, at_gwp)) => match double_word(journal, at_gwp) {
                        Some((a13_gwp, _)) => Some(
                            ConcreteEpdView { description, factory, a13_gwp },
                        ),
                        None => None,
                    },
                    None => None,
                },
                None => None,
            }
        }
    }

    open spec fn agree(one: ConcreteEpdView, other: ConcreteEpdView) -> bool {
        one.same_as(other)
    }

    fn decode(journal: &[u8]) -> (output: Option<Self>) {
        if journal.len() % 4 != 0 {
            return None;
        }
        match read_text(journal, 0) {
            None => None,
            Some((description, at_factory)) => match read_text(journal, at_factory) {
                None => None,
                Some((factory, at_gwp)) => match read_double_word(journal, at_gwp) {
                    None => None,
                    Some((a13_gwp, _)) => Some(ConcreteEpd { description, factory, a13_gwp }),
                },
            },
        }
    }

    fn same_output(&self, other: &Self) -> (same: bool) {
        *self == *other
    }
}

/// A concrete output with the proof record that vouches for it.
#[derive(Debug)]
pub struct ZkConcreteEpd {
    pub epd: ConcreteEpd,
    pub zkp: String,
}

impl Clone for ZkConcreteEpd {
    fn clone(&self) -> (copy: Self)
        ensures
            copy.epd@ == self.epd@,
            copy.zkp@ == self.zkp@,
    {
        ZkConcreteEpd { epd: self.epd.clone(), zkp: self.zkp.clone() }
    }
}

impl VerifiedEpd<ConcreteEpd> for ZkConcreteEpd {
    open spec fn proof_record(&self) -> Seq<char> {
        self.zkp@
    }

    open spec fn output(&self) -> ConcreteEpdView {
        self.epd@
    }

    fn get_zkp(&self) -> (zkp: &str) {
        self.zkp.as_str()
    }

    fn get_epd(&self) -> (epd: &ConcreteEpd) {
        &self.epd
    }

    fn from_result(epd: ConcreteEpd, zkp: String) -> (made: Self) {
        ZkConcreteEpd { epd, zkp }
    }
}

impl BuildingPartEpdView {
    /// The journal in which the building-part program commits this output.
    pub open spec fn journal(self) -> Seq<u8> {
        text_bytes(self.date) + text_bytes(self.building) + text_bytes(self.building_part_id)
            + word_bytes(self.a14_gwp)
    }

    /// Whether the texts are short enough to be written.
    pub open spec fn fits(self) -> bool {
        text_fits(self.date) && text_fits(self.building) && text_fits(self.building_part_id)
    }
}

impl BuildingEpdView {
    /// The journal in which the building program commits this output.
    pub open spec fn journal(self) -> Seq<u8> {
        text_bytes(self.date) + text_bytes(self.building) + word_bytes(self.a15_gwp)
    }

    /// Whether the texts are short enough to be written.
    pub open spec fn fits(self) -> bool {
        text_fits(self.date) && text_fits(self.building)
    }
}

impl ConcreteEpdView {
    /// The journal in which the concrete program commits this output.
    pub open spec fn journal(self) -> Seq<u8> {
        text_bytes(self.description) + text_bytes(self.factory) + double_word_bytes(self.a13_gwp)
    }

    /// Whether the texts are short enough to be written.
    pub open spec fn fits(self) -> bool {
        text_fits(self.description) && text_fits(self.factory)
    }
}

/// What the building-part program commits is what is read from its journal,
/// whatever whole words follow.
pub proof fn law_building_part_reads_back(output: BuildingPartEpdView, rest: Seq<u8>)
    requires
        output.fits(),
        whole_words(rest),
    ensures
        BuildingPartEPD::in_journal(output.journal() + rest) == Some(output),
{
    let date = text_bytes(output.date);
    let building = text_bytes(output.building);
    let part = text_bytes(output.building_part_id);
    let gwp = word_bytes(output.a14_gwp);
    let journal = output.journal() + rest;
    let nothing = Seq::<u8>::empty();
    assert(journal =~= nothing + date + (building + part + gwp + rest));
    lemma_text_reads_back(nothing, output.date, building + part + gwp + rest);
    assert(journal =~= date + building + (part + gwp + rest));
    lemma_text_reads_back(date, output.building, part + gwp + rest);
    assert(journal =~= (date + building) + part + (gwp + rest));
    lemma_text_reads_back(date + building, output.building_part_id, gwp + rest);
    assert(journal =~= (date + building + part) + gwp + rest);
    lemma_word_reads_back(date + building + part, output.a14_gwp, rest);
}

/// What the building program commits is what is read from its journal, whatever
/// whole words follow.
pub proof fn law_building_reads_back(output: BuildingEpdView, rest: Seq<u8>)
    requires
        output.fits(),
        whole_words(rest),
    ensures
        BuildingEpd::in_journal(output.journal() + rest) == Some(output),
{
    let date = text_bytes(output.date);
    let building = text_bytes(output.building);
    let gwp = word_bytes(output.a15_gwp);
    let journal = output.journal() + rest;
    let nothing = Seq::<u8>::empty();
    assert(journal =~= nothing + date + (building + gwp + rest));
    lemma_text_reads_back(nothing, output.date, building + gwp + rest);
    assert(journal =~= date + building + (gwp + rest));
    lemma_text_reads_back(date, output.building, gwp + rest);
    assert(journal =~= (date + building) + gwp + rest);
    lemma_word_reads_back(date + building, output.a15_gwp, rest);
}

/// What the concrete program commits is what is read from its journal, whatever
/// whole words follow.
pub proof fn law_concrete_reads_back(output: ConcreteEpdView, rest: Seq<u8>)
    requires
        output.fits(),
        whole_words(rest),
    ensures
        ConcreteEpd::in_journal(output.journal() + rest) == Some(output),
{
    let description = text_bytes(output.description);
    let factory = text_bytes(output.factory);
    let gwp = double_word_bytes(output.a13_gwp);
    let journal = output.journal() + rest;
    let nothing = Seq::<u8>::empty();
    assert(journal =~= nothing + description + (factory + gwp + rest));
    lemma_text_reads_back(nothing, output.description, factory + gwp + rest);
    assert(journal =~= description + factory + (gwp + rest));
    lemma_text_reads_back(description, output.factory, gwp + rest);
    assert(journal =~= (description + factory) + gwp + rest);
    lemma_double_word_reads_back(description + factory, output.a13_gwp, rest);
}

} // verus!
