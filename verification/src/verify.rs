//! Verification of a claim: an output, and the proof record said to vouch for it.
//!
//! The output that the proof record holds is read from the record itself and held
//! against the claim, field by field, before the proving engine is asked about the
//! seal. A claim whose record cannot be read, or holds another output, never
//! reaches the engine.
//!
//! The engine is asked by the caller: [`VerifyConfig::seal_question`] says what to
//! ask, and [`seal_outcome`] or [`VerifyConfig::verify`] what the answer makes of
//! the claim.

use std::marker::PhantomData;

use vstd::prelude::*;

use crate::binary64::equal_numbers;
use crate::epd::{
    BuildingEpd, BuildingEpdView, BuildingPartEPD, BuildingPartEpdView, ConcreteEpd,
    ConcreteEpdView, PublicOutput, VerifiedEpd,
};
use crate::error::AppError;
use crate::record::{journal_in, journal_of, open_record, receipt_in, ImageId};

verus! {

/// The output that a proof record holds; `None` where the record cannot be read or
/// its journal is not laid out as such an output.
pub open spec fn embedded_output<Epd: PublicOutput>(zkp: Seq<char>) -> Option<Epd::V> {
    match journal_in(zkp) {
        Some(journal) => Epd::in_journal(journal),
        None => None,
    }
}

/// What the answer of the proving engine makes of a claim whose output is the one
/// that its proof record holds.
pub open spec fn seal_verdict(valid: bool) -> Result<(), AppError> {
    if valid {
        Ok(())
    } else {
        Err(AppError::InvalidProof)
    }
}

/// The verdict on the claim that the record `zkp` vouches for the output
/// `claimed`, where `seal_valid` is the answer of the proving engine.
pub open spec fn claim_verdict<Epd: PublicOutput>(
    claimed: Epd::V,
    zkp: Seq<char>,
    seal_valid: bool,
) -> Result<(), AppError> {
    match embedded_output::<Epd>(zkp) {
        None => Err(AppError::ProofDecodingFailed),
        Some(embedded) => if Epd::agree(embedded, claimed) {
            seal_verdict(seal_valid)
        } else {
            Err(AppError::NonMatchingEPDInfo)
        },
    }
}

/// The verdict that goes with the answer of the proving engine.
pub fn seal_outcome(valid: bool) -> (verdict: Result<(), AppError>)
    ensures
        verdict == seal_verdict(valid),
        verdict is Ok <==> valid,
{
    if valid {
        Ok(())
    } else {
        Err(AppError::InvalidProof)
    }
}

/// What the proving engine is asked about a claim: whether the seal of `receipt`
/// binds its journal to the program `program`.
pub struct SealQuestion {
    pub receipt: risc0_zkvm::Receipt,
    pub program: ImageId,
}

/// A claim that can be verified.
pub trait VerifyConfig {
    /// The verdict on the claim, where `seal_valid` is the answer of the proving
    /// engine.
    spec fn verdict(&self, seal_valid: bool) -> Result<(), AppError>;

    /// The receipt and the program that the proving engine is asked about, for a
    /// claim whose verdict rests on the engine.
    spec fn question(&self) -> Option<(risc0_zkvm::Receipt, ImageId)>;

    /// Holds the claim against its proof record and makes out what the proving
    /// engine is to be asked. A claim whose record cannot be read, or holds another
    /// output, has its verdict without the engine.
    fn seal_question(&self) -> (asked: Result<SealQuestion, AppError>)
        ensures
            match asked {
                Ok(asking) => {
                    &&& self.verdict(true) is Ok
                    &&& self.question() == Some((asking.receipt, asking.program))
                },
                Err(failure) => {
                    &&& self.verdict(true) == Err::<(), AppError>(failure)
                    &&& self.verdict(false) == Err::<(), AppError>(failure)
                },
            },
    ;

    /// The verdict on the claim, where `seal_valid` is what the proving engine
    /// answered to [`VerifyConfig::seal_question`]. A claim that has its verdict
    /// without the engine has it whatever `seal_valid` is.
    fn verify(&self, seal_valid: bool) -> (verdict: Result<(), AppError>)
        ensures
            verdict == self.verdict(seal_valid),
    ;
}

/// The claim that a proof record vouches for an output of the program `guest_id`.
pub struct VerifyConfigImpl<Epd, ZkEpd> {
    guest_id: &'static ImageId,
    zk_epd: ZkEpd,
    phantom_data: PhantomData<Epd>,
}

impl<Epd: PublicOutput, ZkEpd: VerifiedEpd<Epd>> VerifyConfigImpl<Epd, ZkEpd> {
    /// The program whose output is claimed.
    pub closed spec fn program(&self) -> ImageId {
        *self.guest_id
    }

    /// The claim: the output and its proof record.
    pub closed spec fn claim(&self) -> ZkEpd {
        self.zk_epd
    }

    /// The program whose output is claimed.
    pub fn guest_id(&self) -> (id: &'static ImageId)
        ensures
            *id == self.program(),
    {
        self.guest_id
    }

    /// The claim: the output and its proof record.
    pub fn zk_epd(&self) -> (claim: &ZkEpd)
        ensures
            *claim == self.claim(),
    {
        &self.zk_epd
    }
}

/// The claim that `zk_epd` holds an output of the program `guest_id`.
pub fn new_config<Epd: PublicOutput, ZkEpd: VerifiedEpd<Epd>>(
    guest_id: &'static ImageId,
    zk_epd: ZkEpd,
) -> (config: VerifyConfigImpl<Epd, ZkEpd>)
    ensures
        config.program() == *guest_id,
        config.claim() == zk_epd,
{
    VerifyConfigImpl { guest_id, zk_epd, phantom_data: PhantomData }
}

impl<Epd: PublicOutput, ZkEpd: VerifiedEpd<Epd>> VerifyConfig for VerifyConfigImpl<Epd, ZkEpd> {
    open spec fn verdict(&self, seal_valid: bool) -> Result<(), AppError> {
        claim_verdict::<Epd>(self.claim().output(), self.claim().proof_record(), seal_valid)
    }

    open spec fn question(&self) -> Option<(risc0_zkvm::Receipt, ImageId)> {
        match receipt_in(self.claim().proof_record()) {
            Some(receipt) => if self.verdict(true) is Ok {
                Some((receipt, self.program()))
            } else {
                None
            },
            None => None,
        }
    }

    fn seal_question(&self) -> (asked: Result<SealQuestion, AppError>) {
        let zkp = self.zk_epd.get_zkp();
        match open_record(zkp) {
            None => Err(AppError::ProofDecodingFailed),
            Some(receipt) => match Epd::decode(journal_of(&receipt).as_slice()) {
                None => Err(AppError::ProofDecodingFailed),
                Some(epd) => {
                    if epd.same_output(self.zk_epd.get_epd()) {
                        Ok(SealQuestion { receipt, program: *self.guest_id })
                    } else {
                        Err(AppError::NonMatchingEPDInfo)
                    }
                },
            },
        }
    }

    fn verify(&self, seal_valid: bool) -> (verdict: Result<(), AppError>) {
        match self.seal_question() {
            Err(failure) => Err(failure),
            Ok(_) => seal_outcome(seal_valid),
        }
    }
}

/// The proving engine is asked exactly about the claims whose record holds an output
/// that agrees with the claimed one, and then about the receipt of that record and
/// the program of the claim.
pub proof fn law_engine_is_asked_only_of_bound_claims<Epd: PublicOutput, ZkEpd: VerifiedEpd<Epd>>(
    config: VerifyConfigImpl<Epd, ZkEpd>,
)
    ensures
        config.question() is Some <==> (embedded_output::<Epd>(config.claim().proof_record())
            matches Some(embedded) && Epd::agree(embedded, config.claim().output())),
        config.question() matches Some(asked) ==> receipt_in(config.claim().proof_record())
            == Some(asked.0) && asked.1 == config.program(),
{
}

/// A claim is accepted exactly when its proof record holds an output that agrees
/// with the claimed one and the proving engine accepts the seal.
pub proof fn law_accepted_only_if_bound_and_sealed<Epd: PublicOutput>(
    claimed: Epd::V,
    zkp: Seq<char>,
    seal_valid: bool,
)
    ensures
        claim_verdict::<Epd>(claimed, zkp, seal_valid) is Ok <==> (seal_valid && (
        embedded_output::<Epd>(zkp) matches Some(embedded) && Epd::agree(embedded, claimed))),
{
}

/// A claim whose proof record cannot be read is refused as undecodable, whatever it
/// claims and whatever the proving engine would say: a record that is not Base64,
/// or not the encoding of a receipt, or whose journal is not laid out as an output.
pub proof fn law_unreadable_record_is_refused<Epd: PublicOutput>(
    claimed: Epd::V,
    zkp: Seq<char>,
    seal_valid: bool,
)
    requires
        receipt_in(zkp) is None || embedded_output::<Epd>(zkp) is None,
    ensures
        claim_verdict::<Epd>(claimed, zkp, seal_valid) == Err::<(), AppError>(
            AppError::ProofDecodingFailed,
        ),
{
}

/// A claim that does not agree with the output in its proof record is refused as
/// not matching, and never accepted, whatever the proving engine would say.
pub proof fn law_disagreeing_claim_is_refused<Epd: PublicOutput>(
    claimed: Epd::V,
    zkp: Seq<char>,
    seal_valid: bool,
)
    requires
        embedded_output::<Epd>(zkp) matches Some(embedded) && !Epd::agree(embedded, claimed),
    ensures
        claim_verdict::<Epd>(claimed, zkp, seal_valid) == Err::<(), AppError>(
            AppError::NonMatchingEPDInfo,
        ),
{
}

/// Altering any field of an accepted building-part claim gets it refused as not
/// matching.
pub proof fn law_altered_building_part_claim(
    claimed: BuildingPartEpdView,
    altered: BuildingPartEpdView,
    zkp: Seq<char>,
    seal_valid: bool,
)
    requires
        claim_verdict::<BuildingPartEPD>(claimed, zkp, true) is Ok,
        altered.date != claimed.date || altered.building != claimed.building
            || altered.building_part_id != claimed.building_part_id || altered.a14_gwp
            != claimed.a14_gwp,
    ensures
        claim_verdict::<BuildingPartEPD>(altered, zkp, seal_valid) == Err::<(), AppError>(
            AppError::NonMatchingEPDInfo,
        ),
{
}

/// Altering any field of an accepted building claim gets it refused as not
/// matching.
pub proof fn law_altered_building_claim(
    claimed: BuildingEpdView,
    altered: BuildingEpdView,
    zkp: Seq<char>,
    seal_valid: bool,
)
    requires
        claim_verdict::<BuildingEpd>(claimed, zkp, true) is Ok,
        altered.date != claimed.date || altered.building != claimed.building || altered.a15_gwp
            != claimed.a15_gwp,
    ensures
        claim_verdict::<BuildingEpd>(altered, zkp, seal_valid) == Err::<(), AppError>(
            AppError::NonMatchingEPDInfo,
        ),
{
}

/// Altering a text of an accepted concrete claim, or its potential to another
/// number, gets it refused as not matching.
pub proof fn law_altered_concrete_claim(
    claimed: ConcreteEpdView,
    altered: ConcreteEpdView,
    zkp: Seq<char>,
    seal_valid: bool,
)
    requires
        claim_verdict::<ConcreteEpd>(claimed, zkp, true) is Ok,
        altered.description != claimed.description || altered.factory != claimed.factory
            || !equal_numbers(altered.a13_gwp, claimed.a13_gwp),
    ensures
        claim_verdict::<ConcreteEpd>(altered, zkp, seal_valid) == Err::<(), AppError>(
            AppError::NonMatchingEPDInfo,
        ),
{
}

} // verus!
