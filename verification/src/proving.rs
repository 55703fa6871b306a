//! Proof jobs: what is handed to the proving engine, and what is made of the
//! receipt that comes back.

use std::marker::PhantomData;

use vstd::prelude::*;

use crate::epd::{PublicOutput, VerifiedEpd};
use crate::error::{AppError, ProvingError};
use crate::record::{journal_bytes, journal_of, receipt_in, record_of, write_record};
use crate::verify::claim_verdict;

verus! {

/// The kind of proof that a job asks for.
#[derive(Debug, Clone, Copy, PartialEq, Eq, Structural)]
pub enum ProofMode {
    /// The proving engine's own choice.
    Default,
    /// A small proof that verifies anywhere (Groth16).
    Groth16,
}

/// Whether `response` is what is owed for `receipt`: the output that its journal
/// holds, paired with its proof record; the failure to read the journal where it
/// holds no output; else the failure to write the record where there is none.
pub open spec fn response_matches<Epd: PublicOutput, ZkEpd: VerifiedEpd<Epd>>(
    receipt: risc0_zkvm::Receipt,
    response: Result<ZkEpd, ProvingError>,
) -> bool {
    match Epd::in_journal(journal_bytes(receipt)) {
        None => response matches Err(ProvingError::JournalDecodingFailed),
        Some(output) => match record_of(receipt) {
            None => response matches Err(ProvingError::SerializationFailed),
            Some(zkp) => response matches Ok(made) && made.output() == output
                && made.proof_record() == zkp,
        },
    }
}

/// Makes the response out of a receipt: reads the output from the journal, writes
/// the receipt out as a proof record, and pairs the two.
///
/// A journal that is not laid out as the program's output is reported first; a
/// receipt that cannot be written out, second.
pub fn decode_response<Epd: PublicOutput, ZkEpd: VerifiedEpd<Epd>>(
    receipt: &risc0_zkvm::Receipt,
) -> (response: Result<ZkEpd, ProvingError>)
    ensures
        response_matches::<Epd, ZkEpd>(*receipt, response),
{
    match Epd::decode(journal_of(receipt).as_slice()) {
        None => Err(ProvingError::JournalDecodingFailed),
        Some(epd) => match write_record(receipt) {
            Err(failure) => Err(failure),
            Ok(zkp) => Ok(ZkEpd::from_result(epd, zkp)),
        },
    }
}

/// A proof job.
pub trait ProofConfig {
    /// What the proof program takes in.
    type Input;

    /// What the job answers with.
    type Response;

    /// What the proof program is to take in.
    spec fn input(&self) -> Self::Input;

    /// Whether a small proof is asked for.
    spec fn wants_snark(&self) -> bool;

    /// The compiled proof program.
    spec fn program(&self) -> Seq<u8>;

    /// Whether `response` is what the job owes for `receipt`.
    spec fn answers(
        &self,
        receipt: risc0_zkvm::Receipt,
        response: Result<Self::Response, ProvingError>,
    ) -> bool;

    /// What the proof program is to take in.
    fn get_input(&self) -> (input: &Self::Input)
        ensures
            *input == self.input(),
    ;

    /// Whether a small proof is asked for.
    fn snark_p(&self) -> (wanted: bool)
        ensures
            wanted == self.wants_snark(),
    ;

    /// The compiled proof program.
    fn guest_elf(&self) -> (elf: &[u8])
        ensures
            elf@ == self.program(),
    ;

    /// Makes the response out of the receipt of the job.
    fn decode_response(&self, receipt: &risc0_zkvm::Receipt) -> (response: Result<
        Self::Response,
        ProvingError,
    >)
        ensures
            self.answers(*receipt, response),
    ;
}

/// The kind of proof that the job asks for.
pub fn proof_mode<C: ProofConfig>(config: &C) -> (mode: ProofMode)
    ensures
        mode == if config.wants_snark() {
            ProofMode::Groth16
        } else {
            ProofMode::Default
        },
{
    if config.snark_p() {
        ProofMode::Groth16
    } else {
        ProofMode::Default
    }
}

/// The job to run the program `guest_elf` on `input`, answered with a `ZkEpd`.
pub struct ProofConfigImpl<I, Epd, ZkEpd> {
    snark_p: bool,
    guest_elf: &'static [u8],
    input: I,
    phantom_epd: PhantomData<Epd>,
    phantom_zk_epd: PhantomData<ZkEpd>,
}

/// The job to run the program `guest_elf` on `input`.
pub fn new_config<I, Epd: PublicOutput, ZkEpd: VerifiedEpd<Epd>>(
    snark_p: bool,
    guest_elf: &'static [u8],
    input: I,
) -> (config: ProofConfigImpl<I, Epd, ZkEpd>)
    ensures
        config.wants_snark() == snark_p,
        config.program() == guest_elf@,
        config.input() == input,
{
    ProofConfigImpl {
        snark_p,
        guest_elf,
        input,
        phantom_epd: PhantomData,
        phantom_zk_epd: PhantomData,
    }
}

impl<I, Epd: PublicOutput, ZkEpd: VerifiedEpd<Epd>> ProofConfig for ProofConfigImpl<I, Epd, ZkEpd> {
    type Input = I;

    type Response = ZkEpd;

    closed spec fn input(&self) -> I {
        self.input
    }

    closed spec fn wants_snark(&self) -> bool {
        self.snark_p
    }

    closed spec fn program(&self) -> Seq<u8> {
        self.guest_elf@
    }

    open spec fn answers(
        &self,
        receipt: risc0_zkvm::Receipt,
        response: Result<ZkEpd, ProvingError>,
    ) -> bool {
        response_matches::<Epd, ZkEpd>(receipt, response)
    }

    fn get_input(&self) -> (input: &I) {
        &self.input
    }

    fn snark_p(&self) -> (wanted: bool) {
        self.snark_p
    }

    fn guest_elf(&self) -> (elf: &[u8]) {
        self.guest_elf
    }

    fn decode_response(&self, receipt: &risc0_zkvm::Receipt) -> (response: Result<
        ZkEpd,
        ProvingError,
    >) {
        decode_response::<Epd, ZkEpd>(receipt)
    }
}

/// Finishes a job with what the proving engine came back with: a failure of the
/// engine is passed on with its report, a receipt is made into the response.
pub fn generate_epd<C: ProofConfig>(
    config: &C,
    proved: Result<risc0_zkvm::Receipt, String>,
) -> (response: Result<C::Response, ProvingError>)
    ensures
        match proved {
            Ok(receipt) => config.answers(receipt, response),
            Err(report) => response matches Err(ProvingError::ProvingFailed(passed)) && passed
                == report,
        },
{
    match proved {
        Err(report) => Err(ProvingError::ProvingFailed(report)),
        Ok(receipt) => config.decode_response(&receipt),
    }
}

/// The response made of a receipt stands as a claim: where its proof record reads
/// back as a receipt with the journal of the first, and its output agrees with
/// itself, the claim is accepted if the proving engine accepts the seal, and
/// refused as invalid, never as undecodable or not matching, if it does not.
pub proof fn law_response_stands_where_its_record_reads_back<
    Epd: PublicOutput,
    ZkEpd: VerifiedEpd<Epd>,
>(receipt: risc0_zkvm::Receipt, response: ZkEpd)
    requires
        response_matches::<Epd, ZkEpd>(receipt, Ok(response)),
        receipt_in(response.proof_record()) matches Some(back) && journal_bytes(back)
            == journal_bytes(receipt),
        Epd::agree(response.output(), response.output()),
    ensures
        claim_verdict::<Epd>(response.output(), response.proof_record(), true) is Ok,
        claim_verdict::<Epd>(response.output(), response.proof_record(), false) == Err::<
            (),
            AppError,
        >(AppError::InvalidProof),
{
}

/// The output of a response is that of the journal alone: the responses made of two
/// receipts with the same journal hold the same output, whatever else the receipts
/// hold.
pub proof fn law_same_journal_same_output<Epd: PublicOutput, ZkEpd: VerifiedEpd<Epd>>(
    one: risc0_zkvm::Receipt,
    other: risc0_zkvm::Receipt,
    first: ZkEpd,
    second: ZkEpd,
)
    requires
        journal_bytes(one) == journal_bytes(other),
        response_matches::<Epd, ZkEpd>(one, Ok(first)),
        response_matches::<Epd, ZkEpd>(other, Ok(second)),
    ensures
        first.output() == second.output(),
{
}

} // verus!
