//! Requests: which program a request names, and what is built for it.

use std::marker::PhantomData;

use vstd::prelude::*;
use vstd::string::*;

use crate::epd::{PublicOutput, VerifiedEpd};
use crate::error::STATUS_BAD_REQUEST;
use crate::proving::{new_config as proof_config, ProofConfig, ProofConfigImpl};
use crate::record::ImageId;
use crate::text::same_text;
use crate::verify::{new_config as verify_config, VerifyConfigImpl};

verus! {

/// Why a request is turned away before any work is done.
#[derive(Debug)]
pub enum RequestRejection {
    /// The request names a program that is not registered; the payload is the name.
    UnknownZkType(String),
    /// The query of the request cannot be read.
    QueryRejection,
    /// The body of the request is not the JSON that the program takes.
    JsonRejection,
    /// The body of the request could not be read to its end.
    BytesRejection,
}

/// A [`RequestRejection`] with its text as a sequence of characters.
pub enum RequestRejectionView {
    UnknownZkType(Seq<char>),
    QueryRejection,
    JsonRejection,
    BytesRejection,
}

impl View for RequestRejection {
    type V = RequestRejectionView;

    open spec fn view(&self) -> RequestRejectionView {
        match self {
            RequestRejection::UnknownZkType(name) => RequestRejectionView::UnknownZkType(name@),
            RequestRejection::QueryRejection => RequestRejectionView::QueryRejection,
            RequestRejection::JsonRejection => RequestRejectionView::JsonRejection,
            RequestRejection::BytesRejection => RequestRejectionView::BytesRejection,
        }
    }
}

impl RequestRejectionView {
    /// The text shown for this rejection.
    pub open spec fn message(self) -> Seq<char> {
        match self {
            RequestRejectionView::UnknownZkType(name) => "Unknown value for zktype: "@ + name,
            RequestRejectionView::QueryRejection => "Query Error"@,
            RequestRejectionView::JsonRejection => "Json Parse Error"@,
            RequestRejectionView::BytesRejection => "Bytes buffering Error"@,
        }
    }
}

impl RequestRejection {
    /// The text shown for this rejection.
    pub fn message(&self) -> (text: String)
        ensures
            text@ == self@.message(),
    {
        match self {
            RequestRejection::UnknownZkType(name) => {
                String::from_str("Unknown value for zktype: ").concat(name.as_str())
            },
            RequestRejection::QueryRejection => String::from_str("Query Error"),
            RequestRejection::JsonRejection => String::from_str("Json Parse Error"),
            RequestRejection::BytesRejection => String::from_str("Bytes buffering Error"),
        }
    }

    /// The HTTP status under which the rejection is reported, where this library
    /// decides it: 400 for an unknown program. The other rejections answer for
    /// themselves.
    pub fn status_code(&self) -> (code: Option<u16>)
        ensures
            code == if self is UnknownZkType {
                Some(STATUS_BAD_REQUEST)
            } else {
                None
            },
    {
        match self {
            RequestRejection::UnknownZkType(_) => Some(STATUS_BAD_REQUEST),
            _ => None,
        }
    }
}

/// Whether the request asks for the small proof: only where the flag is given and
/// set.
pub fn snark_requested(snark: Option<bool>) -> (requested: bool)
    ensures
        requested == (snark == Some(true)),
{
    match snark {
        Some(flag) => flag,
        None => false,
    }
}

/// What is known of a registered program: its compiled form and its identity. The
/// type parameters say what it takes in, what it commits to, and how a claim of its
/// output is written.
pub struct ConfigFactoryImpl<I, Epd, ZkEpd> {
    guest_elf: &'static [u8],
    guest_id: &'static ImageId,
    phantom_input: PhantomData<I>,
    phantom_zk_epd: PhantomData<ZkEpd>,
    phantom_epd: PhantomData<Epd>,
}

/// Registers the program with the compiled form `guest_elf` and the identity
/// `guest_id`.
pub fn new_config_factory<I, Epd: PublicOutput, ZkEpd: VerifiedEpd<Epd>>(
    guest_elf: &'static [u8],
    guest_id: &'static ImageId,
) -> (factory: ConfigFactoryImpl<I, Epd, ZkEpd>)
    ensures
        factory.program() == guest_elf@,
        factory.identity() == *guest_id,
{
    ConfigFactoryImpl {
        guest_elf,
        guest_id,
        phantom_input: PhantomData,
        phantom_zk_epd: PhantomData,
        phantom_epd: PhantomData,
    }
}

impl<I, Epd: PublicOutput, ZkEpd: VerifiedEpd<Epd>> ConfigFactoryImpl<I, Epd, ZkEpd> {
    /// The compiled program.
    pub closed spec fn program(&self) -> Seq<u8> {
        self.guest_elf@
    }

    /// The identity of the program.
    pub closed spec fn identity(&self) -> ImageId {
        *self.guest_id
    }

    /// The job to run the program on `input`.
    pub fn build_proof_config(&self, input: I, snark_p: bool) -> (config: ProofConfigImpl<
        I,
        Epd,
        ZkEpd,
    >)
        ensures
            config.input() == input,
            config.wants_snark() == snark_p,
            config.program() == self.program(),
    {
        proof_config::<I, Epd, ZkEpd>(snark_p, self.guest_elf, input)
    }

    /// The claim that `verify_epd` holds an output of the program.
    pub fn build_verify_config(&self, verify_epd: ZkEpd) -> (config: VerifyConfigImpl<Epd, ZkEpd>)
        ensures
            config.claim() == verify_epd,
            config.program() == self.identity(),
    {
        verify_config::<Epd, ZkEpd>(self.guest_id, verify_epd)
    }
}

/// The entry that a lookup of `name` finds: the last one registered under the name.
pub open spec fn registered<F>(entries: Seq<(&'static str, F)>, name: Seq<char>) -> Option<F>
    decreases entries.len(),
{
    if entries.len() == 0 {
        None
    } else if entries.last().0@ == name {
        Some(entries.last().1)
    } else {
        registered(entries.drop_last(), name)
    }
}

/// The entry found under `name` stands last among those registered under `name`;
/// none is found exactly where none was registered.
pub proof fn law_registered_is_last<F>(entries: Seq<(&'static str, F)>, name: Seq<char>)
    ensures
        match registered(entries, name) {
            Some(found) => exists|at: int|
                0 <= at < entries.len() && (#[trigger] entries[at]).1 == found && entries[at].0@
                    == name && forall|after: int|
                    at < after < entries.len() ==> (#[trigger] entries[after]).0@ != name,
            None => forall|at: int| 0 <= at < entries.len() ==> (#[trigger] entries[at]).0@ != name,
        },
    decreases entries.len(),
{
    if entries.len() > 0 {
        let shorter = entries.drop_last();
        assert(forall|at: int| 0 <= at < shorter.len() ==> shorter[at] == entries[at]);
        if entries.last().0@ == name {
            assert(entries[entries.len() - 1] == entries.last());
        } else {
            law_registered_is_last(shorter, name);
            match registered(shorter, name) {
                Some(found) => {
                    let at = choose|at: int|
                        0 <= at < shorter.len() && (#[trigger] shorter[at]).1 == found
                            && shorter[at].0@ == name && forall|after: int|
                            at < after < shorter.len() ==> (#[trigger] shorter[after]).0@ != name;
                    assert(entries[at] == shorter[at]);
                    assert forall|after: int| at < after < entries.len() implies (
                    #[trigger] entries[after]).0@ != name by {
                        if after < shorter.len() {
                            assert(shorter[after] == entries[after]);
                        }
                    }
                },
                None => {
                    assert forall|at: int| 0 <= at < entries.len() implies (
                    #[trigger] entries[at]).0@ != name by {
                        if at < shorter.len() {
                            assert(shorter[at] == entries[at]);
                        }
                    }
                },
            }
        }
    }
}

/// The programs that requests may name.
pub struct ConfigFactoryMap<F> {
    map: Vec<(&'static str, F)>,
}

impl<F> View for ConfigFactoryMap<F> {
    type V = Seq<(&'static str, F)>;

    closed spec fn view(&self) -> Seq<(&'static str, F)> {
        self.map@
    }
}

impl<F> ConfigFactoryMap<F> {
    /// The registry of the programs in `mapping`. Where two are registered under
    /// one name, the later one is found.
    pub fn new(mapping: Vec<(&'static str, F)>) -> (registry: Self)
        ensures
            registry@ == mapping@,
    {
        ConfigFactoryMap { map: mapping }
    }

    /// The program registered under `zk_type`; where there is none, the rejection
    /// that names `zk_type`.
    pub fn get(&self, zk_type: &str) -> (found: Result<&F, RequestRejection>)
        ensures
            match found {
                Ok(factory) => registered(self@, zk_type@) == Some(*factory),
                Err(rejection) => registered(self@, zk_type@) is None && rejection@
                    == RequestRejectionView::UnknownZkType(zk_type@),
            },
    {
        let mut left: usize = self.map.len();
        assert(self@.subrange(0, left as int) =~= self@);
        while left > 0
            invariant
                left <= self.map.len(),
                registered(self@, zk_type@) == registered(self@.subrange(0, left as int), zk_type@),
            decreases left,
        {
            let ghost before = self@.subrange(0, left as int);
            left = left - 1;
            let entry = &self.map[left];
            assert(before.last() == self@[left as int]);
            assert(before.drop_last() =~= self@.subrange(0, left as int));
            if same_text(entry.0, zk_type) {
                return Ok(&entry.1);
            }
        }
        assert(self@.subrange(0, 0).len() == 0);
        Err(RequestRejection::UnknownZkType(String::from_str(zk_type)))
    }
}

} // verus!
