//! The record types of the shared store and the rules every record must meet
//! before the store admits it. The rules read the record's fields and nothing
//! else, so every peer that checks a record again reaches the same verdict.

use crate::text::{
    byte_len, has_transaction_hash_format, has_wallet_address_format, is_blank, is_blank_text,
    is_transaction_hash, is_wallet_address, same_text, starts_with_0x,
};
use vstd::prelude::*;
use vstd::string::*;

verus! {

/// The profile under which an agent can be found.
#[derive(Clone, Debug, PartialEq, Eq)]
pub struct AcpAgent {
    /// Wallet address on the settlement layer.
    pub wallet_address: String,
    /// Identifier of the session key held outside this system.
    pub session_key_id: u64,
    /// Display name, searched when browsing.
    pub name: String,
    /// Free text, searched when browsing.
    pub description: String,
    /// Microseconds since the epoch.
    pub registered_at: u64,
}

/// What an [`AcpAgent`] holds, as mathematical values.
pub struct AgentModel {
    pub wallet_address: Seq<char>,
    pub session_key_id: u64,
    pub name: Seq<char>,
    pub description: Seq<char>,
    pub registered_at: u64,
}

impl View for AcpAgent {
    type V = AgentModel;

    open spec fn view(&self) -> AgentModel {
        AgentModel {
            wallet_address: self.wallet_address@,
            session_key_id: self.session_key_id,
            name: self.name@,
            description: self.description@,
            registered_at: self.registered_at,
        }
    }
}

/// The provenance record of one job. Once stored it never changes.
#[derive(Clone, Debug, PartialEq, Eq)]
pub struct AcpJob {
    /// Identifier of the job.
    pub job_id: String,
    /// The phases recorded when the job was created.
    pub phases: Vec<String>,
    /// Hash of the escrow transaction on the settlement layer.
    pub escrow_hash: String,
    /// Wallet address of the agent that is to do the job.
    pub agent_wallet_address: String,
    /// Name of the offering.
    pub job_offering_name: String,
    /// The requirements, serialised.
    pub service_requirements: String,
    /// Microseconds since the epoch.
    pub created_at: u64,
    /// The phase the job is in.
    pub current_phase: String,
    /// What was delivered, once the job is completed.
    pub deliverable: Option<String>,
}

/// What an [`AcpJob`] holds, as mathematical values.
pub struct JobModel {
    pub job_id: Seq<char>,
    pub phases: Seq<Seq<char>>,
    pub escrow_hash: Seq<char>,
    pub agent_wallet_address: Seq<char>,
    pub job_offering_name: Seq<char>,
    pub service_requirements: Seq<char>,
    pub created_at: u64,
    pub current_phase: Seq<char>,
    pub deliverable: Option<Seq<char>>,
}

/// The view of a text that may be absent.
pub open spec fn optional_text(text: Option<String>) -> Option<Seq<char>> {
    match text {
        Some(s) => Some(s@),
        None => None,
    }
}

impl View for AcpJob {
    type V = JobModel;

    open spec fn view(&self) -> JobModel {
        JobModel {
            job_id: self.job_id@,
            phases: self.phases.deep_view(),
            escrow_hash: self.escrow_hash@,
            agent_wallet_address: self.agent_wallet_address@,
            job_offering_name: self.job_offering_name@,
            service_requirements: self.service_requirements@,
            created_at: self.created_at,
            current_phase: self.current_phase@,
            deliverable: optional_text(self.deliverable),
        }
    }
}

/// The kinds of entry this library writes to the store.
#[derive(Clone, Debug, PartialEq, Eq)]
pub enum EntryTypes {
    AcpAgent(AcpAgent),
    AcpJob(AcpJob),
}

/// The kinds of link this library writes to the store.
#[derive(Clone, Copy, Debug, PartialEq, Eq)]
pub enum LinkTypes {
    /// From an identity to its profile.
    AgentToProfile,
    /// From the anchor of all agents to a profile.
    AllAgents,
    /// From an identity to one of its jobs.
    AgentToJobs,
}

/// A content address, an identity's public key or an anchor's address: the
/// 39 raw bytes of a hash of the store.
#[derive(Clone, Copy, Debug, PartialEq, Eq)]
pub struct Address {
    pub bytes: [u8; 39],
}

impl View for Address {
    type V = Seq<u8>;

    open spec fn view(&self) -> Seq<u8> {
        self.bytes@
    }
}

/// What the two structural decodings make of an entry's payload. Either may
/// fail, and a payload that carries the fields of both kinds passes both.
#[derive(Clone, Debug, PartialEq, Eq)]
pub struct EntryPayload {
    /// The payload read as a profile, where that succeeds.
    pub as_agent: Option<AcpAgent>,
    /// The payload read as a job, where that succeeds.
    pub as_job: Option<AcpJob>,
}

/// A record as the store hands it out.
#[derive(Clone, Debug, PartialEq, Eq)]
pub struct Record {
    /// Address of the action that wrote the record.
    pub action_address: Address,
    /// The entry, where the record carries one that can be read.
    pub entry: Option<EntryPayload>,
}

/// An operation that the store asks to have checked.
#[derive(Clone, Debug, PartialEq, Eq)]
pub enum Op {
    /// A record is to be stored.
    StoreRecord(Record),
    /// A link is to be created.
    RegisterCreateLink,
    /// Any other operation.
    Other,
}

/// The outcome of a check.
#[derive(Clone, Debug, PartialEq, Eq)]
pub enum Validation {
    Valid,
    /// Rejected, with the reason in words.
    Invalid(String),
}

/// A [`Validation`] as a mathematical value.
pub enum Verdict {
    Valid,
    Invalid(Seq<char>),
}

impl View for Validation {
    type V = Verdict;

    open spec fn view(&self) -> Verdict {
        match self {
            Validation::Valid => Verdict::Valid,
            Validation::Invalid(reason) => Verdict::Invalid(reason@),
        }
    }
}

/// The phase names a job may be in.
pub open spec fn is_known_phase(phase: Seq<char>) -> bool {
    ||| phase == "requested"@
    ||| phase == "negotiation"@
    ||| phase == "transaction"@
    ||| phase == "completed"@
    ||| phase == "rejected"@
}

/// The verdict on a profile: the first rule that fails gives the reason.
pub open spec fn agent_verdict(agent: AgentModel) -> Verdict {
    if !is_wallet_address(agent.wallet_address) {
        Verdict::Invalid("wallet_address must be a valid Ethereum address (0x... 42 chars)"@)
    } else if is_blank(agent.name) {
        Verdict::Invalid("name cannot be empty"@)
    } else {
        Verdict::Valid
    }
}

/// The verdict on a job: the first rule that fails gives the reason.
pub open spec fn job_verdict(job: JobModel) -> Verdict {
    if !is_transaction_hash(job.escrow_hash) {
        Verdict::Invalid("escrow_hash must be a valid transaction hash (0x... 66 chars)"@)
    } else if !is_wallet_address(job.agent_wallet_address) {
        Verdict::Invalid("agent_wallet_address must be a valid Ethereum address"@)
    } else if job.phases.len() == 0 {
        Verdict::Invalid("phases cannot be empty"@)
    } else if is_blank(job.job_id) {
        Verdict::Invalid("job_id cannot be empty"@)
    } else if !is_known_phase(job.current_phase) {
        Verdict::Invalid(
            "current_phase must be one of: requested, negotiation, transaction, completed, rejected"@,
        )
    } else {
        Verdict::Valid
    }
}

/// The verdict on a payload: read as a profile where that succeeds, else as a
/// job where that succeeds; a payload of neither shape passes.
pub open spec fn payload_verdict(payload: EntryPayload) -> Verdict {
    match payload.as_agent {
        Some(agent) => agent_verdict(agent@),
        None => match payload.as_job {
            Some(job) => job_verdict(job@),
            None => Verdict::Valid,
        },
    }
}

/// The verdict on an operation: only a stored record with a readable entry is
/// held to any rule.
pub open spec fn op_verdict(op: Op) -> Verdict {
    match op {
        Op::StoreRecord(record) => match record.entry {
            Some(payload) => payload_verdict(payload),
            None => Verdict::Valid,
        },
        _ => Verdict::Valid,
    }
}

/// Whether `phase` is one of the five phase names.
pub fn is_valid_phase(phase: &str) -> (known: bool)
    ensures
        known == is_known_phase(phase@),
{
    same_text(phase, "requested") || same_text(phase, "negotiation") || same_text(
        phase,
        "transaction",
    ) || same_text(phase, "completed") || same_text(phase, "rejected")
}

/// Checks a profile: the wallet address has its wire format and the name is
/// not blank.
pub fn validate_acp_agent(agent: AcpAgent) -> (result: Validation)
    ensures
        result@ == agent_verdict(agent@),
{
    if !has_wallet_address_format(agent.wallet_address.as_str()) {
        return Validation::Invalid(
            String::from_str("wallet_address must be a valid Ethereum address (0x... 42 chars)"),
        );
    }
    if is_blank_text(agent.name.as_str()) {
        return Validation::Invalid(String::from_str("name cannot be empty"));
    }
    Validation::Valid
}

/// Checks a job: escrow hash, wallet address, phases, identifier and current
/// phase, in that order.
pub fn validate_acp_job(job: AcpJob) -> (result: Validation)
    ensures
        result@ == job_verdict(job@),
{
    if !has_transaction_hash_format(job.escrow_hash.as_str()) {
        return Validation::Invalid(
            String::from_str("escrow_hash must be a valid transaction hash (0x... 66 chars)"),
        );
    }
    if !has_wallet_address_format(job.agent_wallet_address.as_str()) {
        return Validation::Invalid(
            String::from_str("agent_wallet_address must be a valid Ethereum address"),
        );
    }
    if job.phases.len() == 0 {
        return Validation::Invalid(String::from_str("phases cannot be empty"));
    }
    if is_blank_text(job.job_id.as_str()) {
        return Validation::Invalid(String::from_str("job_id cannot be empty"));
    }
    if !is_valid_phase(job.current_phase.as_str()) {
        return Validation::Invalid(
            String::from_str(
                "current_phase must be one of: requested, negotiation, transaction, completed, rejected",
            ),
        );
    }
    Validation::Valid
}

/// Checks an operation of the store. A stored record is read as a profile
/// first, then as a job; whatever is neither passes, and so does every link.
pub fn validate(op: Op) -> (result: Validation)
    ensures
        result@ == op_verdict(op),
{
    match op {
        Op::StoreRecord(record) => match record.entry {
            Some(payload) => match payload.as_agent {
                Some(agent) => validate_acp_agent(agent),
                None => match payload.as_job {
                    Some(job) => validate_acp_job(job),
                    None => Validation::Valid,
                },
            },
            None => Validation::Valid,
        },
        Op::RegisterCreateLink => Validation::Valid,
        Op::Other => Validation::Valid,
    }
}

/// A profile is admitted exactly when its wallet address has the wire format
/// and its name is not blank.
pub proof fn agent_admitted_iff(agent: AgentModel)
    ensures
        agent_verdict(agent) == Verdict::Valid <==> is_wallet_address(agent.wallet_address)
            && !is_blank(agent.name),
{
}

/// With a name that is not blank, a profile is admitted exactly when its
/// wallet address starts with `0x` and is 42 bytes long.
pub proof fn wallet_address_decides(agent: AgentModel)
    requires
        !is_blank(agent.name),
    ensures
        agent_verdict(agent) == Verdict::Valid <==> starts_with_0x(agent.wallet_address)
            && byte_len(agent.wallet_address) == 42,
{
}

/// A job is admitted exactly when all five rules hold.
pub proof fn job_admitted_iff(job: JobModel)
    ensures
        job_verdict(job) == Verdict::Valid <==> {
            &&& is_transaction_hash(job.escrow_hash)
            &&& is_wallet_address(job.agent_wallet_address)
            &&& job.phases.len() > 0
            &&& !is_blank(job.job_id)
            &&& is_known_phase(job.current_phase)
        },
{
}

/// With the other four rules met, a job is admitted exactly when its escrow
/// hash starts with `0x` and is 66 bytes long.
pub proof fn transaction_hash_decides(job: JobModel)
    requires
        is_wallet_address(job.agent_wallet_address),
        job.phases.len() > 0,
        !is_blank(job.job_id),
        is_known_phase(job.current_phase),
    ensures
        job_verdict(job) == Verdict::Valid <==> starts_with_0x(job.escrow_hash) && byte_len(
            job.escrow_hash,
        ) == 66,
{
}

/// A job that meets the four rules before it and is in none of the five
/// phases is refused, and the reason names the five.
pub proof fn unknown_phase_is_refused(job: JobModel)
    requires
        is_transaction_hash(job.escrow_hash),
        is_wallet_address(job.agent_wallet_address),
        job.phases.len() > 0,
        !is_blank(job.job_id),
        !is_known_phase(job.current_phase),
    ensures
        job_verdict(job) == Verdict::Invalid(
            "current_phase must be one of: requested, negotiation, transaction, completed, rejected"@,
        ),
{
}

/// A link is always admitted.
pub proof fn links_always_admitted()
    ensures
        op_verdict(Op::RegisterCreateLink) == Verdict::Valid,
{
}

} // verus!
