//! The directory of agents and the ledger of jobs. The store itself is
//! reached by the caller: the functions here decide what to ask of it next
//! and what to make of its answers.

use crate::integrity::{
    job_verdict, AcpAgent, AcpJob, Address, AgentModel, EntryPayload, EntryTypes, JobModel,
    LinkTypes, Record, Verdict,
};
use crate::text::{
    contains_text, decimal, decimal_text, has_wallet_address_format, is_blank, is_substring,
    is_transaction_hash, is_wallet_address, is_white_space, lowercase_of, to_lowercase,
};
use std::collections::HashMap;
use vstd::prelude::*;
use vstd::string::*;

verus! {

/// What to look for when browsing.
#[derive(Clone, Debug)]
pub struct BrowseAgentsQuery {
    pub query: String,
}

/// One profile in the result of browsing.
#[derive(Clone, Debug, PartialEq, Eq)]
pub struct AcpAgentInfo {
    pub wallet_address: String,
    pub session_key_id: u64,
    pub name: String,
    pub description: String,
    pub registered_at: u64,
    /// Address of the action that stored the profile.
    pub agent_hash: Address,
}

/// What an [`AcpAgentInfo`] holds, as mathematical values.
pub struct AgentInfoModel {
    pub agent: AgentModel,
    pub agent_hash: Seq<u8>,
}

impl View for AcpAgentInfo {
    type V = AgentInfoModel;

    open spec fn view(&self) -> AgentInfoModel {
        AgentInfoModel {
            agent: AgentModel {
                wallet_address: self.wallet_address@,
                session_key_id: self.session_key_id,
                name: self.name@,
                description: self.description@,
                registered_at: self.registered_at,
            },
            agent_hash: self.agent_hash@,
        }
    }
}

/// What a caller gives to have a job recorded.
#[derive(Clone, Debug)]
pub struct JobCreationInput {
    pub agent_wallet_address: String,
    pub job_offering_name: String,
    pub service_requirements: HashMap<String, String>,
    pub escrow_hash: String,
}

/// The balance of a wallet.
#[derive(Clone, Debug, PartialEq, Eq)]
pub struct WalletBalance {
    pub address: String,
    pub balance_wei: String,
    pub balance_eth: String,
}

/// Why an operation ended without a result.
#[derive(Clone, Debug, PartialEq, Eq)]
pub enum AcpError {
    /// The library refused the input or could not prepare the record.
    Guest(String),
    /// The store or the host reported a failure, given in its words.
    Host(String),
    /// The answer handed in is not one to the request that was pending.
    OutOfTurn,
}

/// What an operation asks of the store or the host next.
#[derive(Clone, Debug, PartialEq, Eq)]
pub enum StoreRequest {
    /// Store the entry; the answer is its address.
    CreateEntry(EntryTypes),
    /// Tell the caller's identity.
    AgentInfo,
    /// Tell the time.
    SysTime,
    /// Create a link of the given kind from `base` to `target`.
    CreateLink { base: Address, target: Address, link_type: LinkTypes },
    /// Make sure that the anchor of this name exists, and tell its address.
    EnsureAnchor { path: &'static str, link_type: LinkTypes },
}

/// What the store or the host answered.
#[derive(Clone, Debug, PartialEq, Eq)]
pub enum StoreReply {
    /// Nothing was asked yet: the operation begins.
    Begin,
    /// The entry is stored under this address.
    EntryCreated(Address),
    /// The caller's public key.
    Identity(Address),
    /// Microseconds since the epoch.
    Time(u64),
    /// The link is created.
    LinkCreated,
    /// The anchor exists, under this address.
    AnchorReady(Address),
    /// The request failed, for the reason given.
    Failed(String),
}

/// Where a list of links starts.
#[derive(Clone, Copy, Debug, PartialEq, Eq)]
pub enum LinkBase {
    /// At the anchor of this name.
    Anchor(&'static str),
    /// At the caller's own identity.
    Identity,
}

/// The links an operation follows to find its records.
#[derive(Clone, Copy, Debug, PartialEq, Eq)]
pub struct LinkQuery {
    pub base: LinkBase,
    pub link_type: LinkTypes,
}

/// One step of an operation: a request to carry out and the state to come
/// back with, or the end.
#[derive(Debug, PartialEq, Eq)]
pub enum Step<S> {
    Ask(S, StoreRequest),
    Done(Result<Address, AcpError>),
}

/// How far a registration has come.
#[derive(Clone, Copy, Debug, PartialEq, Eq)]
pub enum Registration {
    /// Nothing was asked yet.
    Idle,
    /// The profile was handed to the store.
    CreatingEntry,
    /// The profile is stored; the identity is asked for.
    AskingIdentity(Address),
    /// The link from the identity to the profile is being created.
    LinkingProfile(Address),
    /// The anchor of all agents is being ensured.
    EnsuringAnchor(Address),
    /// The link from the anchor to the profile is being created.
    LinkingAnchor(Address),
}

/// How far the recording of a job has come.
#[derive(Clone, Copy, Debug, PartialEq, Eq)]
pub enum Submission {
    /// Nothing was asked yet.
    Idle,
    /// The time is asked for.
    AskingTime,
    /// The job was handed to the store.
    CreatingEntry,
    /// The job is stored; the identity is asked for.
    AskingIdentity(Address),
    /// The link from the identity to the job is being created.
    LinkingJob(Address),
}

/// What a request gives to a job's record beside the time and the
/// serialised requirements: the map of requirements itself is left out.
pub struct JobRequestModel {
    pub agent_wallet_address: Seq<char>,
    pub job_offering_name: Seq<char>,
    pub escrow_hash: Seq<char>,
}

impl View for JobCreationInput {
    type V = JobRequestModel;

    open spec fn view(&self) -> JobRequestModel {
        JobRequestModel {
            agent_wallet_address: self.agent_wallet_address@,
            job_offering_name: self.job_offering_name@,
            escrow_hash: self.escrow_hash@,
        }
    }
}

/// What a [`WalletBalance`] holds, as mathematical values.
pub struct BalanceModel {
    pub address: Seq<char>,
    pub balance_wei: Seq<char>,
    pub balance_eth: Seq<char>,
}

impl View for WalletBalance {
    type V = BalanceModel;

    open spec fn view(&self) -> BalanceModel {
        BalanceModel {
            address: self.address@,
            balance_wei: self.balance_wei@,
            balance_eth: self.balance_eth@,
        }
    }
}

/// The phases with which every job is recorded.
pub open spec fn initial_phases() -> Seq<Seq<char>> {
    seq!["requested"@, "negotiation"@, "transaction"@]
}

/// The record of a job requested at time `now`, in its first phase and with
/// nothing delivered.
pub open spec fn new_job_model(
    input: JobRequestModel,
    now: u64,
    requirements: Seq<char>,
) -> JobModel {
    JobModel {
        job_id: "job_"@ + decimal(now as nat),
        phases: initial_phases(),
        escrow_hash: input.escrow_hash,
        agent_wallet_address: input.agent_wallet_address,
        job_offering_name: input.job_offering_name,
        service_requirements: requirements,
        created_at: now,
        current_phase: "requested"@,
        deliverable: None,
    }
}

/// The next step of a registration. The profile is stored first; the links
/// follow once it has an address: from the identity, then, with the anchor
/// ensured, from the anchor. A failure ends the registration at once.
pub open spec fn registration_step(
    agent: AcpAgent,
    state: Registration,
    reply: StoreReply,
) -> Step<Registration> {
    match (state, reply) {
        (_, StoreReply::Failed(reason)) => Step::Done(Err(AcpError::Host(reason))),
        (Registration::Idle, StoreReply::Begin) => Step::Ask(
            Registration::CreatingEntry,
            StoreRequest::CreateEntry(EntryTypes::AcpAgent(agent)),
        ),
        (Registration::CreatingEntry, StoreReply::EntryCreated(profile)) => Step::Ask(
            Registration::AskingIdentity(profile),
            StoreRequest::AgentInfo,
        ),
        (Registration::AskingIdentity(profile), StoreReply::Identity(me)) => Step::Ask(
            Registration::LinkingProfile(profile),
            StoreRequest::CreateLink {
                base: me,
                target: profile,
                link_type: LinkTypes::AgentToProfile,
            },
        ),
        (Registration::LinkingProfile(profile), StoreReply::LinkCreated) => Step::Ask(
            Registration::EnsuringAnchor(profile),
            StoreRequest::EnsureAnchor { path: "all_agents", link_type: LinkTypes::AllAgents },
        ),
        (Registration::EnsuringAnchor(profile), StoreReply::AnchorReady(anchor)) => Step::Ask(
            Registration::LinkingAnchor(profile),
            StoreRequest::CreateLink {
                base: anchor,
                target: profile,
                link_type: LinkTypes::AllAgents,
            },
        ),
        (Registration::LinkingAnchor(profile), StoreReply::LinkCreated) => Step::Done(Ok(profile)),
        _ => Step::Done(Err(AcpError::OutOfTurn)),
    }
}

/// The next step of the recording of a job, but for the one that builds the
/// record. The job is stored first; the link from the identity follows once
/// it has an address. A failure ends the recording at once.
pub open spec fn submission_step(state: Submission, reply: StoreReply) -> Step<Submission> {
    match (state, reply) {
        (_, StoreReply::Failed(reason)) => Step::Done(Err(AcpError::Host(reason))),
        (Submission::Idle, StoreReply::Begin) => Step::Ask(
            Submission::AskingTime,
            StoreRequest::SysTime,
        ),
        (Submission::CreatingEntry, StoreReply::EntryCreated(job)) => Step::Ask(
            Submission::AskingIdentity(job),
            StoreRequest::AgentInfo,
        ),
        (Submission::AskingIdentity(job), StoreReply::Identity(me)) => Step::Ask(
            Submission::LinkingJob(job),
            StoreRequest::CreateLink { base: me, target: job, link_type: LinkTypes::AgentToJobs },
        ),
        (Submission::LinkingJob(job), StoreReply::LinkCreated) => Step::Done(Ok(job)),
        _ => Step::Done(Err(AcpError::OutOfTurn)),
    }
}

/// Whether `step` hands the store a job built from `input` at time `now`
/// with the requirements serialised as `requirements`.
pub open spec fn asks_to_store_job(
    step: Step<Submission>,
    input: JobRequestModel,
    now: u64,
    requirements: Seq<char>,
) -> bool {
    match step {
        Step::Ask(
            Submission::CreatingEntry,
            StoreRequest::CreateEntry(EntryTypes::AcpJob(job)),
        ) => job@ == new_job_model(input, now, requirements),
        _ => false,
    }
}

/// Whether `step` ends the operation with a refusal of the library's own,
/// worded `reason`.
pub open spec fn refuses_with(step: Step<Submission>, reason: Seq<char>) -> bool {
    match step {
        Step::Done(Err(AcpError::Guest(text))) => text@ == reason,
        _ => false,
    }
}

/// Whether a profile answers a query: the query is empty, or its lower-case
/// form stands in the lower-case form of the name or of the description.
pub open spec fn matches_query(query: Seq<char>, agent: AgentModel) -> bool {
    ||| query.len() == 0
    ||| is_substring(lowercase_of(query), lowercase_of(agent.name))
    ||| is_substring(lowercase_of(query), lowercase_of(agent.description))
}

/// The profile that a fetched record decodes to, if there is one.
pub open spec fn agent_in(record: Option<Record>) -> Option<AcpAgent> {
    match record {
        Some(r) => match r.entry {
            Some(payload) => payload.as_agent,
            None => None,
        },
        None => None,
    }
}

/// The job that a fetched record decodes to, if there is one.
pub open spec fn job_in(record: Option<Record>) -> Option<AcpJob> {
    match record {
        Some(r) => match r.entry {
            Some(payload) => payload.as_job,
            None => None,
        },
        None => None,
    }
}

/// The job that a fetched record decodes to, as mathematical values.
pub open spec fn job_model_in(record: Option<Record>) -> Option<JobModel> {
    match job_in(record) {
        Some(job) => Some(job@),
        None => None,
    }
}

/// The line that a fetched record adds to the result of browsing, if any.
pub open spec fn listing_of(query: Seq<char>, record: Option<Record>) -> Option<AgentInfoModel> {
    match agent_in(record) {
        Some(agent) => if matches_query(query, agent@) {
            Some(AgentInfoModel { agent: agent@, agent_hash: record->0.action_address@ })
        } else {
            None
        },
        None => None,
    }
}

/// The result of browsing: the lines of the fetched records, in their order.
pub open spec fn listings(query: Seq<char>, records: Seq<Option<Record>>) -> Seq<AgentInfoModel>
    decreases records.len(),
{
    if records.len() == 0 {
        Seq::empty()
    } else {
        let rest = listings(query, records.drop_last());
        match listing_of(query, records.last()) {
            Some(info) => rest.push(info),
            None => rest,
        }
    }
}

/// The jobs among the fetched records, in their order.
pub open spec fn jobs_in(records: Seq<Option<Record>>) -> Seq<JobModel>
    decreases records.len(),
{
    if records.len() == 0 {
        Seq::empty()
    } else {
        let rest = jobs_in(records.drop_last());
        match job_in(records.last()) {
            Some(job) => rest.push(job@),
            None => rest,
        }
    }
}

/// The views of a list of lines.
pub open spec fn info_models(infos: Seq<AcpAgentInfo>) -> Seq<AgentInfoModel> {
    Seq::new(infos.len(), |i: int| infos[i]@)
}

/// The views of a list of jobs.
pub open spec fn job_models(jobs: Seq<AcpJob>) -> Seq<JobModel> {
    Seq::new(jobs.len(), |i: int| jobs[i]@)
}

/// The links that lead to every registered profile.
pub open spec fn agents_index_model() -> LinkQuery {
    LinkQuery { base: LinkBase::Anchor("all_agents"), link_type: LinkTypes::AllAgents }
}

/// The links that lead to the caller's jobs.
pub open spec fn jobs_index_model() -> LinkQuery {
    LinkQuery { base: LinkBase::Identity, link_type: LinkTypes::AgentToJobs }
}

/// The links to follow when browsing: those of the anchor of all agents.
pub fn agents_index() -> (query: LinkQuery)
    ensures
        query == agents_index_model(),
{
    LinkQuery { base: LinkBase::Anchor(all_agents_path()), link_type: LinkTypes::AllAgents }
}

/// The links to follow for the caller's job history: those from its own
/// identity to its jobs.
pub fn jobs_index() -> (query: LinkQuery)
    ensures
        query == jobs_index_model(),
{
    LinkQuery { base: LinkBase::Identity, link_type: LinkTypes::AgentToJobs }
}

/// Name of the anchor from which every profile is linked.
pub fn all_agents_path() -> (path: &'static str)
    ensures
        path == "all_agents",
{
    "all_agents"
}

/// Decides a match from the lower-case forms of the query, the name and the
/// description.
pub fn matches_lowered(
    query: &str,
    lowered_query: &str,
    lowered_name: &str,
    lowered_description: &str,
) -> (found: bool)
    ensures
        found == (query@.len() == 0 || is_substring(lowered_query@, lowered_name@) || is_substring(
            lowered_query@,
            lowered_description@,
        )),
{
    query.is_empty() || contains_text(lowered_name, lowered_query) || contains_text(
        lowered_description,
        lowered_query,
    )
}

/// Whether the profile answers the query, whatever the case of the letters.
pub fn agent_matches(agent: &AcpAgent, query: &str) -> (found: bool)
    ensures
        found == matches_query(query@, agent@),
{
    let lowered_query = to_lowercase(query);
    let lowered_name = to_lowercase(agent.name.as_str());
    let lowered_description = to_lowercase(agent.description.as_str());
    matches_lowered(
        query,
        lowered_query.as_str(),
        lowered_name.as_str(),
        lowered_description.as_str(),
    )
}

/// A second copy of a profile.
pub fn duplicate_agent(agent: &AcpAgent) -> (copy: AcpAgent)
    ensures
        copy == *agent,
{
    AcpAgent {
        wallet_address: agent.wallet_address.clone(),
        session_key_id: agent.session_key_id,
        name: agent.name.clone(),
        description: agent.description.clone(),
        registered_at: agent.registered_at,
    }
}

/// A second copy of a job.
pub fn duplicate_job(job: &AcpJob) -> (copy: AcpJob)
    ensures
        copy@ == job@,
{
    let mut phases: Vec<String> = Vec::new();
    let mut i: usize = 0;
    while i < job.phases.len()
        invariant
            i <= job.phases.len(),
            phases@.len() == i,
            forall|k: int| 0 <= k < i ==> phases@[k]@ == job.phases@[k]@,
        decreases job.phases.len() - i,
    {
        phases.push(job.phases[i].clone());
        i = i + 1;
    }
    let deliverable = match &job.deliverable {
        Some(text) => Some(text.clone()),
        None => None,
    };
    assert(phases.deep_view() =~= job.phases.deep_view());
    AcpJob {
        job_id: job.job_id.clone(),
        phases,
        escrow_hash: job.escrow_hash.clone(),
        agent_wallet_address: job.agent_wallet_address.clone(),
        job_offering_name: job.job_offering_name.clone(),
        service_requirements: job.service_requirements.clone(),
        created_at: job.created_at,
        current_phase: job.current_phase.clone(),
        deliverable,
    }
}

/// The profiles that answer the query, among the records fetched from the
/// links of the anchor of all agents. A link whose target is missing, has no
/// readable entry or is no profile adds nothing; the others come in the order
/// of the links.
pub fn browse_agents(
    input: BrowseAgentsQuery,
    records: &Vec<Option<Record>>,
) -> (agents: Vec<AcpAgentInfo>)
    ensures
        info_models(agents@) == listings(input.query@, records@),
{
    let mut agents: Vec<AcpAgentInfo> = Vec::new();
    let mut i: usize = 0;
    while i < records.len()
        invariant
            i <= records.len(),
            info_models(agents@) == listings(input.query@, records@.take(i as int)),
        decreases records.len() - i,
    {
        let ghost before = agents@;
        proof {
            assert(records@.take(i + 1).drop_last() =~= records@.take(i as int));
            assert(records@.take(i + 1).last() == records@[i as int]);
        }
        if let Some(record) = &records[i] {
            if let Some(payload) = &record.entry {
                if let Some(agent) = &payload.as_agent {
                    if agent_matches(agent, input.query.as_str()) {
                        let info = AcpAgentInfo {
                            wallet_address: agent.wallet_address.clone(),
                            session_key_id: agent.session_key_id,
                            name: agent.name.clone(),
                            description: agent.description.clone(),
                            registered_at: agent.registered_at,
                            agent_hash: record.action_address,
                        };
                        agents.push(info);
                        assert(info_models(agents@) =~= info_models(before).push(info@));
                    }
                }
            }
        }
        i = i + 1;
    }
    assert(records@.take(records.len() as int) =~= records@);
    agents
}

/// The jobs among the records fetched from the links of the caller's
/// identity to its jobs. A link whose target is missing, has no readable entry
/// or is no job adds nothing; the others come in the order of the links.
pub fn get_my_jobs(records: &Vec<Option<Record>>) -> (jobs: Vec<AcpJob>)
    ensures
        job_models(jobs@) == jobs_in(records@),
{
    let mut jobs: Vec<AcpJob> = Vec::new();
    let mut i: usize = 0;
    while i < records.len()
        invariant
            i <= records.len(),
            job_models(jobs@) == jobs_in(records@.take(i as int)),
        decreases records.len() - i,
    {
        let ghost before = jobs@;
        proof {
            assert(records@.take(i + 1).drop_last() =~= records@.take(i as int));
            assert(records@.take(i + 1).last() == records@[i as int]);
        }
        if let Some(record) = &records[i] {
            if let Some(payload) = &record.entry {
                if let Some(job) = &payload.as_job {
                    let copy = duplicate_job(job);
                    jobs.push(copy);
                    assert(job_models(jobs@) =~= job_models(before).push(job@));
                }
            }
        }
        i = i + 1;
    }
    assert(records@.take(records.len() as int) =~= records@);
    jobs
}

/// The job that the fetched record holds. A record that is missing, has no
/// readable entry or is no job gives `None`.
pub fn get_job(record: Option<Record>) -> (job: Option<AcpJob>)
    ensures
        job == job_in(record),
{
    match record {
        Some(r) => match r.entry {
            Some(payload) => payload.as_job,
            None => None,
        },
        None => None,
    }
}

/// The record of a job requested at time `now`: in its first phase, with the
/// three initial phases, the identifier made of the time, and nothing
/// delivered.
pub fn new_job(input: &JobCreationInput, now: u64, requirements: String) -> (job: AcpJob)
    ensures
        job@ == new_job_model(input@, now, requirements@),
{
    let mut phases: Vec<String> = Vec::new();
    phases.push(String::from_str("requested"));
    phases.push(String::from_str("negotiation"));
    phases.push(String::from_str("transaction"));
    assert(phases.deep_view() =~= initial_phases());
    let number = decimal_text(now);
    AcpJob {
        job_id: String::from_str("job_").concat(number.as_str()),
        phases,
        escrow_hash: input.escrow_hash.clone(),
        agent_wallet_address: input.agent_wallet_address.clone(),
        job_offering_name: input.job_offering_name.clone(),
        service_requirements: requirements,
        created_at: now,
        current_phase: String::from_str("requested"),
        deliverable: None,
    }
}

/// An error of `serde_json`.
#[verifier::external_type_specification]
#[verifier::external_body]
pub struct ExJsonError(serde_json::Error);

/// Calls `serde_json::to_string` on the requirements. The text lists the
/// pairs in the order in which the map is walked, which differs from one
/// process to the next: nothing is claimed of the result.
#[verifier::external_body]
pub(crate) fn requirements_to_json(
    requirements: &HashMap<String, String>,
) -> (json: Result<String, serde_json::Error>) {
    serde_json::to_string(requirements)
}

/// Calls `to_string` on an error of `serde_json`, which gives its message.
/// Nothing is claimed of the text.
#[verifier::external_body]
pub(crate) fn json_error_text(error: &serde_json::Error) -> (text: String) {
    error.to_string()
}

/// The step that follows the serialising of the requirements at time `now`:
/// with the text, the job is built and handed to the store; with a failure,
/// the recording ends and gives the failure's message.
pub fn submit_serialized(
    input: &JobCreationInput,
    now: u64,
    serialized: Result<String, String>,
) -> (step: Step<Submission>)
    ensures
        match serialized {
            Ok(requirements) => asks_to_store_job(step, input@, now, requirements@),
            Err(message) => step == Step::<Submission>::Done(Err(AcpError::Guest(message))),
        },
{
    match serialized {
        Ok(requirements) => Step::Ask(
            Submission::CreatingEntry,
            StoreRequest::CreateEntry(EntryTypes::AcpJob(new_job(input, now, requirements))),
        ),
        Err(message) => Step::Done(Err(AcpError::Guest(message))),
    }
}

/// One step of registering a profile. The caller begins with
/// `Registration::Idle` and `StoreReply::Begin`, carries out each request and
/// comes back with the state and the answer, until the step is `Done`: with
/// the profile's address, or with the failure that ended it.
pub fn register_agent(
    agent: &AcpAgent,
    state: Registration,
    reply: StoreReply,
) -> (step: Step<Registration>)
    ensures
        step == registration_step(*agent, state, reply),
{
    match (state, reply) {
        (_, StoreReply::Failed(reason)) => Step::Done(Err(AcpError::Host(reason))),
        (Registration::Idle, StoreReply::Begin) => Step::Ask(
            Registration::CreatingEntry,
            StoreRequest::CreateEntry(EntryTypes::AcpAgent(duplicate_agent(agent))),
        ),
        (Registration::CreatingEntry, StoreReply::EntryCreated(profile)) => Step::Ask(
            Registration::AskingIdentity(profile),
            StoreRequest::AgentInfo,
        ),
        (Registration::AskingIdentity(profile), StoreReply::Identity(me)) => Step::Ask(
            Registration::LinkingProfile(profile),
            StoreRequest::CreateLink {
                base: me,
                target: profile,
                link_type: LinkTypes::AgentToProfile,
            },
        ),
        (Registration::LinkingProfile(profile), StoreReply::LinkCreated) => Step::Ask(
            Registration::EnsuringAnchor(profile),
            StoreRequest::EnsureAnchor {
                path: all_agents_path(),
                link_type: LinkTypes::AllAgents,
            },
        ),
        (Registration::EnsuringAnchor(profile), StoreReply::AnchorReady(anchor)) => Step::Ask(
            Registration::LinkingAnchor(profile),
            StoreRequest::CreateLink {
                base: anchor,
                target: profile,
                link_type: LinkTypes::AllAgents,
            },
        ),
        (Registration::LinkingAnchor(profile), StoreReply::LinkCreated) => Step::Done(Ok(profile)),
        _ => Step::Done(Err(AcpError::OutOfTurn)),
    }
}

/// One step of recording a job. The caller begins with `Submission::Idle`
/// and `StoreReply::Begin`, carries out each request and comes back with the
/// state and the answer, until the step is `Done`: with the job's address, or
/// with the failure that ended it. When the time comes in, the requirements
/// are serialised and the job is built; the escrow is not looked at.
pub fn execute_acp_job(
    input: &JobCreationInput,
    state: Submission,
    reply: StoreReply,
) -> (step: Step<Submission>)
    ensures
        match (state, reply) {
            (Submission::AskingTime, StoreReply::Time(now)) => {
                ||| exists|requirements: Seq<char>|
                    asks_to_store_job(step, input@, now, requirements)
                ||| exists|reason: Seq<char>| refuses_with(step, reason)
            },
            _ => step == submission_step(state, reply),
        },
{
    match (state, reply) {
        (_, StoreReply::Failed(reason)) => Step::Done(Err(AcpError::Host(reason))),
        (Submission::Idle, StoreReply::Begin) => Step::Ask(
            Submission::AskingTime,
            StoreRequest::SysTime,
        ),
        (Submission::AskingTime, StoreReply::Time(now)) => {
            let serialized = match requirements_to_json(&input.service_requirements) {
                Ok(text) => Ok(text),
                Err(error) => Err(json_error_text(&error)),
            };
            let ghost outcome = serialized;
            let step = submit_serialized(input, now, serialized);
            proof {
                match outcome {
                    Ok(text) => {
                        assert(asks_to_store_job(step, input@, now, text@));
                    },
                    Err(message) => {
                        assert(refuses_with(step, message@));
                    },
                }
            }
            step
        },
        (Submission::CreatingEntry, StoreReply::EntryCreated(job)) => Step::Ask(
            Submission::AskingIdentity(job),
            StoreRequest::AgentInfo,
        ),
        (Submission::AskingIdentity(job), StoreReply::Identity(me)) => Step::Ask(
            Submission::LinkingJob(job),
            StoreRequest::CreateLink { base: me, target: job, link_type: LinkTypes::AgentToJobs },
        ),
        (Submission::LinkingJob(job), StoreReply::LinkCreated) => Step::Done(Ok(job)),
        _ => Step::Done(Err(AcpError::OutOfTurn)),
    }
}

/// The balance of a wallet. No settlement layer is asked: an address in the
/// wire format gets a balance of zero, any other text is refused.
pub fn get_wallet_balance(address: String) -> (balance: Result<WalletBalance, AcpError>)
    ensures
        match balance {
            Ok(b) => is_wallet_address(address@) && b@ == (BalanceModel {
                address: address@,
                balance_wei: "0"@,
                balance_eth: "0.0"@,
            }),
            Err(AcpError::Guest(reason)) => !is_wallet_address(address@) && reason@
                == "Invalid Ethereum address format"@,
            Err(_) => false,
        },
{
    if !has_wallet_address_format(address.as_str()) {
        return Err(AcpError::Guest(String::from_str("Invalid Ethereum address format")));
    }
    Ok(
        WalletBalance {
            address,
            balance_wei: String::from_str("0"),
            balance_eth: String::from_str("0.0"),
        },
    )
}

/// With an empty query every record that holds a profile gives a line, and
/// the line shows that profile under the record's address.
pub proof fn empty_query_lists_every_profile(query: Seq<char>, record: Record, agent: AcpAgent)
    requires
        query.len() == 0,
        agent_in(Some(record)) == Some(agent),
    ensures
        listing_of(query, Some(record)) == Some(
            AgentInfoModel { agent: agent@, agent_hash: record.action_address@ },
        ),
{
}

/// One more fetched record adds its line, if it has one, at the end of the
/// result of browsing and changes nothing before it.
pub proof fn listings_of_one_more(
    query: Seq<char>,
    records: Seq<Option<Record>>,
    record: Option<Record>,
)
    ensures
        listings(query, records.push(record)) == match listing_of(query, record) {
            Some(info) => listings(query, records).push(info),
            None => listings(query, records),
        },
{
    assert(records.push(record).drop_last() =~= records);
}

/// Once a profile is linked from the anchor, browsing with an empty query
/// shows it: the result is the one before with the profile's line added. If
/// none of the records fetched before gives that line, the result holds it
/// exactly once.
pub proof fn registered_profile_listed_once(
    query: Seq<char>,
    records: Seq<Option<Record>>,
    record: Record,
    agent: AcpAgent,
)
    requires
        query.len() == 0,
        agent_in(Some(record)) == Some(agent),
    ensures
        listings(query, records.push(Some(record))) == listings(query, records).push(
            AgentInfoModel { agent: agent@, agent_hash: record.action_address@ },
        ),
        (forall|i: int|
            0 <= i < records.len() ==> listing_of(query, #[trigger] records[i]) != Some(
                AgentInfoModel { agent: agent@, agent_hash: record.action_address@ },
            )) ==> !listings(query, records).contains(
            AgentInfoModel { agent: agent@, agent_hash: record.action_address@ },
        ),
{
    listings_of_one_more(query, records, Some(record));
    listings_are_the_matches(query, records);
}

/// Every line of the result of browsing comes from one of the fetched
/// records, and every fetched record with a line is in the result.
pub proof fn listings_are_the_matches(query: Seq<char>, records: Seq<Option<Record>>)
    ensures
        forall|info: AgentInfoModel| #[trigger]
            listings(query, records).contains(info) <==> exists|i: int|
                0 <= i < records.len() && listing_of(query, #[trigger] records[i]) == Some(info),
    decreases records.len(),
{
    if records.len() > 0 {
        let rest = records.drop_last();
        listings_are_the_matches(query, rest);
        let before = listings(query, rest);
        let all = listings(query, records);
        assert forall|info: AgentInfoModel| #[trigger]
            all.contains(info) <==> exists|i: int|
                0 <= i < records.len() && listing_of(query, #[trigger] records[i]) == Some(
                    info,
                ) by {
            if all.contains(info) {
                let k = choose|k: int| 0 <= k < all.len() && all[k] == info;
                if k < before.len() {
                    assert(before[k] == info);
                    assert(before.contains(info));
                    let i = choose|i: int|
                        0 <= i < rest.len() && listing_of(query, #[trigger] rest[i]) == Some(
                            info,
                        );
                    assert(records[i] == rest[i]);
                } else {
                    assert(listing_of(query, records[records.len() - 1]) == Some(info));
                }
            }
            if exists|i: int|
                0 <= i < records.len() && listing_of(query, #[trigger] records[i]) == Some(info) {
                let i = choose|i: int|
                    0 <= i < records.len() && listing_of(query, #[trigger] records[i]) == Some(
                        info,
                    );
                if i < rest.len() {
                    assert(rest[i] == records[i]);
                    assert(before.contains(info));
                    let k = choose|k: int| 0 <= k < before.len() && before[k] == info;
                    assert(all[k] == info);
                } else {
                    assert(all[all.len() - 1] == info);
                }
            }
        }
    }
}

/// The order in which the store lists the links does not change which
/// profiles are found: the same records in another order give the same lines.
pub proof fn browsing_ignores_link_order(
    query: Seq<char>,
    one: Seq<Option<Record>>,
    other: Seq<Option<Record>>,
)
    requires
        forall|r: Option<Record>| one.contains(r) <==> other.contains(r),
    ensures
        forall|info: AgentInfoModel|
            listings(query, one).contains(info) <==> listings(query, other).contains(info),
{
    listings_are_the_matches(query, one);
    listings_are_the_matches(query, other);
    assert forall|info: AgentInfoModel|
        listings(query, one).contains(info) <==> listings(query, other).contains(info) by {
        if listings(query, one).contains(info) {
            let i = choose|i: int|
                0 <= i < one.len() && listing_of(query, #[trigger] one[i]) == Some(info);
            assert(one.contains(one[i]));
            let j = choose|j: int| 0 <= j < other.len() && other[j] == one[i];
            assert(listing_of(query, other[j]) == Some(info));
        }
        if listings(query, other).contains(info) {
            let i = choose|i: int|
                0 <= i < other.len() && listing_of(query, #[trigger] other[i]) == Some(info);
            assert(other.contains(other[i]));
            let j = choose|j: int| 0 <= j < one.len() && one[j] == other[i];
            assert(listing_of(query, one[j]) == Some(info));
        }
    }
}

/// One more fetched record adds its job, if it holds one, at the end of the
/// list of jobs and changes nothing before it.
pub proof fn jobs_of_one_more(records: Seq<Option<Record>>, record: Option<Record>)
    ensures
        jobs_in(records.push(record)) == match job_in(record) {
            Some(job) => jobs_in(records).push(job@),
            None => jobs_in(records),
        },
{
    assert(records.push(record).drop_last() =~= records);
}

/// Whatever the order of the links, the list of jobs holds the job of every
/// fetched record that has one, and nothing else.
pub proof fn jobs_are_the_decodable(records: Seq<Option<Record>>)
    ensures
        forall|job: JobModel| #[trigger]
            jobs_in(records).contains(job) <==> exists|i: int|
                0 <= i < records.len() && job_model_in(#[trigger] records[i]) == Some(job),
    decreases records.len(),
{
    if records.len() > 0 {
        let rest = records.drop_last();
        jobs_are_the_decodable(rest);
        let before = jobs_in(rest);
        let all = jobs_in(records);
        assert forall|job: JobModel| #[trigger]
            all.contains(job) <==> exists|i: int|
                0 <= i < records.len() && job_model_in(#[trigger] records[i]) == Some(job) by {
            if all.contains(job) {
                let k = choose|k: int| 0 <= k < all.len() && all[k] == job;
                if k < before.len() {
                    assert(before[k] == job);
                    assert(before.contains(job));
                    let i = choose|i: int|
                        0 <= i < rest.len() && job_model_in(#[trigger] rest[i]) == Some(job);
                    assert(records[i] == rest[i]);
                } else {
                    assert(job_model_in(records[records.len() - 1]) == Some(job));
                }
            }
            if exists|i: int|
                0 <= i < records.len() && job_model_in(#[trigger] records[i]) == Some(job) {
                let i = choose|i: int|
                    0 <= i < records.len() && job_model_in(#[trigger] records[i]) == Some(job);
                if i < rest.len() {
                    assert(rest[i] == records[i]);
                    assert(before.contains(job));
                    let k = choose|k: int| 0 <= k < before.len() && before[k] == job;
                    assert(all[k] == job);
                } else {
                    assert(all[all.len() - 1] == job);
                }
            }
        }
    }
}

/// The order in which the store lists the links does not change which jobs
/// are found: the same records in another order give the same jobs.
pub proof fn job_history_ignores_link_order(one: Seq<Option<Record>>, other: Seq<Option<Record>>)
    requires
        forall|r: Option<Record>| one.contains(r) <==> other.contains(r),
    ensures
        forall|job: JobModel| jobs_in(one).contains(job) <==> jobs_in(other).contains(job),
{
    jobs_are_the_decodable(one);
    jobs_are_the_decodable(other);
    assert forall|job: JobModel| jobs_in(one).contains(job) <==> jobs_in(other).contains(job) by {
        if jobs_in(one).contains(job) {
            let i = choose|i: int|
                0 <= i < one.len() && job_model_in(#[trigger] one[i]) == Some(job);
            assert(one.contains(one[i]));
            let j = choose|j: int| 0 <= j < other.len() && other[j] == one[i];
            assert(job_model_in(other[j]) == Some(job));
        }
        if jobs_in(other).contains(job) {
            let i = choose|i: int|
                0 <= i < other.len() && job_model_in(#[trigger] other[i]) == Some(job);
            assert(other.contains(other[i]));
            let j = choose|j: int| 0 <= j < one.len() && one[j] == other[i];
            assert(job_model_in(one[j]) == Some(job));
        }
    }
}

/// A stored job comes back as it went in: the record that holds it gives
/// that job and no other.
pub proof fn stored_job_comes_back(address: Address, as_agent: Option<AcpAgent>, job: AcpJob)
    ensures
        job_in(
            Some(
                Record {
                    action_address: address,
                    entry: Some(EntryPayload { as_agent, as_job: Some(job) }),
                },
            ),
        ) == Some(job),
{
}

/// An address that resolves to nothing, or to a record without a readable
/// entry, holds no job.
pub proof fn absent_record_holds_no_job(address: Address)
    ensures
        job_in(None) == None::<AcpJob>,
        job_in(Some(Record { action_address: address, entry: None })) == None::<AcpJob>,
{
}

/// A new job is admitted by the rules exactly when the escrow hash and the
/// wallet address of the request have their wire formats.
pub proof fn new_job_admitted_iff(input: JobRequestModel, now: u64, requirements: Seq<char>)
    ensures
        job_verdict(new_job_model(input, now, requirements)) == Verdict::Valid
            <==> is_transaction_hash(input.escrow_hash) && is_wallet_address(
            input.agent_wallet_address,
        ),
{
    let job = new_job_model(input, now, requirements);
    reveal_strlit("job_");
    assert(job.job_id[0] == 'j');
    assert(!is_white_space('j'));
    assert(!is_blank(job.job_id));
    assert(job.phases.len() == 3);
}

/// Browsing follows the links that registration makes: the anchor that a
/// registration ensures and links the profile from, with the same kind of
/// link, is the one where browsing starts.
pub proof fn browsing_follows_registration(
    agent: AcpAgent,
    profile: Address,
    anchor: Address,
)
    ensures
        registration_step(agent, Registration::LinkingProfile(profile), StoreReply::LinkCreated)
            == Step::Ask(
            Registration::EnsuringAnchor(profile),
            StoreRequest::EnsureAnchor {
                path: agents_index_model().base->Anchor_0,
                link_type: agents_index_model().link_type,
            },
        ),
        registration_step(
            agent,
            Registration::EnsuringAnchor(profile),
            StoreReply::AnchorReady(anchor),
        ) == Step::Ask(
            Registration::LinkingAnchor(profile),
            StoreRequest::CreateLink {
                base: anchor,
                target: profile,
                link_type: agents_index_model().link_type,
            },
        ),
{
}

/// The job history follows the links that the recording of a job makes: from
/// the caller's identity, with the same kind of link.
pub proof fn job_history_follows_submission(job: Address, me: Address)
    ensures
        jobs_index_model().base == LinkBase::Identity,
        submission_step(Submission::AskingIdentity(job), StoreReply::Identity(me)) == Step::Ask(
            Submission::LinkingJob(job),
            StoreRequest::CreateLink {
                base: me,
                target: job,
                link_type: jobs_index_model().link_type,
            },
        ),
{
}

/// No link is asked for before the store has given the profile an address,
/// and every link points at that address.
pub proof fn registration_links_follow_the_entry(
    agent: AcpAgent,
    state: Registration,
    reply: StoreReply,
)
    ensures
        match registration_step(agent, state, reply) {
            Step::Ask(_, StoreRequest::CreateLink { target, .. }) => state
                == Registration::AskingIdentity(target) || state == Registration::EnsuringAnchor(
                target,
            ),
            _ => true,
        },
{
}

/// A failure of the store ends a registration at once, with that failure:
/// nothing more is asked, so no link is made for a profile that was refused.
pub proof fn failure_ends_registration(agent: AcpAgent, state: Registration, reason: String)
    ensures
        registration_step(agent, state, StoreReply::Failed(reason)) == Step::<Registration>::Done(
            Err(AcpError::Host(reason)),
        ),
{
}

/// The link to a job is asked for only once the store has given the job an
/// address, and it points at that address; a failure ends the recording.
pub proof fn submission_link_follows_the_entry(state: Submission, reply: StoreReply)
    ensures
        match submission_step(state, reply) {
            Step::Ask(_, StoreRequest::CreateLink { target, .. }) => state
                == Submission::AskingIdentity(target),
            _ => true,
        },
        reply matches StoreReply::Failed(reason) ==> submission_step(state, reply) == Step::<
            Submission,
        >::Done(Err(AcpError::Host(reason))),
{
}

} // verus!
