use vstd::prelude::*;

use crate::types::{Address, UsageMeterRates};

verus! {

/// A rate card as the registry stores it.
#[derive(Clone, Copy, Debug, PartialEq, Eq)]
pub struct RateCard {
    pub rates: UsageMeterRates,
    pub manifest_hash: [u8; 32],
}

/// A rate card as a developer submits it.
#[derive(Clone, Copy, Debug, PartialEq, Eq)]
pub struct RateCardInput {
    pub rates: UsageMeterRates,
    pub manifest_hash: [u8; 32],
}

/// The stored form of a submitted rate card.
pub open spec fn card_of(value: RateCardInput) -> RateCard {
    RateCard { rates: value.rates, manifest_hash: value.manifest_hash }
}

impl From<RateCardInput> for RateCard {
    fn from(value: RateCardInput) -> Self {
        RateCard { rates: value.rates, manifest_hash: value.manifest_hash }
    }
}

impl vstd::std_specs::convert::FromSpecImpl<RateCardInput> for RateCard {
    open spec fn obeys_from_spec() -> bool {
        true
    }

    open spec fn from_spec(value: RateCardInput) -> Self {
        card_of(value)
    }
}

/// What the registry keeps of one agent.
#[derive(Clone, Debug)]
pub struct AgentRecord {
    pub developer: Address,
    pub metadata_uri: Option<String>,
    pub runners: Vec<Address>,
    pub latest_rate_version: u32,
}

/// An agent as `get_agent` reports it.
#[derive(Clone, Debug)]
pub struct AgentDetails {
    pub agent_id: u32,
    pub developer: Address,
    pub metadata_uri: Option<String>,
    pub runners: Vec<Address>,
    pub latest_rate_version: u32,
}

/// Why a registry operation was rejected.
#[derive(Clone, Copy, Debug, PartialEq, Eq, Structural)]
pub enum AgentRegistryError {
    AlreadyInitialized,
    AgentNotFound,
    Unauthorized,
    InvalidRunnerList,
    InvalidRates,
    RunnerNotFound,
}

/// `s` with later repeats of an address left out; first occurrences keep their order.
pub open spec fn dedup(s: Seq<Address>) -> Seq<Address>
    decreases s.len(),
{
    if s.len() == 0 {
        s
    } else {
        let prev = dedup(s.drop_last());
        if prev.contains(s.last()) {
            prev
        } else {
            prev.push(s.last())
        }
    }
}

/// `s` without any occurrence of `x`.
pub open spec fn without(s: Seq<Address>, x: Address) -> Seq<Address>
    decreases s.len(),
{
    if s.len() == 0 {
        s
    } else {
        let prev = without(s.drop_last(), x);
        if s.last() == x {
            prev
        } else {
            prev.push(s.last())
        }
    }
}

proof fn lemma_dedup_non_empty(s: Seq<Address>)
    requires
        s.len() > 0,
    ensures
        dedup(s).len() > 0,
    decreases s.len(),
{
    if s.len() > 1 {
        lemma_dedup_non_empty(s.drop_last());
    }
}

proof fn lemma_without_len(s: Seq<Address>, x: Address)
    ensures
        without(s, x).len() <= s.len(),
        without(s, x).len() == s.len() <==> !s.contains(x),
    decreases s.len(),
{
    if s.len() > 0 {
        lemma_without_len(s.drop_last(), x);
        assert(s =~= s.drop_last().push(s.last()));
        if s.drop_last().contains(x) {
            let j = choose|j: int| 0 <= j < s.drop_last().len() && s.drop_last()[j] == x;
            assert(s[j] == x);
        }
        if s.contains(x) && s.last() != x {
            let j = choose|j: int| 0 <= j < s.len() && s[j] == x;
            assert(s.drop_last()[j] == x);
        }
    }
}

/// `without(s, x)` is empty exactly when every entry of `s` is `x`.
proof fn lemma_without_empty(s: Seq<Address>, x: Address)
    ensures
        without(s, x).len() == 0 <==> (forall|i: int| 0 <= i < s.len() ==> s[i] == x),
    decreases s.len(),
{
    if s.len() > 0 {
        lemma_without_empty(s.drop_last(), x);
        lemma_without_len(s.drop_last(), x);
        if without(s, x).len() == 0 {
            assert forall|i: int| 0 <= i < s.len() implies s[i] == x by {
                if i < s.len() - 1 {
                    assert(s[i] == s.drop_last()[i]);
                }
            }
        }
        if forall|i: int| 0 <= i < s.len() ==> s[i] == x {
            assert forall|i: int| 0 <= i < s.drop_last().len() implies s.drop_last()[i] == x by {
                assert(s[i] == x);
            }
        }
    }
}

/// True when `addr` occurs in `list`.
fn contains_address(list: &Vec<Address>, addr: &Address) -> (r: bool)
    ensures
        r == list@.contains(*addr),
{
    let mut i: usize = 0;
    while i < list.len()
        invariant
            i <= list.len(),
            forall|j: int| 0 <= j < i ==> list@[j] != *addr,
        decreases list.len() - i,
    {
        if list[i] == *addr {
            return true;
        }
        i = i + 1;
    }
    false
}

/// The catalog of agents and their rate cards. Agent ids are handed out from
/// 1 upwards; rate-card versions of an agent run from 1 to its latest version.
pub struct AgentRegistry {
    counter_set: bool,
    agents: Vec<AgentRecord>,
    rate_cards: Vec<Vec<RateCard>>,
}

impl AgentRegistry {
    pub closed spec fn wf(&self) -> bool {
        &&& self.agents.len() == self.rate_cards.len()
        &&& self.agents.len() < u32::MAX
        &&& self.agents.len() > 0 ==> self.counter_set
        &&& forall|i: int|
            0 <= i < self.agents.len() ==> {
                &&& self.rate_cards@[i].len() == self.agents@[i].latest_rate_version as int
                &&& self.agents@[i].latest_rate_version >= 1
                &&& forall|j: int|
                    0 <= j < self.rate_cards@[i].len()
                        ==> #[trigger] self.rate_cards@[i]@[j].rates.is_non_negative()
            }
    }

    /// Whether the id counter exists, set by `init` or by a first registration.
    pub closed spec fn is_initialized(&self) -> bool {
        self.counter_set
    }

    /// Number of agents registered so far.
    pub closed spec fn agent_count(&self) -> nat {
        self.agents.len() as nat
    }

    pub open spec fn has_agent(&self, agent_id: u32) -> bool {
        1 <= agent_id <= self.agent_count()
    }

    pub closed spec fn developer_spec(&self, agent_id: u32) -> Address {
        self.agents@[agent_id - 1].developer
    }

    pub closed spec fn metadata_spec(&self, agent_id: u32) -> Option<String> {
        self.agents@[agent_id - 1].metadata_uri
    }

    pub closed spec fn runners_spec(&self, agent_id: u32) -> Seq<Address> {
        self.agents@[agent_id - 1].runners@
    }

    pub closed spec fn latest_version_spec(&self, agent_id: u32) -> u32 {
        self.agents@[agent_id - 1].latest_rate_version
    }

    /// The rate card of `agent_id` at `version`, if it was published.
    pub closed spec fn rate_card_spec(&self, agent_id: u32, version: u32) -> Option<RateCard> {
        if self.has_agent(agent_id) && 1 <= version <= self.rate_cards@[agent_id - 1].len() {
            Some(self.rate_cards@[agent_id - 1]@[version - 1])
        } else {
            None
        }
    }

    /// Whether `runner` is currently registered to run `agent_id`.
    pub open spec fn is_runner_spec(&self, agent_id: u32, runner: Address) -> bool {
        self.has_agent(agent_id) && self.runners_spec(agent_id).contains(runner)
    }

    /// Everything of agents other than `agent_id` is as in `other`, and so
    /// is the id counter.
    pub closed spec fn others_unchanged(&self, other: &AgentRegistry, agent_id: u32) -> bool {
        &&& self.counter_set == other.counter_set
        &&& self.agents.len() == other.agents.len()
        &&& self.rate_cards.len() == other.rate_cards.len()
        &&& forall|i: int|
            0 <= i < self.agents.len() && i != agent_id - 1 ==> {
                &&& self.agents@[i] == other.agents@[i]
                &&& self.rate_cards@[i] == other.rate_cards@[i]
            }
    }

    /// The same agents and rate cards as `other`.
    pub closed spec fn same_catalog(&self, other: &AgentRegistry) -> bool {
        self.agents@ == other.agents@ && self.rate_cards@ == other.rate_cards@
    }

    /// Every agent of `other` is still here, with the same record and rate cards.
    pub closed spec fn keeps_agents_of(&self, other: &AgentRegistry) -> bool {
        &&& other.agents.len() <= self.agents.len()
        &&& forall|i: int|
            0 <= i < other.agents.len() ==> {
                &&& self.agents@[i] == other.agents@[i]
                &&& self.rate_cards@[i] == other.rate_cards@[i]
            }
    }

    /// Every published rate is non-negative.
    pub proof fn lemma_rate_cards_non_negative(&self, agent_id: u32, version: u32)
        requires
            self.wf(),
        ensures
            self.rate_card_spec(agent_id, version) matches Some(card)
                ==> card.rates.is_non_negative(),
    {
        if self.rate_card_spec(agent_id, version) is Some {
            let i = agent_id - 1;
            assert(self.rate_cards@[i]@[version - 1].rates.is_non_negative());
        }
    }

    /// An empty registry whose id counter is not set yet.
    pub fn new() -> (r: AgentRegistry)
        ensures
            r.wf(),
            !r.is_initialized(),
            r.agent_count() == 0,
    {
        AgentRegistry { counter_set: false, agents: Vec::new(), rate_cards: Vec::new() }
    }

    /// Sets the agent-id counter; fails if it is set already.
    pub fn init(&mut self) -> (r: Result<(), AgentRegistryError>)
        requires
            old(self).wf(),
        ensures
            final(self).wf(),
            r is Err <==> old(self).is_initialized(),
            r is Err ==> r == Err::<(), _>(AgentRegistryError::AlreadyInitialized) && *final(self)
                == *old(self),
            r is Ok ==> final(self).is_initialized() && final(self).same_catalog(old(self)),
    {
        if self.counter_set {
            return Err(AgentRegistryError::AlreadyInitialized);
        }
        self.counter_set = true;
        Ok(())
    }

    fn agent_index(&self, agent_id: u32) -> (r: Result<usize, AgentRegistryError>)
        requires
            self.wf(),
        ensures
            r is Ok <==> self.has_agent(agent_id),
            r is Ok ==> r.unwrap() == agent_id - 1,
            r is Err ==> r == Err::<usize, _>(AgentRegistryError::AgentNotFound),
    {
        if agent_id == 0 || agent_id as usize > self.agents.len() {
            return Err(AgentRegistryError::AgentNotFound);
        }
        Ok((agent_id - 1) as usize)
    }

    /// Registers an agent with its developer, metadata, runners (repeats
    /// dropped) and first rate card, which becomes version 1.
    pub fn register_agent(
        &mut self,
        developer: Address,
        metadata_uri: Option<String>,
        runners: Vec<Address>,
        initial_rate_card: RateCardInput,
    ) -> (r: Result<u32, AgentRegistryError>)
        requires
            old(self).wf(),
            old(self).agent_count() + 1 < u32::MAX,
        ensures
            final(self).wf(),
            r is Err <==> runners@.len() == 0 || !initial_rate_card.rates.is_non_negative(),
            runners@.len() == 0 ==> r == Err::<u32, _>(AgentRegistryError::InvalidRunnerList),
            runners@.len() > 0 && !initial_rate_card.rates.is_non_negative() ==> r == Err::<
                u32,
                _,
            >(AgentRegistryError::InvalidRates),
            r is Err ==> *final(self) == *old(self),
            r is Ok ==> {
                let id = r.unwrap();
                &&& id == old(self).agent_count() + 1
                &&& final(self).agent_count() == id
                &&& final(self).is_initialized()
                &&& final(self).keeps_agents_of(old(self))
                &&& final(self).developer_spec(id) == developer
                &&& final(self).metadata_spec(id) == metadata_uri
                &&& final(self).runners_spec(id) == dedup(runners@)
                &&& final(self).latest_version_spec(id) == 1
                &&& forall|v: u32|
                    final(self).rate_card_spec(id, v) == if v == 1 {
                        Some(card_of(initial_rate_card))
                    } else {
                        None
                    }
            },
    {
        if runners.len() == 0 {
            return Err(AgentRegistryError::InvalidRunnerList);
        }
        if !initial_rate_card.rates.validate_non_negative() {
            return Err(AgentRegistryError::InvalidRates);
        }
        let mut normalized: Vec<Address> = Vec::new();
        let mut i: usize = 0;
        while i < runners.len()
            invariant
                i <= runners.len(),
                normalized@ == dedup(runners@.subrange(0, i as int)),
            decreases runners.len() - i,
        {
            let runner = runners[i];
            proof {
                assert(runners@.subrange(0, i + 1).drop_last() =~= runners@.subrange(0, i as int));
            }
            if !contains_address(&normalized, &runner) {
                normalized.push(runner);
            }
            i = i + 1;
        }
        proof {
            assert(runners@.subrange(0, runners@.len() as int) =~= runners@);
            lemma_dedup_non_empty(runners@);
        }
        if normalized.len() == 0 {
            return Err(AgentRegistryError::InvalidRunnerList);
        }
        let agent_id = (self.agents.len() + 1) as u32;
        self.counter_set = true;
        let record = AgentRecord {
            developer,
            metadata_uri,
            runners: normalized,
            latest_rate_version: 1,
        };
        self.agents.push(record);
        let mut cards: Vec<RateCard> = Vec::new();
        cards.push(RateCard::from(initial_rate_card));
        self.rate_cards.push(cards);
        proof {
            assert(self.rate_cards@[agent_id - 1]@ =~= seq![card_of(initial_rate_card)]);
        }
        Ok(agent_id)
    }

    /// Replaces the metadata URI of an agent.
    pub fn set_metadata_uri(&mut self, agent_id: u32, metadata_uri: Option<String>) -> (r: Result<
        (),
        AgentRegistryError,
    >)
        requires
            old(self).wf(),
        ensures
            final(self).wf(),
            r is Ok <==> old(self).has_agent(agent_id),
            r is Err ==> r == Err::<(), _>(AgentRegistryError::AgentNotFound) && *final(self)
                == *old(self),
            r is Ok ==> {
                &&& final(self).others_unchanged(old(self), agent_id)
                &&& final(self).metadata_spec(agent_id) == metadata_uri
                &&& final(self).developer_spec(agent_id) == old(self).developer_spec(agent_id)
                &&& final(self).runners_spec(agent_id) == old(self).runners_spec(agent_id)
                &&& final(self).latest_version_spec(agent_id) == old(self).latest_version_spec(
                    agent_id,
                )
            },
    {
        let idx = self.agent_index(agent_id)?;
        self.agents[idx].metadata_uri = metadata_uri;
        Ok(())
    }

    /// Adds a runner to an agent; a runner already listed is left as it is.
    pub fn add_runner(&mut self, agent_id: u32, runner: Address) -> (r: Result<
        (),
        AgentRegistryError,
    >)
        requires
            old(self).wf(),
        ensures
            final(self).wf(),
            r is Ok <==> old(self).has_agent(agent_id),
            r is Err ==> r == Err::<(), _>(AgentRegistryError::AgentNotFound) && *final(self)
                == *old(self),
            r is Ok ==> {
                &&& final(self).others_unchanged(old(self), agent_id)
                &&& final(self).runners_spec(agent_id) == if old(self).runners_spec(
                    agent_id,
                ).contains(runner) {
                    old(self).runners_spec(agent_id)
                } else {
                    old(self).runners_spec(agent_id).push(runner)
                }
                &&& final(self).metadata_spec(agent_id) == old(self).metadata_spec(agent_id)
                &&& final(self).developer_spec(agent_id) == old(self).developer_spec(agent_id)
                &&& final(self).latest_version_spec(agent_id) == old(self).latest_version_spec(
                    agent_id,
                )
            },
    {
        let idx = self.agent_index(agent_id)?;
        if !contains_address(&self.agents[idx].runners, &runner) {
            self.agents[idx].runners.push(runner);
        }
        Ok(())
    }

    /// Removes a runner from an agent. The last runner cannot be removed, and
    /// a runner that is not listed is reported as not found.
    pub fn remove_runner(&mut self, agent_id: u32, runner: Address) -> (r: Result<
        (),
        AgentRegistryError,
    >)
        requires
            old(self).wf(),
        ensures
            final(self).wf(),
            r is Ok <==> old(self).has_agent(agent_id) && old(self).runners_spec(agent_id).contains(
                runner,
            ) && exists|i: int|
                0 <= i < old(self).runners_spec(agent_id).len() && old(self).runners_spec(
                    agent_id,
                )[i] != runner,
            !old(self).has_agent(agent_id) ==> r == Err::<(), _>(AgentRegistryError::AgentNotFound),
            old(self).has_agent(agent_id) && (forall|i: int|
                0 <= i < old(self).runners_spec(agent_id).len() ==> old(self).runners_spec(
                    agent_id,
                )[i] == runner) ==> r == Err::<(), _>(AgentRegistryError::InvalidRunnerList),
            old(self).has_agent(agent_id) && !old(self).runners_spec(agent_id).contains(runner)
                && old(self).runners_spec(agent_id).len() > 0 ==> r == Err::<(), _>(
                AgentRegistryError::RunnerNotFound,
            ),
            r is Err ==> *final(self) == *old(self),
            r is Ok ==> {
                &&& final(self).others_unchanged(old(self), agent_id)
                &&& final(self).runners_spec(agent_id) == without(
                    old(self).runners_spec(agent_id),
                    runner,
                )
                &&& final(self).metadata_spec(agent_id) == old(self).metadata_spec(agent_id)
                &&& final(self).developer_spec(agent_id) == old(self).developer_spec(agent_id)
                &&& final(self).latest_version_spec(agent_id) == old(self).latest_version_spec(
                    agent_id,
                )
            },
    {
        let idx = self.agent_index(agent_id)?;
        let mut filtered: Vec<Address> = Vec::new();
        let mut i: usize = 0;
        let n = self.agents[idx].runners.len();
        while i < n
            invariant
                self.wf(),
                idx == agent_id - 1,
                self.has_agent(agent_id),
                n == self.runners_spec(agent_id).len(),
                i <= n,
                filtered@ == without(self.runners_spec(agent_id).subrange(0, i as int), runner),
            decreases n - i,
        {
            let existing = self.agents[idx].runners[i];
            proof {
                assert(self.runners_spec(agent_id).subrange(0, i + 1).drop_last()
                    =~= self.runners_spec(agent_id).subrange(0, i as int));
            }
            if existing != runner {
                filtered.push(existing);
            }
            i = i + 1;
        }
        proof {
            let s = self.runners_spec(agent_id);
            assert(s.subrange(0, n as int) =~= s);
            lemma_without_len(s, runner);
            lemma_without_empty(s, runner);
        }
        if filtered.len() == 0 {
            return Err(AgentRegistryError::InvalidRunnerList);
        }
        if filtered.len() == self.agents[idx].runners.len() {
            return Err(AgentRegistryError::RunnerNotFound);
        }
        self.agents[idx].runners = filtered;
        Ok(())
    }

    /// Publishes a new rate card for an agent under the next version number.
    pub fn publish_rate_card(&mut self, agent_id: u32, rate_card: RateCardInput) -> (r: Result<
        u32,
        AgentRegistryError,
    >)
        requires
            old(self).wf(),
            old(self).has_agent(agent_id) ==> old(self).latest_version_spec(agent_id) < u32::MAX,
        ensures
            final(self).wf(),
            r is Ok <==> rate_card.rates.is_non_negative() && old(self).has_agent(agent_id),
            !rate_card.rates.is_non_negative() ==> r == Err::<u32, _>(
                AgentRegistryError::InvalidRates,
            ),
            rate_card.rates.is_non_negative() && !old(self).has_agent(agent_id) ==> r == Err::<
                u32,
                _,
            >(AgentRegistryError::AgentNotFound),
            r is Err ==> *final(self) == *old(self),
            r is Ok ==> {
                let v = r.unwrap();
                &&& v == old(self).latest_version_spec(agent_id) + 1
                &&& final(self).others_unchanged(old(self), agent_id)
                &&& final(self).latest_version_spec(agent_id) == v
                &&& final(self).rate_card_spec(agent_id, v) == Some(card_of(rate_card))
                &&& forall|w: u32|
                    w != v ==> final(self).rate_card_spec(agent_id, w) == old(
                        self,
                    ).rate_card_spec(agent_id, w)
                &&& final(self).metadata_spec(agent_id) == old(self).metadata_spec(agent_id)
                &&& final(self).developer_spec(agent_id) == old(self).developer_spec(agent_id)
                &&& final(self).runners_spec(agent_id) == old(self).runners_spec(agent_id)
            },
    {
        if !rate_card.rates.validate_non_negative() {
            return Err(AgentRegistryError::InvalidRates);
        }
        let idx = self.agent_index(agent_id)?;
        let next_version = self.agents[idx].latest_rate_version + 1;
        self.rate_cards[idx].push(RateCard::from(rate_card));
        self.agents[idx].latest_rate_version = next_version;
        Ok(next_version)
    }

    /// The record of an agent.
    pub fn get_agent(&self, agent_id: u32) -> (r: Result<AgentDetails, AgentRegistryError>)
        requires
            self.wf(),
        ensures
            r is Ok <==> self.has_agent(agent_id),
            r is Err ==> r == Err::<AgentDetails, _>(AgentRegistryError::AgentNotFound),
            r is Ok ==> {
                let d = r.unwrap();
                &&& d.agent_id == agent_id
                &&& d.developer == self.developer_spec(agent_id)
                &&& d.metadata_uri == self.metadata_spec(agent_id)
                &&& d.runners@ == self.runners_spec(agent_id)
                &&& d.latest_rate_version == self.latest_version_spec(agent_id)
            },
    {
        let idx = self.agent_index(agent_id)?;
        let record = &self.agents[idx];
        let metadata_uri = match &record.metadata_uri {
            Some(uri) => Some(uri.clone()),
            None => None,
        };
        let mut runners: Vec<Address> = Vec::new();
        let mut i: usize = 0;
        while i < record.runners.len()
            invariant
                i <= record.runners.len(),
                runners@ == record.runners@.subrange(0, i as int),
            decreases record.runners.len() - i,
        {
            runners.push(record.runners[i]);
            i = i + 1;
        }
        proof {
            assert(record.runners@.subrange(0, record.runners@.len() as int) =~= record.runners@);
        }
        Ok(
            AgentDetails {
                agent_id,
                developer: record.developer,
                metadata_uri,
                runners,
                latest_rate_version: record.latest_rate_version,
            },
        )
    }

    /// The rate card of an agent at a version; a missing one is reported as
    /// an unknown agent.
    pub fn get_rate_card(&self, agent_id: u32, version: u32) -> (r: Result<
        RateCard,
        AgentRegistryError,
    >)
        requires
            self.wf(),
        ensures
            match self.rate_card_spec(agent_id, version) {
                Some(card) => r == Ok::<RateCard, AgentRegistryError>(card),
                None => r == Err::<RateCard, _>(AgentRegistryError::AgentNotFound),
            },
            r is Ok ==> r.unwrap().rates.is_non_negative(),
    {
        let idx = self.agent_index(agent_id)?;
        if version == 0 || version as usize > self.rate_cards[idx].len() {
            return Err(AgentRegistryError::AgentNotFound);
        }
        Ok(self.rate_cards[idx][(version - 1) as usize])
    }

    /// The newest rate-card version of an agent.
    pub fn latest_rate_version(&self, agent_id: u32) -> (r: Result<u32, AgentRegistryError>)
        requires
            self.wf(),
        ensures
            r is Ok <==> self.has_agent(agent_id),
            r is Err ==> r == Err::<u32, _>(AgentRegistryError::AgentNotFound),
            r is Ok ==> r.unwrap() == self.latest_version_spec(agent_id),
    {
        let idx = self.agent_index(agent_id)?;
        Ok(self.agents[idx].latest_rate_version)
    }

    /// Whether `runner` is registered to run the agent.
    pub fn is_runner(&self, agent_id: u32, runner: Address) -> (r: Result<
        bool,
        AgentRegistryError,
    >)
        requires
            self.wf(),
        ensures
            r is Ok <==> self.has_agent(agent_id),
            r is Err ==> r == Err::<bool, _>(AgentRegistryError::AgentNotFound),
            r is Ok ==> r.unwrap() == self.is_runner_spec(agent_id, runner),
    {
        let idx = self.agent_index(agent_id)?;
        Ok(contains_address(&self.agents[idx].runners, &runner))
    }

    /// The developer who registered the agent and is paid for its runs.
    pub fn developer_of(&self, agent_id: u32) -> (r: Result<Address, AgentRegistryError>)
        requires
            self.wf(),
        ensures
            r is Ok <==> self.has_agent(agent_id),
            r is Err ==> r == Err::<Address, _>(AgentRegistryError::AgentNotFound),
            r is Ok ==> r.unwrap() == self.developer_spec(agent_id),
    {
        let idx = self.agent_index(agent_id)?;
        Ok(self.agents[idx].developer)
    }
}

/// The reads that the vault makes of a registry: published rate cards by
/// version, the current runner set of an agent, and the developer who is
/// paid for its runs.
pub trait AgentRegistryInterface {
    /// The registry's own consistency condition.
    spec fn registry_wf(&self) -> bool;

    /// Whether an agent with this id is registered.
    spec fn has_agent_view(&self, agent_id: u32) -> bool;

    /// The rate card of `agent_id` at `version`, if it was published.
    spec fn rate_card_view(&self, agent_id: u32, version: u32) -> Option<RateCard>;

    /// Whether `runner` is currently registered to run `agent_id`.
    spec fn is_runner_view(&self, agent_id: u32, runner: Address) -> bool;

    /// The developer paid for runs of `agent_id`.
    spec fn developer_view(&self, agent_id: u32) -> Address;

    /// Published rates are never negative.
    proof fn lemma_rates_non_negative(&self, agent_id: u32, version: u32)
        requires
            self.registry_wf(),
        ensures
            self.rate_card_view(agent_id, version) matches Some(card)
                ==> card.rates.is_non_negative(),
    ;

    fn get_rate_card(&self, agent_id: u32, version: u32) -> (r: Result<
        RateCard,
        AgentRegistryError,
    >)
        requires
            self.registry_wf(),
        ensures
            match self.rate_card_view(agent_id, version) {
                Some(card) => r == Ok::<RateCard, AgentRegistryError>(card),
                None => r == Err::<RateCard, _>(AgentRegistryError::AgentNotFound),
            },
    ;

    fn is_runner(&self, agent_id: u32, runner: Address) -> (r: Result<bool, AgentRegistryError>)
        requires
            self.registry_wf(),
        ensures
            r is Ok <==> self.has_agent_view(agent_id),
            r is Err ==> r == Err::<bool, _>(AgentRegistryError::AgentNotFound),
            r is Ok ==> r.unwrap() == self.is_runner_view(agent_id, runner),
    ;

    fn developer_of(&self, agent_id: u32) -> (r: Result<Address, AgentRegistryError>)
        requires
            self.registry_wf(),
        ensures
            r is Ok <==> self.has_agent_view(agent_id),
            r is Err ==> r == Err::<Address, _>(AgentRegistryError::AgentNotFound),
            r is Ok ==> r.unwrap() == self.developer_view(agent_id),
    ;
}

impl AgentRegistryInterface for AgentRegistry {
    open spec fn registry_wf(&self) -> bool {
        self.wf()
    }

    open spec fn has_agent_view(&self, agent_id: u32) -> bool {
        self.has_agent(agent_id)
    }

    open spec fn rate_card_view(&self, agent_id: u32, version: u32) -> Option<RateCard> {
        self.rate_card_spec(agent_id, version)
    }

    open spec fn is_runner_view(&self, agent_id: u32, runner: Address) -> bool {
        self.is_runner_spec(agent_id, runner)
    }

    open spec fn developer_view(&self, agent_id: u32) -> Address {
        self.developer_spec(agent_id)
    }

    proof fn lemma_rates_non_negative(&self, agent_id: u32, version: u32) {
        self.lemma_rate_cards_non_negative(agent_id, version);
    }

    fn get_rate_card(&self, agent_id: u32, version: u32) -> (r: Result<
        RateCard,
        AgentRegistryError,
    >) {
        AgentRegistry::get_rate_card(self, agent_id, version)
    }

    fn is_runner(&self, agent_id: u32, runner: Address) -> (r: Result<bool, AgentRegistryError>) {
        AgentRegistry::is_runner(self, agent_id, runner)
    }

    fn developer_of(&self, agent_id: u32) -> (r: Result<Address, AgentRegistryError>) {
        AgentRegistry::developer_of(self, agent_id)
    }
}

} // verus!
