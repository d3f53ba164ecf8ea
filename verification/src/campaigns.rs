use vstd::prelude::*;

use crate::types::{Address, Effects, EffectsView, Outcome};

verus! {

/// Ways a call to the campaign registry can fail.
#[derive(Clone, Copy, Debug, PartialEq, Eq, Structural)]
pub enum CampaignError {
    AlreadyInitialized,
    NotInitialized,
    CampaignNotFound,
    TooManyCampaigns,
}

/// A campaign as the registry reports it.
#[derive(Clone, Debug)]
pub struct Campaign {
    pub id: u32,
    pub name: String,
    pub creator: Address,
}

#[derive(Clone)]
struct CampaignRecord {
    name: String,
    creator: Address,
}

/// A registry of named campaigns, numbered from 1 in the order of creation,
/// usable once an admin has initialized it.
#[derive(Clone)]
pub struct CampaignRegistry {
    admin: Option<Address>,
    campaigns: Vec<CampaignRecord>,
}

/// A campaign's creator and name.
pub struct CampaignView {
    pub creator: Address,
    pub name: Seq<char>,
}

/// The registry's admin and its campaigns; campaign `i + 1` is at index `i`.
pub struct RegistryView {
    pub admin: Option<Address>,
    pub campaigns: Seq<CampaignView>,
}

/// The state after a successful registry call, its effects and its value.
pub struct RegistryStep<R> {
    pub state: RegistryView,
    pub effects: EffectsView,
    pub value: R,
}

pub open spec fn registry_step_of<R>(post: RegistryView, r: Result<Outcome<R>, CampaignError>) -> Result<
    RegistryStep<R>,
    CampaignError,
> {
    match r {
        Ok(o) => Ok(RegistryStep { state: post, effects: o.effects@, value: o.value }),
        Err(e) => Err(e),
    }
}

impl View for CampaignRegistry {
    type V = RegistryView;

    closed spec fn view(&self) -> RegistryView {
        RegistryView {
            admin: self.admin,
            campaigns: self.campaigns@.map_values(
                |c: CampaignRecord| CampaignView { creator: c.creator, name: c.name@ },
            ),
        }
    }
}

impl RegistryView {
    /// `admin` initializes an uninitialized registry; it must authorize the call.
    pub open spec fn initialize(self, admin: Address) -> Result<RegistryStep<()>, CampaignError> {
        if self.admin is Some {
            Err(CampaignError::AlreadyInitialized)
        } else {
            Ok(
                RegistryStep {
                    state: RegistryView { admin: Some(admin), ..self },
                    effects: EffectsView::empty().auth(admin),
                    value: (),
                },
            )
        }
    }

    /// `creator` adds a campaign named `name`, which gets the next number.
    pub open spec fn create_campaign(self, creator: Address, name: Seq<char>) -> Result<
        RegistryStep<u32>,
        CampaignError,
    > {
        if self.admin is None {
            Err(CampaignError::NotInitialized)
        } else if self.campaigns.len() >= u32::MAX {
            Err(CampaignError::TooManyCampaigns)
        } else {
            Ok(
                RegistryStep {
                    state: RegistryView {
                        campaigns: self.campaigns.push(CampaignView { creator, name }),
                        ..self
                    },
                    effects: EffectsView::empty().auth(creator),
                    value: (self.campaigns.len() + 1) as u32,
                },
            )
        }
    }

    /// Whether campaign `id` exists.
    pub open spec fn has_campaign(self, id: u32) -> bool {
        1 <= id <= self.campaigns.len()
    }

    pub open spec fn campaign_count(self) -> Result<u32, CampaignError> {
        if self.admin is None {
            Err(CampaignError::NotInitialized)
        } else {
            Ok(self.campaigns.len() as u32)
        }
    }
}

impl CampaignRegistry {
    /// An empty, uninitialized registry.
    pub fn new() -> (r: CampaignRegistry)
        ensures
            r@ == (RegistryView { admin: None, campaigns: Seq::empty() }),
    {
        let r = CampaignRegistry { admin: None, campaigns: Vec::new() };
        assert(r@.campaigns =~= Seq::<CampaignView>::empty());
        r
    }

    /// Makes `admin` the registry's admin, once.
    pub fn initialize(&mut self, admin: Address) -> (r: Result<Outcome<()>, CampaignError>)
        ensures
            registry_step_of(final(self)@, r) == old(self)@.initialize(admin),
            r is Err ==> final(self)@ == old(self)@,
    {
        if self.admin.is_some() {
            return Err(CampaignError::AlreadyInitialized);
        }
        self.admin = Some(admin);
        let mut fx = Effects::none();
        fx.require_auth(admin);
        Ok(Outcome { value: (), effects: fx })
    }

    /// Adds a campaign named `name` by `creator`; returns its number.
    pub fn create_campaign(&mut self, creator: Address, name: String) -> (r: Result<
        Outcome<u32>,
        CampaignError,
    >)
        ensures
            registry_step_of(final(self)@, r) == old(self)@.create_campaign(creator, name@),
            r is Err ==> final(self)@ == old(self)@,
    {
        if self.admin.is_none() {
            return Err(CampaignError::NotInitialized);
        }
        let n = self.campaigns.len();
        if n >= u32::MAX as usize {
            return Err(CampaignError::TooManyCampaigns);
        }
        let ghost nm = name@;
        self.campaigns.push(CampaignRecord { name, creator });
        assert(self@.campaigns =~= old(self)@.campaigns.push(CampaignView { creator, name: nm }));
        let mut fx = Effects::none();
        fx.require_auth(creator);
        Ok(Outcome { value: (n + 1) as u32, effects: fx })
    }

    /// Campaign `id`, with its number, name and creator.
    pub fn get_campaign(&self, id: u32) -> (r: Result<Campaign, CampaignError>)
        ensures
            match r {
                Ok(c) => self@.has_campaign(id) && c.id == id && c.name@ == self@.campaigns[id
                    - 1].name && c.creator == self@.campaigns[id - 1].creator,
                Err(e) => !self@.has_campaign(id) && e == CampaignError::CampaignNotFound,
            },
    {
        if id == 0 || id as usize > self.campaigns.len() {
            return Err(CampaignError::CampaignNotFound);
        }
        let rec = &self.campaigns[(id - 1) as usize];
        Ok(Campaign { id, name: rec.name.clone(), creator: rec.creator })
    }

    /// The number of campaigns.
    pub fn get_campaign_count(&self) -> (r: Result<u32, CampaignError>)
        ensures
            r == self@.campaign_count(),
    {
        if self.admin.is_none() {
            return Err(CampaignError::NotInitialized);
        }
        Ok(self.campaigns.len() as u32)
    }

    /// The names of all campaigns, in order of their numbers.
    pub fn list_campaigns(&self) -> (r: Vec<String>)
        ensures
            r.len() == self@.campaigns.len(),
            forall|i: int| 0 <= i < r.len() ==> #[trigger] r[i]@ == self@.campaigns[i].name,
    {
        let mut names: Vec<String> = Vec::new();
        let n = self.campaigns.len();
        let mut i: usize = 0;
        while i < n
            invariant
                n == self.campaigns.len(),
                self@.campaigns.len() == n,
                i <= n,
                names.len() == i,
                forall|j: int| 0 <= j < i ==> #[trigger] names[j]@ == self@.campaigns[j].name,
            decreases n - i,
        {
            names.push(self.campaigns[i].name.clone());
            i = i + 1;
        }
        names
    }
}

/// A campaign, once created, can be read back under the number it got, with
/// the name it was given; the count grows by one and earlier campaigns stay.
pub proof fn lemma_created_campaign_reads(r: RegistryView, creator: Address, name: Seq<char>, id: u32)
    ensures
        r.create_campaign(creator, name) matches Ok(s) ==> {
            &&& s.state.has_campaign(s.value)
            &&& s.state.campaigns[s.value - 1] == (CampaignView { creator, name })
            &&& s.state.campaign_count() == Ok::<u32, CampaignError>(
                (r.campaign_count()->Ok_0 + 1) as u32,
            )
            &&& r.has_campaign(id) ==> s.state.has_campaign(id) && s.state.campaigns[id - 1]
                == r.campaigns[id - 1]
        },
{
}

/// A registry can be initialized once only.
pub proof fn lemma_initialize_once(r: RegistryView, first: Address, second: Address)
    ensures
        r.initialize(first) matches Ok(s) ==> s.state.initialize(second) == Err::<
            RegistryStep<()>,
            CampaignError,
        >(CampaignError::AlreadyInitialized),
{
}

} // verus!
