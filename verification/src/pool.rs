use std::collections::HashMap;
use vstd::prelude::*;

use crate::types::{Address, ApplicationStatus, PoolState};

verus! {

broadcast use vstd::std_specs::hash::group_hash_axioms;

/// A student's application to a pool.
#[derive(Clone)]
pub struct Application {
    pub data: String,
    pub status: ApplicationStatus,
}

pub struct ApplicationView {
    pub data: Seq<char>,
    pub status: ApplicationStatus,
}

impl View for Application {
    type V = ApplicationView;

    open spec fn view(&self) -> ApplicationView {
        ApplicationView { data: self.data@, status: self.status }
    }
}

/// Descriptive fields that a sponsor may save for a pool after creating it.
#[derive(Clone)]
pub struct SavedMetadata {
    pub description: String,
    pub url: String,
    pub image_hash: String,
}

pub struct SavedMetadataView {
    pub description: Seq<char>,
    pub url: Seq<char>,
    pub image_hash: Seq<char>,
}

impl View for SavedMetadata {
    type V = SavedMetadataView;

    open spec fn view(&self) -> SavedMetadataView {
        SavedMetadataView {
            description: self.description@,
            url: self.url@,
            image_hash: self.image_hash@,
        }
    }
}

/// One donation pool. Maps are keyed by the number of an [`Address`].
#[derive(Clone)]
pub struct Pool {
    pub sponsor: Address,
    pub title: String,
    pub description: String,
    pub goal: u128,
    pub collected: u128,
    /// Timestamp until which the pool runs, fixed at creation.
    pub deadline: u64,
    pub state: PoolState,
    pub closed: bool,
    pub school: Option<Address>,
    /// The only token accepted for donations and refunds, once the sponsor sets one.
    pub token: Option<Address>,
    /// Ledger sequence after which (plus a grace period) refunds open; 0 while unset.
    pub ledger_deadline: u32,
    pub last_donation_at: u64,
    pub donor_count: u32,
    pub contributions: HashMap<u64, u128>,
    /// The token each donor's token donations were made in, while it has any to refund.
    pub donation_tokens: HashMap<u64, Address>,
    pub app_count: u32,
    pub applications: HashMap<u64, Application>,
    pub claimed: HashMap<u64, i128>,
    pub total_claimed: u128,
    pub metadata: SavedMetadata,
}

/// The mathematical content of a [`Pool`].
#[verifier::ext_equal]
pub struct PoolView {
    pub sponsor: Address,
    pub title: Seq<char>,
    pub description: Seq<char>,
    pub goal: u128,
    pub collected: u128,
    pub deadline: u64,
    pub state: PoolState,
    pub closed: bool,
    pub school: Option<Address>,
    pub token: Option<Address>,
    pub ledger_deadline: u32,
    pub last_donation_at: u64,
    pub donor_count: u32,
    pub contributions: Map<u64, u128>,
    pub donation_tokens: Map<u64, Address>,
    pub app_count: u32,
    pub applications: Map<u64, ApplicationView>,
    pub claimed: Map<u64, i128>,
    pub total_claimed: u128,
    pub metadata: SavedMetadataView,
}

impl View for Pool {
    type V = PoolView;

    open spec fn view(&self) -> PoolView {
        PoolView {
            sponsor: self.sponsor,
            title: self.title@,
            description: self.description@,
            goal: self.goal,
            collected: self.collected,
            deadline: self.deadline,
            state: self.state,
            closed: self.closed,
            school: self.school,
            token: self.token,
            ledger_deadline: self.ledger_deadline,
            last_donation_at: self.last_donation_at,
            donor_count: self.donor_count,
            contributions: self.contributions@,
            donation_tokens: self.donation_tokens@,
            app_count: self.app_count,
            applications: self.applications@.map_values(|a: Application| a@),
            claimed: self.claimed@,
            total_claimed: self.total_claimed,
            metadata: self.metadata@,
        }
    }
}

impl PoolView {
    /// A pool as it stands right after creation.
    pub open spec fn fresh(
        sponsor: Address,
        title: Seq<char>,
        description: Seq<char>,
        goal: u128,
        deadline: u64,
        school: Option<Address>,
    ) -> PoolView {
        PoolView {
            sponsor,
            title,
            description,
            goal,
            collected: 0,
            deadline,
            state: PoolState::Active,
            closed: false,
            school,
            token: None,
            ledger_deadline: 0,
            last_donation_at: 0,
            donor_count: 0,
            contributions: Map::empty(),
            donation_tokens: Map::empty(),
            app_count: 0,
            applications: Map::empty(),
            claimed: Map::empty(),
            total_claimed: 0,
            metadata: SavedMetadataView {
                description: Seq::empty(),
                url: Seq::empty(),
                image_hash: Seq::empty(),
            },
        }
    }

    /// What `donor` has given to the pool so far (0 if nothing).
    pub open spec fn contribution_of(self, donor: Address) -> u128 {
        if self.contributions.contains_key(donor.0) {
            self.contributions[donor.0]
        } else {
            0
        }
    }

    /// The gross amount `student` has claimed from the pool so far (0 if nothing).
    pub open spec fn claimed_by(self, student: Address) -> i128 {
        if self.claimed.contains_key(student.0) {
            self.claimed[student.0]
        } else {
            0
        }
    }

    /// Whether `donor` has token donations to the pool in a token other than `token`.
    pub open spec fn donated_in_other_token(self, donor: Address, token: Address) -> bool {
        self.donation_tokens.contains_key(donor.0) && self.donation_tokens[donor.0] != token
    }

    /// The pool after `donor` gives `amount` of `token` at time `now`; the
    /// pool remembers the token, in which a refund is paid back.
    pub open spec fn record_token_donation(
        self,
        donor: Address,
        token: Address,
        amount: u128,
        now: u64,
    ) -> PoolView {
        PoolView {
            donation_tokens: self.donation_tokens.insert(donor.0, token),
            ..self.record_donation(donor, amount, now)
        }
    }

    /// Whether a donation would bring a new donor to the pool.
    pub open spec fn is_new_donor(self, donor: Address) -> bool {
        !self.contributions.contains_key(donor.0)
    }

    /// Whether `donor` can give `amount` more without any counter overflowing.
    pub open spec fn donation_fits(self, donor: Address, amount: u128) -> bool {
        &&& self.collected + amount <= u128::MAX
        &&& self.contribution_of(donor) + amount <= u128::MAX
        &&& self.is_new_donor(donor) ==> self.donor_count + 1 <= u32::MAX
    }

    /// The pool after `donor` gives `amount` at time `now`.
    pub open spec fn record_donation(self, donor: Address, amount: u128, now: u64) -> PoolView {
        PoolView {
            collected: (self.collected + amount) as u128,
            contributions: self.contributions.insert(
                donor.0,
                (self.contribution_of(donor) + amount) as u128,
            ),
            donor_count: if self.is_new_donor(donor) {
                (self.donor_count + 1) as u32
            } else {
                self.donor_count
            },
            last_donation_at: now,
            ..self
        }
    }
}

impl Pool {
    pub fn new(
        sponsor: Address,
        title: String,
        description: String,
        goal: u128,
        deadline: u64,
        school: Option<Address>,
    ) -> (p: Pool)
        ensures
            p@ == PoolView::fresh(sponsor, title@, description@, goal, deadline, school),
    {
        let p = Pool {
            sponsor,
            title,
            description,
            goal,
            collected: 0,
            deadline,
            state: PoolState::Active,
            closed: false,
            school,
            token: None,
            ledger_deadline: 0,
            last_donation_at: 0,
            donor_count: 0,
            contributions: HashMap::new(),
            donation_tokens: HashMap::new(),
            app_count: 0,
            applications: HashMap::new(),
            claimed: HashMap::new(),
            total_claimed: 0,
            metadata: SavedMetadata {
                description: String::new(),
                url: String::new(),
                image_hash: String::new(),
            },
        };
        assert(p@.applications =~= Map::empty());
        assert(p@.donation_tokens =~= Map::empty());
        p
    }

    /// What `donor` has given to the pool so far.
    pub fn contribution_of(&self, donor: Address) -> (r: u128)
        ensures
            r == self@.contribution_of(donor),
    {
        match self.contributions.get(&donor.0) {
            Some(c) => *c,
            None => 0,
        }
    }

    /// The gross amount `student` has claimed so far.
    pub fn claimed_by(&self, student: Address) -> (r: i128)
        ensures
            r == self@.claimed_by(student),
    {
        match self.claimed.get(&student.0) {
            Some(c) => *c,
            None => 0,
        }
    }

    /// Whether `donor` can give `amount` more without any counter overflowing.
    pub fn donation_fits(&self, donor: Address, amount: u128) -> (r: bool)
        ensures
            r == self@.donation_fits(donor, amount),
    {
        let prev = self.contribution_of(donor);
        let is_new = !self.contributions.contains_key(&donor.0);
        amount <= u128::MAX - self.collected && amount <= u128::MAX - prev && (!is_new
            || self.donor_count < u32::MAX)
    }

    /// Records that `donor` gave `amount` at time `now`.
    pub fn record_donation(&mut self, donor: Address, amount: u128, now: u64)
        requires
            old(self)@.donation_fits(donor, amount),
        ensures
            final(self)@ == old(self)@.record_donation(donor, amount, now),
    {
        let prev = self.contribution_of(donor);
        let is_new = !self.contributions.contains_key(&donor.0);
        self.collected = self.collected + amount;
        self.contributions.insert(donor.0, prev + amount);
        if is_new {
            self.donor_count = self.donor_count + 1;
        }
        self.last_donation_at = now;
        assert(self@ =~= old(self)@.record_donation(donor, amount, now));
    }
    /// Whether `donor` has token donations to the pool in a token other than `token`.
    pub fn donated_in_other_token(&self, donor: Address, token: Address) -> (r: bool)
        ensures
            r == self@.donated_in_other_token(donor, token),
    {
        match self.donation_tokens.get(&donor.0) {
            Some(t) => *t != token,
            None => false,
        }
    }

    /// Records that `donor` gave `amount` of `token` at time `now`.
    pub fn record_token_donation(&mut self, donor: Address, token: Address, amount: u128, now: u64)
        requires
            old(self)@.donation_fits(donor, amount),
        ensures
            final(self)@ == old(self)@.record_token_donation(donor, token, amount, now),
    {
        self.record_donation(donor, amount, now);
        self.donation_tokens.insert(donor.0, token);
        assert(self@ =~= old(self)@.record_token_donation(donor, token, amount, now));
    }

    /// Whether `student` has an application to the pool.
    pub fn has_application(&self, student: Address) -> (r: bool)
        ensures
            r == self@.applications.contains_key(student.0),
    {
        self.applications.contains_key(&student.0)
    }

    /// The status of `student`'s application, if there is one.
    pub fn application_status(&self, student: Address) -> (r: Option<ApplicationStatus>)
        ensures
            r == (if self@.applications.contains_key(student.0) {
                Some(self@.applications[student.0].status)
            } else {
                None
            }),
    {
        match self.applications.get(&student.0) {
            Some(a) => Some(a.status),
            None => None,
        }
    }

    /// Records a new pending application of `student`.
    pub fn add_application(&mut self, student: Address, data: String)
        requires
            old(self).app_count < u32::MAX,
        ensures
            final(self)@ == (PoolView {
                applications: old(self)@.applications.insert(
                    student.0,
                    ApplicationView { data: data@, status: ApplicationStatus::Pending },
                ),
                app_count: (old(self)@.app_count + 1) as u32,
                ..old(self)@
            }),
    {
        let ghost d = data@;
        self.applications.insert(student.0, Application { data, status: ApplicationStatus::Pending });
        self.app_count = self.app_count + 1;
        assert(self@ =~= (PoolView {
            applications: old(self)@.applications.insert(
                student.0,
                ApplicationView { data: d, status: ApplicationStatus::Pending },
            ),
            app_count: (old(self)@.app_count + 1) as u32,
            ..old(self)@
        }));
    }

    /// Gives `student`'s application the status `status`.
    pub fn set_application_status(&mut self, student: Address, status: ApplicationStatus)
        requires
            old(self)@.applications.contains_key(student.0),
        ensures
            final(self)@ == (PoolView {
                applications: old(self)@.applications.insert(
                    student.0,
                    ApplicationView { status, ..old(self)@.applications[student.0] },
                ),
                ..old(self)@
            }),
    {
        let mut a = self.applications.remove(&student.0).unwrap();
        a.status = status;
        self.applications.insert(student.0, a);
        assert(self@ =~= (PoolView {
            applications: old(self)@.applications.insert(
                student.0,
                ApplicationView { status, ..old(self)@.applications[student.0] },
            ),
            ..old(self)@
        }));
    }

    /// Gives back everything `donor` gave: the contribution drops to 0 and the
    /// token it was given in is forgotten.
    pub fn record_refund(&mut self, donor: Address)
        requires
            old(self)@.contribution_of(donor) <= old(self)@.collected,
        ensures
            final(self)@ == (PoolView {
                collected: (old(self)@.collected - old(self)@.contribution_of(donor)) as u128,
                contributions: old(self)@.contributions.insert(donor.0, 0),
                donation_tokens: old(self)@.donation_tokens.remove(donor.0),
                ..old(self)@
            }),
    {
        let c = self.contribution_of(donor);
        self.collected = self.collected - c;
        self.contributions.insert(donor.0, 0);
        self.donation_tokens.remove(&donor.0);
        assert(self@ =~= (PoolView {
            collected: (old(self)@.collected - old(self)@.contribution_of(donor)) as u128,
            contributions: old(self)@.contributions.insert(donor.0, 0),
            donation_tokens: old(self)@.donation_tokens.remove(donor.0),
            ..old(self)@
        }));
    }

    /// Adds `amount` to what `student` has claimed and to the pool's total of claims.
    pub fn record_claim(&mut self, student: Address, amount: i128)
        requires
            amount > 0,
            old(self)@.total_claimed + amount <= u128::MAX,
            old(self)@.claimed_by(student) + amount <= i128::MAX,
        ensures
            final(self)@ == (PoolView {
                claimed: old(self)@.claimed.insert(
                    student.0,
                    (old(self)@.claimed_by(student) + amount) as i128,
                ),
                total_claimed: (old(self)@.total_claimed + amount) as u128,
                ..old(self)@
            }),
    {
        let prev = self.claimed_by(student);
        self.claimed.insert(student.0, prev + amount);
        self.total_claimed = self.total_claimed + amount as u128;
        assert(self@ =~= (PoolView {
            claimed: old(self)@.claimed.insert(
                student.0,
                (old(self)@.claimed_by(student) + amount) as i128,
            ),
            total_claimed: (old(self)@.total_claimed + amount) as u128,
            ..old(self)@
        }));
    }
}

} // verus!
