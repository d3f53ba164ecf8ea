use std::collections::HashMap;
use vstd::prelude::*;

use crate::model::{step_of, EmergencyWithdrawal, NevoView};
use crate::pool::{Pool, PoolView, SavedMetadata};
use crate::types::{
    Address, ApplicationStatus, ContractError, ContractEvent, Effects, Outcome, PoolState, Transfer,
    GRACE_PERIOD_SECS, PROTOCOL_FEE_DIVISOR, REFUND_GRACE_PERIOD_LEDGERS, MAX_DESCRIPTION_LENGTH, MAX_IMAGE_HASH_LENGTH, MAX_TITLE_LENGTH, MAX_URL_LENGTH,
};

verus! {

broadcast use vstd::std_specs::hash::group_hash_axioms;

/// The contract's state. Maps are keyed by pool id or by the number of an [`Address`].
#[derive(Clone)]
pub struct Contract {
    pub address: Address,
    pub admin: Option<Address>,
    pub creation_fee: i128,
    pub crowdfunding_token: Option<Address>,
    pub pool_count: u32,
    pub pools: HashMap<u32, Pool>,
    pub schools: HashMap<u64, [u8; 32]>,
    pub emergency_withdrawals: HashMap<u32, EmergencyWithdrawal>,
}

impl View for Contract {
    type V = NevoView;

    open spec fn view(&self) -> NevoView {
        NevoView {
            address: self.address,
            admin: self.admin,
            creation_fee: self.creation_fee,
            crowdfunding_token: self.crowdfunding_token,
            pool_count: self.pool_count,
            pools: self.pools@.map_values(|p: Pool| p@),
            schools: self.schools@,
            emergency_withdrawals: self.emergency_withdrawals@,
        }
    }
}

impl Contract {
    /// A freshly deployed contract at `address`.
    pub fn new(address: Address) -> (c: Contract)
        ensures
            c@ == NevoView::initial(address),
    {
        let c = Contract {
            address,
            admin: None,
            creation_fee: 0,
            crowdfunding_token: None,
            pool_count: 0,
            pools: HashMap::new(),
            schools: HashMap::new(),
            emergency_withdrawals: HashMap::new(),
        };
        assert(c@ =~= NevoView::initial(address));
        c
    }

    fn admin_error(&self, caller: Address) -> (r: Option<ContractError>)
        ensures
            r == self@.admin_error(caller),
    {
        match self.admin {
            None => Some(ContractError::AdminNotSet),
            Some(a) => if a == caller {
                None
            } else {
                Some(ContractError::UnauthorizedAdmin)
            },
        }
    }

    /// Makes `new_admin` the admin, replacing any earlier one.
    pub fn set_admin(&mut self, new_admin: Address) -> (r: Result<Outcome<()>, ContractError>)
        ensures
            step_of(final(self)@, r) == old(self)@.set_admin(new_admin),
            r is Err ==> final(self)@ == old(self)@,
    {
        self.admin = Some(new_admin);
        let mut fx = Effects::none();
        fx.require_auth(new_admin);
        Ok(Outcome { value: (), effects: fx })
    }

    /// Sets the fee charged for creating a pool with [`Contract::create_pool_with_fee`].
    pub fn set_creation_fee(&mut self, caller: Address, fee: i128) -> (r: Result<
        Outcome<()>,
        ContractError,
    >)
        ensures
            step_of(final(self)@, r) == old(self)@.set_creation_fee(caller, fee),
            r is Err ==> final(self)@ == old(self)@,
    {
        if let Some(e) = self.admin_error(caller) {
            return Err(e);
        }
        if fee < 0 {
            return Err(ContractError::InvalidFee);
        }
        self.creation_fee = fee;
        let mut fx = Effects::none();
        fx.require_auth(caller);
        fx.emit(ContractEvent::CreationFeeSet { fee });
        Ok(Outcome { value: (), effects: fx })
    }

    /// The current creation fee (0 until the admin sets one).
    pub fn get_creation_fee(&self) -> (r: i128)
        ensures
            r == self@.creation_fee,
    {
        self.creation_fee
    }

    /// Sets the token that the crowdfunding side of the contract works with.
    pub fn set_crowdfunding_token(&mut self, caller: Address, token: Address) -> (r: Result<
        Outcome<()>,
        ContractError,
    >)
        ensures
            step_of(final(self)@, r) == old(self)@.set_crowdfunding_token(caller, token),
            r is Err ==> final(self)@ == old(self)@,
    {
        if let Some(e) = self.admin_error(caller) {
            return Err(e);
        }
        if token == self.address {
            return Err(ContractError::InvalidTokenAddress);
        }
        self.crowdfunding_token = Some(token);
        let mut fx = Effects::none();
        fx.require_auth(caller);
        fx.emit(ContractEvent::CrowdfundingTokenSet { token });
        Ok(Outcome { value: (), effects: fx })
    }

    pub fn get_crowdfunding_token(&self) -> (r: Result<Address, ContractError>)
        ensures
            r == self@.crowdfunding_token(),
    {
        match self.crowdfunding_token {
            Some(t) => Ok(t),
            None => Err(ContractError::CrowdfundingTokenNotSet),
        }
    }

    /// Registers `school` with the hash of its metadata; the admin must authorize it.
    pub fn register_school(&mut self, school: Address, metadata_hash: [u8; 32]) -> (r: Result<
        Outcome<()>,
        ContractError,
    >)
        ensures
            step_of(final(self)@, r) == old(self)@.register_school(school, metadata_hash),
            r is Err ==> final(self)@ == old(self)@,
    {
        let admin = match self.admin {
            None => return Err(ContractError::AdminNotSet),
            Some(a) => a,
        };
        self.schools.insert(school.0, metadata_hash);
        let mut fx = Effects::none();
        fx.require_auth(admin);
        fx.emit(ContractEvent::SchoolRegistered { school });
        assert(self@ =~= old(self)@.register_school(school, metadata_hash)->Ok_0.state);
        Ok(Outcome { value: (), effects: fx })
    }

    pub fn is_school_registered(&self, school: Address) -> (r: bool)
        ensures
            r == self@.schools.contains_key(school.0),
    {
        self.schools.contains_key(&school.0)
    }

    pub fn get_school_metadata(&self, school: Address) -> (r: Result<[u8; 32], ContractError>)
        ensures
            r == self@.school_metadata(school),
    {
        match self.schools.get(&school.0) {
            Some(h) => Ok(*h),
            None => Err(ContractError::SchoolNotRegistered),
        }
    }
    fn pool_creation_error(&self, title: &String, goal: u128, deadline: u64, now: u64) -> (r:
        Option<ContractError>)
        ensures
            r == self@.pool_creation_error(title@, goal, deadline, now),
    {
        let t = title.as_str();
        if t.is_empty() || t.len() > MAX_TITLE_LENGTH as usize {
            Some(ContractError::InvalidPoolName)
        } else if deadline < now {
            Some(ContractError::InvalidPoolDeadline)
        } else if goal == 0 || deadline == now {
            Some(ContractError::InvalidPoolTarget)
        } else if self.pool_count == u32::MAX {
            Some(ContractError::ArithmeticOverflow)
        } else if self.pools.contains_key(&(self.pool_count + 1)) {
            Some(ContractError::PoolAlreadyExists)
        } else {
            None
        }
    }

    fn open_pool(
        &mut self,
        creator: Address,
        title: String,
        description: String,
        goal: u128,
        deadline: u64,
        school: Option<Address>,
    ) -> (id: u32)
        requires
            old(self).pool_count < u32::MAX,
        ensures
            id == old(self)@.next_pool_id(),
            final(self)@ == old(self)@.open_pool(
                creator,
                title@,
                description@,
                goal,
                deadline,
                school,
            ),
    {
        let id = self.pool_count + 1;
        let pool = Pool::new(creator, title, description, goal, deadline, school);
        self.pools.insert(id, pool);
        self.pool_count = id;
        assert(self@ =~= old(self)@.open_pool(creator, title@, description@, goal, deadline, school));
        id
    }

    /// Opens a pool for `creator`, who needs no authorization and pays no fee.
    /// `now` is the ledger timestamp; the pool gets the id after [`Contract::get_pool_count`].
    pub fn create_pool(
        &mut self,
        creator: Address,
        title: String,
        description: String,
        goal: u128,
        deadline: u64,
        now: u64,
    ) -> (r: Result<Outcome<u32>, ContractError>)
        ensures
            step_of(final(self)@, r) == old(self)@.create_pool(
                creator,
                title@,
                description@,
                goal,
                deadline,
                now,
            ),
            r is Err ==> final(self)@ == old(self)@,
    {
        if let Some(e) = self.pool_creation_error(&title, goal, deadline, now) {
            return Err(e);
        }
        let id = self.open_pool(creator, title, description, goal, deadline, None);
        let mut fx = Effects::none();
        fx.emit(ContractEvent::PoolCreated { pool_id: id, creator, goal });
        Ok(Outcome { value: id, effects: fx })
    }

    /// Opens a pool for the registered `school`.
    pub fn create_pool_for_school(
        &mut self,
        creator: Address,
        title: String,
        description: String,
        goal: u128,
        school: Address,
        deadline: u64,
        now: u64,
    ) -> (r: Result<Outcome<u32>, ContractError>)
        ensures
            step_of(final(self)@, r) == old(self)@.create_pool_for_school(
                creator,
                title@,
                description@,
                goal,
                school,
                deadline,
                now,
            ),
            r is Err ==> final(self)@ == old(self)@,
    {
        if !self.schools.contains_key(&school.0) {
            return Err(ContractError::SchoolNotRegistered);
        }
        if let Some(e) = self.pool_creation_error(&title, goal, deadline, now) {
            return Err(e);
        }
        let id = self.open_pool(creator, title, description, goal, deadline, Some(school));
        let mut fx = Effects::none();
        fx.emit(ContractEvent::PoolCreated { pool_id: id, creator, goal });
        Ok(Outcome { value: id, effects: fx })
    }

    /// Opens a pool whose creator pays the current creation fee, if positive, in
    /// `fee_token`; the payment fails the whole call if the creator cannot make it.
    pub fn create_pool_with_fee(
        &mut self,
        creator: Address,
        title: String,
        description: String,
        goal: u128,
        deadline: u64,
        fee_token: Address,
        now: u64,
    ) -> (r: Result<Outcome<u32>, ContractError>)
        ensures
            step_of(final(self)@, r) == old(self)@.create_pool_with_fee(
                creator,
                title@,
                description@,
                goal,
                deadline,
                fee_token,
                now,
            ),
            r is Err ==> final(self)@ == old(self)@,
    {
        if let Some(e) = self.pool_creation_error(&title, goal, deadline, now) {
            return Err(e);
        }
        let fee = self.creation_fee;
        let contract = self.address;
        let id = self.open_pool(creator, title, description, goal, deadline, None);
        let mut fx = Effects::none();
        if fee > 0 {
            fx.require_auth(creator);
            fx.transfer(Transfer { token: fee_token, from: creator, to: contract, amount: fee });
            fx.emit(ContractEvent::PoolCreated { pool_id: id, creator, goal });
            fx.emit(ContractEvent::CreationFeePaid { pool_id: id, creator, token: fee_token, fee });
        } else {
            fx.emit(ContractEvent::PoolCreated { pool_id: id, creator, goal });
        }
        Ok(Outcome { value: id, effects: fx })
    }

    /// The number of pool ids handed out so far.
    pub fn get_pool_count(&self) -> (r: u32)
        ensures
            r == self@.pool_count,
    {
        self.pool_count
    }

    /// `(id, sponsor, goal, collected, is_closed, deadline)` of a pool.
    pub fn get_pool(&self, pool_id: u32) -> (r: Result<
        (u32, Address, u128, u128, bool, u64),
        ContractError,
    >)
        ensures
            r == self@.pool_info(pool_id),
    {
        match self.pools.get(&pool_id) {
            Some(p) => Ok((pool_id, p.sponsor, p.goal, p.collected, p.closed, p.deadline)),
            None => Err(ContractError::PoolNotFound),
        }
    }

    /// Title and description of a pool; two empty strings for an unknown pool.
    pub fn get_pool_metadata(&self, pool_id: u32) -> (r: (String, String))
        ensures
            (r.0@, r.1@) == self@.pool_metadata(pool_id),
    {
        match self.pools.get(&pool_id) {
            Some(p) => (p.title.clone(), p.description.clone()),
            None => (String::new(), String::new()),
        }
    }

    /// The school a pool was created for.
    pub fn get_pool_school(&self, pool_id: u32) -> (r: Result<Address, ContractError>)
        ensures
            r == self@.pool_school(pool_id),
    {
        match self.pools.get(&pool_id) {
            Some(p) => match p.school {
                Some(s) => Ok(s),
                None => Err(ContractError::PoolSchoolNotSet),
            },
            None => Err(ContractError::PoolSchoolNotSet),
        }
    }
    /// Removes a pool from the map so that it can be changed and stored back.
    fn take_pool(&mut self, pool_id: u32) -> (p: Pool)
        requires
            old(self)@.pools.contains_key(pool_id),
        ensures
            p@ == old(self)@.pools[pool_id],
            final(self)@ == (NevoView { pools: old(self)@.pools.remove(pool_id), ..old(self)@ }),
    {
        let p = self.pools.remove(&pool_id).unwrap();
        assert(self@ =~= (NevoView { pools: old(self)@.pools.remove(pool_id), ..old(self)@ }));
        p
    }

    /// Stores a pool taken by [`Contract::take_pool`] back, changed.
    fn put_pool(&mut self, pool_id: u32, p: Pool, Ghost(before): Ghost<NevoView>)
        requires
            old(self)@ == (NevoView { pools: before.pools.remove(pool_id), ..before }),
        ensures
            final(self)@ == before.with_pool(pool_id, p@),
    {
        let ghost pv = p@;
        self.pools.insert(pool_id, p);
        assert(self@.pools =~= old(self)@.pools.insert(pool_id, pv));
        assert(old(self)@.pools.insert(pool_id, pv) =~= before.pools.insert(pool_id, pv));
        assert(self@ =~= before.with_pool(pool_id, pv));
    }

    /// Moves an open pool to `state`; the sponsor must authorize it.
    pub fn set_pool_state(&mut self, pool_id: u32, state: PoolState) -> (r: Result<
        Outcome<()>,
        ContractError,
    >)
        ensures
            step_of(final(self)@, r) == old(self)@.set_pool_state(pool_id, state),
            r is Err ==> final(self)@ == old(self)@,
    {
        let sponsor = match self.pools.get(&pool_id) {
            None => return Err(ContractError::PoolNotFound),
            Some(p) => {
                if p.closed {
                    return Err(ContractError::PoolIsClosed);
                }
                p.sponsor
            },
        };
        let mut p = self.take_pool(pool_id);
        p.state = state;
        self.put_pool(pool_id, p, Ghost(old(self)@));
        let mut fx = Effects::none();
        fx.require_auth(sponsor);
        Ok(Outcome { value: (), effects: fx })
    }

    /// Closes a disbursed or cancelled pool; the sponsor must authorize it.
    pub fn close_pool(&mut self, pool_id: u32) -> (r: Result<Outcome<()>, ContractError>)
        ensures
            step_of(final(self)@, r) == old(self)@.close_pool(pool_id),
            r is Err ==> final(self)@ == old(self)@,
    {
        let sponsor = match self.pools.get(&pool_id) {
            None => return Err(ContractError::PoolNotFound),
            Some(p) => {
                if p.closed {
                    return Err(ContractError::PoolAlreadyClosed);
                }
                match p.state {
                    PoolState::Disbursed | PoolState::Cancelled => {},
                    _ => return Err(ContractError::PoolNotDisbursedOrRefunded),
                }
                p.sponsor
            },
        };
        let mut p = self.take_pool(pool_id);
        p.closed = true;
        self.put_pool(pool_id, p, Ghost(old(self)@));
        let mut fx = Effects::none();
        fx.require_auth(sponsor);
        fx.emit(ContractEvent::PoolClosed { pool_id });
        Ok(Outcome { value: (), effects: fx })
    }

    /// Fixes the only token the pool accepts for donations and refunds.
    pub fn set_pool_token(&mut self, pool_id: u32, token: Address) -> (r: Result<
        Outcome<()>,
        ContractError,
    >)
        ensures
            step_of(final(self)@, r) == old(self)@.set_pool_token(pool_id, token),
            r is Err ==> final(self)@ == old(self)@,
    {
        let sponsor = match self.pools.get(&pool_id) {
            None => return Err(ContractError::PoolNotFound),
            Some(p) => p.sponsor,
        };
        if token == self.address {
            return Err(ContractError::InvalidTokenAddress);
        }
        let mut p = self.take_pool(pool_id);
        p.token = Some(token);
        self.put_pool(pool_id, p, Ghost(old(self)@));
        let mut fx = Effects::none();
        fx.require_auth(sponsor);
        Ok(Outcome { value: (), effects: fx })
    }

    /// Sets a pool's ledger deadline, which must lie after the current ledger `sequence`.
    pub fn set_pool_deadline(&mut self, pool_id: u32, deadline: u32, sequence: u32) -> (r: Result<
        Outcome<()>,
        ContractError,
    >)
        ensures
            step_of(final(self)@, r) == old(self)@.set_pool_deadline(pool_id, deadline, sequence),
            r is Err ==> final(self)@ == old(self)@,
    {
        let sponsor = match self.pools.get(&pool_id) {
            None => return Err(ContractError::PoolNotFound),
            Some(p) => p.sponsor,
        };
        if deadline <= sequence {
            return Err(ContractError::DeadlineNotInFuture);
        }
        let mut p = self.take_pool(pool_id);
        p.ledger_deadline = deadline;
        self.put_pool(pool_id, p, Ghost(old(self)@));
        let mut fx = Effects::none();
        fx.require_auth(sponsor);
        Ok(Outcome { value: (), effects: fx })
    }

    /// Saves a pool's description, URL and image hash.
    pub fn save_pool(
        &mut self,
        pool_id: u32,
        description: String,
        url: String,
        image_hash: String,
    ) -> (r: Result<Outcome<()>, ContractError>)
        ensures
            step_of(final(self)@, r) == old(self)@.save_pool(
                pool_id,
                description@,
                url@,
                image_hash@,
            ),
            r is Err ==> final(self)@ == old(self)@,
    {
        let sponsor = match self.pools.get(&pool_id) {
            None => return Err(ContractError::PoolNotFound),
            Some(p) => p.sponsor,
        };
        if description.as_str().len() > MAX_DESCRIPTION_LENGTH {
            return Err(ContractError::DescriptionTooLong);
        }
        if url.as_str().len() > MAX_URL_LENGTH {
            return Err(ContractError::UrlTooLong);
        }
        if image_hash.as_str().len() > MAX_IMAGE_HASH_LENGTH {
            return Err(ContractError::ImageHashTooLong);
        }
        let mut p = self.take_pool(pool_id);
        p.metadata = SavedMetadata { description, url, image_hash };
        self.put_pool(pool_id, p, Ghost(old(self)@));
        let mut fx = Effects::none();
        fx.require_auth(sponsor);
        Ok(Outcome { value: (), effects: fx })
    }

    /// The description, URL and image hash saved for a pool.
    pub fn get_saved_pool_metadata(&self, pool_id: u32) -> (r: Result<
        (String, String, String),
        ContractError,
    >)
        ensures
            match (r, self@.saved_pool_metadata(pool_id)) {
                (Ok(m), Ok(v)) => m.0@ == v.description && m.1@ == v.url && m.2@ == v.image_hash,
                (Err(e), Err(f)) => e == f,
                _ => false,
            },
    {
        match self.pools.get(&pool_id) {
            Some(p) => Ok(
                (p.metadata.description.clone(), p.metadata.url.clone(), p.metadata.image_hash.clone()),
            ),
            None => Err(ContractError::PoolNotFound),
        }
    }

    pub fn get_campaign_goal(&self, pool_id: u32) -> (r: Result<u128, ContractError>)
        ensures
            r == self@.campaign_goal(pool_id),
    {
        match self.pools.get(&pool_id) {
            Some(p) => Ok(p.goal),
            None => Err(ContractError::PoolNotFound),
        }
    }

    pub fn get_total_raised(&self, pool_id: u32) -> (r: Result<u128, ContractError>)
        ensures
            r == self@.total_raised(pool_id),
    {
        match self.pools.get(&pool_id) {
            Some(p) => Ok(p.collected),
            None => Err(ContractError::PoolNotFound),
        }
    }

    /// The number of distinct donors of a pool.
    pub fn get_donor_count(&self, pool_id: u32) -> (r: Result<u32, ContractError>)
        ensures
            r == self@.donor_count(pool_id),
    {
        match self.pools.get(&pool_id) {
            Some(p) => Ok(p.donor_count),
            None => Err(ContractError::PoolNotFound),
        }
    }

    /// What `donor` has given to a pool (0 if nothing).
    pub fn get_contribution(&self, pool_id: u32, donor: Address) -> (r: Result<u128, ContractError>)
        ensures
            r == self@.contribution(pool_id, donor),
    {
        match self.pools.get(&pool_id) {
            Some(p) => Ok(p.contribution_of(donor)),
            None => Err(ContractError::PoolNotFound),
        }
    }

    /// Ledger timestamp of a pool's latest donation (0 before the first).
    pub fn get_last_donation_at(&self, pool_id: u32) -> (r: Result<u64, ContractError>)
        ensures
            r == self@.last_donation_at(pool_id),
    {
        match self.pools.get(&pool_id) {
            Some(p) => Ok(p.last_donation_at),
            None => Err(ContractError::PoolNotFound),
        }
    }

    pub fn is_closed(&self, pool_id: u32) -> (r: Result<bool, ContractError>)
        ensures
            r == self@.is_closed(pool_id),
    {
        match self.pools.get(&pool_id) {
            Some(p) => Ok(p.closed),
            None => Err(ContractError::PoolNotFound),
        }
    }

    /// A pool's ledger deadline (0 until the sponsor sets one).
    pub fn get_pool_deadline(&self, pool_id: u32) -> (r: Result<u32, ContractError>)
        ensures
            r == self@.pool_deadline(pool_id),
    {
        match self.pools.get(&pool_id) {
            Some(p) => Ok(p.ledger_deadline),
            None => Err(ContractError::PoolNotFound),
        }
    }

    /// The gross amount `student` has claimed from a pool (0 if nothing).
    pub fn get_claimed_amount(&self, pool_id: u32, student: Address) -> (r: i128)
        ensures
            r == self@.claimed_amount(pool_id, student),
    {
        match self.pools.get(&pool_id) {
            Some(p) => p.claimed_by(student),
            None => 0,
        }
    }
    fn refuses_token(p: &Pool, token: Address) -> (r: bool)
        ensures
            r == NevoView::refuses_token(p@, token),
    {
        match p.token {
            Some(t) => t != token,
            None => false,
        }
    }

    /// Records a donation of `amount` by `donor` to an active pool at ledger
    /// time `now`; no tokens move and no authorization is needed.
    pub fn donate(&mut self, pool_id: u32, donor: Address, amount: u128, now: u64) -> (r: Result<
        Outcome<()>,
        ContractError,
    >)
        ensures
            step_of(final(self)@, r) == old(self)@.donate(pool_id, donor, amount, now),
            r is Err ==> final(self)@ == old(self)@,
    {
        match self.pools.get(&pool_id) {
            None => return Err(ContractError::PoolNotFound),
            Some(p) => {
                if p.closed {
                    return Err(ContractError::PoolIsClosed);
                }
                match p.state {
                    PoolState::Active => {},
                    _ => return Err(ContractError::InvalidPoolState),
                }
                if amount == 0 {
                    return Err(ContractError::InvalidAmount);
                }
                if !p.donation_fits(donor, amount) {
                    return Err(ContractError::ArithmeticOverflow);
                }
            },
        }
        let mut p = self.take_pool(pool_id);
        p.record_donation(donor, amount, now);
        let new_collected = p.collected;
        self.put_pool(pool_id, p, Ghost(old(self)@));
        let mut fx = Effects::none();
        fx.emit(ContractEvent::Donation { pool_id, donor, amount, new_collected });
        Ok(Outcome { value: (), effects: fx })
    }

    /// `donor` gives `amount` of `token` to an active pool at ledger time
    /// `now`: the donor authorizes a transfer to the contract, and a private
    /// contribution event is published.
    pub fn donate_with_token(
        &mut self,
        pool_id: u32,
        donor: Address,
        token: Address,
        amount: i128,
        now: u64,
    ) -> (r: Result<Outcome<()>, ContractError>)
        ensures
            step_of(final(self)@, r) == old(self)@.donate_with_token(
                pool_id,
                donor,
                token,
                amount,
                now,
            ),
            r is Err ==> final(self)@ == old(self)@,
    {
        match self.pools.get(&pool_id) {
            None => return Err(ContractError::PoolNotFound),
            Some(p) => {
                if p.closed {
                    return Err(ContractError::PoolIsClosed);
                }
                match p.state {
                    PoolState::Active => {},
                    _ => return Err(ContractError::InvalidPoolState),
                }
                if amount <= 0 {
                    return Err(ContractError::InvalidAmount);
                }
                if Self::refuses_token(p, token) || p.donated_in_other_token(donor, token) {
                    return Err(ContractError::TokenTransferFailed);
                }
                if !p.donation_fits(donor, amount as u128) {
                    return Err(ContractError::ArithmeticOverflow);
                }
            },
        }
        let contract = self.address;
        let mut p = self.take_pool(pool_id);
        p.record_token_donation(donor, token, amount as u128, now);
        let new_collected = p.collected;
        self.put_pool(pool_id, p, Ghost(old(self)@));
        let mut fx = Effects::none();
        fx.require_auth(donor);
        fx.transfer(Transfer { token, from: donor, to: contract, amount });
        fx.emit(
            ContractEvent::Contribution { pool_id, donor, amount, new_collected, private: true },
        );
        Ok(Outcome { value: (), effects: fx })
    }

    /// Pays `donor` back everything it gave to a pool, in `token`, once the
    /// pool's ledger deadline plus the grace period lies behind ledger `sequence`.
    pub fn refund_donation(&mut self, pool_id: u32, donor: Address, token: Address, sequence: u32) -> (r:
        Result<Outcome<()>, ContractError>)
        ensures
            step_of(final(self)@, r) == old(self)@.refund_donation(pool_id, donor, token, sequence),
            r is Err ==> final(self)@ == old(self)@,
    {
        let c = match self.pools.get(&pool_id) {
            None => return Err(ContractError::PoolNotFound),
            Some(p) => {
                if p.ledger_deadline == 0 || (sequence as u64) <= (p.ledger_deadline as u64)
                    + (REFUND_GRACE_PERIOD_LEDGERS as u64) {
                    return Err(ContractError::RefundNotAvailable);
                }
                if Self::refuses_token(p, token) || p.donated_in_other_token(donor, token) {
                    return Err(ContractError::TokenTransferFailed);
                }
                let c = p.contribution_of(donor);
                if c == 0 {
                    return Err(ContractError::NothingToRefund);
                }
                if c > i128::MAX as u128 {
                    return Err(ContractError::ArithmeticOverflow);
                }
                match c.checked_add(p.total_claimed) {
                    None => return Err(ContractError::InsufficientPoolBalance),
                    Some(needed) => if p.collected < needed {
                        return Err(ContractError::InsufficientPoolBalance);
                    },
                }
                c
            },
        };
        let contract = self.address;
        let mut p = self.take_pool(pool_id);
        p.record_refund(donor);
        self.put_pool(pool_id, p, Ghost(old(self)@));
        let mut fx = Effects::none();
        fx.require_auth(donor);
        fx.transfer(Transfer { token, from: contract, to: donor, amount: c as i128 });
        fx.emit(ContractEvent::DonationRefunded { pool_id, donor, amount: c });
        Ok(Outcome { value: (), effects: fx })
    }

    /// `student` applies to an open pool with `data`, once; publishes the
    /// running number of applications, with the privacy flag off.
    pub fn apply_to_pool(&mut self, pool_id: u32, student: Address, data: String) -> (r: Result<
        Outcome<()>,
        ContractError,
    >)
        ensures
            step_of(final(self)@, r) == old(self)@.apply_to_pool(pool_id, student, data@),
            r is Err ==> final(self)@ == old(self)@,
    {
        match self.pools.get(&pool_id) {
            None => return Err(ContractError::PoolNotFound),
            Some(p) => {
                if p.closed {
                    return Err(ContractError::PoolIsClosed);
                }
                if p.has_application(student) {
                    return Err(ContractError::ApplicationAlreadyExists);
                }
                if p.app_count == u32::MAX {
                    return Err(ContractError::ArithmeticOverflow);
                }
            },
        }
        let mut p = self.take_pool(pool_id);
        p.add_application(student, data);
        let app_count = p.app_count;
        self.put_pool(pool_id, p, Ghost(old(self)@));
        let mut fx = Effects::none();
        fx.require_auth(student);
        fx.emit(ContractEvent::ApplicationSubmitted { pool_id, student, app_count, private: false });
        Ok(Outcome { value: (), effects: fx })
    }

    /// The pool's school approves (`approved`) or rejects `student`'s application.
    pub fn approve_application(
        &mut self,
        pool_id: u32,
        school: Address,
        student: Address,
        approved: bool,
    ) -> (r: Result<Outcome<()>, ContractError>)
        ensures
            step_of(final(self)@, r) == old(self)@.approve_application(
                pool_id,
                school,
                student,
                approved,
            ),
            r is Err ==> final(self)@ == old(self)@,
    {
        match self.pools.get(&pool_id) {
            None => return Err(ContractError::PoolNotFound),
            Some(p) => {
                match p.school {
                    None => return Err(ContractError::PoolSchoolNotSet),
                    Some(s) => if s != school {
                        return Err(ContractError::UnauthorizedSchool);
                    },
                }
                if !p.has_application(student) {
                    return Err(ContractError::ApplicationNotFound);
                }
            },
        }
        let status = if approved {
            ApplicationStatus::Approved
        } else {
            ApplicationStatus::Rejected
        };
        let mut p = self.take_pool(pool_id);
        p.set_application_status(student, status);
        self.put_pool(pool_id, p, Ghost(old(self)@));
        let mut fx = Effects::none();
        fx.require_auth(school);
        fx.emit(ContractEvent::ApplicationDecided { pool_id, student, approved });
        Ok(Outcome { value: (), effects: fx })
    }

    /// An approved `student` claims `amount` from a pool; the contract pays it
    /// out in `token`, less the protocol fee, which it keeps.
    pub fn claim_funds(&mut self, student: Address, pool_id: u32, amount: i128, token: Address) -> (r:
        Result<Outcome<()>, ContractError>)
        ensures
            step_of(final(self)@, r) == old(self)@.claim_funds(student, pool_id, amount, token),
            r is Err ==> final(self)@ == old(self)@,
    {
        match self.pools.get(&pool_id) {
            None => return Err(ContractError::PoolNotFound),
            Some(p) => {
                if amount <= 0 {
                    return Err(ContractError::InvalidAmount);
                }
                match p.application_status(student) {
                    None => return Err(ContractError::ApplicationNotFound),
                    Some(ApplicationStatus::Approved) => {},
                    Some(_) => return Err(ContractError::ApplicationNotApproved),
                }
                if Self::refuses_token(p, token) {
                    return Err(ContractError::TokenTransferFailed);
                }
                if p.total_claimed > p.collected || amount as u128 > p.collected - p.total_claimed {
                    return Err(ContractError::ClaimExceedsCollected);
                }
                if p.claimed_by(student) > i128::MAX - amount {
                    return Err(ContractError::ArithmeticOverflow);
                }
            },
        }
        let contract = self.address;
        let fee = amount / PROTOCOL_FEE_DIVISOR;
        let mut p = self.take_pool(pool_id);
        p.record_claim(student, amount);
        self.put_pool(pool_id, p, Ghost(old(self)@));
        let mut fx = Effects::none();
        fx.require_auth(student);
        fx.transfer(Transfer { token, from: contract, to: student, amount: amount - fee });
        fx.emit(ContractEvent::FundsClaimed { pool_id, student, amount, fee });
        Ok(Outcome { value: (), effects: fx })
    }

    /// The admin asks to withdraw `amount` of `token` held for a pool; the
    /// request can be carried out [`GRACE_PERIOD_SECS`] after ledger time `now`.
    pub fn request_emergency_withdraw(
        &mut self,
        caller: Address,
        pool_id: u32,
        token: Address,
        amount: i128,
        now: u64,
    ) -> (r: Result<Outcome<()>, ContractError>)
        ensures
            step_of(final(self)@, r) == old(self)@.request_emergency_withdraw(
                caller,
                pool_id,
                token,
                amount,
                now,
            ),
            r is Err ==> final(self)@ == old(self)@,
    {
        if let Some(e) = self.admin_error(caller) {
            return Err(e);
        }
        if !self.pools.contains_key(&pool_id) {
            return Err(ContractError::PoolNotFound);
        }
        if amount <= 0 {
            return Err(ContractError::InvalidAmount);
        }
        self.emergency_withdrawals.insert(
            pool_id,
            EmergencyWithdrawal { recipient: caller, token, amount, requested_at: now },
        );
        let mut fx = Effects::none();
        fx.require_auth(caller);
        fx.emit(ContractEvent::EmergencyWithdrawalRequested { pool_id, token, amount });
        assert(self@ =~= old(self)@.request_emergency_withdraw(
            caller,
            pool_id,
            token,
            amount,
            now,
        )->Ok_0.state);
        Ok(Outcome { value: (), effects: fx })
    }

    /// Carries out the pending emergency withdrawal of a pool at ledger time
    /// `now`, once the grace period has passed, and removes the request.
    pub fn execute_emergency_withdraw(&mut self, pool_id: u32, now: u64) -> (r: Result<
        Outcome<()>,
        ContractError,
    >)
        ensures
            step_of(final(self)@, r) == old(self)@.execute_emergency_withdraw(pool_id, now),
            r is Err ==> final(self)@ == old(self)@,
    {
        let w = match self.emergency_withdrawals.get(&pool_id) {
            None => return Err(ContractError::EmergencyWithdrawalNotFound),
            Some(w) => *w,
        };
        if (now as u128) < (w.requested_at as u128) + (GRACE_PERIOD_SECS as u128) {
            return Err(ContractError::GracePeriodNotElapsed);
        }
        self.emergency_withdrawals.remove(&pool_id);
        let mut fx = Effects::none();
        fx.require_auth(w.recipient);
        fx.transfer(
            Transfer { token: w.token, from: self.address, to: w.recipient, amount: w.amount },
        );
        fx.emit(
            ContractEvent::EmergencyWithdrawalExecuted {
                pool_id,
                recipient: w.recipient,
                amount: w.amount,
            },
        );
        assert(self@ =~= old(self)@.execute_emergency_withdraw(pool_id, now)->Ok_0.state);
        Ok(Outcome { value: (), effects: fx })
    }

    /// The pending emergency withdrawal of a pool, if any.
    pub fn get_emergency_withdrawal(&self, pool_id: u32) -> (r: Option<EmergencyWithdrawal>)
        ensures
            r == self@.emergency_withdrawal(pool_id),
    {
        match self.emergency_withdrawals.get(&pool_id) {
            Some(w) => Some(*w),
            None => None,
        }
    }
}

} // verus!
