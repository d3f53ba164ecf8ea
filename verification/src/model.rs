use vstd::prelude::*;

use crate::pool::{ApplicationView, PoolView, SavedMetadataView};
use crate::types::{
    Address, ApplicationStatus, ContractError, ContractEvent, EffectsView, Outcome, PoolState,
    Transfer, GRACE_PERIOD_SECS, MAX_DESCRIPTION_LENGTH, MAX_IMAGE_HASH_LENGTH, MAX_TITLE_LENGTH,
    MAX_URL_LENGTH, PROTOCOL_FEE_DIVISOR, REFUND_GRACE_PERIOD_LEDGERS,
};

verus! {

/// A pending emergency withdrawal of funds held for a pool.
#[derive(Clone, Copy, Debug, PartialEq, Eq, Structural)]
pub struct EmergencyWithdrawal {
    pub recipient: Address,
    pub token: Address,
    pub amount: i128,
    pub requested_at: u64,
}

/// The mathematical state of the contract.
#[verifier::ext_equal]
pub struct NevoView {
    /// The contract's own address, which receives donations and fees.
    pub address: Address,
    pub admin: Option<Address>,
    pub creation_fee: i128,
    pub crowdfunding_token: Option<Address>,
    /// The number of pool ids handed out so far; the next pool gets the one after it.
    pub pool_count: u32,
    pub pools: Map<u32, PoolView>,
    pub schools: Map<u64, [u8; 32]>,
    pub emergency_withdrawals: Map<u32, EmergencyWithdrawal>,
}

/// The state after a successful call, its effects and the value it returns.
pub struct Step<R> {
    pub state: NevoView,
    pub effects: EffectsView,
    pub value: R,
}

/// Reads the outcome of an executed call, given the state it left, as a [`Step`].
pub open spec fn step_of<R>(post: NevoView, r: Result<Outcome<R>, ContractError>) -> Result<
    Step<R>,
    ContractError,
> {
    match r {
        Ok(o) => Ok(Step { state: post, effects: o.effects@, value: o.value }),
        Err(e) => Err(e),
    }
}

/// Length in bytes of the UTF-8 encoding of `s`, as `str::len` reports it.
pub open spec fn byte_len(s: Seq<char>) -> usize {
    vstd::utf8::encode_utf8(s).len() as usize
}

/// A pool title must be non-empty and at most [`MAX_TITLE_LENGTH`] bytes long.
pub open spec fn valid_title(title: Seq<char>) -> bool {
    title.len() > 0 && byte_len(title) <= MAX_TITLE_LENGTH
}

pub open spec fn ok<R>(state: NevoView, effects: EffectsView, value: R) -> Result<
    Step<R>,
    ContractError,
> {
    Ok(Step { state, effects, value })
}

/// The status an application gets from the school's decision.
pub open spec fn decision_status(approved: bool) -> ApplicationStatus {
    if approved {
        ApplicationStatus::Approved
    } else {
        ApplicationStatus::Rejected
    }
}

impl NevoView {
    /// The state of a freshly deployed contract at `address`.
    pub open spec fn initial(address: Address) -> NevoView {
        NevoView {
            address,
            admin: None,
            creation_fee: 0,
            crowdfunding_token: None,
            pool_count: 0,
            pools: Map::empty(),
            schools: Map::empty(),
            emergency_withdrawals: Map::empty(),
        }
    }

    pub open spec fn with_pool(self, pool_id: u32, pool: PoolView) -> NevoView {
        NevoView { pools: self.pools.insert(pool_id, pool), ..self }
    }

    /// Why `caller` may not act as admin, if it may not.
    pub open spec fn admin_error(self, caller: Address) -> Option<ContractError> {
        match self.admin {
            None => Some(ContractError::AdminNotSet),
            Some(a) => if a == caller {
                None
            } else {
                Some(ContractError::UnauthorizedAdmin)
            },
        }
    }

    // ------------------------------------------------------------------
    // Administration
    // ------------------------------------------------------------------

    /// `new_admin` becomes the admin; it must authorize the call itself.
    pub open spec fn set_admin(self, new_admin: Address) -> Result<Step<()>, ContractError> {
        ok(NevoView { admin: Some(new_admin), ..self }, EffectsView::empty().auth(new_admin), ())
    }

    pub open spec fn set_creation_fee(self, caller: Address, fee: i128) -> Result<
        Step<()>,
        ContractError,
    > {
        match self.admin_error(caller) {
            Some(e) => Err(e),
            None => if fee < 0 {
                Err(ContractError::InvalidFee)
            } else {
                ok(
                    NevoView { creation_fee: fee, ..self },
                    EffectsView::empty().auth(caller).emit(ContractEvent::CreationFeeSet { fee }),
                    (),
                )
            },
        }
    }

    pub open spec fn set_crowdfunding_token(self, caller: Address, token: Address) -> Result<
        Step<()>,
        ContractError,
    > {
        match self.admin_error(caller) {
            Some(e) => Err(e),
            None => if token == self.address {
                Err(ContractError::InvalidTokenAddress)
            } else {
                ok(
                    NevoView { crowdfunding_token: Some(token), ..self },
                    EffectsView::empty().auth(caller).emit(
                        ContractEvent::CrowdfundingTokenSet { token },
                    ),
                    (),
                )
            },
        }
    }

    pub open spec fn crowdfunding_token(self) -> Result<Address, ContractError> {
        match self.crowdfunding_token {
            Some(t) => Ok(t),
            None => Err(ContractError::CrowdfundingTokenNotSet),
        }
    }

    /// The admin registers `school` with the hash of its metadata.
    pub open spec fn register_school(self, school: Address, metadata_hash: [u8; 32]) -> Result<
        Step<()>,
        ContractError,
    > {
        match self.admin {
            None => Err(ContractError::AdminNotSet),
            Some(admin) => ok(
                NevoView { schools: self.schools.insert(school.0, metadata_hash), ..self },
                EffectsView::empty().auth(admin).emit(ContractEvent::SchoolRegistered { school }),
                (),
            ),
        }
    }

    pub open spec fn school_metadata(self, school: Address) -> Result<[u8; 32], ContractError> {
        if self.schools.contains_key(school.0) {
            Ok(self.schools[school.0])
        } else {
            Err(ContractError::SchoolNotRegistered)
        }
    }
    // ------------------------------------------------------------------
    // Pool creation and reads
    // ------------------------------------------------------------------

    /// The id the next pool gets.
    pub open spec fn next_pool_id(self) -> u32 {
        (self.pool_count + 1) as u32
    }

    /// Why a pool with these parameters cannot be created at time `now`, if it cannot.
    pub open spec fn pool_creation_error(self, title: Seq<char>, goal: u128, deadline: u64, now: u64) -> Option<
        ContractError,
    > {
        if !valid_title(title) {
            Some(ContractError::InvalidPoolName)
        } else if deadline < now {
            Some(ContractError::InvalidPoolDeadline)
        } else if goal == 0 || deadline == now {
            Some(ContractError::InvalidPoolTarget)
        } else if self.pool_count == u32::MAX {
            Some(ContractError::ArithmeticOverflow)
        } else if self.pools.contains_key(self.next_pool_id()) {
            Some(ContractError::PoolAlreadyExists)
        } else {
            None
        }
    }

    /// The state with a new pool stored under the next id.
    pub open spec fn open_pool(
        self,
        creator: Address,
        title: Seq<char>,
        description: Seq<char>,
        goal: u128,
        deadline: u64,
        school: Option<Address>,
    ) -> NevoView {
        NevoView {
            pool_count: self.next_pool_id(),
            pools: self.pools.insert(
                self.next_pool_id(),
                PoolView::fresh(creator, title, description, goal, deadline, school),
            ),
            ..self
        }
    }

    /// `creator` opens a pool; no authorization and no fee are needed.
    pub open spec fn create_pool(
        self,
        creator: Address,
        title: Seq<char>,
        description: Seq<char>,
        goal: u128,
        deadline: u64,
        now: u64,
    ) -> Result<Step<u32>, ContractError> {
        match self.pool_creation_error(title, goal, deadline, now) {
            Some(e) => Err(e),
            None => ok(
                self.open_pool(creator, title, description, goal, deadline, None),
                EffectsView::empty().emit(
                    ContractEvent::PoolCreated { pool_id: self.next_pool_id(), creator, goal },
                ),
                self.next_pool_id(),
            ),
        }
    }

    /// As [`NevoView::create_pool`], for a registered school, which the pool remembers.
    pub open spec fn create_pool_for_school(
        self,
        creator: Address,
        title: Seq<char>,
        description: Seq<char>,
        goal: u128,
        school: Address,
        deadline: u64,
        now: u64,
    ) -> Result<Step<u32>, ContractError> {
        if !self.schools.contains_key(school.0) {
            Err(ContractError::SchoolNotRegistered)
        } else {
            match self.pool_creation_error(title, goal, deadline, now) {
                Some(e) => Err(e),
                None => ok(
                    self.open_pool(creator, title, description, goal, deadline, Some(school)),
                    EffectsView::empty().emit(
                        ContractEvent::PoolCreated { pool_id: self.next_pool_id(), creator, goal },
                    ),
                    self.next_pool_id(),
                ),
            }
        }
    }

    /// As [`NevoView::create_pool`], but the creator pays the creation fee, if it is
    /// positive, in `fee_token` to the contract, and must authorize that payment.
    pub open spec fn create_pool_with_fee(
        self,
        creator: Address,
        title: Seq<char>,
        description: Seq<char>,
        goal: u128,
        deadline: u64,
        fee_token: Address,
        now: u64,
    ) -> Result<Step<u32>, ContractError> {
        match self.pool_creation_error(title, goal, deadline, now) {
            Some(e) => Err(e),
            None => {
                let id = self.next_pool_id();
                let created = ContractEvent::PoolCreated { pool_id: id, creator, goal };
                let effects = if self.creation_fee > 0 {
                    EffectsView::empty().auth(creator).transfer(
                        Transfer {
                            token: fee_token,
                            from: creator,
                            to: self.address,
                            amount: self.creation_fee,
                        },
                    ).emit(created).emit(
                        ContractEvent::CreationFeePaid {
                            pool_id: id,
                            creator,
                            token: fee_token,
                            fee: self.creation_fee,
                        },
                    )
                } else {
                    EffectsView::empty().emit(created)
                };
                ok(self.open_pool(creator, title, description, goal, deadline, None), effects, id)
            },
        }
    }

    /// The pool stored under `pool_id`.
    pub open spec fn pool(self, pool_id: u32) -> Result<PoolView, ContractError> {
        if self.pools.contains_key(pool_id) {
            Ok(self.pools[pool_id])
        } else {
            Err(ContractError::PoolNotFound)
        }
    }

    /// `(id, sponsor, goal, collected, is_closed, deadline)` of a pool.
    pub open spec fn pool_info(self, pool_id: u32) -> Result<
        (u32, Address, u128, u128, bool, u64),
        ContractError,
    > {
        match self.pool(pool_id) {
            Ok(p) => Ok((pool_id, p.sponsor, p.goal, p.collected, p.closed, p.deadline)),
            Err(e) => Err(e),
        }
    }

    /// Title and description of a pool; both empty for an unknown pool.
    pub open spec fn pool_metadata(self, pool_id: u32) -> (Seq<char>, Seq<char>) {
        if self.pools.contains_key(pool_id) {
            (self.pools[pool_id].title, self.pools[pool_id].description)
        } else {
            (Seq::empty(), Seq::empty())
        }
    }

    /// The school a pool was created for.
    pub open spec fn pool_school(self, pool_id: u32) -> Result<Address, ContractError> {
        if self.pools.contains_key(pool_id) && self.pools[pool_id].school is Some {
            Ok(self.pools[pool_id].school->0)
        } else {
            Err(ContractError::PoolSchoolNotSet)
        }
    }
    // ------------------------------------------------------------------
    // Pool management by the sponsor
    // ------------------------------------------------------------------

    /// Moves an open pool to `state`.
    pub open spec fn set_pool_state(self, pool_id: u32, state: PoolState) -> Result<
        Step<()>,
        ContractError,
    > {
        match self.pool(pool_id) {
            Err(e) => Err(e),
            Ok(p) => if p.closed {
                Err(ContractError::PoolIsClosed)
            } else {
                ok(
                    self.with_pool(pool_id, PoolView { state, ..p }),
                    EffectsView::empty().auth(p.sponsor),
                    (),
                )
            },
        }
    }

    /// Closes a pool once it has been disbursed or cancelled.
    pub open spec fn close_pool(self, pool_id: u32) -> Result<Step<()>, ContractError> {
        match self.pool(pool_id) {
            Err(e) => Err(e),
            Ok(p) => if p.closed {
                Err(ContractError::PoolAlreadyClosed)
            } else if !(p.state == PoolState::Disbursed || p.state == PoolState::Cancelled) {
                Err(ContractError::PoolNotDisbursedOrRefunded)
            } else {
                ok(
                    self.with_pool(pool_id, PoolView { closed: true, ..p }),
                    EffectsView::empty().auth(p.sponsor).emit(ContractEvent::PoolClosed { pool_id }),
                    (),
                )
            },
        }
    }

    /// Fixes the only token that the pool accepts from then on.
    pub open spec fn set_pool_token(self, pool_id: u32, token: Address) -> Result<
        Step<()>,
        ContractError,
    > {
        match self.pool(pool_id) {
            Err(e) => Err(e),
            Ok(p) => if token == self.address {
                Err(ContractError::InvalidTokenAddress)
            } else {
                ok(
                    self.with_pool(pool_id, PoolView { token: Some(token), ..p }),
                    EffectsView::empty().auth(p.sponsor),
                    (),
                )
            },
        }
    }

    /// Sets the ledger deadline of a pool; it must lie after the current ledger `sequence`.
    pub open spec fn set_pool_deadline(self, pool_id: u32, deadline: u32, sequence: u32) -> Result<
        Step<()>,
        ContractError,
    > {
        match self.pool(pool_id) {
            Err(e) => Err(e),
            Ok(p) => if deadline <= sequence {
                Err(ContractError::DeadlineNotInFuture)
            } else {
                ok(
                    self.with_pool(pool_id, PoolView { ledger_deadline: deadline, ..p }),
                    EffectsView::empty().auth(p.sponsor),
                    (),
                )
            },
        }
    }

    /// Saves the descriptive fields of a pool, each within its length bound.
    pub open spec fn save_pool(
        self,
        pool_id: u32,
        description: Seq<char>,
        url: Seq<char>,
        image_hash: Seq<char>,
    ) -> Result<Step<()>, ContractError> {
        match self.pool(pool_id) {
            Err(e) => Err(e),
            Ok(p) => if byte_len(description) > MAX_DESCRIPTION_LENGTH {
                Err(ContractError::DescriptionTooLong)
            } else if byte_len(url) > MAX_URL_LENGTH {
                Err(ContractError::UrlTooLong)
            } else if byte_len(image_hash) > MAX_IMAGE_HASH_LENGTH {
                Err(ContractError::ImageHashTooLong)
            } else {
                ok(
                    self.with_pool(
                        pool_id,
                        PoolView { metadata: SavedMetadataView { description, url, image_hash }, ..p },
                    ),
                    EffectsView::empty().auth(p.sponsor),
                    (),
                )
            },
        }
    }

    pub open spec fn saved_pool_metadata(self, pool_id: u32) -> Result<
        SavedMetadataView,
        ContractError,
    > {
        match self.pool(pool_id) {
            Ok(p) => Ok(p.metadata),
            Err(e) => Err(e),
        }
    }

    pub open spec fn campaign_goal(self, pool_id: u32) -> Result<u128, ContractError> {
        match self.pool(pool_id) {
            Ok(p) => Ok(p.goal),
            Err(e) => Err(e),
        }
    }

    pub open spec fn total_raised(self, pool_id: u32) -> Result<u128, ContractError> {
        match self.pool(pool_id) {
            Ok(p) => Ok(p.collected),
            Err(e) => Err(e),
        }
    }

    pub open spec fn donor_count(self, pool_id: u32) -> Result<u32, ContractError> {
        match self.pool(pool_id) {
            Ok(p) => Ok(p.donor_count),
            Err(e) => Err(e),
        }
    }

    pub open spec fn contribution(self, pool_id: u32, donor: Address) -> Result<u128, ContractError> {
        match self.pool(pool_id) {
            Ok(p) => Ok(p.contribution_of(donor)),
            Err(e) => Err(e),
        }
    }

    pub open spec fn last_donation_at(self, pool_id: u32) -> Result<u64, ContractError> {
        match self.pool(pool_id) {
            Ok(p) => Ok(p.last_donation_at),
            Err(e) => Err(e),
        }
    }

    pub open spec fn is_closed(self, pool_id: u32) -> Result<bool, ContractError> {
        match self.pool(pool_id) {
            Ok(p) => Ok(p.closed),
            Err(e) => Err(e),
        }
    }

    pub open spec fn pool_deadline(self, pool_id: u32) -> Result<u32, ContractError> {
        match self.pool(pool_id) {
            Ok(p) => Ok(p.ledger_deadline),
            Err(e) => Err(e),
        }
    }

    /// The gross amount `student` has claimed from a pool; 0 for an unknown pool.
    pub open spec fn claimed_amount(self, pool_id: u32, student: Address) -> i128 {
        if self.pools.contains_key(pool_id) {
            self.pools[pool_id].claimed_by(student)
        } else {
            0
        }
    }
    // ------------------------------------------------------------------
    // Donations and refunds
    // ------------------------------------------------------------------

    /// `donor` records a donation of `amount` to an active pool at time `now`,
    /// without moving tokens.
    pub open spec fn donate(self, pool_id: u32, donor: Address, amount: u128, now: u64) -> Result<
        Step<()>,
        ContractError,
    > {
        match self.pool(pool_id) {
            Err(e) => Err(e),
            Ok(p) => if p.closed {
                Err(ContractError::PoolIsClosed)
            } else if p.state != PoolState::Active {
                Err(ContractError::InvalidPoolState)
            } else if amount == 0 {
                Err(ContractError::InvalidAmount)
            } else if !p.donation_fits(donor, amount) {
                Err(ContractError::ArithmeticOverflow)
            } else {
                let q = p.record_donation(donor, amount, now);
                ok(
                    self.with_pool(pool_id, q),
                    EffectsView::empty().emit(
                        ContractEvent::Donation { pool_id, donor, amount, new_collected: q.collected },
                    ),
                    (),
                )
            },
        }
    }

    /// Whether a pool refuses `token` because it accepts another one only.
    pub open spec fn refuses_token(p: PoolView, token: Address) -> bool {
        p.token is Some && p.token->0 != token
    }

    /// `donor` gives `amount` of `token` to an active pool at time `now`; the
    /// tokens move from the donor to the contract, and the event is private.
    /// The token must be the pool's, if it has one, and the one the donor's
    /// earlier token donations still held by the pool were made in; the pool
    /// remembers it for the refund.
    pub open spec fn donate_with_token(
        self,
        pool_id: u32,
        donor: Address,
        token: Address,
        amount: i128,
        now: u64,
    ) -> Result<Step<()>, ContractError> {
        match self.pool(pool_id) {
            Err(e) => Err(e),
            Ok(p) => if p.closed {
                Err(ContractError::PoolIsClosed)
            } else if p.state != PoolState::Active {
                Err(ContractError::InvalidPoolState)
            } else if amount <= 0 {
                Err(ContractError::InvalidAmount)
            } else if Self::refuses_token(p, token) || p.donated_in_other_token(donor, token) {
                Err(ContractError::TokenTransferFailed)
            } else if !p.donation_fits(donor, amount as u128) {
                Err(ContractError::ArithmeticOverflow)
            } else {
                let q = p.record_token_donation(donor, token, amount as u128, now);
                ok(
                    self.with_pool(pool_id, q),
                    EffectsView::empty().auth(donor).transfer(
                        Transfer { token, from: donor, to: self.address, amount },
                    ).emit(
                        ContractEvent::Contribution {
                            pool_id,
                            donor,
                            amount,
                            new_collected: q.collected,
                            private: true,
                        },
                    ),
                    (),
                )
            },
        }
    }

    /// Whether refunds of a pool are open at ledger `sequence`: its ledger
    /// deadline is set and more than the grace period has passed since it.
    pub open spec fn refunds_open(p: PoolView, sequence: u32) -> bool {
        p.ledger_deadline != 0 && sequence > p.ledger_deadline + REFUND_GRACE_PERIOD_LEDGERS
    }

    /// `donor` takes back everything it gave to a pool, in `token`, which must be
    /// the pool's token, if it has one, and the token the donor donated in, if
    /// it donated in one.
    pub open spec fn refund_donation(
        self,
        pool_id: u32,
        donor: Address,
        token: Address,
        sequence: u32,
    ) -> Result<Step<()>, ContractError> {
        match self.pool(pool_id) {
            Err(e) => Err(e),
            Ok(p) => {
                let c = p.contribution_of(donor);
                if !Self::refunds_open(p, sequence) {
                    Err(ContractError::RefundNotAvailable)
                } else if Self::refuses_token(p, token) || p.donated_in_other_token(donor, token) {
                    Err(ContractError::TokenTransferFailed)
                } else if c == 0 {
                    Err(ContractError::NothingToRefund)
                } else if c > i128::MAX {
                    Err(ContractError::ArithmeticOverflow)
                } else if p.collected < c + p.total_claimed {
                    Err(ContractError::InsufficientPoolBalance)
                } else {
                    ok(
                        self.with_pool(
                            pool_id,
                            PoolView {
                                collected: (p.collected - c) as u128,
                                contributions: p.contributions.insert(donor.0, 0),
                                donation_tokens: p.donation_tokens.remove(donor.0),
                                ..p
                            },
                        ),
                        EffectsView::empty().auth(donor).transfer(
                            Transfer { token, from: self.address, to: donor, amount: c as i128 },
                        ).emit(ContractEvent::DonationRefunded { pool_id, donor, amount: c }),
                        (),
                    )
                }
            },
        }
    }

    // ------------------------------------------------------------------
    // Applications and claims
    // ------------------------------------------------------------------

    /// `student` applies to an open pool, once; the event is public.
    pub open spec fn apply_to_pool(self, pool_id: u32, student: Address, data: Seq<char>) -> Result<
        Step<()>,
        ContractError,
    > {
        match self.pool(pool_id) {
            Err(e) => Err(e),
            Ok(p) => if p.closed {
                Err(ContractError::PoolIsClosed)
            } else if p.applications.contains_key(student.0) {
                Err(ContractError::ApplicationAlreadyExists)
            } else if p.app_count == u32::MAX {
                Err(ContractError::ArithmeticOverflow)
            } else {
                let count = (p.app_count + 1) as u32;
                ok(
                    self.with_pool(
                        pool_id,
                        PoolView {
                            applications: p.applications.insert(
                                student.0,
                                ApplicationView { data, status: ApplicationStatus::Pending },
                            ),
                            app_count: count,
                            ..p
                        },
                    ),
                    EffectsView::empty().auth(student).emit(
                        ContractEvent::ApplicationSubmitted {
                            pool_id,
                            student,
                            app_count: count,
                            private: false,
                        },
                    ),
                    (),
                )
            },
        }
    }

    /// The pool's school approves or rejects `student`'s application.
    pub open spec fn approve_application(
        self,
        pool_id: u32,
        school: Address,
        student: Address,
        approved: bool,
    ) -> Result<Step<()>, ContractError> {
        match self.pool(pool_id) {
            Err(e) => Err(e),
            Ok(p) => if p.school is None {
                Err(ContractError::PoolSchoolNotSet)
            } else if p.school->0 != school {
                Err(ContractError::UnauthorizedSchool)
            } else if !p.applications.contains_key(student.0) {
                Err(ContractError::ApplicationNotFound)
            } else {
                ok(
                    self.with_pool(
                        pool_id,
                        PoolView {
                            applications: p.applications.insert(
                                student.0,
                                ApplicationView {
                                    status: decision_status(approved),
                                    ..p.applications[student.0]
                                },
                            ),
                            ..p
                        },
                    ),
                    EffectsView::empty().auth(school).emit(
                        ContractEvent::ApplicationDecided { pool_id, student, approved },
                    ),
                    (),
                )
            },
        }
    }

    /// The protocol fee kept from a claim of `amount`.
    pub open spec fn claim_fee(amount: i128) -> i128 {
        (amount / PROTOCOL_FEE_DIVISOR) as i128
    }

    /// An approved `student` claims `amount` from a pool: the contract pays
    /// out the amount less the protocol fee in `token`; the pool's claims in
    /// total never pass what it has collected.
    pub open spec fn claim_funds(
        self,
        student: Address,
        pool_id: u32,
        amount: i128,
        token: Address,
    ) -> Result<Step<()>, ContractError> {
        match self.pool(pool_id) {
            Err(e) => Err(e),
            Ok(p) => if amount <= 0 {
                Err(ContractError::InvalidAmount)
            } else if !p.applications.contains_key(student.0) {
                Err(ContractError::ApplicationNotFound)
            } else if p.applications[student.0].status != ApplicationStatus::Approved {
                Err(ContractError::ApplicationNotApproved)
            } else if Self::refuses_token(p, token) {
                Err(ContractError::TokenTransferFailed)
            } else if p.total_claimed + amount > p.collected {
                Err(ContractError::ClaimExceedsCollected)
            } else if p.claimed_by(student) + amount > i128::MAX {
                Err(ContractError::ArithmeticOverflow)
            } else {
                let fee = Self::claim_fee(amount);
                ok(
                    self.with_pool(
                        pool_id,
                        PoolView {
                            claimed: p.claimed.insert(
                                student.0,
                                (p.claimed_by(student) + amount) as i128,
                            ),
                            total_claimed: (p.total_claimed + amount) as u128,
                            ..p
                        },
                    ),
                    EffectsView::empty().auth(student).transfer(
                        Transfer {
                            token,
                            from: self.address,
                            to: student,
                            amount: (amount - fee) as i128,
                        },
                    ).emit(ContractEvent::FundsClaimed { pool_id, student, amount, fee }),
                    (),
                )
            },
        }
    }

    // ------------------------------------------------------------------
    // Emergency withdrawals
    // ------------------------------------------------------------------

    /// The admin asks to withdraw `amount` of `token` held for a pool.
    pub open spec fn request_emergency_withdraw(
        self,
        caller: Address,
        pool_id: u32,
        token: Address,
        amount: i128,
        now: u64,
    ) -> Result<Step<()>, ContractError> {
        match self.admin_error(caller) {
            Some(e) => Err(e),
            None => if !self.pools.contains_key(pool_id) {
                Err(ContractError::PoolNotFound)
            } else if amount <= 0 {
                Err(ContractError::InvalidAmount)
            } else {
                ok(
                    NevoView {
                        emergency_withdrawals: self.emergency_withdrawals.insert(
                            pool_id,
                            EmergencyWithdrawal { recipient: caller, token, amount, requested_at: now },
                        ),
                        ..self
                    },
                    EffectsView::empty().auth(caller).emit(
                        ContractEvent::EmergencyWithdrawalRequested { pool_id, token, amount },
                    ),
                    (),
                )
            },
        }
    }

    /// Carries out a pending emergency withdrawal once the grace period has
    /// passed, and forgets it.
    pub open spec fn execute_emergency_withdraw(self, pool_id: u32, now: u64) -> Result<
        Step<()>,
        ContractError,
    > {
        if !self.emergency_withdrawals.contains_key(pool_id) {
            Err(ContractError::EmergencyWithdrawalNotFound)
        } else {
            let w = self.emergency_withdrawals[pool_id];
            if now < w.requested_at + GRACE_PERIOD_SECS {
                Err(ContractError::GracePeriodNotElapsed)
            } else {
                ok(
                    NevoView {
                        emergency_withdrawals: self.emergency_withdrawals.remove(pool_id),
                        ..self
                    },
                    EffectsView::empty().auth(w.recipient).transfer(
                        Transfer {
                            token: w.token,
                            from: self.address,
                            to: w.recipient,
                            amount: w.amount,
                        },
                    ).emit(
                        ContractEvent::EmergencyWithdrawalExecuted {
                            pool_id,
                            recipient: w.recipient,
                            amount: w.amount,
                        },
                    ),
                    (),
                )
            }
        }
    }

    pub open spec fn emergency_withdrawal(self, pool_id: u32) -> Option<EmergencyWithdrawal> {
        if self.emergency_withdrawals.contains_key(pool_id) {
            Some(self.emergency_withdrawals[pool_id])
        } else {
            None
        }
    }
}

} // verus!
