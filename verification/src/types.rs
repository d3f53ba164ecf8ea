use vstd::prelude::*;

verus! {

/// Longest pool title, in bytes.
pub const MAX_TITLE_LENGTH: u32 = 100;

/// Longest saved pool description, in bytes.
pub const MAX_DESCRIPTION_LENGTH: usize = 1000;

/// Longest saved pool URL, in bytes.
pub const MAX_URL_LENGTH: usize = 256;

/// Longest saved pool image hash, in bytes.
pub const MAX_IMAGE_HASH_LENGTH: usize = 128;

/// Seconds that must pass between requesting and executing an emergency withdrawal.
pub const GRACE_PERIOD_SECS: u64 = 86_400;

/// Ledgers that must pass after a pool's ledger deadline before donors may ask for refunds.
pub const REFUND_GRACE_PERIOD_LEDGERS: u32 = 17_280;

/// A claim keeps one part in this many of the gross amount as protocol fee.
pub const PROTOCOL_FEE_DIVISOR: i128 = 100;

/// An account or contract on the ledger, identified by a number.
#[derive(Clone, Copy, Debug, PartialEq, Eq, Hash, Structural)]
pub struct Address(pub u64);

/// Lifecycle state of a pool.
#[derive(Clone, Copy, Debug, PartialEq, Eq, Structural)]
pub enum PoolState {
    Active,
    Paused,
    Completed,
    Cancelled,
    Disbursed,
}

/// Status of a student's application to a pool, as the pool's school decides it.
#[derive(Clone, Copy, Debug, PartialEq, Eq, Structural)]
pub enum ApplicationStatus {
    Pending,
    Approved,
    Rejected,
}

/// Every way a contract call can fail.
#[derive(Clone, Copy, Debug, PartialEq, Eq, Structural)]
pub enum ContractError {
    PoolNotFound,
    InvalidPoolState,
    UnauthorizedAdmin,
    PoolIsClosed,
    ApplicationNotFound,
    ApplicationAlreadyExists,
    ApplicationNotApproved,
    PoolNotDisbursedOrRefunded,
    AdminNotSet,
    SchoolNotRegistered,
    InvalidFee,
    ClaimExceedsCollected,
    EmergencyWithdrawalNotFound,
    GracePeriodNotElapsed,
    PoolAlreadyClosed,
    InvalidPoolName,
    PoolAlreadyExists,
    InvalidPoolTarget,
    InvalidPoolDeadline,
    RefundNotAvailable,
    NothingToRefund,
    ArithmeticOverflow,
    UnauthorizedSchool,
    CrowdfundingTokenNotSet,
    InsufficientPoolBalance,
    InvalidAmount,
    TokenTransferFailed,
    InvalidTokenAddress,
    PoolSchoolNotSet,
    DescriptionTooLong,
    UrlTooLong,
    ImageHashTooLong,
    DeadlineNotInFuture,
}

impl ContractError {
    /// The number under which the error is reported to callers, for the
    /// errors that the contract reports as numbered contract errors.
    pub open spec fn spec_code(self) -> Option<u32> {
        match self {
            ContractError::PoolNotFound => Some(1),
            ContractError::InvalidPoolState => Some(2),
            ContractError::UnauthorizedAdmin => Some(3),
            ContractError::PoolIsClosed => Some(4),
            ContractError::ApplicationNotFound => Some(5),
            ContractError::ApplicationAlreadyExists => Some(6),
            ContractError::ApplicationNotApproved => Some(7),
            ContractError::PoolNotDisbursedOrRefunded => Some(8),
            ContractError::AdminNotSet => Some(9),
            ContractError::SchoolNotRegistered => Some(10),
            ContractError::InvalidFee => Some(11),
            ContractError::ClaimExceedsCollected => Some(12),
            ContractError::EmergencyWithdrawalNotFound => Some(13),
            ContractError::GracePeriodNotElapsed => Some(14),
            ContractError::PoolAlreadyClosed => Some(15),
            ContractError::InvalidPoolName => Some(16),
            ContractError::PoolAlreadyExists => Some(16),
            ContractError::InvalidPoolTarget => Some(17),
            ContractError::InvalidPoolDeadline => Some(18),
            ContractError::RefundNotAvailable => Some(19),
            ContractError::NothingToRefund => Some(20),
            ContractError::ArithmeticOverflow => Some(21),
            ContractError::UnauthorizedSchool => Some(22),
            ContractError::CrowdfundingTokenNotSet => Some(23),
            ContractError::InsufficientPoolBalance => Some(24),
            _ => None,
        }
    }

    /// The number under which the error is reported, or `None` for the
    /// failures that the contract reports by a message instead.
    pub fn code(&self) -> (r: Option<u32>)
        ensures
            r == self.spec_code(),
    {
        match self {
            ContractError::PoolNotFound => Some(1),
            ContractError::InvalidPoolState => Some(2),
            ContractError::UnauthorizedAdmin => Some(3),
            ContractError::PoolIsClosed => Some(4),
            ContractError::ApplicationNotFound => Some(5),
            ContractError::ApplicationAlreadyExists => Some(6),
            ContractError::ApplicationNotApproved => Some(7),
            ContractError::PoolNotDisbursedOrRefunded => Some(8),
            ContractError::AdminNotSet => Some(9),
            ContractError::SchoolNotRegistered => Some(10),
            ContractError::InvalidFee => Some(11),
            ContractError::ClaimExceedsCollected => Some(12),
            ContractError::EmergencyWithdrawalNotFound => Some(13),
            ContractError::GracePeriodNotElapsed => Some(14),
            ContractError::PoolAlreadyClosed => Some(15),
            ContractError::InvalidPoolName => Some(16),
            ContractError::PoolAlreadyExists => Some(16),
            ContractError::InvalidPoolTarget => Some(17),
            ContractError::InvalidPoolDeadline => Some(18),
            ContractError::RefundNotAvailable => Some(19),
            ContractError::NothingToRefund => Some(20),
            ContractError::ArithmeticOverflow => Some(21),
            ContractError::UnauthorizedSchool => Some(22),
            ContractError::CrowdfundingTokenNotSet => Some(23),
            ContractError::InsufficientPoolBalance => Some(24),
            _ => None,
        }
    }

    /// The message with which the contract reports a failure that carries no number.
    pub open spec fn spec_message(self) -> Seq<char> {
        match self {
            ContractError::InvalidAmount => "InvalidAmount"@,
            ContractError::TokenTransferFailed => "TokenTransferFailed"@,
            ContractError::InvalidTokenAddress => "InvalidTokenAddress"@,
            ContractError::PoolSchoolNotSet => "Pool school not set"@,
            ContractError::DescriptionTooLong => "Description exceeds maximum length"@,
            ContractError::UrlTooLong => "URL exceeds maximum length"@,
            ContractError::ImageHashTooLong => "Image hash exceeds maximum length"@,
            ContractError::DeadlineNotInFuture => "Deadline must be in the future"@,
            _ => "contract error"@,
        }
    }

    /// The message with which the contract reports a failure that carries no number.
    pub fn message(&self) -> (s: &'static str)
        ensures
            s@ == self.spec_message(),
    {
        match self {
            ContractError::InvalidAmount => "InvalidAmount",
            ContractError::TokenTransferFailed => "TokenTransferFailed",
            ContractError::InvalidTokenAddress => "InvalidTokenAddress",
            ContractError::PoolSchoolNotSet => "Pool school not set",
            ContractError::DescriptionTooLong => "Description exceeds maximum length",
            ContractError::UrlTooLong => "URL exceeds maximum length",
            ContractError::ImageHashTooLong => "Image hash exceeds maximum length",
            ContractError::DeadlineNotInFuture => "Deadline must be in the future",
            _ => "contract error",
        }
    }
}


/// What the contract publishes when its state changes.
#[derive(Clone, Copy, Debug, PartialEq, Eq, Structural)]
pub enum ContractEvent {
    CreationFeeSet { fee: i128 },
    CrowdfundingTokenSet { token: Address },
    SchoolRegistered { school: Address },
    PoolCreated { pool_id: u32, creator: Address, goal: u128 },
    CreationFeePaid { pool_id: u32, creator: Address, token: Address, fee: i128 },
    Donation { pool_id: u32, donor: Address, amount: u128, new_collected: u128 },
    Contribution { pool_id: u32, donor: Address, amount: i128, new_collected: u128, private: bool },
    ApplicationSubmitted { pool_id: u32, student: Address, app_count: u32, private: bool },
    ApplicationDecided { pool_id: u32, student: Address, approved: bool },
    FundsClaimed { pool_id: u32, student: Address, amount: i128, fee: i128 },
    DonationRefunded { pool_id: u32, donor: Address, amount: u128 },
    PoolClosed { pool_id: u32 },
    EmergencyWithdrawalRequested { pool_id: u32, token: Address, amount: i128 },
    EmergencyWithdrawalExecuted { pool_id: u32, recipient: Address, amount: i128 },
}

impl ContractEvent {
    /// The short name under which the event is published, its first topic.
    pub open spec fn spec_name(self) -> Seq<char> {
        match self {
            ContractEvent::CreationFeeSet { .. } => "fee_set"@,
            ContractEvent::CrowdfundingTokenSet { .. } => "tok_set"@,
            ContractEvent::SchoolRegistered { .. } => "sch_reg"@,
            ContractEvent::PoolCreated { .. } => "pool_crt"@,
            ContractEvent::CreationFeePaid { .. } => "fee_paid"@,
            ContractEvent::Donation { .. } => "donation"@,
            ContractEvent::Contribution { .. } => "contrib"@,
            ContractEvent::ApplicationSubmitted { .. } => "app_sub"@,
            ContractEvent::ApplicationDecided { .. } => "app_dec"@,
            ContractEvent::FundsClaimed { .. } => "claimed"@,
            ContractEvent::DonationRefunded { .. } => "refund"@,
            ContractEvent::PoolClosed { .. } => "pool_cls"@,
            ContractEvent::EmergencyWithdrawalRequested { .. } => "emerg_req"@,
            ContractEvent::EmergencyWithdrawalExecuted { .. } => "emerg_ex"@,
        }
    }

    /// The short name under which the event is published, its first topic.
    pub fn name(&self) -> (s: &'static str)
        ensures
            s@ == self.spec_name(),
    {
        match self {
            ContractEvent::CreationFeeSet { .. } => "fee_set",
            ContractEvent::CrowdfundingTokenSet { .. } => "tok_set",
            ContractEvent::SchoolRegistered { .. } => "sch_reg",
            ContractEvent::PoolCreated { .. } => "pool_crt",
            ContractEvent::CreationFeePaid { .. } => "fee_paid",
            ContractEvent::Donation { .. } => "donation",
            ContractEvent::Contribution { .. } => "contrib",
            ContractEvent::ApplicationSubmitted { .. } => "app_sub",
            ContractEvent::ApplicationDecided { .. } => "app_dec",
            ContractEvent::FundsClaimed { .. } => "claimed",
            ContractEvent::DonationRefunded { .. } => "refund",
            ContractEvent::PoolClosed { .. } => "pool_cls",
            ContractEvent::EmergencyWithdrawalRequested { .. } => "emerg_req",
            ContractEvent::EmergencyWithdrawalExecuted { .. } => "emerg_ex",
        }
    }

    /// The pool an event concerns, published as its second topic; the
    /// contract-wide events have the name as their only topic.
    pub open spec fn spec_pool_topic(self) -> Option<u32> {
        match self {
            ContractEvent::CreationFeeSet { .. } => None,
            ContractEvent::CrowdfundingTokenSet { .. } => None,
            ContractEvent::SchoolRegistered { .. } => None,
            ContractEvent::PoolCreated { pool_id, .. } => Some(pool_id),
            ContractEvent::CreationFeePaid { pool_id, .. } => Some(pool_id),
            ContractEvent::Donation { pool_id, .. } => Some(pool_id),
            ContractEvent::Contribution { pool_id, .. } => Some(pool_id),
            ContractEvent::ApplicationSubmitted { pool_id, .. } => Some(pool_id),
            ContractEvent::ApplicationDecided { pool_id, .. } => Some(pool_id),
            ContractEvent::FundsClaimed { pool_id, .. } => Some(pool_id),
            ContractEvent::DonationRefunded { pool_id, .. } => Some(pool_id),
            ContractEvent::PoolClosed { pool_id } => Some(pool_id),
            ContractEvent::EmergencyWithdrawalRequested { pool_id, .. } => Some(pool_id),
            ContractEvent::EmergencyWithdrawalExecuted { pool_id, .. } => Some(pool_id),
        }
    }

    /// The pool an event concerns, published as its second topic.
    pub fn pool_topic(&self) -> (r: Option<u32>)
        ensures
            r == self.spec_pool_topic(),
    {
        match *self {
            ContractEvent::CreationFeeSet { .. } => None,
            ContractEvent::CrowdfundingTokenSet { .. } => None,
            ContractEvent::SchoolRegistered { .. } => None,
            ContractEvent::PoolCreated { pool_id, .. } => Some(pool_id),
            ContractEvent::CreationFeePaid { pool_id, .. } => Some(pool_id),
            ContractEvent::Donation { pool_id, .. } => Some(pool_id),
            ContractEvent::Contribution { pool_id, .. } => Some(pool_id),
            ContractEvent::ApplicationSubmitted { pool_id, .. } => Some(pool_id),
            ContractEvent::ApplicationDecided { pool_id, .. } => Some(pool_id),
            ContractEvent::FundsClaimed { pool_id, .. } => Some(pool_id),
            ContractEvent::DonationRefunded { pool_id, .. } => Some(pool_id),
            ContractEvent::PoolClosed { pool_id } => Some(pool_id),
            ContractEvent::EmergencyWithdrawalRequested { pool_id, .. } => Some(pool_id),
            ContractEvent::EmergencyWithdrawalExecuted { pool_id, .. } => Some(pool_id),
        }
    }
}

/// A movement of `amount` units of the token contract `token` from `from` to `to`.
#[derive(Clone, Copy, Debug, PartialEq, Eq, Structural)]
pub struct Transfer {
    pub token: Address,
    pub from: Address,
    pub to: Address,
    pub amount: i128,
}

/// What a successful call asks of the host, in order: the addresses that
/// must authorize it, the token transfers to carry out (the call fails as a
/// whole if one of them fails) and the events to publish.
#[derive(Clone, Debug)]
pub struct Effects {
    pub auths: Vec<Address>,
    pub transfers: Vec<Transfer>,
    pub events: Vec<ContractEvent>,
}

/// The effects of a call, as sequences.
pub struct EffectsView {
    pub auths: Seq<Address>,
    pub transfers: Seq<Transfer>,
    pub events: Seq<ContractEvent>,
}

impl EffectsView {
    pub open spec fn empty() -> EffectsView {
        EffectsView { auths: Seq::empty(), transfers: Seq::empty(), events: Seq::empty() }
    }

    pub open spec fn auth(self, a: Address) -> EffectsView {
        EffectsView { auths: self.auths.push(a), ..self }
    }

    pub open spec fn transfer(self, t: Transfer) -> EffectsView {
        EffectsView { transfers: self.transfers.push(t), ..self }
    }

    pub open spec fn emit(self, e: ContractEvent) -> EffectsView {
        EffectsView { events: self.events.push(e), ..self }
    }
}

impl View for Effects {
    type V = EffectsView;

    open spec fn view(&self) -> EffectsView {
        EffectsView { auths: self.auths@, transfers: self.transfers@, events: self.events@ }
    }
}

impl Effects {
    pub fn none() -> (fx: Effects)
        ensures
            fx@ == EffectsView::empty(),
    {
        Effects { auths: Vec::new(), transfers: Vec::new(), events: Vec::new() }
    }

    pub fn require_auth(&mut self, a: Address)
        ensures
            final(self)@ == old(self)@.auth(a),
    {
        self.auths.push(a);
    }

    pub fn transfer(&mut self, t: Transfer)
        ensures
            final(self)@ == old(self)@.transfer(t),
    {
        self.transfers.push(t);
    }

    pub fn emit(&mut self, e: ContractEvent)
        ensures
            final(self)@ == old(self)@.emit(e),
    {
        self.events.push(e);
    }
}

/// The value a successful call returns, with its effects.
#[derive(Clone, Debug)]
pub struct Outcome<R> {
    pub value: R,
    pub effects: Effects,
}

} // verus!
