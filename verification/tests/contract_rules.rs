// Checks of the contract's rules on concrete values, calling the library
// directly and looking at the effects each call asks of the host.

use nevo::campaigns::{CampaignError, CampaignRegistry};
use nevo::contract::Contract;
use nevo::types::{
    Address, ContractError, ContractEvent, Outcome, PoolState, Transfer, GRACE_PERIOD_SECS,
    MAX_TITLE_LENGTH, REFUND_GRACE_PERIOD_LEDGERS,
};

const CONTRACT: Address = Address(1000);
const ADMIN: Address = Address(1);
const CREATOR: Address = Address(2);
const SCHOOL: Address = Address(3);
const STUDENT: Address = Address(4);
const DONOR: Address = Address(5);
const OTHER: Address = Address(6);
const TOKEN: Address = Address(7);

fn ok<R>(r: Result<Outcome<R>, ContractError>) -> Outcome<R> {
    match r {
        Ok(o) => o,
        Err(e) => panic!("unexpected error {:?}", e),
    }
}

fn err<R>(r: Result<Outcome<R>, ContractError>) -> ContractError {
    match r {
        Ok(_) => panic!("expected an error"),
        Err(e) => e,
    }
}

fn contract_with_pool() -> (Contract, u32) {
    let mut c = Contract::new(CONTRACT);
    let id = ok(c.create_pool(CREATOR, "Pool".to_string(), "Desc".to_string(), 1_000_000, 500, 10)).value;
    (c, id)
}

fn contract_with_school_pool() -> (Contract, u32) {
    let mut c = Contract::new(CONTRACT);
    ok(c.set_admin(ADMIN));
    ok(c.register_school(SCHOOL, [1u8; 32]));
    let id = ok(c.create_pool_for_school(CREATOR, "Pool".to_string(), "Desc".to_string(), 1_000_000, SCHOOL, 500, 10)).value;
    (c, id)
}

#[test]
fn pool_ids_follow_the_count() {
    let mut c = Contract::new(CONTRACT);
    for expected in 1..=4u32 {
        let id = ok(c.create_pool(CREATOR, "P".to_string(), "D".to_string(), 10, 500, 0)).value;
        assert_eq!(id, expected);
        assert_eq!(c.get_pool_count(), expected);
        assert!(c.get_pool(expected).is_ok());
        assert_eq!(c.get_pool(expected + 1), Err(ContractError::PoolNotFound));
    }
    assert_eq!(c.get_pool(0), Err(ContractError::PoolNotFound));
}

#[test]
fn failed_creation_leaves_the_count() {
    let mut c = Contract::new(CONTRACT);
    assert_eq!(err(c.create_pool(CREATOR, "".to_string(), "D".to_string(), 10, 500, 0)), ContractError::InvalidPoolName);
    assert_eq!(c.get_pool_count(), 0);
    let id = ok(c.create_pool(CREATOR, "P".to_string(), "D".to_string(), 10, 500, 0)).value;
    assert_eq!(id, 1);
}

#[test]
fn creation_validates_title_goal_and_deadline() {
    let mut c = Contract::new(CONTRACT);
    let long_title = "x".repeat(MAX_TITLE_LENGTH as usize + 1);
    assert_eq!(err(c.create_pool(CREATOR, long_title, "D".to_string(), 10, 500, 0)), ContractError::InvalidPoolName);
    assert_eq!(err(c.create_pool(CREATOR, "P".to_string(), "D".to_string(), 10, 99, 100)), ContractError::InvalidPoolDeadline);
    assert_eq!(err(c.create_pool(CREATOR, "P".to_string(), "D".to_string(), 10, 100, 100)), ContractError::InvalidPoolTarget);
    assert_eq!(err(c.create_pool(CREATOR, "P".to_string(), "D".to_string(), 0, 500, 100)), ContractError::InvalidPoolTarget);
    let multibyte = "é".repeat(MAX_TITLE_LENGTH as usize / 2 + 1);
    assert_eq!(err(c.create_pool(CREATOR, multibyte, "D".to_string(), 10, 500, 0)), ContractError::InvalidPoolName);
}

#[test]
fn duplicate_pool_id_is_refused() {
    let (mut c, _) = contract_with_pool();
    c.pool_count = 0;
    assert_eq!(err(c.create_pool(CREATOR, "P".to_string(), "D".to_string(), 10, 500, 0)), ContractError::PoolAlreadyExists);
    assert_eq!(ContractError::PoolAlreadyExists.code(), Some(16));
}

#[test]
fn school_pool_requires_registered_school() {
    let mut c = Contract::new(CONTRACT);
    assert_eq!(
        err(c.create_pool_for_school(CREATOR, "P".to_string(), "D".to_string(), 10, SCHOOL, 500, 0)),
        ContractError::SchoolNotRegistered
    );
    assert_eq!(c.get_school_metadata(SCHOOL), Err(ContractError::SchoolNotRegistered));
    assert_eq!(err(c.register_school(SCHOOL, [0u8; 32])), ContractError::AdminNotSet);
}

#[test]
fn create_pool_with_fee_effects() {
    let mut c = Contract::new(CONTRACT);
    ok(c.set_admin(ADMIN));
    ok(c.set_creation_fee(ADMIN, 250));
    let o = ok(c.create_pool_with_fee(CREATOR, "P".to_string(), "D".to_string(), 10, 500, TOKEN, 0));
    assert_eq!(o.value, 1);
    assert_eq!(o.effects.auths, vec![CREATOR]);
    assert_eq!(o.effects.transfers, vec![Transfer { token: TOKEN, from: CREATOR, to: CONTRACT, amount: 250 }]);
    assert_eq!(
        o.effects.events,
        vec![
            ContractEvent::PoolCreated { pool_id: 1, creator: CREATOR, goal: 10 },
            ContractEvent::CreationFeePaid { pool_id: 1, creator: CREATOR, token: TOKEN, fee: 250 },
        ]
    );
}

#[test]
fn native_donation_event_and_reads() {
    let (mut c, id) = contract_with_pool();
    let o = ok(c.donate(id, DONOR, 300, 42));
    assert!(o.effects.auths.is_empty());
    assert!(o.effects.transfers.is_empty());
    assert_eq!(o.effects.events, vec![ContractEvent::Donation { pool_id: id, donor: DONOR, amount: 300, new_collected: 300 }]);
    assert_eq!(c.get_last_donation_at(id), Ok(42));
    assert_eq!(err(c.donate(id, DONOR, 0, 43)), ContractError::InvalidAmount);
    assert_eq!(err(c.donate(99, DONOR, 1, 43)), ContractError::PoolNotFound);
}

#[test]
fn total_raised_is_sum_of_contributions() {
    let (mut c, id) = contract_with_pool();
    let donors = [Address(50), Address(51), Address(52), Address(50), Address(53)];
    let amounts = [10u128, 20, 30, 40, 50];
    for (d, a) in donors.iter().zip(amounts.iter()) {
        ok(c.donate(id, *d, *a, 1));
    }
    let mut sum = 0u128;
    for d in [Address(50), Address(51), Address(52), Address(53)] {
        sum += c.get_contribution(id, d).unwrap();
    }
    assert_eq!(c.get_total_raised(id), Ok(sum));
    assert_eq!(sum, 150);
    assert_eq!(c.get_donor_count(id), Ok(4));
}

#[test]
fn donation_overflow_is_refused() {
    let (mut c, id) = contract_with_pool();
    ok(c.donate(id, DONOR, u128::MAX, 1));
    assert_eq!(err(c.donate(id, OTHER, 1, 2)), ContractError::ArithmeticOverflow);
    assert_eq!(c.get_total_raised(id), Ok(u128::MAX));
    assert_eq!(c.get_donor_count(id), Ok(1));
}

#[test]
fn token_donation_moves_tokens_to_contract() {
    let (mut c, id) = contract_with_pool();
    let o = ok(c.donate_with_token(id, DONOR, TOKEN, 700, 5));
    assert_eq!(o.effects.auths, vec![DONOR]);
    assert_eq!(o.effects.transfers, vec![Transfer { token: TOKEN, from: DONOR, to: CONTRACT, amount: 700 }]);
    assert_eq!(c.get_contribution(id, DONOR), Ok(700));
}

#[test]
fn refund_undoes_donation() {
    let (mut c, id) = contract_with_pool();
    ok(c.set_pool_token(id, TOKEN));
    ok(c.donate_with_token(id, DONOR, TOKEN, 700, 5));
    ok(c.donate(id, OTHER, 100, 6));
    assert_eq!(err(c.refund_donation(id, DONOR, TOKEN, 1)), ContractError::RefundNotAvailable);
    ok(c.set_pool_deadline(id, 10, 1));
    assert_eq!(err(c.refund_donation(id, DONOR, TOKEN, 10 + REFUND_GRACE_PERIOD_LEDGERS)), ContractError::RefundNotAvailable);
    let seq = 11 + REFUND_GRACE_PERIOD_LEDGERS;
    assert_eq!(err(c.refund_donation(id, DONOR, OTHER, seq)), ContractError::TokenTransferFailed);
    assert_eq!(err(c.refund_donation(id, Address(77), TOKEN, seq)), ContractError::NothingToRefund);
    let o = ok(c.refund_donation(id, DONOR, TOKEN, seq));
    assert_eq!(o.effects.transfers, vec![Transfer { token: TOKEN, from: CONTRACT, to: DONOR, amount: 700 }]);
    assert_eq!(c.get_contribution(id, DONOR), Ok(0));
    assert_eq!(c.get_total_raised(id), Ok(100));
    assert_eq!(err(c.refund_donation(id, DONOR, TOKEN, seq)), ContractError::NothingToRefund);
}

#[test]
fn refund_cannot_take_back_claimed_funds() {
    let (mut c, id) = contract_with_school_pool();
    ok(c.donate(id, DONOR, 1_000, 1));
    ok(c.apply_to_pool(id, STUDENT, "app".to_string()));
    ok(c.approve_application(id, SCHOOL, STUDENT, true));
    ok(c.claim_funds(STUDENT, id, 600, TOKEN));
    ok(c.set_pool_deadline(id, 10, 1));
    let seq = 11 + REFUND_GRACE_PERIOD_LEDGERS;
    assert_eq!(err(c.refund_donation(id, DONOR, TOKEN, seq)), ContractError::InsufficientPoolBalance);
    assert_eq!(c.get_total_raised(id), Ok(1_000));
}

#[test]
fn claim_pays_amount_less_protocol_fee() {
    let (mut c, id) = contract_with_school_pool();
    ok(c.donate(id, DONOR, 100_000, 1));
    ok(c.apply_to_pool(id, STUDENT, "app".to_string()));
    ok(c.approve_application(id, SCHOOL, STUDENT, true));
    let o = ok(c.claim_funds(STUDENT, id, 12_345, TOKEN));
    assert_eq!(o.effects.auths, vec![STUDENT]);
    assert_eq!(o.effects.transfers, vec![Transfer { token: TOKEN, from: CONTRACT, to: STUDENT, amount: 12_222 }]);
    assert_eq!(o.effects.events, vec![ContractEvent::FundsClaimed { pool_id: id, student: STUDENT, amount: 12_345, fee: 123 }]);
    let o = ok(c.claim_funds(STUDENT, id, 99, TOKEN));
    assert_eq!(o.effects.transfers[0].amount, 99);
    assert_eq!(c.get_claimed_amount(id, STUDENT), 12_444);
    assert_eq!(c.get_total_raised(id), Ok(100_000));
}

#[test]
fn claims_need_an_approved_application() {
    let (mut c, id) = contract_with_school_pool();
    ok(c.donate(id, DONOR, 1_000, 1));
    assert_eq!(err(c.claim_funds(STUDENT, id, 10, TOKEN)), ContractError::ApplicationNotFound);
    ok(c.apply_to_pool(id, STUDENT, "app".to_string()));
    assert_eq!(err(c.apply_to_pool(id, STUDENT, "again".to_string())), ContractError::ApplicationAlreadyExists);
    assert_eq!(err(c.claim_funds(STUDENT, id, 10, TOKEN)), ContractError::ApplicationNotApproved);
    assert_eq!(err(c.approve_application(id, OTHER, STUDENT, true)), ContractError::UnauthorizedSchool);
    assert_eq!(err(c.approve_application(id, SCHOOL, OTHER, true)), ContractError::ApplicationNotFound);
    ok(c.approve_application(id, SCHOOL, STUDENT, false));
    assert_eq!(err(c.claim_funds(STUDENT, id, 10, TOKEN)), ContractError::ApplicationNotApproved);
    ok(c.approve_application(id, SCHOOL, STUDENT, true));
    assert_eq!(err(c.claim_funds(STUDENT, id, 0, TOKEN)), ContractError::InvalidAmount);
    assert_eq!(err(c.claim_funds(STUDENT, id, 1_001, TOKEN)), ContractError::ClaimExceedsCollected);
    ok(c.set_pool_token(id, TOKEN));
    assert_eq!(err(c.claim_funds(STUDENT, id, 10, OTHER)), ContractError::TokenTransferFailed);
    ok(c.claim_funds(STUDENT, id, 1_000, TOKEN));
    assert_eq!(err(c.claim_funds(STUDENT, id, 1, TOKEN)), ContractError::ClaimExceedsCollected);
}

#[test]
fn decision_needs_the_pool_school() {
    let (mut c, id) = contract_with_pool();
    ok(c.apply_to_pool(id, STUDENT, "app".to_string()));
    assert_eq!(err(c.approve_application(id, SCHOOL, STUDENT, true)), ContractError::PoolSchoolNotSet);
}

#[test]
fn applications_count_up() {
    let (mut c, id) = contract_with_pool();
    let o = ok(c.apply_to_pool(id, Address(60), "a".to_string()));
    assert_eq!(o.effects.events, vec![ContractEvent::ApplicationSubmitted { pool_id: id, student: Address(60), app_count: 1, private: false }]);
    let o = ok(c.apply_to_pool(id, Address(61), "b".to_string()));
    assert_eq!(o.effects.events, vec![ContractEvent::ApplicationSubmitted { pool_id: id, student: Address(61), app_count: 2, private: false }]);
}

#[test]
fn closed_pool_stays_closed() {
    let (mut c, id) = contract_with_pool();
    ok(c.set_pool_state(id, PoolState::Cancelled));
    let o = ok(c.close_pool(id));
    assert_eq!(o.effects.auths, vec![CREATOR]);
    assert_eq!(o.effects.events, vec![ContractEvent::PoolClosed { pool_id: id }]);
    assert_eq!(err(c.set_pool_state(id, PoolState::Active)), ContractError::PoolIsClosed);
    assert_eq!(err(c.apply_to_pool(id, STUDENT, "app".to_string())), ContractError::PoolIsClosed);
    assert_eq!(err(c.donate(id, DONOR, 5, 1)), ContractError::PoolIsClosed);
    assert_eq!(err(c.close_pool(id)), ContractError::PoolAlreadyClosed);
    assert_eq!(c.is_closed(id), Ok(true));
}

#[test]
fn pool_identity_is_fixed() {
    let (mut c, id) = contract_with_school_pool();
    let before = c.get_pool(id).unwrap();
    ok(c.save_pool(id, "New description".to_string(), "https://x".to_string(), "h".to_string()));
    ok(c.set_pool_token(id, TOKEN));
    ok(c.donate(id, DONOR, 5, 1));
    let after = c.get_pool(id).unwrap();
    assert_eq!((before.0, before.1, before.2, before.5), (after.0, after.1, after.2, after.5));
    assert_eq!(c.get_pool_metadata(id), ("Pool".to_string(), "Desc".to_string()));
    assert_eq!(c.get_pool_school(id), Ok(SCHOOL));
    assert_eq!(c.get_saved_pool_metadata(id), Ok(("New description".to_string(), "https://x".to_string(), "h".to_string())));
}

#[test]
fn sponsor_settings_need_sponsor_and_valid_values() {
    let (mut c, id) = contract_with_pool();
    assert_eq!(err(c.set_pool_token(id, CONTRACT)), ContractError::InvalidTokenAddress);
    assert_eq!(err(c.set_pool_deadline(id, 5, 5)), ContractError::DeadlineNotInFuture);
    let o = ok(c.set_pool_deadline(id, 6, 5));
    assert_eq!(o.effects.auths, vec![CREATOR]);
    assert_eq!(c.get_pool_deadline(id), Ok(6));
    assert_eq!(err(c.set_pool_state(77, PoolState::Paused)), ContractError::PoolNotFound);
}

#[test]
fn admin_rules() {
    let mut c = Contract::new(CONTRACT);
    assert_eq!(err(c.set_creation_fee(ADMIN, 1)), ContractError::AdminNotSet);
    assert_eq!(c.get_crowdfunding_token(), Err(ContractError::CrowdfundingTokenNotSet));
    ok(c.set_admin(ADMIN));
    let o = ok(c.set_admin(OTHER));
    assert_eq!(o.effects.auths, vec![OTHER]);
    assert_eq!(err(c.set_creation_fee(ADMIN, 1)), ContractError::UnauthorizedAdmin);
    assert_eq!(err(c.set_creation_fee(OTHER, -1)), ContractError::InvalidFee);
    let o = ok(c.register_school(SCHOOL, [4u8; 32]));
    assert_eq!(o.effects.auths, vec![OTHER]);
    assert_eq!(c.get_school_metadata(SCHOOL), Ok([4u8; 32]));
}

#[test]
fn emergency_withdrawal_waits_for_grace_period() {
    let (mut c, id) = contract_with_pool();
    assert_eq!(err(c.request_emergency_withdraw(ADMIN, id, TOKEN, 10, 100)), ContractError::AdminNotSet);
    ok(c.set_admin(ADMIN));
    assert_eq!(err(c.request_emergency_withdraw(OTHER, id, TOKEN, 10, 100)), ContractError::UnauthorizedAdmin);
    assert_eq!(err(c.request_emergency_withdraw(ADMIN, 99, TOKEN, 10, 100)), ContractError::PoolNotFound);
    assert_eq!(err(c.request_emergency_withdraw(ADMIN, id, TOKEN, 0, 100)), ContractError::InvalidAmount);
    assert_eq!(err(c.execute_emergency_withdraw(id, 100)), ContractError::EmergencyWithdrawalNotFound);
    ok(c.request_emergency_withdraw(ADMIN, id, TOKEN, 10, 100));
    assert!(c.get_emergency_withdrawal(id).is_some());
    assert_eq!(err(c.execute_emergency_withdraw(id, 100 + GRACE_PERIOD_SECS - 1)), ContractError::GracePeriodNotElapsed);
    let o = ok(c.execute_emergency_withdraw(id, 100 + GRACE_PERIOD_SECS));
    assert_eq!(o.effects.transfers, vec![Transfer { token: TOKEN, from: CONTRACT, to: ADMIN, amount: 10 }]);
    assert!(c.get_emergency_withdrawal(id).is_none());
}

#[test]
fn error_codes_and_messages() {
    assert_eq!(ContractError::PoolNotFound.code(), Some(1));
    assert_eq!(ContractError::InvalidPoolState.code(), Some(2));
    assert_eq!(ContractError::UnauthorizedAdmin.code(), Some(3));
    assert_eq!(ContractError::PoolIsClosed.code(), Some(4));
    assert_eq!(ContractError::PoolNotDisbursedOrRefunded.code(), Some(8));
    assert_eq!(ContractError::AdminNotSet.code(), Some(9));
    assert_eq!(ContractError::InvalidFee.code(), Some(11));
    assert_eq!(ContractError::PoolAlreadyClosed.code(), Some(15));
    assert_eq!(ContractError::InvalidPoolName.code(), Some(16));
    assert_eq!(ContractError::InvalidPoolTarget.code(), Some(17));
    assert_eq!(ContractError::InvalidPoolDeadline.code(), Some(18));
    assert_eq!(ContractError::InvalidAmount.code(), None);
    assert_eq!(ContractError::InvalidAmount.message(), "InvalidAmount");
    assert_eq!(ContractError::PoolSchoolNotSet.message(), "Pool school not set");
    assert_eq!(ContractError::DeadlineNotInFuture.message(), "Deadline must be in the future");
    assert_eq!(ContractError::UrlTooLong.message(), "URL exceeds maximum length");
}

#[test]
fn campaign_registry_rules() {
    let mut r = CampaignRegistry::new();
    assert_eq!(r.get_campaign_count(), Err(CampaignError::NotInitialized));
    assert!(matches!(r.create_campaign(ADMIN, "x".to_string()), Err(CampaignError::NotInitialized)));
    assert!(r.initialize(ADMIN).is_ok());
    assert!(matches!(r.initialize(OTHER), Err(CampaignError::AlreadyInitialized)));
    assert_eq!(r.create_campaign(CREATOR, "first".to_string()).unwrap().value, 1);
    assert_eq!(r.create_campaign(CREATOR, "second".to_string()).unwrap().value, 2);
    assert_eq!(r.get_campaign_count(), Ok(2));
    assert_eq!(r.list_campaigns(), vec!["first".to_string(), "second".to_string()]);
    let c = r.get_campaign(2).unwrap();
    assert_eq!((c.id, c.name.as_str(), c.creator), (2, "second", CREATOR));
    assert!(matches!(r.get_campaign(0), Err(CampaignError::CampaignNotFound)));
    assert!(matches!(r.get_campaign(3), Err(CampaignError::CampaignNotFound)));
}

#[test]
fn refund_without_pool_token_uses_donated_token() {
    let (mut c, id) = contract_with_pool();
    let token_b = Address(8);
    ok(c.donate_with_token(id, DONOR, TOKEN, 400, 5));
    // A second donation in another token is refused while the first is held.
    assert_eq!(err(c.donate_with_token(id, DONOR, token_b, 100, 6)), ContractError::TokenTransferFailed);
    ok(c.donate_with_token(id, DONOR, TOKEN, 100, 6));
    ok(c.donate_with_token(id, OTHER, token_b, 300, 7));
    ok(c.set_pool_deadline(id, 10, 1));
    let seq = 11 + REFUND_GRACE_PERIOD_LEDGERS;
    assert_eq!(err(c.refund_donation(id, DONOR, token_b, seq)), ContractError::TokenTransferFailed);
    assert_eq!(c.get_contribution(id, DONOR), Ok(500));
    let o = ok(c.refund_donation(id, DONOR, TOKEN, seq));
    assert_eq!(o.effects.transfers, vec![Transfer { token: TOKEN, from: CONTRACT, to: DONOR, amount: 500 }]);
    let o = ok(c.refund_donation(id, OTHER, token_b, seq));
    assert_eq!(o.effects.transfers, vec![Transfer { token: token_b, from: CONTRACT, to: OTHER, amount: 300 }]);
    assert_eq!(c.get_total_raised(id), Ok(0));
}

#[test]
fn after_refund_donor_may_donate_in_another_token() {
    let (mut c, id) = contract_with_pool();
    let token_b = Address(8);
    ok(c.donate_with_token(id, DONOR, TOKEN, 400, 5));
    ok(c.set_pool_deadline(id, 10, 1));
    let seq = 11 + REFUND_GRACE_PERIOD_LEDGERS;
    ok(c.refund_donation(id, DONOR, TOKEN, seq));
    ok(c.donate_with_token(id, DONOR, token_b, 50, 6));
    assert_eq!(err(c.refund_donation(id, DONOR, TOKEN, seq)), ContractError::TokenTransferFailed);
    let o = ok(c.refund_donation(id, DONOR, token_b, seq));
    assert_eq!(o.effects.transfers, vec![Transfer { token: token_b, from: CONTRACT, to: DONOR, amount: 50 }]);
}

#[test]
fn new_pool_leaves_existing_pools() {
    let (mut c, first) = contract_with_pool();
    ok(c.donate(first, DONOR, 300, 5));
    ok(c.donate(first, OTHER, 200, 6));
    let second = ok(c.create_pool(CREATOR, "Next".to_string(), "D".to_string(), 10, 500, 7)).value;
    assert_eq!(second, first + 1);
    assert_eq!(c.get_donor_count(first), Ok(2));
    assert_eq!(c.get_total_raised(first), Ok(500));
    assert_eq!(c.get_contribution(first, DONOR), Ok(300));
    assert_eq!(c.get_contribution(first, OTHER), Ok(200));
    assert_eq!(c.get_donor_count(second), Ok(0));
    assert_eq!(c.get_total_raised(second), Ok(0));
}

#[test]
fn event_topics() {
    let e = ContractEvent::ApplicationSubmitted { pool_id: 3, student: STUDENT, app_count: 1, private: false };
    assert_eq!(e.name(), "app_sub");
    assert_eq!(e.pool_topic(), Some(3));
    let e = ContractEvent::Contribution { pool_id: 4, donor: DONOR, amount: 1, new_collected: 1, private: true };
    assert_eq!(e.name(), "contrib");
    assert_eq!(e.pool_topic(), Some(4));
    let e = ContractEvent::CreationFeeSet { fee: 5 };
    assert_eq!(e.name(), "fee_set");
    assert_eq!(e.pool_topic(), None);
}
