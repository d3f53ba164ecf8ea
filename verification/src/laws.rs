//! Properties of the contract that span calls: what every call keeps, what a
//! read gives back after a write, and what stays fixed.

use vstd::prelude::*;

use crate::model::{EmergencyWithdrawal, NevoView, Step};
use crate::pool::{PoolView, SavedMetadataView};
use crate::types::{
    Address, ApplicationStatus, ContractError, ContractEvent, PoolState, Transfer,
    GRACE_PERIOD_SECS, MAX_DESCRIPTION_LENGTH, MAX_IMAGE_HASH_LENGTH, MAX_TITLE_LENGTH,
    MAX_URL_LENGTH, REFUND_GRACE_PERIOD_LEDGERS,
};

verus! {

/// A call that can change the contract's state, with its arguments (and
/// the ledger time or sequence that the host supplies).
pub enum Call {
    SetAdmin { new_admin: Address },
    SetCreationFee { caller: Address, fee: i128 },
    SetCrowdfundingToken { caller: Address, token: Address },
    RegisterSchool { school: Address, metadata_hash: [u8; 32] },
    CreatePool {
        creator: Address,
        title: Seq<char>,
        description: Seq<char>,
        goal: u128,
        deadline: u64,
        now: u64,
    },
    CreatePoolForSchool {
        creator: Address,
        title: Seq<char>,
        description: Seq<char>,
        goal: u128,
        school: Address,
        deadline: u64,
        now: u64,
    },
    CreatePoolWithFee {
        creator: Address,
        title: Seq<char>,
        description: Seq<char>,
        goal: u128,
        deadline: u64,
        fee_token: Address,
        now: u64,
    },
    SetPoolState { pool_id: u32, state: PoolState },
    ClosePool { pool_id: u32 },
    SetPoolToken { pool_id: u32, token: Address },
    SetPoolDeadline { pool_id: u32, deadline: u32, sequence: u32 },
    SavePool { pool_id: u32, description: Seq<char>, url: Seq<char>, image_hash: Seq<char> },
    Donate { pool_id: u32, donor: Address, amount: u128, now: u64 },
    DonateWithToken { pool_id: u32, donor: Address, token: Address, amount: i128, now: u64 },
    RefundDonation { pool_id: u32, donor: Address, token: Address, sequence: u32 },
    ApplyToPool { pool_id: u32, student: Address, data: Seq<char> },
    ApproveApplication { pool_id: u32, school: Address, student: Address, approved: bool },
    ClaimFunds { student: Address, pool_id: u32, amount: i128, token: Address },
    RequestEmergencyWithdraw { caller: Address, pool_id: u32, token: Address, amount: i128, now: u64 },
    ExecuteEmergencyWithdraw { pool_id: u32, now: u64 },
}

/// The state a successful step leads to.
pub open spec fn state_of<R>(r: Result<Step<R>, ContractError>) -> Result<NevoView, ContractError> {
    match r {
        Ok(s) => Ok(s.state),
        Err(e) => Err(e),
    }
}

/// The sum of the values of a finite map of amounts.
pub open spec fn total_of(m: Map<u64, u128>) -> int
    decreases m.dom().len(),
{
    if m.dom().finite() && m.dom().len() > 0 {
        let k = m.dom().choose();
        m[k] + total_of(m.remove(k))
    } else {
        0
    }
}

/// The sum can be taken starting from any key.
pub proof fn lemma_total_of_remove(m: Map<u64, u128>, k: u64)
    requires
        m.dom().finite(),
        m.contains_key(k),
    ensures
        total_of(m) == m[k] + total_of(m.remove(k)),
    decreases m.dom().len(),
{
    let c = m.dom().choose();
    assert(m.dom().contains(c));
    if c != k {
        assert(m.remove(c).dom() =~= m.dom().remove(c));
        assert(m.remove(k).dom() =~= m.dom().remove(k));
        lemma_total_of_remove(m.remove(c), k);
        lemma_total_of_remove(m.remove(k), c);
        assert(m.remove(c).remove(k) =~= m.remove(k).remove(c));
    }
}

/// Setting one key of the map changes the sum by the change of that key's value.
pub proof fn lemma_total_of_insert(m: Map<u64, u128>, k: u64, v: u128)
    requires
        m.dom().finite(),
    ensures
        total_of(m.insert(k, v)) == total_of(m) - (if m.contains_key(k) {
            m[k] as int
        } else {
            0
        }) + v,
{
    let n = m.insert(k, v);
    assert(n.dom() =~= m.dom().insert(k));
    lemma_total_of_remove(n, k);
    if m.contains_key(k) {
        lemma_total_of_remove(m, k);
        assert(n.remove(k) =~= m.remove(k));
    } else {
        assert(n.remove(k) =~= m);
    }
}

impl NevoView {
    /// The state after `call`, or the error it fails with.
    pub open spec fn after(self, call: Call) -> Result<NevoView, ContractError> {
        match call {
            Call::SetAdmin { new_admin } => state_of(self.set_admin(new_admin)),
            Call::SetCreationFee { caller, fee } => state_of(self.set_creation_fee(caller, fee)),
            Call::SetCrowdfundingToken { caller, token } => state_of(
                self.set_crowdfunding_token(caller, token),
            ),
            Call::RegisterSchool { school, metadata_hash } => state_of(
                self.register_school(school, metadata_hash),
            ),
            Call::CreatePool { creator, title, description, goal, deadline, now } => state_of(
                self.create_pool(creator, title, description, goal, deadline, now),
            ),
            Call::CreatePoolForSchool { creator, title, description, goal, school, deadline, now } =>
                state_of(
                self.create_pool_for_school(creator, title, description, goal, school, deadline, now),
            ),
            Call::CreatePoolWithFee {
                creator,
                title,
                description,
                goal,
                deadline,
                fee_token,
                now,
            } => state_of(
                self.create_pool_with_fee(creator, title, description, goal, deadline, fee_token, now),
            ),
            Call::SetPoolState { pool_id, state } => state_of(self.set_pool_state(pool_id, state)),
            Call::ClosePool { pool_id } => state_of(self.close_pool(pool_id)),
            Call::SetPoolToken { pool_id, token } => state_of(self.set_pool_token(pool_id, token)),
            Call::SetPoolDeadline { pool_id, deadline, sequence } => state_of(
                self.set_pool_deadline(pool_id, deadline, sequence),
            ),
            Call::SavePool { pool_id, description, url, image_hash } => state_of(
                self.save_pool(pool_id, description, url, image_hash),
            ),
            Call::Donate { pool_id, donor, amount, now } => state_of(
                self.donate(pool_id, donor, amount, now),
            ),
            Call::DonateWithToken { pool_id, donor, token, amount, now } => state_of(
                self.donate_with_token(pool_id, donor, token, amount, now),
            ),
            Call::RefundDonation { pool_id, donor, token, sequence } => state_of(
                self.refund_donation(pool_id, donor, token, sequence),
            ),
            Call::ApplyToPool { pool_id, student, data } => state_of(
                self.apply_to_pool(pool_id, student, data),
            ),
            Call::ApproveApplication { pool_id, school, student, approved } => state_of(
                self.approve_application(pool_id, school, student, approved),
            ),
            Call::ClaimFunds { student, pool_id, amount, token } => state_of(
                self.claim_funds(student, pool_id, amount, token),
            ),
            Call::RequestEmergencyWithdraw { caller, pool_id, token, amount, now } => state_of(
                self.request_emergency_withdraw(caller, pool_id, token, amount, now),
            ),
            Call::ExecuteEmergencyWithdraw { pool_id, now } => state_of(
                self.execute_emergency_withdraw(pool_id, now),
            ),
        }
    }

    /// The state after `call`; a failed call leaves the state as it was.
    pub open spec fn next(self, call: Call) -> NevoView {
        match self.after(call) {
            Ok(w) => w,
            Err(_) => self,
        }
    }

    /// The state after the calls in `calls`, one after the other.
    pub open spec fn run(self, calls: Seq<Call>) -> NevoView
        decreases calls.len(),
    {
        if calls.len() == 0 {
            self
        } else {
            self.next(calls[0]).run(calls.drop_first())
        }
    }

    /// What holds of every pool in every state the contract can reach.
    pub open spec fn pool_inv(self, p: PoolView) -> bool {
        &&& p.contributions.dom().finite()
        &&& p.donor_count == p.contributions.dom().len()
        &&& p.collected == total_of(p.contributions)
        &&& p.applications.dom().finite()
        &&& p.app_count == p.applications.dom().len()
        &&& p.total_claimed <= p.collected
        &&& p.closed ==> (p.state == PoolState::Disbursed || p.state == PoolState::Cancelled)
        &&& p.school matches Some(s) ==> self.schools.contains_key(s.0)
    }

    /// What holds in every state the contract can reach: pools carry exactly
    /// the ids from 1 to the pool count, and each pool keeps [`NevoView::pool_inv`].
    pub open spec fn inv(self) -> bool {
        &&& forall|id: u32| #[trigger] self.pools.contains_key(id) <==> 1 <= id <= self.pool_count
        &&& forall|id: u32| #[trigger] self.pools.contains_key(id) ==> self.pool_inv(self.pools[id])
        &&& forall|id: u32|
            #[trigger] self.emergency_withdrawals.contains_key(id) ==> self.pools.contains_key(id)
    }
}

/// A freshly deployed contract satisfies the invariant.
pub proof fn lemma_initial_inv(address: Address)
    ensures
        NevoView::initial(address).inv(),
{
}

/// Storing back a changed pool that still satisfies the pool invariant keeps the invariant.
proof fn lemma_with_pool_keeps_inv(v: NevoView, id: u32, q: PoolView)
    requires
        v.inv(),
        v.pools.contains_key(id),
        v.pool_inv(q),
    ensures
        v.with_pool(id, q).inv(),
{
    let w = v.with_pool(id, q);
    assert(w.pools.dom() =~= v.pools.dom());
    assert forall|i: u32| #[trigger] w.pools.contains_key(i) implies w.pool_inv(w.pools[i]) by {
        if i != id {
            assert(v.pools.contains_key(i));
        }
    }
}

/// Opening a pool under a fresh id keeps the invariant.
proof fn lemma_open_pool_keeps_inv(
    v: NevoView,
    creator: Address,
    title: Seq<char>,
    description: Seq<char>,
    goal: u128,
    deadline: u64,
    school: Option<Address>,
)
    requires
        v.inv(),
        v.pool_count < u32::MAX,
        school matches Some(s) ==> v.schools.contains_key(s.0),
    ensures
        v.open_pool(creator, title, description, goal, deadline, school).inv(),
{
    let w = v.open_pool(creator, title, description, goal, deadline, school);
    let q = PoolView::fresh(creator, title, description, goal, deadline, school);
    assert(q.contributions.dom() =~= Set::<u64>::empty());
    assert(q.applications.dom() =~= Set::<u64>::empty());
    assert(total_of(q.contributions) == 0);
    assert(v.pool_inv(q));
    assert forall|i: u32| #[trigger] w.pools.contains_key(i) implies w.pool_inv(w.pools[i]) by {
        if i != v.next_pool_id() {
            assert(v.pools.contains_key(i));
        }
    }
}

/// Registering a school keeps the invariant.
proof fn lemma_register_school_keeps_inv(v: NevoView, school: Address, metadata_hash: [u8; 32])
    requires
        v.inv(),
    ensures
        state_of(v.register_school(school, metadata_hash)) matches Ok(w) ==> w.inv(),
{
    if let Ok(step) = v.register_school(school, metadata_hash) {
        let w = step.state;
        assert forall|i: u32| #[trigger] w.pools.contains_key(i) implies w.pool_inv(w.pools[i]) by {
            assert(v.pool_inv(v.pools[i]));
        }
    }
}

/// A donation keeps the pool invariant.
proof fn lemma_donation_keeps_pool_inv(v: NevoView, p: PoolView, donor: Address, amount: u128, now: u64)
    requires
        v.pool_inv(p),
        p.donation_fits(donor, amount),
    ensures
        v.pool_inv(p.record_donation(donor, amount, now)),
{
    let q = p.record_donation(donor, amount, now);
    lemma_total_of_insert(p.contributions, donor.0, (p.contribution_of(donor) + amount) as u128);
    if p.is_new_donor(donor) {
        assert(q.contributions.dom() =~= p.contributions.dom().insert(donor.0));
    } else {
        assert(q.contributions.dom() =~= p.contributions.dom());
    }
}

/// Donations of both kinds keep the invariant.
proof fn lemma_donations_keep_inv(v: NevoView, call: Call)
    requires
        v.inv(),
        call is Donate || call is DonateWithToken,
    ensures
        v.after(call) matches Ok(w) ==> w.inv(),
{
    match call {
        Call::Donate { pool_id, donor, amount, now } => {
            if v.after(call) is Ok {
                let p = v.pools[pool_id];
                lemma_donation_keeps_pool_inv(v, p, donor, amount, now);
                lemma_with_pool_keeps_inv(v, pool_id, p.record_donation(donor, amount, now));
            }
        },
        Call::DonateWithToken { pool_id, donor, token, amount, now } => {
            if v.after(call) is Ok {
                let p = v.pools[pool_id];
                lemma_donation_keeps_pool_inv(v, p, donor, amount as u128, now);
                lemma_with_pool_keeps_inv(
                    v,
                    pool_id,
                    p.record_token_donation(donor, token, amount as u128, now),
                );
            }
        },
        _ => {},
    }
}

/// Refunds keep the invariant.
proof fn lemma_refund_keeps_inv(v: NevoView, pool_id: u32, donor: Address, token: Address, sequence: u32)
    requires
        v.inv(),
    ensures
        state_of(v.refund_donation(pool_id, donor, token, sequence)) matches Ok(w) ==> w.inv(),
{
    if let Ok(step) = v.refund_donation(pool_id, donor, token, sequence) {
        let p = v.pools[pool_id];
        let q = step.state.pools[pool_id];
        assert(p.contributions.contains_key(donor.0));
        assert(q.contributions.dom() =~= p.contributions.dom());
        lemma_total_of_insert(p.contributions, donor.0, 0);
        assert(step.state == v.with_pool(pool_id, q));
        lemma_with_pool_keeps_inv(v, pool_id, q);
    }
}

/// Applications and the school's decisions on them keep the invariant.
proof fn lemma_applications_keep_inv(v: NevoView, call: Call)
    requires
        v.inv(),
        call is ApplyToPool || call is ApproveApplication,
    ensures
        v.after(call) matches Ok(w) ==> w.inv(),
{
    match call {
        Call::ApplyToPool { pool_id, student, data } => {
            if let Ok(step) = v.apply_to_pool(pool_id, student, data) {
                let p = v.pools[pool_id];
                let q = step.state.pools[pool_id];
                assert(q.applications.dom() =~= p.applications.dom().insert(student.0));
                assert(step.state == v.with_pool(pool_id, q));
                lemma_with_pool_keeps_inv(v, pool_id, q);
            }
        },
        Call::ApproveApplication { pool_id, school, student, approved } => {
            if let Ok(step) = v.approve_application(pool_id, school, student, approved) {
                let p = v.pools[pool_id];
                let q = step.state.pools[pool_id];
                assert(q.applications.dom() =~= p.applications.dom());
                assert(step.state == v.with_pool(pool_id, q));
                lemma_with_pool_keeps_inv(v, pool_id, q);
            }
        },
        _ => {},
    }
}

/// Changes that touch one pool's sponsor-set fields keep the invariant.
proof fn lemma_pool_settings_keep_inv(v: NevoView, call: Call)
    requires
        v.inv(),
        call is SetPoolState || call is ClosePool || call is SetPoolToken || call is SetPoolDeadline
            || call is SavePool || call is ClaimFunds,
    ensures
        v.after(call) matches Ok(w) ==> w.inv(),
{
    match call {
        Call::SetPoolState { pool_id, state } => {
            if let Ok(step) = v.set_pool_state(pool_id, state) {
                lemma_with_pool_keeps_inv(v, pool_id, step.state.pools[pool_id]);
            }
        },
        Call::ClosePool { pool_id } => {
            if let Ok(step) = v.close_pool(pool_id) {
                lemma_with_pool_keeps_inv(v, pool_id, step.state.pools[pool_id]);
            }
        },
        Call::SetPoolToken { pool_id, token } => {
            if let Ok(step) = v.set_pool_token(pool_id, token) {
                lemma_with_pool_keeps_inv(v, pool_id, step.state.pools[pool_id]);
            }
        },
        Call::SetPoolDeadline { pool_id, deadline, sequence } => {
            if let Ok(step) = v.set_pool_deadline(pool_id, deadline, sequence) {
                lemma_with_pool_keeps_inv(v, pool_id, step.state.pools[pool_id]);
            }
        },
        Call::SavePool { pool_id, description, url, image_hash } => {
            if let Ok(step) = v.save_pool(pool_id, description, url, image_hash) {
                lemma_with_pool_keeps_inv(v, pool_id, step.state.pools[pool_id]);
            }
        },
        Call::ClaimFunds { student, pool_id, amount, token } => {
            if let Ok(step) = v.claim_funds(student, pool_id, amount, token) {
                let p = v.pools[pool_id];
                let q = step.state.pools[pool_id];
                assert(q.contributions == p.contributions);
                assert(q.applications == p.applications);
                assert(step.state == v.with_pool(pool_id, q));
                lemma_with_pool_keeps_inv(v, pool_id, q);
            }
        },
        _ => {},
    }
}

/// Every call keeps the invariant: what holds after deployment holds after
/// any call, successful or not.
pub proof fn lemma_call_keeps_inv(v: NevoView, call: Call)
    requires
        v.inv(),
    ensures
        v.next(call).inv(),
{
    match call {
        Call::SetAdmin { .. } => {},
        Call::SetCreationFee { .. } => {},
        Call::SetCrowdfundingToken { .. } => {},
        Call::RegisterSchool { school, metadata_hash } => {
            lemma_register_school_keeps_inv(v, school, metadata_hash);
        },
        Call::CreatePool { creator, title, description, goal, deadline, now } => {
            if v.after(call) is Ok {
                lemma_open_pool_keeps_inv(v, creator, title, description, goal, deadline, None);
            }
        },
        Call::CreatePoolForSchool { creator, title, description, goal, school, deadline, now } => {
            if v.after(call) is Ok {
                lemma_open_pool_keeps_inv(v, creator, title, description, goal, deadline, Some(school));
            }
        },
        Call::CreatePoolWithFee { creator, title, description, goal, deadline, fee_token, now } => {
            if v.after(call) is Ok {
                lemma_open_pool_keeps_inv(v, creator, title, description, goal, deadline, None);
            }
        },
        Call::Donate { .. } => lemma_donations_keep_inv(v, call),
        Call::DonateWithToken { .. } => lemma_donations_keep_inv(v, call),
        Call::RefundDonation { pool_id, donor, token, sequence } => {
            lemma_refund_keeps_inv(v, pool_id, donor, token, sequence);
        },
        Call::ApplyToPool { .. } => lemma_applications_keep_inv(v, call),
        Call::ApproveApplication { .. } => lemma_applications_keep_inv(v, call),
        Call::RequestEmergencyWithdraw { .. } => {},
        Call::ExecuteEmergencyWithdraw { .. } => {},
        _ => lemma_pool_settings_keep_inv(v, call),
    }
}

/// The invariant holds in every state reached from a state that has it,
/// in particular from deployment, by any sequence of calls.
pub proof fn lemma_run_keeps_inv(v: NevoView, calls: Seq<Call>)
    requires
        v.inv(),
    ensures
        v.run(calls).inv(),
    decreases calls.len(),
{
    if calls.len() > 0 {
        lemma_call_keeps_inv(v, calls[0]);
        lemma_run_keeps_inv(v.next(calls[0]), calls.drop_first());
    }
}

/// In every reachable state the valid pool ids are exactly 1 to the pool
/// count: the count is the highest id that reads succeed on, and the next
/// one is unknown.
pub proof fn lemma_pool_ids_are_one_to_count(address: Address, calls: Seq<Call>, id: u32)
    ensures
        ({
            let w = NevoView::initial(address).run(calls);
            (w.pool_info(id) is Ok <==> 1 <= id <= w.pool_count) && (id == w.pool_count + 1
                ==> w.pool_info(id) == Err::<(u32, Address, u128, u128, bool, u64), ContractError>(
                ContractError::PoolNotFound,
            ))
        }),
{
    lemma_initial_inv(address);
    lemma_run_keeps_inv(NevoView::initial(address), calls);
}

/// In every reachable state no pool has paid out in claims more than it collected.
pub proof fn lemma_claims_within_collected(address: Address, calls: Seq<Call>, id: u32)
    ensures
        ({
            let w = NevoView::initial(address).run(calls);
            w.pools.contains_key(id) ==> w.pools[id].total_claimed <= w.pools[id].collected
        }),
{
    lemma_initial_inv(address);
    lemma_run_keeps_inv(NevoView::initial(address), calls);
}

/// In every reachable state a pool's donor count is the number of distinct
/// addresses that have donated to it.
pub proof fn lemma_donor_count_is_distinct_donors(address: Address, calls: Seq<Call>, id: u32)
    ensures
        ({
            let w = NevoView::initial(address).run(calls);
            w.pools.contains_key(id) ==> w.pools[id].donor_count == w.pools[id].contributions.dom().len()
        }),
{
    lemma_initial_inv(address);
    lemma_run_keeps_inv(NevoView::initial(address), calls);
}

/// Pool ids are handed out in sequence: a successful creation returns the
/// id after the pool count and makes it the new count; no other call, and no
/// failed call, changes the count.
pub proof fn lemma_pool_count_sequencing(v: NevoView, call: Call)
    ensures
        (call is CreatePool || call is CreatePoolForSchool || call is CreatePoolWithFee)
            && v.after(call) is Ok ==> v.next(call).pool_count == v.pool_count + 1,
        !(call is CreatePool || call is CreatePoolForSchool || call is CreatePoolWithFee)
            ==> v.next(call).pool_count == v.pool_count,
        v.after(call) is Err ==> v.next(call) == v,
{
}

/// A successful creation returns the new pool's id, which is the new pool count.
pub proof fn lemma_created_id_is_count(
    v: NevoView,
    creator: Address,
    title: Seq<char>,
    description: Seq<char>,
    goal: u128,
    deadline: u64,
    now: u64,
)
    ensures
        v.create_pool(creator, title, description, goal, deadline, now) matches Ok(s) ==> s.value
            == v.pool_count + 1 && s.state.pool_count == s.value,
{
}

/// A closed pool stays closed whatever is called, and refuses donations of both kinds.
pub proof fn lemma_closed_pool_stays_closed(
    v: NevoView,
    call: Call,
    id: u32,
    donor: Address,
    token: Address,
    amount: u128,
    token_amount: i128,
    now: u64,
)
    requires
        v.pools.contains_key(id),
        v.pools[id].closed,
    ensures
        v.next(call).pools.contains_key(id),
        v.next(call).pools[id].closed,
        v.donate(id, donor, amount, now) == Err::<Step<()>, ContractError>(
            ContractError::PoolIsClosed,
        ),
        v.donate_with_token(id, donor, token, token_amount, now) == Err::<Step<()>, ContractError>(
            ContractError::PoolIsClosed,
        ),
{
    match call {
        Call::SetAdmin { .. } => {},
        Call::SetCreationFee { .. } => {},
        Call::SetCrowdfundingToken { .. } => {},
        Call::RegisterSchool { .. } => {},
        Call::CreatePool { .. } => {},
        Call::CreatePoolForSchool { .. } => {},
        Call::CreatePoolWithFee { .. } => {},
        Call::SetPoolState { .. } => {},
        Call::ClosePool { .. } => {},
        Call::SetPoolToken { .. } => {},
        Call::SetPoolDeadline { .. } => {},
        Call::SavePool { .. } => {},
        Call::Donate { .. } => {},
        Call::DonateWithToken { .. } => {},
        Call::RefundDonation { .. } => {},
        Call::ApplyToPool { .. } => {},
        Call::ApproveApplication { .. } => {},
        Call::ClaimFunds { .. } => {},
        Call::RequestEmergencyWithdraw { .. } => {},
        Call::ExecuteEmergencyWithdraw { .. } => {},
    }
}

/// What a pool is created with never changes: its sponsor, title,
/// description, goal, timestamp deadline and school stay as they were.
pub proof fn lemma_pool_identity_fixed(v: NevoView, call: Call, id: u32)
    requires
        v.pools.contains_key(id),
    ensures
        v.next(call).pools.contains_key(id),
        ({
            let p = v.pools[id];
            let q = v.next(call).pools[id];
            &&& q.sponsor == p.sponsor
            &&& q.title == p.title
            &&& q.description == p.description
            &&& q.goal == p.goal
            &&& q.deadline == p.deadline
            &&& q.school == p.school
        }),
{
    match call {
        Call::SetAdmin { .. } => {},
        Call::SetCreationFee { .. } => {},
        Call::SetCrowdfundingToken { .. } => {},
        Call::RegisterSchool { .. } => {},
        Call::CreatePool { .. } => {},
        Call::CreatePoolForSchool { .. } => {},
        Call::CreatePoolWithFee { .. } => {},
        Call::SetPoolState { .. } => {},
        Call::ClosePool { .. } => {},
        Call::SetPoolToken { .. } => {},
        Call::SetPoolDeadline { .. } => {},
        Call::SavePool { .. } => {},
        Call::Donate { .. } => {},
        Call::DonateWithToken { .. } => {},
        Call::RefundDonation { .. } => {},
        Call::ApplyToPool { .. } => {},
        Call::ApproveApplication { .. } => {},
        Call::ClaimFunds { .. } => {},
        Call::RequestEmergencyWithdraw { .. } => {},
        Call::ExecuteEmergencyWithdraw { .. } => {},
    }
}

/// After a successful native donation the reads show it: the donor's
/// contribution and the pool's total both grow by the amount, the donor count
/// grows by one exactly for a first-time donor, the time of the last donation
/// is `now`, and nothing else about other donors or other pools changes.
pub proof fn lemma_donation_reads(v: NevoView, pool_id: u32, donor: Address, amount: u128, now: u64, other: Address, other_pool: u32)
    ensures
        v.donate(pool_id, donor, amount, now) matches Ok(s) ==> {
            let w = s.state;
            &&& w.contribution(pool_id, donor) == Ok::<u128, ContractError>(
                (v.pools[pool_id].contribution_of(donor) + amount) as u128,
            )
            &&& w.total_raised(pool_id) == Ok::<u128, ContractError>(
                (v.pools[pool_id].collected + amount) as u128,
            )
            &&& w.donor_count(pool_id) == Ok::<u32, ContractError>(
                if v.pools[pool_id].is_new_donor(donor) {
                    (v.pools[pool_id].donor_count + 1) as u32
                } else {
                    v.pools[pool_id].donor_count
                },
            )
            &&& w.last_donation_at(pool_id) == Ok::<u64, ContractError>(now)
            &&& other != donor ==> w.contribution(pool_id, other) == v.contribution(pool_id, other)
            &&& other_pool != pool_id ==> w.pool(other_pool) == v.pool(other_pool)
            &&& w.pool_count == v.pool_count
        },
{
}

/// A token donation reads the same as a native one, moves exactly the
/// donated amount from the donor to the contract in the given token, and the
/// pool remembers that token as the one the donor donated in.
pub proof fn lemma_token_donation_reads(
    v: NevoView,
    pool_id: u32,
    donor: Address,
    token: Address,
    amount: i128,
    now: u64,
)
    ensures
        v.donate_with_token(pool_id, donor, token, amount, now) matches Ok(s) ==> {
            let native = v.donate(pool_id, donor, amount as u128, now)->Ok_0.state;
            &&& amount > 0
            &&& s.state == native.with_pool(
                pool_id,
                PoolView {
                    donation_tokens: v.pools[pool_id].donation_tokens.insert(donor.0, token),
                    ..native.pools[pool_id]
                },
            )
            &&& s.state.pools[pool_id].donation_tokens[donor.0] == token
            &&& s.effects.transfers == seq![
                crate::types::Transfer { token, from: donor, to: v.address, amount },
            ]
            &&& s.effects.auths == seq![donor]
        },
{
}

/// A successful refund gives the donor back exactly its contribution, which
/// drops to 0, and takes the same amount off the pool's total.
pub proof fn lemma_refund_reads(v: NevoView, pool_id: u32, donor: Address, token: Address, sequence: u32)
    ensures
        v.refund_donation(pool_id, donor, token, sequence) matches Ok(s) ==> {
            let c = v.pools[pool_id].contribution_of(donor);
            &&& c > 0
            &&& s.state.contribution(pool_id, donor) == Ok::<u128, ContractError>(0)
            &&& s.state.total_raised(pool_id) == Ok::<u128, ContractError>(
                (v.pools[pool_id].collected - c) as u128,
            )
            &&& s.effects.transfers == seq![
                crate::types::Transfer { token, from: v.address, to: donor, amount: c as i128 },
            ]
        },
{
}

/// A donor that has donated in a token is refunded in that token only: a
/// refund naming another token fails, and a refund that succeeds pays the
/// whole contribution in the donated token.
pub proof fn lemma_refund_pays_in_donated_token(
    v: NevoView,
    pool_id: u32,
    donor: Address,
    token: Address,
    sequence: u32,
)
    requires
        v.pools.contains_key(pool_id),
        v.pools[pool_id].donation_tokens.contains_key(donor.0),
    ensures
        token != v.pools[pool_id].donation_tokens[donor.0] ==> v.refund_donation(
            pool_id,
            donor,
            token,
            sequence,
        ) is Err,
        v.refund_donation(pool_id, donor, token, sequence) matches Ok(s) ==> {
            &&& token == v.pools[pool_id].donation_tokens[donor.0]
            &&& s.effects.transfers == seq![
                crate::types::Transfer {
                    token: v.pools[pool_id].donation_tokens[donor.0],
                    from: v.address,
                    to: donor,
                    amount: v.pools[pool_id].contribution_of(donor) as i128,
                },
            ]
        },
{
}

/// The token a donor donated in stays the one the pool remembers, whatever
/// is called, until the donor's refund forgets it; a token donation in
/// another token is refused meanwhile.
pub proof fn lemma_donation_token_kept(
    v: NevoView,
    call: Call,
    pool_id: u32,
    donor: Address,
    other: Address,
    amount: i128,
    now: u64,
)
    requires
        v.pools.contains_key(pool_id),
        v.pools[pool_id].donation_tokens.contains_key(donor.0),
    ensures
        v.next(call).pools.contains_key(pool_id),
        v.next(call).pools[pool_id].donation_tokens.contains_key(donor.0) ==> v.next(
            call,
        ).pools[pool_id].donation_tokens[donor.0] == v.pools[pool_id].donation_tokens[donor.0],
        other != v.pools[pool_id].donation_tokens[donor.0] ==> v.donate_with_token(
            pool_id,
            donor,
            other,
            amount,
            now,
        ) is Err,
{
    match call {
        Call::SetAdmin { .. } => {},
        Call::SetCreationFee { .. } => {},
        Call::SetCrowdfundingToken { .. } => {},
        Call::RegisterSchool { .. } => {},
        Call::CreatePool { .. } => {},
        Call::CreatePoolForSchool { .. } => {},
        Call::CreatePoolWithFee { .. } => {},
        Call::SetPoolState { .. } => {},
        Call::ClosePool { .. } => {},
        Call::SetPoolToken { .. } => {},
        Call::SetPoolDeadline { .. } => {},
        Call::SavePool { .. } => {},
        Call::Donate { .. } => {},
        Call::DonateWithToken { .. } => {},
        Call::RefundDonation { .. } => {},
        Call::ApplyToPool { .. } => {},
        Call::ApproveApplication { .. } => {},
        Call::ClaimFunds { .. } => {},
        Call::RequestEmergencyWithdraw { .. } => {},
        Call::ExecuteEmergencyWithdraw { .. } => {},
    }
}

/// Donating in a token and then asking for a refund, with nothing in
/// between, succeeds only in that token and pays out in it.
pub proof fn lemma_donation_then_refund_token(
    v: NevoView,
    pool_id: u32,
    donor: Address,
    token: Address,
    refund_token: Address,
    amount: i128,
    now: u64,
    sequence: u32,
)
    ensures
        v.donate_with_token(pool_id, donor, token, amount, now) matches Ok(s1) ==> (
        s1.state.refund_donation(pool_id, donor, refund_token, sequence) matches Ok(s2) ==> {
            &&& refund_token == token
            &&& s2.effects.transfers[0].token == token
        }),
{
    if let Ok(s1) = v.donate_with_token(pool_id, donor, token, amount, now) {
        lemma_refund_pays_in_donated_token(s1.state, pool_id, donor, refund_token, sequence);
    }
}

/// Creating a pool leaves every existing pool as it was: its donor count,
/// total raised and every donor's contribution read the same afterwards.
pub proof fn lemma_new_pool_leaves_existing_pools(
    v: NevoView,
    creator: Address,
    title: Seq<char>,
    description: Seq<char>,
    goal: u128,
    deadline: u64,
    school: Address,
    fee_token: Address,
    now: u64,
    id: u32,
    donor: Address,
)
    requires
        v.pools.contains_key(id),
    ensures
        v.create_pool(creator, title, description, goal, deadline, now) matches Ok(s) ==> {
            &&& s.state.pools[id] == v.pools[id]
            &&& s.state.donor_count(id) == v.donor_count(id)
            &&& s.state.total_raised(id) == v.total_raised(id)
            &&& s.state.contribution(id, donor) == v.contribution(id, donor)
        },
        v.create_pool_for_school(creator, title, description, goal, school, deadline, now) matches Ok(
            s,
        ) ==> {
            &&& s.state.pools[id] == v.pools[id]
            &&& s.state.donor_count(id) == v.donor_count(id)
            &&& s.state.total_raised(id) == v.total_raised(id)
            &&& s.state.contribution(id, donor) == v.contribution(id, donor)
        },
        v.create_pool_with_fee(creator, title, description, goal, deadline, fee_token, now) matches Ok(
            s,
        ) ==> {
            &&& s.state.pools[id] == v.pools[id]
            &&& s.state.donor_count(id) == v.donor_count(id)
            &&& s.state.total_raised(id) == v.total_raised(id)
            &&& s.state.contribution(id, donor) == v.contribution(id, donor)
        },
{
}

/// Donating and then refunding, with nothing in between, returns the donor's
/// contribution and the pool's total to what they were, and pays the donor
/// back what it gave.
pub proof fn lemma_refund_undoes_donation(
    v: NevoView,
    pool_id: u32,
    donor: Address,
    token: Address,
    amount: i128,
    now: u64,
    sequence: u32,
)
    requires
        v.pools.contains_key(pool_id),
        v.pools[pool_id].contribution_of(donor) == 0,
    ensures
        v.donate_with_token(pool_id, donor, token, amount, now) matches Ok(s1) ==> (
        s1.state.refund_donation(pool_id, donor, token, sequence) matches Ok(s2) ==> {
            &&& s2.state.contribution(pool_id, donor) == v.contribution(pool_id, donor)
            &&& s2.state.total_raised(pool_id) == v.total_raised(pool_id)
            &&& s2.effects.transfers[0].amount == amount
            &&& s2.effects.transfers[0].to == donor
        }),
{
}

/// Claims add up: the gross amount of a claim is added to the student's
/// running total; the student receives the amount less the protocol fee,
/// which is one part in a hundred, rounded down.
pub proof fn lemma_claim_accounting(v: NevoView, student: Address, pool_id: u32, amount: i128, token: Address)
    ensures
        v.claim_funds(student, pool_id, amount, token) matches Ok(s) ==> {
            let fee = NevoView::claim_fee(amount);
            &&& s.state.claimed_amount(pool_id, student) == v.claimed_amount(pool_id, student) + amount
            &&& s.effects.transfers.len() == 1
            &&& s.effects.transfers[0].amount + fee == amount
            &&& s.effects.transfers[0].to == student
            &&& 0 <= fee <= amount
            &&& 100 * fee <= amount < 100 * (fee + 1)
            &&& s.state.total_raised(pool_id) == v.total_raised(pool_id)
        },
{
}

/// What the admin sets, the reads give back.
pub proof fn lemma_configuration_reads(
    v: NevoView,
    caller: Address,
    fee: i128,
    token: Address,
    school: Address,
    metadata_hash: [u8; 32],
)
    ensures
        v.set_creation_fee(caller, fee) matches Ok(s) ==> s.state.creation_fee == fee && fee >= 0,
        v.set_crowdfunding_token(caller, token) matches Ok(s) ==> s.state.crowdfunding_token()
            == Ok::<Address, ContractError>(token),
        v.register_school(school, metadata_hash) matches Ok(s) ==> s.state.school_metadata(school)
            == Ok::<[u8; 32], ContractError>(metadata_hash) && s.state.schools.contains_key(
            school.0,
        ),
{
}

/// Only the current admin may act as admin: after `set_admin(new_admin)`,
/// any other caller is refused, and registering a school needs the new
/// admin's authorization.
pub proof fn lemma_admin_reassignment(
    v: NevoView,
    new_admin: Address,
    other: Address,
    fee: i128,
    school: Address,
    metadata_hash: [u8; 32],
)
    requires
        other != new_admin,
    ensures
        ({
            let w = v.set_admin(new_admin)->Ok_0.state;
            &&& w.set_creation_fee(other, fee) == Err::<Step<()>, ContractError>(
                ContractError::UnauthorizedAdmin,
            )
            &&& w.register_school(school, metadata_hash)->Ok_0.effects.auths == seq![new_admin]
            &&& fee >= 0 ==> w.set_creation_fee(new_admin, fee) is Ok
        }),
{
}

/// What a pool is created with, the reads give back; a new pool has
/// collected nothing, has no donors, no donation time and is open.
pub proof fn lemma_created_pool_reads(
    v: NevoView,
    creator: Address,
    title: Seq<char>,
    description: Seq<char>,
    goal: u128,
    deadline: u64,
    now: u64,
)
    ensures
        v.create_pool(creator, title, description, goal, deadline, now) matches Ok(s) ==> {
            let id = s.value;
            let w = s.state;
            &&& w.pool_info(id) == Ok::<(u32, Address, u128, u128, bool, u64), ContractError>(
                (id, creator, goal, 0, false, deadline),
            )
            &&& w.pool_metadata(id) == (title, description)
            &&& w.campaign_goal(id) == Ok::<u128, ContractError>(goal)
            &&& w.total_raised(id) == Ok::<u128, ContractError>(0)
            &&& w.donor_count(id) == Ok::<u32, ContractError>(0)
            &&& w.last_donation_at(id) == Ok::<u64, ContractError>(0)
            &&& w.pool_deadline(id) == Ok::<u32, ContractError>(0)
            &&& w.pool_school(id) == Err::<Address, ContractError>(ContractError::PoolSchoolNotSet)
            &&& w.pools[id].state == PoolState::Active
        },
{
}

/// A pool created for a school remembers that school.
pub proof fn lemma_school_pool_reads(
    v: NevoView,
    creator: Address,
    title: Seq<char>,
    description: Seq<char>,
    goal: u128,
    school: Address,
    deadline: u64,
    now: u64,
)
    ensures
        v.create_pool_for_school(creator, title, description, goal, school, deadline, now) matches Ok(
            s,
        ) ==> s.state.pool_school(s.value) == Ok::<Address, ContractError>(school),
{
}

/// What the sponsor sets on a pool, the reads give back.
pub proof fn lemma_pool_settings_reads(
    v: NevoView,
    pool_id: u32,
    deadline: u32,
    sequence: u32,
    description: Seq<char>,
    url: Seq<char>,
    image_hash: Seq<char>,
)
    ensures
        v.set_pool_deadline(pool_id, deadline, sequence) matches Ok(s) ==> s.state.pool_deadline(
            pool_id,
        ) == Ok::<u32, ContractError>(deadline) && deadline > sequence,
        v.save_pool(pool_id, description, url, image_hash) matches Ok(s) ==> s.state.saved_pool_metadata(pool_id)
            == Ok::<crate::pool::SavedMetadataView, ContractError>(
            crate::pool::SavedMetadataView { description, url, image_hash },
        ),
{
}

/// The total raised that a pool reports is the collected amount in its summary.
pub proof fn lemma_total_raised_is_collected(v: NevoView, pool_id: u32)
    ensures
        v.total_raised(pool_id) matches Ok(t) ==> v.pool_info(pool_id) matches Ok(info) && info.3
            == t,
        v.total_raised(pool_id) is Err <==> v.pool_info(pool_id) is Err,
{
}

/// In every reachable state a pool's total raised is the sum of what each
/// donor has given to it and not taken back.
pub proof fn lemma_total_raised_is_sum_of_contributions(address: Address, calls: Seq<Call>, id: u32)
    ensures
        ({
            let w = NevoView::initial(address).run(calls);
            w.pools.contains_key(id) ==> w.pools[id].collected == total_of(w.pools[id].contributions)
        }),
{
    lemma_initial_inv(address);
    lemma_run_keeps_inv(NevoView::initial(address), calls);
}

/// Refunds open only once the sponsor has set a ledger deadline and that
/// deadline plus the refund grace period lies behind the ledger: a pool
/// without a deadline (0) refuses every refund whatever the ledger sequence,
/// and so does a pool whose deadline plus grace period is not yet passed.
/// Once refunds are open, a donor with something to refund, asking in the
/// token it may be paid in, gets its whole contribution back as long as the
/// pool still holds it beside what students claimed.
pub proof fn lemma_refund_needs_passed_deadline(
    v: NevoView,
    pool_id: u32,
    donor: Address,
    token: Address,
    sequence: u32,
)
    requires
        v.pools.contains_key(pool_id),
    ensures
        v.pools[pool_id].ledger_deadline == 0 ==> v.refund_donation(pool_id, donor, token, sequence)
            == Err::<Step<()>, ContractError>(ContractError::RefundNotAvailable),
        sequence <= v.pools[pool_id].ledger_deadline + REFUND_GRACE_PERIOD_LEDGERS ==> v.refund_donation(
            pool_id,
            donor,
            token,
            sequence,
        ) == Err::<Step<()>, ContractError>(ContractError::RefundNotAvailable),
        v.refund_donation(pool_id, donor, token, sequence) is Ok ==> {
            &&& v.pools[pool_id].ledger_deadline != 0
            &&& sequence > v.pools[pool_id].ledger_deadline + REFUND_GRACE_PERIOD_LEDGERS
        },
        ({
            let p = v.pools[pool_id];
            let c = p.contribution_of(donor);
            &&& p.ledger_deadline != 0
            &&& sequence > p.ledger_deadline + REFUND_GRACE_PERIOD_LEDGERS
            &&& (p.token is None || p.token == Some(token))
            &&& (!p.donation_tokens.contains_key(donor.0) || p.donation_tokens[donor.0] == token)
            &&& 0 < c <= i128::MAX
            &&& c + p.total_claimed <= p.collected
        }) ==> v.refund_donation(pool_id, donor, token, sequence) is Ok,
{
}

/// What limits a claim of an approved student is what the pool has
/// collected less what all students have claimed so far: a claim of `amount`
/// in an acceptable token fails for that reason exactly when the claims in
/// total would pass the collected amount, and otherwise it succeeds, adds
/// `amount` to the student's running total and to the pool's, and pays the
/// student `amount` less one part in a hundred, rounded down.
pub proof fn lemma_claim_limited_by_pool_total(
    v: NevoView,
    student: Address,
    pool_id: u32,
    amount: i128,
    token: Address,
)
    requires
        v.pools.contains_key(pool_id),
        amount > 0,
        v.pools[pool_id].applications.contains_key(student.0),
        v.pools[pool_id].applications[student.0].status == ApplicationStatus::Approved,
        v.pools[pool_id].token is None || v.pools[pool_id].token == Some(token),
        v.pools[pool_id].claimed_by(student) + amount <= i128::MAX,
    ensures
        (v.claim_funds(student, pool_id, amount, token) == Err::<Step<()>, ContractError>(
            ContractError::ClaimExceedsCollected,
        )) <==> v.pools[pool_id].total_claimed + amount > v.pools[pool_id].collected,
        v.pools[pool_id].total_claimed + amount <= v.pools[pool_id].collected ==> v.claim_funds(
            student,
            pool_id,
            amount,
            token,
        ) is Ok,
        v.claim_funds(student, pool_id, amount, token) matches Ok(s) ==> {
            &&& s.state.claimed_amount(pool_id, student) == v.pools[pool_id].claimed_by(student)
                + amount
            &&& s.state.pools[pool_id].total_claimed == v.pools[pool_id].total_claimed + amount
            &&& s.state.pools[pool_id].collected == v.pools[pool_id].collected
            &&& s.effects.transfers == seq![
                Transfer { token, from: v.address, to: student, amount: (amount - amount / 100) as i128 },
            ]
        },
{
}

/// Successive claims of one approved student add up: when the pool has
/// collected enough for both, a claim of `first` and then one of `second`
/// both succeed and the student's running total grows by their sum.
pub proof fn lemma_successive_claims_add_up(
    v: NevoView,
    student: Address,
    pool_id: u32,
    first: i128,
    second: i128,
    token: Address,
)
    requires
        v.pools.contains_key(pool_id),
        first > 0,
        second > 0,
        v.pools[pool_id].applications.contains_key(student.0),
        v.pools[pool_id].applications[student.0].status == ApplicationStatus::Approved,
        v.pools[pool_id].token is None || v.pools[pool_id].token == Some(token),
        v.pools[pool_id].claimed_by(student) + first + second <= i128::MAX,
        v.pools[pool_id].total_claimed + first + second <= v.pools[pool_id].collected,
    ensures
        v.claim_funds(student, pool_id, first, token) matches Ok(s1) && s1.state.claim_funds(
            student,
            pool_id,
            second,
            token,
        ) matches Ok(s2) && s2.state.claimed_amount(pool_id, student) == v.pools[pool_id].claimed_by(
            student,
        ) + first + second,
{
    lemma_claim_limited_by_pool_total(v, student, pool_id, first, token);
    let s1 = v.claim_funds(student, pool_id, first, token)->Ok_0;
    assert(s1.state.pools[pool_id].claimed_by(student) == v.pools[pool_id].claimed_by(student)
        + first);
    lemma_claim_limited_by_pool_total(s1.state, student, pool_id, second, token);
}

/// A donation's event reports the pool's new total: a native donation
/// publishes exactly one event, naming the donor and the amount, whose new
/// collected amount is the pool's total raised before the call plus the
/// amount, which the pool reports afterwards; a token donation's
/// contribution event reports the same total.
pub proof fn lemma_donation_event_reports_pool_total(
    v: NevoView,
    pool_id: u32,
    donor: Address,
    amount: u128,
    token: Address,
    token_amount: i128,
    now: u64,
)
    ensures
        v.donate(pool_id, donor, amount, now) matches Ok(s) ==> {
            &&& s.effects.events == seq![
                ContractEvent::Donation {
                    pool_id,
                    donor,
                    amount,
                    new_collected: (v.pools[pool_id].collected + amount) as u128,
                },
            ]
            &&& s.state.total_raised(pool_id) == Ok::<u128, ContractError>(
                (v.pools[pool_id].collected + amount) as u128,
            )
        },
        v.donate_with_token(pool_id, donor, token, token_amount, now) matches Ok(s) ==> {
            &&& s.effects.events == seq![
                ContractEvent::Contribution {
                    pool_id,
                    donor,
                    amount: token_amount,
                    new_collected: (v.pools[pool_id].collected + token_amount) as u128,
                    private: true,
                },
            ]
            &&& s.state.total_raised(pool_id) == Ok::<u128, ContractError>(
                (v.pools[pool_id].collected + token_amount) as u128,
            )
        },
{
}

/// The creation fee is paid in the token the creator names: a successful
/// creation with a positive fee makes exactly one transfer, of the fee in
/// `fee_token` from the creator to the contract, authorized by the creator;
/// with no fee it moves nothing. Paying the fee changes nothing else: the
/// call succeeds exactly when a plain creation does, with the same new state
/// and the same pool id.
pub proof fn lemma_creation_fee_paid_in_named_token(
    v: NevoView,
    creator: Address,
    title: Seq<char>,
    description: Seq<char>,
    goal: u128,
    deadline: u64,
    fee_token: Address,
    now: u64,
)
    ensures
        v.create_pool_with_fee(creator, title, description, goal, deadline, fee_token, now) matches Ok(
            s,
        ) ==> {
            &&& v.creation_fee > 0 ==> s.effects.transfers == seq![
                Transfer { token: fee_token, from: creator, to: v.address, amount: v.creation_fee },
            ] && s.effects.auths == seq![creator]
            &&& v.creation_fee <= 0 ==> s.effects.transfers.len() == 0
        },
        (v.create_pool_with_fee(creator, title, description, goal, deadline, fee_token, now) is Ok)
            <==> (v.create_pool(creator, title, description, goal, deadline, now) is Ok),
        v.create_pool_with_fee(creator, title, description, goal, deadline, fee_token, now) matches Ok(
            s,
        ) ==> {
            &&& s.state == v.create_pool(creator, title, description, goal, deadline, now)->Ok_0.state
            &&& s.value == v.create_pool(creator, title, description, goal, deadline, now)->Ok_0.value
        },
{
}

/// Each saved field of a pool is held to its own bound, in UTF-8 bytes: a
/// description of at most [`MAX_DESCRIPTION_LENGTH`], a URL of at most
/// [`MAX_URL_LENGTH`] and an image hash of at most [`MAX_IMAGE_HASH_LENGTH`]
/// bytes are saved and read back; a call fails for a field only when that
/// field passes its own bound.
pub proof fn lemma_save_pool_length_bounds(
    v: NevoView,
    pool_id: u32,
    description: Seq<char>,
    url: Seq<char>,
    image_hash: Seq<char>,
)
    requires
        v.pools.contains_key(pool_id),
    ensures
        ({
            &&& vstd::utf8::encode_utf8(description).len() <= MAX_DESCRIPTION_LENGTH
            &&& vstd::utf8::encode_utf8(url).len() <= MAX_URL_LENGTH
            &&& vstd::utf8::encode_utf8(image_hash).len() <= MAX_IMAGE_HASH_LENGTH
        }) ==> (v.save_pool(pool_id, description, url, image_hash) matches Ok(s)
            && s.state.saved_pool_metadata(pool_id) == Ok::<SavedMetadataView, ContractError>(
            SavedMetadataView { description, url, image_hash },
        )),
        v.save_pool(pool_id, description, url, image_hash) == Err::<Step<()>, ContractError>(
            ContractError::DescriptionTooLong,
        ) ==> vstd::utf8::encode_utf8(description).len() > MAX_DESCRIPTION_LENGTH,
        v.save_pool(pool_id, description, url, image_hash) == Err::<Step<()>, ContractError>(
            ContractError::UrlTooLong,
        ) ==> vstd::utf8::encode_utf8(url).len() > MAX_URL_LENGTH,
        v.save_pool(pool_id, description, url, image_hash) == Err::<Step<()>, ContractError>(
            ContractError::ImageHashTooLong,
        ) ==> vstd::utf8::encode_utf8(image_hash).len() > MAX_IMAGE_HASH_LENGTH,
{
}

/// Which pools can be created: in a reachable state a pool opens exactly
/// when its title is non-empty and at most [`MAX_TITLE_LENGTH`] UTF-8 bytes
/// long, its goal is positive, its deadline lies after the ledger time, and
/// ids are left. A bad title is refused first, then a deadline in the past,
/// then a zero goal or a deadline equal to the ledger time.
pub proof fn lemma_pool_creation_rules(
    v: NevoView,
    creator: Address,
    title: Seq<char>,
    description: Seq<char>,
    goal: u128,
    deadline: u64,
    now: u64,
)
    requires
        v.inv(),
    ensures
        vstd::utf8::encode_utf8(title).len() <= usize::MAX ==> ((v.create_pool(
            creator,
            title,
            description,
            goal,
            deadline,
            now,
        ) is Ok) <==> {
            &&& title.len() > 0
            &&& vstd::utf8::encode_utf8(title).len() <= MAX_TITLE_LENGTH
            &&& goal > 0
            &&& deadline > now
            &&& v.pool_count < u32::MAX
        }),
        title.len() == 0 ==> v.create_pool(creator, title, description, goal, deadline, now)
            == Err::<Step<u32>, ContractError>(ContractError::InvalidPoolName),
        MAX_TITLE_LENGTH < vstd::utf8::encode_utf8(title).len() <= usize::MAX ==> v.create_pool(
            creator,
            title,
            description,
            goal,
            deadline,
            now,
        ) == Err::<Step<u32>, ContractError>(ContractError::InvalidPoolName),
        title.len() > 0 && vstd::utf8::encode_utf8(title).len() <= MAX_TITLE_LENGTH && deadline
            < now ==> v.create_pool(creator, title, description, goal, deadline, now) == Err::<
            Step<u32>,
            ContractError,
        >(ContractError::InvalidPoolDeadline),
        title.len() > 0 && vstd::utf8::encode_utf8(title).len() <= MAX_TITLE_LENGTH && deadline
            >= now && (goal == 0 || deadline == now) ==> v.create_pool(
            creator,
            title,
            description,
            goal,
            deadline,
            now,
        ) == Err::<Step<u32>, ContractError>(ContractError::InvalidPoolTarget),
{
    if v.pool_count < u32::MAX {
        assert(!v.pools.contains_key(v.next_pool_id()));
    }
}

/// A native donation goes through exactly when the pool exists, is open and
/// active, the amount is positive and no counter would overflow.
pub proof fn lemma_donation_rules(v: NevoView, pool_id: u32, donor: Address, amount: u128, now: u64)
    ensures
        (v.donate(pool_id, donor, amount, now) is Ok) <==> {
            let p = v.pools[pool_id];
            &&& v.pools.contains_key(pool_id)
            &&& !p.closed
            &&& p.state == PoolState::Active
            &&& amount > 0
            &&& p.collected + amount <= u128::MAX
            &&& p.contribution_of(donor) + amount <= u128::MAX
            &&& !p.contributions.contains_key(donor.0) ==> p.donor_count < u32::MAX
        },
{
}

/// The sponsor's settings: a ledger deadline is accepted exactly when it lies
/// after the current ledger sequence, a pool token exactly when it is not the
/// contract itself; both need the sponsor's authorization and read back.
pub proof fn lemma_pool_settings_rules(
    v: NevoView,
    pool_id: u32,
    deadline: u32,
    sequence: u32,
    token: Address,
)
    requires
        v.pools.contains_key(pool_id),
    ensures
        (v.set_pool_deadline(pool_id, deadline, sequence) is Ok) <==> deadline > sequence,
        v.set_pool_deadline(pool_id, deadline, sequence) matches Ok(s) ==> {
            &&& s.state.pool_deadline(pool_id) == Ok::<u32, ContractError>(deadline)
            &&& s.effects.auths == seq![v.pools[pool_id].sponsor]
        },
        (v.set_pool_token(pool_id, token) is Ok) <==> token != v.address,
        v.set_pool_token(pool_id, token) matches Ok(s) ==> {
            &&& s.state.pools[pool_id].token == Some(token)
            &&& s.effects.auths == seq![v.pools[pool_id].sponsor]
        },
{
}

/// A pool can be closed exactly once, and only after it was disbursed or
/// cancelled; closing needs the sponsor's authorization.
pub proof fn lemma_close_pool_rules(v: NevoView, pool_id: u32)
    requires
        v.pools.contains_key(pool_id),
    ensures
        (v.close_pool(pool_id) is Ok) <==> {
            &&& !v.pools[pool_id].closed
            &&& (v.pools[pool_id].state == PoolState::Disbursed || v.pools[pool_id].state
                == PoolState::Cancelled)
        },
        v.close_pool(pool_id) matches Ok(s) ==> {
            &&& s.state.is_closed(pool_id) == Ok::<bool, ContractError>(true)
            &&& s.effects.auths == seq![v.pools[pool_id].sponsor]
            &&& s.state.close_pool(pool_id) == Err::<Step<()>, ContractError>(
                ContractError::PoolAlreadyClosed,
            )
        },
{
}

/// Applications: a student applies to an open pool once; the pool's school,
/// and no one else, then approves or rejects the application, and a claim
/// needs the approval.
pub proof fn lemma_application_rules(
    v: NevoView,
    pool_id: u32,
    student: Address,
    data: Seq<char>,
    school: Address,
    approved: bool,
)
    requires
        v.pools.contains_key(pool_id),
    ensures
        (v.apply_to_pool(pool_id, student, data) is Ok) <==> {
            &&& !v.pools[pool_id].closed
            &&& !v.pools[pool_id].applications.contains_key(student.0)
            &&& v.pools[pool_id].app_count < u32::MAX
        },
        v.apply_to_pool(pool_id, student, data) matches Ok(s) ==> {
            &&& s.state.pools[pool_id].applications[student.0].status == ApplicationStatus::Pending
            &&& s.state.pools[pool_id].app_count == v.pools[pool_id].app_count + 1
            &&& s.effects.auths == seq![student]
            &&& s.state.apply_to_pool(pool_id, student, data) == Err::<Step<()>, ContractError>(
                ContractError::ApplicationAlreadyExists,
            )
        },
        (v.approve_application(pool_id, school, student, approved) is Ok) <==> {
            &&& v.pools[pool_id].school == Some(school)
            &&& v.pools[pool_id].applications.contains_key(student.0)
        },
        v.approve_application(pool_id, school, student, approved) matches Ok(s) ==> {
            &&& s.state.pools[pool_id].applications[student.0].status == (if approved {
                ApplicationStatus::Approved
            } else {
                ApplicationStatus::Rejected
            })
            &&& s.effects.auths == seq![school]
        },
{
}

/// Emergency withdrawals: only the admin may request one, of a positive
/// amount for an existing pool; it can be carried out exactly when the grace
/// period has passed since the request, and then pays the requested amount
/// of the requested token to the admin who asked, once.
pub proof fn lemma_emergency_withdrawal_rules(
    v: NevoView,
    caller: Address,
    pool_id: u32,
    token: Address,
    amount: i128,
    now: u64,
    later: u64,
)
    ensures
        (v.request_emergency_withdraw(caller, pool_id, token, amount, now) is Ok) <==> {
            &&& v.admin == Some(caller)
            &&& v.pools.contains_key(pool_id)
            &&& amount > 0
        },
        v.request_emergency_withdraw(caller, pool_id, token, amount, now) matches Ok(s1) ==> {
            &&& (s1.state.execute_emergency_withdraw(pool_id, later) is Ok) <==> later >= now
                + GRACE_PERIOD_SECS
            &&& s1.state.execute_emergency_withdraw(pool_id, later) matches Ok(s2) ==> {
                &&& s2.effects.transfers == seq![
                    Transfer { token, from: v.address, to: caller, amount },
                ]
                &&& s2.state.emergency_withdrawal(pool_id) == None::<EmergencyWithdrawal>
                &&& s2.state.execute_emergency_withdraw(pool_id, later) == Err::<
                    Step<()>,
                    ContractError,
                >(ContractError::EmergencyWithdrawalNotFound)
            }
        },
{
}

/// Administration: the creation fee is set exactly when the admin asks with
/// a non-negative fee; a school is registered, with the admin's
/// authorization, exactly when an admin exists, and reads back its hash.
pub proof fn lemma_admin_settings_rules(
    v: NevoView,
    caller: Address,
    fee: i128,
    school: Address,
    metadata_hash: [u8; 32],
)
    ensures
        (v.set_creation_fee(caller, fee) is Ok) <==> v.admin == Some(caller) && fee >= 0,
        v.set_creation_fee(caller, fee) matches Ok(s) ==> s.state.creation_fee == fee,
        (v.register_school(school, metadata_hash) is Ok) <==> v.admin is Some,
        v.register_school(school, metadata_hash) matches Ok(s) ==> {
            &&& s.state.school_metadata(school) == Ok::<[u8; 32], ContractError>(metadata_hash)
            &&& s.effects.auths == seq![v.admin->0]
        },
{
}

/// A pool's state can be changed by its sponsor as long as the pool is not
/// closed, and the new state reads back; a closed pool refuses the change.
pub proof fn lemma_set_pool_state_rules(v: NevoView, pool_id: u32, state: PoolState)
    requires
        v.pools.contains_key(pool_id),
    ensures
        (v.set_pool_state(pool_id, state) is Ok) <==> !v.pools[pool_id].closed,
        v.pools[pool_id].closed ==> v.set_pool_state(pool_id, state) == Err::<Step<()>, ContractError>(
            ContractError::PoolIsClosed,
        ),
        v.set_pool_state(pool_id, state) matches Ok(s) ==> {
            &&& s.state.pools[pool_id].state == state
            &&& s.effects.auths == seq![v.pools[pool_id].sponsor]
        },
{
}

} // verus!
