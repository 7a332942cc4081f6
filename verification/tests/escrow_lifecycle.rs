use agentpay::errors::AgentPayError;
use agentpay::ops::accept_result;
use agentpay::ops::create_task;
use agentpay::ops::deactivate_service;
use agentpay::ops::dispute_task;
use agentpay::ops::expire_task;
use agentpay::ops::register_service;
use agentpay::ops::submit_result;
use agentpay::state::Pubkey;
use agentpay::state::ServiceListing;
use agentpay::state::TaskRequest;
use agentpay::state::TaskStatus;

const PROVIDER: Pubkey = [1u8; 32];
const REQUESTER: Pubkey = [2u8; 32];
const LISTING_ADDR: Pubkey = [3u8; 32];
const OUTSIDER: Pubkey = [4u8; 32];

fn listing_priced(price: u64) -> ServiceListing {
    register_service(PROVIDER, [7u8; 16], [0u8; 128], price, 0, 0)
}

fn open_task(listing: &ServiceListing, balance: &mut u64, deadline: i64, now: i64) -> TaskRequest {
    create_task(
        listing,
        LISTING_ADDR,
        REQUESTER,
        balance,
        [8u8; 16],
        [0u8; 256],
        deadline,
        now,
    )
    .expect("task creation should succeed")
}

#[test]
fn register_sets_fresh_listing_fields() {
    let listing = register_service(PROVIDER, [7u8; 16], [5u8; 128], 1000, 42, 99);
    assert_eq!(listing.provider, PROVIDER);
    assert_eq!(listing.service_id, [7u8; 16]);
    assert_eq!(listing.description, [5u8; 128]);
    assert_eq!(listing.price_lamports, 1000);
    assert!(listing.is_active);
    assert_eq!(listing.tasks_completed, 0);
    assert_eq!(listing.created_at, 99);
    assert_eq!(listing.min_reputation, 42);
}

#[test]
fn deactivate_by_provider_is_permanent() {
    let mut listing = listing_priced(1000);
    assert!(deactivate_service(&mut listing, PROVIDER).is_ok());
    assert!(!listing.is_active);
}

#[test]
fn deactivate_by_stranger_is_refused() {
    let mut listing = listing_priced(1000);
    let r = deactivate_service(&mut listing, OUTSIDER);
    assert!(matches!(r, Err(AgentPayError::UnauthorizedServiceOwner)));
    assert!(listing.is_active);
}

#[test]
fn happy_path_releases_escrow_to_provider() {
    // Price 1000; task created at t=0 with deadline 100: escrow locked.
    let mut listing = listing_priced(1000);
    let mut requester_bal: u64 = 5000;
    let mut task = open_task(&listing, &mut requester_bal, 100, 0);
    assert_eq!(requester_bal, 4000);
    assert_eq!(task.status, TaskStatus::Open);
    assert_eq!(task.escrow_lamports, 1000);
    assert_eq!(task.amount_lamports, 1000);
    assert_eq!(task.provider, PROVIDER);
    assert_eq!(task.requester, REQUESTER);
    assert_eq!(task.service_listing, LISTING_ADDR);
    assert_eq!(task.result_hash, [0u8; 32]);
    assert!(!task.zk_verified);

    // Provider submits at t=50: status moves, escrow stays locked.
    let hash = [9u8; 32];
    assert!(submit_result(&mut task, PROVIDER, hash, 50).is_ok());
    assert_eq!(task.status, TaskStatus::Submitted);
    assert_eq!(task.escrow_lamports, 1000);
    assert_eq!(task.result_hash, hash);
    assert!(!task.zk_verified);

    // Requester accepts at t=60: provider paid, escrow empty, counter up.
    let mut provider_bal: u64 = 250;
    assert!(accept_result(&mut task, &mut listing, &mut provider_bal, REQUESTER).is_ok());
    assert_eq!(provider_bal, 1250);
    assert_eq!(task.escrow_lamports, 0);
    assert_eq!(task.status, TaskStatus::Completed);
    assert_eq!(listing.tasks_completed, 1);
}

#[test]
fn accept_twice_fails_the_second_time() {
    let mut listing = listing_priced(1000);
    let mut requester_bal: u64 = 1000;
    let mut task = open_task(&listing, &mut requester_bal, 100, 0);
    submit_result(&mut task, PROVIDER, [9u8; 32], 50).unwrap();
    let mut provider_bal: u64 = 0;
    assert!(accept_result(&mut task, &mut listing, &mut provider_bal, REQUESTER).is_ok());
    let again = accept_result(&mut task, &mut listing, &mut provider_bal, REQUESTER);
    assert!(matches!(again, Err(AgentPayError::InvalidTaskStatus)));
    assert_eq!(provider_bal, 1000);
    assert_eq!(listing.tasks_completed, 1);
    assert_eq!(task.status, TaskStatus::Completed);
}

#[test]
fn expiry_refunds_requester_and_fires_once() {
    // Same setup as the happy path, but the provider never submits.
    let listing = listing_priced(1000);
    let mut requester_bal: u64 = 1000;
    let mut task = open_task(&listing, &mut requester_bal, 100, 0);
    assert_eq!(requester_bal, 0);

    // Expiry at t=150 > 100 is permissionless: no caller identity at all.
    assert!(expire_task(&mut task, &mut requester_bal, 150).is_ok());
    assert_eq!(requester_bal, 1000);
    assert_eq!(task.status, TaskStatus::Expired);
    assert_eq!(task.escrow_lamports, 0);

    let again = expire_task(&mut task, &mut requester_bal, 151);
    assert!(matches!(again, Err(AgentPayError::InvalidTaskStatus)));
    assert_eq!(requester_bal, 1000);
}

#[test]
fn create_against_inactive_listing_moves_no_funds() {
    let mut listing = listing_priced(1000);
    deactivate_service(&mut listing, PROVIDER).unwrap();
    let mut requester_bal: u64 = 5000;
    let r = create_task(
        &listing,
        LISTING_ADDR,
        REQUESTER,
        &mut requester_bal,
        [8u8; 16],
        [0u8; 256],
        100,
        0,
    );
    assert!(matches!(r, Err(AgentPayError::ServiceNotActive)));
    assert_eq!(requester_bal, 5000);
}

#[test]
fn create_with_past_deadline_is_refused() {
    let listing = listing_priced(1000);
    let mut requester_bal: u64 = 5000;
    let r = create_task(
        &listing,
        LISTING_ADDR,
        REQUESTER,
        &mut requester_bal,
        [8u8; 16],
        [0u8; 256],
        100,
        100,
    );
    assert!(matches!(r, Err(AgentPayError::DeadlineInPast)));
    assert_eq!(requester_bal, 5000);
}

#[test]
fn create_without_funds_is_refused() {
    let listing = listing_priced(1000);
    let mut requester_bal: u64 = 999;
    let r = create_task(
        &listing,
        LISTING_ADDR,
        REQUESTER,
        &mut requester_bal,
        [8u8; 16],
        [0u8; 256],
        100,
        0,
    );
    assert!(matches!(r, Err(AgentPayError::InsufficientPayment)));
    assert_eq!(requester_bal, 999);
}

#[test]
fn submit_by_stranger_is_refused() {
    let listing = listing_priced(1000);
    let mut requester_bal: u64 = 1000;
    let mut task = open_task(&listing, &mut requester_bal, 100, 0);
    let r = submit_result(&mut task, OUTSIDER, [9u8; 32], 50);
    assert!(matches!(r, Err(AgentPayError::UnauthorizedProvider)));
    assert_eq!(task.status, TaskStatus::Open);
    assert_eq!(task.result_hash, [0u8; 32]);
}

#[test]
fn submit_after_deadline_is_refused() {
    let listing = listing_priced(1000);
    let mut requester_bal: u64 = 1000;
    let mut task = open_task(&listing, &mut requester_bal, 100, 0);
    let r = submit_result(&mut task, PROVIDER, [9u8; 32], 101);
    assert!(matches!(r, Err(AgentPayError::DeadlinePassed)));
    assert_eq!(task.status, TaskStatus::Open);
}

#[test]
fn submit_exactly_at_deadline_succeeds() {
    let listing = listing_priced(1000);
    let mut requester_bal: u64 = 1000;
    let mut task = open_task(&listing, &mut requester_bal, 100, 0);
    assert!(submit_result(&mut task, PROVIDER, [9u8; 32], 100).is_ok());
    assert_eq!(task.status, TaskStatus::Submitted);
}

#[test]
fn submit_twice_is_refused() {
    let listing = listing_priced(1000);
    let mut requester_bal: u64 = 1000;
    let mut task = open_task(&listing, &mut requester_bal, 100, 0);
    submit_result(&mut task, PROVIDER, [9u8; 32], 40).unwrap();
    let r = submit_result(&mut task, PROVIDER, [10u8; 32], 50);
    assert!(matches!(r, Err(AgentPayError::InvalidTaskStatus)));
    assert_eq!(task.result_hash, [9u8; 32]);
}

#[test]
fn accept_by_stranger_is_refused() {
    let mut listing = listing_priced(1000);
    let mut requester_bal: u64 = 1000;
    let mut task = open_task(&listing, &mut requester_bal, 100, 0);
    submit_result(&mut task, PROVIDER, [9u8; 32], 50).unwrap();
    let mut provider_bal: u64 = 0;
    let r = accept_result(&mut task, &mut listing, &mut provider_bal, OUTSIDER);
    assert!(matches!(r, Err(AgentPayError::UnauthorizedRequester)));
    assert_eq!(task.status, TaskStatus::Submitted);
    assert_eq!(provider_bal, 0);
    assert_eq!(listing.tasks_completed, 0);
}

#[test]
fn accept_before_submission_is_refused() {
    let mut listing = listing_priced(1000);
    let mut requester_bal: u64 = 1000;
    let mut task = open_task(&listing, &mut requester_bal, 100, 0);
    let mut provider_bal: u64 = 0;
    let r = accept_result(&mut task, &mut listing, &mut provider_bal, REQUESTER);
    assert!(matches!(r, Err(AgentPayError::InvalidTaskStatus)));
    assert_eq!(task.status, TaskStatus::Open);
    assert_eq!(task.escrow_lamports, 1000);
}

#[test]
fn dispute_refunds_requester_in_full() {
    let listing = listing_priced(1000);
    let mut requester_bal: u64 = 1000;
    let mut task = open_task(&listing, &mut requester_bal, 100, 0);
    submit_result(&mut task, PROVIDER, [9u8; 32], 50).unwrap();
    assert!(dispute_task(&mut task, &mut requester_bal, REQUESTER).is_ok());
    assert_eq!(requester_bal, 1000);
    assert_eq!(task.status, TaskStatus::Disputed);
    assert_eq!(task.escrow_lamports, 0);
}

#[test]
fn dispute_by_stranger_is_refused() {
    let listing = listing_priced(1000);
    let mut requester_bal: u64 = 1000;
    let mut task = open_task(&listing, &mut requester_bal, 100, 0);
    submit_result(&mut task, PROVIDER, [9u8; 32], 50).unwrap();
    let mut outsider_bal: u64 = 0;
    let r = dispute_task(&mut task, &mut outsider_bal, OUTSIDER);
    assert!(matches!(r, Err(AgentPayError::UnauthorizedRequester)));
    assert_eq!(task.status, TaskStatus::Submitted);
    assert_eq!(outsider_bal, 0);
}

#[test]
fn dispute_of_open_task_is_refused() {
    let listing = listing_priced(1000);
    let mut requester_bal: u64 = 1000;
    let mut task = open_task(&listing, &mut requester_bal, 100, 0);
    let r = dispute_task(&mut task, &mut requester_bal, REQUESTER);
    assert!(matches!(r, Err(AgentPayError::InvalidTaskStatus)));
    assert_eq!(task.escrow_lamports, 1000);
}

#[test]
fn dispute_after_accept_loses_the_race() {
    // Two settlements racing on one task: whichever commits first sees
    // `Submitted` and wins; the other sees the changed status and fails.
    let mut listing = listing_priced(1000);
    let mut requester_bal: u64 = 1000;
    let mut task = open_task(&listing, &mut requester_bal, 100, 0);
    submit_result(&mut task, PROVIDER, [9u8; 32], 50).unwrap();
    let mut provider_bal: u64 = 0;
    assert!(accept_result(&mut task, &mut listing, &mut provider_bal, REQUESTER).is_ok());
    let r = dispute_task(&mut task, &mut requester_bal, REQUESTER);
    assert!(matches!(r, Err(AgentPayError::InvalidTaskStatus)));
    assert_eq!(requester_bal, 0);
    assert_eq!(provider_bal, 1000);
    assert_eq!(task.status, TaskStatus::Completed);
}

#[test]
fn expire_exactly_at_deadline_is_too_early() {
    let listing = listing_priced(1000);
    let mut requester_bal: u64 = 1000;
    let mut task = open_task(&listing, &mut requester_bal, 100, 0);
    let r = expire_task(&mut task, &mut requester_bal, 100);
    assert!(matches!(r, Err(AgentPayError::DeadlineNotReached)));
    assert_eq!(task.status, TaskStatus::Open);
    assert_eq!(requester_bal, 0);
}

#[test]
fn expire_of_submitted_task_is_refused() {
    let listing = listing_priced(1000);
    let mut requester_bal: u64 = 1000;
    let mut task = open_task(&listing, &mut requester_bal, 100, 0);
    submit_result(&mut task, PROVIDER, [9u8; 32], 50).unwrap();
    let r = expire_task(&mut task, &mut requester_bal, 150);
    assert!(matches!(r, Err(AgentPayError::InvalidTaskStatus)));
    assert_eq!(task.status, TaskStatus::Submitted);
    assert_eq!(task.escrow_lamports, 1000);
}

#[test]
fn deactivation_leaves_inflight_tasks_usable() {
    let mut listing = listing_priced(1000);
    let mut requester_bal: u64 = 1000;
    let mut task = open_task(&listing, &mut requester_bal, 100, 0);
    deactivate_service(&mut listing, PROVIDER).unwrap();
    assert!(submit_result(&mut task, PROVIDER, [9u8; 32], 50).is_ok());
    let mut provider_bal: u64 = 0;
    assert!(accept_result(&mut task, &mut listing, &mut provider_bal, REQUESTER).is_ok());
    assert_eq!(provider_bal, 1000);
    assert_eq!(listing.tasks_completed, 1);
}

#[test]
fn zero_priced_task_completes_without_payment() {
    let mut listing = listing_priced(0);
    let mut requester_bal: u64 = 50;
    let mut task = open_task(&listing, &mut requester_bal, 100, 0);
    assert_eq!(requester_bal, 50);
    assert_eq!(task.escrow_lamports, 0);
    submit_result(&mut task, PROVIDER, [9u8; 32], 50).unwrap();
    let mut provider_bal: u64 = 5;
    assert!(accept_result(&mut task, &mut listing, &mut provider_bal, REQUESTER).is_ok());
    assert_eq!(provider_bal, 5);
    assert_eq!(task.status, TaskStatus::Completed);
}
