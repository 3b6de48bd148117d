use entitlement_engine::error::EngineError;
use entitlement_engine::models::{NewUser, Status, User};
use entitlement_engine::registration::Created;
use entitlement_engine::registry::Registry;
use entitlement_engine::sweeper::{all_ok, Sweep};

const DAY: i64 = 86_400;

fn row(id: i64, status: Status, end: i64) -> User {
    let mut u = User::registered(
        NewUser { telegram_id: id, referral_id: None, username: Some(format!("name{}", id)) },
        Created { uuid: 1000 + id as u128, sub_link: String::new() },
        Some("base".to_string()),
        0,
    );
    u.status = status;
    u.subscription_end = end;
    u
}

fn sample(now: i64) -> Registry {
    Registry {
        entries: vec![
            row(1, Status::Active, now),
            row(2, Status::Active, now + DAY - 1),
            row(3, Status::Active, now + DAY),
            row(4, Status::Active, now - 1),
            row(5, Status::Inactive, now + 10),
            row(6, Status::Grace, now + 10),
            row(7, Status::Grace, now - 1),
            row(8, Status::Grace, now),
        ],
    }
}

fn ids(list: &Vec<entitlement_engine::models::ExpiringUser>) -> Vec<i64> {
    list.iter().map(|e| e.telegram_id).collect()
}

fn statuses(reg: &Registry) -> Vec<Status> {
    reg.entries.iter().map(|u| u.status).collect()
}

#[test]
fn grace_sweep_moves_active_rows_in_the_window() {
    let now = 1_000_000;
    let mut reg = sample(now);
    let moved = reg.advance_to_grace(now, 1);
    assert_eq!(ids(&moved), vec![1, 2]);
    assert_eq!(moved[0].subscription_end, now);
    assert_eq!(moved[0].username, Some("name1".to_string()));
    assert_eq!(moved[0].plan, "base");
    assert_eq!(moved[1].subscription_end, now + DAY - 1);
    assert_eq!(
        statuses(&reg),
        vec![
            Status::Grace,
            Status::Grace,
            Status::Active,
            Status::Active,
            Status::Inactive,
            Status::Grace,
            Status::Grace,
            Status::Grace
        ]
    );
}

#[test]
fn grace_sweep_is_idempotent() {
    let now = 1_000_000;
    let mut reg = sample(now);
    let first = reg.advance_to_grace(now, 2);
    assert_eq!(ids(&first), vec![1, 2, 3]);
    let after_first = statuses(&reg);
    let second = reg.advance_to_grace(now, 2);
    assert!(second.is_empty());
    assert_eq!(statuses(&reg), after_first);
}

#[test]
fn grace_sweep_with_empty_window_moves_nothing() {
    let now = 1_000_000;
    let mut reg = sample(now);
    let before = statuses(&reg);
    assert!(reg.advance_to_grace(now, 0).is_empty());
    assert!(reg.advance_to_grace(now, -3).is_empty());
    assert_eq!(statuses(&reg), before);
    let mut empty = Registry::new();
    assert!(empty.advance_to_grace(now, 5).is_empty());
}

#[test]
fn inactive_sweep_moves_expired_grace_rows() {
    let now = 1_000_000;
    let mut reg = sample(now);
    assert_eq!(reg.keys(Sweep::ToInactive, now), vec![1007]);
    let moved = reg.advance_to_inactive(now, &vec![true]).unwrap();
    assert_eq!(ids(&moved), vec![7]);
    assert_eq!(reg.entries[6].status, Status::Inactive);
    assert_eq!(reg.entries[5].status, Status::Grace);
    assert_eq!(reg.entries[7].status, Status::Grace);
    assert_eq!(reg.entries[3].status, Status::Active);
    let again = reg.advance_to_inactive(now, &vec![]).unwrap();
    assert!(again.is_empty());
}

#[test]
fn inactive_sweep_rolls_back_when_a_revoke_fails() {
    let now = 1_000_000;
    let mut reg = sample(now);
    reg.entries[5].subscription_end = now - 5;
    let before = statuses(&reg);
    assert_eq!(ids(&reg.select(Sweep::ToInactive, now)), vec![6, 7]);
    assert_eq!(
        reg.advance_to_inactive(now, &vec![true, false]).unwrap_err(),
        EngineError::UpstreamError
    );
    assert_eq!(statuses(&reg), before);
    assert_eq!(
        reg.advance_to_inactive(now, &vec![true]).unwrap_err(),
        EngineError::UpstreamError
    );
    assert_eq!(statuses(&reg), before);
    let moved = reg.advance_to_inactive(now, &vec![true, true]).unwrap();
    assert_eq!(ids(&moved), vec![6, 7]);
    assert_eq!(reg.entries[5].status, Status::Inactive);
    assert_eq!(reg.entries[6].status, Status::Inactive);
}

#[test]
fn inactive_sweep_on_nothing_commits_trivially() {
    let mut reg = Registry::new();
    let moved = reg.advance_to_inactive(5, &vec![]).unwrap();
    assert!(moved.is_empty());
    assert_eq!(reg.advance_to_inactive(5, &vec![true]).unwrap_err(), EngineError::UpstreamError);
}

#[test]
fn select_changes_nothing() {
    let now = 1_000_000;
    let reg = sample(now);
    let before = statuses(&reg);
    let picked = reg.select(Sweep::ToGrace { horizon_days: 1 }, now);
    assert_eq!(ids(&picked), vec![1, 2]);
    assert_eq!(reg.keys(Sweep::ToGrace { horizon_days: 1 }, now), vec![1001, 1002]);
    assert_eq!(statuses(&reg), before);
}

#[test]
fn all_ok_needs_every_outcome() {
    assert!(all_ok(&vec![]));
    assert!(all_ok(&vec![true, true]));
    assert!(!all_ok(&vec![true, false, true]));
    assert_eq!(Sweep::ToInactive.target(), Status::Inactive);
    assert_eq!(Sweep::ToGrace { horizon_days: 3 }.target(), Status::Grace);
}

#[test]
fn renewal_due_lists_accounts_in_row_order() {
    let now = 1_000_000;
    let mut reg = sample(now);
    for u in reg.entries.iter_mut() {
        u.payment_method_id = Some("pm".to_string());
        u.auto_renew = true;
    }
    reg.entries[1].auto_renew_last_attempt = Some(now - 100);
    reg.entries[5].auto_renew_last_attempt = Some(now - 12 * 3_600);
    assert_eq!(reg.renewal_due(now, 1), vec![1, 6, 8]);
    assert_eq!(reg.renewal_due(now, 2), vec![1, 3, 6, 8]);
    assert!(reg.renewal_due(now, 0).is_empty());
}

#[test]
fn registry_record_attempt_and_toggle() {
    let now = 50;
    let mut reg = sample(now);
    assert_eq!(reg.record_attempt(99, true, now), Err(EngineError::NotFound));
    assert_eq!(
        reg.toggle_auto_renew(99, false, None, None),
        Err(EngineError::NotFound)
    );
    assert_eq!(
        reg.toggle_auto_renew(1, true, Some("base".to_string()), Some(30)),
        Err(EngineError::ValidationError)
    );
    reg.entries[0].payment_method_id = Some("pm".to_string());
    assert_eq!(reg.toggle_auto_renew(1, true, Some("base".to_string()), Some(30)), Ok(()));
    assert!(reg.can_count_failure(1));
    assert_eq!(reg.record_attempt(1, false, now), Ok(()));
    assert_eq!(reg.record_attempt(1, false, now + 1), Ok(()));
    assert!(reg.entries[0].auto_renew);
    assert_eq!(reg.record_attempt(1, false, now + 2), Ok(()));
    assert!(!reg.entries[0].auto_renew);
    assert_eq!(reg.entries[0].auto_renew_fail_count, 3);
    assert_eq!(reg.entries[1].auto_renew_fail_count, 0);
    reg.entries[0].auto_renew_fail_count = u32::MAX;
    assert!(!reg.can_count_failure(1));
    assert!(reg.can_count_failure(99));
    assert_eq!(reg.record_attempt(1, true, now + 3), Ok(()));
    assert_eq!(reg.entries[0].auto_renew_fail_count, 0);
}

#[test]
fn registry_flags() {
    let mut reg = sample(0);
    assert_eq!(reg.set_trial_used(2, true), Ok(()));
    assert!(reg.entries[1].is_used_trial);
    assert!(!reg.entries[0].is_used_trial);
    assert_eq!(reg.set_trial_used(2, true), Ok(()));
    assert!(reg.entries[1].is_used_trial);
    assert_eq!(reg.set_trial_used(77, true), Err(EngineError::NotFound));
    assert_eq!(reg.set_ref_bonus_used(3, true), Ok(()));
    assert!(reg.entries[2].is_used_ref_bonus);
    assert_eq!(reg.set_ref_bonus_used(77, true), Err(EngineError::NotFound));
    assert_eq!(reg.set_payed_refs(3, 12), Ok(()));
    assert_eq!(reg.entries[2].payed_refs, 12);
    assert!(reg.entries[2].referrals.is_empty());
    assert_eq!(reg.set_payed_refs(77, 1), Err(EngineError::NotFound));
    assert_eq!(reg.find(3), Some(2));
    assert_eq!(reg.find(77), None);
}

#[test]
fn registry_from_rows_needs_one_row_per_account() {
    let ok = Registry::from_rows(vec![row(1, Status::Active, 0), row(2, Status::Active, 0)]);
    assert_eq!(ok.unwrap().entries.len(), 2);
    assert!(Registry::from_rows(vec![]).is_some());
    assert!(Registry::from_rows(vec![
        row(1, Status::Active, 0),
        row(2, Status::Active, 0),
        row(1, Status::Grace, 5)
    ])
    .is_none());
    assert!(Registry::distinct(&vec![row(3, Status::Active, 0)]));
    assert!(!Registry::distinct(&vec![row(3, Status::Active, 0), row(3, Status::Active, 0)]));
}
