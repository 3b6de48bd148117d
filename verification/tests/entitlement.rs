use entitlement_engine::entitlement::in_window;
use entitlement_engine::error::EngineError;
use entitlement_engine::models::{NewUser, Status, User};
use entitlement_engine::plan::{device_limit, is_promotional, plan_changed, traffic_limit};
use entitlement_engine::registration::Created;

const DAY: i64 = 86_400;
const HOUR: i64 = 3_600;

fn account(id: i64, now: i64) -> User {
    User::registered(
        NewUser { telegram_id: id, referral_id: None, username: None },
        Created { uuid: 7, sub_link: "https://sub.example/7".to_string() },
        None,
        now,
    )
}

#[test]
fn registered_account_is_inactive_and_expires_at_once() {
    let u = account(42, 1_000);
    assert_eq!(u.telegram_id, 42);
    assert_eq!(u.status, Status::Inactive);
    assert_eq!(u.subscription_end, 1_000);
    assert_eq!(u.created_at, 1_000);
    assert_eq!(u.plan, "free");
    assert_eq!(u.device_limit, 2);
    assert_eq!(u.username, Some("user_42".to_string()));
    assert!(!u.auto_renew);
    assert_eq!(u.auto_renew_fail_count, 0);
    assert!(u.referrals.is_empty());
}

#[test]
fn same_plan_extension_counts_from_stored_expiry() {
    let mut u = account(1, 0);
    u.plan = "base".to_string();
    u.subscription_end = 10 * DAY;
    let now = 4 * DAY;
    assert_eq!(u.new_end(30, &"base".to_string(), now), 40 * DAY);
    u.apply_extension(30, "base".to_string(), now);
    assert_eq!(u.subscription_end, 40 * DAY);
    assert_eq!(u.status, Status::Active);
    assert_eq!(u.plan, "base");
}

#[test]
fn same_plan_extension_of_lapsed_entitlement_counts_from_now() {
    let mut u = account(1, 0);
    u.plan = "base".to_string();
    u.subscription_end = 2 * DAY;
    let now = 5 * DAY + 17;
    u.apply_extension(7, "base".to_string(), now);
    assert_eq!(u.subscription_end, 12 * DAY + 17);
}

#[test]
fn extension_never_moves_expiry_back() {
    let mut u = account(1, 0);
    u.plan = "base".to_string();
    u.subscription_end = 100 * DAY;
    u.apply_extension(0, "base".to_string(), 3 * DAY);
    assert_eq!(u.subscription_end, 100 * DAY);
}

#[test]
fn plan_change_counts_from_now() {
    let mut u = account(1, 0);
    u.plan = "base".to_string();
    u.subscription_end = 100 * DAY;
    let now = 3 * DAY;
    u.apply_extension(30, "family".to_string(), now);
    assert_eq!(u.subscription_end, 33 * DAY);
    assert_eq!(u.plan, "family");
    assert_eq!(u.status, Status::Active);
}

#[test]
fn trial_and_free_never_count_as_plan_change() {
    let base = "base".to_string();
    assert!(!plan_changed(&base, &"trial".to_string()));
    assert!(!plan_changed(&base, &"free".to_string()));
    assert!(!plan_changed(&base, &"base".to_string()));
    assert!(plan_changed(&base, &"family".to_string()));
    assert!(is_promotional(&"trial".to_string()));
    assert!(is_promotional(&"free".to_string()));
    assert!(!is_promotional(&"base".to_string()));
    let mut u = account(1, 0);
    u.plan = "base".to_string();
    u.subscription_end = 10 * DAY;
    u.apply_extension(3, "trial".to_string(), 2 * DAY);
    assert_eq!(u.subscription_end, 13 * DAY);
    assert_eq!(u.plan, "trial");
}

#[test]
fn two_trial_extensions_one_hour_apart_add_six_days() {
    let registered_at = 1_700_000_000;
    let mut u = account(9, registered_at);
    u.apply_extension(3, "trial".to_string(), registered_at);
    assert_eq!(u.subscription_end, registered_at + 3 * DAY);
    u.apply_extension(3, "trial".to_string(), registered_at + HOUR);
    assert_eq!(u.subscription_end, registered_at + 6 * DAY);
    assert_eq!(u.status, Status::Active);
}

#[test]
fn extension_fits_tells_overflow() {
    let mut u = account(1, 0);
    u.plan = "base".to_string();
    u.subscription_end = i64::MAX - DAY;
    assert!(u.extension_fits(1, &"base".to_string(), 0));
    assert!(!u.extension_fits(2, &"base".to_string(), 0));
    assert!(u.extension_fits(2, &"family".to_string(), 0));
    assert!(!u.extension_fits(1, &"family".to_string(), i64::MAX));
}

#[test]
fn plan_limits() {
    assert_eq!(device_limit(&"base".to_string()), 2);
    assert_eq!(device_limit(&"family".to_string()), 5);
    assert_eq!(device_limit(&"trial".to_string()), 2);
    assert_eq!(device_limit(&"bsbase".to_string()), 2);
    assert_eq!(traffic_limit(&"trial".to_string()), 26_843_545_600);
    assert_eq!(traffic_limit(&"base".to_string()), 0);
    assert_eq!(traffic_limit(&"family".to_string()), 0);
}

#[test]
fn flags_are_idempotent_writes() {
    let mut u = account(1, 0);
    u.set_trial_used(true);
    u.set_trial_used(true);
    assert!(u.is_used_trial);
    u.set_ref_bonus_used(true);
    assert!(u.is_used_ref_bonus);
    u.set_ref_bonus_used(false);
    assert!(!u.is_used_ref_bonus);
    u.set_payed_refs(4);
    assert_eq!(u.payed_refs, 4);
    assert!(u.referrals.is_empty());
}

#[test]
fn three_failures_switch_auto_renew_off() {
    let mut u = account(1, 0);
    u.payment_method_id = Some("pm_1".to_string());
    assert_eq!(u.toggle_auto_renew(true, Some("base".to_string()), Some(30)), Ok(()));
    u.record_attempt(false, 10);
    assert!(u.auto_renew);
    assert_eq!(u.auto_renew_fail_count, 1);
    u.record_attempt(false, 20);
    assert!(u.auto_renew);
    assert_eq!(u.auto_renew_fail_count, 2);
    u.record_attempt(false, 30);
    assert!(!u.auto_renew);
    assert_eq!(u.auto_renew_fail_count, 3);
    assert_eq!(u.auto_renew_last_attempt, Some(30));
}

#[test]
fn success_between_failures_resets_the_count() {
    let mut u = account(1, 0);
    u.payment_method_id = Some("pm_1".to_string());
    assert_eq!(u.toggle_auto_renew(true, Some("base".to_string()), Some(30)), Ok(()));
    u.record_attempt(false, 10);
    u.record_attempt(false, 20);
    u.record_attempt(true, 30);
    assert_eq!(u.auto_renew_fail_count, 0);
    assert_eq!(u.auto_renew_last_attempt, Some(30));
    u.record_attempt(false, 40);
    u.record_attempt(false, 50);
    assert!(u.auto_renew);
    assert_eq!(u.auto_renew_fail_count, 2);
}

#[test]
fn success_does_not_extend_or_reenable() {
    let mut u = account(1, 0);
    u.subscription_end = 77;
    u.record_attempt(true, 10);
    assert_eq!(u.subscription_end, 77);
    assert!(!u.auto_renew);
}

#[test]
fn enabling_auto_renew_needs_payment_method_plan_and_duration() {
    let mut u = account(1, 0);
    assert_eq!(
        u.toggle_auto_renew(true, Some("base".to_string()), Some(30)),
        Err(EngineError::ValidationError)
    );
    assert!(!u.auto_renew);
    u.payment_method_id = Some("pm_1".to_string());
    assert_eq!(u.toggle_auto_renew(true, None, Some(30)), Err(EngineError::ValidationError));
    assert_eq!(
        u.toggle_auto_renew(true, Some("base".to_string()), None),
        Err(EngineError::ValidationError)
    );
    assert!(!u.auto_renew);
    u.auto_renew_fail_count = 3;
    assert_eq!(u.toggle_auto_renew(true, Some("family".to_string()), Some(90)), Ok(()));
    assert!(u.auto_renew);
    assert_eq!(u.auto_renew_fail_count, 0);
    assert_eq!(u.auto_renew_plan, Some("family".to_string()));
    assert_eq!(u.auto_renew_duration, Some(90));
}

#[test]
fn disabling_auto_renew_is_unconditional() {
    let mut u = account(1, 0);
    assert_eq!(u.toggle_auto_renew(false, None, None), Ok(()));
    assert!(!u.auto_renew);
    u.payment_method_id = Some("pm_1".to_string());
    assert_eq!(u.toggle_auto_renew(true, Some("base".to_string()), Some(30)), Ok(()));
    u.auto_renew_fail_count = 2;
    assert_eq!(u.toggle_auto_renew(false, None, None), Ok(()));
    assert!(!u.auto_renew);
    assert_eq!(u.auto_renew_fail_count, 2);
    assert_eq!(u.auto_renew_plan, Some("base".to_string()));
    assert_eq!(u.auto_renew_duration, Some(30));
}

#[test]
fn window_is_closed_at_start_and_open_at_end() {
    assert!(in_window(100, 100, 1));
    assert!(in_window(100 + DAY - 1, 100, 1));
    assert!(!in_window(100 + DAY, 100, 1));
    assert!(!in_window(99, 100, 1));
    assert!(!in_window(100, 100, 0));
    assert!(!in_window(100, 100, -1));
    assert!(in_window(i64::MAX, 0, i64::MAX));
}

#[test]
fn renewal_is_due_only_when_every_condition_holds() {
    let now = 1_000_000;
    let mut u = account(1, 0);
    u.payment_method_id = Some("pm_1".to_string());
    assert_eq!(u.toggle_auto_renew(true, Some("base".to_string()), Some(30)), Ok(()));
    u.status = Status::Active;
    u.subscription_end = now + DAY;
    assert!(u.is_renewal_due(now, 2));
    assert!(!u.is_renewal_due(now, 1));
    u.status = Status::Grace;
    assert!(u.is_renewal_due(now, 2));
    u.status = Status::Inactive;
    assert!(!u.is_renewal_due(now, 2));
    u.status = Status::Active;
    u.subscription_end = now - 1;
    assert!(!u.is_renewal_due(now, 2));
    u.subscription_end = now;
    assert!(u.is_renewal_due(now, 2));
    u.auto_renew = false;
    assert!(!u.is_renewal_due(now, 2));
    u.auto_renew = true;
    u.payment_method_id = None;
    assert!(!u.is_renewal_due(now, 2));
}

#[test]
fn renewal_cooldown_is_twelve_hours() {
    let now = 1_000_000;
    let mut u = account(1, 0);
    u.payment_method_id = Some("pm_1".to_string());
    assert_eq!(u.toggle_auto_renew(true, Some("base".to_string()), Some(30)), Ok(()));
    u.status = Status::Active;
    u.subscription_end = now + 10;
    u.auto_renew_last_attempt = Some(now - 12 * HOUR + 1);
    assert!(!u.is_renewal_due(now, 1));
    u.auto_renew_last_attempt = Some(now - 12 * HOUR);
    assert!(u.is_renewal_due(now, 1));
    u.auto_renew_last_attempt = Some(now);
    assert!(!u.is_renewal_due(now, 1));
}

#[test]
fn status_codes_round_trip() {
    assert_eq!(Status::Inactive.code(), 0);
    assert_eq!(Status::Active.code(), 1);
    assert_eq!(Status::Grace.code(), 2);
    assert_eq!(Status::from_code(0), Some(Status::Inactive));
    assert_eq!(Status::from_code(1), Some(Status::Active));
    assert_eq!(Status::from_code(2), Some(Status::Grace));
    assert_eq!(Status::from_code(3), None);
    assert_eq!(Status::from_code(-1), None);
}

#[test]
fn error_kinds_have_their_http_status() {
    assert_eq!(EngineError::NotFound.status_code(), 404);
    assert_eq!(EngineError::Conflict.status_code(), 409);
    assert_eq!(EngineError::ValidationError.status_code(), 400);
    assert_eq!(EngineError::UpstreamError.status_code(), 502);
    assert_eq!(EngineError::InternalError.status_code(), 500);
}
