use vstd::prelude::*;
use crate::error::EngineError;
use crate::models::{Status, User, UserModel, text_of, days_of};
use crate::plan::{plan_changed, spec_plan_changed};

verus! {

/// Seconds in one day.
pub const SECONDS_PER_DAY: i64 = 86_400;

/// Consecutive failed renewal attempts after which auto-renewal is switched off.
pub const MAX_RENEWAL_FAILURES: u32 = 3;

/// Seconds that must pass after a renewal attempt before the next one (12 hours).
pub const RENEWAL_COOLDOWN_SECONDS: i64 = 43_200;

/// The instant from which an extension of `u` under `plan` counts: `now` when
/// the plan changes, else the later of `now` and the stored expiry.
pub open spec fn spec_effective_start(u: UserModel, plan: Seq<char>, now: int) -> int {
    if spec_plan_changed(u.plan, plan) {
        now
    } else if u.subscription_end >= now {
        u.subscription_end
    } else {
        now
    }
}

/// The expiry of `u` after an extension by `days` days under `plan` at `now`.
pub open spec fn spec_new_end(u: UserModel, days: int, plan: Seq<char>, now: int) -> int {
    spec_effective_start(u, plan, now) + days * SECONDS_PER_DAY
}

/// The entitlement `u` after an extension by `days` days under `plan` at `now`.
pub open spec fn spec_extended(u: UserModel, days: int, plan: Seq<char>, now: int) -> UserModel {
    UserModel {
        subscription_end: spec_new_end(u, days, plan, now),
        status: Status::Active,
        plan: plan,
        ..u
    }
}

/// The entitlement `u` after a renewal attempt at `now` was recorded.
pub open spec fn spec_attempt_recorded(u: UserModel, success: bool, now: int) -> UserModel {
    if success {
        UserModel { auto_renew_fail_count: 0, auto_renew_last_attempt: Some(now), ..u }
    } else {
        UserModel {
            auto_renew_fail_count: u.auto_renew_fail_count + 1,
            auto_renew_last_attempt: Some(now),
            auto_renew: u.auto_renew && u.auto_renew_fail_count + 1 < MAX_RENEWAL_FAILURES,
            ..u
        }
    }
}

/// Whether auto-renewal can be switched on for `u` with the given settings.
pub open spec fn spec_can_enable(
    u: UserModel,
    plan: Option<Seq<char>>,
    duration: Option<int>,
) -> bool {
    u.payment_method_id.is_some() && plan.is_some() && duration.is_some()
}

/// The entitlement `u` after auto-renewal was switched on with the given settings.
pub open spec fn spec_renewal_enabled(
    u: UserModel,
    plan: Option<Seq<char>>,
    duration: Option<int>,
) -> UserModel {
    UserModel {
        auto_renew: true,
        auto_renew_plan: plan,
        auto_renew_duration: duration,
        auto_renew_fail_count: 0,
        ..u
    }
}

/// The entitlement `u` with auto-renewal switched off.
pub open spec fn spec_renewal_disabled(u: UserModel) -> UserModel {
    UserModel { auto_renew: false, ..u }
}

/// The entitlement `u` after auto-renewal was asked to be switched on or off:
/// unchanged where switching on is refused.
pub open spec fn spec_renewal_toggled(
    u: UserModel,
    enable: bool,
    plan: Option<Seq<char>>,
    duration: Option<int>,
) -> UserModel {
    if !enable {
        spec_renewal_disabled(u)
    } else if spec_can_enable(u, plan, duration) {
        spec_renewal_enabled(u, plan, duration)
    } else {
        u
    }
}

/// The entitlement `u` with its trial flag set to `used`.
pub open spec fn spec_trial_flagged(u: UserModel, used: bool) -> UserModel {
    UserModel { is_used_trial: used, ..u }
}

/// The entitlement `u` with its referral-bonus flag set to `used`.
pub open spec fn spec_bonus_flagged(u: UserModel, used: bool) -> UserModel {
    UserModel { is_used_ref_bonus: used, ..u }
}

/// The entitlement `u` with its tally of paid referrals set to `count`.
pub open spec fn spec_refs_tallied(u: UserModel, count: int) -> UserModel {
    UserModel { payed_refs: count, ..u }
}

/// Whether `end` lies in the window of `horizon_days` days that starts at `now`:
/// not before `now`, and before `now` plus the horizon.
pub open spec fn spec_in_window(end: int, now: int, horizon_days: int) -> bool {
    now <= end < now + horizon_days * SECONDS_PER_DAY
}

/// Whether the renewal of `u` is due at `now` within `horizon_days` days.
pub open spec fn spec_renewal_due(u: UserModel, now: int, horizon_days: int) -> bool {
    &&& u.auto_renew
    &&& u.payment_method_id.is_some()
    &&& (u.status == Status::Active || u.status == Status::Grace)
    &&& spec_in_window(u.subscription_end, now, horizon_days)
    &&& match u.auto_renew_last_attempt {
        None => true,
        Some(last) => now - last >= RENEWAL_COOLDOWN_SECONDS,
    }
}

/// An extension that keeps the plan counts from the later of the stored
/// expiry and `now`, and never moves the expiry back.
pub proof fn lemma_same_plan_extension(u: UserModel, days: int, plan: Seq<char>, now: int)
    requires
        !spec_plan_changed(u.plan, plan),
        days >= 0,
    ensures
        spec_new_end(u, days, plan, now) == (if u.subscription_end >= now {
            u.subscription_end
        } else {
            now
        }) + days * SECONDS_PER_DAY,
        spec_extended(u, days, plan, now).subscription_end >= u.subscription_end,
{
}

/// An extension that changes the plan counts from `now`, whatever the
/// stored expiry is.
pub proof fn lemma_plan_change_extension(u: UserModel, days: int, plan: Seq<char>, now: int)
    requires
        spec_plan_changed(u.plan, plan),
    ensures
        spec_new_end(u, days, plan, now) == now + days * SECONDS_PER_DAY,
        spec_extended(u, days, plan, now).subscription_end == now + days * SECONDS_PER_DAY,
{
}

/// Three failed renewal attempts in a row switch auto-renewal off, whatever
/// the count was before.
pub proof fn lemma_three_failures_switch_off(u: UserModel, first: int, second: int, third: int)
    requires
        u.auto_renew_fail_count >= 0,
    ensures
        !spec_attempt_recorded(
            spec_attempt_recorded(spec_attempt_recorded(u, false, first), false, second),
            false,
            third,
        ).auto_renew,
{
}

/// A successful renewal attempt clears the failure count and leaves
/// auto-renewal as it is, so that two failures after it do not switch
/// auto-renewal off.
pub proof fn lemma_success_resets_failures(u: UserModel, at: int, first: int, second: int)
    ensures
        spec_attempt_recorded(u, true, at).auto_renew_fail_count == 0,
        spec_attempt_recorded(u, true, at).auto_renew == u.auto_renew,
        spec_attempt_recorded(
            spec_attempt_recorded(spec_attempt_recorded(u, true, at), false, first),
            false,
            second,
        ).auto_renew == u.auto_renew,
{
}

/// Tells whether `end` lies in the window of `horizon_days` days that starts at `now`.
pub fn in_window(end: i64, now: i64, horizon_days: i64) -> (r: bool)
    ensures
        r == spec_in_window(end as int, now as int, horizon_days as int),
{
    let day: i128 = SECONDS_PER_DAY as i128;
    assert(day == 86_400);
    let limit: i128 = (now as i128) + (horizon_days as i128) * day;
    now <= end && (end as i128) < limit
}

impl User {
    /// Tells whether the expiry after an extension by `days` days under `plan`
    /// at `now` can be held in an `i64`.
    pub fn extension_fits(&self, days: u32, plan: &String, now: i64) -> (r: bool)
        ensures
            r == (spec_new_end(self@, days as int, plan@, now as int) <= i64::MAX),
    {
        let start: i64 = if plan_changed(&self.plan, plan) {
            now
        } else if self.subscription_end >= now {
            self.subscription_end
        } else {
            now
        };
        (start as i128) + (days as i128) * (SECONDS_PER_DAY as i128) <= (i64::MAX as i128)
    }

    /// Returns the expiry after an extension by `days` days under `plan` at `now`.
    pub fn new_end(&self, days: u32, plan: &String, now: i64) -> (end: i64)
        requires
            spec_new_end(self@, days as int, plan@, now as int) <= i64::MAX,
        ensures
            end == spec_new_end(self@, days as int, plan@, now as int),
    {
        let start: i64 = if plan_changed(&self.plan, plan) {
            now
        } else if self.subscription_end >= now {
            self.subscription_end
        } else {
            now
        };
        let span: i64 = (days as i64) * SECONDS_PER_DAY;
        start + span
    }

    /// Extends the entitlement by `days` days under `plan` at `now`: the expiry
    /// moves, the status becomes active and the plan is stored.
    pub fn apply_extension(&mut self, days: u32, plan: String, now: i64)
        requires
            spec_new_end(old(self)@, days as int, plan@, now as int) <= i64::MAX,
        ensures
            final(self)@ == spec_extended(old(self)@, days as int, plan@, now as int),
    {
        let end = self.new_end(days, &plan, now);
        self.subscription_end = end;
        self.status = Status::Active;
        self.plan = plan;
    }

    /// Stores whether the account has used its trial.
    pub fn set_trial_used(&mut self, used: bool)
        ensures
            final(self)@ == spec_trial_flagged(old(self)@, used),
    {
        self.is_used_trial = used;
    }

    /// Stores whether the account has used its referral bonus.
    pub fn set_ref_bonus_used(&mut self, used: bool)
        ensures
            final(self)@ == spec_bonus_flagged(old(self)@, used),
    {
        self.is_used_ref_bonus = used;
    }

    /// Stores the tally of paid referrals.
    pub fn set_payed_refs(&mut self, count: i64)
        ensures
            final(self)@ == spec_refs_tallied(old(self)@, count as int),
    {
        self.payed_refs = count;
    }

    /// Records the outcome of a renewal attempt made at `now`. A success clears
    /// the failure count; the third failure in a row switches auto-renewal off.
    pub fn record_attempt(&mut self, success: bool, now: i64)
        requires
            success || old(self).auto_renew_fail_count < u32::MAX,
        ensures
            final(self)@ == spec_attempt_recorded(old(self)@, success, now as int),
    {
        self.auto_renew_last_attempt = Some(now);
        if success {
            self.auto_renew_fail_count = 0;
        } else {
            self.auto_renew_fail_count = self.auto_renew_fail_count + 1;
            if self.auto_renew_fail_count >= MAX_RENEWAL_FAILURES {
                self.auto_renew = false;
            }
        }
    }

    /// Switches auto-renewal on or off. Switching on needs a payment method on
    /// file, a plan and a duration, and clears the failure count; switching off
    /// always succeeds and leaves the other settings as they are.
    pub fn toggle_auto_renew(
        &mut self,
        enable: bool,
        plan: Option<String>,
        duration: Option<u32>,
    ) -> (r: Result<(), EngineError>)
        ensures
            r.is_ok() <==> (!enable || spec_can_enable(old(self)@, text_of(plan), days_of(duration))),
            r matches Err(e) ==> e == EngineError::ValidationError,
            final(self)@ == spec_renewal_toggled(
                old(self)@,
                enable,
                text_of(plan),
                days_of(duration),
            ),
    {
        if !enable {
            self.auto_renew = false;
            return Ok(());
        }
        if self.payment_method_id.is_none() || plan.is_none() || duration.is_none() {
            return Err(EngineError::ValidationError);
        }
        self.auto_renew = true;
        self.auto_renew_plan = plan;
        self.auto_renew_duration = duration;
        self.auto_renew_fail_count = 0;
        Ok(())
    }

    /// Tells whether the renewal of this entitlement is due at `now` within
    /// `horizon_days` days.
    pub fn is_renewal_due(&self, now: i64, horizon_days: i64) -> (r: bool)
        ensures
            r == spec_renewal_due(self@, now as int, horizon_days as int),
    {
        let cooled = match self.auto_renew_last_attempt {
            None => true,
            Some(last) => (now as i128) - (last as i128) >= (RENEWAL_COOLDOWN_SECONDS as i128),
        };
        let live = match self.status {
            Status::Inactive => false,
            Status::Active => true,
            Status::Grace => true,
        };
        self.auto_renew && self.payment_method_id.is_some() && live && in_window(
            self.subscription_end,
            now,
            horizon_days,
        ) && cooled
    }
}

} // verus!
