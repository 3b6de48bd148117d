use vstd::prelude::*;

verus! {

/// Where an entitlement stands in its lifecycle.
#[derive(Debug, Clone, Copy, PartialEq, Eq, Structural)]
pub enum Status {
    /// No access is granted.
    Inactive,
    /// Access is granted.
    Active,
    /// Access is still granted, but expiry is imminent or has passed.
    Grace,
}

impl Status {
    /// The number under which the status is stored.
    pub open spec fn spec_code(self) -> int {
        match self {
            Status::Inactive => 0,
            Status::Active => 1,
            Status::Grace => 2,
        }
    }

    /// Returns the number under which the status is stored.
    pub fn code(self) -> (c: i32)
        ensures
            c == self.spec_code(),
    {
        match self {
            Status::Inactive => 0,
            Status::Active => 1,
            Status::Grace => 2,
        }
    }

    /// Reads a stored status number; numbers other than 0, 1 and 2 name no status.
    pub fn from_code(code: i32) -> (s: Option<Status>)
        ensures
            (0 <= code <= 2) <==> s.is_some(),
            s matches Some(st) ==> st.spec_code() == code,
    {
        if code == 0 {
            Some(Status::Inactive)
        } else if code == 1 {
            Some(Status::Active)
        } else if code == 2 {
            Some(Status::Grace)
        } else {
            None
        }
    }
}

/// The mathematical content of a [`User`].
pub struct UserModel {
    pub telegram_id: int,
    pub uuid: int,
    pub subscription_end: int,
    pub status: Status,
    pub created_at: int,
    pub plan: Seq<char>,
    pub device_limit: int,
    pub referral_id: Option<int>,
    pub referrals: Seq<int>,
    pub is_used_trial: bool,
    pub is_used_ref_bonus: bool,
    pub payed_refs: int,
    pub username: Option<Seq<char>>,
    pub sub_link: Seq<char>,
    pub auto_renew: bool,
    pub payment_method_id: Option<Seq<char>>,
    pub auto_renew_plan: Option<Seq<char>>,
    pub auto_renew_duration: Option<int>,
    pub auto_renew_last_attempt: Option<int>,
    pub auto_renew_fail_count: int,
    pub is_pro: bool,
}

/// The entitlement of one account: its status, plan and expiry, its place in
/// the referral forest and its auto-renewal settings. Instants are seconds
/// since the Unix epoch.
#[derive(Debug)]
pub struct User {
    pub telegram_id: i64,
    /// The key under which the provisioning service knows the account.
    pub uuid: u128,
    pub subscription_end: i64,
    pub status: Status,
    pub created_at: i64,
    pub plan: String,
    pub device_limit: u32,
    pub referral_id: Option<i64>,
    pub referrals: Vec<i64>,
    pub is_used_trial: bool,
    pub is_used_ref_bonus: bool,
    pub payed_refs: i64,
    pub username: Option<String>,
    pub sub_link: String,
    pub auto_renew: bool,
    pub payment_method_id: Option<String>,
    pub auto_renew_plan: Option<String>,
    pub auto_renew_duration: Option<u32>,
    pub auto_renew_last_attempt: Option<i64>,
    pub auto_renew_fail_count: u32,
    pub is_pro: bool,
}

/// The characters of an optional string.
pub open spec fn text_of(s: Option<String>) -> Option<Seq<char>> {
    match s {
        Some(t) => Some(t@),
        None => None,
    }
}

/// An optional machine integer as a mathematical one.
pub open spec fn int_of(v: Option<i64>) -> Option<int> {
    match v {
        Some(n) => Some(n as int),
        None => None,
    }
}

/// An optional duration as a mathematical integer.
pub open spec fn days_of(v: Option<u32>) -> Option<int> {
    match v {
        Some(n) => Some(n as int),
        None => None,
    }
}

impl View for User {
    type V = UserModel;

    open spec fn view(&self) -> UserModel {
        UserModel {
            telegram_id: self.telegram_id as int,
            uuid: self.uuid as int,
            subscription_end: self.subscription_end as int,
            status: self.status,
            created_at: self.created_at as int,
            plan: self.plan@,
            device_limit: self.device_limit as int,
            referral_id: int_of(self.referral_id),
            referrals: self.referrals@.map_values(|c: i64| c as int),
            is_used_trial: self.is_used_trial,
            is_used_ref_bonus: self.is_used_ref_bonus,
            payed_refs: self.payed_refs as int,
            username: text_of(self.username),
            sub_link: self.sub_link@,
            auto_renew: self.auto_renew,
            payment_method_id: text_of(self.payment_method_id),
            auto_renew_plan: text_of(self.auto_renew_plan),
            auto_renew_duration: days_of(self.auto_renew_duration),
            auto_renew_last_attempt: int_of(self.auto_renew_last_attempt),
            auto_renew_fail_count: self.auto_renew_fail_count as int,
            is_pro: self.is_pro,
        }
    }
}

/// What a caller supplies to register an account.
#[derive(Debug)]
pub struct NewUser {
    pub telegram_id: i64,
    pub referral_id: Option<i64>,
    pub username: Option<String>,
}

/// A request to record that one account invited another.
#[derive(Debug, Clone, Copy, PartialEq, Eq, Structural)]
pub struct AddReferralData {
    /// The inviting account.
    pub referral_id: i64,
    /// The invited account.
    pub referred_telegram_id: i64,
}

/// A request to extend an entitlement by whole days under a plan.
#[derive(Debug)]
pub struct ExtendSubscriptionRequest {
    pub days: u32,
    pub plan: String,
}

/// One account that a sweep has moved, as it is reported to the caller.
#[derive(Debug)]
pub struct ExpiringUser {
    pub telegram_id: i64,
    pub subscription_end: i64,
    pub username: Option<String>,
    pub plan: String,
}

/// The mathematical content of an [`ExpiringUser`].
pub struct ExpiringUserModel {
    pub telegram_id: int,
    pub subscription_end: int,
    pub username: Option<Seq<char>>,
    pub plan: Seq<char>,
}

impl View for ExpiringUser {
    type V = ExpiringUserModel;

    open spec fn view(&self) -> ExpiringUserModel {
        ExpiringUserModel {
            telegram_id: self.telegram_id as int,
            subscription_end: self.subscription_end as int,
            username: text_of(self.username),
            plan: self.plan@,
        }
    }
}

/// How a sweep reports the entitlement `u`.
pub open spec fn report_of(u: UserModel) -> ExpiringUserModel {
    ExpiringUserModel {
        telegram_id: u.telegram_id,
        subscription_end: u.subscription_end,
        username: u.username,
        plan: u.plan,
    }
}

} // verus!
