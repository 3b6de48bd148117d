use vstd::prelude::*;
use vstd::string::StringExecFns;
use crate::decimal::{decimal, spec_decimal};
use crate::error::EngineError;
use crate::models::{int_of, text_of, NewUser, Status, User, UserModel};
use crate::plan::BASE_DEVICE_LIMIT;
use crate::provisioning::{json_text, json_text_at, key_of_text, parse_key};
use crate::referral::spec_listed;
use crate::registry::{spec_contains, Registry};

verus! {

/// What the provisioning service returned for a newly created account.
#[derive(Debug)]
pub struct Created {
    /// The key under which the service knows the account.
    pub uuid: u128,
    /// The link under which the account fetches its configuration.
    pub sub_link: String,
}

/// What the provisioning service is asked to create at registration: a
/// disabled account without traffic that expires at once.
#[derive(Debug)]
pub struct CreateRequest {
    pub username: String,
    pub telegram_id: i64,
    pub traffic_limit_bytes: u64,
    pub device_limit: u32,
    pub expire_at: i64,
    pub created_at: i64,
}

/// The name under which an account is known when it gave none: `user_`
/// followed by its number.
pub open spec fn spec_default_username(id: int) -> Seq<char> {
    "user_"@ + spec_decimal(id)
}

/// The name under which the account `id` is registered.
pub open spec fn spec_username(id: int, given: Option<Seq<char>>) -> Seq<char> {
    match given {
        Some(name) => name,
        None => spec_default_username(id),
    }
}

/// The plan under which an account is registered.
pub open spec fn spec_initial_plan(given: Option<Seq<char>>) -> Seq<char> {
    match given {
        Some(plan) => plan,
        None => "free"@,
    }
}

/// The row of a newly registered account: inactive, expiring at `now`, with
/// nothing used and auto-renewal off.
pub open spec fn spec_new_row(
    id: int,
    referral_id: Option<int>,
    username: Option<Seq<char>>,
    uuid: int,
    sub_link: Seq<char>,
    plan: Option<Seq<char>>,
    now: int,
) -> UserModel {
    UserModel {
        telegram_id: id,
        uuid: uuid,
        subscription_end: now,
        status: Status::Inactive,
        created_at: now,
        plan: spec_initial_plan(plan),
        device_limit: BASE_DEVICE_LIMIT as int,
        referral_id: referral_id,
        referrals: Seq::<int>::empty(),
        is_used_trial: false,
        is_used_ref_bonus: false,
        payed_refs: 0,
        username: Some(spec_username(id, username)),
        sub_link: sub_link,
        auto_renew: false,
        payment_method_id: None,
        auto_renew_plan: None,
        auto_renew_duration: None,
        auto_renew_last_attempt: None,
        auto_renew_fail_count: 0,
        is_pro: false,
    }
}

/// The rows after `row` was added and, where it names a parent, listed among
/// the referrals of that parent.
pub open spec fn spec_registered(rows: Seq<UserModel>, row: UserModel) -> Seq<UserModel> {
    match row.referral_id {
        Some(parent) => rows.push(row).map_values(
            |u: UserModel| spec_listed(u, parent, row.telegram_id),
        ),
        None => rows.push(row),
    }
}

/// Returns the name under which the account `telegram_id` is registered: the
/// given one, or `user_` followed by the account's number.
pub fn username_for(telegram_id: i64, given: &Option<String>) -> (r: String)
    ensures
        r@ == spec_username(telegram_id as int, text_of(*given)),
{
    match given {
        Some(name) => name.clone(),
        None => {
            let mut name = String::from_str("user_");
            let number = decimal(telegram_id);
            name.append(number.as_str());
            name
        },
    }
}

/// Reads the two answers of the provisioning service to a creation: both the
/// key and the link must be there, else the creation counts as failed.
pub fn created_from(key: Option<u128>, link: Option<String>) -> (r: Result<Created, EngineError>)
    ensures
        r.is_ok() <==> key.is_some() && link.is_some(),
        r matches Err(e) ==> e == EngineError::UpstreamError,
        r matches Ok(c) ==> Some(c.uuid) == key && Some(c.sub_link@) == text_of(link),
{
    match key {
        None => Err(EngineError::UpstreamError),
        Some(uuid) => match link {
            None => Err(EngineError::UpstreamError),
            Some(sub_link) => Ok(Created { uuid, sub_link }),
        },
    }
}

/// The key that the reply `body` of the provisioning service names: the UUID
/// spelled by the string under `response.uuid`.
pub open spec fn spec_reply_key(body: Seq<char>) -> Option<u128> {
    match json_text(body, "response"@, "uuid"@) {
        Some(text) => key_of_text(text),
        None => None,
    }
}

/// The link that the reply `body` of the provisioning service names: the
/// string under `response.subscriptionUrl`.
pub open spec fn spec_reply_link(body: Seq<char>) -> Option<Seq<char>> {
    json_text(body, "response"@, "subscriptionUrl"@)
}

/// Reads the reply of the provisioning service to a creation. A reply that
/// is no JSON document, or that lacks the key or the link, counts as a
/// failure of the service.
pub fn read_created(body: &str) -> (r: Result<Created, EngineError>)
    ensures
        r.is_ok() <==> spec_reply_key(body@).is_some() && spec_reply_link(body@).is_some(),
        r matches Err(e) ==> e == EngineError::UpstreamError,
        r matches Ok(c) ==> Some(c.uuid) == spec_reply_key(body@) && Some(c.sub_link@)
            == spec_reply_link(body@),
{
    let key = match json_text_at(body, "response", "uuid") {
        Some(text) => parse_key(text.as_str()),
        None => None,
    };
    let link = json_text_at(body, "response", "subscriptionUrl");
    created_from(key, link)
}

impl User {
    /// Builds the row of a newly registered account.
    pub fn registered(data: NewUser, created: Created, plan: Option<String>, now: i64) -> (r: User)
        ensures
            r@ == spec_new_row(
                data.telegram_id as int,
                int_of(data.referral_id),
                text_of(data.username),
                created.uuid as int,
                created.sub_link@,
                text_of(plan),
                now as int,
            ),
    {
        let username = username_for(data.telegram_id, &data.username);
        let plan = match plan {
            Some(tag) => tag,
            None => String::from_str("free"),
        };
        let r = User {
            telegram_id: data.telegram_id,
            uuid: created.uuid,
            subscription_end: now,
            status: Status::Inactive,
            created_at: now,
            plan,
            device_limit: BASE_DEVICE_LIMIT,
            referral_id: data.referral_id,
            referrals: Vec::new(),
            is_used_trial: false,
            is_used_ref_bonus: false,
            payed_refs: 0,
            username: Some(username),
            sub_link: created.sub_link,
            auto_renew: false,
            payment_method_id: None,
            auto_renew_plan: None,
            auto_renew_duration: None,
            auto_renew_last_attempt: None,
            auto_renew_fail_count: 0,
            is_pro: false,
        };
        assert(r@.referrals =~= Seq::<int>::empty());
        r
    }
}

impl Registry {
    /// Prepares the registration of an account at `now`: returns what the
    /// provisioning service is asked to create, or `Conflict` where the
    /// account is registered already.
    pub fn plan_registration(&self, data: &NewUser, now: i64) -> (r: Result<
        CreateRequest,
        EngineError,
    >)
        ensures
            r.is_ok() <==> !spec_contains(self@, data.telegram_id as int),
            r matches Err(e) ==> e == EngineError::Conflict,
            r matches Ok(c) ==> {
                &&& c.username@ == spec_username(data.telegram_id as int, text_of(data.username))
                &&& c.telegram_id == data.telegram_id
                &&& c.traffic_limit_bytes == 0
                &&& c.device_limit == BASE_DEVICE_LIMIT
                &&& c.expire_at == now
                &&& c.created_at == now
            },
    {
        if self.find(data.telegram_id).is_some() {
            return Err(EngineError::Conflict);
        }
        Ok(
            CreateRequest {
                username: username_for(data.telegram_id, &data.username),
                telegram_id: data.telegram_id,
                traffic_limit_bytes: 0,
                device_limit: BASE_DEVICE_LIMIT,
                expire_at: now,
                created_at: now,
            },
        )
    }

    /// Stores a newly created account: inactive and expiring at `now`. Where
    /// the account names a parent that is registered, the parent's referrals
    /// get the account. An account that is registered already is refused
    /// with `Conflict`, and nothing is changed.
    pub fn register(&mut self, data: NewUser, created: Created, plan: Option<String>, now: i64) -> (r:
        Result<(), EngineError>)
        requires
            old(self).wf(),
        ensures
            final(self).wf(),
            r.is_ok() <==> !spec_contains(old(self)@, data.telegram_id as int),
            r matches Err(e) ==> e == EngineError::Conflict && final(self)@ == old(self)@,
            r.is_ok() ==> final(self)@ == spec_registered(
                old(self)@,
                spec_new_row(
                    data.telegram_id as int,
                    int_of(data.referral_id),
                    text_of(data.username),
                    created.uuid as int,
                    created.sub_link@,
                    text_of(plan),
                    now as int,
                ),
            ),
    {
        let id = data.telegram_id;
        let parent = data.referral_id;
        if self.find(id).is_some() {
            return Err(EngineError::Conflict);
        }
        let row = User::registered(data, created, plan, now);
        let ghost wanted = spec_registered(old(self)@, row@);
        self.entries.push(row);
        assert(self@ =~= old(self)@.push(row@));
        if let Some(p) = parent {
            if let Some(i) = self.find(p) {
                let ghost before = self@;
                self.entries[i].referrals.push(id);
                assert(self@[i as int].referrals =~= before[i as int].referrals.push(id as int));
                assert(self@ =~= wanted);
            } else {
                assert(self@ =~= wanted);
            }
        }
        Ok(())
    }
}

} // verus!
