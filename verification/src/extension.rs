use vstd::prelude::*;
use crate::entitlement::{spec_extended, spec_new_end};
use crate::error::EngineError;
use crate::models::{ExtendSubscriptionRequest, User, UserModel};
use crate::plan::{device_limit, spec_device_limit, spec_traffic_limit, traffic_limit};
use crate::provisioning::{format_instant, instant_text};
use crate::registry::{lemma_row_at, spec_contains, spec_row, spec_update_where, Registry};

verus! {

/// The strftime pattern under which an expiry is handed to the provisioning
/// service: date and time with milliseconds, marked as UTC.
pub open spec fn expiry_pattern() -> Seq<char> {
    "%Y-%m-%dT%H:%M:%S%.3fZ"@
}

/// What the provisioning service is asked to set when an entitlement is
/// extended: the account becomes active with the limits of its plan until
/// `expire_at`.
#[derive(Debug)]
pub struct UpdateRequest {
    pub uuid: u128,
    pub telegram_id: i64,
    pub traffic_limit_bytes: u64,
    pub device_limit: u32,
    /// The new expiry in seconds since the Unix epoch.
    pub expire_at: i64,
    /// The new expiry as the service reads it.
    pub expire_at_text: String,
}

/// The mathematical content of an [`UpdateRequest`].
pub struct UpdateRequestModel {
    pub uuid: int,
    pub telegram_id: int,
    pub traffic_limit_bytes: int,
    pub device_limit: int,
    pub expire_at: int,
    pub expire_at_text: Seq<char>,
}

impl View for UpdateRequest {
    type V = UpdateRequestModel;

    open spec fn view(&self) -> UpdateRequestModel {
        UpdateRequestModel {
            uuid: self.uuid as int,
            telegram_id: self.telegram_id as int,
            traffic_limit_bytes: self.traffic_limit_bytes as int,
            device_limit: self.device_limit as int,
            expire_at: self.expire_at as int,
            expire_at_text: self.expire_at_text@,
        }
    }
}

/// The request that extends `u` by `days` days under `plan` at `now`, with
/// the expiry spelled as `text`.
pub open spec fn spec_update_request(
    u: UserModel,
    days: int,
    plan: Seq<char>,
    now: int,
    text: Seq<char>,
) -> UpdateRequestModel {
    UpdateRequestModel {
        uuid: u.uuid,
        telegram_id: u.telegram_id,
        traffic_limit_bytes: spec_traffic_limit(plan),
        device_limit: spec_device_limit(plan),
        expire_at: spec_new_end(u, days, plan, now),
        expire_at_text: text,
    }
}

/// What an extension of the account `id` by `days` days under `plan` at `now`
/// answers, where `remote_ok` tells whether the provisioning service accepted
/// the update: the new expiry, or the reason why nothing was changed.
pub open spec fn spec_extension_result(
    rows: Seq<UserModel>,
    id: int,
    days: int,
    plan: Seq<char>,
    now: int,
    remote_ok: bool,
) -> Result<int, EngineError> {
    if !spec_contains(rows, id) {
        Err(EngineError::NotFound)
    } else if spec_new_end(spec_row(rows, id), days, plan, now) > i64::MAX {
        Err(EngineError::ValidationError)
    } else if !remote_ok {
        Err(EngineError::UpstreamError)
    } else {
        Ok(spec_new_end(spec_row(rows, id), days, plan, now))
    }
}

/// The rows after the account `id` was extended by `days` days under `plan`
/// at `now`.
pub open spec fn spec_extension_stored(
    rows: Seq<UserModel>,
    id: int,
    days: int,
    plan: Seq<char>,
    now: int,
) -> Seq<UserModel> {
    spec_update_where(rows, id, |u: UserModel| spec_extended(u, days, plan, now))
}

/// What the preparation of an extension answers, where `text` is the new
/// expiry as chrono spells it, if it can: the request for the provisioning
/// service, or the reason why there is none.
pub open spec fn spec_planned_extension(
    rows: Seq<UserModel>,
    id: int,
    days: int,
    plan: Seq<char>,
    now: int,
    text: Option<Seq<char>>,
) -> Result<UpdateRequestModel, EngineError> {
    match spec_extension_result(rows, id, days, plan, now, true) {
        Err(e) => Err(e),
        Ok(_) => match text {
            None => Err(EngineError::ValidationError),
            Some(t) => Ok(spec_update_request(spec_row(rows, id), days, plan, now, t)),
        },
    }
}

impl User {
    /// Builds the request that extends this entitlement by `days` days under
    /// `plan` at `now`, with the new expiry spelled as `text`.
    pub fn update_request(&self, days: u32, plan: &String, now: i64, text: String) -> (r:
        UpdateRequest)
        requires
            spec_new_end(self@, days as int, plan@, now as int) <= i64::MAX,
        ensures
            r@ == spec_update_request(self@, days as int, plan@, now as int, text@),
    {
        UpdateRequest {
            uuid: self.uuid,
            telegram_id: self.telegram_id,
            traffic_limit_bytes: traffic_limit(plan),
            device_limit: device_limit(plan),
            expire_at: self.new_end(days, plan, now),
            expire_at_text: text,
        }
    }
}

impl Registry {
    /// Prepares the extension of the account `telegram_id` at `now`: returns
    /// the request to put to the provisioning service before anything is
    /// stored. The account must exist (`NotFound`), and the new expiry must
    /// fit an `i64` and be an instant that chrono can spell
    /// (`ValidationError`).
    pub fn plan_extension(
        &self,
        telegram_id: i64,
        request: &ExtendSubscriptionRequest,
        now: i64,
    ) -> (r: Result<UpdateRequest, EngineError>)
        requires
            self.wf(),
        ensures
            match spec_planned_extension(
                self@,
                telegram_id as int,
                request.days as int,
                request.plan@,
                now as int,
                instant_text(
                    spec_new_end(
                        spec_row(self@, telegram_id as int),
                        request.days as int,
                        request.plan@,
                        now as int,
                    ),
                    expiry_pattern(),
                ),
            ) {
                Ok(wanted) => r matches Ok(got) && got@ == wanted,
                Err(e) => r == Err::<UpdateRequest, EngineError>(e),
            },
    {
        let i = match self.find(telegram_id) {
            None => {
                return Err(EngineError::NotFound);
            },
            Some(i) => i,
        };
        proof {
            lemma_row_at(self@, i as int);
        }
        let user = &self.entries[i];
        if !user.extension_fits(request.days, &request.plan, now) {
            return Err(EngineError::ValidationError);
        }
        let end = user.new_end(request.days, &request.plan, now);
        match format_instant(end, "%Y-%m-%dT%H:%M:%S%.3fZ") {
            None => Err(EngineError::ValidationError),
            Some(text) => Ok(user.update_request(request.days, &request.plan, now, text)),
        }
    }

    /// Stores the extension of the account `telegram_id` at `now`, once the
    /// provisioning service has answered: `remote_ok` tells whether it
    /// accepted the update. Returns the new expiry. Where the service refused,
    /// nothing is changed and `UpstreamError` is returned.
    pub fn commit_extension(
        &mut self,
        telegram_id: i64,
        request: ExtendSubscriptionRequest,
        now: i64,
        remote_ok: bool,
    ) -> (r: Result<i64, EngineError>)
        requires
            old(self).wf(),
        ensures
            final(self).wf(),
            match spec_extension_result(
                old(self)@,
                telegram_id as int,
                request.days as int,
                request.plan@,
                now as int,
                remote_ok,
            ) {
                Ok(end) => r matches Ok(got) && got == end && final(self)@ == spec_extension_stored(
                    old(self)@,
                    telegram_id as int,
                    request.days as int,
                    request.plan@,
                    now as int,
                ),
                Err(e) => r == Err::<i64, EngineError>(e) && final(self)@ == old(self)@,
            },
    {
        let i = match self.find(telegram_id) {
            None => {
                return Err(EngineError::NotFound);
            },
            Some(i) => i,
        };
        proof {
            lemma_row_at(self@, i as int);
        }
        if !self.entries[i].extension_fits(request.days, &request.plan, now) {
            return Err(EngineError::ValidationError);
        }
        if !remote_ok {
            return Err(EngineError::UpstreamError);
        }
        let ghost wanted = spec_extension_stored(
            old(self)@,
            telegram_id as int,
            request.days as int,
            request.plan@,
            now as int,
        );
        self.entries[i].apply_extension(request.days, request.plan, now);
        assert(self@ =~= wanted);
        Ok(self.entries[i].subscription_end)
    }
}

} // verus!
