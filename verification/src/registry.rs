use vstd::prelude::*;
use crate::error::EngineError;
use crate::entitlement::{
    spec_attempt_recorded, spec_bonus_flagged, spec_can_enable, spec_refs_tallied,
    spec_renewal_toggled, spec_trial_flagged,
};
use crate::models::{days_of, text_of, User, UserModel};

verus! {

/// The entitlements of all accounts, one row per account, in the order in
/// which the accounts were registered.
pub struct Registry {
    pub entries: Vec<User>,
}

/// Whether some row of `rows` belongs to the account `id`.
pub open spec fn spec_contains(rows: Seq<UserModel>, id: int) -> bool {
    exists|i: int| 0 <= i < rows.len() && #[trigger] rows[i].telegram_id == id
}

/// Whether no two rows of `rows` belong to the same account.
pub open spec fn spec_distinct(rows: Seq<UserModel>) -> bool {
    forall|i: int, j: int|
        0 <= i < rows.len() && 0 <= j < rows.len() && i != j
            ==> #[trigger] rows[i].telegram_id != #[trigger] rows[j].telegram_id
}

/// The rows `rows` after the row of the account `id`, if there is one, was
/// replaced by what `change` makes of it.
pub open spec fn spec_update_where(
    rows: Seq<UserModel>,
    id: int,
    change: spec_fn(UserModel) -> UserModel,
) -> Seq<UserModel> {
    rows.map_values(|u: UserModel| if u.telegram_id == id { change(u) } else { u })
}

/// The row of the account `id` in `rows`; arbitrary where the account has none.
pub open spec fn spec_row(rows: Seq<UserModel>, id: int) -> UserModel {
    let i = choose|i: int| 0 <= i < rows.len() && #[trigger] rows[i].telegram_id == id;
    rows[i]
}

/// The rows after the trial flag of the account `id` was set to `used`.
pub open spec fn spec_trial_set(rows: Seq<UserModel>, id: int, used: bool) -> Seq<UserModel> {
    spec_update_where(rows, id, |u: UserModel| spec_trial_flagged(u, used))
}

/// The rows after the referral-bonus flag of the account `id` was set to `used`.
pub open spec fn spec_bonus_set(rows: Seq<UserModel>, id: int, used: bool) -> Seq<UserModel> {
    spec_update_where(rows, id, |u: UserModel| spec_bonus_flagged(u, used))
}

/// The rows after the tally of paid referrals of the account `id` was set to `count`.
pub open spec fn spec_refs_set(rows: Seq<UserModel>, id: int, count: int) -> Seq<UserModel> {
    spec_update_where(rows, id, |u: UserModel| spec_refs_tallied(u, count))
}

/// Whether one more failed renewal attempt of the account `id` fits its counter.
pub open spec fn spec_failure_countable(rows: Seq<UserModel>, id: int) -> bool {
    forall|i: int|
        0 <= i < rows.len() && (#[trigger] rows[i]).telegram_id == id
            ==> rows[i].auto_renew_fail_count < u32::MAX
}

/// The rows after a renewal attempt of the account `id` at `now` was recorded.
pub open spec fn spec_attempt_stored(
    rows: Seq<UserModel>,
    id: int,
    success: bool,
    now: int,
) -> Seq<UserModel> {
    spec_update_where(rows, id, |u: UserModel| spec_attempt_recorded(u, success, now))
}

/// The rows after auto-renewal of the account `id` was asked to be switched.
pub open spec fn spec_renewal_switched(
    rows: Seq<UserModel>,
    id: int,
    enable: bool,
    plan: Option<Seq<char>>,
    duration: Option<int>,
) -> Seq<UserModel> {
    spec_update_where(rows, id, |u: UserModel| spec_renewal_toggled(u, enable, plan, duration))
}

/// What a request to switch auto-renewal of the account `id` answers.
pub open spec fn spec_toggle_result(
    rows: Seq<UserModel>,
    id: int,
    enable: bool,
    plan: Option<Seq<char>>,
    duration: Option<int>,
) -> Result<(), EngineError> {
    if !spec_contains(rows, id) {
        Err(EngineError::NotFound)
    } else if enable && !spec_can_enable(spec_row(rows, id), plan, duration) {
        Err(EngineError::ValidationError)
    } else {
        Ok(())
    }
}

/// With one row per account, the row of an account is the one found at its position.
pub proof fn lemma_row_at(rows: Seq<UserModel>, i: int)
    requires
        spec_distinct(rows),
        0 <= i < rows.len(),
    ensures
        spec_row(rows, rows[i].telegram_id) == rows[i],
{
    let id = rows[i].telegram_id;
    let j = choose|j: int| 0 <= j < rows.len() && #[trigger] rows[j].telegram_id == id;
    assert(j == i);
}

impl View for Registry {
    type V = Seq<UserModel>;

    open spec fn view(&self) -> Seq<UserModel> {
        self.entries@.map_values(|u: User| u@)
    }
}

impl Registry {
    /// Holds when every account has at most one row.
    pub open spec fn wf(&self) -> bool {
        spec_distinct(self@)
    }

    /// Creates a registry without rows.
    pub fn new() -> (r: Registry)
        ensures
            r@ == Seq::<UserModel>::empty(),
            r.wf(),
    {
        let r = Registry { entries: Vec::new() };
        assert(r@ =~= Seq::<UserModel>::empty());
        r
    }

    /// Tells whether no two of `entries` belong to the same account.
    pub fn distinct(entries: &Vec<User>) -> (r: bool)
        ensures
            r == spec_distinct(entries@.map_values(|u: User| u@)),
    {
        let ghost rows = entries@.map_values(|u: User| u@);
        let mut i: usize = 0;
        while i < entries.len()
            invariant
                i <= entries.len(),
                rows == entries@.map_values(|u: User| u@),
                forall|a: int, b: int|
                    0 <= a < i && 0 <= b < a ==> #[trigger] rows[a].telegram_id
                        != #[trigger] rows[b].telegram_id,
            decreases entries.len() - i,
        {
            let mut j: usize = 0;
            while j < i
                invariant
                    j <= i < entries.len(),
                    rows == entries@.map_values(|u: User| u@),
                    forall|b: int|
                        0 <= b < j ==> rows[i as int].telegram_id != (#[trigger] rows[b]).telegram_id,
                decreases i - j,
            {
                if entries[i].telegram_id == entries[j].telegram_id {
                    assert(rows[i as int].telegram_id == rows[j as int].telegram_id);
                    return false;
                }
                j = j + 1;
            }
            i = i + 1;
        }
        assert forall|a: int, b: int|
            0 <= a < rows.len() && 0 <= b < rows.len() && a != b implies #[trigger] rows[a].telegram_id
            != #[trigger] rows[b].telegram_id by {
            if b < a {
                assert(rows[a].telegram_id != rows[b].telegram_id);
            } else {
                assert(rows[b].telegram_id != rows[a].telegram_id);
            }
        }
        true
    }

    /// Makes a registry of `entries`, provided that no two of them belong to
    /// the same account.
    pub fn from_rows(entries: Vec<User>) -> (r: Option<Registry>)
        ensures
            r.is_some() <==> spec_distinct(entries@.map_values(|u: User| u@)),
            r matches Some(reg) ==> reg.wf() && reg.entries == entries,
    {
        if Registry::distinct(&entries) {
            Some(Registry { entries })
        } else {
            None
        }
    }

    /// Returns the position of the first row of `telegram_id`, if there is one.
    pub fn find(&self, telegram_id: i64) -> (r: Option<usize>)
        ensures
            r.is_some() <==> spec_contains(self@, telegram_id as int),
            r matches Some(i) ==> i < self@.len() && self@[i as int].telegram_id == telegram_id,
            r matches Some(i) ==> forall|k: int|
                0 <= k < i ==> (#[trigger] self@[k]).telegram_id != telegram_id,
    {
        let mut i: usize = 0;
        while i < self.entries.len()
            invariant
                i <= self.entries.len(),
                forall|k: int| 0 <= k < i ==> (#[trigger] self@[k]).telegram_id != telegram_id,
            decreases self.entries.len() - i,
        {
            if self.entries[i].telegram_id == telegram_id {
                assert(self@[i as int].telegram_id == telegram_id);
                return Some(i);
            }
            i = i + 1;
        }
        None
    }

    /// Stores whether the account has used its trial.
    pub fn set_trial_used(&mut self, telegram_id: i64, used: bool) -> (r: Result<(), EngineError>)
        requires
            old(self).wf(),
        ensures
            final(self).wf(),
            r.is_ok() <==> spec_contains(old(self)@, telegram_id as int),
            r matches Err(e) ==> e == EngineError::NotFound,
            final(self)@ == spec_trial_set(old(self)@, telegram_id as int, used),
    {
        match self.find(telegram_id) {
            None => {
                assert(self@ =~= spec_trial_set(old(self)@, telegram_id as int, used));
                Err(EngineError::NotFound)
            },
            Some(i) => {
                self.entries[i].set_trial_used(used);
                assert(self@ =~= spec_trial_set(old(self)@, telegram_id as int, used));
                Ok(())
            },
        }
    }

    /// Stores whether the account has used its referral bonus.
    pub fn set_ref_bonus_used(&mut self, telegram_id: i64, used: bool) -> (r: Result<
        (),
        EngineError,
    >)
        requires
            old(self).wf(),
        ensures
            final(self).wf(),
            r.is_ok() <==> spec_contains(old(self)@, telegram_id as int),
            r matches Err(e) ==> e == EngineError::NotFound,
            final(self)@ == spec_bonus_set(old(self)@, telegram_id as int, used),
    {
        match self.find(telegram_id) {
            None => {
                assert(self@ =~= spec_bonus_set(old(self)@, telegram_id as int, used));
                Err(EngineError::NotFound)
            },
            Some(i) => {
                self.entries[i].set_ref_bonus_used(used);
                assert(self@ =~= spec_bonus_set(old(self)@, telegram_id as int, used));
                Ok(())
            },
        }
    }

    /// Stores the account's tally of paid referrals. The tally is kept by the
    /// caller and is independent of the referral edges.
    pub fn set_payed_refs(&mut self, telegram_id: i64, count: i64) -> (r: Result<(), EngineError>)
        requires
            old(self).wf(),
        ensures
            final(self).wf(),
            r.is_ok() <==> spec_contains(old(self)@, telegram_id as int),
            r matches Err(e) ==> e == EngineError::NotFound,
            final(self)@ == spec_refs_set(old(self)@, telegram_id as int, count as int),
    {
        match self.find(telegram_id) {
            None => {
                assert(self@ =~= spec_refs_set(old(self)@, telegram_id as int, count as int));
                Err(EngineError::NotFound)
            },
            Some(i) => {
                self.entries[i].set_payed_refs(count);
                assert(self@ =~= spec_refs_set(old(self)@, telegram_id as int, count as int));
                Ok(())
            },
        }
    }

    /// Tells whether a failed renewal attempt can still be counted for the account.
    pub fn can_count_failure(&self, telegram_id: i64) -> (r: bool)
        requires
            self.wf(),
        ensures
            r == spec_failure_countable(self@, telegram_id as int),
    {
        match self.find(telegram_id) {
            None => true,
            Some(i) => self.entries[i].auto_renew_fail_count < u32::MAX,
        }
    }

    /// Records the outcome of a renewal attempt that was made for the account
    /// at `now`.
    pub fn record_attempt(&mut self, telegram_id: i64, success: bool, now: i64) -> (r: Result<
        (),
        EngineError,
    >)
        requires
            old(self).wf(),
            success || spec_failure_countable(old(self)@, telegram_id as int),
        ensures
            final(self).wf(),
            r.is_ok() <==> spec_contains(old(self)@, telegram_id as int),
            r matches Err(e) ==> e == EngineError::NotFound,
            final(self)@ == spec_attempt_stored(old(self)@, telegram_id as int, success, now as int),
    {
        match self.find(telegram_id) {
            None => {
                assert(self@ =~= spec_attempt_stored(
                    old(self)@,
                    telegram_id as int,
                    success,
                    now as int,
                ));
                Err(EngineError::NotFound)
            },
            Some(i) => {
                self.entries[i].record_attempt(success, now);
                assert(self@ =~= spec_attempt_stored(
                    old(self)@,
                    telegram_id as int,
                    success,
                    now as int,
                ));
                Ok(())
            },
        }
    }

    /// Switches the account's auto-renewal on or off. Switching on is refused
    /// with `ValidationError` unless a payment method is on file and both a plan
    /// and a duration are given.
    pub fn toggle_auto_renew(
        &mut self,
        telegram_id: i64,
        enable: bool,
        plan: Option<String>,
        duration: Option<u32>,
    ) -> (r: Result<(), EngineError>)
        requires
            old(self).wf(),
        ensures
            final(self).wf(),
            r == spec_toggle_result(
                old(self)@,
                telegram_id as int,
                enable,
                text_of(plan),
                days_of(duration),
            ),
            final(self)@ == spec_renewal_switched(
                old(self)@,
                telegram_id as int,
                enable,
                text_of(plan),
                days_of(duration),
            ),
    {
        let ghost wanted = spec_renewal_switched(
            old(self)@,
            telegram_id as int,
            enable,
            text_of(plan),
            days_of(duration),
        );
        match self.find(telegram_id) {
            None => {
                assert(self@ =~= wanted);
                Err(EngineError::NotFound)
            },
            Some(i) => {
                proof {
                    lemma_row_at(self@, i as int);
                }
                let r = self.entries[i].toggle_auto_renew(enable, plan, duration);
                assert(self@ =~= wanted);
                match r {
                    Ok(()) => Ok(()),
                    Err(_) => Err(EngineError::ValidationError),
                }
            },
        }
    }
}

} // verus!
