use vstd::prelude::*;
use crate::entitlement::{in_window, spec_in_window};
use crate::error::EngineError;
use crate::models::{report_of, ExpiringUser, ExpiringUserModel, Status, User, UserModel};
use crate::registry::Registry;

verus! {

/// Whether the sweep at `now` with a horizon of `horizon_days` days moves `u`
/// to grace: it is active and expires within the horizon.
pub open spec fn spec_expiring(u: UserModel, now: int, horizon_days: int) -> bool {
    u.status == Status::Active && spec_in_window(u.subscription_end, now, horizon_days)
}

/// Whether the sweep at `now` moves `u` to inactive: it is in grace and has expired.
pub open spec fn spec_expired(u: UserModel, now: int) -> bool {
    u.status == Status::Grace && u.subscription_end < now
}

/// The test for rows that the grace sweep moves.
pub open spec fn expiring_pred(now: int, horizon_days: int) -> spec_fn(UserModel) -> bool {
    |u: UserModel| spec_expiring(u, now, horizon_days)
}

/// The test for rows that the inactive sweep moves.
pub open spec fn expired_pred(now: int) -> spec_fn(UserModel) -> bool {
    |u: UserModel| spec_expired(u, now)
}

/// The two phases of the expiry sweep.
#[derive(Debug, Clone, Copy, PartialEq, Eq, Structural)]
pub enum Sweep {
    /// Active entitlements that expire within the horizon move to grace.
    ToGrace { horizon_days: i64 },
    /// Entitlements in grace that have expired move to inactive.
    ToInactive,
}

impl Sweep {
    /// The test for the rows that this phase moves at `now`.
    pub open spec fn moved(self, now: int) -> spec_fn(UserModel) -> bool {
        match self {
            Sweep::ToGrace { horizon_days } => expiring_pred(now, horizon_days as int),
            Sweep::ToInactive => expired_pred(now),
        }
    }

    /// The status that this phase gives to the rows it moves.
    pub open spec fn spec_target(self) -> Status {
        match self {
            Sweep::ToGrace { .. } => Status::Grace,
            Sweep::ToInactive => Status::Inactive,
        }
    }

    /// Returns the status that this phase gives to the rows it moves.
    pub fn target(self) -> (s: Status)
        ensures
            s == self.spec_target(),
    {
        match self {
            Sweep::ToGrace { .. } => Status::Grace,
            Sweep::ToInactive => Status::Inactive,
        }
    }
}

/// The entitlement `u` with the status `status`.
pub open spec fn spec_with_status(u: UserModel, status: Status) -> UserModel {
    UserModel { status: status, ..u }
}

/// The rows after every row that meets `moved` got the status `status`.
pub open spec fn spec_moved(
    rows: Seq<UserModel>,
    moved: spec_fn(UserModel) -> bool,
    status: Status,
) -> Seq<UserModel> {
    rows.map_values(|u: UserModel| if moved(u) { spec_with_status(u, status) } else { u })
}

/// The reports of the rows of `rows` that meet `moved`, in the order of the rows.
pub open spec fn spec_reports(
    rows: Seq<UserModel>,
    moved: spec_fn(UserModel) -> bool,
) -> Seq<ExpiringUserModel> {
    rows.filter(moved).map_values(|u: UserModel| report_of(u))
}

/// The access keys of the rows of `rows` that meet `moved`, in the order of the rows.
pub open spec fn spec_keys(rows: Seq<UserModel>, moved: spec_fn(UserModel) -> bool) -> Seq<int> {
    rows.filter(moved).map_values(|u: UserModel| u.uuid)
}

/// The mathematical content of a list of reports.
pub open spec fn reports_view(list: Seq<ExpiringUser>) -> Seq<ExpiringUserModel> {
    list.map_values(|e: ExpiringUser| e@)
}

/// Whether every entry of `outcomes` is a success.
pub open spec fn spec_all_ok(outcomes: Seq<bool>) -> bool {
    forall|i: int| 0 <= i < outcomes.len() ==> #[trigger] outcomes[i]
}

/// One more row extends the reports by its own report, if it meets `moved`.
pub proof fn lemma_reports_step(rows: Seq<UserModel>, moved: spec_fn(UserModel) -> bool, i: int)
    requires
        0 <= i < rows.len(),
    ensures
        spec_reports(rows.take(i + 1), moved) == if moved(rows[i]) {
            spec_reports(rows.take(i), moved).push(report_of(rows[i]))
        } else {
            spec_reports(rows.take(i), moved)
        },
        spec_keys(rows.take(i + 1), moved) == if moved(rows[i]) {
            spec_keys(rows.take(i), moved).push(rows[i].uuid)
        } else {
            spec_keys(rows.take(i), moved)
        },
{
    let head = rows.take(i);
    assert(rows.take(i + 1) =~= head.push(rows[i]));
    head.lemma_filter_push(rows[i], moved);
    if moved(rows[i]) {
        assert(spec_reports(rows.take(i + 1), moved) =~= spec_reports(head, moved).push(
            report_of(rows[i]),
        ));
        assert(spec_keys(rows.take(i + 1), moved) =~= spec_keys(head, moved).push(rows[i].uuid));
    }
}

/// Whether the remote revocations that the inactive sweep at `now` asks for
/// were all made and all succeeded: `outcomes` holds one success per expired row.
pub open spec fn spec_revoked(rows: Seq<UserModel>, now: int, outcomes: Seq<bool>) -> bool {
    outcomes.len() == rows.filter(expired_pred(now)).len() && spec_all_ok(outcomes)
}

/// A sweep moves nothing when it is repeated at the same instant: the rows
/// stay as the first run left them, and nothing is reported.
pub proof fn lemma_sweep_idempotent(rows: Seq<UserModel>, sweep: Sweep, now: int)
    ensures
        spec_reports(
            spec_moved(rows, sweep.moved(now), sweep.spec_target()),
            sweep.moved(now),
        ) == Seq::<ExpiringUserModel>::empty(),
        spec_moved(
            spec_moved(rows, sweep.moved(now), sweep.spec_target()),
            sweep.moved(now),
            sweep.spec_target(),
        ) == spec_moved(rows, sweep.moved(now), sweep.spec_target()),
{
    let moved = sweep.moved(now);
    let target = sweep.spec_target();
    let swept = spec_moved(rows, moved, target);
    assert forall|k: int| 0 <= k < swept.len() implies !moved(#[trigger] swept[k]) by {
        if moved(rows[k]) {
            assert(swept[k].status == target);
        }
    }
    assert(swept.all(|u: UserModel| !moved(u)));
    swept.lemma_all_neg_filter_empty(moved);
    assert(spec_reports(swept, moved) =~= Seq::<ExpiringUserModel>::empty());
    assert(spec_moved(swept, moved, target) =~= swept);
}

/// A sweep moves a row only along the lifecycle: the grace sweep from
/// active to grace, the inactive sweep from grace to inactive. Every other
/// row, and everything but the status of a moved row, stays as it is.
pub proof fn lemma_sweep_follows_lifecycle(rows: Seq<UserModel>, sweep: Sweep, now: int, i: int)
    requires
        0 <= i < rows.len(),
    ensures
        spec_moved(rows, sweep.moved(now), sweep.spec_target())[i] == spec_with_status(
            rows[i],
            spec_moved(rows, sweep.moved(now), sweep.spec_target())[i].status,
        ),
        spec_moved(rows, sweep.moved(now), sweep.spec_target())[i].status != rows[i].status ==> {
            &&& sweep is ToGrace ==> rows[i].status == Status::Active && spec_moved(
                rows,
                sweep.moved(now),
                sweep.spec_target(),
            )[i].status == Status::Grace
            &&& sweep is ToInactive ==> rows[i].status == Status::Grace && spec_moved(
                rows,
                sweep.moved(now),
                sweep.spec_target(),
            )[i].status == Status::Inactive
        },
{
}

/// Tells whether every entry of `outcomes` is a success.
pub fn all_ok(outcomes: &Vec<bool>) -> (r: bool)
    ensures
        r == spec_all_ok(outcomes@),
{
    let mut i: usize = 0;
    while i < outcomes.len()
        invariant
            i <= outcomes.len(),
            forall|k: int| 0 <= k < i ==> #[trigger] outcomes@[k],
        decreases outcomes.len() - i,
    {
        if !outcomes[i] {
            return false;
        }
        i = i + 1;
    }
    true
}

impl User {
    /// Returns what a sweep reports of this entitlement.
    pub fn report(&self) -> (r: ExpiringUser)
        ensures
            r@ == report_of(self@),
    {
        let username = match &self.username {
            Some(name) => Some(name.clone()),
            None => None,
        };
        ExpiringUser {
            telegram_id: self.telegram_id,
            subscription_end: self.subscription_end,
            username,
            plan: self.plan.clone(),
        }
    }

    /// Tells whether the grace sweep at `now` with the given horizon moves this
    /// entitlement.
    pub fn is_expiring(&self, now: i64, horizon_days: i64) -> (r: bool)
        ensures
            r == spec_expiring(self@, now as int, horizon_days as int),
    {
        let active = match self.status {
            Status::Active => true,
            Status::Inactive => false,
            Status::Grace => false,
        };
        active && in_window(self.subscription_end, now, horizon_days)
    }

    /// Tells whether the inactive sweep at `now` moves this entitlement.
    pub fn is_expired(&self, now: i64) -> (r: bool)
        ensures
            r == spec_expired(self@, now as int),
    {
        let grace = match self.status {
            Status::Grace => true,
            Status::Inactive => false,
            Status::Active => false,
        };
        grace && self.subscription_end < now
    }
}

impl User {
    /// Tells whether the phase `sweep` at `now` moves this entitlement.
    pub fn is_swept(&self, sweep: Sweep, now: i64) -> (r: bool)
        ensures
            r == (sweep.moved(now as int))(self@),
    {
        match sweep {
            Sweep::ToGrace { horizon_days } => self.is_expiring(now, horizon_days),
            Sweep::ToInactive => self.is_expired(now),
        }
    }
}

impl Registry {
    /// Returns the reports of the rows that the phase `sweep` would move at
    /// `now`, in the order of the rows, and changes nothing.
    pub fn select(&self, sweep: Sweep, now: i64) -> (r: Vec<ExpiringUser>)
        ensures
            reports_view(r@) == spec_reports(self@, sweep.moved(now as int)),
    {
        let ghost moved = sweep.moved(now as int);
        let mut out: Vec<ExpiringUser> = Vec::new();
        let mut i: usize = 0;
        assert(self@.take(0) =~= Seq::<UserModel>::empty());
        proof {
            reveal(Seq::filter);
        }
        assert(reports_view(out@) =~= spec_reports(self@.take(0), moved));
        while i < self.entries.len()
            invariant
                i <= self.entries.len(),
                moved == sweep.moved(now as int),
                reports_view(out@) == spec_reports(self@.take(i as int), moved),
            decreases self.entries.len() - i,
        {
            proof {
                lemma_reports_step(self@, moved, i as int);
            }
            let ghost before = out@;
            if self.entries[i].is_swept(sweep, now) {
                let report = self.entries[i].report();
                out.push(report);
                assert(reports_view(out@) =~= reports_view(before).push(report@));
            }
            i = i + 1;
        }
        assert(self@.take(i as int) =~= self@);
        out
    }

    /// Returns the access keys of the rows that the phase `sweep` would move at
    /// `now`, in the order of the rows, and changes nothing.
    pub fn keys(&self, sweep: Sweep, now: i64) -> (r: Vec<u128>)
        ensures
            r@.map_values(|k: u128| k as int) == spec_keys(self@, sweep.moved(now as int)),
    {
        let ghost moved = sweep.moved(now as int);
        let mut out: Vec<u128> = Vec::new();
        let mut i: usize = 0;
        assert(self@.take(0) =~= Seq::<UserModel>::empty());
        proof {
            reveal(Seq::filter);
        }
        assert(out@.map_values(|k: u128| k as int) =~= spec_keys(self@.take(0), moved));
        while i < self.entries.len()
            invariant
                i <= self.entries.len(),
                moved == sweep.moved(now as int),
                out@.map_values(|k: u128| k as int) == spec_keys(self@.take(i as int), moved),
            decreases self.entries.len() - i,
        {
            proof {
                lemma_reports_step(self@, moved, i as int);
            }
            let ghost before = out@;
            if self.entries[i].is_swept(sweep, now) {
                out.push(self.entries[i].uuid);
                assert(out@.map_values(|k: u128| k as int) =~= before.map_values(
                    |k: u128| k as int,
                ).push(self@[i as int].uuid));
            }
            i = i + 1;
        }
        assert(self@.take(i as int) =~= self@);
        out
    }

    /// Moves every active entitlement that expires within `horizon_days` days
    /// of `now` to grace, and returns the reports of the moved rows as they
    /// were selected.
    pub fn advance_to_grace(&mut self, now: i64, horizon_days: i64) -> (r: Vec<ExpiringUser>)
        requires
            old(self).wf(),
        ensures
            final(self).wf(),
            final(self)@ == spec_moved(
                old(self)@,
                expiring_pred(now as int, horizon_days as int),
                Status::Grace,
            ),
            reports_view(r@) == spec_reports(
                old(self)@,
                expiring_pred(now as int, horizon_days as int),
            ),
    {
        let sweep = Sweep::ToGrace { horizon_days };
        let moved = self.select(sweep, now);
        self.mark(sweep, now);
        moved
    }

    /// Moves every entitlement in grace that has expired at `now` to inactive,
    /// provided that the remote access of each was revoked: `outcomes` holds
    /// the results of the revocations, one per expired row. Where one is
    /// missing or has failed, nothing is changed and `UpstreamError` is returned.
    pub fn advance_to_inactive(&mut self, now: i64, outcomes: &Vec<bool>) -> (r: Result<
        Vec<ExpiringUser>,
        EngineError,
    >)
        requires
            old(self).wf(),
        ensures
            final(self).wf(),
            r.is_ok() <==> spec_revoked(old(self)@, now as int, outcomes@),
            r matches Err(e) ==> e == EngineError::UpstreamError && final(self)@ == old(self)@,
            r matches Ok(list) ==> reports_view(list@) == spec_reports(
                old(self)@,
                expired_pred(now as int),
            ) && final(self)@ == spec_moved(old(self)@, expired_pred(now as int), Status::Inactive),
    {
        let sweep = Sweep::ToInactive;
        let moved = self.select(sweep, now);
        assert(reports_view(moved@).len() == moved@.len());
        if outcomes.len() != moved.len() || !all_ok(outcomes) {
            return Err(EngineError::UpstreamError);
        }
        self.mark(sweep, now);
        Ok(moved)
    }

    /// Gives every row that the phase `sweep` moves at `now` the status of
    /// that phase.
    pub fn mark(&mut self, sweep: Sweep, now: i64)
        requires
            old(self).wf(),
        ensures
            final(self).wf(),
            final(self)@ == spec_moved(old(self)@, sweep.moved(now as int), sweep.spec_target()),
    {
        let ghost moved = sweep.moved(now as int);
        let ghost target = sweep.spec_target();
        let ghost start = self@;
        let mut i: usize = 0;
        while i < self.entries.len()
            invariant
                i <= self.entries.len(),
                moved == sweep.moved(now as int),
                target == sweep.spec_target(),
                start == old(self)@,
                self@.len() == start.len(),
                forall|k: int| 0 <= k < i ==> #[trigger] self@[k] == spec_moved(start, moved, target)[k],
                forall|k: int| i <= k < start.len() ==> #[trigger] self@[k] == start[k],
            decreases self.entries.len() - i,
        {
            let ghost prev = self@;
            if self.entries[i].is_swept(sweep, now) {
                self.entries[i].status = sweep.target();
                assert(self@ =~= prev.update(i as int, spec_with_status(prev[i as int], target)));
            }
            i = i + 1;
        }
        assert(self@ =~= spec_moved(start, moved, target));
    }
}

} // verus!
