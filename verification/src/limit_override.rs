use vstd::prelude::*;
use crate::error::EngineError;
use crate::models::UserModel;
use crate::registry::{lemma_row_at, spec_contains, spec_row, Registry};

verus! {

/// Seconds for which a device limit stays lifted (30 minutes).
pub const OVERRIDE_SECONDS: i64 = 1_800;

/// What the provisioning service is asked to set as an account's device limit.
#[derive(Debug, Clone, Copy, PartialEq, Eq, Structural)]
pub struct LimitRequest {
    pub uuid: u128,
    pub device_limit: u32,
}

/// The record of a lifted device limit that is to be restored: it is kept
/// with the stored data, so that a restart does not lose it.
#[derive(Debug, Clone, Copy, PartialEq, Eq, Structural)]
pub struct PendingRestore {
    pub telegram_id: i64,
    pub uuid: u128,
    pub original_limit: u32,
    /// The instant from which the limit is to be restored.
    pub restore_at: i64,
}

/// What lifting a device limit asks for: the request to put to the
/// provisioning service at once, and the record of the restoration to keep.
#[derive(Debug, Clone, Copy, PartialEq, Eq, Structural)]
pub struct LimitOverride {
    pub request: LimitRequest,
    pub restore: PendingRestore,
}

/// What lifting the device limit of `u` at `now` asks for.
pub open spec fn spec_override(u: UserModel, now: int) -> LimitOverride {
    LimitOverride {
        request: LimitRequest { uuid: u.uuid as u128, device_limit: 0 },
        restore: PendingRestore {
            telegram_id: u.telegram_id as i64,
            uuid: u.uuid as u128,
            original_limit: u.device_limit as u32,
            restore_at: (now + OVERRIDE_SECONDS) as i64,
        },
    }
}

/// What a request to lift the device limit of the account `id` at `now`
/// answers: the account must exist, and the instant of the restoration must
/// fit an `i64`.
pub open spec fn spec_override_result(rows: Seq<UserModel>, id: int, now: int) -> Result<
    LimitOverride,
    EngineError,
> {
    if !spec_contains(rows, id) {
        Err(EngineError::NotFound)
    } else if now + OVERRIDE_SECONDS > i64::MAX {
        Err(EngineError::ValidationError)
    } else {
        Ok(spec_override(spec_row(rows, id), now))
    }
}

/// The test for restorations that are due at `now`.
pub open spec fn restore_due_pred(now: int) -> spec_fn(PendingRestore) -> bool {
    |p: PendingRestore| p.restore_at <= now
}

/// The test for restorations that are not yet due at `now`.
pub open spec fn restore_waiting_pred(now: int) -> spec_fn(PendingRestore) -> bool {
    |p: PendingRestore| p.restore_at > now
}

/// The restorations found at a recovery, parted by whether they are due.
#[derive(Debug)]
pub struct Recovery {
    /// Those to carry out at once, in the order in which they were kept.
    pub due: Vec<PendingRestore>,
    /// Those to arm again, in the order in which they were kept.
    pub waiting: Vec<PendingRestore>,
}

impl PendingRestore {
    /// Tells whether the restoration is due at `now`.
    pub fn is_due(&self, now: i64) -> (r: bool)
        ensures
            r == (self.restore_at <= now),
    {
        self.restore_at <= now
    }

    /// Returns the seconds to wait at `now` until the restoration is due; 0
    /// where it is due already.
    pub fn delay(&self, now: i64) -> (r: u64)
        ensures
            r == if self.restore_at <= now { 0 } else { self.restore_at - now },
    {
        if self.restore_at <= now {
            0
        } else {
            ((self.restore_at as i128) - (now as i128)) as u64
        }
    }

    /// Returns the request that restores the limit.
    pub fn request(&self) -> (r: LimitRequest)
        ensures
            r == (LimitRequest { uuid: self.uuid, device_limit: self.original_limit }),
    {
        LimitRequest { uuid: self.uuid, device_limit: self.original_limit }
    }
}

/// Parts the kept restorations at `now` into those that are due and those
/// that are to be armed again. Each part keeps the order of `pending`.
pub fn recover(pending: &Vec<PendingRestore>, now: i64) -> (r: Recovery)
    ensures
        r.due@ == pending@.filter(restore_due_pred(now as int)),
        r.waiting@ == pending@.filter(restore_waiting_pred(now as int)),
{
    let ghost due_test = restore_due_pred(now as int);
    let ghost waiting_test = restore_waiting_pred(now as int);
    let mut due: Vec<PendingRestore> = Vec::new();
    let mut waiting: Vec<PendingRestore> = Vec::new();
    let mut i: usize = 0;
    proof {
        reveal(Seq::filter);
    }
    assert(pending@.take(0) =~= Seq::<PendingRestore>::empty());
    assert(due@ =~= pending@.take(0).filter(due_test));
    assert(waiting@ =~= pending@.take(0).filter(waiting_test));
    while i < pending.len()
        invariant
            i <= pending.len(),
            due_test == restore_due_pred(now as int),
            waiting_test == restore_waiting_pred(now as int),
            due@ == pending@.take(i as int).filter(due_test),
            waiting@ == pending@.take(i as int).filter(waiting_test),
        decreases pending.len() - i,
    {
        proof {
            let head = pending@.take(i as int);
            assert(pending@.take(i + 1) =~= head.push(pending@[i as int]));
            head.lemma_filter_push(pending@[i as int], due_test);
            head.lemma_filter_push(pending@[i as int], waiting_test);
        }
        if pending[i].is_due(now) {
            due.push(pending[i]);
        } else {
            waiting.push(pending[i]);
        }
        i = i + 1;
    }
    assert(pending@.take(i as int) =~= pending@);
    Recovery { due, waiting }
}

impl Registry {
    /// Prepares the lifting of the device limit of the account `telegram_id`
    /// at `now`: returns the request that sets the limit to 0 and the record
    /// of the restoration of the stored limit, due 30 minutes later. Nothing
    /// is changed in the registry.
    pub fn disable_limit_temporarily(&self, telegram_id: i64, now: i64) -> (r: Result<
        LimitOverride,
        EngineError,
    >)
        requires
            self.wf(),
        ensures
            r == spec_override_result(self@, telegram_id as int, now as int),
    {
        let i = match self.find(telegram_id) {
            None => {
                return Err(EngineError::NotFound);
            },
            Some(i) => i,
        };
        proof {
            lemma_row_at(self@, i as int);
        }
        if now > i64::MAX - OVERRIDE_SECONDS {
            return Err(EngineError::ValidationError);
        }
        let user = &self.entries[i];
        Ok(
            LimitOverride {
                request: LimitRequest { uuid: user.uuid, device_limit: 0 },
                restore: PendingRestore {
                    telegram_id: user.telegram_id,
                    uuid: user.uuid,
                    original_limit: user.device_limit,
                    restore_at: now + OVERRIDE_SECONDS,
                },
            },
        )
    }
}

} // verus!
