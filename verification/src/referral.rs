use vstd::prelude::*;
use crate::error::EngineError;
use crate::models::{AddReferralData, UserModel};
use crate::registry::{lemma_row_at, spec_contains, spec_distinct, spec_row, Registry};

verus! {

/// The entitlement `u` after `child` was added to the referrals of `parent`.
pub open spec fn spec_listed(u: UserModel, parent: int, child: int) -> UserModel {
    if u.telegram_id == parent {
        UserModel { referrals: u.referrals.push(child), ..u }
    } else {
        u
    }
}

/// The entitlement `u` after the invitation of `child` by `parent` was stored:
/// the parent's row lists the child, and the child's row names the parent.
pub open spec fn spec_linked(u: UserModel, parent: int, child: int) -> UserModel {
    let listed = spec_listed(u, parent, child);
    if u.telegram_id == child {
        UserModel { referral_id: Some(parent), ..listed }
    } else {
        listed
    }
}

/// The rows after the invitation of `child` by `parent` was stored.
pub open spec fn spec_referral_added(rows: Seq<UserModel>, parent: int, child: int) -> Seq<
    UserModel,
> {
    rows.map_values(|u: UserModel| spec_linked(u, parent, child))
}

/// What a request to store the invitation of `child` by `parent` answers:
/// both accounts must exist, the child must not have a parent yet, and the
/// parent must not list the child already.
pub open spec fn spec_referral_result(rows: Seq<UserModel>, parent: int, child: int) -> Result<
    (),
    EngineError,
> {
    if !spec_contains(rows, child) {
        Err(EngineError::NotFound)
    } else if spec_row(rows, child).referral_id.is_some() {
        Err(EngineError::Conflict)
    } else if !spec_contains(rows, parent) {
        Err(EngineError::NotFound)
    } else if spec_row(rows, parent).referrals.contains(child) {
        Err(EngineError::Conflict)
    } else {
        Ok(())
    }
}

/// An account that was given a parent cannot be given one again: after a
/// stored invitation of `child`, every further invitation of `child`, by
/// whichever account, is refused with `Conflict`.
pub proof fn lemma_second_referral_refused(
    rows: Seq<UserModel>,
    parent: int,
    child: int,
    other_parent: int,
)
    requires
        spec_distinct(rows),
        spec_referral_result(rows, parent, child).is_ok(),
    ensures
        spec_distinct(spec_referral_added(rows, parent, child)),
        spec_referral_result(spec_referral_added(rows, parent, child), other_parent, child) == Err::<
            (),
            EngineError,
        >(EngineError::Conflict),
{
    let after = spec_referral_added(rows, parent, child);
    let c = choose|i: int| 0 <= i < rows.len() && #[trigger] rows[i].telegram_id == child;
    assert(after[c].telegram_id == child);
    assert(spec_distinct(after));
    lemma_row_at(after, c);
}

/// A parent, once set, stays: a stored invitation changes the parent of no
/// account that had one, and gives a parent to the invited account alone.
pub proof fn lemma_parent_is_kept(rows: Seq<UserModel>, parent: int, child: int, i: int)
    requires
        spec_distinct(rows),
        spec_referral_result(rows, parent, child).is_ok(),
        0 <= i < rows.len(),
    ensures
        rows[i].referral_id.is_some() ==> spec_referral_added(rows, parent, child)[i].referral_id
            == rows[i].referral_id,
        rows[i].telegram_id != child ==> spec_referral_added(rows, parent, child)[i].referral_id
            == rows[i].referral_id,
        rows[i].telegram_id == child ==> spec_referral_added(rows, parent, child)[i].referral_id
            == Some(parent),
{
    if rows[i].telegram_id == child {
        lemma_row_at(rows, i);
    }
}

/// Tells whether `id` occurs in `list`.
pub fn contains_id(list: &Vec<i64>, id: i64) -> (r: bool)
    ensures
        r == list@.map_values(|c: i64| c as int).contains(id as int),
{
    let ghost ints = list@.map_values(|c: i64| c as int);
    let mut i: usize = 0;
    while i < list.len()
        invariant
            i <= list.len(),
            ints == list@.map_values(|c: i64| c as int),
            forall|k: int| 0 <= k < i ==> #[trigger] ints[k] != id as int,
        decreases list.len() - i,
    {
        if list[i] == id {
            assert(ints[i as int] == id as int);
            return true;
        }
        i = i + 1;
    }
    false
}

impl Registry {
    /// Stores that `data.referral_id` invited `data.referred_telegram_id`. The
    /// first invitation of an account wins; later ones are refused, and so is
    /// an invitation that the parent already lists.
    pub fn add_referral(&mut self, data: AddReferralData) -> (r: Result<(), EngineError>)
        requires
            old(self).wf(),
        ensures
            final(self).wf(),
            r == spec_referral_result(
                old(self)@,
                data.referral_id as int,
                data.referred_telegram_id as int,
            ),
            r.is_err() ==> final(self)@ == old(self)@,
            r.is_ok() ==> final(self)@ == spec_referral_added(
                old(self)@,
                data.referral_id as int,
                data.referred_telegram_id as int,
            ),
    {
        let parent = data.referral_id;
        let child = data.referred_telegram_id;
        let c = match self.find(child) {
            None => {
                return Err(EngineError::NotFound);
            },
            Some(c) => c,
        };
        proof {
            lemma_row_at(self@, c as int);
        }
        if self.entries[c].referral_id.is_some() {
            return Err(EngineError::Conflict);
        }
        let p = match self.find(parent) {
            None => {
                return Err(EngineError::NotFound);
            },
            Some(p) => p,
        };
        proof {
            lemma_row_at(self@, p as int);
        }
        if contains_id(&self.entries[p].referrals, child) {
            return Err(EngineError::Conflict);
        }
        let ghost before = self@;
        self.entries[p].referrals.push(child);
        assert(self@[p as int].referrals =~= before[p as int].referrals.push(child as int));
        self.entries[c].referral_id = Some(parent);
        assert(self@ =~= spec_referral_added(before, parent as int, child as int));
        Ok(())
    }
}

} // verus!
