use vstd::prelude::*;
use crate::entitlement::spec_renewal_due;
use crate::models::UserModel;
use crate::registry::Registry;

verus! {

/// The test for rows whose renewal is due at `now` within `horizon_days` days.
pub open spec fn due_pred(now: int, horizon_days: int) -> spec_fn(UserModel) -> bool {
    |u: UserModel| spec_renewal_due(u, now, horizon_days)
}

/// The accounts of `rows` whose renewal is due at `now` within `horizon_days`
/// days, in the order of the rows.
pub open spec fn spec_due_accounts(rows: Seq<UserModel>, now: int, horizon_days: int) -> Seq<int> {
    rows.filter(due_pred(now, horizon_days)).map_values(|u: UserModel| u.telegram_id)
}

/// The mathematical content of a list of accounts.
pub open spec fn accounts_view(list: Seq<i64>) -> Seq<int> {
    list.map_values(|id: i64| id as int)
}

impl Registry {
    /// Returns the accounts whose renewal is due at `now` within
    /// `horizon_days` days, in the order of the rows, and changes nothing. An
    /// account that was tried less than twelve hours ago is not due.
    pub fn renewal_due(&self, now: i64, horizon_days: i64) -> (r: Vec<i64>)
        ensures
            accounts_view(r@) == spec_due_accounts(self@, now as int, horizon_days as int),
    {
        let ghost due = due_pred(now as int, horizon_days as int);
        let mut out: Vec<i64> = Vec::new();
        let mut i: usize = 0;
        assert(self@.take(0) =~= Seq::<UserModel>::empty());
        proof {
            reveal(Seq::filter);
        }
        assert(accounts_view(out@) =~= self@.take(0).filter(due).map_values(
            |u: UserModel| u.telegram_id,
        ));
        while i < self.entries.len()
            invariant
                i <= self.entries.len(),
                due == due_pred(now as int, horizon_days as int),
                accounts_view(out@) == self@.take(i as int).filter(due).map_values(
                    |u: UserModel| u.telegram_id,
                ),
            decreases self.entries.len() - i,
        {
            let ghost before = out@;
            let ghost head = self@.take(i as int);
            proof {
                assert(self@.take(i + 1) =~= head.push(self@[i as int]));
                head.lemma_filter_push(self@[i as int], due);
            }
            if self.entries[i].is_renewal_due(now, horizon_days) {
                out.push(self.entries[i].telegram_id);
                assert(accounts_view(out@) =~= accounts_view(before).push(
                    self@[i as int].telegram_id,
                ));
                assert(self@.take(i + 1).filter(due).map_values(|u: UserModel| u.telegram_id)
                    =~= head.filter(due).map_values(|u: UserModel| u.telegram_id).push(
                    self@[i as int].telegram_id,
                ));
            }
            i = i + 1;
        }
        assert(self@.take(i as int) =~= self@);
        out
    }
}

} // verus!
