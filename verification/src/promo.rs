use vstd::prelude::*;
use vstd::string::StringExecFns;
use crate::error::EngineError;

verus! {

/// A promo code: a discount on some plans that can be used a limited number
/// of times.
#[derive(Debug)]
pub struct PromoCode {
    pub code: String,
    pub discount_percent: u32,
    pub applicable_tariffs: Vec<String>,
    pub max_uses: u32,
    pub current_uses: u32,
    pub is_active: bool,
}

/// The mathematical content of a [`PromoCode`].
pub struct PromoCodeModel {
    pub code: Seq<char>,
    pub discount_percent: int,
    pub applicable_tariffs: Seq<Seq<char>>,
    pub max_uses: int,
    pub current_uses: int,
    pub is_active: bool,
}

impl View for PromoCode {
    type V = PromoCodeModel;

    open spec fn view(&self) -> PromoCodeModel {
        PromoCodeModel {
            code: self.code@,
            discount_percent: self.discount_percent as int,
            applicable_tariffs: self.applicable_tariffs@.map_values(|t: String| t@),
            max_uses: self.max_uses as int,
            current_uses: self.current_uses as int,
            is_active: self.is_active,
        }
    }
}

/// The record that an account has used a promo code.
#[derive(Debug)]
pub struct PromoUsage {
    pub code: String,
    pub telegram_id: i64,
}

/// The mathematical content of a [`PromoUsage`].
pub struct PromoUsageModel {
    pub code: Seq<char>,
    pub telegram_id: int,
}

impl View for PromoUsage {
    type V = PromoUsageModel;

    open spec fn view(&self) -> PromoUsageModel {
        PromoUsageModel { code: self.code@, telegram_id: self.telegram_id as int }
    }
}

/// The promo codes and the record of their uses. Usage rows are only ever
/// added.
pub struct PromoLedger {
    pub codes: Vec<PromoCode>,
    pub usages: Vec<PromoUsage>,
}

/// The mathematical content of a [`PromoLedger`].
pub struct LedgerModel {
    pub codes: Seq<PromoCodeModel>,
    pub usages: Seq<PromoUsageModel>,
}

impl View for PromoLedger {
    type V = LedgerModel;

    open spec fn view(&self) -> LedgerModel {
        LedgerModel {
            codes: self.codes@.map_values(|c: PromoCode| c@),
            usages: self.usages@.map_values(|u: PromoUsage| u@),
        }
    }
}

/// Why a promo code cannot be applied.
#[derive(Debug, Clone, Copy, PartialEq, Eq, Structural)]
pub enum PromoRejection {
    /// There is no such code.
    UnknownCode,
    /// The code was deactivated.
    Inactive,
    /// The code has been used as often as it may be.
    Exhausted,
    /// The code does not apply to the plan.
    WrongTariff,
    /// The account has used the code before.
    AlreadyUsed,
}

/// The test for usage rows of the code `code`.
pub open spec fn of_code(code: Seq<char>) -> spec_fn(PromoUsageModel) -> bool {
    |u: PromoUsageModel| u.code == code
}

/// The number of usage rows of the code `code`.
pub open spec fn spec_usage_count(usages: Seq<PromoUsageModel>, code: Seq<char>) -> nat {
    usages.filter(of_code(code)).len()
}

/// The test for usage rows of the code `code` by the account `id`.
pub open spec fn of_pair(code: Seq<char>, id: int) -> spec_fn(PromoUsageModel) -> bool {
    |u: PromoUsageModel| u.code == code && u.telegram_id == id
}

/// The number of usage rows of the code `code` by the account `id`.
pub open spec fn spec_pair_count(usages: Seq<PromoUsageModel>, code: Seq<char>, id: int) -> nat {
    usages.filter(of_pair(code, id)).len()
}

/// Whether some usage row records the code `code` for the account `id`.
pub open spec fn spec_has_usage(usages: Seq<PromoUsageModel>, code: Seq<char>, id: int) -> bool {
    exists|j: int|
        0 <= j < usages.len() && (#[trigger] usages[j]).code == code && usages[j].telegram_id == id
}

/// Whether `codes` holds the code `code`.
pub open spec fn spec_has_code(codes: Seq<PromoCodeModel>, code: Seq<char>) -> bool {
    exists|i: int| 0 <= i < codes.len() && (#[trigger] codes[i]).code == code
}

/// The promo code `code` in `codes`; arbitrary where there is none.
pub open spec fn spec_code(codes: Seq<PromoCodeModel>, code: Seq<char>) -> PromoCodeModel {
    let i = choose|i: int| 0 <= i < codes.len() && (#[trigger] codes[i]).code == code;
    codes[i]
}

/// Whether every code occurs once in `codes`.
pub open spec fn spec_codes_distinct(codes: Seq<PromoCodeModel>) -> bool {
    forall|i: int, j: int|
        0 <= i < codes.len() && 0 <= j < codes.len() && i != j ==> (#[trigger] codes[i]).code != (
        #[trigger] codes[j]).code
}

/// Whether no usage row occurs twice in `usages`.
pub open spec fn spec_usages_distinct(usages: Seq<PromoUsageModel>) -> bool {
    forall|i: int, j: int|
        0 <= i < usages.len() && 0 <= j < usages.len() && i != j ==> #[trigger] usages[i]
            != #[trigger] usages[j]
}

/// Whether every usage row of `usages` belongs to a code of `codes`.
pub open spec fn spec_usages_belong(codes: Seq<PromoCodeModel>, usages: Seq<PromoUsageModel>) -> bool {
    forall|j: int| 0 <= j < usages.len() ==> spec_has_code(codes, (#[trigger] usages[j]).code)
}

/// Whether the code `c` counts exactly its usage rows in `usages`, and no
/// more than it allows.
pub open spec fn spec_count_matches(c: PromoCodeModel, usages: Seq<PromoUsageModel>) -> bool {
    c.current_uses == spec_usage_count(usages, c.code) && c.current_uses <= c.max_uses
}

/// Whether every code of `codes` counts exactly its usage rows in `usages`.
pub open spec fn spec_counts_match(codes: Seq<PromoCodeModel>, usages: Seq<PromoUsageModel>) -> bool {
    forall|i: int| 0 <= i < codes.len() ==> spec_count_matches(#[trigger] codes[i], usages)
}

/// Holds of a ledger in which every code occurs once, no usage row occurs
/// twice, every usage row belongs to a code, and every code counts exactly
/// its usage rows, which are no more than it allows.
pub open spec fn spec_ledger_wf(l: LedgerModel) -> bool {
    &&& spec_codes_distinct(l.codes)
    &&& spec_usages_distinct(l.usages)
    &&& spec_usages_belong(l.codes, l.usages)
    &&& spec_counts_match(l.codes, l.usages)
}

/// Whether a code with the plans `applicable` can be applied to `tariff`: the
/// request names no plan, or one of the code's plans.
pub open spec fn spec_tariff_fits(applicable: Seq<Seq<char>>, tariff: Seq<char>) -> bool {
    tariff.len() == 0 || applicable.contains(tariff)
}

/// What the validation of the code `code` for the plan `tariff` and the
/// account `id` answers: the discount in percent, or the first check that
/// fails, in this order: the code exists, is active, is not used up, fits
/// the plan, and was not used by the account.
pub open spec fn spec_validate(l: LedgerModel, code: Seq<char>, tariff: Seq<char>, id: int) -> Result<
    int,
    PromoRejection,
> {
    if !spec_has_code(l.codes, code) {
        Err(PromoRejection::UnknownCode)
    } else if !spec_code(l.codes, code).is_active {
        Err(PromoRejection::Inactive)
    } else if spec_code(l.codes, code).current_uses >= spec_code(l.codes, code).max_uses {
        Err(PromoRejection::Exhausted)
    } else if !spec_tariff_fits(spec_code(l.codes, code).applicable_tariffs, tariff) {
        Err(PromoRejection::WrongTariff)
    } else if spec_has_usage(l.usages, code, id) {
        Err(PromoRejection::AlreadyUsed)
    } else {
        Ok(spec_code(l.codes, code).discount_percent)
    }
}

/// With one row per code, the row of a code is the one found at its position.
pub proof fn lemma_code_at(l: LedgerModel, i: int)
    requires
        spec_ledger_wf(l),
        0 <= i < l.codes.len(),
    ensures
        spec_code(l.codes, l.codes[i].code) == l.codes[i],
{
    let code = l.codes[i].code;
    let j = choose|j: int| 0 <= j < l.codes.len() && (#[trigger] l.codes[j]).code == code;
    assert(j == i);
}

/// A promo code as it is created: active and not used yet.
pub open spec fn spec_fresh_code(
    code: Seq<char>,
    discount_percent: int,
    applicable_tariffs: Seq<Seq<char>>,
    max_uses: int,
) -> PromoCodeModel {
    PromoCodeModel {
        code: code,
        discount_percent: discount_percent,
        applicable_tariffs: applicable_tariffs,
        max_uses: max_uses,
        current_uses: 0,
        is_active: true,
    }
}

/// The ledger after the code `row` was added.
pub open spec fn spec_created(l: LedgerModel, row: PromoCodeModel) -> LedgerModel {
    LedgerModel { codes: l.codes.push(row), usages: l.usages }
}

/// The promo code `c` switched off.
pub open spec fn spec_switched_off(c: PromoCodeModel) -> PromoCodeModel {
    PromoCodeModel { is_active: false, ..c }
}

/// The ledger after the code `code` was deactivated.
pub open spec fn spec_deactivated(l: LedgerModel, code: Seq<char>) -> LedgerModel {
    LedgerModel {
        codes: l.codes.map_values(
            |c: PromoCodeModel| if c.code == code { spec_switched_off(c) } else { c },
        ),
        usages: l.usages,
    }
}

/// The promo code `c` with one more use counted.
pub open spec fn spec_counted(c: PromoCodeModel) -> PromoCodeModel {
    PromoCodeModel { current_uses: c.current_uses + 1, ..c }
}

/// The ledger after the account `id` used the code `code`: a usage row was
/// added, and the use was counted.
pub open spec fn spec_used(l: LedgerModel, code: Seq<char>, id: int) -> LedgerModel {
    LedgerModel {
        codes: l.codes.map_values(
            |c: PromoCodeModel| if c.code == code { spec_counted(c) } else { c },
        ),
        usages: l.usages.push(PromoUsageModel { code: code, telegram_id: id }),
    }
}

/// What a use of the code `code` by the account `id` answers: the number of
/// uses that the code then counts, `NotFound` where there is no such active
/// code, `Conflict` where the account has used it before or the code is
/// used up.
pub open spec fn spec_use_result(l: LedgerModel, code: Seq<char>, id: int) -> Result<
    int,
    EngineError,
> {
    if !spec_has_code(l.codes, code) || !spec_code(l.codes, code).is_active {
        Err(EngineError::NotFound)
    } else if spec_has_usage(l.usages, code, id) {
        Err(EngineError::Conflict)
    } else if spec_code(l.codes, code).current_uses >= spec_code(l.codes, code).max_uses {
        Err(EngineError::Conflict)
    } else {
        Ok(spec_code(l.codes, code).current_uses + 1)
    }
}

/// In a sequence without repetitions, at most one element meets a test that
/// only `v` can meet.
pub proof fn lemma_single_match<A>(s: Seq<A>, test: spec_fn(A) -> bool, v: A)
    requires
        forall|i: int, j: int| 0 <= i < s.len() && 0 <= j < s.len() && i != j ==> s[i] != s[j],
        forall|x: A| #[trigger] test(x) ==> x == v,
    ensures
        s.filter(test).len() <= 1,
    decreases s.len(),
{
    reveal(Seq::filter);
    if s.len() > 0 {
        let head = s.drop_last();
        lemma_single_match(head, test, v);
        if test(s.last()) {
            assert forall|k: int| 0 <= k < head.len() implies !test(#[trigger] head[k]) by {
                assert(head[k] == s[k]);
                assert(s[k] != s[s.len() - 1]);
            }
            assert(head.all(|x: A| !test(x)));
            head.lemma_all_neg_filter_empty(test);
        }
    }
}

/// No account is recorded twice for the same code: for every code and every
/// account, a well-formed ledger holds no usage row or one.
pub proof fn lemma_pair_used_at_most_once(l: LedgerModel, code: Seq<char>, id: int)
    requires
        spec_ledger_wf(l),
    ensures
        spec_pair_count(l.usages, code, id) <= 1,
        spec_pair_count(l.usages, code, id) == 1 <==> spec_has_usage(l.usages, code, id),
{
    let row = PromoUsageModel { code: code, telegram_id: id };
    let test = of_pair(code, id);
    lemma_single_match(l.usages, test, row);
    if spec_has_usage(l.usages, code, id) {
        let j = choose|j: int|
            0 <= j < l.usages.len() && (#[trigger] l.usages[j]).code == code
                && l.usages[j].telegram_id == id;
        assert(test(l.usages[j]));
        l.usages.lemma_filter_contains(test, j);
        assert(l.usages.filter(test).len() > 0);
    } else {
        assert forall|k: int| 0 <= k < l.usages.len() implies !test(#[trigger] l.usages[k]) by {}
        assert(l.usages.all(|x: PromoUsageModel| !test(x)));
        l.usages.lemma_all_neg_filter_empty(test);
    }
}

/// Every code of a well-formed ledger counts exactly its usage rows.
pub proof fn lemma_uses_match_rows(l: LedgerModel, code: Seq<char>)
    requires
        spec_ledger_wf(l),
        spec_has_code(l.codes, code),
    ensures
        spec_code(l.codes, code).current_uses == spec_usage_count(l.usages, code),
        spec_code(l.codes, code).current_uses <= spec_code(l.codes, code).max_uses,
{
    let i = choose|i: int| 0 <= i < l.codes.len() && (#[trigger] l.codes[i]).code == code;
    lemma_code_at(l, i);
}

/// A use that succeeds leaves the ledger well formed.
pub proof fn lemma_use_keeps_wf(l: LedgerModel, code: Seq<char>, id: int)
    requires
        spec_ledger_wf(l),
        spec_use_result(l, code, id).is_ok(),
    ensures
        spec_ledger_wf(spec_used(l, code, id)),
{
    let after = spec_used(l, code, id);
    let row = PromoUsageModel { code: code, telegram_id: id };
    let c = choose|i: int| 0 <= i < l.codes.len() && (#[trigger] l.codes[i]).code == code;
    lemma_code_at(l, c);
    assert forall|i: int, j: int|
        0 <= i < after.usages.len() && 0 <= j < after.usages.len() && i != j implies #[trigger] after.usages[i]
        != #[trigger] after.usages[j] by {
        if i < l.usages.len() && j < l.usages.len() {
            assert(l.usages[i] != l.usages[j]);
        } else if i < l.usages.len() {
            assert(!(l.usages[i].code == code && l.usages[i].telegram_id == id));
        } else {
            assert(!(l.usages[j].code == code && l.usages[j].telegram_id == id));
        }
    }
    assert forall|j: int| 0 <= j < after.usages.len() implies spec_has_code(
        after.codes,
        (#[trigger] after.usages[j]).code,
    ) by {
        let wanted = after.usages[j].code;
        if j < l.usages.len() {
            assert(spec_has_code(l.codes, l.usages[j].code));
        }
        let i = choose|i: int| 0 <= i < l.codes.len() && (#[trigger] l.codes[i]).code == wanted;
        assert(after.codes[i].code == wanted);
    }
    assert forall|i: int| 0 <= i < after.codes.len() implies (#[trigger] after.codes[i]).current_uses
        == spec_usage_count(after.usages, after.codes[i].code) && after.codes[i].current_uses
        <= after.codes[i].max_uses by {
        let name = l.codes[i].code;
        assert(after.codes[i].code == name);
        l.usages.lemma_filter_push(row, of_code(name));
        if name == code {
            assert(i == c);
        }
    }
}

/// An account cannot use a code twice: after a use that succeeded, the same
/// use is refused with `Conflict`.
pub proof fn lemma_second_use_refused(l: LedgerModel, code: Seq<char>, id: int)
    requires
        spec_ledger_wf(l),
        spec_use_result(l, code, id).is_ok(),
    ensures
        spec_use_result(spec_used(l, code, id), code, id) == Err::<int, EngineError>(
            EngineError::Conflict,
        ),
{
    let after = spec_used(l, code, id);
    lemma_use_keeps_wf(l, code, id);
    let c = choose|i: int| 0 <= i < l.codes.len() && (#[trigger] l.codes[i]).code == code;
    lemma_code_at(l, c);
    assert(after.codes[c].code == code);
    lemma_code_at(after, c);
    let last = after.usages.len() - 1;
    assert(after.usages[last].code == code && after.usages[last].telegram_id == id);
}

/// A usage row, once written, stays and keeps the pair out: whatever is
/// created, deactivated or used afterwards, the ledger still records that
/// the account `id` used the code `code`, and refuses the pair another use.
pub proof fn lemma_used_pair_stays_refused(
    l: LedgerModel,
    code: Seq<char>,
    id: int,
    row: PromoCodeModel,
    other_code: Seq<char>,
    other_id: int,
)
    requires
        spec_has_usage(l.usages, code, id),
    ensures
        spec_use_result(l, code, id).is_err(),
        spec_has_usage(spec_created(l, row).usages, code, id),
        spec_has_usage(spec_deactivated(l, other_code).usages, code, id),
        spec_has_usage(spec_used(l, other_code, other_id).usages, code, id),
{
    let j = choose|j: int|
        0 <= j < l.usages.len() && (#[trigger] l.usages[j]).code == code && l.usages[j].telegram_id
            == id;
    let after = spec_used(l, other_code, other_id).usages;
    assert(after[j].code == code && after[j].telegram_id == id);
}

impl PromoRejection {
    /// The reason as it is reported to the caller.
    pub open spec fn spec_reason(self) -> Seq<char> {
        match self {
            PromoRejection::UnknownCode => "not_found"@,
            PromoRejection::Inactive => "inactive"@,
            PromoRejection::Exhausted => "exhausted"@,
            PromoRejection::WrongTariff => "wrong_tariff"@,
            PromoRejection::AlreadyUsed => "already_used"@,
        }
    }

    /// Returns the reason as it is reported to the caller.
    pub fn reason(self) -> (r: String)
        ensures
            r@ == self.spec_reason(),
    {
        match self {
            PromoRejection::UnknownCode => String::from_str("not_found"),
            PromoRejection::Inactive => String::from_str("inactive"),
            PromoRejection::Exhausted => String::from_str("exhausted"),
            PromoRejection::WrongTariff => String::from_str("wrong_tariff"),
            PromoRejection::AlreadyUsed => String::from_str("already_used"),
        }
    }
}

/// Tells whether `tariff` occurs in `list`.
pub fn lists_tariff(list: &Vec<String>, tariff: &String) -> (r: bool)
    ensures
        r == list@.map_values(|t: String| t@).contains(tariff@),
{
    let ghost texts = list@.map_values(|t: String| t@);
    let mut i: usize = 0;
    while i < list.len()
        invariant
            i <= list.len(),
            texts == list@.map_values(|t: String| t@),
            forall|k: int| 0 <= k < i ==> #[trigger] texts[k] != tariff@,
        decreases list.len() - i,
    {
        if list[i] == *tariff {
            assert(texts[i as int] == tariff@);
            return true;
        }
        i = i + 1;
    }
    false
}

/// The mathematical content of a list of promo codes.
pub open spec fn codes_view(codes: Seq<PromoCode>) -> Seq<PromoCodeModel> {
    codes.map_values(|c: PromoCode| c@)
}

/// The mathematical content of a list of usage rows.
pub open spec fn usages_view(usages: Seq<PromoUsage>) -> Seq<PromoUsageModel> {
    usages.map_values(|u: PromoUsage| u@)
}

/// Tells whether every code occurs once in `codes`.
pub fn codes_distinct(codes: &Vec<PromoCode>) -> (r: bool)
    ensures
        r == spec_codes_distinct(codes_view(codes@)),
{
    let ghost rows = codes_view(codes@);
    let mut i: usize = 0;
    while i < codes.len()
        invariant
            i <= codes.len(),
            rows == codes_view(codes@),
            forall|a: int, b: int|
                0 <= a < i && 0 <= b < a ==> (#[trigger] rows[a]).code != (#[trigger] rows[b]).code,
        decreases codes.len() - i,
    {
        let mut j: usize = 0;
        while j < i
            invariant
                j <= i < codes.len(),
                rows == codes_view(codes@),
                forall|b: int| 0 <= b < j ==> rows[i as int].code != (#[trigger] rows[b]).code,
            decreases i - j,
        {
            if codes[i].code == codes[j].code {
                assert(rows[i as int].code == rows[j as int].code);
                return false;
            }
            j = j + 1;
        }
        i = i + 1;
    }
    assert forall|a: int, b: int|
        0 <= a < rows.len() && 0 <= b < rows.len() && a != b implies (#[trigger] rows[a]).code != (
    #[trigger] rows[b]).code by {
        if b < a {
            assert(rows[a].code != rows[b].code);
        } else {
            assert(rows[b].code != rows[a].code);
        }
    }
    true
}

/// Tells whether no usage row occurs twice in `usages`.
pub fn usages_distinct(usages: &Vec<PromoUsage>) -> (r: bool)
    ensures
        r == spec_usages_distinct(usages_view(usages@)),
{
    let ghost rows = usages_view(usages@);
    let mut i: usize = 0;
    while i < usages.len()
        invariant
            i <= usages.len(),
            rows == usages_view(usages@),
            forall|a: int, b: int| 0 <= a < i && 0 <= b < a ==> #[trigger] rows[a] != #[trigger] rows[b],
        decreases usages.len() - i,
    {
        let mut j: usize = 0;
        while j < i
            invariant
                j <= i < usages.len(),
                rows == usages_view(usages@),
                forall|b: int| 0 <= b < j ==> rows[i as int] != #[trigger] rows[b],
            decreases i - j,
        {
            if usages[i].telegram_id == usages[j].telegram_id && usages[i].code == usages[j].code {
                assert(rows[i as int] == rows[j as int]);
                return false;
            }
            j = j + 1;
        }
        i = i + 1;
    }
    assert forall|a: int, b: int|
        0 <= a < rows.len() && 0 <= b < rows.len() && a != b implies #[trigger] rows[a]
        != #[trigger] rows[b] by {
        if b < a {
            assert(rows[a] != rows[b]);
        } else {
            assert(rows[b] != rows[a]);
        }
    }
    true
}

/// Tells whether `codes` holds the code `code`.
pub fn holds_code(codes: &Vec<PromoCode>, code: &String) -> (r: bool)
    ensures
        r == spec_has_code(codes_view(codes@), code@),
{
    let ghost rows = codes_view(codes@);
    let mut i: usize = 0;
    while i < codes.len()
        invariant
            i <= codes.len(),
            rows == codes_view(codes@),
            forall|k: int| 0 <= k < i ==> (#[trigger] rows[k]).code != code@,
        decreases codes.len() - i,
    {
        if codes[i].code == *code {
            assert(rows[i as int].code == code@);
            return true;
        }
        i = i + 1;
    }
    false
}

/// Tells whether every usage row of `usages` belongs to a code of `codes`.
pub fn usages_belong(codes: &Vec<PromoCode>, usages: &Vec<PromoUsage>) -> (r: bool)
    ensures
        r == spec_usages_belong(codes_view(codes@), usages_view(usages@)),
{
    let ghost rows = usages_view(usages@);
    let mut j: usize = 0;
    while j < usages.len()
        invariant
            j <= usages.len(),
            rows == usages_view(usages@),
            forall|k: int|
                0 <= k < j ==> spec_has_code(codes_view(codes@), (#[trigger] rows[k]).code),
        decreases usages.len() - j,
    {
        if !holds_code(codes, &usages[j].code) {
            assert(!spec_has_code(codes_view(codes@), rows[j as int].code));
            return false;
        }
        j = j + 1;
    }
    true
}

/// Returns the number of usage rows of the code `code`.
pub fn count_usages(usages: &Vec<PromoUsage>, code: &String) -> (r: usize)
    ensures
        r == spec_usage_count(usages_view(usages@), code@),
{
    let ghost rows = usages_view(usages@);
    let ghost test = of_code(code@);
    let mut n: usize = 0;
    let mut j: usize = 0;
    proof {
        reveal(Seq::filter);
    }
    assert(rows.take(0) =~= Seq::<PromoUsageModel>::empty());
    while j < usages.len()
        invariant
            j <= usages.len(),
            rows == usages_view(usages@),
            test == of_code(code@),
            n == rows.take(j as int).filter(test).len(),
            n <= j,
        decreases usages.len() - j,
    {
        proof {
            let head = rows.take(j as int);
            assert(rows.take(j + 1) =~= head.push(rows[j as int]));
            head.lemma_filter_push(rows[j as int], test);
        }
        if usages[j].code == *code {
            n = n + 1;
        }
        j = j + 1;
    }
    assert(rows.take(j as int) =~= rows);
    n
}

/// Tells whether every code of `codes` counts exactly its usage rows in
/// `usages`, and no more than it allows.
pub fn counts_match(codes: &Vec<PromoCode>, usages: &Vec<PromoUsage>) -> (r: bool)
    ensures
        r == spec_counts_match(codes_view(codes@), usages_view(usages@)),
{
    let ghost rows = codes_view(codes@);
    let mut i: usize = 0;
    while i < codes.len()
        invariant
            i <= codes.len(),
            rows == codes_view(codes@),
            forall|k: int| 0 <= k < i ==> spec_count_matches(#[trigger] rows[k], usages_view(usages@)),
        decreases codes.len() - i,
    {
        let counted = count_usages(usages, &codes[i].code);
        let promo = &codes[i];
        if promo.current_uses > promo.max_uses || counted > u32::MAX as usize || counted as u32
            != promo.current_uses {
            assert(!spec_count_matches(rows[i as int], usages_view(usages@)));
            return false;
        }
        i = i + 1;
    }
    true
}

impl PromoLedger {
    /// Makes a ledger of the stored codes and usage rows, provided that they
    /// are well formed together.
    pub fn from_rows(codes: Vec<PromoCode>, usages: Vec<PromoUsage>) -> (r: Option<PromoLedger>)
        ensures
            r.is_some() <==> spec_ledger_wf(
                (LedgerModel { codes: codes_view(codes@), usages: usages_view(usages@) }),
            ),
            r matches Some(l) ==> l.wf() && l.codes == codes && l.usages == usages,
    {
        if codes_distinct(&codes) && usages_distinct(&usages) && usages_belong(&codes, &usages)
            && counts_match(&codes, &usages) {
            Some(PromoLedger { codes, usages })
        } else {
            None
        }
    }

    /// Holds when the ledger's content is well formed.
    pub open spec fn wf(&self) -> bool {
        spec_ledger_wf(self@)
    }

    /// Creates a ledger without codes.
    pub fn new() -> (r: PromoLedger)
        ensures
            r.wf(),
            r@.codes == Seq::<PromoCodeModel>::empty(),
            r@.usages == Seq::<PromoUsageModel>::empty(),
    {
        let r = PromoLedger { codes: Vec::new(), usages: Vec::new() };
        assert(r@.codes =~= Seq::<PromoCodeModel>::empty());
        assert(r@.usages =~= Seq::<PromoUsageModel>::empty());
        r
    }

    /// Returns the first position of the code `code`, if the ledger holds it.
    pub fn find_code(&self, code: &String) -> (r: Option<usize>)
        ensures
            r.is_some() <==> spec_has_code(self@.codes, code@),
            r matches Some(i) ==> i < self@.codes.len() && self@.codes[i as int].code == code@,
            r matches Some(i) ==> forall|k: int|
                0 <= k < i ==> (#[trigger] self@.codes[k]).code != code@,
    {
        let mut i: usize = 0;
        while i < self.codes.len()
            invariant
                i <= self.codes.len(),
                forall|k: int| 0 <= k < i ==> (#[trigger] self@.codes[k]).code != code@,
            decreases self.codes.len() - i,
        {
            if self.codes[i].code == *code {
                assert(self@.codes[i as int].code == code@);
                return Some(i);
            }
            i = i + 1;
        }
        None
    }

    /// Tells whether the account `telegram_id` has used the code `code`.
    pub fn has_usage(&self, code: &String, telegram_id: i64) -> (r: bool)
        ensures
            r == spec_has_usage(self@.usages, code@, telegram_id as int),
    {
        let mut j: usize = 0;
        while j < self.usages.len()
            invariant
                j <= self.usages.len(),
                forall|k: int|
                    0 <= k < j ==> !((#[trigger] self@.usages[k]).code == code@
                        && self@.usages[k].telegram_id == telegram_id),
            decreases self.usages.len() - j,
        {
            if self.usages[j].telegram_id == telegram_id && self.usages[j].code == *code {
                assert(self@.usages[j as int].code == code@);
                return true;
            }
            j = j + 1;
        }
        false
    }

    /// Checks whether the account `telegram_id` can apply the code `code` to
    /// the plan `tariff`, and returns the discount in percent or the first
    /// check that fails. Nothing is changed.
    pub fn validate(&self, code: &String, tariff: &String, telegram_id: i64) -> (r: Result<
        u32,
        PromoRejection,
    >)
        requires
            self.wf(),
        ensures
            match spec_validate(self@, code@, tariff@, telegram_id as int) {
                Ok(discount) => r matches Ok(got) && got == discount,
                Err(e) => r == Err::<u32, PromoRejection>(e),
            },
    {
        let i = match self.find_code(code) {
            None => {
                return Err(PromoRejection::UnknownCode);
            },
            Some(i) => i,
        };
        proof {
            lemma_code_at(self@, i as int);
        }
        let promo = &self.codes[i];
        if !promo.is_active {
            return Err(PromoRejection::Inactive);
        }
        if promo.current_uses >= promo.max_uses {
            return Err(PromoRejection::Exhausted);
        }
        if !(tariff.as_str().is_empty() || lists_tariff(&promo.applicable_tariffs, tariff)) {
            return Err(PromoRejection::WrongTariff);
        }
        if self.has_usage(code, telegram_id) {
            return Err(PromoRejection::AlreadyUsed);
        }
        Ok(promo.discount_percent)
    }

    /// Adds a promo code that has not been used yet and is active. A code
    /// that the ledger holds already is refused with `Conflict`.
    pub fn create(
        &mut self,
        code: String,
        discount_percent: u32,
        applicable_tariffs: Vec<String>,
        max_uses: u32,
    ) -> (r: Result<(), EngineError>)
        requires
            old(self).wf(),
        ensures
            final(self).wf(),
            r.is_ok() <==> !spec_has_code(old(self)@.codes, code@),
            r matches Err(e) ==> e == EngineError::Conflict && final(self)@ == old(self)@,
            r.is_ok() ==> final(self)@ == spec_created(
                old(self)@,
                spec_fresh_code(
                    code@,
                    discount_percent as int,
                    applicable_tariffs@.map_values(|t: String| t@),
                    max_uses as int,
                ),
            ),
    {
        if self.find_code(&code).is_some() {
            return Err(EngineError::Conflict);
        }
        let row = PromoCode {
            code,
            discount_percent,
            applicable_tariffs,
            max_uses,
            current_uses: 0,
            is_active: true,
        };
        let ghost before = self@;
        let ghost after = spec_created(before, row@);
        self.codes.push(row);
        assert(self@.codes =~= after.codes);
        assert(self@.usages =~= after.usages);
        proof {
            let name = row@.code;
            assert forall|k: int| 0 <= k < before.usages.len() implies !(of_code(name))(
                #[trigger] before.usages[k],
            ) by {
                assert(spec_has_code(before.codes, before.usages[k].code));
            }
            assert(before.usages.all(|u: PromoUsageModel| !(of_code(name))(u)));
            before.usages.lemma_all_neg_filter_empty(of_code(name));
            assert forall|j: int| 0 <= j < after.usages.len() implies spec_has_code(
                after.codes,
                (#[trigger] after.usages[j]).code,
            ) by {
                let wanted = after.usages[j].code;
                assert(spec_has_code(before.codes, before.usages[j].code));
                let i = choose|i: int|
                    0 <= i < before.codes.len() && (#[trigger] before.codes[i]).code == wanted;
                assert(after.codes[i].code == wanted);
            }
        }
        Ok(())
    }

    /// Deactivates the code `code`; its usage rows stay. A code that the
    /// ledger does not hold is reported as `NotFound`.
    pub fn deactivate(&mut self, code: &String) -> (r: Result<(), EngineError>)
        requires
            old(self).wf(),
        ensures
            final(self).wf(),
            r.is_ok() <==> spec_has_code(old(self)@.codes, code@),
            r matches Err(e) ==> e == EngineError::NotFound,
            final(self)@ == spec_deactivated(old(self)@, code@),
    {
        let ghost before = self@;
        let ghost after = spec_deactivated(before, code@);
        match self.find_code(code) {
            None => {
                assert(self@.codes =~= after.codes);
                Err(EngineError::NotFound)
            },
            Some(i) => {
                self.codes[i].is_active = false;
                assert(self@.codes =~= after.codes);
                assert(self@.usages =~= after.usages);
                proof {
                    assert forall|j: int| 0 <= j < after.usages.len() implies spec_has_code(
                        after.codes,
                        (#[trigger] after.usages[j]).code,
                    ) by {
                        let wanted = after.usages[j].code;
                        assert(spec_has_code(before.codes, before.usages[j].code));
                        let k = choose|k: int|
                            0 <= k < before.codes.len() && (#[trigger] before.codes[k]).code
                                == wanted;
                        assert(after.codes[k].code == wanted);
                    }
                    assert forall|k: int| 0 <= k < after.codes.len() implies (
                    #[trigger] after.codes[k]).current_uses == spec_usage_count(
                        after.usages,
                        after.codes[k].code,
                    ) && after.codes[k].current_uses <= after.codes[k].max_uses by {
                        assert(before.codes[k].code == after.codes[k].code);
                    }
                }
                Ok(())
            },
        }
    }

    /// Records that the account `telegram_id` uses the code `code`, and
    /// returns the number of uses that the code then counts. The usage row
    /// and the count change together or not at all.
    pub fn use_code(&mut self, code: &String, telegram_id: i64) -> (r: Result<u32, EngineError>)
        requires
            old(self).wf(),
        ensures
            final(self).wf(),
            match spec_use_result(old(self)@, code@, telegram_id as int) {
                Ok(uses) => r matches Ok(got) && got == uses && final(self)@ == spec_used(
                    old(self)@,
                    code@,
                    telegram_id as int,
                ),
                Err(e) => r == Err::<u32, EngineError>(e) && final(self)@ == old(self)@,
            },
    {
        let i = match self.find_code(code) {
            None => {
                return Err(EngineError::NotFound);
            },
            Some(i) => i,
        };
        proof {
            lemma_code_at(self@, i as int);
        }
        if !self.codes[i].is_active {
            return Err(EngineError::NotFound);
        }
        if self.has_usage(code, telegram_id) {
            return Err(EngineError::Conflict);
        }
        if self.codes[i].current_uses >= self.codes[i].max_uses {
            return Err(EngineError::Conflict);
        }
        let ghost before = self@;
        let ghost after = spec_used(before, code@, telegram_id as int);
        self.usages.push(PromoUsage { code: code.clone(), telegram_id });
        self.codes[i].current_uses = self.codes[i].current_uses + 1;
        assert(self@.usages =~= after.usages);
        assert(self@.codes =~= after.codes);
        proof {
            lemma_use_keeps_wf(before, code@, telegram_id as int);
        }
        Ok(self.codes[i].current_uses)
    }
}

} // verus!
