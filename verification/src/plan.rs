use vstd::prelude::*;
use vstd::string::StringExecFns;

verus! {

/// Device limit of the family plan.
pub const FAMILY_DEVICE_LIMIT: u32 = 5;

/// Device limit of every other plan.
pub const BASE_DEVICE_LIMIT: u32 = 2;

/// Monthly traffic allowance of the trial plan, in bytes (25 GiB).
pub const TRIAL_TRAFFIC_BYTES: u64 = 26_843_545_600;

/// Whether `plan` is one of the two tags that never count as a plan change.
pub open spec fn spec_is_promotional(plan: Seq<char>) -> bool {
    plan == "trial"@ || plan == "free"@
}

/// The number of devices that `plan` allows.
pub open spec fn spec_device_limit(plan: Seq<char>) -> int {
    if plan == "family"@ { FAMILY_DEVICE_LIMIT as int } else { BASE_DEVICE_LIMIT as int }
}

/// The monthly traffic allowance of `plan` in bytes; 0 stands for "unlimited".
pub open spec fn spec_traffic_limit(plan: Seq<char>) -> int {
    if plan == "trial"@ { TRIAL_TRAFFIC_BYTES as int } else { 0 }
}

/// Whether an extension to `requested` counts as a change of plan for an
/// entitlement that is stored with the plan `stored`.
pub open spec fn spec_plan_changed(stored: Seq<char>, requested: Seq<char>) -> bool {
    stored != requested && !spec_is_promotional(requested)
}

/// Tells whether `plan` carries exactly the tag `tag`.
pub fn has_tag(plan: &String, tag: &str) -> (r: bool)
    ensures
        r == (plan@ == tag@),
{
    let wanted = String::from_str(tag);
    *plan == wanted
}

/// Tells whether `plan` is the trial or the free plan.
pub fn is_promotional(plan: &String) -> (r: bool)
    ensures
        r == spec_is_promotional(plan@),
{
    has_tag(plan, "trial") || has_tag(plan, "free")
}

/// Returns the number of devices that `plan` allows.
pub fn device_limit(plan: &String) -> (r: u32)
    ensures
        r == spec_device_limit(plan@),
{
    if has_tag(plan, "family") { FAMILY_DEVICE_LIMIT } else { BASE_DEVICE_LIMIT }
}

/// Returns the monthly traffic allowance of `plan` in bytes.
pub fn traffic_limit(plan: &String) -> (r: u64)
    ensures
        r == spec_traffic_limit(plan@),
{
    if has_tag(plan, "trial") { TRIAL_TRAFFIC_BYTES } else { 0 }
}

/// Tells whether extending an entitlement stored under `stored` with the plan
/// `requested` changes its plan.
pub fn plan_changed(stored: &String, requested: &String) -> (r: bool)
    ensures
        r == spec_plan_changed(stored@, requested@),
{
    !(*stored == *requested) && !is_promotional(requested)
}

} // verus!
