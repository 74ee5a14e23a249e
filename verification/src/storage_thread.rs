//! Which storage thread groups Servo starts: none when storage is disabled,
//! else a private and a public group with their memory reporter names.

use vstd::prelude::*;

verus! {

/// The plan for one group of storage threads.
pub enum StorageGroupPlan {
    /// Channels whose receiving ends are dropped at once.
    Disabled,
    /// Client storage, IndexedDB and web storage threads, reporting memory
    /// under the given names.
    Active { label: String, indexeddb_reporter: String, web_storage_reporter: String },
}

/// The plan of an active group labelled `label`.
pub open spec fn active_group(plan: StorageGroupPlan, label: Seq<char>) -> bool {
    plan matches StorageGroupPlan::Active { label: l, indexeddb_reporter, web_storage_reporter } && l@ == label
        && indexeddb_reporter@ == "indexedDB-reporter-"@ + label && web_storage_reporter@
        == "storage-reporter-"@ + label
}

/// The plan of the group labelled `label`.
pub fn storage_group_plan(label: &str) -> (r: StorageGroupPlan)
    ensures
        active_group(r, label@),
{
    let mut indexeddb_reporter = String::from_str("indexedDB-reporter-");
    indexeddb_reporter.append(label);
    let mut web_storage_reporter = String::from_str("storage-reporter-");
    web_storage_reporter.append(label);
    StorageGroupPlan::Active { label: String::from_str(label), indexeddb_reporter, web_storage_reporter }
}

/// The private and the public storage group.
pub fn storage_thread_plan(disabled: bool) -> (r: (StorageGroupPlan, StorageGroupPlan))
    ensures
        disabled ==> r.0 is Disabled && r.1 is Disabled,
        !disabled ==> active_group(r.0, "private"@) && active_group(r.1, "public"@),
{
    if disabled {
        return (StorageGroupPlan::Disabled, StorageGroupPlan::Disabled);
    }
    let private_group = storage_group_plan("private");
    let public_group = storage_group_plan("public");
    (private_group, public_group)
}

} // verus!
