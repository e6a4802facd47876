use vstd::prelude::*;

use crate::cloudkit::CloudKitUploadedHeicInitialState;
use crate::document::RETIRED_REPLACEMENT_COUNT;

verus! {

/// What an operator is told of a migration that was carried out.
#[derive(Clone, Copy, Debug, PartialEq, Eq, Structural)]
pub struct LegacyUploadMigrationApplyReport {
    pub phase_count: u64,
    pub cohort_count: u64,
    pub checkpoint_current: bool,
    /// How often CloudKit was asked to delete a replacement.
    pub retired_replacement_delete_calls: u64,
    /// How many replacements had been deleted before the migration began.
    pub retired_replacements_already_deleted: u64,
    /// How many replacements the migration itself deleted.
    pub retired_replacements_deleted_by_migration: u64,
}

/// How many of the first replacements CloudKit had first found deleted.
pub open spec fn already_deleted(states: Seq<CloudKitUploadedHeicInitialState>, n: int) -> nat
    decreases n,
{
    if n <= 0 {
        0
    } else if states[n - 1] is AlreadyDeleted {
        already_deleted(states, n - 1) + 1
    } else {
        already_deleted(states, n - 1)
    }
}

/// The report of a migration that was carried out. A replacement that had been deleted before is
/// not counted as one that the migration deleted.
pub fn completed_apply_report(
    phase_count: u64,
    cohort_count: u64,
    checkpoint_current: bool,
    initial_remote_states: [CloudKitUploadedHeicInitialState; 2],
    delete_calls: u64,
) -> (r: LegacyUploadMigrationApplyReport)
    ensures
        r.phase_count == phase_count,
        r.cohort_count == cohort_count,
        r.checkpoint_current == checkpoint_current,
        r.retired_replacement_delete_calls == delete_calls,
        r.retired_replacements_already_deleted == already_deleted(
            initial_remote_states@,
            RETIRED_REPLACEMENT_COUNT as int,
        ),
        r.retired_replacements_deleted_by_migration + r.retired_replacements_already_deleted
            == RETIRED_REPLACEMENT_COUNT,
        r.retired_replacements_already_deleted == (if initial_remote_states@[0] is AlreadyDeleted {
            1int
        } else {
            0int
        }) + (if initial_remote_states@[1] is AlreadyDeleted {
            1int
        } else {
            0int
        }),
{
    proof {
        reveal_with_fuel(already_deleted, 3);
    }
    let mut deleted: u64 = 0;
    let mut i: usize = 0;
    while i < RETIRED_REPLACEMENT_COUNT
        invariant
            i <= RETIRED_REPLACEMENT_COUNT,
            deleted <= i,
            deleted == already_deleted(initial_remote_states@, i as int),
        decreases RETIRED_REPLACEMENT_COUNT - i,
    {
        match initial_remote_states[i] {
            CloudKitUploadedHeicInitialState::AlreadyDeleted => {
                deleted += 1;
            },
            _ => {},
        }
        i += 1;
    }
    LegacyUploadMigrationApplyReport {
        phase_count,
        cohort_count,
        checkpoint_current,
        retired_replacement_delete_calls: delete_calls,
        retired_replacements_already_deleted: deleted,
        retired_replacements_deleted_by_migration: RETIRED_REPLACEMENT_COUNT as u64 - deleted,
    }
}

/// Every place whose upload was found deleted counts once, wherever it stands, and no other does.
pub proof fn every_deleted_upload_counts_once(
    states: Seq<CloudKitUploadedHeicInitialState>,
    n: int,
)
    requires
        0 <= n <= states.len(),
    ensures
        already_deleted(states, n) == states.take(n).filter(
            |state: CloudKitUploadedHeicInitialState| state is AlreadyDeleted,
        ).len(),
    decreases n,
{
    let deleted = |state: CloudKitUploadedHeicInitialState| state is AlreadyDeleted;
    reveal(Seq::filter);
    if n > 0 {
        every_deleted_upload_counts_once(states, n - 1);
        assert(states.take(n).drop_last() =~= states.take(n - 1));
        assert(states.take(n).last() == states[n - 1]);
        assert(states.take(n).filter(deleted).len() == states.take(n - 1).filter(deleted).len()
            + (if states[n - 1] is AlreadyDeleted {
            1int
        } else {
            0int
        }));
    }
}

/// It makes no difference which of two uploads was found deleted.
pub proof fn deleted_uploads_count_in_any_order(
    first: CloudKitUploadedHeicInitialState,
    second: CloudKitUploadedHeicInitialState,
)
    ensures
        already_deleted(seq![first, second], 2) == already_deleted(seq![second, first], 2),
        already_deleted(seq![first, first], 2) == 2 * already_deleted(seq![first], 1),
        already_deleted(seq![first, second], 2) == 0 <==> !(first is AlreadyDeleted) && !(
        second is AlreadyDeleted),
{
    reveal_with_fuel(already_deleted, 3);
}

} // verus!
