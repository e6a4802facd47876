use icloudpd_optimizer::cloudkit::CloudKitUploadedHeicInitialState;
use icloudpd_optimizer::report::completed_apply_report;

#[test]
fn completed_report_distinguishes_prior_tombstones_from_migration_deletes() {
    let already_deleted = completed_apply_report(
        3,
        1,
        true,
        [CloudKitUploadedHeicInitialState::AlreadyDeleted; 2],
        0,
    );
    assert_eq!(already_deleted.retired_replacement_delete_calls, 0);
    assert_eq!(already_deleted.retired_replacements_already_deleted, 2);
    assert_eq!(already_deleted.retired_replacements_deleted_by_migration, 0);

    let active = completed_apply_report(
        3,
        1,
        true,
        [CloudKitUploadedHeicInitialState::Active; 2],
        2,
    );
    assert_eq!(active.retired_replacement_delete_calls, 2);
    assert_eq!(active.retired_replacements_already_deleted, 0);
    assert_eq!(active.retired_replacements_deleted_by_migration, 2);

    let mixed = completed_apply_report(
        3,
        1,
        true,
        [
            CloudKitUploadedHeicInitialState::ActiveUnmarked,
            CloudKitUploadedHeicInitialState::AlreadyDeleted,
        ],
        1,
    );
    assert_eq!(mixed.retired_replacement_delete_calls, 1);
    assert_eq!(mixed.retired_replacements_already_deleted, 1);
    assert_eq!(mixed.retired_replacements_deleted_by_migration, 1);
}
