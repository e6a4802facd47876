use icloudpd_optimizer::canonicalization::{
    destination_fields_presence, original_asset_proof_destination_fields,
};
use icloudpd_optimizer::cohort::generated_migration_id;
use icloudpd_optimizer::conversion::{
    is_verified_conversion_output_at_path, is_verified_conversion_source_for_quarantine,
    manifest_verified_conversion_output,
};
use icloudpd_optimizer::devices::{renumber, renumber_roots};
use icloudpd_optimizer::digest::sha256_bytes;
use icloudpd_optimizer::error::failure;
use icloudpd_optimizer::identity::{is_digest, valid_identity, validate_ordered_unique};
use icloudpd_optimizer::manifest::{
    AssetRecord, ConversionResultProof, HeicVerificationProof, JournalSlot,
    LegacyUploadMigrationEntry, LegacyUploadMigrationIdentity, LegacyUploadMigrationJournal,
    Manifest, StoredProof,
};
use icloudpd_optimizer::order::stable_sort;
use icloudpd_optimizer::path::{
    file_name, is_parent, join_path, parent_path, replace_extension, safe_absolute_path, same_path,
};
use icloudpd_optimizer::phase::{LegacyUploadMigrationPhase, State};
use icloudpd_optimizer::plan::{
    seal_legacy_upload_migration_quarantine_plan,
};
use icloudpd_optimizer::quarantine::{
    is_key_before, LegacyUploadMigrationQuarantineFileIdentity,
    LegacyUploadMigrationQuarantineKind, LegacyUploadMigrationQuarantineMember,
    LegacyUploadMigrationQuarantinePlan, QuarantineRawInput, QuarantineRoot,
};
use icloudpd_optimizer::sealed::{EvidenceMetadata, HeldGenerationSource, SourceRead};
use icloudpd_optimizer::signer::parse_designated_requirement;
use icloudpd_optimizer::text::{chars_of, same_text, text_before, text_of};

fn digest(label: &str) -> String {
    sha256_bytes(label.as_bytes())
}

#[test]
fn digests_are_those_of_sha256() {
    assert_eq!(
        sha256_bytes(b""),
        "e3b0c44298fc1c149afbf4c8996fb92427ae41e4649b934ca495991b7852b855"
    );
    assert_eq!(
        sha256_bytes(b"abc"),
        "ba7816bf8f01cfea414140de5dae2223b00361a396177a9cb410ff61f20015ad"
    );
}

#[test]
fn a_digest_is_written_in_lower_case_hexadecimal() {
    assert!(is_digest(&digest("anything")));
    assert!(!is_digest(&digest("anything").to_uppercase()));
    assert!(!is_digest(&digest("anything")[1..]));
    assert!(!is_digest(&"g".repeat(64)));
    assert!(!is_digest(""));
}

#[test]
fn an_identity_has_no_blanks_or_control_characters_around_it() {
    assert!(valid_identity("asset-1"));
    assert!(!valid_identity(""));
    assert!(!valid_identity(" asset"));
    assert!(!valid_identity("asset\n"));
    assert!(!valid_identity("asset\u{a0}"));
    assert!(!valid_identity("as\u{7f}set"));
    assert!(valid_identity("as set"));
    assert!(valid_identity(&"a".repeat(1024)));
    assert!(!valid_identity(&"a".repeat(1025)));
    assert!(!valid_identity(&"ä".repeat(513)));
}

#[test]
fn identities_come_in_strictly_ascending_order() {
    assert!(validate_ordered_unique(&["a", "b", "c"]).is_ok());
    assert_eq!(
        validate_ordered_unique(&["a", "a"]).unwrap_err().category(),
        "asset_order"
    );
    assert_eq!(
        validate_ordered_unique(&["b", "a"]).unwrap_err().category(),
        "asset_order"
    );
}

#[test]
fn errors_tell_their_category_alone() {
    let error = failure("recovery_root");
    assert_eq!(error.category(), "recovery_root");
    assert_eq!(
        error.message(),
        "legacy uploaded HEIC migration audit failed: category=recovery_root"
    );
}

#[test]
fn texts_are_compared_character_by_character() {
    assert!(same_text("äb", "äb"));
    assert!(!same_text("a", "ab"));
    assert!(text_before("a", "ab"));
    assert!(text_before("Z", "a"));
    assert!(text_before("b", "ä"));
    assert!(!text_before("a", "a"));
    assert_eq!(text_of(&chars_of("äb")), "äb");
}

#[test]
fn paths_are_compared_by_their_components() {
    assert!(same_path("/a//b/./c/", "/a/b/c"));
    assert!(!same_path("/a/b", "a/b"));
    assert!(!same_path("/a/../b", "/b"));
    assert!(safe_absolute_path("/a/b"));
    assert!(!safe_absolute_path("a/b"));
    assert!(!safe_absolute_path("/a/../b"));
    assert!(!safe_absolute_path(""));
    assert!(is_parent("/a/b/c", "/a/b"));
    assert!(!is_parent("/a/b/c", "/a"));
}

#[test]
fn paths_are_taken_apart_and_put_together() {
    assert_eq!(file_name("/a/b.heic").as_deref(), Some("b.heic"));
    assert_eq!(file_name("/a/.."), None);
    assert_eq!(file_name("/"), None);
    assert_eq!(parent_path("/a/b"), "/a");
    assert_eq!(join_path("/a", "b"), "/a/b");
    assert_eq!(join_path("/a/", "b"), "/a/b");
    assert_eq!(join_path("/a", "/b"), "/b");
    assert_eq!(
        replace_extension("/a/b.heic", ".oriented-preview.jpg"),
        "/a/b.oriented-preview.jpg"
    );
    assert_eq!(
        replace_extension("/a.b/c", ".oriented-preview.jpg"),
        "/a.b/c.oriented-preview.jpg"
    );
}

#[test]
fn original_proofs_name_both_parts_of_a_destination_or_neither() {
    assert_eq!(destination_fields_presence(true, true).unwrap(), true);
    assert_eq!(destination_fields_presence(false, false).unwrap(), false);
    assert!(destination_fields_presence(true, false).is_err());
    assert!(original_asset_proof_destination_fields(
        br#"{"database_scope":"private","zone_name":"PrimarySync"}"#
    )
    .unwrap());
    assert!(!original_asset_proof_destination_fields(br#"{"filename":"a.dng"}"#).unwrap());
    assert_eq!(
        original_asset_proof_destination_fields(br#"{"zone_name":"PrimarySync"}"#)
            .unwrap_err()
            .category(),
        "proof_lineage"
    );
    assert_eq!(
        original_asset_proof_destination_fields(b"[1]")
            .unwrap_err()
            .category(),
        "proof_lineage"
    );
    assert_eq!(
        original_asset_proof_destination_fields(b"{")
            .unwrap_err()
            .category(),
        "proof_lineage"
    );
}

#[test]
fn requirements_that_are_no_text_are_refused() {
    assert_eq!(
        parse_designated_requirement(&[0xff, 0xfe], b"")
            .unwrap_err()
            .category(),
        "recovery_signer"
    );
}

#[test]
fn a_migration_is_named_after_its_targets() {
    assert_eq!(
        generated_migration_id("m", "c"),
        digest("[5,\"legacy-uploaded-heic-evidence-generator-v1\",\"m\",\"c\"]")
    );
}

#[test]
fn the_phases_have_an_order_names_and_states() {
    let phases = [
        (LegacyUploadMigrationPhase::Prepared, "prepared"),
        (LegacyUploadMigrationPhase::DeleteConfirmed, "delete_confirmed"),
        (LegacyUploadMigrationPhase::Quarantined, "quarantined"),
        (LegacyUploadMigrationPhase::Reset, "reset"),
        (LegacyUploadMigrationPhase::Converted, "converted"),
        (LegacyUploadMigrationPhase::UploadPrepared, "upload_prepared"),
        (LegacyUploadMigrationPhase::UploadVerified, "upload_verified"),
        (LegacyUploadMigrationPhase::Mirrored, "mirrored"),
        (LegacyUploadMigrationPhase::Complete, "complete"),
    ];
    for (index, (phase, name)) in phases.into_iter().enumerate() {
        assert_eq!(phase.index(), index);
        assert_eq!(phase.as_str(), name);
    }
    assert_eq!(
        LegacyUploadMigrationPhase::Reset.state(),
        State::NasVerified
    );
    assert_eq!(
        LegacyUploadMigrationPhase::Converted.state(),
        State::ConversionVerified
    );
    assert_eq!(
        LegacyUploadMigrationPhase::Mirrored.state(),
        State::UploadVerified
    );
}

fn root(path: &str, device: u64, inode: u64) -> QuarantineRoot {
    QuarantineRoot {
        canonical_path: path.to_string(),
        device,
        inode,
        owner: 501,
        mode: 0o700,
    }
}

fn file(inode: u64, label: &str) -> LegacyUploadMigrationQuarantineFileIdentity {
    LegacyUploadMigrationQuarantineFileIdentity {
        device: 1,
        inode,
        owner: 501,
        mode: 0o600,
        link_count: 1,
        size_bytes: 1,
        modified_unix_seconds: 1,
        modified_unix_nanoseconds: 0,
        sha256: digest(label),
    }
}

fn plan() -> LegacyUploadMigrationQuarantinePlan {
    LegacyUploadMigrationQuarantinePlan {
        schema_version: 1,
        roots: vec![root("/quarantine", 1, 1)],
        members: (0..9)
            .map(|index| LegacyUploadMigrationQuarantineMember {
                asset_id: format!("member-{index}"),
                kind: match index {
                    0..=1 => LegacyUploadMigrationQuarantineKind::Final,
                    2..=6 => LegacyUploadMigrationQuarantineKind::Reference,
                    _ => LegacyUploadMigrationQuarantineKind::OldMirror,
                },
                source_path: format!("/source/{index}"),
                destination_path: format!("/quarantine/cohort/{index}"),
                source: file(index + 10, &format!("member-{index}")),
                root_device: 1,
            })
            .collect(),
        raw_inputs: (0..10)
            .map(|index| QuarantineRawInput {
                asset_id: format!("raw-{index}"),
                path: format!("/raw/{index}"),
                source: file(index + 30, &format!("raw-{index}")),
            })
            .collect(),
        plan_sha256: String::new(),
    }
}

fn plan_json(plan: &LegacyUploadMigrationQuarantinePlan) -> Option<Vec<u8>> {
    Some(format!("{:?}", (&plan.roots, &plan.members, &plan.raw_inputs)).into_bytes())
}

#[test]
fn two_device_quarantine_plan_seals_exact_members_and_rejects_device_drift() {
    let mut plan = plan();
    plan.roots.push(root("/nas-quarantine", 2, 2));
    for member in plan.members.iter_mut().skip(6) {
        member.source.device = 2;
        member.root_device = 2;
        let name = file_name(&member.destination_path).unwrap();
        member.destination_path = join_path("/nas-quarantine/cohort", &name);
    }
    let json = plan_json(&plan);
    let sealed = seal_legacy_upload_migration_quarantine_plan(plan, &json).unwrap();
    assert_eq!(sealed.plan_sha256, sha256_bytes(&json.unwrap()));
    assert_eq!(sealed.roots.len(), 2);
    assert_eq!(
        sealed
            .members
            .iter()
            .filter(|member| member.root_device == 2)
            .count(),
        3
    );

    let mut drifted = sealed;
    drifted.members[0].root_device = 2;
    let json = plan_json(&drifted);
    assert!(seal_legacy_upload_migration_quarantine_plan(drifted, &json).is_err());
}

#[test]
fn a_plan_that_cannot_be_written_down_is_not_sealed() {
    assert_eq!(
        seal_legacy_upload_migration_quarantine_plan(plan(), &None)
            .unwrap_err()
            .category(),
        "quarantine_mapping"
    );
}

#[test]
fn devices_are_renumbered_by_the_pairs_alone() {
    let pairs = vec![(1, 7), (2, 8)];
    assert_eq!(renumber(&pairs, 1), Some(7));
    assert_eq!(renumber(&pairs, 2), Some(8));
    assert_eq!(renumber(&pairs, 7), None);
    let roots = renumber_roots(&pairs, &vec![root("/a", 1, 1), root("/b", 2, 2)]).unwrap();
    assert_eq!(roots, vec![root("/a", 7, 1), root("/b", 8, 2)]);
    assert!(renumber_roots(&pairs, &vec![root("/a", 3, 1)]).is_none());
}

#[test]
fn sorting_keeps_equals_in_their_order() {
    let sorted = stable_sort(vec![
        root("/c", 2, 1),
        root("/b", 1, 1),
        root("/a", 2, 2),
        root("/d", 1, 2),
    ]);
    let paths: Vec<&str> = sorted
        .iter()
        .map(|root| root.canonical_path.as_str())
        .collect();
    assert_eq!(paths, ["/b", "/d", "/c", "/a"]);
}

#[test]
fn members_are_ordered_by_asset_and_then_by_kind() {
    let final_kind = LegacyUploadMigrationQuarantineKind::Final;
    let mirror = LegacyUploadMigrationQuarantineKind::OldMirror;
    assert!(is_key_before("a", mirror, "b", final_kind));
    assert!(is_key_before("a", final_kind, "a", mirror));
    assert!(!is_key_before("a", mirror, "a", mirror));
    assert!(!is_key_before("b", final_kind, "a", mirror));
}

fn metadata() -> EvidenceMetadata {
    EvidenceMetadata {
        is_regular: true,
        dev: 7,
        ino: 11,
        mode: 0o100600,
        uid: 501,
        gid: 20,
        nlink: 1,
        size: 3,
        mtime: 5,
        mtime_nsec: 6,
        ctime: 7,
        ctime_nsec: 8,
    }
}

#[test]
fn a_held_source_is_the_file_that_was_opened() {
    let read = || SourceRead::Read(metadata(), b"abc".to_vec());
    let held = HeldGenerationSource::open("/source", &read()).unwrap();
    assert_eq!(held.identity(), (7, 11));
    let identity = held.quarantine_identity();
    assert_eq!(identity.mode, 0o600);
    assert_eq!(identity.size_bytes, 3);
    assert_eq!(
        identity.sha256,
        "ba7816bf8f01cfea414140de5dae2223b00361a396177a9cb410ff61f20015ad"
    );
    assert!(held.revalidate(&read(), &read()).is_ok());
    let other = SourceRead::Read(metadata(), b"abd".to_vec());
    assert_eq!(
        held.revalidate(&other, &read()).unwrap_err().category(),
        "source_changed"
    );
    assert_eq!(
        HeldGenerationSource::open("/source/../else", &read())
            .unwrap_err()
            .category(),
        "source_path"
    );
    assert_eq!(
        HeldGenerationSource::open("/source", &SourceRead::OpenFailed)
            .unwrap_err()
            .category(),
        "source_open"
    );
}

#[test]
fn a_renamed_file_may_differ_in_its_change_time_alone() {
    let mut renamed = metadata();
    renamed.ctime += 1;
    assert!(renamed.matches_after_rename(metadata()));
    renamed.mtime += 1;
    assert!(!renamed.matches_after_rename(metadata()));
}

fn stored<T>(value: T) -> Option<StoredProof<T>> {
    Some(StoredProof {
        json: Vec::new(),
        decoded: Some(value),
        canonical: true,
    })
}

fn converted_record() -> AssetRecord {
    AssetRecord {
        asset_id: "asset-00".to_string(),
        raw_path: "/raw".to_string(),
        state: State::ConversionVerified,
        record_sha256: None,
        nas: None,
        conversion: stored(ConversionResultProof {
            heic_path: "/out/a.heic".to_string(),
            heic_sha256: digest("heic"),
            size_bytes: 4,
        }),
        heic: stored(HeicVerificationProof {
            heic_path: "/out//a.heic".to_string(),
            heic_sha256: digest("heic"),
            size_bytes: 4,
            heif_info_ok: true,
            metadata_copied: true,
            visual_content_ok: true,
            visual_match_ok: true,
        }),
        upload: None,
        icloudpd_local_mirror: None,
        original_asset: None,
        uploaded_heic_delete: false,
        journal: JournalSlot::Valid(LegacyUploadMigrationJournal {
            identity: LegacyUploadMigrationIdentity {
                migration_id: digest("migration"),
                evidence_sha256: digest("evidence"),
                cohort_sha256: digest("cohort"),
                asset_id: "asset-00".to_string(),
                source_record_sha256: digest("record"),
                old_uploaded_asset_id: "uploaded".to_string(),
                old_uploaded_master_id: "master".to_string(),
                destination_sha256: digest("destination"),
                original_asset_identity_sha256: digest("original"),
                old_conversion_lineage_sha256: digest("conversion"),
                old_upload_lineage_sha256: digest("upload"),
                old_mirror_lineage_sha256: digest("mirror"),
                quarantine_plan: plan(),
            },
            entries: vec![LegacyUploadMigrationEntry {
                phase: LegacyUploadMigrationPhase::Converted,
                entry_sha256: digest("entry"),
            }],
        }),
    }
}

#[test]
fn a_verified_conversion_may_stand_where_a_member_was_moved_from() {
    let phase = LegacyUploadMigrationPhase::Converted;
    let manifest = Manifest {
        records: vec![converted_record()],
        json: Vec::new(),
    };
    assert_eq!(
        manifest_verified_conversion_output(&manifest, phase, "asset-00"),
        Some(("/out//a.heic".to_string(), digest("heic"), 4))
    );
    assert!(is_verified_conversion_output_at_path(
        &manifest,
        phase,
        "asset-00",
        "/out/a.heic"
    ));
    assert!(!is_verified_conversion_output_at_path(
        &manifest,
        phase,
        "asset-00",
        "/out/b.heic"
    ));
    assert_eq!(
        manifest_verified_conversion_output(
            &manifest,
            LegacyUploadMigrationPhase::Reset,
            "asset-00"
        ),
        None
    );
    let original = file(10, "old");
    let mut output = file(99, "heic");
    output.size_bytes = 4;
    let accepted = |source: &LegacyUploadMigrationQuarantineFileIdentity| {
        is_verified_conversion_source_for_quarantine(
            &manifest,
            phase,
            "asset-00",
            "/out/a.heic",
            source,
            &original,
            1,
            501,
        )
    };
    assert!(accepted(&output));
    let mut same_inode = output.clone();
    same_inode.inode = 10;
    assert!(!accepted(&same_inode));
    let mut other_device = output.clone();
    other_device.device = 2;
    assert!(!accepted(&other_device));
    let mut other_content = output.clone();
    other_content.sha256 = digest("old");
    assert!(!accepted(&other_content));

    let mut unsound = converted_record();
    if let Some(stored) = &mut unsound.heic {
        stored.decoded.as_mut().unwrap().visual_match_ok = false;
    }
    let manifest = Manifest {
        records: vec![unsound],
        json: Vec::new(),
    };
    assert_eq!(
        manifest_verified_conversion_output(&manifest, phase, "asset-00"),
        None
    );
}
