use std::collections::BTreeMap;

use icloudpd_optimizer::audit::{
    validate_public_request, validate_retired_replacement, DocumentEncodings,
    LegacyUploadEvidenceAudit, LegacyUploadEvidenceAuditRequest,
};
use icloudpd_optimizer::canonicalization::{
    original_asset_proof_destination_fields, original_asset_proof_for_validation,
    OriginalDestinationCanonicalization,
};
use icloudpd_optimizer::cloudkit::{
    CloudKitActiveAssetLookupMode, CloudKitActiveAssetRemoteState, CloudKitActiveAssetValidation,
    CloudKitDatabaseScope, CloudKitUploadedHeicAsset, CloudKitUploadedHeicInitialState,
    CloudKitUploadedHeicInitialStateLookupMode,
};
use icloudpd_optimizer::cohort::{
    draft_document, gather_cohort, generated_migration_id, select_cohort,
    validate_generation_quarantine_roots, OfferedRoot,
};
use icloudpd_optimizer::digest::sha256_bytes;
use icloudpd_optimizer::document::{
    asset_index_of_reference, orientation_of_reference, EvidenceAsset, EvidenceDestination, EvidenceDocument, EvidenceReferenceNormalization,
    EvidenceRetiredReplacement, ReferenceNormalizationIdentity,
};
use icloudpd_optimizer::error::{failure, LegacyUploadEvidenceError};
use icloudpd_optimizer::gather::{
    reference_index_of_asset, uploaded_heic_request, AssetObservation, AssetRereads, StagedProbe,
};
use icloudpd_optimizer::generate::{
    prepare_generated_evidence, CheckpointStatus, GenerationEncodings, GenerationObservation,
    LegacyUploadEvidenceGenerateRequest, SourcesAgain, StateObservation,
};
use icloudpd_optimizer::held::{HeldLook, ManifestLook};
use icloudpd_optimizer::historical::does_original_stand;
use icloudpd_optimizer::issue::{
    draft_device_recovery_receipt, generate_legacy_uploaded_heic_device_recovery, seal_receipt,
    IssuedObservation, LegacyUploadDeviceRecoveryGenerateRequest, RecoveryObservation,
};
use icloudpd_optimizer::layout::{
    is_probe_awaited, validate_device_recovery_quarantine_layout, CohortEntry, DirectoryMetadata, LayoutObservation,
    RootObservation,
};
use icloudpd_optimizer::load::{
    are_references_due, are_references_partial, audit_legacy_uploaded_heic_evidence,
    audit_legacy_uploaded_heic_evidence_with_device_recovery,
    load_validated_legacy_uploaded_heic_evidence,
    load_validated_legacy_uploaded_heic_evidence_with_device_recovery, AuditObservation,
    EvidenceObservation, EvidenceReread, LegacyUploadDeviceRecoveryRequest, ReceiptObservation,
    StateRead, ValidatedLegacyUploadEvidence,
};
use icloudpd_optimizer::manifest::{
    set_state_for_phase, AssetRecord, ConversionResultProof, HeicVerificationProof, IcloudpdLocalMirrorProof,
    JournalSlot, LegacyUploadMigrationEntry, LegacyUploadMigrationIdentity,
    LegacyUploadMigrationJournal, Manifest, NasRawProof, OriginalAssetProof, StoredProof,
    UploadProof,
};
use icloudpd_optimizer::output::{
    generate_legacy_uploaded_heic_evidence, may_create_receipt, may_remove_output,
    may_remove_receipt, write_new_owner_only_receipt, CreatedOutput, OutputObservation,
    ReceiptOutput,
};
use icloudpd_optimizer::path::replace_extension;
use icloudpd_optimizer::phase::{LegacyUploadMigrationPhase, State};
use icloudpd_optimizer::plan::{
    coherent_retired_replacement_phase, draft_quarantine_plan, draft_rebased_plan,
    draft_resumed_plan, quarantine_plan_from_document, rebase_sealed_quarantine_plan_devices,
    PlanInputs,
};
use icloudpd_optimizer::quarantine::{
    EvidenceQuarantineMember, LegacyUploadMigrationQuarantineFileIdentity,
    LegacyUploadMigrationQuarantineKind, LegacyUploadMigrationQuarantinePlan, QuarantineRawInput,
    QuarantineRoot,
};
use icloudpd_optimizer::receipt::{
    device_recovery_journal_anchors, validate_device_recovery_continuity, validate_device_recovery_continuity_with_signer,
    ProcessObservation,
};
use icloudpd_optimizer::recovery::{
    move_document, operational_document_for_device_recovery_with_mode,
    operational_document_from_recovery_receipt, DeviceRecoveryMapping, DeviceRecoveryReceipt,
    DeviceRecoveryReceiptBody, OperationalObservation,
};
use icloudpd_optimizer::rotate::{
    authorize_rotation, is_rotation_readable, rotate_legacy_uploaded_heic_device_recovery,
    rotated_receipt_body, try_rotate_legacy_uploaded_heic_device_recovery, CheckpointExport,
    LegacyUploadDeviceRecoveryRotateRequest, RotationIssue, RotationLook, RotationObservation,
};
use icloudpd_optimizer::sealed::{
    validate_evidence_attributes, EvidenceMetadata, FilePresence, HeldRead, Presence, SourceRead,
};
use icloudpd_optimizer::signer::{DeviceRecoverySigner, ExecutableObservation, ServiceBundle};

const EUID: u32 = 501;
const ROOT_DEVICE: u64 = 7;
const ORIENTATIONS: [u16; 5] = [6, 6, 6, 6, 8];
const REFERENCE_ASSETS: [usize; 5] = [2, 3, 7, 8, 9];

fn digest(label: &str) -> String {
    sha256_bytes(label.as_bytes())
}

/// The stand-in for an encoder: any text that tells different values apart.
fn encode<T: std::fmt::Debug>(value: &T) -> Vec<u8> {
    format!("{value:?}").into_bytes()
}

#[derive(Default)]
struct Disk {
    files: BTreeMap<String, (EvidenceMetadata, Vec<u8>)>,
    next_inode: u64,
}

impl Disk {
    fn write(&mut self, path: &str, content: &[u8]) {
        self.next_inode += 1;
        let metadata = EvidenceMetadata {
            is_regular: true,
            dev: ROOT_DEVICE,
            ino: 1_000 + self.next_inode,
            mode: 0o100600,
            uid: EUID,
            gid: 20,
            nlink: 1,
            size: content.len() as u64,
            mtime: 1_752_400_000,
            mtime_nsec: 5,
            ctime: 1_752_400_000,
            ctime_nsec: 6,
        };
        self.files
            .insert(path.to_string(), (metadata, content.to_vec()));
    }

    fn read(&self, path: &str) -> SourceRead {
        match self.files.get(path) {
            Some((metadata, content)) => SourceRead::Read(*metadata, content.clone()),
            None => SourceRead::OpenFailed,
        }
    }

    fn look(&self, path: &str) -> HeldRead {
        HeldRead {
            read: self.read(path),
            held: self.read(path),
            named: self.read(path),
        }
    }

    fn presence(&self, path: &str) -> FilePresence {
        if self.files.contains_key(path) {
            FilePresence::Present(self.look(path))
        } else {
            FilePresence::Missing
        }
    }

    fn identity(&self, path: &str) -> LegacyUploadMigrationQuarantineFileIdentity {
        let (metadata, content) = &self.files[path];
        LegacyUploadMigrationQuarantineFileIdentity {
            device: metadata.dev,
            inode: metadata.ino,
            owner: metadata.uid,
            mode: metadata.mode & 0o777,
            link_count: metadata.nlink,
            size_bytes: metadata.size,
            modified_unix_seconds: metadata.mtime,
            modified_unix_nanoseconds: metadata.mtime_nsec,
            sha256: sha256_bytes(content),
        }
    }

    fn reread(&self, path: &str) -> EvidenceReread {
        let (metadata, content) = &self.files[path];
        EvidenceReread {
            reread: Some(content.clone()),
            held: Some(*metadata),
            named: Some(*metadata),
        }
    }
}

fn asset_id(index: usize) -> String {
    format!("asset-{index:02}")
}

fn heic_path(id: &str) -> String {
    format!("/artifacts/{id}.heic")
}

fn mirror_path(id: &str) -> String {
    format!("/artifacts/{id}.mirror.heic")
}

fn raw_path(id: &str) -> String {
    format!("/artifacts/{id}.dng")
}

fn reference_path(id: &str) -> String {
    replace_extension(&heic_path(id), ".oriented-preview.jpg")
}

fn stored<T: std::fmt::Debug>(value: T) -> Option<StoredProof<T>> {
    Some(StoredProof {
        json: encode(&value),
        decoded: Some(value),
        canonical: true,
    })
}

fn original_json(id: &str, with_destination: bool) -> Vec<u8> {
    let raw = format!("raw-{id}").repeat(10);
    let destination = if with_destination {
        "\"database_scope\":\"private\","
    } else {
        ""
    };
    let zone = if with_destination {
        ",\"zone_name\":\"PrimarySync\""
    } else {
        ""
    };
    format!(
        "{{{destination}\"filename\":\"{id}.dng\",\"matched_raw_sha256\":\"{}\",\"owner_record_name\":null,\"record_change_tag\":\"original-tag\",\"record_name\":\"original-{id}\",\"record_type\":\"CPLMaster\",\"size_bytes\":{}{zone}}}",
        digest(&raw),
        raw.len()
    )
    .into_bytes()
}

fn original_proof(id: &str) -> OriginalAssetProof {
    let raw = format!("raw-{id}").repeat(10);
    OriginalAssetProof {
        record_name: format!("original-{id}"),
        record_change_tag: "original-tag".to_string(),
        database_scope: CloudKitDatabaseScope::Private,
        zone_name: "PrimarySync".to_string(),
        owner_record_name: None,
        matched_raw_sha256: digest(&raw),
        size_bytes: raw.len() as u64,
        filename: format!("{id}.dng"),
    }
}

fn record(id: &str, with_destination: bool) -> AssetRecord {
    let raw = format!("raw-{id}").repeat(10);
    let heic = format!("heic-{id}");
    let heic_sha256 = digest(&heic);
    let size_bytes = heic.len() as u64;
    let uploaded = format!("uploaded-{id}");
    AssetRecord {
        asset_id: id.to_string(),
        raw_path: raw_path(id),
        state: State::UploadVerified,
        record_sha256: Some(digest(&format!("record-{id}"))),
        nas: stored(NasRawProof {
            canonical_path: raw_path(id),
            sha256: digest(&raw),
            size_bytes: raw.len() as u64,
        }),
        conversion: stored(ConversionResultProof {
            heic_path: heic_path(id),
            heic_sha256: heic_sha256.clone(),
            size_bytes,
        }),
        heic: stored(HeicVerificationProof {
            heic_path: heic_path(id),
            heic_sha256: heic_sha256.clone(),
            size_bytes,
            heif_info_ok: true,
            metadata_copied: true,
            visual_content_ok: true,
            visual_match_ok: true,
        }),
        upload: stored(UploadProof {
            uploaded_heic_asset_id: uploaded.clone(),
            uploaded_heic_sha256: heic_sha256.clone(),
            uploaded_heic_path: Some(heic_path(id)),
            database_scope: CloudKitDatabaseScope::Private,
            zone_name: "PrimarySync".to_string(),
            owner_record_name: None,
        }),
        icloudpd_local_mirror: stored(IcloudpdLocalMirrorProof {
            uploaded_heic_asset_id: uploaded,
            uploaded_heic_sha256: heic_sha256,
            uploaded_heic_path: heic_path(id),
            icloudpd_download_path: mirror_path(id),
            size_bytes,
        }),
        original_asset: Some(StoredProof {
            json: original_json(id, with_destination),
            decoded: Some(original_proof(id)),
            canonical: with_destination,
        }),
        uploaded_heic_delete: false,
        journal: JournalSlot::Absent,
    }
}

fn destination(id: &str) -> EvidenceDestination {
    EvidenceDestination {
        database_scope: CloudKitDatabaseScope::Private,
        zone_name: "PrimarySync".to_string(),
        owner_record_name: None,
        filename: format!("{id}.heic"),
    }
}

fn replacement(record: &AssetRecord) -> EvidenceRetiredReplacement {
    let id = record.asset_id.as_str();
    let upload = record.upload.as_ref().unwrap();
    let heic = record.heic.as_ref().unwrap().decoded.as_ref().unwrap();
    EvidenceRetiredReplacement {
        asset_id: id.to_string(),
        uploaded_asset_id: format!("uploaded-{id}"),
        uploaded_master_id: format!("master-{id}"),
        owner_record_name_sha256: digest("opaque-owner"),
        initial_remote_state: CloudKitUploadedHeicInitialState::Active,
        initial_state_lookup_mode: CloudKitUploadedHeicInitialStateLookupMode::FullFields,
        destination_sha256: sha256_bytes(&encode(&destination(id))),
        destination: destination(id),
        old_record_change_tag: format!("old-tag-{id}"),
        uploaded_heic_sha256: heic.heic_sha256.clone(),
        uploaded_heic_size_bytes: heic.size_bytes,
        original_asset_record_name: format!("original-{id}"),
        original_record_change_tag: "original-tag".to_string(),
        original_remote_state: CloudKitActiveAssetRemoteState::Active,
        original_state_lookup_mode: CloudKitActiveAssetLookupMode::FullFields,
        original_asset_identity_sha256: sha256_bytes(&record.original_asset.as_ref().unwrap().json),
        old_conversion_lineage_sha256: sha256_bytes(&record.conversion.as_ref().unwrap().json),
        old_upload_lineage_sha256: sha256_bytes(&upload.json),
        old_mirror_lineage_sha256: sha256_bytes(
            &record.icloudpd_local_mirror.as_ref().unwrap().json,
        ),
    }
}

fn encode_reference(reference: &EvidenceReferenceNormalization) -> Vec<u8> {
    encode(&(
        &reference.asset_id,
        &reference.reference_path,
        reference.device,
        reference.inode,
        reference.size_bytes,
        &reference.file_sha256,
        reference.orientation,
        reference.width,
        reference.height,
        &reference.decoded_pixel_sha256,
    ))
}

fn encode_cohort(document: &EvidenceDocument) -> Vec<u8> {
    encode(&(
        document.schema_version,
        &document.migration_id,
        document.asset_count,
        &document.assets,
        &document.retired_replacements,
        &document.reference_normalizations,
        &document.quarantine_roots,
        &document.quarantine_members,
        &document.raw_inputs,
    ))
}

fn encode_document(document: &EvidenceDocument) -> Vec<u8> {
    encode(document)
}

fn encodings(document: &EvidenceDocument) -> DocumentEncodings {
    DocumentEncodings {
        cohort_json: encode_cohort(document),
        destination_json: document
            .retired_replacements
            .iter()
            .map(|replacement| encode(&replacement.destination))
            .collect(),
        reference_json: document
            .reference_normalizations
            .iter()
            .map(encode_reference)
            .collect(),
        witness_json: document
            .retired_replacements
            .iter()
            .map(|replacement| encode(&("witness", &replacement.asset_id)))
            .collect(),
    }
}

fn member_destination(document: &EvidenceDocument, index: usize) -> String {
    let member = &document.quarantine_members[index];
    let root = document
        .quarantine_roots
        .iter()
        .find(|root| root.device == member.root_device);
    format!(
        "{}/{}/{index:02}",
        root.map_or("/nowhere", |root| root.canonical_path.as_str()),
        document.cohort_sha256
    )
}

fn plan_json(document: &EvidenceDocument) -> Vec<u8> {
    encode(&(
        &document.quarantine_roots,
        &document.quarantine_members,
        &document.raw_inputs,
        &document.cohort_sha256,
    ))
}

fn plan_inputs(document: &EvidenceDocument) -> PlanInputs {
    PlanInputs {
        destinations: (0..document.quarantine_members.len())
            .map(|index| Some(member_destination(document, index)))
            .collect(),
        plan_json: Some(plan_json(document)),
        rebased_json: Some(plan_json(document)),
    }
}

struct Fixture {
    disk: Disk,
    manifest: Manifest,
    document: EvidenceDocument,
    request: LegacyUploadEvidenceAuditRequest,
}

fn manifest_of(records: Vec<AssetRecord>) -> Manifest {
    let json = encode(&records);
    Manifest::new(records, json).unwrap()
}

fn reference_image(index: usize) -> Vec<u8> {
    format!("jpeg-{index}-orientation-{}", ORIENTATIONS[index]).into_bytes()
}

fn pixels(index: usize) -> String {
    digest(&format!("pixels-{index}"))
}

fn build_fixture_with(with_destination: bool) -> Fixture {
    let mut disk = Disk::default();
    let mut records = Vec::new();
    for index in 0..10 {
        let id = asset_id(index);
        records.push(record(&id, with_destination || index >= 2));
        disk.write(
            &raw_path(&id),
            format!("raw-{id}").repeat(10).as_bytes(),
        );
        disk.write(&heic_path(&id), format!("heic-{id}").as_bytes());
        disk.write(&mirror_path(&id), format!("heic-{id}").as_bytes());
    }
    for (index, asset) in REFERENCE_ASSETS.iter().enumerate() {
        disk.write(&reference_path(&asset_id(*asset)), &reference_image(index));
    }
    let assets = records
        .iter()
        .map(|record| EvidenceAsset {
            asset_id: record.asset_id.clone(),
            record_sha256: record.record_sha256.clone().unwrap(),
        })
        .collect();
    let retired_replacements: Vec<_> = records[..2].iter().map(replacement).collect();
    let mut reference_normalizations = Vec::new();
    for (index, asset) in REFERENCE_ASSETS.iter().enumerate() {
        let id = asset_id(*asset);
        let file = disk.identity(&reference_path(&id));
        let mut reference = EvidenceReferenceNormalization {
            asset_id: id.clone(),
            asset_record_sha256: records[*asset].record_sha256.clone().unwrap(),
            reference_identity_sha256: String::new(),
            reference_path: reference_path(&id),
            device: file.device,
            inode: file.inode,
            size_bytes: file.size_bytes,
            file_sha256: file.sha256,
            orientation: ORIENTATIONS[index],
            width: 4,
            height: 3,
            decoded_pixel_sha256: pixels(index),
        };
        reference.reference_identity_sha256 = sha256_bytes(&encode_reference(&reference));
        reference_normalizations.push(reference);
    }
    let mut quarantine_members = Vec::new();
    for record in &records[..2] {
        for (kind, path) in [
            (
                LegacyUploadMigrationQuarantineKind::Final,
                heic_path(&record.asset_id),
            ),
            (
                LegacyUploadMigrationQuarantineKind::OldMirror,
                mirror_path(&record.asset_id),
            ),
        ] {
            quarantine_members.push(EvidenceQuarantineMember {
                asset_id: record.asset_id.clone(),
                kind,
                source: disk.identity(&path),
                source_path: path,
                root_device: ROOT_DEVICE,
            });
        }
    }
    for reference in &reference_normalizations {
        quarantine_members.push(EvidenceQuarantineMember {
            asset_id: reference.asset_id.clone(),
            kind: LegacyUploadMigrationQuarantineKind::Reference,
            source: disk.identity(&reference.reference_path),
            source_path: reference.reference_path.clone(),
            root_device: ROOT_DEVICE,
        });
    }
    let raw_inputs = records
        .iter()
        .map(|record| QuarantineRawInput {
            asset_id: record.asset_id.clone(),
            path: record.raw_path.clone(),
            source: disk.identity(&record.raw_path),
        })
        .collect();
    let document = EvidenceDocument {
        schema_version: 5,
        migration_id: digest("migration"),
        asset_count: 10,
        retired_replacement_count: 2,
        reference_count: 5,
        cohort_sha256: String::new(),
        assets,
        retired_replacements,
        reference_normalizations,
        quarantine_roots: vec![QuarantineRoot {
            canonical_path: "/quarantine".to_string(),
            device: ROOT_DEVICE,
            inode: 77,
            owner: EUID,
            mode: 0o700,
        }],
        quarantine_members,
        raw_inputs,
    };
    let mut fixture = Fixture {
        disk,
        manifest: manifest_of(records),
        document,
        request: LegacyUploadEvidenceAuditRequest {
            manifest_path: "/state/assets.json".to_string(),
            evidence_path: "/state/evidence.json".to_string(),
            expected_evidence_sha256: String::new(),
            expected_asset_count: 10,
            expected_retired_replacement_count: 2,
            expected_reference_count: 5,
            expected_cohort_sha256: String::new(),
        },
    };
    fixture.disk.write("/state/assets.json", b"checkpoint");
    write_document(&mut fixture);
    fixture
}

fn build_fixture() -> Fixture {
    build_fixture_with(true)
}

fn write_document(fixture: &mut Fixture) {
    fixture.document.cohort_sha256 = sha256_bytes(&encode_cohort(&fixture.document));
    let bytes = encode_document(&fixture.document);
    let path = fixture.request.evidence_path.clone();
    fixture.disk.write(&path, &bytes);
    fixture.request.expected_evidence_sha256 = sha256_bytes(&bytes);
    fixture.request.expected_cohort_sha256 = fixture.document.cohort_sha256.clone();
}

fn evidence_observation(fixture: &mut Fixture) -> EvidenceObservation {
    let document = fixture.document.duplicate();
    let manifest = std::mem::replace(&mut fixture.manifest, manifest_of(Vec::new()));
    EvidenceObservation {
        read: fixture.disk.read(&fixture.request.evidence_path),
        document: Some(document),
        state: StateRead::Loaded(manifest),
        writable: false,
    }
}

fn reference_reads(fixture: &Fixture) -> Vec<SourceRead> {
    fixture
        .document
        .reference_normalizations
        .iter()
        .map(|reference| fixture.disk.read(&reference.reference_path))
        .collect()
}

fn audit_observation(fixture: &Fixture) -> AuditObservation {
    AuditObservation {
        encodings: encodings(&fixture.document),
        plan_inputs: plan_inputs(&fixture.document),
        operational_plan_inputs: plan_inputs(&fixture.document),
        references: reference_reads(fixture),
        present_references: Vec::new(),
        state_unchanged: true,
        again: fixture.disk.reread(&fixture.request.evidence_path),
        references_held: reference_reads(fixture),
        references_named: reference_reads(fixture),
        euid: EUID,
    }
}

fn audit(fixture: &mut Fixture) -> Result<LegacyUploadEvidenceAudit, LegacyUploadEvidenceError> {
    let observed = audit_observation(fixture);
    let evidence = evidence_observation(fixture);
    audit_legacy_uploaded_heic_evidence(&fixture.request, evidence, &observed)
}

#[test]
fn exact_evidence_audit_succeeds_without_writing_state_or_evidence() {
    let mut fixture = build_fixture();
    let told = audit(&mut fixture).unwrap();
    assert_eq!(told.asset_count, 10);
    assert_eq!(told.retired_replacement_count, 2);
    assert_eq!(told.reference_count, 5);
    assert_eq!(
        told.evidence_sha256,
        fixture.request.expected_evidence_sha256
    );
    assert_eq!(told.cohort_sha256, fixture.request.expected_cohort_sha256);
    let report = format!("{told:?}");
    for sentinel in ["asset-00", "/raw/", "uploaded-", "original-"] {
        assert!(!report.contains(sentinel));
    }
}

#[test]
fn sealed_evidence_rejects_state_or_lookup_mode_relabeling() {
    for mutate in [
        (|document: &mut EvidenceDocument| {
            document.retired_replacements[0].initial_remote_state =
                CloudKitUploadedHeicInitialState::ActiveUnmarked;
        }) as fn(&mut EvidenceDocument),
        |document: &mut EvidenceDocument| {
            document.retired_replacements[0].initial_state_lookup_mode =
                CloudKitUploadedHeicInitialStateLookupMode::FilteredMarker;
        },
    ] {
        let mut fixture = build_fixture();
        let mut relabeled = fixture.document.duplicate();
        mutate(&mut relabeled);
        let path = fixture.request.evidence_path.clone();
        fixture.disk.write(&path, &encode_document(&relabeled));
        fixture.document = relabeled;
        assert_eq!(audit(&mut fixture).unwrap_err().category(), "evidence_digest");
    }
}

#[test]
fn initial_retired_replacement_rejects_preexisting_delete_proof() {
    let mut fixture = build_fixture();
    fixture.manifest.records[0].uploaded_heic_delete = true;
    let replacement = &fixture.document.retired_replacements[0];
    assert_eq!(
        validate_retired_replacement(
            replacement,
            &fixture.manifest,
            &fixture.document.assets,
            &[],
            Some(&encode(&replacement.destination)),
        )
        .unwrap_err()
        .category(),
        "proof_conflict"
    );
}

#[test]
fn audit_validator_rejects_original_destination_divergence() {
    let mut fixture = build_fixture();
    let mut original = original_proof("asset-00");
    original.zone_name = "DivergentZone".to_string();
    let json = String::from_utf8(original_json("asset-00", true))
        .unwrap()
        .replace("PrimarySync", "DivergentZone")
        .into_bytes();
    fixture.document.retired_replacements[0].original_asset_identity_sha256 = sha256_bytes(&json);
    fixture.manifest.records[0].original_asset = Some(StoredProof {
        json,
        decoded: Some(original),
        canonical: true,
    });
    let replacement = &fixture.document.retired_replacements[0];
    assert_eq!(
        validate_retired_replacement(
            replacement,
            &fixture.manifest,
            &fixture.document.assets,
            &[],
            Some(&encode(&replacement.destination)),
        )
        .unwrap_err()
        .category(),
        "proof_binding"
    );
}

#[test]
fn original_destination_canonicalization_is_explicit_and_fully_bound() {
    let fixture = build_fixture();
    let replacement = &fixture.document.retired_replacements[0];
    let missing = original_json("asset-00", false);
    let historical = original_proof("asset-00");
    assert_eq!(historical.database_scope, CloudKitDatabaseScope::Private);
    assert_eq!(historical.zone_name, "PrimarySync");
    assert_eq!(historical.owner_record_name, None);

    let mut canonical: serde_json::Value = serde_json::from_slice(&missing).unwrap();
    let object = canonical.as_object_mut().unwrap();
    object.insert(
        "database_scope".to_string(),
        serde_json::Value::String("private".to_string()),
    );
    object.insert(
        "zone_name".to_string(),
        serde_json::Value::String(replacement.destination.zone_name.clone()),
    );
    let mut evidence = replacement.clone();
    evidence.original_asset_identity_sha256 = sha256_bytes(&missing);
    let entry = OriginalDestinationCanonicalization {
        asset_id: evidence.asset_id.clone(),
        original_asset_identity_sha256: evidence.original_asset_identity_sha256.clone(),
        destination_sha256: evidence.destination_sha256.clone(),
        canonical_original_asset_sha256: sha256_bytes(&serde_json::to_vec(&canonical).unwrap()),
        delete_confirmed_entry_sha256: digest("delete-confirmed-entry"),
        remote_state: evidence.original_remote_state,
        lookup_mode: CloudKitActiveAssetLookupMode::FullFields,
    };
    let stored_missing = StoredProof {
        json: missing.clone(),
        decoded: Some(historical),
        canonical: false,
    };
    let parsed = original_asset_proof_for_validation(
        &evidence,
        &stored_missing,
        std::slice::from_ref(&entry),
        "test",
    )
    .unwrap();
    assert_eq!(
        parsed.database_scope,
        replacement.destination.database_scope
    );
    assert_eq!(parsed.zone_name, replacement.destination.zone_name);
    assert_eq!(
        original_asset_proof_for_validation(&evidence, &stored_missing, &[], "test")
            .unwrap_err()
            .category(),
        "original_canonicalization"
    );
    let mut changed = entry;
    changed.destination_sha256 = digest("other-destination");
    assert_eq!(
        original_asset_proof_for_validation(&evidence, &stored_missing, &[changed], "test")
            .unwrap_err()
            .category(),
        "original_canonicalization"
    );
    let mut half: serde_json::Value = serde_json::from_slice(&missing).unwrap();
    half.as_object_mut().unwrap().insert(
        "zone_name".to_string(),
        serde_json::Value::String("PrimarySync".to_string()),
    );
    assert_eq!(
        original_asset_proof_destination_fields(&serde_json::to_vec(&half).unwrap())
            .unwrap_err()
            .category(),
        "proof_lineage"
    );
}

#[test]
fn schema_count_set_reference_and_proof_mismatches_fail_closed() {
    let mutations: [(&'static str, fn(&mut EvidenceDocument), &'static str); 14] = [
        (
            "schema",
            |document| document.schema_version += 1,
            "evidence_count",
        ),
        (
            "count",
            |document| document.asset_count = 9,
            "evidence_count",
        ),
        (
            "set",
            |document| document.assets[9].asset_id = "asset-08".to_string(),
            "asset_order",
        ),
        (
            "record",
            |document| document.assets[9].record_sha256 = digest("wrong"),
            "record_digest",
        ),
        (
            "proof",
            |document| {
                document.retired_replacements[0].old_upload_lineage_sha256 = digest("wrong")
            },
            "proof_lineage",
        ),
        (
            "owner_digest",
            |document| {
                document.retired_replacements[0].owner_record_name_sha256 = "not-a-digest".into()
            },
            "cloudkit_ambiguity",
        ),
        (
            "owner_mismatch",
            |document| {
                document.retired_replacements[1].owner_record_name_sha256 =
                    digest("different-valid-owner")
            },
            "cloudkit_ambiguity",
        ),
        (
            "lookup_mode",
            |document| {
                document.retired_replacements[1].initial_state_lookup_mode =
                    CloudKitUploadedHeicInitialStateLookupMode::FilteredMarker
            },
            "cloudkit_ambiguity",
        ),
        (
            "colliding_uploaded_asset",
            |document| {
                document.retired_replacements[1].uploaded_asset_id =
                    document.retired_replacements[0].uploaded_asset_id.clone()
            },
            "cloudkit_ambiguity",
        ),
        (
            "colliding_uploaded_master",
            |document| {
                document.retired_replacements[1].uploaded_master_id =
                    document.retired_replacements[0].uploaded_master_id.clone()
            },
            "cloudkit_ambiguity",
        ),
        (
            "colliding_change_tag",
            |document| {
                document.retired_replacements[1].old_record_change_tag =
                    document.retired_replacements[0].old_record_change_tag.clone()
            },
            "cloudkit_ambiguity",
        ),
        (
            "colliding_destination",
            |document| {
                document.retired_replacements[1].destination_sha256 =
                    document.retired_replacements[0].destination_sha256.clone()
            },
            "cloudkit_ambiguity",
        ),
        (
            "colliding_original",
            |document| {
                document.retired_replacements[1].original_asset_record_name =
                    document.retired_replacements[0].original_asset_record_name.clone()
            },
            "cloudkit_ambiguity",
        ),
        (
            "retired_identity",
            |document| {
                document.retired_replacements[0].uploaded_master_id =
                    document.retired_replacements[0].uploaded_asset_id.clone()
            },
            "retired_identity",
        ),
    ];
    for (case, mutate, expected) in mutations {
        let mut fixture = build_fixture();
        mutate(&mut fixture.document);
        write_document(&mut fixture);
        let error = audit(&mut fixture).unwrap_err();
        assert_ne!(error.category(), "evidence_open", "{case}");
        assert_eq!(error.category(), expected, "{case}");
    }

    let mut fixture = build_fixture();
    fixture.document.reference_normalizations[0].decoded_pixel_sha256 = digest("wrong");
    fixture.document.reference_normalizations[0].width = 0;
    write_document(&mut fixture);
    assert_eq!(
        audit(&mut fixture).unwrap_err().category(),
        "reference_witness"
    );
}

#[test]
fn reference_orientation_sequence_and_distribution_are_exact() {
    for invalid_orientation in [1, 7] {
        let mut fixture = build_fixture();
        let reference = &mut fixture.document.reference_normalizations[0];
        reference.orientation = invalid_orientation;
        reference.reference_identity_sha256 = sha256_bytes(&encode_reference(reference));
        write_document(&mut fixture);
        assert_eq!(
            audit(&mut fixture).unwrap_err().category(),
            "reference_witness"
        );
    }
    let mut fixture = build_fixture();
    fixture.document.reference_normalizations.swap(0, 4);
    write_document(&mut fixture);
    assert_eq!(audit(&mut fixture).unwrap_err().category(), "asset_order");
}

#[test]
fn descriptor_rejects_mode_owner_link_symlink_and_path_swap() {
    let mut fixture = build_fixture();
    let path = fixture.request.evidence_path.clone();
    fixture.disk.files.get_mut(&path).unwrap().0.mode = 0o100644;
    assert_eq!(
        audit(&mut fixture).unwrap_err().category(),
        "evidence_permissions"
    );

    let mut fixture = build_fixture();
    fixture.disk.files.get_mut(&path).unwrap().0.nlink = 2;
    assert_eq!(
        audit(&mut fixture).unwrap_err().category(),
        "evidence_permissions"
    );

    let mut fixture = build_fixture();
    let observed = audit_observation(&fixture);
    let mut evidence = evidence_observation(&mut fixture);
    evidence.read = SourceRead::OpenFailed;
    assert_eq!(
        audit_legacy_uploaded_heic_evidence(&fixture.request, evidence, &observed)
            .unwrap_err()
            .category(),
        "evidence_open"
    );

    assert_eq!(
        validate_evidence_attributes(true, 0o100600, 501, 1, 502)
            .unwrap_err()
            .category(),
        "evidence_permissions"
    );

    let mut fixture = build_fixture();
    let mut observed = audit_observation(&fixture);
    let evidence = evidence_observation(&mut fixture);
    fixture.disk.write(&path, b"{}");
    observed.again.named = fixture.disk.reread(&path).named;
    assert_eq!(
        audit_legacy_uploaded_heic_evidence(&fixture.request, evidence, &observed)
            .unwrap_err()
            .category(),
        "evidence_changed"
    );
}

#[test]
fn evidence_that_cannot_be_read_in_full_is_refused() {
    for (read, expected) in [
        (SourceRead::MetadataFailed, "evidence_metadata"),
        (
            SourceRead::ReadFailed(build_fixture().disk.files["/state/evidence.json"].0),
            "evidence_read",
        ),
    ] {
        let mut fixture = build_fixture();
        let observed = audit_observation(&fixture);
        let mut evidence = evidence_observation(&mut fixture);
        evidence.read = read;
        assert_eq!(
            audit_legacy_uploaded_heic_evidence(&fixture.request, evidence, &observed)
                .unwrap_err()
                .category(),
            expected
        );
    }
    let mut fixture = build_fixture();
    let path = fixture.request.evidence_path.clone();
    let oversized = vec![b' '; 1_048_577];
    fixture.disk.write(&path, &oversized);
    fixture.request.expected_evidence_sha256 = sha256_bytes(&oversized);
    assert_eq!(audit(&mut fixture).unwrap_err().category(), "evidence_size");

    let mut fixture = build_fixture();
    let observed = audit_observation(&fixture);
    let mut evidence = evidence_observation(&mut fixture);
    evidence.document = None;
    assert_eq!(
        audit_legacy_uploaded_heic_evidence(&fixture.request, evidence, &observed)
            .unwrap_err()
            .category(),
        "evidence_schema"
    );
}

#[test]
fn descriptor_reverification_rejects_any_change_after_the_first_read() {
    let changes: [fn(&mut EvidenceReread); 5] = [
        |again| again.reread = Some(b"overwritten".to_vec()),
        |again| again.held.as_mut().unwrap().mode = 0o100640,
        |again| again.held.as_mut().unwrap().nlink = 2,
        |again| again.held.as_mut().unwrap().gid += 1,
        |again| again.named.as_mut().unwrap().ino += 1,
    ];
    for change in changes {
        let mut fixture = build_fixture();
        let mut observed = audit_observation(&fixture);
        change(&mut observed.again);
        let evidence = evidence_observation(&mut fixture);
        assert_eq!(
            audit_legacy_uploaded_heic_evidence(&fixture.request, evidence, &observed)
                .unwrap_err()
                .category(),
            "evidence_changed"
        );
    }
}

#[test]
fn requests_have_to_name_digests_and_the_counts_of_a_cohort() {
    let mut fixture = build_fixture();
    fixture.request.expected_cohort_sha256 = "ABC".to_string();
    assert_eq!(
        validate_public_request(&fixture.request)
            .unwrap_err()
            .category(),
        "expected_digest"
    );
    let mut fixture = build_fixture();
    fixture.request.expected_reference_count = 4;
    assert_eq!(
        validate_public_request(&fixture.request)
            .unwrap_err()
            .category(),
        "expected_count"
    );
    assert!(validate_public_request(&build_fixture().request).is_ok());
}

#[test]
fn apply_loader_rejects_manifest_path_alias_with_same_state_database() {
    let mut fixture = build_fixture();
    let observed = audit_observation(&fixture);
    fixture.request.manifest_path = "/state/assets.yaml".to_string();
    let mut evidence = evidence_observation(&mut fixture);
    evidence.state = StateRead::LoadFailed;
    evidence.writable = true;
    let error = load_validated_legacy_uploaded_heic_evidence(&fixture.request, evidence, &observed)
        .err()
        .expect("manifest path alias must be rejected");
    assert_eq!(error.category(), "state_load");
}

#[test]
fn apply_loader_rejects_writer_state_changed_during_audit() {
    for writable in [true, false] {
        let mut fixture = build_fixture();
        let mut observed = audit_observation(&fixture);
        observed.state_unchanged = false;
        let mut evidence = evidence_observation(&mut fixture);
        evidence.writable = writable;
        let error =
            load_validated_legacy_uploaded_heic_evidence(&fixture.request, evidence, &observed)
                .err()
                .expect("writer state changes must be rejected");
        assert_eq!(error.category(), "state_changed");
    }
}

#[test]
fn state_changes_are_noticed_before_or_after_changes_to_the_evidence() {
    for (writable, expected) in [(true, "evidence_changed"), (false, "state_changed")] {
        let mut fixture = build_fixture();
        let mut observed = audit_observation(&fixture);
        observed.state_unchanged = false;
        observed.again.reread = None;
        let mut evidence = evidence_observation(&mut fixture);
        evidence.writable = writable;
        assert_eq!(
            audit_legacy_uploaded_heic_evidence(&fixture.request, evidence, &observed)
                .unwrap_err()
                .category(),
            expected
        );
    }
}

#[test]
fn references_are_opened_and_looked_at_again() {
    let mut fixture = build_fixture();
    let mut observed = audit_observation(&fixture);
    observed.references[1] = SourceRead::OpenFailed;
    let evidence = evidence_observation(&mut fixture);
    assert_eq!(
        audit_legacy_uploaded_heic_evidence(&fixture.request, evidence, &observed)
            .unwrap_err()
            .category(),
        "reference_open"
    );
    let mut fixture = build_fixture();
    let path = reference_path("asset-03");
    let mut observed = audit_observation(&fixture);
    fixture.disk.write(&path, b"another image");
    observed.references[1] = fixture.disk.read(&path);
    let evidence = evidence_observation(&mut fixture);
    assert_eq!(
        audit_legacy_uploaded_heic_evidence(&fixture.request, evidence, &observed)
            .unwrap_err()
            .category(),
        "reference_descriptor"
    );
}

fn resolved(record: &AssetRecord) -> CloudKitUploadedHeicAsset {
    let request = uploaded_heic_request(record).unwrap();
    CloudKitUploadedHeicAsset {
        record_change_tag: format!("tag-{}", request.uploaded_asset_id),
        master_record_name: format!("master-{}", request.uploaded_asset_id),
        owner_record_name_sha256: digest("opaque-owner"),
        initial_remote_state: CloudKitUploadedHeicInitialState::Active,
        initial_state_lookup_mode: CloudKitUploadedHeicInitialStateLookupMode::FullFields,
        matched_heic_sha256: request.expected_heic_sha256,
        size_bytes: request.expected_size_bytes,
        record_name: request.uploaded_asset_id,
    }
}

fn active_original() -> CloudKitActiveAssetValidation {
    CloudKitActiveAssetValidation {
        remote_state: CloudKitActiveAssetRemoteState::Active,
        lookup_mode: CloudKitActiveAssetLookupMode::FullFields,
    }
}

fn staged(disk: &Disk, path: &str, index: Option<usize>) -> StagedProbe {
    let (metadata, content) = match disk.files.get(path) {
        Some((metadata, content)) => (*metadata, content.clone()),
        None => {
            return StagedProbe {
                staged: SourceRead::OpenFailed,
                probe: Err(failure("reference_image")),
                restaged: SourceRead::OpenFailed,
                held: SourceRead::OpenFailed,
                named: SourceRead::OpenFailed,
                removed: true,
            };
        }
    };
    let mut copy = metadata;
    copy.ino += 500_000;
    StagedProbe {
        staged: SourceRead::Read(copy, content.clone()),
        probe: match index {
            Some(index) => Ok(ReferenceNormalizationIdentity {
                orientation: ORIENTATIONS[index],
                width: 4,
                height: 3,
                decoded_pixel_sha256: pixels(index),
            }),
            None => Err(failure("reference_image")),
        },
        restaged: SourceRead::Read(copy, content),
        held: disk.read(path),
        named: disk.read(path),
        removed: true,
    }
}

fn asset_observation(disk: &Disk, record: &AssetRecord, index: usize) -> AssetObservation {
    let id = record.asset_id.as_str();
    let reference = REFERENCE_ASSETS.iter().position(|asset| *asset == index);
    AssetObservation {
        raw: disk.look(&raw_path(id)),
        final_heic: disk.look(&heic_path(id)),
        mirror: disk.look(&mirror_path(id)),
        resolved: Ok(resolved(record)),
        original: Ok(active_original()),
        reference: disk.read(&reference_path(id)),
        probe: staged(disk, &reference_path(id), reference),
    }
}

fn asset_rereads(disk: &Disk, id: &str) -> AssetRereads {
    let twice = |path: &str| (disk.read(path), disk.read(path));
    AssetRereads {
        raw: twice(&raw_path(id)),
        final_heic: twice(&heic_path(id)),
        mirror: twice(&mirror_path(id)),
        reference: twice(&reference_path(id)),
    }
}

fn sources_again(disk: &Disk) -> SourcesAgain {
    SourcesAgain {
        assets: (0..10)
            .map(|index| asset_rereads(disk, &asset_id(index)))
            .collect(),
        checkpoint: (
            disk.read("/state/assets.json"),
            disk.read("/state/assets.json"),
        ),
        state_unchanged: true,
        status: CheckpointStatus::Current,
    }
}

fn generate_request() -> LegacyUploadEvidenceGenerateRequest {
    LegacyUploadEvidenceGenerateRequest {
        manifest_path: "/state/assets.json".to_string(),
        output_path: "/state/generated-evidence.json".to_string(),
        image_timeout_seconds: 30,
        quarantine_roots: vec!["/quarantine".to_string()],
    }
}

fn quarantine_directory() -> DirectoryMetadata {
    DirectoryMetadata {
        is_dir: true,
        dev: ROOT_DEVICE,
        ino: 77,
        uid: EUID,
        mode: 0o40700,
    }
}

fn overwrite_final(disk: &mut Disk, count: usize) {
    for index in 0..count {
        let id = asset_id(index);
        disk.write(
            &heic_path(&id),
            format!("replacement-final-{id}").as_bytes(),
        );
    }
}

fn generation_observation(
    disk: &Disk,
    records: Vec<AssetRecord>,
    assets: Vec<AssetObservation>,
) -> GenerationObservation {
    GenerationObservation {
        roots: vec![OfferedRoot {
            canonical: Some("/quarantine".to_string()),
            metadata: Some(quarantine_directory()),
        }],
        state: StateObservation {
            opened: true,
            checkpoint: disk.read("/state/assets.json"),
            manifest: Some(manifest_of(records)),
            status: CheckpointStatus::Current,
        },
        assets,
        encodings: GenerationEncodings {
            document: DocumentEncodings {
                cohort_json: Vec::new(),
                destination_json: Vec::new(),
                reference_json: Vec::new(),
                witness_json: Vec::new(),
            },
            assets_json: Vec::new(),
            replacements_json: Vec::new(),
            evidence: Vec::new(),
            plan_inputs: PlanInputs {
                destinations: Vec::new(),
                plan_json: None,
                rebased_json: None,
            },
        },
        again: sources_again(disk),
        euid: EUID,
    }
}

/// Fills in, step by step, what has to be encoded along the way.
fn encode_generation(observed: &mut GenerationObservation) -> Option<EvidenceDocument> {
    let request = generate_request();
    let manifest = observed.state.manifest.as_ref().unwrap();
    let roots = validate_generation_quarantine_roots(
        &request.quarantine_roots,
        &observed.roots,
        observed.euid,
    )
    .ok()?;
    let places = select_cohort(manifest).ok()?;
    let gathered = gather_cohort(manifest, &places, &observed.assets).ok()?;
    let destination_json: Vec<Vec<u8>> = gathered
        .iter()
        .filter_map(|asset| asset.replacement.as_ref())
        .map(|replacement| encode(&replacement.destination))
        .collect();
    let reference_json: Vec<Vec<u8>> = gathered
        .iter()
        .filter_map(|asset| asset.reference.as_ref())
        .map(encode_reference)
        .collect();
    observed.encodings.document.destination_json = destination_json.clone();
    observed.encodings.document.reference_json = reference_json.clone();
    let mut document = draft_document(&gathered, &roots, &destination_json, &reference_json).ok()?;
    observed.encodings.assets_json = encode(&document.assets);
    observed.encodings.replacements_json = encode(&document.retired_replacements);
    document.migration_id = generated_migration_id(
        &sha256_bytes(&observed.encodings.assets_json),
        &sha256_bytes(&observed.encodings.replacements_json),
    );
    document.cohort_sha256 = sha256_bytes(&encode_cohort(&document));
    observed.encodings.document = encodings(&document);
    observed.encodings.plan_inputs = plan_inputs(&document);
    observed.encodings.evidence = encode_document(&document);
    Some(document)
}

fn live_generation() -> (Disk, GenerationObservation) {
    let fixture = build_fixture();
    let mut disk = fixture.disk;
    overwrite_final(&mut disk, 2);
    let records = fixture.manifest.records;
    let assets = records
        .iter()
        .enumerate()
        .map(|(index, record)| asset_observation(&disk, record, index))
        .collect();
    let observed = generation_observation(&disk, records, assets);
    (disk, observed)
}

fn output_observation(
    disk: &mut Disk,
    document: &EvidenceDocument,
    observed: &GenerationObservation,
) -> OutputObservation {
    let path = generate_request().output_path;
    disk.write(&path, &observed.encodings.evidence);
    let metadata = disk.files[&path].0;
    let mut initial = metadata;
    initial.size = 0;
    let reads: Vec<String> = document
        .reference_normalizations
        .iter()
        .map(|reference| reference.reference_path.clone())
        .collect();
    let read_all =
        |disk: &Disk| -> Vec<SourceRead> { reads.iter().map(|path| disk.read(path)).collect() };
    OutputObservation {
        parent: Some(DirectoryMetadata {
            is_dir: true,
            dev: 7,
            ino: 5,
            uid: EUID,
            mode: 0o40755,
        }),
        created: CreatedOutput::Created(initial),
        written: true,
        synced: true,
        committed: Some(metadata),
        reread: Some(observed.encodings.evidence.clone()),
        held: Some(metadata),
        named: Some(metadata),
        parent_now: Some(DirectoryMetadata {
            is_dir: true,
            dev: 7,
            ino: 5,
            uid: EUID,
            mode: 0o40755,
        }),
        evidence: EvidenceObservation {
            read: disk.read(&path),
            document: Some(document.duplicate()),
            state: StateRead::Loaded(build_fixture().manifest),
            writable: false,
        },
        audit: AuditObservation {
            encodings: encodings(document),
            plan_inputs: plan_inputs(document),
            operational_plan_inputs: plan_inputs(document),
            references: read_all(disk),
            present_references: Vec::new(),
            state_unchanged: true,
            again: disk.reread(&path),
            references_held: read_all(disk),
            references_named: read_all(disk),
            euid: EUID,
        },
        again: sources_again(disk),
        euid: EUID,
    }
}

#[test]
fn generator_selects_exact_live_shaped_cohort_and_round_trips_canonical_evidence() {
    let (mut disk, mut observed) = live_generation();
    let document = encode_generation(&mut observed).unwrap();
    let output = output_observation(&mut disk, &document, &observed);
    let report = generate_legacy_uploaded_heic_evidence(&generate_request(), &observed, output)
        .unwrap();
    assert_eq!(report.asset_count, 10);
    assert_eq!(report.retired_replacement_count, 2);
    assert_eq!(report.reference_count, 5);
    assert_eq!(
        document
            .assets
            .iter()
            .map(|asset| asset.asset_id.clone())
            .collect::<Vec<_>>(),
        (0..10)
            .map(|index| format!("asset-{index:02}"))
            .collect::<Vec<_>>()
    );
    assert_eq!(
        document
            .reference_normalizations
            .iter()
            .map(|reference| reference.orientation)
            .collect::<Vec<_>>(),
        ORIENTATIONS
    );
    assert_eq!(
        report.evidence_sha256,
        sha256_bytes(&observed.encodings.evidence)
    );
    assert_eq!(report.cohort_sha256, document.cohort_sha256);
    assert_eq!(document.quarantine_members.len(), 9);
    let prepared = prepare_generated_evidence(&generate_request(), &observed).unwrap();
    assert_eq!(prepared.document, document);
    assert_eq!(
        document.migration_id,
        digest(&format!(
            "[5,\"legacy-uploaded-heic-evidence-generator-v1\",\"{}\",\"{}\"]",
            report.manifest_target_sha256, report.cloudkit_target_sha256
        ))
    );
}

#[test]
fn generator_seals_exact_pair_of_already_deleted_replacements_and_active_originals() {
    let (_, mut observed) = live_generation();
    for asset in &mut observed.assets {
        asset.resolved.as_mut().unwrap().initial_remote_state =
            CloudKitUploadedHeicInitialState::AlreadyDeleted;
    }
    let document = encode_generation(&mut observed).unwrap();
    assert!(prepare_generated_evidence(&generate_request(), &observed).is_ok());
    assert_eq!(document.schema_version, 5);
    assert!(document.retired_replacements.iter().all(|replacement| {
        replacement.initial_remote_state == CloudKitUploadedHeicInitialState::AlreadyDeleted
            && replacement.original_remote_state == CloudKitActiveAssetRemoteState::Active
            && replacement.original_state_lookup_mode == CloudKitActiveAssetLookupMode::FullFields
    }));
}

#[test]
fn generator_descriptor_race_emits_no_evidence() {
    let (mut disk, mut observed) = live_generation();
    encode_generation(&mut observed).unwrap();
    disk.write(&reference_path("asset-02"), b"raced");
    observed.again = sources_again(&disk);
    assert_eq!(
        prepare_generated_evidence(&generate_request(), &observed)
            .unwrap_err()
            .category(),
        "source_changed"
    );
}

#[test]
fn generator_rejects_zero_or_multiple_retirement_candidates_without_output() {
    for candidate_count in [0, 3] {
        let fixture = build_fixture();
        let mut disk = fixture.disk;
        overwrite_final(&mut disk, candidate_count);
        let records = fixture.manifest.records;
        let assets = records
            .iter()
            .enumerate()
            .map(|(index, record)| asset_observation(&disk, record, index))
            .collect();
        let mut observed = generation_observation(&disk, records, assets);
        encode_generation(&mut observed);
        assert_eq!(
            prepare_generated_evidence(&generate_request(), &observed)
                .unwrap_err()
                .category(),
            "candidate_count"
        );
    }
}

#[test]
fn generator_rejects_wrong_reference_orientation_without_output() {
    let (_, mut observed) = live_generation();
    observed.assets[2].probe.probe.as_mut().unwrap().orientation = 8;
    assert_eq!(
        prepare_generated_evidence(&generate_request(), &observed)
            .unwrap_err()
            .category(),
        "reference_image"
    );
}

#[test]
fn generator_rejects_colliding_cloudkit_master_without_output() {
    let (_, mut observed) = live_generation();
    for asset in &mut observed.assets {
        asset.resolved.as_mut().unwrap().master_record_name = "shared-master".to_string();
    }
    encode_generation(&mut observed);
    assert_eq!(
        prepare_generated_evidence(&generate_request(), &observed)
            .unwrap_err()
            .category(),
        "cloudkit_ambiguity"
    );

    let (_, mut observed) = live_generation();
    for asset in &mut observed.assets {
        asset.resolved = Err(failure("cloudkit_ambiguity"));
        asset.original = Err(failure("cloudkit_ambiguity"));
    }
    assert_eq!(
        prepare_generated_evidence(&generate_request(), &observed)
            .unwrap_err()
            .category(),
        "cloudkit_ambiguity"
    );
}

#[test]
fn generator_rejects_colliding_cloudkit_change_tag_without_output() {
    let (_, mut observed) = live_generation();
    for asset in &mut observed.assets {
        asset.resolved.as_mut().unwrap().record_change_tag = "shared-change-tag".to_string();
    }
    encode_generation(&mut observed);
    assert_eq!(
        prepare_generated_evidence(&generate_request(), &observed)
            .unwrap_err()
            .category(),
        "cloudkit_ambiguity"
    );

    let (_, mut observed) = live_generation();
    for asset in &mut observed.assets {
        let resolved = asset.resolved.as_mut().unwrap();
        resolved.owner_record_name_sha256 = digest(&format!("owner-{}", resolved.record_name));
    }
    encode_generation(&mut observed);
    assert_eq!(
        prepare_generated_evidence(&generate_request(), &observed)
            .unwrap_err()
            .category(),
        "cloudkit_ambiguity"
    );

    let (_, mut observed) = live_generation();
    observed.assets[0]
        .resolved
        .as_mut()
        .unwrap()
        .initial_remote_state = CloudKitUploadedHeicInitialState::ActiveUnmarked;
    observed.assets[1]
        .resolved
        .as_mut()
        .unwrap()
        .initial_remote_state = CloudKitUploadedHeicInitialState::AlreadyDeleted;
    let mixed = encode_generation(&mut observed).unwrap();
    assert!(prepare_generated_evidence(&generate_request(), &observed).is_ok());
    assert_eq!(
        mixed
            .retired_replacements
            .iter()
            .map(|replacement| replacement.initial_remote_state)
            .collect::<Vec<_>>(),
        vec![
            CloudKitUploadedHeicInitialState::ActiveUnmarked,
            CloudKitUploadedHeicInitialState::AlreadyDeleted,
        ]
    );
    assert!(mixed.retired_replacements.iter().all(|replacement| {
        replacement.initial_state_lookup_mode
            == CloudKitUploadedHeicInitialStateLookupMode::FullFields
    }));
}

fn refused_output(change: fn(&mut OutputObservation)) -> &'static str {
    let (mut disk, mut observed) = live_generation();
    let document = encode_generation(&mut observed).unwrap();
    let mut output = output_observation(&mut disk, &document, &observed);
    change(&mut output);
    generate_legacy_uploaded_heic_evidence(&generate_request(), &observed, output)
        .unwrap_err()
        .category()
}

#[test]
fn generator_exclusive_output_never_overwrites_existing_file() {
    assert_eq!(
        refused_output(|output| output.created = CreatedOutput::NotCreated),
        "output_create"
    );
}

#[test]
fn generator_output_parent_race_leaves_no_file_in_either_directory() {
    assert_eq!(
        refused_output(|output| output.parent_now.as_mut().unwrap().ino += 1),
        "output_verify"
    );
    let initial = build_fixture().disk.files["/state/assets.json"].0;
    let mut other = initial;
    other.ino += 1;
    let created = CreatedOutput::Created(initial);
    assert!(may_remove_output(created, Some(initial)));
    assert!(!may_remove_output(created, Some(other)));
    assert!(!may_remove_output(created, None));
    assert!(!may_remove_output(CreatedOutput::NotCreated, Some(initial)));
}

#[test]
fn every_step_of_writing_evidence_can_fail() {
    let cases: [(fn(&mut OutputObservation), &'static str); 12] = [
        (|output| output.parent = None, "output_parent"),
        (
            |output| output.parent.as_mut().unwrap().is_dir = false,
            "output_parent",
        ),
        (
            |output| output.created = CreatedOutput::Undescribed,
            "output_metadata",
        ),
        (
            |output| {
                if let CreatedOutput::Created(metadata) = &mut output.created {
                    metadata.mode = 0o100644;
                }
            },
            "output_metadata",
        ),
        (|output| output.written = false, "output_write"),
        (|output| output.synced = false, "output_sync"),
        (
            |output| output.committed.as_mut().unwrap().size += 1,
            "output_verify",
        ),
        (
            |output| output.reread = Some(b"other".to_vec()),
            "output_verify",
        ),
        (
            |output| output.evidence.state = StateRead::OpenFailed,
            "state_open",
        ),
        (
            |output| output.again.assets[4].raw.0 = SourceRead::OpenFailed,
            "source_changed",
        ),
        (|output| output.again.state_unchanged = false, "state_changed"),
        (
            |output| output.again.status = CheckpointStatus::Stale,
            "checkpoint_changed",
        ),
    ];
    for (change, expected) in cases {
        assert_eq!(refused_output(change), expected);
    }
}

fn refused_generation(change: fn(&mut GenerationObservation)) -> &'static str {
    let (_, mut observed) = live_generation();
    encode_generation(&mut observed).unwrap();
    change(&mut observed);
    prepare_generated_evidence(&generate_request(), &observed)
        .unwrap_err()
        .category()
}

#[test]
fn every_step_of_gathering_evidence_can_fail() {
    let cases: [(fn(&mut GenerationObservation), &'static str); 32] = [
        (|observed| observed.roots[0].canonical = None, "quarantine_roots"),
        (
            |observed| observed.roots[0].metadata.as_mut().unwrap().mode = 0o40755,
            "quarantine_roots",
        ),
        (|observed| observed.state.opened = false, "state_open"),
        (
            |observed| observed.state.checkpoint = SourceRead::OpenFailed,
            "checkpoint_open",
        ),
        (|observed| observed.state.manifest = None, "state_load"),
        (
            |observed| observed.state.status = CheckpointStatus::Unreadable,
            "checkpoint_read",
        ),
        (
            |observed| observed.state.status = CheckpointStatus::Stale,
            "checkpoint_stale",
        ),
        (
            |observed| record_of(observed, 9).state = State::Failed,
            "asset_count",
        ),
        (
            |observed| record_of(observed, 9).uploaded_heic_delete = true,
            "asset_count",
        ),
        (
            |observed| record_of(observed, 9).journal = JournalSlot::Invalid,
            "asset_count",
        ),
        (|observed| record_of(observed, 5).heic = None, "proof_missing"),
        (
            |observed| record_of(observed, 5).nas.as_mut().unwrap().decoded = None,
            "proof_schema",
        ),
        (
            |observed| {
                let upload = record_of(observed, 5).upload.as_mut().unwrap();
                upload.decoded.as_mut().unwrap().uploaded_heic_path = None;
            },
            "proof_binding",
        ),
        (
            |observed| {
                let heic = record_of(observed, 5).heic.as_mut().unwrap();
                heic.decoded.as_mut().unwrap().visual_match_ok = false;
            },
            "proof_binding",
        ),
        (
            |observed| observed.assets[5].raw.read = SourceRead::OpenFailed,
            "source_open",
        ),
        (
            |observed| observed.assets[5].mirror.read = SourceRead::MetadataFailed,
            "source_metadata",
        ),
        (
            |observed| {
                let heic = observed.assets[5].final_heic.read.metadata_for_test();
                observed.assets[5].final_heic.read = SourceRead::ReadFailed(heic);
            },
            "source_read",
        ),
        (
            |observed| {
                let raw = observed.assets[5].raw.read.metadata_for_test();
                observed.assets[5].raw.read = SourceRead::Read(raw, b"other".to_vec());
            },
            "source_binding",
        ),
        (
            |observed| record_of(observed, 5).record_sha256 = None,
            "record_digest",
        ),
        (
            |observed| {
                let resolved = observed.assets[0].resolved.as_mut().unwrap();
                resolved.master_record_name = resolved.record_name.clone();
            },
            "cloudkit_binding",
        ),
        (
            |observed| observed.assets[1].original = Err(failure("original_remote_state")),
            "original_remote_state",
        ),
        (
            |observed| observed.assets[2].reference = SourceRead::OpenFailed,
            "source_open",
        ),
        (
            |observed| {
                let raw = observed.assets[2].raw.read.metadata_for_test();
                observed.assets[2].reference = SourceRead::Read(raw, b"x".to_vec());
            },
            "reference_distinct",
        ),
        (
            |observed| observed.assets[2].probe.staged = SourceRead::OpenFailed,
            "reference_staging",
        ),
        (
            |observed| observed.assets[2].probe.probe = Err(failure("reference_image")),
            "reference_image",
        ),
        (
            |observed| observed.assets[2].probe.restaged = SourceRead::MetadataFailed,
            "reference_staging",
        ),
        (
            |observed| observed.assets[2].probe.held = SourceRead::OpenFailed,
            "source_changed",
        ),
        (
            |observed| observed.assets[2].probe.removed = false,
            "reference_staging",
        ),
        (
            |observed| observed.assets[4].mirror.named = SourceRead::OpenFailed,
            "source_changed",
        ),
        (
            |observed| observed.encodings.document.destination_json.clear(),
            "proof_lineage",
        ),
        (
            |observed| observed.encodings.document.reference_json.clear(),
            "reference_witness",
        ),
        (
            |observed| observed.roots[0].metadata.as_mut().unwrap().dev = 8,
            "quarantine_mapping",
        ),
    ];
    for (position, (change, expected)) in cases.into_iter().enumerate() {
        assert_eq!(refused_generation(change), expected, "case {position}");
    }
}

fn record_of(observed: &mut GenerationObservation, index: usize) -> &mut AssetRecord {
    &mut observed.state.manifest.as_mut().unwrap().records[index]
}

trait ReadForTest {
    fn metadata_for_test(&self) -> EvidenceMetadata;
}

impl ReadForTest for SourceRead {
    fn metadata_for_test(&self) -> EvidenceMetadata {
        match self {
            SourceRead::Read(metadata, _) => *metadata,
            _ => unreachable!(),
        }
    }
}

#[test]
fn generator_requests_need_a_timeout_and_a_safe_output_path() {
    let (_, observed) = live_generation();
    let mut request = generate_request();
    request.image_timeout_seconds = 0;
    assert_eq!(
        prepare_generated_evidence(&request, &observed)
            .unwrap_err()
            .category(),
        "generator_request"
    );
    let mut request = generate_request();
    request.output_path = "/state/../elsewhere.json".to_string();
    assert_eq!(
        prepare_generated_evidence(&request, &observed)
            .unwrap_err()
            .category(),
        "generator_request"
    );
}

#[test]
fn references_that_share_their_content_are_refused() {
    let fixture = build_fixture();
    let mut disk = fixture.disk;
    overwrite_final(&mut disk, 2);
    let twin = reference_image(0);
    disk.write(&reference_path("asset-03"), &twin);
    let records = fixture.manifest.records;
    let assets = records
        .iter()
        .enumerate()
        .map(|(index, record)| asset_observation(&disk, record, index))
        .collect();
    let mut observed = generation_observation(&disk, records, assets);
    encode_generation(&mut observed);
    assert_eq!(
        prepare_generated_evidence(&generate_request(), &observed)
            .unwrap_err()
            .category(),
        "reference_distinct"
    );
}

const PREVIOUS_DEVICE: u64 = 24;
const REQUIREMENT: &str = "designated => anchor apple generic and identifier \"com.icloudpd-optimizer.helper\" and certificate leaf[subject.OU] = \"3B86NGN2ZD\"";
const PHASES: [LegacyUploadMigrationPhase; 9] = [
    LegacyUploadMigrationPhase::Prepared,
    LegacyUploadMigrationPhase::DeleteConfirmed,
    LegacyUploadMigrationPhase::Quarantined,
    LegacyUploadMigrationPhase::Reset,
    LegacyUploadMigrationPhase::Converted,
    LegacyUploadMigrationPhase::UploadPrepared,
    LegacyUploadMigrationPhase::UploadVerified,
    LegacyUploadMigrationPhase::Mirrored,
    LegacyUploadMigrationPhase::Complete,
];

/// Puts the journals of both replacements at the given phase, each as the document prepares it.
fn journal_to(fixture: &mut Fixture, phase: LegacyUploadMigrationPhase) {
    let document = &fixture.document;
    for record in &mut fixture.manifest.records {
        record.journal = JournalSlot::Absent;
    }
    let plan =
        quarantine_plan_from_document(document, &fixture.manifest, &plan_inputs(document)).unwrap();
    for (index, replacement) in document.retired_replacements.iter().enumerate() {
        let identity = LegacyUploadMigrationIdentity {
            migration_id: document.migration_id.clone(),
            evidence_sha256: fixture.request.expected_evidence_sha256.clone(),
            cohort_sha256: document.cohort_sha256.clone(),
            asset_id: replacement.asset_id.clone(),
            source_record_sha256: document.assets[index].record_sha256.clone(),
            old_uploaded_asset_id: replacement.uploaded_asset_id.clone(),
            old_uploaded_master_id: replacement.uploaded_master_id.clone(),
            destination_sha256: replacement.destination_sha256.clone(),
            original_asset_identity_sha256: replacement.original_asset_identity_sha256.clone(),
            old_conversion_lineage_sha256: replacement.old_conversion_lineage_sha256.clone(),
            old_upload_lineage_sha256: replacement.old_upload_lineage_sha256.clone(),
            old_mirror_lineage_sha256: replacement.old_mirror_lineage_sha256.clone(),
            quarantine_plan: plan.duplicate(),
        };
        let entries = PHASES[..=phase.index()]
            .iter()
            .map(|phase| LegacyUploadMigrationEntry {
                phase: *phase,
                entry_sha256: digest(&format!("entry-{index}-{}", phase.as_str())),
            })
            .collect();
        let record = &mut fixture.manifest.records[index];
        record.record_sha256 = Some(digest(&format!("migrating-{index}")));
        record.journal = JournalSlot::Valid(LegacyUploadMigrationJournal { identity, entries });
        set_state_for_phase(record, phase);
        if phase == LegacyUploadMigrationPhase::Reset {
            record.conversion = None;
            record.heic = None;
            record.upload = None;
            record.icloudpd_local_mirror = None;
        }
    }
    fixture.manifest.json = encode(&fixture.manifest.records);
}

fn set_devices(document: &mut EvidenceDocument, device: u64) {
    document.quarantine_roots[0].device = device;
    for member in &mut document.quarantine_members {
        member.source.device = device;
        member.root_device = device;
    }
    for raw in &mut document.raw_inputs {
        raw.source.device = device;
    }
    for reference in &mut document.reference_normalizations {
        reference.device = device;
    }
}

/// Evidence that was sealed when the device had another number, with the deletes confirmed.
fn rebooted_fixture_with(with_destination: bool) -> Fixture {
    let mut fixture = build_fixture_with(with_destination);
    set_devices(&mut fixture.document, PREVIOUS_DEVICE);
    for reference in &mut fixture.document.reference_normalizations {
        reference.reference_identity_sha256 = sha256_bytes(&encode_reference(reference));
    }
    write_document(&mut fixture);
    journal_to(&mut fixture, LegacyUploadMigrationPhase::DeleteConfirmed);
    fixture.disk.write("/helper", b"signed-recovery-helper");
    fixture
}

fn rebooted_fixture() -> Fixture {
    rebooted_fixture_with(true)
}

/// The same evidence and disk, with the journals at the same phase.
fn manifest_again(fixture: &Fixture) -> Manifest {
    let phase = match &fixture.manifest.records[0].journal {
        JournalSlot::Valid(journal) => journal.phase(),
        _ => None,
    };
    let with_destination = fixture.manifest.records[0]
        .original_asset
        .as_ref()
        .unwrap()
        .canonical;
    let mut again = rebooted_fixture_with(with_destination);
    if let Some(phase) = phase {
        journal_to(&mut again, phase);
    }
    again.manifest
}

fn operational(fixture: &Fixture) -> EvidenceDocument {
    let mut document = fixture.document.duplicate();
    set_devices(&mut document, ROOT_DEVICE);
    document
}

fn cohort_directory(fixture: &Fixture) -> String {
    format!("/quarantine/{}", fixture.document.cohort_sha256)
}

fn cohort_files(fixture: &Fixture) -> Vec<String> {
    let prefix = format!("{}/", cohort_directory(fixture));
    fixture
        .disk
        .files
        .keys()
        .filter(|path| path.starts_with(&prefix))
        .cloned()
        .collect()
}

fn roots(fixture: &Fixture) -> Vec<RootObservation> {
    vec![RootObservation {
        canonical: Some("/quarantine".to_string()),
        metadata: Some(quarantine_directory()),
        cohort_canonical: Some(cohort_directory(fixture)),
        cohort: Some(DirectoryMetadata {
            is_dir: true,
            dev: ROOT_DEVICE,
            ino: 78,
            uid: EUID,
            mode: 0o40700,
        }),
        cohort_is_empty: cohort_files(fixture).is_empty(),
    }]
}

fn layout(fixture: &Fixture) -> LayoutObservation {
    let document = &fixture.document;
    LayoutObservation {
        roots: roots(fixture),
        entries: Some(
            cohort_files(fixture)
                .into_iter()
                .map(|path| CohortEntry {
                    file: fixture.disk.presence(&path),
                    path,
                })
                .collect(),
        ),
        raws: document
            .raw_inputs
            .iter()
            .map(|raw| fixture.disk.presence(&raw.path))
            .collect(),
        sources: document
            .quarantine_members
            .iter()
            .map(|member| fixture.disk.presence(&member.source_path))
            .collect(),
        probes: document
            .quarantine_members
            .iter()
            .map(|member| {
                let reference = document
                    .reference_normalizations
                    .iter()
                    .position(|reference| reference.reference_path == member.source_path)?;
                let (_, content) = fixture.disk.files.get(&member.source_path)?;
                let normalized = content.starts_with(b"normalized");
                Some(ReferenceNormalizationIdentity {
                    orientation: if normalized {
                        1
                    } else {
                        ORIENTATIONS[reference]
                    },
                    width: 4,
                    height: 3,
                    decoded_pixel_sha256: pixels(reference),
                })
            })
            .collect(),
    }
}

fn presences(fixture: &Fixture) -> Vec<Presence> {
    fixture
        .document
        .reference_normalizations
        .iter()
        .map(|reference| {
            if fixture.disk.files.contains_key(&reference.reference_path) {
                Presence::Present(fixture.disk.read(&reference.reference_path))
            } else {
                Presence::Missing
            }
        })
        .collect()
}

/// The reads of the references that are still in their places.
fn present_reads(fixture: &Fixture) -> Vec<SourceRead> {
    fixture
        .document
        .reference_normalizations
        .iter()
        .filter(|reference| fixture.disk.files.contains_key(&reference.reference_path))
        .map(|reference| fixture.disk.read(&reference.reference_path))
        .collect()
}

fn executable(disk: &Disk, path: &str) -> ExecutableObservation {
    ExecutableObservation::Observed {
        canonical: Some(path.to_string()),
        verified: true,
        requirement: Some((Vec::new(), format!("{REQUIREMENT}\n").into_bytes())),
        read: disk.read(path),
        held: disk.read(path),
        named: disk.read(path),
    }
}

fn process(disk: &Disk) -> ProcessObservation {
    ProcessObservation {
        executable: Some("/helper".to_string()),
        observed: executable(disk, "/helper"),
        euid: EUID,
    }
}

fn root_path_json(fixture: &Fixture) -> Vec<Vec<u8>> {
    fixture
        .document
        .quarantine_roots
        .iter()
        .map(|root| encode(&root.canonical_path))
        .collect()
}

fn operational_observation(fixture: &Fixture) -> OperationalObservation {
    let document = &fixture.document;
    OperationalObservation {
        roots: roots(fixture),
        root_path_json: root_path_json(fixture),
        members: document
            .quarantine_members
            .iter()
            .map(|member| fixture.disk.look(&member.source_path))
            .collect(),
        raws: document
            .raw_inputs
            .iter()
            .map(|raw| fixture.disk.look(&raw.path))
            .collect(),
        references: reference_reads(fixture),
        present_references: presences(fixture),
        references_held: present_reads(fixture),
        references_named: present_reads(fixture),
        layout: layout(fixture),
        plan_inputs: plan_inputs(&operational(fixture)),
    }
}

fn recovery_observation(fixture: &Fixture) -> RecoveryObservation {
    RecoveryObservation {
        read: fixture.disk.read(&fixture.request.evidence_path),
        document: Some(fixture.document.duplicate()),
        state: StateRead::Loaded(manifest_again(fixture)),
        encodings: encodings(&fixture.document),
        plan_inputs: plan_inputs(&fixture.document),
        replies: vec![Ok(active_original()), Ok(active_original())],
        status: CheckpointStatus::Current,
        operational: operational_observation(fixture),
        process: process(&fixture.disk),
    }
}

fn generate_recovery_request(
    fixture: &Fixture,
    partial: bool,
    output_path: &str,
) -> LegacyUploadDeviceRecoveryGenerateRequest {
    LegacyUploadDeviceRecoveryGenerateRequest {
        evidence: request_again(&fixture.request),
        expected_signer_designated_requirement_sha256: digest(REQUIREMENT),
        allow_partial_quarantine: partial,
        output_path: output_path.to_string(),
    }
}

fn request_again(request: &LegacyUploadEvidenceAuditRequest) -> LegacyUploadEvidenceAuditRequest {
    LegacyUploadEvidenceAuditRequest {
        manifest_path: request.manifest_path.clone(),
        evidence_path: request.evidence_path.clone(),
        expected_evidence_sha256: request.expected_evidence_sha256.clone(),
        expected_asset_count: request.expected_asset_count,
        expected_retired_replacement_count: request.expected_retired_replacement_count,
        expected_reference_count: request.expected_reference_count,
        expected_cohort_sha256: request.expected_cohort_sha256.clone(),
    }
}

fn parent_directory() -> Option<DirectoryMetadata> {
    Some(DirectoryMetadata {
        is_dir: true,
        dev: ROOT_DEVICE,
        ino: 5,
        uid: EUID,
        mode: 0o40755,
    })
}

/// The receipt that may be made, written out at the path.
fn draft(
    fixture: &mut Fixture,
    partial: bool,
    path: &str,
) -> Result<DeviceRecoveryReceipt, LegacyUploadEvidenceError> {
    let request = generate_recovery_request(fixture, partial, path);
    let (body, _) = draft_device_recovery_receipt(&request, &recovery_observation(fixture))?;
    let json = encode(&body);
    let receipt = seal_receipt(body, &json);
    fixture.disk.write(path, &encode(&receipt));
    Ok(receipt)
}

fn receipt_output(disk: &Disk, path: &str) -> ReceiptOutput {
    let (metadata, content) = &disk.files[path];
    ReceiptOutput {
        parent: parent_directory(),
        created: true,
        written: true,
        reread: Some(content.clone()),
        metadata: Some(*metadata),
        sealed: Some(*metadata),
        parent_synced: true,
    }
}

fn issued_observation(fixture: &Fixture, path: &str) -> IssuedObservation {
    IssuedObservation {
        receipt: fixture.disk.files[path].1.clone(),
        output: receipt_output(&fixture.disk, path),
        state_unchanged: true,
        evidence_again: fixture.disk.reread(&fixture.request.evidence_path),
        receipt_again: fixture.disk.reread(path),
    }
}

fn receipt_observation(
    fixture: &Fixture,
    receipt: DeviceRecoveryReceipt,
    path: &str,
) -> ReceiptObservation {
    ReceiptObservation {
        read: fixture.disk.read(path),
        body_json: encode(&receipt.body),
        receipt: Some(receipt),
        roots: roots(fixture),
        root_path_json: root_path_json(fixture),
        plan_inputs: plan_inputs(&operational(fixture)),
        layout: layout(fixture),
        again: fixture.disk.reread(path),
        process: process(&fixture.disk),
    }
}

fn recovered_audit_observation(fixture: &Fixture) -> AuditObservation {
    AuditObservation {
        encodings: encodings(&fixture.document),
        plan_inputs: plan_inputs(&fixture.document),
        operational_plan_inputs: plan_inputs(&operational(fixture)),
        references: reference_reads(fixture),
        present_references: presences(fixture),
        state_unchanged: true,
        again: fixture.disk.reread(&fixture.request.evidence_path),
        references_held: present_reads(fixture),
        references_named: present_reads(fixture),
        euid: EUID,
    }
}

fn recovered_evidence(fixture: &Fixture) -> EvidenceObservation {
    EvidenceObservation {
        read: fixture.disk.read(&fixture.request.evidence_path),
        document: Some(fixture.document.duplicate()),
        state: StateRead::Loaded(manifest_again(fixture)),
        writable: false,
    }
}

fn recovery_request(fixture: &Fixture, path: &str) -> LegacyUploadDeviceRecoveryRequest {
    LegacyUploadDeviceRecoveryRequest {
        receipt_path: path.to_string(),
        expected_receipt_sha256: sha256_bytes(&fixture.disk.files[path].1),
    }
}

fn load_recovered(
    fixture: &Fixture,
    receipt: DeviceRecoveryReceipt,
    path: &str,
) -> Result<ValidatedLegacyUploadEvidence, LegacyUploadEvidenceError> {
    load_validated_legacy_uploaded_heic_evidence_with_device_recovery(
        &fixture.request,
        &recovery_request(fixture, path),
        recovered_evidence(fixture),
        receipt_observation(fixture, receipt, path),
        &recovered_audit_observation(fixture),
    )
}

#[test]
fn validated_evidence_resumes_against_the_exact_prepared_registry_cohort() {
    let mut fixture = build_fixture();
    let observed = audit_observation(&fixture);
    let evidence = evidence_observation(&mut fixture);
    let ids: Vec<String> =
        load_validated_legacy_uploaded_heic_evidence(&fixture.request, evidence, &observed)
            .unwrap()
            .replacement_asset_ids()
            .iter()
            .map(|id| id.to_string())
            .collect();

    fixture.manifest = build_fixture().manifest;
    journal_to(&mut fixture, LegacyUploadMigrationPhase::Prepared);
    let mut authoritative = build_fixture();
    journal_to(&mut authoritative, LegacyUploadMigrationPhase::Prepared);
    let evidence = evidence_observation(&mut fixture);
    let mut resumed =
        load_validated_legacy_uploaded_heic_evidence(&fixture.request, evidence, &observed)
            .unwrap();
    resumed
        .revalidate_authoritative_manifest(
            &authoritative.manifest,
            &manifest_look(&fixture, None, None),
        )
        .unwrap();
    resumed
        .revalidate_held_evidence(&held_look(&fixture, None, None))
        .unwrap();
    assert_eq!(resumed.replacement_asset_ids().to_vec(), ids);
    assert_eq!(ids, vec!["asset-00", "asset-01"]);
}

fn held_look(
    fixture: &Fixture,
    receipt: Option<&str>,
    body_json: Option<Vec<u8>>,
) -> HeldLook {
    let evidence = fixture.disk.reread(&fixture.request.evidence_path);
    HeldLook {
        evidence,
        receipt: fixture
            .disk
            .reread(receipt.unwrap_or(&fixture.request.evidence_path)),
        body_json: body_json.unwrap_or_default(),
        euid: EUID,
    }
}

fn manifest_look(
    fixture: &Fixture,
    receipt: Option<&str>,
    body_json: Option<Vec<u8>>,
) -> ManifestLook {
    ManifestLook {
        before: held_look(fixture, receipt, body_json.clone()),
        encodings: encodings(&fixture.document),
        plan_inputs: plan_inputs(&fixture.document),
        operational_plan_inputs: plan_inputs(&operational(fixture)),
        process: process(&fixture.disk),
        after: held_look(fixture, receipt, body_json),
    }
}

#[test]
fn post_reboot_recovery_rebases_only_exact_verified_device_mapping() {
    let mut fixture = rebooted_fixture();
    let manifest = manifest_again(&fixture);
    let (moved, mappings) = operational_document_for_device_recovery_with_mode(
        &fixture.document,
        &manifest,
        false,
        &operational_observation(&fixture),
        EUID,
    )
    .unwrap();
    assert_eq!(mappings.len(), 1);
    assert_eq!(mappings[0].previous_device, PREVIOUS_DEVICE);
    assert_eq!(mappings[0].current_device, ROOT_DEVICE);
    assert!(moved
        .quarantine_members
        .iter()
        .all(|member| member.source.device == ROOT_DEVICE && member.root_device == ROOT_DEVICE));
    assert!(moved
        .raw_inputs
        .iter()
        .all(|raw| raw.source.device == ROOT_DEVICE));
    assert!(moved
        .reference_normalizations
        .iter()
        .all(|reference| reference.device == ROOT_DEVICE));
    assert_eq!(moved, operational(&fixture));

    let path = fixture.document.raw_inputs[0].path.clone();
    fixture.disk.write(&path, b"tampered");
    assert_eq!(
        operational_document_for_device_recovery_with_mode(
            &fixture.document,
            &manifest,
            false,
            &operational_observation(&fixture),
            EUID,
        )
        .unwrap_err()
        .category(),
        "recovery_raw"
    );
}

#[test]
fn device_recovery_receipt_is_signer_pinned_sealed_and_replay_checked() {
    let mut fixture = rebooted_fixture();
    let path = "/state/device-recovery.json";
    let receipt = draft(&mut fixture, false, path).unwrap();
    let request = generate_recovery_request(&fixture, false, path);
    let report = generate_legacy_uploaded_heic_device_recovery(
        &request,
        &recovery_observation(&fixture),
        &issued_observation(&fixture, path),
    )
    .unwrap();
    assert!(!report.partial_quarantine);
    assert_eq!(report.device_mapping_count, 1);
    assert_eq!(report.raw_input_count, 10);
    assert_eq!(report.quarantine_member_count, 9);
    assert_eq!(report.reference_count, 5);
    assert_eq!(
        report.signer_designated_requirement_sha256,
        digest(REQUIREMENT)
    );
    assert_eq!(
        report.receipt_sha256,
        sha256_bytes(&fixture.disk.files[path].1)
    );
    assert_eq!(receipt.body.mappings[0].previous_device, PREVIOUS_DEVICE);
    assert_eq!(receipt.body.mappings[0].current_device, ROOT_DEVICE);
    assert_eq!(receipt.body.migration_phase, "delete_confirmed");
    assert_eq!(
        receipt.body.signer.executable_sha256,
        digest("signed-recovery-helper")
    );
    assert_eq!(receipt.body_sha256, sha256_bytes(&encode(&receipt.body)));

    let told = audit_legacy_uploaded_heic_evidence_with_device_recovery(
        &fixture.request,
        &recovery_request(&fixture, path),
        recovered_evidence(&fixture),
        receipt_observation(&fixture, receipt, path),
        &recovered_audit_observation(&fixture),
    )
    .unwrap();
    assert_eq!(told.asset_count, 10);

    let receipt = draft(&mut fixture, false, path).unwrap();
    fixture.disk.write("/helper", b"other-helper");
    assert_eq!(
        audit_legacy_uploaded_heic_evidence_with_device_recovery(
            &fixture.request,
            &recovery_request(&fixture, path),
            recovered_evidence(&fixture),
            receipt_observation(&fixture, receipt, path),
            &recovered_audit_observation(&fixture),
        )
        .unwrap_err()
        .category(),
        "recovery_signer_mismatch"
    );
}

#[test]
fn device_recovery_accepts_exact_partial_reference_layout_after_device_remap() {
    let mut fixture = rebooted_fixture();
    let moved = member_destination(&operational(&fixture), 4);
    let copied = member_destination(&operational(&fixture), 5);
    let first = fixture.document.quarantine_members[4].source_path.clone();
    let second = fixture.document.quarantine_members[5].source_path.clone();
    let file = fixture.disk.files.remove(&first).unwrap();
    fixture.disk.files.insert(moved, file);
    let file = fixture.disk.files.remove(&second).unwrap();
    fixture.disk.files.insert(copied, file);
    fixture.disk.write(&second, b"normalized-second");

    let path = "/state/device-recovery-partial.json";
    let receipt = draft(&mut fixture, true, path).unwrap();
    let request = generate_recovery_request(&fixture, true, path);
    let report = generate_legacy_uploaded_heic_device_recovery(
        &request,
        &recovery_observation(&fixture),
        &issued_observation(&fixture, path),
    )
    .unwrap();
    assert!(report.partial_quarantine);
    let validated = load_recovered(&fixture, receipt, path).unwrap();
    assert_eq!(validated.quarantine_plan().members.len(), 9);
    assert_eq!(validated.sealed_references.len(), 4);
    assert!(validated.has_device_recovery_receipt());
    assert_eq!(*validated.operational_document(), operational(&fixture));
    assert_eq!(
        validated.sealed_quarantine_plan().members[0].source.device,
        PREVIOUS_DEVICE
    );
    assert_eq!(
        validated.quarantine_plan().members[0].source.device,
        ROOT_DEVICE
    );
}

#[test]
fn device_recovery_rejects_extra_wrong_and_ambiguous_partial_layouts() {
    for mutation in 0..3 {
        let mut fixture = rebooted_fixture();
        let path = "/state/device-recovery-invalid.json";
        let receipt = draft(&mut fixture, false, path).unwrap();
        let source = fixture.document.quarantine_members[4].source_path.clone();
        let target = member_destination(&operational(&fixture), 4);
        match mutation {
            0 => {
                let unexpected = format!("{}/unexpected", cohort_directory(&fixture));
                fixture.disk.write(&unexpected, b"unexpected");
            }
            1 => {
                fixture.disk.files.remove(&source).unwrap();
                fixture.disk.write(&target, b"tampered");
            }
            2 => {
                let file = fixture.disk.files.remove(&source).unwrap();
                let content = file.1.clone();
                fixture.disk.files.insert(target, file);
                fixture.disk.write(&source, &content);
            }
            _ => unreachable!(),
        }
        assert_eq!(
            draft(&mut fixture, true, "/state/device-recovery-rotated.json")
                .unwrap_err()
                .category(),
            "recovery_layout"
        );
        assert_eq!(
            load_recovered(&fixture, receipt, path)
                .unwrap_err()
                .category(),
            "recovery_layout"
        );
    }
}

#[test]
fn device_recovery_receipt_generation_remains_strict_about_nonempty_cohorts() {
    let mut fixture = rebooted_fixture();
    let unexpected = format!("{}/unexpected", cohort_directory(&fixture));
    fixture.disk.write(&unexpected, b"unexpected");
    assert_eq!(
        draft(&mut fixture, false, "/state/device-recovery-strict.json")
            .unwrap_err()
            .category(),
        "recovery_root"
    );
}

#[test]
fn device_recovery_removes_only_its_exact_receipt_when_post_write_snapshot_changes() {
    let mut fixture = rebooted_fixture();
    let path = "/state/device-recovery-raced.json";
    draft(&mut fixture, false, path).unwrap();
    let request = generate_recovery_request(&fixture, false, path);
    let mut issued = issued_observation(&fixture, path);
    issued.evidence_again.reread.as_mut().unwrap().push(b'\n');
    assert_eq!(
        generate_legacy_uploaded_heic_device_recovery(
            &request,
            &recovery_observation(&fixture),
            &issued,
        )
        .unwrap_err()
        .category(),
        "evidence_changed"
    );
    let bytes = fixture.disk.files[path].1.clone();
    let created =
        write_new_owner_only_receipt(path, &bytes, &receipt_output(&fixture.disk, path), EUID)
            .unwrap();
    let own = fixture.disk.files[path].0;
    assert!(created.may_remove_exact(Some(own)));
    let mut other = own;
    other.ino += 1;
    assert!(!created.may_remove_exact(Some(other)));
    assert!(!created.may_remove_exact(None));
}

#[test]
fn device_recovery_revalidation_survives_exact_quarantine_rename_and_phase_advance() {
    let mut fixture = rebooted_fixture();
    let path = "/state/device-recovery-phase.json";
    let receipt = draft(&mut fixture, false, path).unwrap();
    let body_json = encode(&receipt.body);
    let mut validated = load_recovered(&fixture, receipt, path).unwrap();
    quarantine_all(&mut fixture);
    journal_to(&mut fixture, LegacyUploadMigrationPhase::Quarantined);
    validated
        .revalidate_authoritative_manifest(
            &manifest_again(&fixture),
            &manifest_look(&fixture, Some(path), Some(body_json)),
        )
        .unwrap();
    assert_eq!(validated.quarantine_plan().members.len(), 9);
}

#[test]
fn device_recovery_rejects_manifest_drift_and_phase_regression() {
    let mut fixture = rebooted_fixture();
    let path = "/state/device-recovery-negative.json";
    let receipt = draft(&mut fixture, false, path).unwrap();
    validate_device_recovery_continuity(
        &receipt.body,
        &fixture.document,
        &manifest_again(&fixture),
        &fixture.request.expected_evidence_sha256,
        &process(&fixture.disk),
    )
    .unwrap();
    let mut changed = manifest_again(&fixture);
    changed.json.extend_from_slice(b"manifest-drift");
    assert_eq!(
        validate_device_recovery_continuity(
            &receipt.body,
            &fixture.document,
            &changed,
            &fixture.request.expected_evidence_sha256,
            &process(&fixture.disk),
        )
        .unwrap_err()
        .category(),
        "recovery_manifest"
    );
    assert_eq!(
        validate_device_recovery_continuity(
            &receipt.body,
            &fixture.document,
            &build_fixture().manifest,
            &fixture.request.expected_evidence_sha256,
            &process(&fixture.disk),
        )
        .unwrap_err()
        .category(),
        "recovery_phase"
    );
}

const BUNDLE: &str = "/bundles/Prior Service.app";
const BUNDLE_HELPER: &str = "/bundles/Prior Service.app/Contents/Resources/icloudpd-optimizer";
const PRIOR: &str = "/state/prior-recovery.json";
const ROTATED: &str = "/state/rotated-recovery.json";

struct RotationFixture {
    fixture: Fixture,
    prior: DeviceRecoveryReceipt,
}

fn body_again(body: &DeviceRecoveryReceiptBody) -> DeviceRecoveryReceiptBody {
    DeviceRecoveryReceiptBody {
        schema_version: body.schema_version,
        evidence_sha256: body.evidence_sha256.clone(),
        cohort_sha256: body.cohort_sha256.clone(),
        authoritative_manifest_sha256: body.authoritative_manifest_sha256.clone(),
        checkpoint_current: body.checkpoint_current,
        migration_phase: body.migration_phase.clone(),
        mappings: body.mappings.clone(),
        journal_anchors: body.journal_anchors.clone(),
        original_destination_canonicalizations: body
            .original_destination_canonicalizations
            .clone(),
        raw_input_count: body.raw_input_count,
        quarantine_member_count: body.quarantine_member_count,
        reference_count: body.reference_count,
        signer: body.signer.clone(),
    }
}

fn receipt_copy(receipt: &DeviceRecoveryReceipt) -> DeviceRecoveryReceipt {
    DeviceRecoveryReceipt {
        body: body_again(&receipt.body),
        body_sha256: receipt.body_sha256.clone(),
    }
}

/// A receipt of the prior helper, and a cohort that has been quarantined and reset since.
fn rotation_fixture() -> RotationFixture {
    let mut fixture = rebooted_fixture();
    fixture.disk.write("/helper", b"old-signed-helper");
    fixture.disk.write(BUNDLE_HELPER, b"old-signed-helper");
    let prior = draft(&mut fixture, false, PRIOR).unwrap();
    quarantine_all(&mut fixture);
    journal_to(&mut fixture, LegacyUploadMigrationPhase::Reset);
    fixture.disk.write("/helper", b"new-signed-helper");
    RotationFixture { fixture, prior }
}

fn rotate_request(fixture: &Fixture) -> LegacyUploadDeviceRecoveryRotateRequest {
    LegacyUploadDeviceRecoveryRotateRequest {
        evidence: request_again(&fixture.request),
        prior_receipt_path: PRIOR.to_string(),
        expected_prior_receipt_sha256: sha256_bytes(&fixture.disk.files[PRIOR].1),
        prior_service_bundle: BUNDLE.to_string(),
        output_path: ROTATED.to_string(),
    }
}

fn bundle() -> Option<ServiceBundle> {
    Some(ServiceBundle {
        helper_relative_path: Some("Contents/Resources/icloudpd-optimizer".to_string()),
        helper_designated_requirement: Some(REQUIREMENT.to_string()),
        helper_sha256: digest("old-signed-helper"),
    })
}

fn rotation_observation(rotation: &RotationFixture) -> RotationObservation {
    let fixture = &rotation.fixture;
    RotationObservation {
        writer: true,
        read: fixture.disk.read(&fixture.request.evidence_path),
        document: Some(fixture.document.duplicate()),
        manifest: Some(manifest_again(fixture)),
        status: CheckpointStatus::Stale,
        prior_read: fixture.disk.read(PRIOR),
        prior_body_json: encode(&rotation.prior.body),
        prior: Some(receipt_copy(&rotation.prior)),
        bundle: bundle(),
        helper: executable(&fixture.disk, BUNDLE_HELPER),
        process: process(&fixture.disk),
        root_path_json: root_path_json(fixture),
        operational_plan_inputs: plan_inputs(&operational(fixture)),
        layout: layout(fixture),
        encodings: encodings(&fixture.document),
        plan_inputs: plan_inputs(&fixture.document),
    }
}

fn rotation_look(fixture: &Fixture) -> RotationLook {
    RotationLook {
        state_unchanged: true,
        status: CheckpointStatus::Current,
        evidence: fixture.disk.reread(&fixture.request.evidence_path),
        prior: fixture.disk.reread(PRIOR),
        bundle: bundle(),
        helper: executable(&fixture.disk, BUNDLE_HELPER),
        layout: layout(fixture),
    }
}

fn rotation_issue(
    rotation: &mut RotationFixture,
) -> Result<RotationIssue, LegacyUploadEvidenceError> {
    let request = rotate_request(&rotation.fixture);
    let observed = rotation_observation(rotation);
    let authorized = authorize_rotation(&request, &observed)?;
    let body = rotated_receipt_body(&request, &observed, &authorized)?;
    let json = encode(&body);
    let receipt = encode(&seal_receipt(body, &json));
    rotation.fixture.disk.write(ROTATED, &receipt);
    let fixture = &rotation.fixture;
    Ok(RotationIssue {
        unexported: RotationLook {
            status: CheckpointStatus::Stale,
            ..rotation_look(fixture)
        },
        export: CheckpointExport {
            exported: true,
            reloaded: Some(true),
            status: CheckpointStatus::Current,
        },
        before: rotation_look(fixture),
        receipt,
        output: receipt_output(&fixture.disk, ROTATED),
        after: rotation_look(fixture),
        receipt_again: fixture.disk.reread(ROTATED),
    })
}

#[test]
fn device_recovery_signer_rotation_accepts_reset_and_rejects_prior_helper_tamper() {
    let mut rotation = rotation_fixture();
    let issue = rotation_issue(&mut rotation).unwrap();
    let request = rotate_request(&rotation.fixture);
    let report = rotate_legacy_uploaded_heic_device_recovery(
        &request,
        &rotation_observation(&rotation),
        &issue,
    )
    .unwrap();
    assert_eq!(report.migration_phase, "reset");
    assert!(report.checkpoint_recovered);
    assert_eq!(
        report.previous_receipt_sha256,
        request.expected_prior_receipt_sha256
    );
    assert_ne!(report.receipt_sha256, report.previous_receipt_sha256);
    assert_eq!(
        report.previous_signer_designated_requirement_sha256,
        report.signer_designated_requirement_sha256
    );

    let observed = rotation_observation(&rotation);
    let authorized = authorize_rotation(&request, &observed).unwrap();
    let body = rotated_receipt_body(&request, &observed, &authorized).unwrap();
    assert_eq!(body.signer.executable_sha256, digest("new-signed-helper"));
    assert_eq!(body.mappings, rotation.prior.body.mappings);
    let json = encode(&body);
    load_recovered(&rotation.fixture, seal_receipt(body, &json), ROTATED).unwrap();

    let mut current = rotation_observation(&rotation);
    current.status = CheckpointStatus::Current;
    let report = rotate_legacy_uploaded_heic_device_recovery(&request, &current, &issue).unwrap();
    assert!(!report.checkpoint_recovered);

    rotation
        .fixture
        .disk
        .write(BUNDLE_HELPER, b"tampered-helper");
    assert_eq!(
        authorize_rotation(&request, &rotation_observation(&rotation))
            .unwrap_err()
            .category(),
        "recovery_signer_mismatch"
    );
    rotation.fixture.disk.files.remove(BUNDLE_HELPER);
    assert_eq!(
        authorize_rotation(&request, &rotation_observation(&rotation))
            .unwrap_err()
            .category(),
        "recovery_signer"
    );
}

fn refused_rotation(change: fn(&mut RotationObservation)) -> &'static str {
    let rotation = rotation_fixture();
    let mut observed = rotation_observation(&rotation);
    change(&mut observed);
    authorize_rotation(&rotate_request(&rotation.fixture), &observed)
        .unwrap_err()
        .category()
}

#[test]
fn a_rotation_needs_every_authority() {
    let cases: [(fn(&mut RotationObservation), &'static str); 16] = [
        (|observed| observed.writer = false, "state_writer_required"),
        (
            |observed| observed.read = SourceRead::OpenFailed,
            "evidence_open",
        ),
        (|observed| observed.document = None, "evidence_schema"),
        (|observed| observed.manifest = None, "state_load"),
        (
            |observed| observed.status = CheckpointStatus::Unreadable,
            "checkpoint_read",
        ),
        (
            |observed| observed.prior_read = SourceRead::OpenFailed,
            "evidence_open",
        ),
        (|observed| observed.prior = None, "recovery_schema"),
        (
            |observed| observed.prior_body_json.push(b' '),
            "recovery_digest",
        ),
        (|observed| observed.bundle = None, "recovery_signer"),
        (
            |observed| observed.helper = ExecutableObservation::Unsupported,
            "recovery_unsigned",
        ),
        (|observed| observed.process.executable = None, "recovery_signer"),
        (
            |observed| {
                if let ExecutableObservation::Observed { requirement, .. } =
                    &mut observed.process.observed
                {
                    let other = REQUIREMENT.replace("3B86NGN2ZD", "0123456789");
                    *requirement = Some((other.into_bytes(), Vec::new()));
                }
            },
            "recovery_signer_mismatch",
        ),
        (
            |observed| observed.root_path_json[0].push(b' '),
            "recovery_mapping",
        ),
        (
            |observed| observed.layout.roots[0].metadata = None,
            "recovery_layout",
        ),
        (
            |observed| {
                let manifest = observed.manifest.as_mut().unwrap();
                if let JournalSlot::Valid(journal) = &mut manifest.records[0].journal {
                    journal.entries.pop();
                }
            },
            "replacement_cohort",
        ),
        (
            |observed| observed.encodings.cohort_json.push(b' '),
            "cohort_digest",
        ),
    ];
    for (position, (change, expected)) in cases.into_iter().enumerate() {
        assert_eq!(refused_rotation(change), expected, "case {position}");
    }
    let rotation = rotation_fixture();
    let mut request = rotate_request(&rotation.fixture);
    request.expected_prior_receipt_sha256 = "short".to_string();
    assert_eq!(
        authorize_rotation(&request, &rotation_observation(&rotation))
            .unwrap_err()
            .category(),
        "recovery_expected_digest"
    );
    request.expected_prior_receipt_sha256 = digest("another receipt");
    assert_eq!(
        authorize_rotation(&request, &rotation_observation(&rotation))
            .unwrap_err()
            .category(),
        "recovery_digest"
    );
}

fn refused_rotation_issue(change: fn(&mut RotationIssue)) -> &'static str {
    let mut rotation = rotation_fixture();
    let mut issue = rotation_issue(&mut rotation).unwrap();
    change(&mut issue);
    rotate_legacy_uploaded_heic_device_recovery(
        &rotate_request(&rotation.fixture),
        &rotation_observation(&rotation),
        &issue,
    )
    .unwrap_err()
    .category()
}

#[test]
fn nothing_may_change_while_a_receipt_is_rotated() {
    let cases: [(fn(&mut RotationIssue), &'static str); 15] = [
        (
            |issue| issue.unexported.state_unchanged = false,
            "state_changed",
        ),
        (|issue| issue.export.exported = false, "checkpoint_export"),
        (|issue| issue.export.reloaded = None, "state_load"),
        (|issue| issue.export.reloaded = Some(false), "state_changed"),
        (
            |issue| issue.export.status = CheckpointStatus::Stale,
            "checkpoint_export",
        ),
        (
            |issue| issue.export.status = CheckpointStatus::Unreadable,
            "checkpoint_read",
        ),
        (
            |issue| issue.before.evidence.reread = Some(b"tampered-after-export".to_vec()),
            "evidence_changed",
        ),
        (
            |issue| issue.before.prior.named = None,
            "evidence_changed",
        ),
        (|issue| issue.before.bundle = None, "recovery_signer"),
        (
            |issue| issue.before.status = CheckpointStatus::Stale,
            "checkpoint_stale",
        ),
        (
            |issue| issue.before.layout.raws[3] = FilePresence::Missing,
            "recovery_layout",
        ),
        (|issue| issue.output.created = false, "recovery_output"),
        (|issue| issue.output.parent_synced = false, "recovery_output"),
        (
            |issue| issue.after.status = CheckpointStatus::Unreadable,
            "checkpoint_read",
        ),
        (|issue| issue.receipt_again.held = None, "evidence_changed"),
    ];
    for (position, (change, expected)) in cases.into_iter().enumerate() {
        assert_eq!(refused_rotation_issue(change), expected, "case {position}");
    }
}

fn refused_receipt(change: fn(&mut RecoveryObservation)) -> &'static str {
    let fixture = rebooted_fixture();
    let mut observed = recovery_observation(&fixture);
    change(&mut observed);
    draft_device_recovery_receipt(
        &generate_recovery_request(&fixture, false, PRIOR),
        &observed,
    )
    .unwrap_err()
    .category()
}

#[test]
fn a_receipt_needs_the_cohort_as_it_was_sealed() {
    let cases: [(fn(&mut RecoveryObservation), &'static str); 16] = [
        (
            |observed| observed.read = SourceRead::MetadataFailed,
            "evidence_metadata",
        ),
        (|observed| observed.document = None, "evidence_schema"),
        (
            |observed| observed.state = StateRead::OpenFailed,
            "state_open",
        ),
        (
            |observed| observed.state = StateRead::LoadFailed,
            "state_load",
        ),
        (
            |observed| observed.document.as_mut().unwrap().schema_version = 4,
            "evidence_count",
        ),
        (
            |observed| observed.state = StateRead::Loaded(build_fixture().manifest),
            "recovery_phase",
        ),
        (
            |observed| {
                let mut later = rebooted_fixture();
                journal_to(&mut later, LegacyUploadMigrationPhase::Quarantined);
                observed.state = StateRead::Loaded(later.manifest);
            },
            "recovery_phase",
        ),
        (
            |observed| observed.status = CheckpointStatus::Stale,
            "checkpoint_stale",
        ),
        (
            |observed| observed.operational.roots[0].canonical = None,
            "recovery_root",
        ),
        (
            |observed| observed.operational.members[0].read = SourceRead::OpenFailed,
            "source_open",
        ),
        (
            |observed| {
                let metadata = observed.operational.members[0].read.metadata_for_test();
                observed.operational.members[0].read = SourceRead::Read(metadata, b"x".to_vec());
            },
            "recovery_member",
        ),
        (
            |observed| observed.operational.references[1] = SourceRead::OpenFailed,
            "reference_open",
        ),
        (
            |observed| observed.operational.references_held[1] = SourceRead::MetadataFailed,
            "reference_metadata",
        ),
        (
            |observed| {
                let metadata = observed.operational.references_held[1].metadata_for_test();
                observed.operational.references_held[1] =
                    SourceRead::Read(metadata, b"x".to_vec());
            },
            "reference_changed",
        ),
        (
            |observed| observed.process.observed = ExecutableObservation::Unsupported,
            "recovery_unsigned",
        ),
        (
            |observed| {
                if let ExecutableObservation::Observed { verified, .. } =
                    &mut observed.process.observed
                {
                    *verified = false;
                }
            },
            "recovery_signer",
        ),
    ];
    for (position, (change, expected)) in cases.into_iter().enumerate() {
        assert_eq!(refused_receipt(change), expected, "case {position}");
    }
    let fixture = rebooted_fixture();
    let mut request = generate_recovery_request(&fixture, false, PRIOR);
    request.expected_signer_designated_requirement_sha256 = "short".to_string();
    assert_eq!(
        draft_device_recovery_receipt(&request, &recovery_observation(&fixture))
            .unwrap_err()
            .category(),
        "recovery_signer_expected"
    );
    request.expected_signer_designated_requirement_sha256 = digest("another requirement");
    assert_eq!(
        draft_device_recovery_receipt(&request, &recovery_observation(&fixture))
            .unwrap_err()
            .category(),
        "recovery_signer_mismatch"
    );
}

#[test]
fn originals_without_a_destination_are_canonicalized_in_the_receipt() {
    let mut fixture = rebooted_fixture_with(false);
    let path = "/state/device-recovery-historical.json";
    let receipt = draft(&mut fixture, false, path).unwrap();
    let entries = &receipt.body.original_destination_canonicalizations;
    assert_eq!(entries.len(), 2);
    assert_eq!(entries[0].asset_id, "asset-00");
    assert_eq!(
        entries[0].original_asset_identity_sha256,
        sha256_bytes(&original_json("asset-00", false))
    );
    assert_eq!(
        entries[0].canonical_original_asset_sha256,
        sha256_bytes(&original_json("asset-00", true))
    );
    assert_eq!(
        entries[0].delete_confirmed_entry_sha256,
        digest("entry-0-delete_confirmed")
    );
    load_recovered(&fixture, receipt, path).unwrap();

    let mut observed = recovery_observation(&fixture);
    observed.replies[1] = Err(failure("original_remote_state"));
    assert_eq!(
        draft_device_recovery_receipt(
            &generate_recovery_request(&fixture, false, path),
            &observed,
        )
        .unwrap_err()
        .category(),
        "original_remote_state"
    );
    let mut observed = recovery_observation(&fixture);
    observed.replies.clear();
    assert_eq!(
        draft_device_recovery_receipt(
            &generate_recovery_request(&fixture, false, path),
            &observed,
        )
        .unwrap_err()
        .category(),
        "original_remote_state"
    );
}

fn refused_load(change: fn(&mut ReceiptObservation)) -> &'static str {
    let mut fixture = rebooted_fixture();
    let receipt = draft(&mut fixture, false, PRIOR).unwrap();
    let mut observed = receipt_observation(&fixture, receipt, PRIOR);
    change(&mut observed);
    load_validated_legacy_uploaded_heic_evidence_with_device_recovery(
        &fixture.request,
        &recovery_request(&fixture, PRIOR),
        recovered_evidence(&fixture),
        observed,
        &recovered_audit_observation(&fixture),
    )
    .unwrap_err()
    .category()
}

fn reseal(observed: &mut ReceiptObservation, change: fn(&mut DeviceRecoveryReceiptBody)) {
    let receipt = observed.receipt.as_mut().unwrap();
    change(&mut receipt.body);
    observed.body_json = encode(&receipt.body);
    receipt.body_sha256 = sha256_bytes(&observed.body_json);
}

#[test]
fn a_receipt_is_believed_only_as_it_was_issued() {
    let cases: [(fn(&mut ReceiptObservation), &'static str); 13] = [
        (
            |observed| observed.read = SourceRead::OpenFailed,
            "evidence_open",
        ),
        (|observed| observed.receipt = None, "recovery_schema"),
        (|observed| observed.body_json.push(b' '), "recovery_digest"),
        (
            |observed| reseal(observed, |body| body.schema_version += 1),
            "recovery_changed",
        ),
        (
            |observed| reseal(observed, |body| body.evidence_sha256 = digest("x")),
            "recovery_changed",
        ),
        (
            |observed| reseal(observed, |body| body.cohort_sha256 = digest("x")),
            "recovery_changed",
        ),
        (
            |observed| reseal(observed, |body| body.journal_anchors[0].entry_count = 9),
            "recovery_journal",
        ),
        (
            |observed| {
                reseal(observed, |body| {
                    body.authoritative_manifest_sha256 = digest("x");
                })
            },
            "recovery_manifest",
        ),
        (
            |observed| reseal(observed, |body| body.mappings[0].current_device = 8),
            "recovery_changed",
        ),
        (
            |observed| reseal(observed, |body| body.mappings.clear()),
            "recovery_mapping",
        ),
        (
            |observed| observed.roots[0].cohort = None,
            "recovery_root",
        ),
        (
            |observed| observed.layout.entries = None,
            "recovery_layout",
        ),
        (|observed| observed.again.reread = None, "evidence_changed"),
    ];
    for (position, (change, expected)) in cases.into_iter().enumerate() {
        assert_eq!(refused_load(change), expected, "case {position}");
    }
}

fn quarantine_all(fixture: &mut Fixture) {
    for index in 0..9 {
        let source = fixture.document.quarantine_members[index]
            .source_path
            .clone();
        let target = member_destination(&operational(fixture), index);
        let file = fixture.disk.files.remove(&source).unwrap();
        fixture.disk.files.insert(target, file);
    }
}

#[test]
fn device_recovery_revalidates_reset_after_lineage_removal_and_rejects_cohort_tampering() {
    let mut fixture = rebooted_fixture();
    let path = "/state/device-recovery-reset.json";
    let receipt = draft(&mut fixture, false, path).unwrap();
    let body_json = encode(&receipt.body);
    quarantine_all(&mut fixture);
    journal_to(&mut fixture, LegacyUploadMigrationPhase::Quarantined);
    assert_eq!(
        coherent_retired_replacement_phase(&operational(&fixture), &fixture.manifest).unwrap(),
        Some(LegacyUploadMigrationPhase::Quarantined)
    );
    assert_eq!(
        validate_device_recovery_quarantine_layout(
            &operational(&fixture),
            &fixture.manifest,
            LegacyUploadMigrationPhase::Quarantined,
            &plan_inputs(&operational(&fixture)),
            &layout(&fixture),
            EUID,
        )
        .unwrap_err()
        .category(),
        "recovery_layout"
    );
    fixture.manifest = rebooted_fixture().manifest;
    journal_to(&mut fixture, LegacyUploadMigrationPhase::Reset);
    let mut resumed = load_recovered(&fixture, receipt, path).unwrap();
    assert!(resumed.has_device_recovery_receipt());
    assert!(resumed
        .quarantine_plan()
        .roots
        .iter()
        .all(|root| root.device == ROOT_DEVICE));
    resumed
        .revalidate_authoritative_manifest(
            &fixture.manifest,
            &manifest_look(&fixture, Some(path), Some(body_json)),
        )
        .unwrap();

    let inputs = plan_inputs(&fixture.document);
    quarantine_plan_from_document(&fixture.document, &fixture.manifest, &inputs).unwrap();
    let mut mismatched = manifest_again(&fixture);
    if let JournalSlot::Valid(journal) = &mut mismatched.records[0].journal {
        journal.identity.quarantine_plan.members[0].source.sha256 = digest("mismatched-plan");
    }
    assert_eq!(
        quarantine_plan_from_document(&fixture.document, &mismatched, &inputs)
            .unwrap_err()
            .category(),
        "quarantine_mapping"
    );
    let mut tampered_root = fixture.document.duplicate();
    tampered_root.quarantine_roots[0].inode += 1;
    assert_eq!(
        quarantine_plan_from_document(&tampered_root, &fixture.manifest, &inputs)
            .unwrap_err()
            .category(),
        "quarantine_mapping"
    );
    let mut tampered_member = fixture.document.duplicate();
    tampered_member.quarantine_members[0].source.sha256 = digest("tampered-member");
    assert_eq!(
        quarantine_plan_from_document(&tampered_member, &fixture.manifest, &inputs)
            .unwrap_err()
            .category(),
        "quarantine_mapping"
    );
}

#[test]
fn validated_apply_bundle_keeps_and_revalidates_the_original_evidence_descriptor() {
    let mut fixture = build_fixture();
    let observed = audit_observation(&fixture);
    let evidence = evidence_observation(&mut fixture);
    let validated =
        load_validated_legacy_uploaded_heic_evidence(&fixture.request, evidence, &observed)
            .unwrap();
    assert_eq!(validated.audit().retired_replacement_count, 2);
    assert_eq!(validated.replacement_asset_ids().len(), 2);
    assert_eq!(validated.evidence_path(), "/state/evidence.json");
    assert_eq!(validated.cohort_asset_ids().len(), 10);
    assert_eq!(validated.retired_replacements().len(), 2);
    assert_eq!(validated.reference_normalizations().len(), 5);
    assert_eq!(
        validated.initial_remote_states(),
        [CloudKitUploadedHeicInitialState::Active; 2]
    );
    assert_eq!(validated.preparation_authority().len(), 2);
    assert!(!validated.has_device_recovery_receipt());
    assert_eq!(*validated.operational_document(), fixture.document);
    assert_eq!(
        validated.quarantine_plan(),
        validated.sealed_quarantine_plan()
    );
    validated
        .revalidate_held_evidence(&held_look(&fixture, None, None))
        .unwrap();
    validated
        .revalidate_reference_descriptors_before_quarantine(&reference_reads(&fixture))
        .unwrap();

    fixture
        .disk
        .files
        .get_mut("/state/evidence.json")
        .unwrap()
        .0
        .mode = 0o100640;
    assert_eq!(
        validated
            .revalidate_held_evidence(&held_look(&fixture, None, None))
            .unwrap_err()
            .category(),
        "evidence_changed"
    );
    fixture.disk.write(&reference_path("asset-02"), b"changed");
    assert_eq!(
        validated
            .revalidate_reference_descriptors_before_quarantine(&reference_reads(&fixture))
            .unwrap_err()
            .category(),
        "reference_changed"
    );
}

fn assert_post_read_change_rejected(change: fn(&mut (EvidenceMetadata, Vec<u8>))) {
    let mut fixture = build_fixture();
    let mut changed = fixture.disk.files["/state/evidence.json"].clone();
    change(&mut changed);
    let mut observed = audit_observation(&fixture);
    observed.again = EvidenceReread {
        held: Some(changed.0),
        named: Some(changed.0),
        reread: Some(changed.1),
    };
    let evidence = evidence_observation(&mut fixture);
    assert_eq!(
        audit_legacy_uploaded_heic_evidence(&fixture.request, evidence, &observed)
            .unwrap_err()
            .category(),
        "evidence_changed"
    );
}

#[test]
fn descriptor_reverification_rejects_same_inode_overwrite() {
    assert_post_read_change_rejected(|file| file.1[0] ^= 1);
}

#[test]
fn descriptor_reverification_rejects_same_inode_truncate_and_rewrite() {
    assert_post_read_change_rejected(|file| {
        file.1 = b"{}".to_vec();
        file.0.size = 2;
    });
}

#[test]
fn descriptor_reverification_rejects_same_inode_chmod() {
    assert_post_read_change_rejected(|file| file.0.mode = 0o100400);
}

#[test]
fn descriptor_reverification_rejects_same_inode_link_count_change() {
    assert_post_read_change_rejected(|file| file.0.nlink = 2);
}

#[test]
fn descriptor_reverification_rejects_same_inode_group_change_when_permitted() {
    assert_post_read_change_rejected(|file| file.0.gid += 1);
}

fn refused_audit(change: fn(&mut Fixture)) -> &'static str {
    let mut fixture = build_fixture();
    change(&mut fixture);
    audit(&mut fixture).unwrap_err().category()
}

#[test]
fn a_document_has_to_describe_the_state_exactly() {
    let cases: [(fn(&mut Fixture), &'static str); 9] = [
        (
            |fixture| fixture.manifest.records[9].state = State::Failed,
            "asset_set",
        ),
        (
            |fixture| fixture.manifest.records[9].record_sha256 = Some(digest("other")),
            "record_digest",
        ),
        (
            |fixture| {
                fixture.document.raw_inputs[0].source.sha256 = digest("other");
                write_document(fixture);
            },
            "raw_binding",
        ),
        (
            |fixture| {
                fixture.document.quarantine_members[0].root_device = 8;
                write_document(fixture);
            },
            "quarantine_mapping",
        ),
        (
            |fixture| {
                fixture.document.retired_replacements[1].old_upload_lineage_sha256 =
                    digest("other");
                write_document(fixture);
            },
            "proof_lineage",
        ),
        (
            |fixture| {
                fixture.document.reference_normalizations[0].width = 9;
                write_document(fixture);
            },
            "reference_witness",
        ),
        (
            |fixture| {
                fixture.document.assets.swap(0, 1);
                write_document(fixture);
            },
            "asset_order",
        ),
        (
            |fixture| {
                journal_to(fixture, LegacyUploadMigrationPhase::Prepared);
                fixture.manifest.records[0].journal = JournalSlot::Invalid;
            },
            "replacement_proof",
        ),
        (
            |fixture| {
                journal_to(fixture, LegacyUploadMigrationPhase::Prepared);
                for record in &mut fixture.manifest.records[..2] {
                    if let JournalSlot::Valid(journal) = &mut record.journal {
                        journal.identity.old_uploaded_master_id = "other".to_string();
                    }
                }
            },
            "replacement_proof",
        ),
    ];
    for (position, (change, expected)) in cases.into_iter().enumerate() {
        assert_eq!(refused_audit(change), expected, "case {position}");
    }
    let mut fixture = build_fixture();
    let mut observed = audit_observation(&fixture);
    observed.encodings.witness_json.pop();
    let evidence = evidence_observation(&mut fixture);
    assert_eq!(
        audit_legacy_uploaded_heic_evidence(&fixture.request, evidence, &observed)
            .unwrap_err()
            .category(),
        "preparation_witness"
    );
    let mut fixture = build_fixture();
    let mut observed = audit_observation(&fixture);
    let metadata = observed.references[2].metadata_for_test();
    observed.references[2] = SourceRead::ReadFailed(metadata);
    let evidence = evidence_observation(&mut fixture);
    assert_eq!(
        audit_legacy_uploaded_heic_evidence(&fixture.request, evidence, &observed)
            .unwrap_err()
            .category(),
        "reference_read"
    );
}

#[test]
fn references_go_with_their_assets_both_ways() {
    for reference in 0..5 {
        let asset = asset_index_of_reference(reference);
        assert_eq!(asset, REFERENCE_ASSETS[reference]);
        assert_eq!(reference_index_of_asset(asset), Some(reference));
        assert_eq!(orientation_of_reference(reference), ORIENTATIONS[reference]);
    }
    for asset in [0, 1, 4, 5, 6] {
        assert_eq!(reference_index_of_asset(asset), None);
    }
}

#[test]
fn a_receipt_continues_one_evidence_for_one_signer() {
    let mut fixture = rebooted_fixture();
    let receipt = draft(&mut fixture, false, PRIOR).unwrap();
    let continued = |evidence_sha256: &str, signer: &DeviceRecoverySigner| {
        validate_device_recovery_continuity_with_signer(
            &receipt.body,
            &fixture.document,
            &manifest_again(&fixture),
            evidence_sha256,
            signer,
        )
        .map_err(|error| error.category())
    };
    let own = receipt.body.signer.clone();
    assert_eq!(
        continued(&fixture.request.expected_evidence_sha256, &own),
        Ok(())
    );
    assert_eq!(
        continued(&digest("other evidence"), &own),
        Err("recovery_changed")
    );
    let other = DeviceRecoverySigner {
        executable_sha256: digest("other-helper"),
        designated_requirement_sha256: own.designated_requirement_sha256.clone(),
    };
    assert_eq!(
        continued(&fixture.request.expected_evidence_sha256, &other),
        Err("recovery_signer_mismatch")
    );
}

#[test]
fn moving_a_document_changes_its_device_numbers_alone() {
    let fixture = rebooted_fixture();
    let pairs = vec![(PREVIOUS_DEVICE, ROOT_DEVICE)];
    assert_eq!(
        move_document(&fixture.document, &pairs),
        Some(operational(&fixture))
    );
    assert_eq!(move_document(&fixture.document, &vec![(1, 2)]), None);
    let same = vec![(PREVIOUS_DEVICE, PREVIOUS_DEVICE)];
    assert_eq!(
        move_document(&fixture.document, &same),
        Some(fixture.document.duplicate())
    );
}

/// A cohort that was reset, whose journals follow a plan from before the device was renumbered.
fn reset_fixture() -> Fixture {
    let mut fixture = rebooted_fixture();
    quarantine_all(&mut fixture);
    journal_to(&mut fixture, LegacyUploadMigrationPhase::Reset);
    fixture
}

fn followed_plan(record: &mut AssetRecord) -> &mut LegacyUploadMigrationQuarantinePlan {
    match &mut record.journal {
        JournalSlot::Valid(journal) => &mut journal.identity.quarantine_plan,
        _ => panic!("the record has a journal"),
    }
}

/// What the plan needs, with the very plans written out.
fn written_plan_inputs(document: &EvidenceDocument, manifest: &Manifest) -> PlanInputs {
    let destinations = plan_inputs(document).destinations;
    let drafted = draft_quarantine_plan(document, manifest, &destinations).unwrap();
    PlanInputs {
        destinations,
        plan_json: Some(encode(&drafted)),
        rebased_json: draft_resumed_plan(document, manifest).map(|plan| encode(&plan)),
    }
}

#[test]
fn a_plan_is_sealed_again_once_it_is_read_with_other_devices() {
    let mut fixture = reset_fixture();
    let document = operational(&fixture);
    let sealed = followed_plan(&mut fixture.manifest.records[0]).duplicate();
    let moved = draft_rebased_plan(&sealed, &document).unwrap();
    assert_eq!(moved.plan_sha256, "");
    let json = encode(&moved);
    let rebased =
        rebase_sealed_quarantine_plan_devices(&sealed, &document, &Some(json.clone())).unwrap();
    assert_eq!(rebased.plan_sha256, sha256_bytes(&json));
    assert_ne!(rebased.plan_sha256, sealed.plan_sha256);
    assert_eq!(rebased.roots, document.quarantine_roots);
    assert_eq!(rebased.raw_inputs, document.raw_inputs);
    assert!(rebased
        .members
        .iter()
        .all(|member| member.root_device == ROOT_DEVICE && member.source.device == ROOT_DEVICE));
    assert_eq!(
        rebase_sealed_quarantine_plan_devices(&sealed, &document, &None)
            .unwrap_err()
            .category(),
        "quarantine_mapping"
    );
    let mut elsewhere = operational(&fixture);
    elsewhere.quarantine_roots[0].inode += 1;
    assert_eq!(
        rebase_sealed_quarantine_plan_devices(&sealed, &elsewhere, &Some(json))
            .unwrap_err()
            .category(),
        "quarantine_mapping"
    );
}

#[test]
fn a_plan_that_is_followed_is_the_document_s_down_to_the_seal() {
    let mut fixture = reset_fixture();
    let document = operational(&fixture);
    let inputs = written_plan_inputs(&document, &fixture.manifest);
    let plan = quarantine_plan_from_document(&document, &fixture.manifest, &inputs).unwrap();
    assert_eq!(
        plan.plan_sha256,
        sha256_bytes(inputs.plan_json.as_ref().unwrap())
    );
    assert_eq!(inputs.rebased_json, inputs.plan_json);

    let mut unsealed = written_plan_inputs(&document, &fixture.manifest);
    unsealed.rebased_json = None;
    assert_eq!(
        quarantine_plan_from_document(&document, &fixture.manifest, &unsealed)
            .unwrap_err()
            .category(),
        "quarantine_mapping"
    );

    for record in &mut fixture.manifest.records[..2] {
        let member = &mut followed_plan(record).members[0];
        member.destination_path = member.destination_path.replacen('/', "//", 1);
    }
    let spelled = written_plan_inputs(&document, &fixture.manifest);
    assert_ne!(spelled.rebased_json, spelled.plan_json);
    assert_eq!(
        quarantine_plan_from_document(&document, &fixture.manifest, &spelled)
            .unwrap_err()
            .category(),
        "quarantine_mapping"
    );

    let started = rebooted_fixture();
    let inputs = written_plan_inputs(&started.document, &started.manifest);
    assert_eq!(inputs.rebased_json, None);
    quarantine_plan_from_document(&started.document, &started.manifest, &inputs).unwrap();
}

#[test]
fn exchanged_mappings_give_the_sealed_document_back() {
    let mut fixture = rebooted_fixture();
    let receipt = draft(&mut fixture, false, "/state/undone.json").unwrap();
    let mut document = fixture.document.duplicate();
    let mut second = document.quarantine_roots[0].clone();
    second.canonical_path = "/second/quarantine".to_string();
    second.device = PREVIOUS_DEVICE + 1;
    second.inode += 1000;
    document.quarantine_roots.push(second);
    document.quarantine_members[0].source.device = PREVIOUS_DEVICE + 1;
    document.quarantine_members[0].root_device = PREVIOUS_DEVICE + 1;
    let mapping = |root: &QuarantineRoot, current_device: u64| DeviceRecoveryMapping {
        previous_device: root.device,
        current_device,
        root_path_sha256: sha256_bytes(&encode(&root.canonical_path)),
        root_inode: root.inode,
    };
    let paths = |document: &EvidenceDocument| -> Vec<Vec<u8>> {
        document
            .quarantine_roots
            .iter()
            .map(|root| encode(&root.canonical_path))
            .collect()
    };
    let mut body = body_again(&receipt.body);
    body.mappings = vec![
        mapping(&document.quarantine_roots[0], 9),
        mapping(&document.quarantine_roots[1], 8),
    ];
    let moved =
        operational_document_from_recovery_receipt(&document, &body, &paths(&document)).unwrap();
    assert_eq!(moved.quarantine_roots[0].device, 8);
    assert_eq!(moved.quarantine_roots[0].canonical_path, "/second/quarantine");
    assert_eq!(moved.quarantine_roots[1].device, 9);
    assert_eq!(moved.quarantine_members[0].root_device, 8);
    assert_eq!(moved.quarantine_members[1].root_device, 9);

    body.mappings = vec![
        mapping(&moved.quarantine_roots[0], PREVIOUS_DEVICE + 1),
        mapping(&moved.quarantine_roots[1], PREVIOUS_DEVICE),
    ];
    assert_eq!(
        operational_document_from_recovery_receipt(&moved, &body, &paths(&moved)).unwrap(),
        document
    );
    body.mappings.reverse();
    assert_eq!(
        operational_document_from_recovery_receipt(&moved, &body, &paths(&moved))
            .unwrap_err()
            .category(),
        "recovery_mapping"
    );
}

#[test]
fn a_receipt_and_the_references_are_held_as_they_were_read() {
    let mut fixture = rebooted_fixture();
    let path = "/state/held-recovery.json";
    let receipt = draft(&mut fixture, false, path).unwrap();
    let (metadata, bytes) = fixture.disk.files[path].clone();
    let held = load_recovered(&fixture, receipt_copy(&receipt), path).unwrap();
    let recovered = held.device_recovery.as_ref().unwrap();
    assert_eq!(recovered.expected_receipt_sha256, sha256_bytes(&bytes));
    assert_eq!(recovered.sealed.sha256, sha256_bytes(&bytes));
    assert_eq!(recovered.sealed.bytes, bytes);
    assert_eq!(recovered.sealed.initial_metadata, metadata);
    assert_eq!(recovered.receipt, receipt);
    let paths: Vec<&str> = held
        .sealed_references
        .iter()
        .map(|reference| reference.path.as_str())
        .collect();
    let sealed: Vec<&str> = fixture
        .document
        .reference_normalizations
        .iter()
        .map(|reference| reference.reference_path.as_str())
        .collect();
    assert_eq!(paths.len(), 5);
    assert_eq!(paths, sealed);
}

#[test]
fn a_rotation_asks_for_the_replacements_last() {
    let mut rotation = rotation_fixture();
    let issue = rotation_issue(&mut rotation).unwrap();
    let request = rotate_request(&rotation.fixture);
    let mut observed = rotation_observation(&rotation);
    assert!(is_rotation_readable(&request, &observed));
    assert_eq!(
        try_rotate_legacy_uploaded_heic_device_recovery(&request, &observed, &issue)
            .unwrap()
            .unwrap(),
        rotate_legacy_uploaded_heic_device_recovery(&request, &observed, &issue).unwrap()
    );

    observed
        .document
        .as_mut()
        .unwrap()
        .retired_replacements
        .truncate(1);
    assert!(!is_rotation_readable(&request, &observed));
    assert_eq!(
        try_rotate_legacy_uploaded_heic_device_recovery(&request, &observed, &issue),
        None
    );
    observed.writer = false;
    assert!(is_rotation_readable(&request, &observed));
    assert_eq!(
        rotate_legacy_uploaded_heic_device_recovery(&request, &observed, &issue)
            .unwrap_err()
            .category(),
        "state_writer_required"
    );
    observed.writer = true;
    observed.helper = ExecutableObservation::Unsupported;
    assert!(is_rotation_readable(&request, &observed));
    assert!(authorize_rotation(&request, &observed).is_err());
    observed.helper = executable(&rotation.fixture.disk, BUNDLE_HELPER);
    observed.prior.as_mut().unwrap().body.checkpoint_current = false;
    assert!(is_rotation_readable(&request, &observed));
    assert_eq!(
        authorize_rotation(&request, &observed)
            .unwrap_err()
            .category(),
        "recovery_changed"
    );
}

#[test]
fn an_original_stands_in_the_state_that_was_sealed() {
    let replacement = replacement(&record("asset-00", true));
    let mut answer = active_original();
    assert!(does_original_stand(&replacement, &answer));
    answer.remote_state = CloudKitActiveAssetRemoteState::ActiveUnmarked;
    assert!(!does_original_stand(&replacement, &answer));
}

#[test]
fn later_phases_leave_the_anchors_of_a_cohort_alone() {
    let mut fixture = rebooted_fixture();
    let receipt = draft(&mut fixture, false, "/state/anchors.json").unwrap();
    let anchors = device_recovery_journal_anchors(&fixture.document, &fixture.manifest).unwrap();
    assert_eq!(receipt.body.journal_anchors, anchors);
    let confirmed = LegacyUploadMigrationPhase::DeleteConfirmed;
    for (anchor, id) in anchors.iter().zip(["asset-00", "asset-01"]) {
        assert_eq!(anchor.asset_id, id);
        assert_eq!(anchor.entry_count, confirmed.index() as u64 + 1);
    }
    for phase in [
        LegacyUploadMigrationPhase::Quarantined,
        LegacyUploadMigrationPhase::Reset,
    ] {
        fixture.manifest = rebooted_fixture().manifest;
        journal_to(&mut fixture, phase);
        assert_eq!(
            device_recovery_journal_anchors(&fixture.document, &fixture.manifest).unwrap(),
            anchors
        );
        validate_device_recovery_continuity(
            &receipt.body,
            &fixture.document,
            &fixture.manifest,
            &fixture.request.expected_evidence_sha256,
            &process(&fixture.disk),
        )
        .unwrap();
    }
}

#[test]
fn a_state_holds_each_asset_once_and_in_order() {
    let of = |ids: &[&str]| -> Option<Manifest> {
        Manifest::new(
            ids.iter().map(|id| record(id, true)).collect(),
            b"state".to_vec(),
        )
    };
    let manifest = of(&["asset-00", "asset-01", "asset-010"]).unwrap();
    assert_eq!(manifest.records.len(), 3);
    assert_eq!(manifest.json, b"state");
    assert_eq!(manifest.get("asset-01").unwrap().asset_id, "asset-01");
    assert_eq!(manifest.get("asset-02"), None);
    assert!(of(&[]).is_some());
    assert!(of(&["asset-00"]).is_some());
    assert_eq!(of(&["asset-00", "asset-00"]), None);
    assert_eq!(of(&["asset-01", "asset-00"]), None);
    assert_eq!(of(&["asset-00", "asset-02", "asset-01"]), None);
}

#[test]
fn a_receipt_is_created_only_in_a_directory_of_its_own_user() {
    let path = "/state/receipt.json";
    assert!(may_create_receipt(path, 1, parent_directory(), EUID));
    assert!(may_create_receipt(path, 65_536, parent_directory(), EUID));
    assert!(!may_create_receipt(path, 65_537, parent_directory(), EUID));
    assert!(!may_create_receipt(path, 0, parent_directory(), EUID));
    assert!(!may_create_receipt("receipt.json", 1, parent_directory(), EUID));
    assert!(!may_create_receipt("/state/..", 1, parent_directory(), EUID));
    assert!(!may_create_receipt(path, 1, None, EUID));
    assert!(!may_create_receipt(path, 1, parent_directory(), EUID + 1));
    let changes: [fn(&mut DirectoryMetadata); 3] = [
        |parent| parent.is_dir = false,
        |parent| parent.mode = 0o40775,
        |parent| parent.mode = 0o40757,
    ];
    for change in changes {
        let mut parent = parent_directory().unwrap();
        change(&mut parent);
        assert!(!may_create_receipt(path, 1, Some(parent), EUID));
    }
}

#[test]
fn a_refused_receipt_is_removed_only_as_it_was_left() {
    let mut disk = Disk::default();
    let path = "/state/refused.json";
    disk.write(path, b"receipt");
    let mut output = receipt_output(&disk, path);
    let found = output.sealed;
    assert!(may_remove_receipt(&output, found));
    assert!(!may_remove_receipt(&output, None));
    disk.write(path, b"another");
    assert!(!may_remove_receipt(
        &output,
        receipt_output(&disk, path).sealed
    ));
    output.created = false;
    assert!(!may_remove_receipt(&output, found));
    output.created = true;
    output.sealed = None;
    assert!(!may_remove_receipt(&output, None));
    assert!(!may_remove_receipt(&output, found));
}

#[test]
fn references_are_opened_until_the_delete_is_confirmed() {
    let confirmed = LegacyUploadMigrationPhase::DeleteConfirmed;
    assert!(are_references_due(None));
    assert!(!are_references_partial(true, None));
    for phase in PHASES {
        assert_eq!(
            are_references_due(Some(phase)),
            phase.index() <= confirmed.index()
        );
        assert_eq!(
            are_references_partial(true, Some(phase)),
            phase == confirmed
        );
        assert!(!are_references_partial(false, Some(phase)));
    }
}

#[test]
fn an_image_is_looked_at_only_where_a_reference_was_moved_from() {
    let mut fixture = rebooted_fixture();
    let document = operational(&fixture);
    let destinations = plan_inputs(&document).destinations;
    let reference = 4;
    let source = document.quarantine_members[reference].source_path.clone();
    let target = destinations[reference].clone().unwrap();
    let awaited = |fixture: &Fixture, euid: u32| -> Vec<usize> {
        let observed = layout(fixture);
        (0..10)
            .filter(|index| is_probe_awaited(&document, &destinations, &observed, euid, *index))
            .collect()
    };
    assert_eq!(
        document.quarantine_members[reference].kind,
        LegacyUploadMigrationQuarantineKind::Reference
    );
    assert_eq!(awaited(&fixture, EUID), Vec::<usize>::new());
    let file = fixture.disk.files.remove(&source).unwrap();
    fixture.disk.files.insert(target, file);
    assert_eq!(awaited(&fixture, EUID), Vec::<usize>::new());
    fixture.disk.write(&source, b"normalized");
    assert_eq!(awaited(&fixture, EUID), vec![reference]);
    assert_eq!(awaited(&fixture, EUID + 1), Vec::<usize>::new());
}

#[test]
fn refusals_of_one_category_are_equal() {
    assert_eq!(failure("state_load"), failure("state_load"));
    assert_ne!(failure("state_load"), failure("state_open"));
}
