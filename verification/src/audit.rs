use vstd::prelude::*;
use vstd::string::*;

use crate::canonicalization;
use crate::canonicalization::{
    canonicalization_of, original_asset_proof_for_validation, OriginalDestinationCanonicalization,
};
use crate::cloudkit::{CloudKitActiveAssetLookupMode, CloudKitUploadedHeicInitialStateLookupMode};
use crate::digest;
use crate::digest::sha256_bytes;
use crate::document::{
    EvidenceAsset, EvidenceRetiredReplacement, ASSET_COUNT, REFERENCE_COUNT,
    RETIRED_REPLACEMENT_COUNT,
};
use crate::error;
use crate::error::{failure, LegacyUploadEvidenceError};
use crate::identity;
use crate::identity::{is_digest, valid_identity};
use crate::manifest;
use crate::manifest::{
    same_optional_text, AssetRecord, LegacyUploadMigrationEntry, LegacyUploadMigrationIdentity,
    LegacyUploadMigrationJournal, Manifest, OriginalAssetProof,
};
use crate::path;
use crate::path::file_name;
use crate::phase::LegacyUploadMigrationPhase;
use crate::text::same_text;

verus! {

/// What an operator asks to have audited, and what they expect to find.
#[derive(Debug, PartialEq, Eq)]
pub struct LegacyUploadEvidenceAuditRequest {
    pub manifest_path: String,
    pub evidence_path: String,
    pub expected_evidence_sha256: String,
    pub expected_asset_count: u64,
    pub expected_retired_replacement_count: u64,
    pub expected_reference_count: u64,
    pub expected_cohort_sha256: String,
}

impl Clone for LegacyUploadEvidenceAuditRequest {
    fn clone(&self) -> (r: Self)
        ensures
            r == *self,
    {
        LegacyUploadEvidenceAuditRequest {
            manifest_path: self.manifest_path.clone(),
            evidence_path: self.evidence_path.clone(),
            expected_evidence_sha256: self.expected_evidence_sha256.clone(),
            expected_asset_count: self.expected_asset_count,
            expected_retired_replacement_count: self.expected_retired_replacement_count,
            expected_reference_count: self.expected_reference_count,
            expected_cohort_sha256: self.expected_cohort_sha256.clone(),
        }
    }
}

/// What an audit tells an operator: digests and counts, and nothing of the assets themselves.
#[derive(Debug, PartialEq, Eq)]
pub struct LegacyUploadEvidenceAudit {
    pub evidence_sha256: String,
    pub cohort_sha256: String,
    pub asset_count: u64,
    pub retired_replacement_count: u64,
    pub reference_count: u64,
}

impl Clone for LegacyUploadEvidenceAudit {
    fn clone(&self) -> (r: Self)
        ensures
            r == *self,
    {
        LegacyUploadEvidenceAudit {
            evidence_sha256: self.evidence_sha256.clone(),
            cohort_sha256: self.cohort_sha256.clone(),
            asset_count: self.asset_count,
            retired_replacement_count: self.retired_replacement_count,
            reference_count: self.reference_count,
        }
    }
}

/// The canonical JSON of the values that evidence seals by digest. Each list goes with the list
/// of the document that it is named after.
#[derive(Debug, PartialEq, Eq)]
pub struct DocumentEncodings {
    /// The document without its cohort digest.
    pub cohort_json: Vec<u8>,
    /// The destination of each retired replacement.
    pub destination_json: Vec<Vec<u8>>,
    /// Each reference without its own digest and the digest of its record.
    pub reference_json: Vec<Vec<u8>>,
    /// The preparation witness of each retired replacement.
    pub witness_json: Vec<Vec<u8>>,
}

/// The leave to prepare the migration of one replacement.
#[derive(Debug, PartialEq, Eq)]
pub struct LegacyUploadMigrationAuthorizedPreparation {
    pub identity: LegacyUploadMigrationIdentity,
    pub prepared_witness_sha256: String,
}

/// A document whose every field was checked, and what it gives leave to.
#[derive(Debug, PartialEq, Eq)]
pub struct ValidatedEvidenceDocument {
    pub audit: LegacyUploadEvidenceAudit,
    pub preparations: Vec<LegacyUploadMigrationAuthorizedPreparation>,
}

/// The digest of one encoded value of a list; nothing where the list does not reach so far.
pub open spec fn encoded_digest(encoded: Seq<Vec<u8>>, i: int) -> Option<Seq<char>> {
    if 0 <= i < encoded.len() {
        Some(digest::sha256_hex(encoded[i]@))
    } else {
        None
    }
}

/// Whether one encoded value of a list has that digest.
pub fn has_digest(encoded: &Vec<Vec<u8>>, i: usize, digest: &str) -> (r: bool)
    ensures
        r == (encoded_digest(encoded@, i as int) == Some(digest@)),
{
    if i < encoded.len() {
        same_text(&sha256_bytes(&encoded[i]), digest)
    } else {
        false
    }
}

/// The category under which a request is refused before anything is read.
pub open spec fn request_refusal(request: LegacyUploadEvidenceAuditRequest) -> Option<Seq<char>> {
    if !identity::digest_text(request.expected_evidence_sha256@) || !identity::digest_text(
        request.expected_cohort_sha256@,
    ) {
        Some("expected_digest"@)
    } else if request.expected_asset_count != ASSET_COUNT
        || request.expected_retired_replacement_count != RETIRED_REPLACEMENT_COUNT
        || request.expected_reference_count != REFERENCE_COUNT {
        Some("expected_count"@)
    } else {
        None
    }
}

/// Accepts a request that names digests and the counts of a cohort.
pub fn validate_public_request(request: &LegacyUploadEvidenceAuditRequest) -> (r: Result<
    (),
    LegacyUploadEvidenceError,
>)
    ensures
        error::refused_as(r, request_refusal(*request)),
{
    if !is_digest(&request.expected_evidence_sha256) || !is_digest(
        &request.expected_cohort_sha256,
    ) {
        return Err(failure("expected_digest"));
    }
    if request.expected_asset_count != ASSET_COUNT as u64
        || request.expected_retired_replacement_count != RETIRED_REPLACEMENT_COUNT as u64
        || request.expected_reference_count != REFERENCE_COUNT as u64 {
        return Err(failure("expected_count"));
    }
    Ok(())
}

/// Two replacements that CloudKit tells apart, of one owner, both looked up in full.
pub open spec fn pair_unambiguous(replacements: Seq<EvidenceRetiredReplacement>) -> bool {
    &&& replacements.len() == RETIRED_REPLACEMENT_COUNT
    &&& replacements[0].uploaded_asset_id@ != replacements[1].uploaded_asset_id@
    &&& replacements[0].uploaded_master_id@ != replacements[1].uploaded_master_id@
    &&& replacements[0].old_record_change_tag@ != replacements[1].old_record_change_tag@
    &&& replacements[0].destination_sha256@ != replacements[1].destination_sha256@
    &&& replacements[0].original_asset_record_name@ != replacements[1].original_asset_record_name@
    &&& replacements[0].owner_record_name_sha256@ == replacements[1].owner_record_name_sha256@
    &&& replacements[0].initial_state_lookup_mode is FullFields
    &&& replacements[1].initial_state_lookup_mode is FullFields
}

/// Accepts exactly two replacements that CloudKit tells apart.
pub fn validate_retired_replacement_pair(replacements: &[EvidenceRetiredReplacement]) -> (r: Result<
    (),
    LegacyUploadEvidenceError,
>)
    ensures
        r is Ok <==> pair_unambiguous(replacements@),
        r matches Err(error) ==> error@ == "cloudkit_ambiguity"@,
{
    if replacements.len() != RETIRED_REPLACEMENT_COUNT {
        return Err(failure("cloudkit_ambiguity"));
    }
    let a = &replacements[0];
    let b = &replacements[1];
    if same_text(&a.uploaded_asset_id, &b.uploaded_asset_id) || same_text(
        &a.uploaded_master_id,
        &b.uploaded_master_id,
    ) || same_text(&a.old_record_change_tag, &b.old_record_change_tag) || same_text(
        &a.destination_sha256,
        &b.destination_sha256,
    ) || same_text(&a.original_asset_record_name, &b.original_asset_record_name) {
        return Err(failure("cloudkit_ambiguity"));
    }
    if !same_text(&a.owner_record_name_sha256, &b.owner_record_name_sha256)
        || a.initial_state_lookup_mode != CloudKitUploadedHeicInitialStateLookupMode::FullFields
        || b.initial_state_lookup_mode != CloudKitUploadedHeicInitialStateLookupMode::FullFields {
        return Err(failure("cloudkit_ambiguity"));
    }
    Ok(())
}

/// The first entry of a phase, from the given place on.
pub open spec fn find_entry(
    entries: Seq<LegacyUploadMigrationEntry>,
    phase: LegacyUploadMigrationPhase,
    from: int,
) -> Option<LegacyUploadMigrationEntry>
    decreases entries.len() - from,
{
    if from < 0 || from >= entries.len() {
        None
    } else if entries[from].phase == phase {
        Some(entries[from])
    } else {
        find_entry(entries, phase, from + 1)
    }
}

pub fn entry_of_phase(
    entries: &Vec<LegacyUploadMigrationEntry>,
    phase: LegacyUploadMigrationPhase,
) -> (r: Option<&LegacyUploadMigrationEntry>)
    ensures
        match r {
            Some(entry) => find_entry(entries@, phase, 0) == Some(*entry),
            None => find_entry(entries@, phase, 0) is None,
        },
{
    let mut i: usize = 0;
    while i < entries.len()
        invariant
            i <= entries@.len(),
            find_entry(entries@, phase, 0) == find_entry(entries@, phase, i as int),
        decreases entries@.len() - i,
    {
        if entries[i].phase == phase {
            return Some(&entries[i]);
        }
        i += 1;
    }
    None
}

/// A journal is about the very replacement that the evidence describes.
pub open spec fn journal_describes(
    identity: LegacyUploadMigrationIdentity,
    evidence: EvidenceRetiredReplacement,
    source_record_sha256: Seq<char>,
) -> bool {
    &&& identity.asset_id@ == evidence.asset_id@
    &&& identity.source_record_sha256@ == source_record_sha256
    &&& identity.old_uploaded_asset_id@ == evidence.uploaded_asset_id@
    &&& identity.old_uploaded_master_id@ == evidence.uploaded_master_id@
    &&& identity.destination_sha256@ == evidence.destination_sha256@
    &&& identity.original_asset_identity_sha256@ == evidence.original_asset_identity_sha256@
    &&& identity.old_conversion_lineage_sha256@ == evidence.old_conversion_lineage_sha256@
    &&& identity.old_upload_lineage_sha256@ == evidence.old_upload_lineage_sha256@
    &&& identity.old_mirror_lineage_sha256@ == evidence.old_mirror_lineage_sha256@
}

/// The canonicalization of the asset, if there is one, is sealed by the journal's confirmation of
/// the delete.
pub open spec fn canonicalization_confirmed(
    id: Seq<char>,
    journal: LegacyUploadMigrationJournal,
    canonicalizations: Seq<OriginalDestinationCanonicalization>,
) -> bool {
    canonicalization::find_canonicalization(canonicalizations, id, 0) matches Some(entry) ==> (
    find_entry(journal.entries@, LegacyUploadMigrationPhase::DeleteConfirmed, 0) matches Some(
        confirmed,
    ) && confirmed.entry_sha256@ == entry.delete_confirmed_entry_sha256@)
}

/// The category under which the journal of a replacement is refused, or nothing where it stands.
pub open spec fn journal_refusal(
    evidence: EvidenceRetiredReplacement,
    record: AssetRecord,
    source_record_sha256: Seq<char>,
    canonicalizations: Seq<OriginalDestinationCanonicalization>,
) -> Option<Seq<char>> {
    match record.valid_journal() {
        None => Some("replacement_proof"@),
        Some(journal) => if !journal_describes(journal.identity, evidence, source_record_sha256) {
            Some("replacement_proof"@)
        } else if !canonicalization_confirmed(evidence.asset_id@, journal, canonicalizations) {
            Some("original_canonicalization"@)
        } else if record.uploaded_heic_delete {
            Some("proof_conflict"@)
        } else {
            match record.original_asset {
                None => Some("proof_missing"@),
                Some(stored) => match canonicalization::validated_original(
                    evidence,
                    stored,
                    canonicalizations,
                    "replacement_proof"@,
                ) {
                    Err(category) => Some(category),
                    Ok(original) => if original.record_name@ == evidence.original_asset_record_name@
                        && original.record_change_tag@ == evidence.original_record_change_tag@ {
                        None
                    } else {
                        Some("replacement_proof"@)
                    },
                },
            }
        },
    }
}

fn does_journal_describe(
    identity: &LegacyUploadMigrationIdentity,
    evidence: &EvidenceRetiredReplacement,
    source_record_sha256: &str,
) -> (r: bool)
    ensures
        r == journal_describes(*identity, *evidence, source_record_sha256@),
{
    same_text(&identity.asset_id, &evidence.asset_id) && same_text(
        &identity.source_record_sha256,
        source_record_sha256,
    ) && same_text(&identity.old_uploaded_asset_id, &evidence.uploaded_asset_id) && same_text(
        &identity.old_uploaded_master_id,
        &evidence.uploaded_master_id,
    ) && same_text(&identity.destination_sha256, &evidence.destination_sha256) && same_text(
        &identity.original_asset_identity_sha256,
        &evidence.original_asset_identity_sha256,
    ) && same_text(
        &identity.old_conversion_lineage_sha256,
        &evidence.old_conversion_lineage_sha256,
    ) && same_text(&identity.old_upload_lineage_sha256, &evidence.old_upload_lineage_sha256)
        && same_text(&identity.old_mirror_lineage_sha256, &evidence.old_mirror_lineage_sha256)
}

/// Accepts a journal that is about the very replacement that the evidence describes, on a record
/// whose original is the one that was sealed.
pub fn validate_retired_replacement_journal_identity(
    evidence: &EvidenceRetiredReplacement,
    record: &AssetRecord,
    source_record_sha256: &str,
    canonicalizations: &[OriginalDestinationCanonicalization],
) -> (r: Result<(), LegacyUploadEvidenceError>)
    ensures
        error::refused_as(
            r,
            journal_refusal(*evidence, *record, source_record_sha256@, canonicalizations@),
        ),
{
    let journal = match record.journal_of() {
        None => {
            return Err(failure("replacement_proof"));
        },
        Some(journal) => journal,
    };
    if !does_journal_describe(&journal.identity, evidence, source_record_sha256) {
        return Err(failure("replacement_proof"));
    }
    match canonicalization_of(canonicalizations, &evidence.asset_id) {
        Some(entry) => match entry_of_phase(
            &journal.entries,
            LegacyUploadMigrationPhase::DeleteConfirmed,
        ) {
            Some(confirmed) => {
                if !same_text(&confirmed.entry_sha256, &entry.delete_confirmed_entry_sha256) {
                    return Err(failure("original_canonicalization"));
                }
            },
            None => {
                return Err(failure("original_canonicalization"));
            },
        },
        None => {},
    }
    if record.uploaded_heic_delete {
        return Err(failure("proof_conflict"));
    }
    match &record.original_asset {
        None => Err(failure("proof_missing")),
        Some(stored) => match original_asset_proof_for_validation(
            evidence,
            stored,
            canonicalizations,
            "replacement_proof",
        ) {
            Err(error) => Err(error),
            Ok(original) => if same_text(
                &original.record_name,
                &evidence.original_asset_record_name,
            ) && same_text(&original.record_change_tag, &evidence.original_record_change_tag) {
                Ok(())
            } else {
                Err(failure("replacement_proof"))
            },
        },
    }
}

/// The digest that seals the record of an asset, from the given place of the cohort on.
pub open spec fn asset_digest(assets: Seq<EvidenceAsset>, id: Seq<char>, from: int) -> Option<
    Seq<char>,
>
    decreases assets.len() - from,
{
    if from < 0 || from >= assets.len() {
        None
    } else if assets[from].asset_id@ == id {
        Some(assets[from].record_sha256@)
    } else {
        asset_digest(assets, id, from + 1)
    }
}

pub fn digest_of_asset<'a>(assets: &'a [EvidenceAsset], id: &str) -> (r: Option<&'a String>)
    ensures
        match r {
            Some(sha256) => asset_digest(assets@, id@, 0) == Some(sha256@),
            None => asset_digest(assets@, id@, 0) is None,
        },
{
    let mut i: usize = 0;
    while i < assets.len()
        invariant
            i <= assets@.len(),
            asset_digest(assets@, id@, 0) == asset_digest(assets@, id@, i as int),
        decreases assets@.len() - i,
    {
        if same_text(&assets[i].asset_id, id) {
            return Some(&assets[i].record_sha256);
        }
        i += 1;
    }
    None
}

/// A replacement that may be retired: an asset of the cohort, with valid and distinct identities,
/// digests where digests belong, and something uploaded.
pub open spec fn retired_identity_sound(
    evidence: EvidenceRetiredReplacement,
    assets: Seq<EvidenceAsset>,
) -> bool {
    &&& asset_digest(assets, evidence.asset_id@, 0) is Some
    &&& identity::identity_text(evidence.uploaded_asset_id@)
    &&& identity::identity_text(evidence.uploaded_master_id@)
    &&& identity::identity_text(evidence.old_record_change_tag@)
    &&& identity::identity_text(evidence.original_asset_record_name@)
    &&& identity::identity_text(evidence.original_record_change_tag@)
    &&& evidence.original_state_lookup_mode is FullFields
    &&& identity::digest_text(evidence.owner_record_name_sha256@)
    &&& identity::digest_text(evidence.destination_sha256@)
    &&& identity::digest_text(evidence.uploaded_heic_sha256@)
    &&& identity::digest_text(evidence.original_asset_identity_sha256@)
    &&& identity::digest_text(evidence.old_conversion_lineage_sha256@)
    &&& identity::digest_text(evidence.old_upload_lineage_sha256@)
    &&& identity::digest_text(evidence.old_mirror_lineage_sha256@)
    &&& evidence.uploaded_heic_size_bytes != 0
    &&& evidence.uploaded_asset_id@ != evidence.uploaded_master_id@
    &&& evidence.uploaded_asset_id@ != evidence.original_asset_record_name@
    &&& evidence.uploaded_master_id@ != evidence.original_asset_record_name@
}

/// The proofs of a record name the very upload, mirror, HEIC, original and destination that the
/// evidence describes.
pub open spec fn proofs_bound(
    evidence: EvidenceRetiredReplacement,
    record: AssetRecord,
    original: OriginalAssetProof,
) -> bool {
    let upload = manifest::decoded_proof(record.upload)->0;
    let mirror = manifest::decoded_proof(record.icloudpd_local_mirror)->0;
    let heic = manifest::decoded_proof(record.heic)->0;
    let filename = path::last_name(record.uploaded_path()->0)->0;
    &&& upload.uploaded_heic_asset_id@ == evidence.uploaded_asset_id@
    &&& mirror.uploaded_heic_asset_id@ == evidence.uploaded_asset_id@
    &&& upload.uploaded_heic_sha256@ == evidence.uploaded_heic_sha256@
    &&& mirror.uploaded_heic_sha256@ == evidence.uploaded_heic_sha256@
    &&& heic.heic_sha256@ == evidence.uploaded_heic_sha256@
    &&& mirror.size_bytes == evidence.uploaded_heic_size_bytes
    &&& heic.size_bytes == evidence.uploaded_heic_size_bytes
    &&& original.record_name@ == evidence.original_asset_record_name@
    &&& original.record_change_tag@ == evidence.original_record_change_tag@
    &&& original.record_name@ != upload.uploaded_heic_asset_id@
    &&& evidence.destination.database_scope == upload.database_scope
    &&& evidence.destination.zone_name@ == upload.zone_name@
    &&& manifest::optional_text(evidence.destination.owner_record_name) == manifest::optional_text(
        upload.owner_record_name,
    )
    &&& evidence.destination.database_scope == original.database_scope
    &&& evidence.destination.zone_name@ == original.zone_name@
    &&& manifest::optional_text(evidence.destination.owner_record_name) == manifest::optional_text(
        original.owner_record_name,
    )
    &&& evidence.destination.filename@ == filename
}

/// The proofs of a record are the very ones whose digests the evidence seals.
pub open spec fn lineage_sealed(
    evidence: EvidenceRetiredReplacement,
    record: AssetRecord,
    destination_sha256: Option<Seq<char>>,
) -> bool {
    &&& destination_sha256 == Some(evidence.destination_sha256@)
    &&& digest::sha256_hex(record.original_asset->0.json@)
        == evidence.original_asset_identity_sha256@
    &&& digest::sha256_hex(record.conversion->0.json@) == evidence.old_conversion_lineage_sha256@
    &&& digest::sha256_hex(record.upload->0.json@) == evidence.old_upload_lineage_sha256@
    &&& digest::sha256_hex(record.icloudpd_local_mirror->0.json@)
        == evidence.old_mirror_lineage_sha256@
}

/// The category under which a replacement is refused, or nothing where it may be retired.
pub open spec fn replacement_refusal(
    evidence: EvidenceRetiredReplacement,
    manifest: Manifest,
    assets: Seq<EvidenceAsset>,
    canonicalizations: Seq<OriginalDestinationCanonicalization>,
    destination_sha256: Option<Seq<char>>,
) -> Option<Seq<char>> {
    if !retired_identity_sound(evidence, assets) {
        Some("retired_identity"@)
    } else {
        match manifest.record(evidence.asset_id@) {
            None => Some("asset_set"@),
            Some(record) => if record.uploaded_heic_delete {
                Some("proof_conflict"@)
            } else if record.conversion is None || record.upload is None
                || record.icloudpd_local_mirror is None || record.original_asset is None
                || record.heic is None {
                Some("proof_missing"@)
            } else if manifest::decoded_proof(record.upload) is None || manifest::decoded_proof(
                record.icloudpd_local_mirror,
            ) is None {
                Some("proof_lineage"@)
            } else {
                match canonicalization::validated_original(
                    evidence,
                    record.original_asset->0,
                    canonicalizations,
                    "proof_lineage"@,
                ) {
                    Err(category) => Some(category),
                    Ok(original) => if manifest::decoded_proof(record.heic) is None
                        || record.uploaded_path() is None || path::last_name(
                        record.uploaded_path()->0,
                    ) is None {
                        Some("proof_lineage"@)
                    } else if !proofs_bound(evidence, record, original) {
                        Some("proof_binding"@)
                    } else if !lineage_sealed(evidence, record, destination_sha256) {
                        Some("proof_lineage"@)
                    } else {
                        None
                    },
                }
            },
        }
    }
}

fn is_retired_identity_sound(
    evidence: &EvidenceRetiredReplacement,
    assets: &[EvidenceAsset],
) -> (r: bool)
    ensures
        r == retired_identity_sound(*evidence, assets@),
{
    let full: bool = match evidence.original_state_lookup_mode {
        CloudKitActiveAssetLookupMode::FullFields => true,
    };
    digest_of_asset(assets, &evidence.asset_id).is_some() && valid_identity(
        &evidence.uploaded_asset_id,
    ) && valid_identity(&evidence.uploaded_master_id) && valid_identity(
        &evidence.old_record_change_tag,
    ) && valid_identity(&evidence.original_asset_record_name) && valid_identity(
        &evidence.original_record_change_tag,
    ) && full && is_digest(&evidence.owner_record_name_sha256) && is_digest(
        &evidence.destination_sha256,
    ) && is_digest(&evidence.uploaded_heic_sha256) && is_digest(
        &evidence.original_asset_identity_sha256,
    ) && is_digest(&evidence.old_conversion_lineage_sha256) && is_digest(
        &evidence.old_upload_lineage_sha256,
    ) && is_digest(&evidence.old_mirror_lineage_sha256) && evidence.uploaded_heic_size_bytes != 0
        && !same_text(&evidence.uploaded_asset_id, &evidence.uploaded_master_id) && !same_text(
        &evidence.uploaded_asset_id,
        &evidence.original_asset_record_name,
    ) && !same_text(&evidence.uploaded_master_id, &evidence.original_asset_record_name)
}

/// Accepts a replacement whose record, proofs and digests are the very ones that the evidence
/// describes.
pub fn validate_retired_replacement(
    evidence: &EvidenceRetiredReplacement,
    manifest: &Manifest,
    assets: &[EvidenceAsset],
    canonicalizations: &[OriginalDestinationCanonicalization],
    destination_json: Option<&Vec<u8>>,
) -> (r: Result<(), LegacyUploadEvidenceError>)
    ensures
        error::refused_as(
            r,
            replacement_refusal(
                *evidence,
                *manifest,
                assets@,
                canonicalizations@,
                match destination_json {
                    Some(json) => Some(digest::sha256_hex(json@)),
                    None => None,
                },
            ),
        ),
{
    if !is_retired_identity_sound(evidence, assets) {
        return Err(failure("retired_identity"));
    }
    let record = match manifest.get(&evidence.asset_id) {
        None => {
            return Err(failure("asset_set"));
        },
        Some(record) => record,
    };
    if record.uploaded_heic_delete {
        return Err(failure("proof_conflict"));
    }
    match (
        &record.conversion,
        &record.upload,
        &record.icloudpd_local_mirror,
        &record.original_asset,
        &record.heic,
    ) {
        (
            Some(conversion_value),
            Some(upload_value),
            Some(mirror_value),
            Some(original_value),
            Some(heic_value),
        ) => {
            let (upload, mirror) = match (&upload_value.decoded, &mirror_value.decoded) {
                (Some(upload), Some(mirror)) => (upload, mirror),
                _ => {
                    return Err(failure("proof_lineage"));
                },
            };
            let original = match original_asset_proof_for_validation(
                evidence,
                original_value,
                canonicalizations,
                "proof_lineage",
            ) {
                Err(error) => {
                    return Err(error);
                },
                Ok(original) => original,
            };
            let (heic, uploaded_path) = match (&heic_value.decoded, &upload.uploaded_heic_path) {
                (Some(heic), Some(uploaded_path)) => (heic, uploaded_path),
                _ => {
                    return Err(failure("proof_lineage"));
                },
            };
            let filename = match file_name(uploaded_path) {
                None => {
                    return Err(failure("proof_lineage"));
                },
                Some(filename) => filename,
            };
            if !same_text(&upload.uploaded_heic_asset_id, &evidence.uploaded_asset_id)
                || !same_text(&mirror.uploaded_heic_asset_id, &evidence.uploaded_asset_id)
                || !same_text(&upload.uploaded_heic_sha256, &evidence.uploaded_heic_sha256)
                || !same_text(&mirror.uploaded_heic_sha256, &evidence.uploaded_heic_sha256)
                || !same_text(&heic.heic_sha256, &evidence.uploaded_heic_sha256)
                || mirror.size_bytes != evidence.uploaded_heic_size_bytes || heic.size_bytes
                != evidence.uploaded_heic_size_bytes || !same_text(
                &original.record_name,
                &evidence.original_asset_record_name,
            ) || !same_text(&original.record_change_tag, &evidence.original_record_change_tag)
                || same_text(&original.record_name, &upload.uploaded_heic_asset_id)
                || evidence.destination.database_scope != upload.database_scope || !same_text(
                &evidence.destination.zone_name,
                &upload.zone_name,
            ) || !same_optional_text(
                &evidence.destination.owner_record_name,
                &upload.owner_record_name,
            ) || evidence.destination.database_scope != original.database_scope || !same_text(
                &evidence.destination.zone_name,
                &original.zone_name,
            ) || !same_optional_text(
                &evidence.destination.owner_record_name,
                &original.owner_record_name,
            ) || !same_text(&evidence.destination.filename, &filename) {
                return Err(failure("proof_binding"));
            }
            let destination_sealed: bool = match destination_json {
                Some(json) => same_text(&sha256_bytes(json), &evidence.destination_sha256),
                None => false,
            };
            if !destination_sealed || !same_text(
                &sha256_bytes(&original_value.json),
                &evidence.original_asset_identity_sha256,
            ) || !same_text(
                &sha256_bytes(&conversion_value.json),
                &evidence.old_conversion_lineage_sha256,
            ) || !same_text(
                &sha256_bytes(&upload_value.json),
                &evidence.old_upload_lineage_sha256,
            ) || !same_text(
                &sha256_bytes(&mirror_value.json),
                &evidence.old_mirror_lineage_sha256,
            ) {
                return Err(failure("proof_lineage"));
            }
            Ok(())
        },
        _ => Err(failure("proof_missing")),
    }
}

/// A request is accepted exactly if both digests that it expects have the form of one, and it
/// expects ten assets, two retirements and five references.
pub proof fn requests_expect_ten_two_and_five(request: LegacyUploadEvidenceAuditRequest)
    ensures
        request_refusal(request) is None <==> {
            &&& identity::digest_text(request.expected_evidence_sha256@)
            &&& identity::digest_text(request.expected_cohort_sha256@)
            &&& request.expected_asset_count == 10
            &&& request.expected_retired_replacement_count == 2
            &&& request.expected_reference_count == 5
        },
{
}

/// Two retirements can be told apart exactly if they share neither upload nor master, change tag,
/// destination or original, belong to one owner, and were both looked up with all their fields;
/// which of them comes first makes no difference.
pub proof fn retirements_are_told_apart_by_what_they_name(
    a: EvidenceRetiredReplacement,
    b: EvidenceRetiredReplacement,
    replacements: Seq<EvidenceRetiredReplacement>,
)
    ensures
        pair_unambiguous(seq![a, b]) <==> {
            &&& a.uploaded_asset_id@ != b.uploaded_asset_id@
            &&& a.uploaded_master_id@ != b.uploaded_master_id@
            &&& a.old_record_change_tag@ != b.old_record_change_tag@
            &&& a.destination_sha256@ != b.destination_sha256@
            &&& a.original_asset_record_name@ != b.original_asset_record_name@
            &&& a.owner_record_name_sha256@ == b.owner_record_name_sha256@
            &&& a.initial_state_lookup_mode is FullFields
            &&& b.initial_state_lookup_mode is FullFields
        },
        pair_unambiguous(seq![a, b]) == pair_unambiguous(seq![b, a]),
        replacements.len() != 2 ==> !pair_unambiguous(replacements),
{
}

/// The digest of an asset is that of the one asset of its id, and there is none exactly if no asset
/// has that id.
pub proof fn assets_are_found_by_their_id(assets: Seq<EvidenceAsset>, id: Seq<char>, i: int)
    requires
        0 <= i < assets.len(),
        forall|j: int| 0 <= j < assets.len() && j != i ==> (#[trigger] assets[j]).asset_id@ != id,
    ensures
        asset_digest(assets, id, 0) == (if assets[i].asset_id@ == id {
            Some(assets[i].record_sha256@)
        } else {
            None
        }),
{
    found_from(assets, id, i, 0);
}

proof fn found_from(assets: Seq<EvidenceAsset>, id: Seq<char>, i: int, from: int)
    requires
        0 <= i < assets.len(),
        0 <= from <= assets.len(),
        forall|j: int| 0 <= j < assets.len() && j != i ==> (#[trigger] assets[j]).asset_id@ != id,
    ensures
        asset_digest(assets, id, from) == (if from <= i && assets[i].asset_id@ == id {
            Some(assets[i].record_sha256@)
        } else {
            None
        }),
    decreases assets.len() - from,
{
    if from < assets.len() {
        found_from(assets, id, i, from + 1);
    }
}

/// The entry of a phase is the one entry of that phase, wherever it stands.
pub proof fn entries_are_found_by_their_phase(
    entries: Seq<LegacyUploadMigrationEntry>,
    phase: LegacyUploadMigrationPhase,
    i: int,
)
    requires
        0 <= i < entries.len(),
        forall|j: int| 0 <= j < entries.len() && j != i ==> (#[trigger] entries[j]).phase != phase,
    ensures
        find_entry(entries, phase, 0) == (if entries[i].phase == phase {
            Some(entries[i])
        } else {
            None
        }),
{
    entry_found_from(entries, phase, i, 0);
}

proof fn entry_found_from(
    entries: Seq<LegacyUploadMigrationEntry>,
    phase: LegacyUploadMigrationPhase,
    i: int,
    from: int,
)
    requires
        0 <= i < entries.len(),
        0 <= from <= entries.len(),
        forall|j: int| 0 <= j < entries.len() && j != i ==> (#[trigger] entries[j]).phase != phase,
    ensures
        find_entry(entries, phase, from) == (if from <= i && entries[i].phase == phase {
            Some(entries[i])
        } else {
            None
        }),
    decreases entries.len() - from,
{
    if from < entries.len() {
        entry_found_from(entries, phase, i, from + 1);
    }
}

/// A valid journal is accepted exactly if it describes the retirement in every respect, confirms
/// the deletion that a canonicalization names, the upload was not deleted otherwise, and the
/// original is the one that the retirement names.
pub proof fn journals_are_held_to_the_retirement(
    evidence: EvidenceRetiredReplacement,
    record: AssetRecord,
    source_record_sha256: Seq<char>,
    canonicalizations: Seq<OriginalDestinationCanonicalization>,
    journal: LegacyUploadMigrationJournal,
)
    requires
        record.valid_journal() == Some(journal),
    ensures
        journal_refusal(evidence, record, source_record_sha256, canonicalizations) is None <==> {
            let named = canonicalization::find_canonicalization(
                canonicalizations,
                evidence.asset_id@,
                0,
            );
            let confirmed = find_entry(
                journal.entries@,
                LegacyUploadMigrationPhase::DeleteConfirmed,
                0,
            );
            &&& journal.identity.asset_id@ == evidence.asset_id@
            &&& journal.identity.source_record_sha256@ == source_record_sha256
            &&& journal.identity.old_uploaded_asset_id@ == evidence.uploaded_asset_id@
            &&& journal.identity.old_uploaded_master_id@ == evidence.uploaded_master_id@
            &&& journal.identity.destination_sha256@ == evidence.destination_sha256@
            &&& journal.identity.original_asset_identity_sha256@
                == evidence.original_asset_identity_sha256@
            &&& journal.identity.old_conversion_lineage_sha256@
                == evidence.old_conversion_lineage_sha256@
            &&& journal.identity.old_upload_lineage_sha256@ == evidence.old_upload_lineage_sha256@
            &&& journal.identity.old_mirror_lineage_sha256@ == evidence.old_mirror_lineage_sha256@
            &&& named is Some ==> confirmed is Some && confirmed->0.entry_sha256@
                == named->0.delete_confirmed_entry_sha256@
            &&& !record.uploaded_heic_delete
            &&& record.original_asset is Some
            &&& ({
                let original = canonicalization::validated_original(
                    evidence,
                    record.original_asset->0,
                    canonicalizations,
                    "replacement_proof"@,
                );
                &&& original is Ok
                &&& original->Ok_0.record_name@ == evidence.original_asset_record_name@
                &&& original->Ok_0.record_change_tag@ == evidence.original_record_change_tag@
            })
        },
{
}

/// The identity of a retirement is sound exactly if the document lists its asset, its names are
/// identities and its digests digests, its original was looked up with all its fields, the upload
/// is not empty, and upload, master and original are three records.
pub proof fn retired_identities_name_three_records(
    evidence: EvidenceRetiredReplacement,
    assets: Seq<EvidenceAsset>,
)
    ensures
        retired_identity_sound(evidence, assets) <==> {
            &&& exists|i: int|
                0 <= i < assets.len() && (#[trigger] assets[i]).asset_id@ == evidence.asset_id@
            &&& identity::identity_text(evidence.uploaded_asset_id@)
            &&& identity::identity_text(evidence.uploaded_master_id@)
            &&& identity::identity_text(evidence.original_asset_record_name@)
            &&& identity::identity_text(evidence.old_record_change_tag@)
            &&& identity::identity_text(evidence.original_record_change_tag@)
            &&& identity::digest_text(evidence.owner_record_name_sha256@)
            &&& identity::digest_text(evidence.destination_sha256@)
            &&& identity::digest_text(evidence.uploaded_heic_sha256@)
            &&& identity::digest_text(evidence.original_asset_identity_sha256@)
            &&& identity::digest_text(evidence.old_conversion_lineage_sha256@)
            &&& identity::digest_text(evidence.old_upload_lineage_sha256@)
            &&& identity::digest_text(evidence.old_mirror_lineage_sha256@)
            &&& evidence.original_state_lookup_mode is FullFields
            &&& evidence.uploaded_heic_size_bytes > 0
            &&& evidence.uploaded_asset_id@ != evidence.uploaded_master_id@
            &&& evidence.uploaded_asset_id@ != evidence.original_asset_record_name@
            &&& evidence.uploaded_master_id@ != evidence.original_asset_record_name@
        },
{
    listed_from(assets, evidence.asset_id@, 0);
}

proof fn listed_from(assets: Seq<EvidenceAsset>, id: Seq<char>, from: int)
    requires
        0 <= from <= assets.len(),
    ensures
        asset_digest(assets, id, from) is Some <==> exists|i: int|
            from <= i < assets.len() && (#[trigger] assets[i]).asset_id@ == id,
    decreases assets.len() - from,
{
    if from < assets.len() {
        listed_from(assets, id, from + 1);
        if assets[from].asset_id@ != id && exists|i: int|
            from <= i < assets.len() && (#[trigger] assets[i]).asset_id@ == id {
            let i = choose|i: int| from <= i < assets.len()
                && (#[trigger] assets[i]).asset_id@ == id;
            assert(from + 1 <= i);
        }
    }
}

/// The proofs of a record bind a retirement exactly if upload, mirror and HEIC tell of the upload
/// that it retires, with its digest and size, the original is the one that it names, and both were
/// in the zone that the upload goes back to, under the file name of the upload.
pub proof fn bound_proofs_tell_of_the_retired_upload(
    evidence: EvidenceRetiredReplacement,
    record: AssetRecord,
    original: OriginalAssetProof,
    upload: manifest::UploadProof,
    mirror: manifest::IcloudpdLocalMirrorProof,
    heic: manifest::HeicVerificationProof,
    place: String,
)
    requires
        manifest::decoded_proof(record.upload) == Some(upload),
        manifest::decoded_proof(record.icloudpd_local_mirror) == Some(mirror),
        manifest::decoded_proof(record.heic) == Some(heic),
        upload.uploaded_heic_path == Some(place),
        path::last_name(place@) is Some,
    ensures
        proofs_bound(evidence, record, original) <==> {
            &&& upload.uploaded_heic_asset_id@ == evidence.uploaded_asset_id@
            &&& mirror.uploaded_heic_asset_id@ == evidence.uploaded_asset_id@
            &&& upload.uploaded_heic_sha256@ == evidence.uploaded_heic_sha256@
            &&& mirror.uploaded_heic_sha256@ == evidence.uploaded_heic_sha256@
            &&& heic.heic_sha256@ == evidence.uploaded_heic_sha256@
            &&& mirror.size_bytes == evidence.uploaded_heic_size_bytes
            &&& heic.size_bytes == evidence.uploaded_heic_size_bytes
            &&& original.record_name@ == evidence.original_asset_record_name@
            &&& original.record_change_tag@ == evidence.original_record_change_tag@
            &&& original.record_name@ != upload.uploaded_heic_asset_id@
            &&& upload.database_scope == evidence.destination.database_scope
            &&& original.database_scope == evidence.destination.database_scope
            &&& upload.zone_name@ == evidence.destination.zone_name@
            &&& original.zone_name@ == evidence.destination.zone_name@
            &&& manifest::optional_text(upload.owner_record_name) == manifest::optional_text(
                evidence.destination.owner_record_name,
            )
            &&& manifest::optional_text(original.owner_record_name) == manifest::optional_text(
                evidence.destination.owner_record_name,
            )
            &&& path::last_name(place@) == Some(evidence.destination.filename@)
        },
{
}

/// A retirement is accepted in full exactly if its identity is sound, its upload was not deleted
/// otherwise, all the proofs that it rests on are there, bind it, and are the ones that it seals.
pub proof fn retirements_rest_on_sealed_proofs(
    evidence: EvidenceRetiredReplacement,
    manifest: Manifest,
    assets: Seq<EvidenceAsset>,
    canonicalizations: Seq<OriginalDestinationCanonicalization>,
    destination_json: Vec<u8>,
    record: AssetRecord,
)
    requires
        manifest.record(evidence.asset_id@) == Some(record),
    ensures
        replacement_refusal(
            evidence,
            manifest,
            assets,
            canonicalizations,
            Some(digest::sha256_hex(destination_json@)),
        ) is None <==> {
            &&& retired_identity_sound(evidence, assets)
            &&& !record.uploaded_heic_delete
            &&& record.conversion is Some
            &&& record.upload is Some && record.upload->0.decoded is Some
            &&& record.icloudpd_local_mirror is Some
                && record.icloudpd_local_mirror->0.decoded is Some
            &&& record.heic is Some && record.heic->0.decoded is Some
            &&& record.original_asset is Some
            &&& record.upload->0.decoded->0.uploaded_heic_path is Some
            &&& path::last_name(record.upload->0.decoded->0.uploaded_heic_path->0@) is Some
            &&& ({
                let original = canonicalization::validated_original(
                    evidence,
                    record.original_asset->0,
                    canonicalizations,
                    "proof_lineage"@,
                );
                original is Ok && proofs_bound(evidence, record, original->Ok_0)
            })
            &&& digest::sha256_hex(destination_json@) == evidence.destination_sha256@
            &&& digest::sha256_hex(record.original_asset->0.json@)
                == evidence.original_asset_identity_sha256@
            &&& digest::sha256_hex(record.conversion->0.json@)
                == evidence.old_conversion_lineage_sha256@
            &&& digest::sha256_hex(record.upload->0.json@) == evidence.old_upload_lineage_sha256@
            &&& digest::sha256_hex(record.icloudpd_local_mirror->0.json@)
                == evidence.old_mirror_lineage_sha256@
        },
{
}

/// What is wrong with a request is told by its name.
pub proof fn faults_of_a_request_are_named(
    request: LegacyUploadEvidenceAuditRequest,
)
    ensures
        ({
            let digests = identity::digest_text(request.expected_evidence_sha256@)
                && identity::digest_text(request.expected_cohort_sha256@);
            let counts = request.expected_asset_count == 10
                && request.expected_retired_replacement_count == 2
                && request.expected_reference_count == 5;
            let told = request_refusal(request);
            &&& !digests ==> told == Some("expected_digest"@)
            &&& digests && !counts ==> told == Some("expected_count"@)
        }),
{
}

/// What is wrong with a journal is told by its name.
pub proof fn faults_of_a_journal_are_named(
    evidence: EvidenceRetiredReplacement,
    record: AssetRecord,
    source_record_sha256: Seq<char>,
    canonicalizations: Seq<OriginalDestinationCanonicalization>,
)
    ensures
        ({
            let original = canonicalization::validated_original(
                evidence,
                record.original_asset->0,
                canonicalizations,
                "replacement_proof"@,
            );
            let valid = record.valid_journal() is Some;
            let described = journal_describes(
                record.valid_journal()->0.identity,
                evidence,
                source_record_sha256,
            );
            let confirmed = canonicalization_confirmed(
                evidence.asset_id@,
                record.valid_journal()->0,
                canonicalizations,
            );
            let undeleted = !record.uploaded_heic_delete;
            let stored = record.original_asset is Some;
            let taken = original is Ok;
            let named = original->Ok_0.record_name@ == evidence.original_asset_record_name@
                && original->Ok_0.record_change_tag@ == evidence.original_record_change_tag@;
            let told = journal_refusal(evidence, record, source_record_sha256, canonicalizations);
            &&& !valid ==> told == Some("replacement_proof"@)
            &&& valid && !described ==> told == Some("replacement_proof"@)
            &&& valid && described && !confirmed ==> told == Some("original_canonicalization"@)
            &&& valid && described && confirmed && !undeleted ==> told == Some("proof_conflict"@)
            &&& valid && described && confirmed && undeleted && !stored
                ==> told == Some("proof_missing"@)
            &&& valid && described && confirmed && undeleted && stored && !taken
                ==> told == Some(original->Err_0)
            &&& valid && described && confirmed && undeleted && stored && taken && !named
                ==> told == Some("replacement_proof"@)
        }),
{
}

/// What is wrong with a retirement is told by its name.
pub proof fn faults_of_a_retirement_are_named(
    evidence: EvidenceRetiredReplacement,
    manifest: Manifest,
    assets: Seq<EvidenceAsset>,
    canonicalizations: Seq<OriginalDestinationCanonicalization>,
    destination_sha256: Option<Seq<char>>,
)
    ensures
        ({
            let record = manifest.record(evidence.asset_id@)->0;
            let original = canonicalization::validated_original(
                evidence,
                record.original_asset->0,
                canonicalizations,
                "proof_lineage"@,
            );
            let sound = retired_identity_sound(evidence, assets);
            let listed = manifest.record(evidence.asset_id@) is Some;
            let undeleted = !record.uploaded_heic_delete;
            let stored = record.conversion is Some && record.upload is Some
                && record.icloudpd_local_mirror is Some && record.original_asset is Some
                && record.heic is Some;
            let decoded = record.upload->0.decoded is Some
                && record.icloudpd_local_mirror->0.decoded is Some;
            let taken = original is Ok;
            let uploaded = record.heic->0.decoded is Some && record.uploaded_path() is Some
                && path::last_name(record.uploaded_path()->0) is Some;
            let bound = proofs_bound(evidence, record, original->Ok_0);
            let sealed = lineage_sealed(evidence, record, destination_sha256);
            let told = replacement_refusal(
                evidence,
                manifest,
                assets,
                canonicalizations,
                destination_sha256,
            );
            &&& !sound ==> told == Some("retired_identity"@)
            &&& sound && !listed ==> told == Some("asset_set"@)
            &&& sound && listed && !undeleted ==> told == Some("proof_conflict"@)
            &&& sound && listed && undeleted && !stored ==> told == Some("proof_missing"@)
            &&& sound && listed && undeleted && stored && !decoded
                ==> told == Some("proof_lineage"@)
            &&& sound && listed && undeleted && stored && decoded && !taken
                ==> told == Some(original->Err_0)
            &&& sound && listed && undeleted && stored && decoded && taken && !uploaded
                ==> told == Some("proof_lineage"@)
            &&& sound && listed && undeleted && stored && decoded && taken && uploaded && !bound
                ==> told == Some("proof_binding"@)
            &&& sound && listed && undeleted && stored && decoded && taken && uploaded && bound
                && !sealed ==> told == Some("proof_lineage"@)
        }),
{
}

/// The digest of an encoding is that of the one at its place, and there is none beyond the last.
pub proof fn encodings_go_by_their_place(encoded: Seq<Vec<u8>>, i: int)
    requires
        0 <= i,
    ensures
        i < encoded.len() ==> encoded_digest(encoded, i) == Some(
            digest::sha256_hex(encoded[i]@),
        ),
        i >= encoded.len() ==> encoded_digest(encoded, i) is None,
{
}

} // verus!
