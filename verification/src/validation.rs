use vstd::prelude::*;
use vstd::string::*;

use crate::audit;
use crate::audit::{
    digest_of_asset, has_digest, validate_retired_replacement,
    validate_retired_replacement_journal_identity, validate_retired_replacement_pair,
    DocumentEncodings, LegacyUploadEvidenceAudit, LegacyUploadEvidenceAuditRequest,
    LegacyUploadMigrationAuthorizedPreparation, ValidatedEvidenceDocument,
};
use crate::canonicalization;
use crate::canonicalization::{
    validate_recovery_canonicalization_set, OriginalDestinationCanonicalization,
};
use crate::digest;
use crate::digest::sha256_bytes;
use crate::document;
use crate::document::{
    asset_index_of_reference, is_retired, orientation_of_reference, EvidenceAsset,
    EvidenceDocument, EvidenceReferenceNormalization, EvidenceRetiredReplacement, ASSET_COUNT,
    EVIDENCE_SCHEMA_VERSION, REFERENCE_COUNT, RETIRED_REPLACEMENT_COUNT,
};
use crate::error::{failure, LegacyUploadEvidenceError};
use crate::identity;
use crate::identity::{is_digest, validate_ordered_unique};
use crate::manifest;
use crate::manifest::{AssetRecord, LegacyUploadMigrationIdentity, Manifest};
use crate::path;
use crate::path::{replace_extension, safe_absolute_path, same_path};
use crate::phase::{LegacyUploadMigrationPhase, State};
use crate::plan;
use crate::plan::{quarantine_plan_from_document, PlanInputs};
use crate::quarantine::LegacyUploadMigrationQuarantinePlan;
use crate::text::same_text;

verus! {

/// The extension of an oriented preview.
pub const PREVIEW_EXTENSION: &'static str = ".oriented-preview.jpg";

/// A document with the schema, the counts and the lists of a cohort.
pub open spec fn document_shaped(document: EvidenceDocument) -> bool {
    &&& document.schema_version == EVIDENCE_SCHEMA_VERSION
    &&& identity::digest_text(document.migration_id@)
    &&& document.asset_count == ASSET_COUNT
    &&& document.retired_replacement_count == RETIRED_REPLACEMENT_COUNT
    &&& document.reference_count == REFERENCE_COUNT
    &&& document.assets@.len() == ASSET_COUNT
    &&& document.retired_replacements@.len() == RETIRED_REPLACEMENT_COUNT
    &&& document.reference_normalizations@.len() == REFERENCE_COUNT
}

fn is_document_shaped(document: &EvidenceDocument) -> (r: bool)
    ensures
        r == document_shaped(*document),
{
    document.schema_version == EVIDENCE_SCHEMA_VERSION && is_digest(&document.migration_id)
        && document.asset_count == ASSET_COUNT as u64 && document.retired_replacement_count
        == RETIRED_REPLACEMENT_COUNT as u64 && document.reference_count == REFERENCE_COUNT as u64
        && document.assets.len() == ASSET_COUNT && document.retired_replacements.len()
        == RETIRED_REPLACEMENT_COUNT && document.reference_normalizations.len() == REFERENCE_COUNT
}

/// The asset ids of a list of assets.
pub open spec fn asset_ids(assets: Seq<EvidenceAsset>) -> Seq<Seq<char>> {
    assets.map_values(|asset: EvidenceAsset| asset.asset_id@)
}

/// The asset ids of a list of replacements.
pub open spec fn replacement_ids(replacements: Seq<EvidenceRetiredReplacement>) -> Seq<Seq<char>> {
    replacements.map_values(|replacement: EvidenceRetiredReplacement| replacement.asset_id@)
}

/// The asset ids of a list of references.
pub open spec fn reference_ids(references: Seq<EvidenceReferenceNormalization>) -> Seq<Seq<char>> {
    references.map_values(|reference: EvidenceReferenceNormalization| reference.asset_id@)
}

/// Every list of the document names its assets in strictly ascending order.
pub open spec fn document_ordered(document: EvidenceDocument) -> bool {
    &&& identity::ordered_identities(asset_ids(document.assets@))
    &&& identity::ordered_identities(replacement_ids(document.retired_replacements@))
    &&& identity::ordered_identities(reference_ids(document.reference_normalizations@))
}

fn validate_document_order(document: &EvidenceDocument) -> (r: Result<
    (),
    LegacyUploadEvidenceError,
>)
    ensures
        r is Ok <==> document_ordered(*document),
        r matches Err(error) ==> error@ == "asset_order"@,
{
    let mut assets: Vec<&str> = Vec::new();
    let mut i: usize = 0;
    while i < document.assets.len()
        invariant
            i <= document.assets@.len(),
            identity::views(assets@) =~= asset_ids(document.assets@).take(i as int),
        decreases document.assets@.len() - i,
    {
        let id: &str = document.assets[i].asset_id.as_str();
        let ghost prior = identity::views(assets@);
        assets.push(id);
        assert(identity::views(assets@) =~= prior.push(id@));
        i += 1;
    }
    assert(identity::views(assets@) =~= asset_ids(document.assets@));
    let mut replacements: Vec<&str> = Vec::new();
    let mut i: usize = 0;
    while i < document.retired_replacements.len()
        invariant
            i <= document.retired_replacements@.len(),
            identity::views(replacements@) =~= replacement_ids(document.retired_replacements@).take(
                i as int,
            ),
        decreases document.retired_replacements@.len() - i,
    {
        let id: &str = document.retired_replacements[i].asset_id.as_str();
        let ghost prior = identity::views(replacements@);
        replacements.push(id);
        assert(identity::views(replacements@) =~= prior.push(id@));
        i += 1;
    }
    assert(identity::views(replacements@) =~= replacement_ids(document.retired_replacements@));
    let mut references: Vec<&str> = Vec::new();
    let mut i: usize = 0;
    while i < document.reference_normalizations.len()
        invariant
            i <= document.reference_normalizations@.len(),
            identity::views(references@) =~= reference_ids(
                document.reference_normalizations@,
            ).take(i as int),
        decreases document.reference_normalizations@.len() - i,
    {
        let id: &str = document.reference_normalizations[i].asset_id.as_str();
        let ghost prior = identity::views(references@);
        references.push(id);
        assert(identity::views(references@) =~= prior.push(id@));
        i += 1;
    }
    assert(identity::views(references@) =~= reference_ids(document.reference_normalizations@));
    match validate_ordered_unique(&assets) {
        Err(error) => Err(error),
        Ok(()) => match validate_ordered_unique(&replacements) {
            Err(error) => Err(error),
            Ok(()) => validate_ordered_unique(&references),
        },
    }
}

/// A record belongs to the cohort: it was uploaded, or a migration of it has begun.
pub open spec fn in_cohort(record: AssetRecord) -> bool {
    record.state is UploadVerified || !(record.journal is Absent)
}

/// The asset ids of the cohort's records, in the order of the records.
pub open spec fn cohort_ids(records: Seq<AssetRecord>) -> Seq<Seq<char>>
    decreases records.len(),
{
    if records.len() == 0 {
        Seq::empty()
    } else if in_cohort(records.last()) {
        cohort_ids(records.drop_last()).push(records.last().asset_id@)
    } else {
        cohort_ids(records.drop_last())
    }
}

proof fn cohort_ids_grow(records: Seq<AssetRecord>, n: int)
    requires
        0 <= n <= records.len(),
    ensures
        cohort_ids(records.take(n)).len() <= cohort_ids(records).len(),
        forall|i: int|
            0 <= i < cohort_ids(records.take(n)).len() ==> cohort_ids(records.take(n))[i]
                == #[trigger] cohort_ids(records)[i],
    decreases records.len() - n,
{
    if n == records.len() {
        assert(records.take(n) =~= records);
    } else {
        cohort_ids_grow(records, n + 1);
        assert(records.take(n + 1).drop_last() =~= records.take(n));
    }
}

fn is_cohort(records: &Vec<AssetRecord>, assets: &Vec<EvidenceAsset>) -> (r: bool)
    ensures
        r == (cohort_ids(records@) == asset_ids(assets@)),
{
    let mut n: usize = 0;
    let mut i: usize = 0;
    assert(records@.take(0) =~= Seq::empty());
    while i < records.len()
        invariant
            i <= records@.len(),
            n <= assets@.len(),
            n == cohort_ids(records@.take(i as int)).len(),
            forall|k: int|
                0 <= k < n ==> cohort_ids(records@.take(i as int))[k] == #[trigger] asset_ids(
                    assets@,
                )[k],
        decreases records@.len() - i,
    {
        let record = &records[i];
        proof {
            assert(records@.take(i + 1).drop_last() =~= records@.take(i as int));
            assert(records@.take(i + 1).last() == *record);
            cohort_ids_grow(records@, i + 1);
        }
        if record.state == State::UploadVerified || record.has_journal() {
            if n >= assets.len() {
                assert(cohort_ids(records@).len() > asset_ids(assets@).len());
                return false;
            }
            if !same_text(&record.asset_id, &assets[n].asset_id) {
                assert(cohort_ids(records@.take(i + 1))[n as int] == record.asset_id@);
                assert(cohort_ids(records@)[n as int] == record.asset_id@);
                assert(asset_ids(assets@)[n as int] == assets@[n as int].asset_id@);
                return false;
            }
            assert(asset_ids(assets@)[n as int] == assets@[n as int].asset_id@);
            n += 1;
        }
        i += 1;
    }
    assert(records@.take(records@.len() as int) =~= records@);
    if n == assets.len() {
        assert(cohort_ids(records@) =~= asset_ids(assets@));
        true
    } else {
        assert(cohort_ids(records@).len() != asset_ids(assets@).len());
        false
    }
}

/// The digest that a record has to be sealed by: the one its journal was prepared from, or, where
/// no migration of it has begun, its own.
pub open spec fn sealing_digest(record: AssetRecord) -> Option<Seq<char>> {
    if record.journal is Absent {
        manifest::optional_text(record.record_sha256)
    } else {
        match record.valid_journal() {
            Some(journal) => Some(journal.identity.source_record_sha256@),
            None => None,
        }
    }
}

/// The document seals the record of an asset by the very digest.
pub open spec fn asset_sealed(asset: EvidenceAsset, manifest: Manifest) -> bool {
    &&& identity::digest_text(asset.record_sha256@)
    &&& manifest.record(asset.asset_id@) matches Some(record) && sealing_digest(record) == Some(
        asset.record_sha256@,
    )
}

/// The document seals every record of the cohort.
pub open spec fn assets_sealed(assets: Seq<EvidenceAsset>, manifest: Manifest) -> bool {
    forall|i: int| 0 <= i < assets.len() ==> asset_sealed(#[trigger] assets[i], manifest)
}

fn is_asset_sealed(asset: &EvidenceAsset, manifest: &Manifest) -> (r: bool)
    ensures
        r == asset_sealed(*asset, *manifest),
{
    if !is_digest(&asset.record_sha256) {
        return false;
    }
    match manifest.get(&asset.asset_id) {
        None => false,
        Some(record) => if record.has_journal() {
            match record.journal_of() {
                Some(journal) => same_text(
                    &journal.identity.source_record_sha256,
                    &asset.record_sha256,
                ),
                None => false,
            }
        } else {
            match &record.record_sha256 {
                Some(sha256) => same_text(sha256, &asset.record_sha256),
                None => false,
            }
        },
    }
}

/// The category under which the document's account of one replacement is refused.
pub open spec fn replacement_step(
    document: EvidenceDocument,
    encodings: DocumentEncodings,
    manifest: Manifest,
    canonicalizations: Seq<OriginalDestinationCanonicalization>,
    i: int,
) -> Option<Seq<char>> {
    let replacement = document.retired_replacements@[i];
    let in_full = audit::replacement_refusal(
        replacement,
        manifest,
        document.assets@,
        canonicalizations,
        audit::encoded_digest(encodings.destination_json@, i),
    );
    match manifest.record(replacement.asset_id@) {
        None => Some("replacement_proof"@),
        Some(record) => if record.journal is Absent {
            in_full
        } else {
            match audit::journal_refusal(
                replacement,
                record,
                audit::asset_digest(document.assets@, replacement.asset_id@, 0)->0,
                canonicalizations,
            ) {
                Some(category) => Some(category),
                None => match record.valid_journal()->0.last_phase() {
                    None => Some("replacement_proof"@),
                    Some(phase) => if phase.ordinal()
                        <= LegacyUploadMigrationPhase::Quarantined.ordinal() {
                        in_full
                    } else {
                        None
                    },
                },
            }
        },
    }
}

/// The first refusal among the replacements, from the given place on.
pub open spec fn replacements_refusal_from(
    document: EvidenceDocument,
    encodings: DocumentEncodings,
    manifest: Manifest,
    canonicalizations: Seq<OriginalDestinationCanonicalization>,
    from: int,
) -> Option<Seq<char>>
    decreases document.retired_replacements@.len() - from,
{
    if from < 0 || from >= document.retired_replacements@.len() {
        None
    } else {
        match replacement_step(document, encodings, manifest, canonicalizations, from) {
            Some(category) => Some(category),
            None => replacements_refusal_from(
                document,
                encodings,
                manifest,
                canonicalizations,
                from + 1,
            ),
        }
    }
}

/// A path that no reference may have: that of an original, or of a file that the migration of a
/// replacement handles.
pub open spec fn protected(
    document: EvidenceDocument,
    manifest: Manifest,
    place: Seq<char>,
) -> bool {
    ||| exists|i: int|
        0 <= i < manifest.records@.len() && path::same_place(
            (#[trigger] manifest.records@[i]).raw_path@,
            place,
        )
    ||| exists|i: int|
        0 <= i < document.retired_replacements@.len() && handles(
            manifest,
            (#[trigger] document.retired_replacements@[i]).asset_id@,
            place,
        )
}

/// The migration of an asset handles the file of that path: its uploaded HEIC or its mirror.
pub open spec fn handles(manifest: Manifest, id: Seq<char>, place: Seq<char>) -> bool {
    manifest.record(id) matches Some(record) && {
        ||| record.uploaded_path() matches Some(uploaded) && path::same_place(uploaded, place)
        ||| record.mirror_path() matches Some(mirror) && path::same_place(mirror, place)
    }
}

/// A reference lies where a fresh verification would put it: beside the uploaded HEIC. Once the
/// record of a retired asset was reset, its upload proof no longer says where that was.
pub open spec fn reference_placed(
    document: EvidenceDocument,
    record: AssetRecord,
    reference: EvidenceReferenceNormalization,
) -> bool {
    ||| record.uploaded_path() matches Some(uploaded) && path::same_place(
        path::with_extension(uploaded, PREVIEW_EXTENSION@),
        reference.reference_path@,
    )
    ||| document::retires(document.retired_replacements@, reference.asset_id@) && record.resumed()
}

/// A reference that stands: it belongs to the asset that its place in the list calls for, is
/// sealed by its digests, and shows an image of the orientation that its place calls for.
pub open spec fn reference_stands(
    document: EvidenceDocument,
    encodings: DocumentEncodings,
    manifest: Manifest,
    i: int,
) -> bool {
    let reference = document.reference_normalizations@[i];
    &&& manifest.record(reference.asset_id@) matches Some(record) && reference_placed(
        document,
        record,
        reference,
    )
    &&& audit::asset_digest(document.assets@, reference.asset_id@, 0) == Some(
        reference.asset_record_sha256@,
    )
    &&& audit::encoded_digest(encodings.reference_json@, i) == Some(
        reference.reference_identity_sha256@,
    )
    &&& reference.asset_id@ == document.assets@[document::reference_asset_index(i)].asset_id@
    &&& path::safe_place(reference.reference_path@)
    &&& reference.device != 0
    &&& reference.inode != 0
    &&& reference.size_bytes != 0
    &&& identity::digest_text(reference.file_sha256@)
    &&& identity::digest_text(reference.decoded_pixel_sha256@)
    &&& reference.orientation == document::reference_orientation(i)
    &&& reference.width != 0
    &&& reference.height != 0
    &&& !protected(document, manifest, reference.reference_path@)
}

/// All references stand, and no two have the same path.
pub open spec fn references_stand(
    document: EvidenceDocument,
    encodings: DocumentEncodings,
    manifest: Manifest,
) -> bool {
    let references = document.reference_normalizations@;
    &&& forall|i: int|
        0 <= i < references.len() ==> #[trigger] reference_stands(document, encodings, manifest, i)
    &&& forall|i: int, j: int|
        0 <= i < j < references.len() ==> !path::same_place(
            (#[trigger] references[i]).reference_path@,
            (#[trigger] references[j]).reference_path@,
        )
}

/// The category under which a document is refused, or nothing where it is valid.
pub open spec fn document_refusal(
    document: EvidenceDocument,
    encodings: DocumentEncodings,
    plan_inputs: PlanInputs,
    request: LegacyUploadEvidenceAuditRequest,
    manifest: Manifest,
    canonicalizations: Seq<OriginalDestinationCanonicalization>,
) -> Option<Seq<char>> {
    let set = canonicalization::canonicalization_set_refusal(document, manifest, canonicalizations);
    let planned = plan::sealed_plan_refusal(document, manifest, plan_inputs);
    let replacements = replacements_refusal_from(
        document,
        encodings,
        manifest,
        canonicalizations,
        0,
    );
    if !document_shaped(document) {
        Some("evidence_count"@)
    } else if !document_ordered(document) {
        Some("asset_order"@)
    } else if !audit::pair_unambiguous(document.retired_replacements@) {
        Some("cloudkit_ambiguity"@)
    } else if set is Some {
        set
    } else if document.cohort_sha256@ != digest::sha256_hex(encodings.cohort_json@)
        || document.cohort_sha256@ != request.expected_cohort_sha256@ {
        Some("cohort_digest"@)
    } else if planned is Some {
        planned
    } else if cohort_ids(manifest.records@) != asset_ids(document.assets@) {
        Some("asset_set"@)
    } else if !assets_sealed(document.assets@, manifest) {
        Some("record_digest"@)
    } else if replacements is Some {
        replacements
    } else if !references_stand(document, encodings, manifest) {
        Some("reference_witness"@)
    } else if encodings.witness_json@.len() < RETIRED_REPLACEMENT_COUNT {
        Some("preparation_witness"@)
    } else {
        None
    }
}

/// The leave that a valid document gives for one replacement.
pub open spec fn authorizes(
    preparation: LegacyUploadMigrationAuthorizedPreparation,
    document: EvidenceDocument,
    encodings: DocumentEncodings,
    plan_inputs: PlanInputs,
    evidence_sha256: Seq<char>,
    i: int,
) -> bool {
    let replacement = document.retired_replacements@[i];
    let identity = preparation.identity;
    &&& identity.migration_id@ == document.migration_id@
    &&& identity.evidence_sha256@ == evidence_sha256
    &&& identity.cohort_sha256@ == document.cohort_sha256@
    &&& audit::asset_digest(document.assets@, replacement.asset_id@, 0) == Some(
        identity.source_record_sha256@,
    )
    &&& audit::journal_describes(identity, replacement, identity.source_record_sha256@)
    &&& identity.quarantine_plan.content() == plan::drafted(document, plan_inputs.destinations@)
    &&& identity.quarantine_plan.plan_sha256@ == plan::plan_seal(plan_inputs)
    &&& audit::encoded_digest(encodings.witness_json@, i) == Some(
        preparation.prepared_witness_sha256@,
    )
}


proof fn cohort_record_is_listed(records: Seq<AssetRecord>, record: AssetRecord)
    requires
        records.contains(record),
        in_cohort(record),
    ensures
        cohort_ids(records).contains(record.asset_id@),
    decreases records.len(),
{
    let front = records.drop_last();
    let ids = cohort_ids(front);
    if records.last() == record {
        assert(cohort_ids(records)[ids.len() as int] == record.asset_id@);
    } else {
        let k = choose|k: int| 0 <= k < records.len() && records[k] == record;
        assert(front[k] == record);
        cohort_record_is_listed(front, record);
        let m = choose|m: int| 0 <= m < ids.len() && ids[m] == record.asset_id@;
        assert(cohort_ids(records)[m] == record.asset_id@);
    }
}

proof fn listed_asset_has_a_digest(assets: Seq<EvidenceAsset>, id: Seq<char>, from: int, at: int)
    requires
        0 <= from <= at < assets.len(),
        assets[at].asset_id@ == id,
    ensures
        audit::asset_digest(assets, id, from) is Some,
    decreases at - from,
{
    if assets[from].asset_id@ != id {
        listed_asset_has_a_digest(assets, id, from + 1, at);
    }
}

/// A record of the cohort is sealed by the document.
pub proof fn migrating_record_is_sealed(
    document: EvidenceDocument,
    manifest: Manifest,
    id: Seq<char>,
)
    requires
        cohort_ids(manifest.records@) == asset_ids(document.assets@),
        manifest.record(id) matches Some(record) && in_cohort(record),
    ensures
        audit::asset_digest(document.assets@, id, 0) is Some,
{
    let record = manifest.record(id)->0;
    manifest::found_record_has_the_id(manifest.records@, id, 0);
    cohort_record_is_listed(manifest.records@, record);
    let ids = asset_ids(document.assets@);
    let k = choose|k: int| 0 <= k < ids.len() && ids[k] == id;
    listed_asset_has_a_digest(document.assets@, id, 0, k);
}

fn validate_replacement_step(
    document: &EvidenceDocument,
    encodings: &DocumentEncodings,
    manifest: &Manifest,
    canonicalizations: &[OriginalDestinationCanonicalization],
    i: usize,
) -> (r: Result<(), LegacyUploadEvidenceError>)
    requires
        i < document.retired_replacements@.len(),
        cohort_ids(manifest.records@) == asset_ids(document.assets@),
    ensures
        crate::error::refused_as(
            r,
            replacement_step(*document, *encodings, *manifest, canonicalizations@, i as int),
        ),
        r is Ok ==> audit::asset_digest(
            document.assets@,
            document.retired_replacements@[i as int].asset_id@,
            0,
        ) is Some,
{
    let replacement = &document.retired_replacements[i];
    let destination_json: Option<&Vec<u8>> = if i < encodings.destination_json.len() {
        Some(&encodings.destination_json[i])
    } else {
        None
    };
    let record = match manifest.get(&replacement.asset_id) {
        None => {
            return Err(failure("replacement_proof"));
        },
        Some(record) => record,
    };
    if record.has_journal() {
        proof {
            migrating_record_is_sealed(*document, *manifest, replacement.asset_id@);
        }
        match digest_of_asset(&document.assets, &replacement.asset_id) {
            None => {
                return Err(failure("replacement_proof"));
            },
            Some(source_record_sha256) => {
                match validate_retired_replacement_journal_identity(
                    replacement,
                    record,
                    source_record_sha256,
                    canonicalizations,
                ) {
                    Err(error) => {
                        return Err(error);
                    },
                    Ok(()) => {},
                }
            },
        }
        match record.journal_of() {
            None => {
                return Err(failure("replacement_proof"));
            },
            Some(journal) => match journal.phase() {
                None => {
                    return Err(failure("replacement_proof"));
                },
                Some(phase) => {
                    if phase.index() > LegacyUploadMigrationPhase::Quarantined.index() {
                        return Ok(());
                    }
                },
            },
        }
    }
    validate_retired_replacement(
        replacement,
        manifest,
        &document.assets,
        canonicalizations,
        destination_json,
    )
}

fn validate_replacements(
    document: &EvidenceDocument,
    encodings: &DocumentEncodings,
    manifest: &Manifest,
    canonicalizations: &[OriginalDestinationCanonicalization],
) -> (r: Result<(), LegacyUploadEvidenceError>)
    requires
        cohort_ids(manifest.records@) == asset_ids(document.assets@),
    ensures
        crate::error::refused_as(
            r,
            replacements_refusal_from(*document, *encodings, *manifest, canonicalizations@, 0),
        ),
        r is Ok ==> forall|i: int|
            0 <= i < document.retired_replacements@.len() ==> audit::asset_digest(
                document.assets@,
                (#[trigger] document.retired_replacements@[i]).asset_id@,
                0,
            ) is Some,
{
    let mut i: usize = 0;
    while i < document.retired_replacements.len()
        invariant
            i <= document.retired_replacements@.len(),
            cohort_ids(manifest.records@) == asset_ids(document.assets@),
            replacements_refusal_from(*document, *encodings, *manifest, canonicalizations@, 0)
                == replacements_refusal_from(
                *document,
                *encodings,
                *manifest,
                canonicalizations@,
                i as int,
            ),
            forall|k: int|
                0 <= k < i ==> audit::asset_digest(
                    document.assets@,
                    (#[trigger] document.retired_replacements@[k]).asset_id@,
                    0,
                ) is Some,
        decreases document.retired_replacements@.len() - i,
    {
        match validate_replacement_step(document, encodings, manifest, canonicalizations, i) {
            Err(error) => {
                return Err(error);
            },
            Ok(()) => {},
        }
        i += 1;
    }
    Ok(())
}

fn does_handle(manifest: &Manifest, id: &str, place: &str) -> (r: bool)
    ensures
        r == handles(*manifest, id@, place@),
{
    match manifest.get(id) {
        None => false,
        Some(record) => {
            let uploaded: bool = match record.uploaded_path_of() {
                Some(path) => same_path(path, place),
                None => false,
            };
            let mirrored: bool = match record.mirror_path_of() {
                Some(path) => same_path(path, place),
                None => false,
            };
            uploaded || mirrored
        },
    }
}

fn is_protected(document: &EvidenceDocument, manifest: &Manifest, place: &str) -> (r: bool)
    ensures
        r == protected(*document, *manifest, place@),
{
    let mut i: usize = 0;
    while i < manifest.records.len()
        invariant
            i <= manifest.records@.len(),
            forall|k: int|
                0 <= k < i ==> !path::same_place(
                    (#[trigger] manifest.records@[k]).raw_path@,
                    place@,
                ),
        decreases manifest.records@.len() - i,
    {
        if same_path(&manifest.records[i].raw_path, place) {
            return true;
        }
        i += 1;
    }
    let mut i: usize = 0;
    while i < document.retired_replacements.len()
        invariant
            i <= document.retired_replacements@.len(),
            forall|k: int|
                0 <= k < manifest.records@.len() ==> !path::same_place(
                    (#[trigger] manifest.records@[k]).raw_path@,
                    place@,
                ),
            forall|k: int|
                0 <= k < i ==> !handles(
                    *manifest,
                    (#[trigger] document.retired_replacements@[k]).asset_id@,
                    place@,
                ),
        decreases document.retired_replacements@.len() - i,
    {
        if does_handle(manifest, &document.retired_replacements[i].asset_id, place) {
            return true;
        }
        i += 1;
    }
    false
}

fn is_reference_placed(
    document: &EvidenceDocument,
    record: &AssetRecord,
    reference: &EvidenceReferenceNormalization,
) -> (r: bool)
    ensures
        r == reference_placed(*document, *record, *reference),
{
    let beside: bool = match record.uploaded_path_of() {
        Some(uploaded) => same_path(
            &replace_extension(uploaded, PREVIEW_EXTENSION),
            &reference.reference_path,
        ),
        None => false,
    };
    beside || (is_retired(&document.retired_replacements, &reference.asset_id)
        && record.is_resumed())
}

fn does_reference_stand(
    document: &EvidenceDocument,
    encodings: &DocumentEncodings,
    manifest: &Manifest,
    i: usize,
) -> (r: bool)
    requires
        i < document.reference_normalizations@.len(),
        document.assets@.len() == ASSET_COUNT,
    ensures
        r == reference_stands(*document, *encodings, *manifest, i as int),
{
    let reference = &document.reference_normalizations[i];
    let placed: bool = match manifest.get(&reference.asset_id) {
        Some(record) => is_reference_placed(document, record, reference),
        None => false,
    };
    let sealed: bool = match digest_of_asset(&document.assets, &reference.asset_id) {
        Some(sha256) => same_text(sha256, &reference.asset_record_sha256),
        None => false,
    };
    placed && sealed && has_digest(
        &encodings.reference_json,
        i,
        &reference.reference_identity_sha256,
    ) && same_text(&reference.asset_id, &document.assets[asset_index_of_reference(i)].asset_id)
        && safe_absolute_path(&reference.reference_path) && reference.device != 0
        && reference.inode != 0 && reference.size_bytes != 0 && is_digest(&reference.file_sha256)
        && is_digest(&reference.decoded_pixel_sha256) && reference.orientation
        == orientation_of_reference(i) && reference.width != 0 && reference.height != 0
        && !is_protected(document, manifest, &reference.reference_path)
}

fn do_references_stand(
    document: &EvidenceDocument,
    encodings: &DocumentEncodings,
    manifest: &Manifest,
) -> (r: bool)
    requires
        document.assets@.len() == ASSET_COUNT,
    ensures
        r == references_stand(*document, *encodings, *manifest),
{
    let references = &document.reference_normalizations;
    let mut i: usize = 0;
    while i < references.len()
        invariant
            i <= references@.len(),
            references@ == document.reference_normalizations@,
            document.assets@.len() == ASSET_COUNT,
            forall|a: int|
                0 <= a < i ==> #[trigger] reference_stands(*document, *encodings, *manifest, a),
            forall|a: int, b: int|
                0 <= a < b < i ==> !path::same_place(
                    (#[trigger] references@[a]).reference_path@,
                    (#[trigger] references@[b]).reference_path@,
                ),
        decreases references@.len() - i,
    {
        if !does_reference_stand(document, encodings, manifest, i) {
            assert(!reference_stands(*document, *encodings, *manifest, i as int));
            return false;
        }
        let mut k: usize = 0;
        while k < i
            invariant
                k <= i < references@.len(),
                references@ == document.reference_normalizations@,
                forall|a: int|
                    0 <= a < k ==> !path::same_place(
                        (#[trigger] references@[a]).reference_path@,
                        references@[i as int].reference_path@,
                    ),
            decreases i - k,
        {
            if same_path(&references[k].reference_path, &references[i].reference_path) {
                assert(path::same_place(
                    document.reference_normalizations@[k as int].reference_path@,
                    document.reference_normalizations@[i as int].reference_path@,
                ));
                return false;
            }
            k += 1;
        }
        i += 1;
    }
    true
}

fn are_assets_sealed(assets: &Vec<EvidenceAsset>, manifest: &Manifest) -> (r: bool)
    ensures
        r == assets_sealed(assets@, *manifest),
{
    let mut i: usize = 0;
    while i < assets.len()
        invariant
            i <= assets@.len(),
            forall|k: int| 0 <= k < i ==> asset_sealed(#[trigger] assets@[k], *manifest),
        decreases assets@.len() - i,
    {
        if !is_asset_sealed(&assets[i], manifest) {
            return false;
        }
        i += 1;
    }
    true
}

fn authorize(
    document: &EvidenceDocument,
    encodings: &DocumentEncodings,
    quarantine_plan: &LegacyUploadMigrationQuarantinePlan,
    evidence_sha256: &str,
    i: usize,
) -> (r: LegacyUploadMigrationAuthorizedPreparation)
    requires
        i < document.retired_replacements@.len(),
        i < encodings.witness_json@.len(),
        audit::asset_digest(
            document.assets@,
            document.retired_replacements@[i as int].asset_id@,
            0,
        ) is Some,
    ensures
        forall|plan_inputs: PlanInputs|
            quarantine_plan.content() == plan::drafted(*document, plan_inputs.destinations@)
                && quarantine_plan.plan_sha256@ == plan::plan_seal(plan_inputs)
                ==> #[trigger] authorizes(
                r,
                *document,
                *encodings,
                plan_inputs,
                evidence_sha256@,
                i as int,
            ),
{
    let replacement = &document.retired_replacements[i];
    let source_record_sha256: String = match digest_of_asset(
        &document.assets,
        &replacement.asset_id,
    ) {
        Some(sha256) => sha256.clone(),
        None => String::new(),
    };
    LegacyUploadMigrationAuthorizedPreparation {
        identity: LegacyUploadMigrationIdentity {
            migration_id: document.migration_id.clone(),
            evidence_sha256: evidence_sha256.to_owned(),
            cohort_sha256: document.cohort_sha256.clone(),
            asset_id: replacement.asset_id.clone(),
            source_record_sha256,
            old_uploaded_asset_id: replacement.uploaded_asset_id.clone(),
            old_uploaded_master_id: replacement.uploaded_master_id.clone(),
            destination_sha256: replacement.destination_sha256.clone(),
            original_asset_identity_sha256: replacement.original_asset_identity_sha256.clone(),
            old_conversion_lineage_sha256: replacement.old_conversion_lineage_sha256.clone(),
            old_upload_lineage_sha256: replacement.old_upload_lineage_sha256.clone(),
            old_mirror_lineage_sha256: replacement.old_mirror_lineage_sha256.clone(),
            quarantine_plan: quarantine_plan.duplicate(),
        },
        prepared_witness_sha256: sha256_bytes(&encodings.witness_json[i]),
    }
}

/// Checks every field of a document against the request, the records and the encodings of what it
/// seals, and only then gives leave to prepare the migration of its two replacements.
pub fn validate_document(
    document: &EvidenceDocument,
    encodings: &DocumentEncodings,
    plan_inputs: &PlanInputs,
    evidence_sha256: &str,
    request: &LegacyUploadEvidenceAuditRequest,
    manifest: &Manifest,
    canonicalizations: &[OriginalDestinationCanonicalization],
) -> (r: Result<ValidatedEvidenceDocument, LegacyUploadEvidenceError>)
    ensures
        match r {
            Ok(validated) => {
                &&& document_refusal(
                    *document,
                    *encodings,
                    *plan_inputs,
                    *request,
                    *manifest,
                    canonicalizations@,
                ) is None
                &&& validated.audit.evidence_sha256@ == request.expected_evidence_sha256@
                &&& validated.audit.cohort_sha256@ == request.expected_cohort_sha256@
                &&& validated.audit.asset_count == document.asset_count
                &&& validated.audit.retired_replacement_count == document.retired_replacement_count
                &&& validated.audit.reference_count == document.reference_count
                &&& validated.preparations@.len() == RETIRED_REPLACEMENT_COUNT
                &&& forall|i: int|
                    0 <= i < RETIRED_REPLACEMENT_COUNT ==> authorizes(
                        #[trigger] validated.preparations@[i],
                        *document,
                        *encodings,
                        *plan_inputs,
                        evidence_sha256@,
                        i,
                    )
            },
            Err(error) => document_refusal(
                *document,
                *encodings,
                *plan_inputs,
                *request,
                *manifest,
                canonicalizations@,
            ) == Some(error@),
        },
{
    if !is_document_shaped(document) {
        return Err(failure("evidence_count"));
    }
    match validate_document_order(document) {
        Err(error) => {
            return Err(error);
        },
        Ok(()) => {},
    }
    match validate_retired_replacement_pair(&document.retired_replacements) {
        Err(error) => {
            return Err(error);
        },
        Ok(()) => {},
    }
    match validate_recovery_canonicalization_set(document, manifest, canonicalizations) {
        Err(error) => {
            return Err(error);
        },
        Ok(()) => {},
    }
    if !same_text(&document.cohort_sha256, &sha256_bytes(&encodings.cohort_json)) || !same_text(
        &document.cohort_sha256,
        &request.expected_cohort_sha256,
    ) {
        return Err(failure("cohort_digest"));
    }
    let quarantine_plan = match quarantine_plan_from_document(document, manifest, plan_inputs) {
        Err(error) => {
            return Err(error);
        },
        Ok(quarantine_plan) => quarantine_plan,
    };
    if !is_cohort(&manifest.records, &document.assets) {
        return Err(failure("asset_set"));
    }
    if !are_assets_sealed(&document.assets, manifest) {
        return Err(failure("record_digest"));
    }
    match validate_replacements(document, encodings, manifest, canonicalizations) {
        Err(error) => {
            return Err(error);
        },
        Ok(()) => {},
    }
    if !do_references_stand(document, encodings, manifest) {
        return Err(failure("reference_witness"));
    }
    if encodings.witness_json.len() < RETIRED_REPLACEMENT_COUNT {
        return Err(failure("preparation_witness"));
    }
    let first = authorize(document, encodings, &quarantine_plan, evidence_sha256, 0);
    let second = authorize(document, encodings, &quarantine_plan, evidence_sha256, 1);
    let mut preparations: Vec<LegacyUploadMigrationAuthorizedPreparation> = Vec::new();
    preparations.push(first);
    preparations.push(second);
    Ok(
        ValidatedEvidenceDocument {
            audit: LegacyUploadEvidenceAudit {
                evidence_sha256: request.expected_evidence_sha256.clone(),
                cohort_sha256: request.expected_cohort_sha256.clone(),
                asset_count: document.asset_count,
                retired_replacement_count: document.retired_replacement_count,
                reference_count: document.reference_count,
            },
            preparations,
        },
    )
}

/// A valid document is of ten assets, two replacements and five references, and names none of them
/// twice.
pub proof fn valid_documents_name_nothing_twice(
    document: EvidenceDocument,
    encodings: DocumentEncodings,
    plan_inputs: PlanInputs,
    request: LegacyUploadEvidenceAuditRequest,
    manifest: Manifest,
    canonicalizations: Seq<OriginalDestinationCanonicalization>,
)
    requires
        document_refusal(
            document,
            encodings,
            plan_inputs,
            request,
            manifest,
            canonicalizations,
        ) is None,
    ensures
        asset_ids(document.assets@).len() == ASSET_COUNT,
        asset_ids(document.assets@).no_duplicates(),
        replacement_ids(document.retired_replacements@).len() == RETIRED_REPLACEMENT_COUNT,
        replacement_ids(document.retired_replacements@).no_duplicates(),
        reference_ids(document.reference_normalizations@).len() == REFERENCE_COUNT,
        reference_ids(document.reference_normalizations@).no_duplicates(),
{
    identity::ordered_identities_are_distinct(asset_ids(document.assets@));
    identity::ordered_identities_are_distinct(replacement_ids(document.retired_replacements@));
    identity::ordered_identities_are_distinct(
        reference_ids(document.reference_normalizations@),
    );
}

/// The cohort of a valid document is exactly the set of records that are migrating or may be: no
/// record of the state is left out, and none is made up.
pub proof fn valid_documents_cover_their_cohort(
    document: EvidenceDocument,
    encodings: DocumentEncodings,
    plan_inputs: PlanInputs,
    request: LegacyUploadEvidenceAuditRequest,
    manifest: Manifest,
    canonicalizations: Seq<OriginalDestinationCanonicalization>,
)
    requires
        document_refusal(
            document,
            encodings,
            plan_inputs,
            request,
            manifest,
            canonicalizations,
        ) is None,
    ensures
        cohort_ids(manifest.records@) == asset_ids(document.assets@),
        document.cohort_sha256@ == digest::sha256_hex(encodings.cohort_json@),
        document.cohort_sha256@ == request.expected_cohort_sha256@,
        forall|i: int|
            0 <= i < REFERENCE_COUNT ==> (
            #[trigger] document.reference_normalizations@[i]).orientation
                == document::reference_orientation(i),
{
    assert forall|i: int| 0 <= i < REFERENCE_COUNT implies (
    #[trigger] document.reference_normalizations@[i]).orientation
        == document::reference_orientation(i) by {
        assert(reference_stands(document, encodings, manifest, i));
    }
}

/// The cohort is made up of the records that are UploadVerified or carry a migration journal, be it
/// valid or not: their ids, in the order of the manifest.
pub proof fn the_cohort_is_what_is_uploaded_or_migrating(records: Seq<AssetRecord>)
    ensures
        cohort_ids(records) == records.filter(
            |record: AssetRecord| record.state is UploadVerified || !(record.journal is Absent),
        ).map_values(|record: AssetRecord| record.asset_id@),
    decreases records.len(),
{
    reveal(Seq::filter);
    let kept = |record: AssetRecord|
        record.state is UploadVerified || !(record.journal is Absent);
    let id = |record: AssetRecord| record.asset_id@;
    if records.len() == 0 {
        assert(records.filter(kept).map_values(id) =~= Seq::empty());
    } else {
        let front = records.drop_last();
        the_cohort_is_what_is_uploaded_or_migrating(front);
        if kept(records.last()) {
            assert(records.filter(kept) =~= front.filter(kept).push(records.last()));
            assert(records.filter(kept).map_values(id) =~= front.filter(kept).map_values(id).push(
                id(records.last()),
            ));
        } else {
            assert(records.filter(kept) =~= front.filter(kept));
        }
    }
}

/// The assets that an accepted document lists are exactly the records that are UploadVerified or
/// carry a migration journal, in the order of the manifest, and they are ten.
pub proof fn accepted_documents_list_the_cohort(
    document: EvidenceDocument,
    encodings: DocumentEncodings,
    plan_inputs: PlanInputs,
    request: LegacyUploadEvidenceAuditRequest,
    manifest: Manifest,
    canonicalizations: Seq<OriginalDestinationCanonicalization>,
)
    requires
        document_refusal(
            document,
            encodings,
            plan_inputs,
            request,
            manifest,
            canonicalizations,
        ) is None,
    ensures
        document.assets@.map_values(|asset: EvidenceAsset| asset.asset_id@)
            == manifest.records@.filter(
            |record: AssetRecord| record.state is UploadVerified || !(record.journal is Absent),
        ).map_values(|record: AssetRecord| record.asset_id@),
        document.assets@.len() == 10,
{
    the_cohort_is_what_is_uploaded_or_migrating(manifest.records@);
    assert(asset_ids(document.assets@) =~= document.assets@.map_values(
        |asset: EvidenceAsset| asset.asset_id@,
    ));
}

proof fn cohort_without(records: Seq<AssetRecord>, k: int, added: AssetRecord)
    requires
        0 <= k <= records.len(),
        !(added.state is UploadVerified),
        added.journal is Absent,
    ensures
        cohort_ids(records.insert(k, added)) == cohort_ids(records),
    decreases records.len(),
{
    let all = records.insert(k, added);
    if k == records.len() {
        assert(all.drop_last() =~= records);
    } else {
        assert(all.drop_last() =~= records.drop_last().insert(k, added));
        assert(all.last() == records.last());
        cohort_without(records.drop_last(), k, added);
    }
}

/// Whether the two manifests have one record for each asset that the document names.
spec fn known_alike(document: EvidenceDocument, manifest: Manifest, other: Manifest) -> bool {
    &&& forall|i: int|
        0 <= i < document.assets@.len() ==> manifest.record(
            (#[trigger] document.assets@[i]).asset_id@,
        ) == other.record(document.assets@[i].asset_id@)
    &&& forall|i: int|
        0 <= i < document.retired_replacements@.len() ==> manifest.record(
            (#[trigger] document.retired_replacements@[i]).asset_id@,
        ) == other.record(document.retired_replacements@[i].asset_id@)
    &&& forall|i: int|
        0 <= i < document.reference_normalizations@.len() ==> manifest.record(
            (#[trigger] document.reference_normalizations@[i]).asset_id@,
        ) == other.record(document.reference_normalizations@[i].asset_id@)
    &&& forall|i: int|
        0 <= i < document.raw_inputs@.len() ==> manifest.record(
            (#[trigger] document.raw_inputs@[i]).asset_id@,
        ) == other.record(document.raw_inputs@[i].asset_id@)
}

proof fn canonicalizations_alike(
    document: EvidenceDocument,
    manifest: Manifest,
    other: Manifest,
    entries: Seq<OriginalDestinationCanonicalization>,
    from: int,
)
    requires
        known_alike(document, manifest, other),
        0 <= from <= document.retired_replacements@.len(),
    ensures
        canonicalization::canonicalization_refusal_from(
            document.retired_replacements@,
            manifest,
            entries,
            from,
        ) == canonicalization::canonicalization_refusal_from(
            document.retired_replacements@,
            other,
            entries,
            from,
        ),
    decreases document.retired_replacements@.len() - from,
{
    if from < document.retired_replacements@.len() {
        canonicalizations_alike(document, manifest, other, entries, from + 1);
        assert(manifest.record(document.retired_replacements@[from].asset_id@) == other.record(
            document.retired_replacements@[from].asset_id@,
        ));
    }
}

proof fn replacements_gathered_alike(
    replacements: Seq<EvidenceRetiredReplacement>,
    manifest: Manifest,
    other: Manifest,
)
    requires
        forall|i: int|
            0 <= i < replacements.len() ==> manifest.record((#[trigger] replacements[i]).asset_id@)
                == other.record(replacements[i].asset_id@),
    ensures
        plan::gathered_from(replacements, manifest) == plan::gathered_from(replacements, other),
    decreases replacements.len(),
{
    if replacements.len() > 0 {
        let front = replacements.drop_last();
        assert forall|i: int| 0 <= i < front.len() implies manifest.record(
            (#[trigger] front[i]).asset_id@,
        ) == other.record(front[i].asset_id@) by {
            assert(front[i] == replacements[i]);
        }
        replacements_gathered_alike(front, manifest, other);
        assert(replacements.last() == replacements[replacements.len() - 1]);
    }
}

proof fn raws_alike(document: EvidenceDocument, manifest: Manifest, other: Manifest)
    requires
        known_alike(document, manifest, other),
        plan::raws_fit(document.raw_inputs@, manifest),
    ensures
        plan::raws_fit(document.raw_inputs@, other),
{
    let raws = document.raw_inputs@;
    assert forall|i: int| 0 <= i < raws.len() implies plan::raw_fits(
        #[trigger] raws[i],
        other,
    ) by {
        assert(plan::raw_fits(raws[i], manifest));
    }
}

proof fn plans_alike(
    document: EvidenceDocument,
    manifest: Manifest,
    other: Manifest,
    plan_inputs: PlanInputs,
)
    requires
        document.retired_replacements@.len() == 2,
        known_alike(document, manifest, other),
        known_alike(document, other, manifest),
    ensures
        plan::sealed_plan_refusal(document, manifest, plan_inputs) == plan::sealed_plan_refusal(
            document,
            other,
            plan_inputs,
        ),
{
    replacements_gathered_alike(document.retired_replacements@, manifest, other);
    assert(plan::cohort_phase(document, manifest) == plan::cohort_phase(document, other)) by {
        assert(manifest.record(document.retired_replacements@[0].asset_id@) == other.record(
            document.retired_replacements@[0].asset_id@,
        ));
        assert(manifest.record(document.retired_replacements@[1].asset_id@) == other.record(
            document.retired_replacements@[1].asset_id@,
        ));
    }
    assert(plan::raws_fit(document.raw_inputs@, manifest) == plan::raws_fit(
        document.raw_inputs@,
        other,
    )) by {
        if plan::raws_fit(document.raw_inputs@, manifest) {
            raws_alike(document, manifest, other);
        }
        if plan::raws_fit(document.raw_inputs@, other) {
            raws_alike(document, other, manifest);
        }
    }
}

proof fn replacements_alike(
    document: EvidenceDocument,
    encodings: DocumentEncodings,
    manifest: Manifest,
    other: Manifest,
    canonicalizations: Seq<OriginalDestinationCanonicalization>,
    from: int,
)
    requires
        known_alike(document, manifest, other),
        0 <= from <= document.retired_replacements@.len(),
    ensures
        replacements_refusal_from(document, encodings, manifest, canonicalizations, from)
            == replacements_refusal_from(document, encodings, other, canonicalizations, from),
    decreases document.retired_replacements@.len() - from,
{
    if from < document.retired_replacements@.len() {
        replacements_alike(document, encodings, manifest, other, canonicalizations, from + 1);
        assert(manifest.record(document.retired_replacements@[from].asset_id@) == other.record(
            document.retired_replacements@[from].asset_id@,
        ));
    }
}

/// A record that is neither UploadVerified nor carries a journal has no part in the answer: with it
/// or without it, wherever it stands in the manifest, a document is accepted or refused alike, for
/// the same reason. (Its id is none that the document names, and its original lies at no place of
/// a reference.)
pub proof fn other_records_change_no_answer(
    document: EvidenceDocument,
    encodings: DocumentEncodings,
    plan_inputs: PlanInputs,
    request: LegacyUploadEvidenceAuditRequest,
    manifest: Manifest,
    larger: Manifest,
    k: int,
    added: AssetRecord,
    canonicalizations: Seq<OriginalDestinationCanonicalization>,
)
    requires
        0 <= k <= manifest.records@.len(),
        larger.records@ == manifest.records@.insert(k, added),
        !(added.state is UploadVerified),
        added.journal is Absent,
        forall|i: int|
            0 <= i < document.assets@.len() ==> (#[trigger] document.assets@[i]).asset_id@
                != added.asset_id@,
        forall|i: int|
            0 <= i < document.retired_replacements@.len() ==> (
            #[trigger] document.retired_replacements@[i]).asset_id@ != added.asset_id@,
        forall|i: int|
            0 <= i < document.reference_normalizations@.len() ==> {
                &&& (#[trigger] document.reference_normalizations@[i]).asset_id@
                    != added.asset_id@
                &&& !path::same_place(
                    added.raw_path@,
                    document.reference_normalizations@[i].reference_path@,
                )
            },
        forall|i: int|
            0 <= i < document.raw_inputs@.len() ==> (#[trigger] document.raw_inputs@[i]).asset_id@
                != added.asset_id@,
    ensures
        document_refusal(document, encodings, plan_inputs, request, larger, canonicalizations)
            == document_refusal(
            document,
            encodings,
            plan_inputs,
            request,
            manifest,
            canonicalizations,
        ),
{
    let records = manifest.records@;
    assert forall|id: Seq<char>| id != added.asset_id@ implies #[trigger] manifest.record(id)
        == larger.record(id) by {
        manifest::other_records_are_not_asked(records, k, added, id, 0);
    }
    assert(known_alike(document, manifest, larger));
    assert(known_alike(document, larger, manifest));
    cohort_without(records, k, added);
    canonicalizations_alike(document, manifest, larger, canonicalizations, 0);
    if document_shaped(document) {
        plans_alike(document, manifest, larger, plan_inputs);
    }
    replacements_alike(document, encodings, manifest, larger, canonicalizations, 0);
    assert(assets_sealed(document.assets@, manifest) == assets_sealed(document.assets@, larger))
        by {
        assert forall|i: int| 0 <= i < document.assets@.len() implies asset_sealed(
            #[trigger] document.assets@[i],
            manifest,
        ) == asset_sealed(document.assets@[i], larger) by {
            assert(manifest.record(document.assets@[i].asset_id@) == larger.record(
                document.assets@[i].asset_id@,
            ));
        }
    }
    assert(references_stand(document, encodings, manifest) == references_stand(
        document,
        encodings,
        larger,
    )) by {
        assert forall|i: int| 0 <= i < document.reference_normalizations@.len() implies (
        #[trigger] reference_stands(document, encodings, manifest, i)) == reference_stands(
            document,
            encodings,
            larger,
            i,
        ) by {
            let reference = document.reference_normalizations@[i];
            assert(manifest.record(reference.asset_id@) == larger.record(reference.asset_id@));
            protected_alike(document, manifest, larger, k, added, reference.reference_path@);
        }
        assert forall|i: int| 0 <= i < document.reference_normalizations@.len() implies (
        #[trigger] reference_stands(document, encodings, larger, i)) == reference_stands(
            document,
            encodings,
            manifest,
            i,
        ) by {
            assert(reference_stands(document, encodings, manifest, i) == reference_stands(
                document,
                encodings,
                larger,
                i,
            ));
        }
    }
}

proof fn protected_alike(
    document: EvidenceDocument,
    manifest: Manifest,
    larger: Manifest,
    k: int,
    added: AssetRecord,
    place: Seq<char>,
)
    requires
        0 <= k <= manifest.records@.len(),
        larger.records@ == manifest.records@.insert(k, added),
        !path::same_place(added.raw_path@, place),
        known_alike(document, manifest, larger),
    ensures
        protected(document, manifest, place) == protected(document, larger, place),
{
    let records = manifest.records@;
    let all = larger.records@;
    if exists|i: int|
        0 <= i < records.len() && path::same_place((#[trigger] records[i]).raw_path@, place) {
        let i = choose|i: int|
            0 <= i < records.len() && path::same_place((#[trigger] records[i]).raw_path@, place);
        if i < k {
            assert(all[i] == records[i]);
        } else {
            assert(all[i + 1] == records[i]);
        }
    }
    if exists|i: int| 0 <= i < all.len() && path::same_place((#[trigger] all[i]).raw_path@, place) {
        let i = choose|i: int|
            0 <= i < all.len() && path::same_place((#[trigger] all[i]).raw_path@, place);
        if i < k {
            assert(all[i] == records[i]);
        } else if i > k {
            assert(all[i] == records[i - 1]);
        }
    }
    let replacements = document.retired_replacements@;
    assert forall|i: int| 0 <= i < replacements.len() implies handles(
        manifest,
        (#[trigger] replacements[i]).asset_id@,
        place,
    ) == handles(larger, replacements[i].asset_id@, place) by {
        assert(manifest.record(replacements[i].asset_id@) == larger.record(
            replacements[i].asset_id@,
        ));
    }
}

/// A document has its shape exactly if it is of schema five, its id is a digest, and it says that it
/// has, and has, ten assets, two retirements and five references.
pub proof fn documents_have_one_shape(document: EvidenceDocument)
    ensures
        document_shaped(document) <==> {
            &&& document.schema_version == 5
            &&& identity::digest_text(document.migration_id@)
            &&& document.asset_count == 10
            &&& document.assets@.len() == 10
            &&& document.retired_replacement_count == 2
            &&& document.retired_replacements@.len() == 2
            &&& document.reference_count == 5
            &&& document.reference_normalizations@.len() == 5
        },
{
}

/// An asset is sealed by the digest of its record as it is, as long as it has not begun to migrate,
/// and by the digest of its record as it was when its valid journal began, from then on.
pub proof fn assets_are_sealed_as_they_were(
    asset: EvidenceAsset,
    manifest: Manifest,
    record: AssetRecord,
)
    requires
        manifest.record(asset.asset_id@) == Some(record),
        identity::digest_text(asset.record_sha256@),
    ensures
        record.journal is Absent ==> (asset_sealed(asset, manifest) <==> record.record_sha256 is Some
            && record.record_sha256->0@ == asset.record_sha256@),
        record.journal is Valid ==> (asset_sealed(asset, manifest)
            <==> record.journal->Valid_0.identity.source_record_sha256@ == asset.record_sha256@),
        !(record.journal is Absent) && !(record.journal is Valid) ==> !asset_sealed(
            asset,
            manifest,
        ),
{
}

/// A retirement is audited in full before its migration begins and up to the quarantine; from the
/// first phase of the migration on its journal is audited as well, and from the reset on the journal
/// alone.
pub proof fn retirements_are_audited_in_full_up_to_the_quarantine(
    document: EvidenceDocument,
    encodings: DocumentEncodings,
    manifest: Manifest,
    canonicalizations: Seq<OriginalDestinationCanonicalization>,
    i: int,
    record: AssetRecord,
    phase: LegacyUploadMigrationPhase,
)
    requires
        manifest.record(document.retired_replacements@[i].asset_id@) == Some(record),
        record.valid_journal() is Some ==> record.valid_journal()->0.last_phase() == Some(phase),
    ensures
        ({
            let evidence = document.retired_replacements@[i];
            let in_full = audit::replacement_refusal(
                evidence,
                manifest,
                document.assets@,
                canonicalizations,
                audit::encoded_digest(encodings.destination_json@, i),
            ) is None;
            let by_journal = audit::journal_refusal(
                evidence,
                record,
                audit::asset_digest(document.assets@, evidence.asset_id@, 0)->0,
                canonicalizations,
            ) is None;
            let accepted = replacement_step(document, encodings, manifest, canonicalizations, i)
                is None;
            &&& record.journal is Absent ==> (accepted <==> in_full)
            &&& !(record.journal is Absent) && !(record.journal is Valid) ==> !accepted
            &&& record.journal is Valid && phase.ordinal()
                < LegacyUploadMigrationPhase::Reset.ordinal() ==> (accepted <==> in_full
                && by_journal)
            &&& record.journal is Valid && phase.ordinal()
                >= LegacyUploadMigrationPhase::Reset.ordinal() ==> (accepted <==> by_journal)
        }),
{
}

/// A place is protected exactly if it is that of the original of any record, or that of the HEIC or
/// the mirror of a retired upload.
pub proof fn originals_and_retired_files_are_protected(
    document: EvidenceDocument,
    manifest: Manifest,
    place: Seq<char>,
    i: int,
)
    ensures
        0 <= i < manifest.records@.len() && path::same_place(
            manifest.records@[i].raw_path@,
            place,
        ) ==> protected(document, manifest, place),
        0 <= i < document.retired_replacements@.len() && ({
            let record = manifest.record(document.retired_replacements@[i].asset_id@);
            &&& record is Some
            &&& {
                ||| record->0.uploaded_path() is Some && path::same_place(
                    record->0.uploaded_path()->0,
                    place,
                )
                ||| record->0.mirror_path() is Some && path::same_place(
                    record->0.mirror_path()->0,
                    place,
                )
            }
        }) ==> protected(document, manifest, place),
        (forall|j: int|
            0 <= j < manifest.records@.len() ==> !path::same_place(
                (#[trigger] manifest.records@[j]).raw_path@,
                place,
            )) && (forall|j: int|
            0 <= j < document.retired_replacements@.len() ==> manifest.record(
                (#[trigger] document.retired_replacements@[j]).asset_id@,
            ) is None) ==> !protected(document, manifest, place),
{
    if 0 <= i < document.retired_replacements@.len() {
        assert(document.retired_replacements@[i].asset_id@
            == document.retired_replacements@[i].asset_id@);
    }
}

/// A reference stands exactly if it is that of the third, fourth, eighth, ninth or tenth asset, in
/// that order, is sealed as its JSON and its asset are, lies at an unprotected place beside the
/// upload (or anywhere once a retired upload is reset), and is an image that is turned as expected.
pub proof fn references_stand_in_their_places(
    document: EvidenceDocument,
    encodings: DocumentEncodings,
    manifest: Manifest,
    i: int,
    record: AssetRecord,
)
    requires
        0 <= i < 5,
        document.reference_normalizations@.len() == 5,
        document.assets@.len() == 10,
        manifest.record(document.reference_normalizations@[i].asset_id@) == Some(record),
        i < encodings.reference_json@.len(),
    ensures
        reference_stands(document, encodings, manifest, i) <==> {
            let reference = document.reference_normalizations@[i];
            let place = seq![2int, 3, 7, 8, 9][i];
            &&& reference.asset_id@ == document.assets@[place].asset_id@
            &&& audit::asset_digest(document.assets@, reference.asset_id@, 0) == Some(
                reference.asset_record_sha256@,
            )
            &&& digest::sha256_hex(encodings.reference_json@[i]@)
                == reference.reference_identity_sha256@
            &&& {
                ||| record.uploaded_path() is Some && path::same_place(
                    path::with_extension(record.uploaded_path()->0, ".oriented-preview.jpg"@),
                    reference.reference_path@,
                )
                ||| document::retires(document.retired_replacements@, reference.asset_id@)
                    && record.resumed()
            }
            &&& path::safe_place(reference.reference_path@)
            &&& !protected(document, manifest, reference.reference_path@)
            &&& reference.device > 0
            &&& reference.inode > 0
            &&& reference.size_bytes > 0
            &&& reference.width > 0
            &&& reference.height > 0
            &&& reference.orientation == seq![6u16, 6, 6, 6, 8][i]
            &&& identity::digest_text(reference.file_sha256@)
            &&& identity::digest_text(reference.decoded_pixel_sha256@)
        },
{
}

/// A document is accepted exactly if it has its shape and its order, its two retirements can be told
/// apart, its canonicalizations are those that are needed, it is the cohort that was expected, its
/// plan stands, it lists the cohort, every asset is sealed, every retirement is as the manifest has
/// it, its references stand, and both preparations can be witnessed.
pub proof fn sound_documents_are_accepted(
    document: EvidenceDocument,
    encodings: DocumentEncodings,
    plan_inputs: PlanInputs,
    request: LegacyUploadEvidenceAuditRequest,
    manifest: Manifest,
    canonicalizations: Seq<OriginalDestinationCanonicalization>,
)
    ensures
        document_refusal(
            document,
            encodings,
            plan_inputs,
            request,
            manifest,
            canonicalizations,
        ) is None <==> {
            &&& document_shaped(document)
            &&& identity::ordered_identities(asset_ids(document.assets@))
            &&& identity::ordered_identities(replacement_ids(document.retired_replacements@))
            &&& identity::ordered_identities(reference_ids(document.reference_normalizations@))
            &&& audit::pair_unambiguous(document.retired_replacements@)
            &&& canonicalization::canonicalization_set_refusal(
                document,
                manifest,
                canonicalizations,
            ) is None
            &&& digest::sha256_hex(encodings.cohort_json@) == request.expected_cohort_sha256@
            &&& document.cohort_sha256@ == request.expected_cohort_sha256@
            &&& plan::sealed_plan_refusal(document, manifest, plan_inputs) is None
            &&& cohort_ids(manifest.records@) == asset_ids(document.assets@)
            &&& assets_sealed(document.assets@, manifest)
            &&& replacement_step(document, encodings, manifest, canonicalizations, 0) is None
            &&& replacement_step(document, encodings, manifest, canonicalizations, 1) is None
            &&& references_stand(document, encodings, manifest)
            &&& encodings.witness_json@.len() >= 2
        },
{
    reveal_with_fuel(replacements_refusal_from, 3);
}

/// A record that neither document names has no part in the plan of one of them either.
pub proof fn other_records_change_no_plan(
    document: EvidenceDocument,
    manifest: Manifest,
    larger: Manifest,
    k: int,
    added: AssetRecord,
    plan_inputs: PlanInputs,
)
    requires
        0 <= k <= manifest.records@.len(),
        larger.records@ == manifest.records@.insert(k, added),
        document.retired_replacements@.len() == 2,
        forall|i: int|
            0 <= i < document.assets@.len() ==> (#[trigger] document.assets@[i]).asset_id@
                != added.asset_id@,
        forall|i: int|
            0 <= i < document.retired_replacements@.len() ==> (
            #[trigger] document.retired_replacements@[i]).asset_id@ != added.asset_id@,
        forall|i: int|
            0 <= i < document.reference_normalizations@.len() ==> (
            #[trigger] document.reference_normalizations@[i]).asset_id@ != added.asset_id@,
        forall|i: int|
            0 <= i < document.raw_inputs@.len() ==> (#[trigger] document.raw_inputs@[i]).asset_id@
                != added.asset_id@,
    ensures
        plan::sealed_plan_refusal(document, larger, plan_inputs) == plan::sealed_plan_refusal(
            document,
            manifest,
            plan_inputs,
        ),
        plan::cohort_phase(document, larger) == plan::cohort_phase(document, manifest),
{
    assert forall|id: Seq<char>| id != added.asset_id@ implies #[trigger] manifest.record(id)
        == larger.record(id) by {
        manifest::other_records_are_not_asked(manifest.records@, k, added, id, 0);
    }
    assert(known_alike(document, manifest, larger));
    assert(known_alike(document, larger, manifest));
    plans_alike(document, manifest, larger, plan_inputs);
    assert(manifest.record(document.retired_replacements@[0].asset_id@) == larger.record(
        document.retired_replacements@[0].asset_id@,
    ));
    assert(manifest.record(document.retired_replacements@[1].asset_id@) == larger.record(
        document.retired_replacements@[1].asset_id@,
    ));
}

/// What is wrong with a document is told by its name, in the order in which it is looked at.
pub proof fn faults_of_a_document_are_named(
    document: EvidenceDocument,
    encodings: DocumentEncodings,
    plan_inputs: PlanInputs,
    request: LegacyUploadEvidenceAuditRequest,
    manifest: Manifest,
    canonicalizations: Seq<OriginalDestinationCanonicalization>,
)
    ensures
        ({
            let set = canonicalization::canonicalization_set_refusal(
                document,
                manifest,
                canonicalizations,
            );
            let planned = plan::sealed_plan_refusal(document, manifest, plan_inputs);
            let replacements = replacements_refusal_from(
                document,
                encodings,
                manifest,
                canonicalizations,
                0,
            );
            let shaped = document_shaped(document);
            let ordered = document_ordered(document);
            let told_apart = audit::pair_unambiguous(document.retired_replacements@);
            let canonical = set is None;
            let expected = document.cohort_sha256@ == digest::sha256_hex(encodings.cohort_json@)
                && document.cohort_sha256@ == request.expected_cohort_sha256@;
            let plan_stands = planned is None;
            let listed = cohort_ids(manifest.records@) == asset_ids(document.assets@);
            let sealed = assets_sealed(document.assets@, manifest);
            let retired = replacements is None;
            let referenced = references_stand(document, encodings, manifest);
            let witnessed = encodings.witness_json@.len() >= 2;
            let told = document_refusal(
                document,
                encodings,
                plan_inputs,
                request,
                manifest,
                canonicalizations,
            );
            &&& !shaped ==> told == Some("evidence_count"@)
            &&& shaped && !ordered ==> told == Some("asset_order"@)
            &&& shaped && ordered && !told_apart ==> told == Some("cloudkit_ambiguity"@)
            &&& shaped && ordered && told_apart && !canonical ==> told == set
            &&& shaped && ordered && told_apart && canonical && !expected
                ==> told == Some("cohort_digest"@)
            &&& shaped && ordered && told_apart && canonical && expected && !plan_stands
                ==> told == planned
            &&& shaped && ordered && told_apart && canonical && expected && plan_stands
                && !listed ==> told == Some("asset_set"@)
            &&& shaped && ordered && told_apart && canonical && expected && plan_stands
                && listed && !sealed ==> told == Some("record_digest"@)
            &&& shaped && ordered && told_apart && canonical && expected && plan_stands
                && listed && sealed && !retired ==> told == replacements
            &&& shaped && ordered && told_apart && canonical && expected && plan_stands
                && listed && sealed && retired && !referenced
                ==> told == Some("reference_witness"@)
            &&& shaped && ordered && told_apart && canonical && expected && plan_stands
                && listed && sealed && retired && referenced && !witnessed
                ==> told == Some("preparation_witness"@)
        }),
{
}

/// References stand exactly if each of them does and no two are at one place; assets are sealed
/// exactly if each of them is.
pub proof fn standing_references_are_apart(
    document: EvidenceDocument,
    encodings: DocumentEncodings,
    manifest: Manifest,
)
    ensures
        references_stand(document, encodings, manifest) <==> {
            let references = document.reference_normalizations@;
            &&& forall|i: int|
                0 <= i < references.len() ==> #[trigger] reference_stands(
                    document,
                    encodings,
                    manifest,
                    i,
                )
            &&& forall|i: int, j: int|
                0 <= i < references.len() && 0 <= j < references.len() && i != j
                    ==> !path::same_place(
                    (#[trigger] references[i]).reference_path@,
                    (#[trigger] references[j]).reference_path@,
                )
        },
        assets_sealed(document.assets@, manifest) <==> forall|i: int|
            0 <= i < document.assets@.len() ==> identity::digest_text(
                (#[trigger] document.assets@[i]).record_sha256@,
            ) && manifest.record(document.assets@[i].asset_id@) is Some && sealing_digest(
                manifest.record(document.assets@[i].asset_id@)->0,
            ) == Some(document.assets@[i].record_sha256@),
{
    let references = document.reference_normalizations@;
    if references_stand(document, encodings, manifest) {
        assert forall|i: int, j: int|
            0 <= i < references.len() && 0 <= j < references.len() && i
                != j implies !path::same_place(
            (#[trigger] references[i]).reference_path@,
            (#[trigger] references[j]).reference_path@,
        ) by {
            if i < j {
                assert(!path::same_place(
                    references[i].reference_path@,
                    references[j].reference_path@,
                ));
            } else {
                assert(!path::same_place(
                    references[j].reference_path@,
                    references[i].reference_path@,
                ));
            }
        }
    }
    let assets = document.assets@;
    assert forall|i: int| 0 <= i < assets.len() implies (asset_sealed(
        #[trigger] assets[i],
        manifest,
    ) <==> identity::digest_text(assets[i].record_sha256@) && manifest.record(
        assets[i].asset_id@,
    ) is Some && sealing_digest(manifest.record(assets[i].asset_id@)->0) == Some(
        assets[i].record_sha256@,
    )) by {}
}

/// A preparation is authorized with the ids and digests of its document, its retirement and its
/// plan, and with the digest of its own witness.
pub proof fn preparations_are_those_of_their_retirement(
    preparation: LegacyUploadMigrationAuthorizedPreparation,
    document: EvidenceDocument,
    encodings: DocumentEncodings,
    plan_inputs: PlanInputs,
    evidence_sha256: Seq<char>,
    i: int,
)
    requires
        authorizes(preparation, document, encodings, plan_inputs, evidence_sha256, i),
    ensures
        preparation.identity.migration_id@ == document.migration_id@,
        preparation.identity.evidence_sha256@ == evidence_sha256,
        preparation.identity.cohort_sha256@ == document.cohort_sha256@,
        preparation.identity.asset_id@ == document.retired_replacements@[i].asset_id@,
        Some(preparation.identity.source_record_sha256@) == audit::asset_digest(
            document.assets@,
            document.retired_replacements@[i].asset_id@,
            0,
        ),
        preparation.identity.quarantine_plan.content() == plan::drafted(
            document,
            plan_inputs.destinations@,
        ),
        preparation.identity.quarantine_plan.plan_sha256@ == digest::sha256_hex(
            plan_inputs.plan_json->0@,
        ),
        0 <= i < encodings.witness_json@.len(),
        preparation.prepared_witness_sha256@ == digest::sha256_hex(encodings.witness_json@[i]@),
{
}

} // verus!
