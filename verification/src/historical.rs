use vstd::prelude::*;
use vstd::string::*;

use crate::audit;
use crate::canonicalization;
use crate::canonicalization::{
    original_asset_proof_destination_fields, place_original, write_destination,
    OriginalDestinationCanonicalization,
};
use crate::cloudkit::{
    CloudKitActiveAssetLookupMode, CloudKitActiveAssetReadRequest, CloudKitActiveAssetRemoteState,
    CloudKitActiveAssetValidation,
};
use crate::digest;
use crate::digest::sha256_bytes;
use crate::document::{
    EvidenceDocument, EvidenceRetiredReplacement, ASSET_COUNT, EVIDENCE_SCHEMA_VERSION,
    REFERENCE_COUNT, RETIRED_REPLACEMENT_COUNT,
};
use crate::error::{failure, LegacyUploadEvidenceError, Outcome};
use crate::manifest;
use crate::manifest::{
    copy_of, same_optional_text, LegacyUploadMigrationJournal, Manifest, OriginalAssetProof,
};
use crate::order;
use crate::order::stable_sort;
use crate::phase::LegacyUploadMigrationPhase;
use crate::plan;
use crate::plan::coherent_retired_replacement_phase;
use crate::text::same_text;

verus! {

/// An original whose stored proof does not name its destination, with its destination written in.
#[derive(Debug, PartialEq, Eq)]
pub struct HistoricalOriginal {
    pub original: OriginalAssetProof,
    pub canonical_original_asset_sha256: String,
    pub delete_confirmed_entry_sha256: String,
}

/// What a historical original says.
pub struct HistoricalView {
    pub original: OriginalAssetProof,
    pub canonical_sha256: Seq<char>,
    pub entry_sha256: Seq<char>,
}

impl HistoricalOriginal {
    pub open spec fn view(&self) -> HistoricalView {
        HistoricalView {
            original: self.original,
            canonical_sha256: self.canonical_original_asset_sha256@,
            entry_sha256: self.delete_confirmed_entry_sha256@,
        }
    }
}

/// A journal was prepared for the very asset, destination and original.
pub open spec fn journal_prepared_for(
    replacement: EvidenceRetiredReplacement,
    journal: LegacyUploadMigrationJournal,
) -> bool {
    &&& journal.identity.asset_id@ == replacement.asset_id@
    &&& journal.identity.destination_sha256@ == replacement.destination_sha256@
    &&& journal.identity.original_asset_identity_sha256@
        == replacement.original_asset_identity_sha256@
}

/// An original, placed, is the one that the evidence names, of the owner that it names.
pub open spec fn original_named(
    replacement: EvidenceRetiredReplacement,
    original: OriginalAssetProof,
) -> bool {
    &&& original.record_name@ == replacement.original_asset_record_name@
    &&& original.record_change_tag@ == replacement.original_record_change_tag@
    &&& manifest::optional_text(original.owner_record_name) == manifest::optional_text(
        replacement.destination.owner_record_name,
    )
}

/// The original of a replacement, if its stored proof does not name its destination: it is the
/// one that was sealed, and its journal has just confirmed the delete.
pub open spec fn historical(
    replacement: EvidenceRetiredReplacement,
    manifest: Manifest,
    destination_sha256: Option<Seq<char>>,
) -> Outcome<Option<HistoricalView>> {
    match manifest.record(replacement.asset_id@) {
        None => Err("original_canonicalization"@),
        Some(record) => match record.original_asset {
            None => Err("proof_missing"@),
            Some(stored) => match canonicalization::destination_fields(stored.json@) {
                Err(category) => Err(category),
                Ok(true) => Ok(None),
                Ok(false) => if digest::sha256_hex(stored.json@)
                    != replacement.original_asset_identity_sha256@ {
                    Err("original_canonicalization"@)
                } else {
                    match record.valid_journal() {
                        None => Err("original_canonicalization"@),
                        Some(journal) => if !journal_prepared_for(replacement, journal) {
                            Err("original_canonicalization"@)
                        } else if destination_sha256 is None {
                            Err("proof_lineage"@)
                        } else if {
                            &&& destination_sha256 == Some(replacement.destination_sha256@)
                            &&& journal.last_phase() == Some(
                                LegacyUploadMigrationPhase::DeleteConfirmed,
                            )
                            &&& stored.decoded is Some
                            &&& original_named(replacement, stored.decoded->0)
                        } {
                            Ok(
                                Some(
                                    HistoricalView {
                                        original: canonicalization::placed_original(
                                            stored.decoded->0,
                                            replacement.destination,
                                        ),
                                        canonical_sha256: digest::sha256_hex(
                                            canonicalization::canonical_json(
                                                stored.json@,
                                                replacement.destination,
                                            )->0,
                                        ),
                                        entry_sha256: journal.entries@.last().entry_sha256@,
                                    },
                                ),
                            )
                        } else {
                            Err("original_canonicalization"@)
                        },
                    }
                },
            },
        },
    }
}

/// The original of a replacement, if its stored proof does not name its destination.
pub fn historical_original(
    replacement: &EvidenceRetiredReplacement,
    manifest: &Manifest,
    destination_json: Option<&Vec<u8>>,
) -> (r: Result<Option<HistoricalOriginal>, LegacyUploadEvidenceError>)
    ensures
        match (
            r,
            historical(
                *replacement,
                *manifest,
                match destination_json {
                    Some(json) => Some(digest::sha256_hex(json@)),
                    None => None,
                },
            ),
        ) {
            (Ok(Some(found)), Ok(Some(view))) => found@ == view,
            (Ok(None), Ok(None)) => true,
            (Err(error), Err(category)) => error@ == category,
            _ => false,
        },
{
    let record = match manifest.get(&replacement.asset_id) {
        None => {
            return Err(failure("original_canonicalization"));
        },
        Some(record) => record,
    };
    let stored = match &record.original_asset {
        None => {
            return Err(failure("proof_missing"));
        },
        Some(stored) => stored,
    };
    match original_asset_proof_destination_fields(&stored.json) {
        Err(error) => {
            return Err(error);
        },
        Ok(named) => {
            if named {
                return Ok(None);
            }
        },
    }
    if !same_text(&sha256_bytes(&stored.json), &replacement.original_asset_identity_sha256) {
        return Err(failure("original_canonicalization"));
    }
    let journal = match record.journal_of() {
        None => {
            return Err(failure("original_canonicalization"));
        },
        Some(journal) => journal,
    };
    if !same_text(&journal.identity.asset_id, &replacement.asset_id) || !same_text(
        &journal.identity.destination_sha256,
        &replacement.destination_sha256,
    ) || !same_text(
        &journal.identity.original_asset_identity_sha256,
        &replacement.original_asset_identity_sha256,
    ) {
        return Err(failure("original_canonicalization"));
    }
    match destination_json {
        None => {
            return Err(failure("proof_lineage"));
        },
        Some(json) => {
            if !same_text(&sha256_bytes(json), &replacement.destination_sha256) {
                return Err(failure("original_canonicalization"));
            }
        },
    }
    let n: usize = journal.entries.len();
    if n == 0 || journal.entries[n - 1].phase != LegacyUploadMigrationPhase::DeleteConfirmed {
        return Err(failure("original_canonicalization"));
    }
    match (&stored.decoded, write_destination(&stored.json, &replacement.destination)) {
        (Some(decoded), Some(bytes)) => {
            let original = place_original(decoded, &replacement.destination);
            if !same_text(&original.record_name, &replacement.original_asset_record_name)
                || !same_text(
                &original.record_change_tag,
                &replacement.original_record_change_tag,
            ) || !same_optional_text(
                &original.owner_record_name,
                &replacement.destination.owner_record_name,
            ) {
                return Err(failure("original_canonicalization"));
            }
            Ok(
                Some(
                    HistoricalOriginal {
                        original,
                        canonical_original_asset_sha256: sha256_bytes(&bytes),
                        delete_confirmed_entry_sha256: journal.entries[n - 1].entry_sha256.clone(),
                    },
                ),
            )
        },
        _ => Err(failure("original_canonicalization")),
    }
}

/// The question put to CloudKit about an original.
pub fn active_asset_request(original: &OriginalAssetProof) -> (r: CloudKitActiveAssetReadRequest)
    ensures
        r == (CloudKitActiveAssetReadRequest {
            record_name: original.record_name,
            record_change_tag: original.record_change_tag,
            database_scope: original.database_scope,
            zone_name: original.zone_name,
            owner_record_name: original.owner_record_name,
        }),
{
    CloudKitActiveAssetReadRequest {
        record_name: original.record_name.clone(),
        record_change_tag: original.record_change_tag.clone(),
        database_scope: original.database_scope,
        zone_name: original.zone_name.clone(),
        owner_record_name: copy_of(&original.owner_record_name),
    }
}

/// What a canonicalization says.
pub struct EntryView {
    pub asset_id: Seq<char>,
    pub original_asset_identity_sha256: Seq<char>,
    pub destination_sha256: Seq<char>,
    pub canonical_original_asset_sha256: Seq<char>,
    pub delete_confirmed_entry_sha256: Seq<char>,
    pub remote_state: CloudKitActiveAssetRemoteState,
    pub lookup_mode: CloudKitActiveAssetLookupMode,
}

/// What each canonicalization says.
pub open spec fn entry_views(entries: Seq<OriginalDestinationCanonicalization>) -> Seq<EntryView> {
    entries.map_values(
        |entry: OriginalDestinationCanonicalization|
            EntryView {
                asset_id: entry.asset_id@,
                original_asset_identity_sha256: entry.original_asset_identity_sha256@,
                destination_sha256: entry.destination_sha256@,
                canonical_original_asset_sha256: entry.canonical_original_asset_sha256@,
                delete_confirmed_entry_sha256: entry.delete_confirmed_entry_sha256@,
                remote_state: entry.remote_state,
                lookup_mode: entry.lookup_mode,
            },
    )
}

/// CloudKit's answer about the original of a replacement, from the list of all answers.
pub open spec fn reply_at(
    replies: Seq<Result<CloudKitActiveAssetValidation, LegacyUploadEvidenceError>>,
    i: int,
) -> Outcome<CloudKitActiveAssetValidation> {
    if 0 <= i < replies.len() {
        match replies[i] {
            Ok(validation) => Ok(validation),
            Err(error) => Err(error@),
        }
    } else {
        Err("original_remote_state"@)
    }
}

/// CloudKit answered in full, and finds the original in the state that was sealed.
pub open spec fn original_stands(
    replacement: EvidenceRetiredReplacement,
    validation: CloudKitActiveAssetValidation,
) -> bool {
    validation.remote_state == replacement.original_remote_state
        && validation.lookup_mode is FullFields
}

/// Whether CloudKit answered in full, and finds the original in the state that was sealed.
pub fn does_original_stand(
    replacement: &EvidenceRetiredReplacement,
    validation: &CloudKitActiveAssetValidation,
) -> (r: bool)
    ensures
        r == original_stands(*replacement, *validation),
{
    let full: bool = match validation.lookup_mode {
        CloudKitActiveAssetLookupMode::FullFields => true,
    };
    validation.remote_state == replacement.original_remote_state && full
}

/// The canonicalization of one replacement, if it needs one: CloudKit has to find its original in
/// the state that was sealed.
pub open spec fn canonical_entry(
    replacement: EvidenceRetiredReplacement,
    manifest: Manifest,
    destination_sha256: Option<Seq<char>>,
    reply: Outcome<CloudKitActiveAssetValidation>,
) -> Outcome<Option<EntryView>> {
    match historical(replacement, manifest, destination_sha256) {
        Err(category) => Err(category),
        Ok(None) => Ok(None),
        Ok(Some(view)) => match reply {
            Err(category) => Err(category),
            Ok(validation) => if original_stands(replacement, validation) {
                Ok(
                    Some(
                        EntryView {
                            asset_id: replacement.asset_id@,
                            original_asset_identity_sha256:
                                replacement.original_asset_identity_sha256@,
                            destination_sha256: replacement.destination_sha256@,
                            canonical_original_asset_sha256: view.canonical_sha256,
                            delete_confirmed_entry_sha256: view.entry_sha256,
                            remote_state: validation.remote_state,
                            lookup_mode: validation.lookup_mode,
                        },
                    ),
                )
            } else {
                Err("original_remote_state"@)
            },
        },
    }
}

/// The canonicalizations that the first replacements need, in the order of the document.
pub open spec fn canonical_entries(
    replacements: Seq<EvidenceRetiredReplacement>,
    manifest: Manifest,
    destination_json: Seq<Vec<u8>>,
    replies: Seq<Result<CloudKitActiveAssetValidation, LegacyUploadEvidenceError>>,
) -> Outcome<Seq<EntryView>>
    decreases replacements.len(),
{
    if replacements.len() == 0 {
        Ok(Seq::empty())
    } else {
        let i = replacements.len() - 1;
        match canonical_entries(replacements.drop_last(), manifest, destination_json, replies) {
            Err(category) => Err(category),
            Ok(entries) => match canonical_entry(
                replacements[i],
                manifest,
                audit::encoded_digest(destination_json, i),
                reply_at(replies, i),
            ) {
                Err(category) => Err(category),
                Ok(None) => Ok(entries),
                Ok(Some(entry)) => Ok(entries.push(entry)),
            },
        }
    }
}

proof fn entries_refused_early(
    replacements: Seq<EvidenceRetiredReplacement>,
    manifest: Manifest,
    destination_json: Seq<Vec<u8>>,
    replies: Seq<Result<CloudKitActiveAssetValidation, LegacyUploadEvidenceError>>,
    n: int,
)
    requires
        0 <= n <= replacements.len(),
    ensures
        canonical_entries(replacements.take(n), manifest, destination_json, replies) matches Err(
            category,
        ) ==> canonical_entries(replacements, manifest, destination_json, replies) == Err::<
            Seq<EntryView>,
            Seq<char>,
        >(category),
    decreases replacements.len() - n,
{
    if n == replacements.len() {
        assert(replacements.take(n) =~= replacements);
    } else {
        assert(replacements.take(n + 1).drop_last() =~= replacements.take(n));
        entries_refused_early(replacements, manifest, destination_json, replies, n + 1);
    }
}

/// The category under which a document is refused before its originals are looked at.
pub open spec fn historical_document_refusal(
    document: EvidenceDocument,
    manifest: Manifest,
) -> Option<Seq<char>> {
    let phase = plan::cohort_phase(document, manifest);
    if document.schema_version != EVIDENCE_SCHEMA_VERSION || document.retired_replacements@.len()
        != RETIRED_REPLACEMENT_COUNT || document.assets@.len() != ASSET_COUNT
        || document.reference_normalizations@.len() != REFERENCE_COUNT {
        Some("evidence_count"@)
    } else if phase is Err {
        Some(phase->Err_0)
    } else if phase->Ok_0 != Some(LegacyUploadMigrationPhase::DeleteConfirmed) {
        Some("recovery_phase"@)
    } else {
        None
    }
}

/// Accepts a document whose cohort has just confirmed its deletes.
pub fn validate_historical_document(document: &EvidenceDocument, manifest: &Manifest) -> (r: Result<
    (),
    LegacyUploadEvidenceError,
>)
    ensures
        crate::error::refused_as(r, historical_document_refusal(*document, *manifest)),
{
    if document.schema_version != EVIDENCE_SCHEMA_VERSION || document.retired_replacements.len()
        != RETIRED_REPLACEMENT_COUNT || document.assets.len() != ASSET_COUNT
        || document.reference_normalizations.len() != REFERENCE_COUNT {
        return Err(failure("evidence_count"));
    }
    match coherent_retired_replacement_phase(document, manifest) {
        Err(error) => Err(error),
        Ok(phase) => {
            let confirmed: bool = match phase {
                Some(phase) => phase == LegacyUploadMigrationPhase::DeleteConfirmed,
                None => false,
            };
            if confirmed {
                Ok(())
            } else {
                Err(failure("recovery_phase"))
            }
        },
    }
}

/// The canonicalizations that a document needs, in ascending order of their assets, from
/// CloudKit's answers about its originals. An answer counts only for a replacement that needs one.
pub fn build_original_destination_canonicalizations(
    document: &EvidenceDocument,
    manifest: &Manifest,
    destination_json: &Vec<Vec<u8>>,
    replies: &Vec<Result<CloudKitActiveAssetValidation, LegacyUploadEvidenceError>>,
) -> (r: Result<Vec<OriginalDestinationCanonicalization>, LegacyUploadEvidenceError>)
    ensures
        match historical_document_refusal(*document, *manifest) {
            Some(category) => r is Err && r->Err_0@ == category,
            None => match canonical_entries(
                document.retired_replacements@,
                *manifest,
                destination_json@,
                replies@,
            ) {
                Err(category) => r is Err && r->Err_0@ == category,
                Ok(entries) => r is Ok && exists|unsorted:
                    Seq<OriginalDestinationCanonicalization>|
                    entry_views(unsorted) == entries && r->Ok_0@ == #[trigger] order::sorted(
                        unsorted,
                    ),
            },
        },
{
    match validate_historical_document(document, manifest) {
        Err(error) => {
            return Err(error);
        },
        Ok(()) => {},
    }
    let replacements = &document.retired_replacements;
    let mut canonicalizations: Vec<OriginalDestinationCanonicalization> = Vec::new();
    let mut i: usize = 0;
    proof {
        assert(replacements@.take(0) =~= Seq::empty());
        assert(entry_views(canonicalizations@) =~= Seq::empty());
    }
    while i < replacements.len()
        invariant
            i <= replacements@.len(),
            replacements@ == document.retired_replacements@,
            historical_document_refusal(*document, *manifest) is None,
            canonical_entries(
                replacements@.take(i as int),
                *manifest,
                destination_json@,
                replies@,
            ) == Ok::<Seq<EntryView>, Seq<char>>(entry_views(canonicalizations@)),
        decreases replacements@.len() - i,
    {
        let replacement = &replacements[i];
        proof {
            assert(replacements@.take(i + 1).drop_last() =~= replacements@.take(i as int));
            assert(replacements@.take(i + 1)[i as int] == *replacement);
            entries_refused_early(
                replacements@,
                *manifest,
                destination_json@,
                replies@,
                i + 1,
            );
        }
        let encoded: Option<&Vec<u8>> = if i < destination_json.len() {
            Some(&destination_json[i])
        } else {
            None
        };
        match historical_original(replacement, manifest, encoded) {
            Err(error) => {
                return Err(error);
            },
            Ok(None) => {},
            Ok(Some(found)) => {
                if i >= replies.len() {
                    return Err(failure("original_remote_state"));
                }
                match &replies[i] {
                    Err(error) => {
                        return Err(*error);
                    },
                    Ok(validation) => {
                        if !does_original_stand(replacement, validation) {
                            return Err(failure("original_remote_state"));
                        }
                        let ghost prior = entry_views(canonicalizations@);
                        let entry = OriginalDestinationCanonicalization {
                            asset_id: replacement.asset_id.clone(),
                            original_asset_identity_sha256:
                                replacement.original_asset_identity_sha256.clone(),
                            destination_sha256: replacement.destination_sha256.clone(),
                            canonical_original_asset_sha256: found.canonical_original_asset_sha256,
                            delete_confirmed_entry_sha256: found.delete_confirmed_entry_sha256,
                            remote_state: validation.remote_state,
                            lookup_mode: validation.lookup_mode,
                        };
                        let ghost added = EntryView {
                            asset_id: entry.asset_id@,
                            original_asset_identity_sha256: entry.original_asset_identity_sha256@,
                            destination_sha256: entry.destination_sha256@,
                            canonical_original_asset_sha256:
                                entry.canonical_original_asset_sha256@,
                            delete_confirmed_entry_sha256: entry.delete_confirmed_entry_sha256@,
                            remote_state: entry.remote_state,
                            lookup_mode: entry.lookup_mode,
                        };
                        canonicalizations.push(entry);
                        assert(entry_views(canonicalizations@) =~= prior.push(added));
                    },
                }
            },
        }
        i += 1;
    }
    assert(replacements@.take(replacements@.len() as int) =~= replacements@);
    let ghost unsorted = canonicalizations@;
    let out = stable_sort(canonicalizations);
    assert(out@ == order::sorted(unsorted));
    Ok(out)
}

/// A proof that names its destination is not historical: no journal, evidence or answer makes a
/// difference to it.
pub proof fn placed_originals_are_not_historical(
    replacement: EvidenceRetiredReplacement,
    manifest: Manifest,
    destination_sha256: Option<Seq<char>>,
    reply: Outcome<CloudKitActiveAssetValidation>,
    record: manifest::AssetRecord,
    stored: manifest::StoredProof<OriginalAssetProof>,
)
    requires
        manifest.record(replacement.asset_id@) == Some(record),
        record.original_asset == Some(stored),
        canonicalization::destination_fields(stored.json@) == Ok::<bool, Seq<char>>(true),
    ensures
        historical(replacement, manifest, destination_sha256) == Ok::<
            Option<HistoricalView>,
            Seq<char>,
        >(None),
        canonical_entry(replacement, manifest, destination_sha256, reply) == Ok::<
            Option<EntryView>,
            Seq<char>,
        >(None),
{
}

/// A proof that does not name its destination is historical exactly if it is the one that the
/// evidence seals and can be decoded, its journal was prepared for this retirement and has just
/// confirmed the deletion, the destination is the sealed one, and the original is the one that the
/// evidence names, of the same owner.
pub proof fn unplaced_originals_are_historical_once_deleted(
    replacement: EvidenceRetiredReplacement,
    manifest: Manifest,
    destination_json: Vec<u8>,
    record: manifest::AssetRecord,
    stored: manifest::StoredProof<OriginalAssetProof>,
    journal: LegacyUploadMigrationJournal,
)
    requires
        manifest.record(replacement.asset_id@) == Some(record),
        record.original_asset == Some(stored),
        record.valid_journal() == Some(journal),
        canonicalization::destination_fields(stored.json@) == Ok::<bool, Seq<char>>(false),
    ensures
        historical(
            replacement,
            manifest,
            Some(digest::sha256_hex(destination_json@)),
        ) is Ok <==> {
            &&& digest::sha256_hex(stored.json@) == replacement.original_asset_identity_sha256@
            &&& stored.decoded is Some
            &&& stored.decoded->0.record_name@ == replacement.original_asset_record_name@
            &&& stored.decoded->0.record_change_tag@ == replacement.original_record_change_tag@
            &&& manifest::optional_text(stored.decoded->0.owner_record_name)
                == manifest::optional_text(replacement.destination.owner_record_name)
            &&& digest::sha256_hex(destination_json@) == replacement.destination_sha256@
            &&& journal.identity.asset_id@ == replacement.asset_id@
            &&& journal.identity.destination_sha256@ == replacement.destination_sha256@
            &&& journal.identity.original_asset_identity_sha256@
                == replacement.original_asset_identity_sha256@
            &&& journal.entries@.len() > 0
            &&& journal.entries@.last().phase is DeleteConfirmed
        },
        historical(
            replacement,
            manifest,
            Some(digest::sha256_hex(destination_json@)),
        ) is Ok ==> {
            let found = historical(
                replacement,
                manifest,
                Some(digest::sha256_hex(destination_json@)),
            )->Ok_0;
            &&& found is Some
            &&& found->0.original.database_scope == replacement.destination.database_scope
            &&& found->0.original.zone_name == replacement.destination.zone_name
            &&& found->0.original.record_name == stored.decoded->0.record_name
            &&& found->0.entry_sha256 == journal.entries@.last().entry_sha256@
        },
{
}

/// A historical original is canonicalized exactly if CloudKit answers that it is still in the state
/// that the evidence says, having looked at all its fields; the entry then says of the original what
/// the evidence and the answer say.
pub proof fn historical_originals_stand_as_cloudkit_answers(
    replacement: EvidenceRetiredReplacement,
    manifest: Manifest,
    destination_sha256: Option<Seq<char>>,
    validation: CloudKitActiveAssetValidation,
    found: HistoricalView,
)
    requires
        historical(replacement, manifest, destination_sha256) == Ok::<
            Option<HistoricalView>,
            Seq<char>,
        >(Some(found)),
    ensures
        canonical_entry(
            replacement,
            manifest,
            destination_sha256,
            Ok::<CloudKitActiveAssetValidation, Seq<char>>(validation),
        ) is Ok <==> validation.remote_state == replacement.original_remote_state
            && validation.lookup_mode is FullFields,
        canonical_entry(
            replacement,
            manifest,
            destination_sha256,
            Ok::<CloudKitActiveAssetValidation, Seq<char>>(validation),
        ) matches Ok(entry) ==> entry is Some && ({
            &&& entry->0.asset_id == replacement.asset_id@
            &&& entry->0.original_asset_identity_sha256
                == replacement.original_asset_identity_sha256@
            &&& entry->0.destination_sha256 == replacement.destination_sha256@
            &&& entry->0.canonical_original_asset_sha256 == found.canonical_sha256
            &&& entry->0.delete_confirmed_entry_sha256 == found.entry_sha256
            &&& entry->0.remote_state == replacement.original_remote_state
            &&& entry->0.lookup_mode is FullFields
        }),
        forall|category: Seq<char>|
            #[trigger] canonical_entry(
                replacement,
                manifest,
                destination_sha256,
                Err::<CloudKitActiveAssetValidation, Seq<char>>(category),
            ) == Err::<Option<EntryView>, Seq<char>>(category),
{
}

/// One more retirement is canonicalized after the others: it adds its own entry at the end where it
/// is historical, and none otherwise.
pub proof fn originals_are_canonicalized_in_order(
    replacements: Seq<EvidenceRetiredReplacement>,
    added: EvidenceRetiredReplacement,
    manifest: Manifest,
    destination_json: Seq<Vec<u8>>,
    replies: Seq<Result<CloudKitActiveAssetValidation, LegacyUploadEvidenceError>>,
)
    ensures
        canonical_entries(Seq::empty(), manifest, destination_json, replies) == Ok::<
            Seq<EntryView>,
            Seq<char>,
        >(Seq::empty()),
        ({
            let before = canonical_entries(replacements, manifest, destination_json, replies);
            let after = canonical_entries(
                replacements.push(added),
                manifest,
                destination_json,
                replies,
            );
            let i = replacements.len() as int;
            let entry = canonical_entry(
                added,
                manifest,
                audit::encoded_digest(destination_json, i),
                reply_at(replies, i),
            );
            &&& after is Ok <==> before is Ok && entry is Ok
            &&& after is Ok && entry->Ok_0 is Some ==> after->Ok_0 == before->Ok_0.push(
                entry->Ok_0->0,
            )
            &&& after is Ok && entry->Ok_0 is None ==> after->Ok_0 == before->Ok_0
        }),
{
    assert(replacements.push(added).drop_last() =~= replacements);
}

/// Historical originals are looked for exactly in a document of schema five, of ten assets, two
/// retirements and five references, both of whose retirements have just confirmed the deletion.
pub proof fn history_is_asked_once_both_deletions_are_confirmed(
    document: EvidenceDocument,
    manifest: Manifest,
)
    ensures
        historical_document_refusal(document, manifest) is None <==> {
            &&& document.schema_version == 5
            &&& document.retired_replacements@.len() == 2
            &&& document.assets@.len() == 10
            &&& document.reference_normalizations@.len() == 5
            &&& plan::replacement_phase(
                manifest,
                document.retired_replacements@[0].asset_id@,
            ) == Ok::<Option<LegacyUploadMigrationPhase>, Seq<char>>(
                Some(LegacyUploadMigrationPhase::DeleteConfirmed),
            )
            &&& plan::replacement_phase(
                manifest,
                document.retired_replacements@[1].asset_id@,
            ) == Ok::<Option<LegacyUploadMigrationPhase>, Seq<char>>(
                Some(LegacyUploadMigrationPhase::DeleteConfirmed),
            )
        },
{
}

/// What is wrong with a historical original is told by its name.
pub proof fn faults_of_a_historical_original_are_named(
    replacement: EvidenceRetiredReplacement,
    manifest: Manifest,
    destination_sha256: Option<Seq<char>>,
)
    ensures
        ({
            let record = manifest.record(replacement.asset_id@)->0;
            let stored = record.original_asset->0;
            let fields = canonicalization::destination_fields(stored.json@);
            let journal = record.valid_journal()->0;
            let listed = manifest.record(replacement.asset_id@) is Some;
            let kept = record.original_asset is Some;
            let readable = fields is Ok;
            let unplaced = !fields->Ok_0;
            let sealed = digest::sha256_hex(stored.json@)
                == replacement.original_asset_identity_sha256@;
            let migrating = record.valid_journal() is Some;
            let prepared = journal_prepared_for(replacement, journal);
            let placed = destination_sha256 is Some;
            let confirmed = destination_sha256->0 == replacement.destination_sha256@
                && journal.last_phase() == Some(LegacyUploadMigrationPhase::DeleteConfirmed)
                && stored.decoded is Some && original_named(replacement, stored.decoded->0);
            let told = historical(replacement, manifest, destination_sha256);
            &&& !listed
                ==> told == Err::<Option<HistoricalView>, Seq<char>>("original_canonicalization"@)
            &&& listed && !kept ==> told == Err::<Option<HistoricalView>, Seq<char>>("proof_missing"@)
            &&& listed && kept && !readable
                ==> told == Err::<Option<HistoricalView>, Seq<char>>(fields->Err_0)
            &&& listed && kept && readable && !unplaced ==> told is Ok && told->Ok_0 is None
            &&& listed && kept && readable && unplaced && !sealed
                ==> told == Err::<Option<HistoricalView>, Seq<char>>("original_canonicalization"@)
            &&& listed && kept && readable && unplaced && sealed && !migrating
                ==> told == Err::<Option<HistoricalView>, Seq<char>>("original_canonicalization"@)
            &&& listed && kept && readable && unplaced && sealed && migrating && !prepared
                ==> told == Err::<Option<HistoricalView>, Seq<char>>("original_canonicalization"@)
            &&& listed && kept && readable && unplaced && sealed && migrating && prepared
                && !placed ==> told == Err::<Option<HistoricalView>, Seq<char>>("proof_lineage"@)
            &&& listed && kept && readable && unplaced && sealed && migrating && prepared
                && placed && !confirmed
                ==> told == Err::<Option<HistoricalView>, Seq<char>>("original_canonicalization"@)
        }),
{
}

/// What keeps history from being asked is told by its name.
pub proof fn faults_of_a_historical_document_are_named(
    document: EvidenceDocument,
    manifest: Manifest,
)
    ensures
        ({
            let phase = plan::cohort_phase(document, manifest);
            let counted = document.schema_version == 5 && document.retired_replacements@.len() == 2
                && document.assets@.len() == 10 && document.reference_normalizations@.len() == 5;
            let coherent = phase is Ok;
            let confirmed = phase->Ok_0 == Some(LegacyUploadMigrationPhase::DeleteConfirmed);
            let told = historical_document_refusal(document, manifest);
            &&& !counted ==> told == Some("evidence_count"@)
            &&& counted && !coherent ==> told == Some(phase->Err_0)
            &&& counted && coherent && !confirmed ==> told == Some("recovery_phase"@)
        }),
{
}

/// The answer about a retirement is the one at its place, and there being none is a fault of its
/// own.
pub proof fn answers_go_by_their_place(
    replies: Seq<Result<CloudKitActiveAssetValidation, LegacyUploadEvidenceError>>,
    i: int,
)
    requires
        0 <= i,
    ensures
        i < replies.len() && replies[i] is Ok ==> reply_at(replies, i) == Ok::<
            CloudKitActiveAssetValidation,
            Seq<char>,
        >(replies[i]->Ok_0),
        i < replies.len() && replies[i] is Err ==> reply_at(replies, i) == Err::<
            CloudKitActiveAssetValidation,
            Seq<char>,
        >(replies[i]->Err_0@),
        i >= replies.len() ==> reply_at(replies, i) == Err::<
            CloudKitActiveAssetValidation,
            Seq<char>,
        >("original_remote_state"@),
{
}

} // verus!
