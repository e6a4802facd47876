use vstd::prelude::*;
use vstd::string::*;

use crate::cloudkit::{CloudKitActiveAssetLookupMode, CloudKitActiveAssetRemoteState};
use crate::digest;
use crate::digest::sha256_bytes;
use crate::document;
use crate::document::{
    is_retired, EvidenceDestination, EvidenceDocument, EvidenceRetiredReplacement,
    RETIRED_REPLACEMENT_COUNT,
};
use crate::error;
use crate::error::{failure, LegacyUploadEvidenceError, Outcome};
use crate::identity;
use crate::identity::is_digest;
use crate::json;
use crate::json::{insert_text, object_members};
use crate::manifest::{copy_of, Manifest, OriginalAssetProof, StoredProof};
use crate::order;
use crate::order::InOrder;
use crate::text;
use crate::text::{same_text, text_before};

verus! {

/// A sealed statement of where a historical original lives, for a proof that was stored before
/// the destination became part of it.
#[derive(Debug, PartialEq, Eq)]
pub struct OriginalDestinationCanonicalization {
    pub asset_id: String,
    pub original_asset_identity_sha256: String,
    pub destination_sha256: String,
    pub canonical_original_asset_sha256: String,
    pub delete_confirmed_entry_sha256: String,
    pub remote_state: CloudKitActiveAssetRemoteState,
    pub lookup_mode: CloudKitActiveAssetLookupMode,
}

impl Clone for OriginalDestinationCanonicalization {
    fn clone(&self) -> (r: Self)
        ensures
            r == *self,
    {
        OriginalDestinationCanonicalization {
            asset_id: self.asset_id.clone(),
            original_asset_identity_sha256: self.original_asset_identity_sha256.clone(),
            destination_sha256: self.destination_sha256.clone(),
            canonical_original_asset_sha256: self.canonical_original_asset_sha256.clone(),
            delete_confirmed_entry_sha256: self.delete_confirmed_entry_sha256.clone(),
            remote_state: self.remote_state,
            lookup_mode: self.lookup_mode,
        }
    }
}

impl InOrder for OriginalDestinationCanonicalization {
    open spec fn not_after(self, other: Self) -> bool {
        !text::before(other.asset_id@, self.asset_id@)
    }

    fn is_not_after(&self, other: &Self) -> (r: bool) {
        !text_before(&other.asset_id, &self.asset_id)
    }
}

/// Canonicalizations can be put in the order of their assets.
pub proof fn canonicalizations_are_orderly()
    ensures
        crate::order::orderly::<OriginalDestinationCanonicalization>(),
{
    assert forall|
        a: OriginalDestinationCanonicalization,
        b: OriginalDestinationCanonicalization,
    | #[trigger] a.not_after(b) || b.not_after(a) by {
        if text::before(a.asset_id@, b.asset_id@) && text::before(b.asset_id@, a.asset_id@) {
            text::before_is_transitive(a.asset_id@, b.asset_id@, a.asset_id@);
            text::before_is_irreflexive(a.asset_id@);
        }
    }
    assert forall|
        a: OriginalDestinationCanonicalization,
        b: OriginalDestinationCanonicalization,
        c: OriginalDestinationCanonicalization,
    | #[trigger] a.not_after(b) && #[trigger] b.not_after(c) implies a.not_after(c) by {
        text::not_before_is_transitive(a.asset_id@, b.asset_id@, c.asset_id@);
    }
}

/// What the presence of the two destination members says of a stored original: both are there,
/// neither is, or the proof is refused.
pub open spec fn fields_presence(scope: bool, zone: bool) -> Outcome<bool> {
    if scope == zone {
        Ok(scope)
    } else {
        Err("proof_lineage"@)
    }
}

/// Whether a stored original names its destination.
pub open spec fn destination_fields(json: Seq<u8>) -> Outcome<bool> {
    match json::json_members(json) {
        None => Err("proof_lineage"@),
        Some(names) => fields_presence(
            names.contains("database_scope"@),
            names.contains("zone_name"@),
        ),
    }
}

/// Decides from the presence of the two destination members.
pub fn destination_fields_presence(scope: bool, zone: bool) -> (r: Result<
    bool,
    LegacyUploadEvidenceError,
>)
    ensures
        error::answers(r, fields_presence(scope, zone)),
{
    if scope == zone {
        Ok(scope)
    } else {
        Err(failure("proof_lineage"))
    }
}

fn has_text(names: &Vec<String>, name: &str) -> (r: bool)
    ensures
        r == json::texts(names@).contains(name@),
{
    let mut i: usize = 0;
    while i < names.len()
        invariant
            i <= names@.len(),
            forall|j: int| 0 <= j < i ==> json::texts(names@)[j] != name@,
        decreases names@.len() - i,
    {
        if same_text(&names[i], name) {
            assert(json::texts(names@)[i as int] == name@);
            return true;
        }
        i += 1;
    }
    false
}

/// Whether a stored original names its destination. One that names it by half, or is no JSON
/// object, is refused as `proof_lineage`.
pub fn original_asset_proof_destination_fields(json: &[u8]) -> (r: Result<
    bool,
    LegacyUploadEvidenceError,
>)
    ensures
        error::answers(r, destination_fields(json@)),
{
    match object_members(json) {
        None => Err(failure("proof_lineage")),
        Some(names) => destination_fields_presence(
            has_text(&names, "database_scope"),
            has_text(&names, "zone_name"),
        ),
    }
}

/// The first canonicalization of an asset, from the given place on.
pub open spec fn find_canonicalization(
    entries: Seq<OriginalDestinationCanonicalization>,
    id: Seq<char>,
    from: int,
) -> Option<OriginalDestinationCanonicalization>
    decreases entries.len() - from,
{
    if from < 0 || from >= entries.len() {
        None
    } else if entries[from].asset_id@ == id {
        Some(entries[from])
    } else {
        find_canonicalization(entries, id, from + 1)
    }
}

pub fn canonicalization_of<'a>(
    entries: &'a [OriginalDestinationCanonicalization],
    id: &str,
) -> (r: Option<&'a OriginalDestinationCanonicalization>)
    ensures
        match r {
            Some(entry) => find_canonicalization(entries@, id@, 0) == Some(*entry),
            None => find_canonicalization(entries@, id@, 0) is None,
        },
{
    let mut i: usize = 0;
    while i < entries.len()
        invariant
            i <= entries@.len(),
            find_canonicalization(entries@, id@, 0) == find_canonicalization(
                entries@,
                id@,
                i as int,
            ),
        decreases entries@.len() - i,
    {
        if same_text(&entries[i].asset_id, id) {
            return Some(&entries[i]);
        }
        i += 1;
    }
    None
}

/// The stored JSON of an original with its destination written into it.
pub open spec fn canonical_json(json: Seq<u8>, destination: EvidenceDestination) -> Option<
    Seq<u8>,
> {
    match json::json_with_text(json, "database_scope"@, destination.database_scope.name()) {
        None => None,
        Some(scoped) => json::json_with_text(scoped, "zone_name"@, destination.zone_name@),
    }
}

/// The original that the JSON with its destination written into it decodes to.
pub open spec fn placed_original(
    original: OriginalAssetProof,
    destination: EvidenceDestination,
) -> OriginalAssetProof {
    OriginalAssetProof {
        database_scope: destination.database_scope,
        zone_name: destination.zone_name,
        ..original
    }
}

pub(crate) fn write_destination(json: &[u8], destination: &EvidenceDestination) -> (r: Option<Vec<u8>>)
    ensures
        match r {
            Some(bytes) => canonical_json(json@, *destination) == Some(bytes@),
            None => canonical_json(json@, *destination) is None,
        },
        r is Some <==> json::json_members(json@) is Some,
        r matches Some(bytes) ==> destination_fields(bytes@) == Ok::<bool, Seq<char>>(true),
{
    match insert_text(json, "database_scope", destination.database_scope.as_str()) {
        None => None,
        Some(scoped) => {
            let r = insert_text(&scoped, "zone_name", &destination.zone_name);
            proof {
                let names = json::json_members(scoped@)->0;
                assert(names.contains("database_scope"@));
            }
            r
        },
    }
}

pub(crate) fn place_original(original: &OriginalAssetProof, destination: &EvidenceDestination) -> (r:
    OriginalAssetProof)
    ensures
        r == placed_original(*original, *destination),
{
    OriginalAssetProof {
        record_name: original.record_name.clone(),
        record_change_tag: original.record_change_tag.clone(),
        database_scope: destination.database_scope,
        zone_name: destination.zone_name.clone(),
        owner_record_name: copy_of(&original.owner_record_name),
        matched_raw_sha256: original.matched_raw_sha256.clone(),
        size_bytes: original.size_bytes,
        filename: original.filename.clone(),
    }
}

/// The original that a stored proof stands for. Its JSON is the one that the evidence sealed; a
/// proof that does not name its destination needs the canonicalization that seals where the
/// original lives.
pub open spec fn validated_original(
    evidence: EvidenceRetiredReplacement,
    stored: StoredProof<OriginalAssetProof>,
    canonicalizations: Seq<OriginalDestinationCanonicalization>,
    category: Seq<char>,
) -> Outcome<OriginalAssetProof> {
    if digest::sha256_hex(stored.json@) != evidence.original_asset_identity_sha256@ {
        Err(category)
    } else {
        match destination_fields(stored.json@) {
            Err(refused) => Err(refused),
            Ok(true) => match stored.decoded {
                None => Err(category),
                Some(original) => Ok(original),
            },
            Ok(false) => match find_canonicalization(canonicalizations, evidence.asset_id@, 0) {
                None => Err("original_canonicalization"@),
                Some(entry) => {
                    let canonical = canonical_json(stored.json@, evidence.destination);
                    if {
                        &&& entry.original_asset_identity_sha256@
                            == evidence.original_asset_identity_sha256@
                        &&& entry.destination_sha256@ == evidence.destination_sha256@
                        &&& entry.remote_state == evidence.original_remote_state
                        &&& entry.lookup_mode == evidence.original_state_lookup_mode
                        &&& stored.decoded is Some
                        &&& canonical matches Some(bytes) && digest::sha256_hex(bytes)
                            == entry.canonical_original_asset_sha256@
                    } {
                        Ok(placed_original(stored.decoded->0, evidence.destination))
                    } else {
                        Err("original_canonicalization"@)
                    }
                },
            },
        }
    }
}

/// The original that a stored proof stands for.
pub fn original_asset_proof_for_validation(
    evidence: &EvidenceRetiredReplacement,
    stored: &StoredProof<OriginalAssetProof>,
    canonicalizations: &[OriginalDestinationCanonicalization],
    category: &'static str,
) -> (r: Result<OriginalAssetProof, LegacyUploadEvidenceError>)
    ensures
        error::answers(
            r,
            validated_original(*evidence, *stored, canonicalizations@, category@),
        ),
{
    if !same_text(&sha256_bytes(&stored.json), &evidence.original_asset_identity_sha256) {
        return Err(failure(category));
    }
    let named: bool = match original_asset_proof_destination_fields(&stored.json) {
        Err(error) => {
            return Err(error);
        },
        Ok(named) => named,
    };
    if named {
        return match &stored.decoded {
            None => Err(failure(category)),
            Some(original) => Ok(original.clone()),
        };
    }
    match canonicalization_of(canonicalizations, &evidence.asset_id) {
        None => Err(failure("original_canonicalization")),
        Some(entry) => {
            if !same_text(
                &entry.original_asset_identity_sha256,
                &evidence.original_asset_identity_sha256,
            ) || !same_text(&entry.destination_sha256, &evidence.destination_sha256)
                || entry.remote_state != evidence.original_remote_state || entry.lookup_mode
                != evidence.original_state_lookup_mode {
                return Err(failure("original_canonicalization"));
            }
            match (&stored.decoded, write_destination(&stored.json, &evidence.destination)) {
                (Some(original), Some(bytes)) => if same_text(
                    &sha256_bytes(&bytes),
                    &entry.canonical_original_asset_sha256,
                ) {
                    Ok(place_original(original, &evidence.destination))
                } else {
                    Err(failure("original_canonicalization"))
                },
                _ => Err(failure("original_canonicalization")),
            }
        },
    }
}

/// A canonicalization that may stand in a receipt.
pub open spec fn entry_sound(entry: OriginalDestinationCanonicalization) -> bool {
    &&& identity::digest_text(entry.original_asset_identity_sha256@)
    &&& identity::digest_text(entry.destination_sha256@)
    &&& identity::digest_text(entry.canonical_original_asset_sha256@)
    &&& identity::digest_text(entry.delete_confirmed_entry_sha256@)
    &&& entry.lookup_mode is FullFields
}

/// Canonicalizations that may stand in a receipt: at most one for each retired replacement, in
/// strictly ascending order of their assets.
pub open spec fn entries_sound(entries: Seq<OriginalDestinationCanonicalization>) -> bool {
    &&& entries.len() <= RETIRED_REPLACEMENT_COUNT
    &&& forall|i: int, j: int|
        0 <= i < entries.len() && j == i + 1 && j < entries.len() ==> text::before(
            (#[trigger] entries[i]).asset_id@,
            (#[trigger] entries[j]).asset_id@,
        )
    &&& forall|i: int| 0 <= i < entries.len() ==> entry_sound(#[trigger] entries[i])
}

/// The category under which one replacement refuses the canonicalizations: it has one exactly
/// where its stored original does not name its destination.
pub open spec fn replacement_canonicalization_refusal(
    replacement: EvidenceRetiredReplacement,
    manifest: Manifest,
    entries: Seq<OriginalDestinationCanonicalization>,
) -> Option<Seq<char>> {
    match manifest.record(replacement.asset_id@) {
        None => Some("original_canonicalization"@),
        Some(record) => match record.original_asset {
            None => Some("proof_missing"@),
            Some(stored) => match destination_fields(stored.json@) {
                Err(category) => Some(category),
                Ok(named) => if named == (find_canonicalization(
                    entries,
                    replacement.asset_id@,
                    0,
                ) is Some) {
                    Some("original_canonicalization"@)
                } else {
                    None
                },
            },
        },
    }
}

/// The first refusal among the replacements, from the given place on.
pub open spec fn canonicalization_refusal_from(
    replacements: Seq<EvidenceRetiredReplacement>,
    manifest: Manifest,
    entries: Seq<OriginalDestinationCanonicalization>,
    from: int,
) -> Option<Seq<char>>
    decreases replacements.len() - from,
{
    if from < 0 || from >= replacements.len() {
        None
    } else {
        match replacement_canonicalization_refusal(replacements[from], manifest, entries) {
            Some(category) => Some(category),
            None => canonicalization_refusal_from(replacements, manifest, entries, from + 1),
        }
    }
}

/// The category under which a set of canonicalizations is refused, or nothing where it stands.
pub open spec fn canonicalization_set_refusal(
    document: EvidenceDocument,
    manifest: Manifest,
    entries: Seq<OriginalDestinationCanonicalization>,
) -> Option<Seq<char>> {
    if !entries_sound(entries) {
        Some("original_canonicalization"@)
    } else {
        match canonicalization_refusal_from(
            document.retired_replacements@,
            manifest,
            entries,
            0,
        ) {
            Some(category) => Some(category),
            None => if forall|i: int|
                0 <= i < entries.len() ==> document::retires(
                    document.retired_replacements@,
                    (#[trigger] entries[i]).asset_id@,
                ) {
                None
            } else {
                Some("original_canonicalization"@)
            },
        }
    }
}

fn are_entries_sound(entries: &[OriginalDestinationCanonicalization]) -> (r: bool)
    ensures
        r == entries_sound(entries@),
{
    if entries.len() > RETIRED_REPLACEMENT_COUNT {
        return false;
    }
    let mut i: usize = 0;
    while i < entries.len()
        invariant
            i <= entries@.len(),
            forall|a: int, b: int|
                0 <= a < i && b == a + 1 && b < i ==> text::before(
                    (#[trigger] entries@[a]).asset_id@,
                    (#[trigger] entries@[b]).asset_id@,
                ),
            forall|a: int| 0 <= a < i ==> entry_sound(#[trigger] entries@[a]),
        decreases entries@.len() - i,
    {
        let entry = &entries[i];
        if i > 0 && !text_before(&entries[i - 1].asset_id, &entry.asset_id) {
            assert(!text::before(entries@[i - 1].asset_id@, entries@[i as int].asset_id@));
            return false;
        }
        let full: bool = match entry.lookup_mode {
            CloudKitActiveAssetLookupMode::FullFields => true,
        };
        if !is_digest(&entry.original_asset_identity_sha256) || !is_digest(
            &entry.destination_sha256,
        ) || !is_digest(&entry.canonical_original_asset_sha256) || !is_digest(
            &entry.delete_confirmed_entry_sha256,
        ) || !full {
            assert(!entry_sound(entries@[i as int]));
            return false;
        }
        i += 1;
    }
    true
}

/// Accepts canonicalizations that are sound, that belong to the replacements of the document, and
/// that stand exactly for the originals that do not name their destination.
pub fn validate_recovery_canonicalization_set(
    document: &EvidenceDocument,
    manifest: &Manifest,
    canonicalizations: &[OriginalDestinationCanonicalization],
) -> (r: Result<(), LegacyUploadEvidenceError>)
    ensures
        error::refused_as(
            r,
            canonicalization_set_refusal(*document, *manifest, canonicalizations@),
        ),
{
    if !are_entries_sound(canonicalizations) {
        return Err(failure("original_canonicalization"));
    }
    let replacements = &document.retired_replacements;
    let mut i: usize = 0;
    while i < replacements.len()
        invariant
            i <= replacements@.len(),
            replacements@ == document.retired_replacements@,
            entries_sound(canonicalizations@),
            canonicalization_refusal_from(replacements@, *manifest, canonicalizations@, 0)
                == canonicalization_refusal_from(
                replacements@,
                *manifest,
                canonicalizations@,
                i as int,
            ),
        decreases replacements@.len() - i,
    {
        let replacement = &replacements[i];
        match manifest.get(&replacement.asset_id) {
            None => {
                return Err(failure("original_canonicalization"));
            },
            Some(record) => match &record.original_asset {
                None => {
                    return Err(failure("proof_missing"));
                },
                Some(stored) => match original_asset_proof_destination_fields(&stored.json) {
                    Err(error) => {
                        return Err(error);
                    },
                    Ok(named) => {
                        if named == canonicalization_of(
                            canonicalizations,
                            &replacement.asset_id,
                        ).is_some() {
                            return Err(failure("original_canonicalization"));
                        }
                    },
                },
            },
        }
        i += 1;
    }
    let mut k: usize = 0;
    while k < canonicalizations.len()
        invariant
            k <= canonicalizations@.len(),
            entries_sound(canonicalizations@),
            canonicalization_refusal_from(
                document.retired_replacements@,
                *manifest,
                canonicalizations@,
                0,
            ) is None,
            forall|a: int|
                0 <= a < k ==> document::retires(
                    document.retired_replacements@,
                    (#[trigger] canonicalizations@[a]).asset_id@,
                ),
        decreases canonicalizations@.len() - k,
    {
        if !is_retired(&document.retired_replacements, &canonicalizations[k].asset_id) {
            assert(!document::retires(
                document.retired_replacements@,
                canonicalizations@[k as int].asset_id@,
            ));
            return Err(failure("original_canonicalization"));
        }
        k += 1;
    }
    Ok(())
}

/// The destination of an original is known exactly if both its scope and its zone are written down,
/// unknown if neither is, and refused if only one is.
pub proof fn destinations_are_written_whole_or_not_at_all(
    json: Seq<u8>,
    names: Seq<Seq<char>>,
)
    requires
        json::json_members(json) == Some(names),
    ensures
        names.contains("database_scope"@) && names.contains("zone_name"@) ==> destination_fields(
            json,
        ) == Ok::<bool, Seq<char>>(true),
        !names.contains("database_scope"@) && !names.contains("zone_name"@)
            ==> destination_fields(json) == Ok::<bool, Seq<char>>(false),
        names.contains("database_scope"@) != names.contains("zone_name"@)
            ==> destination_fields(json) is Err,
{
}

/// The canonicalization of an asset is the one entry of its id.
pub proof fn canonicalizations_are_found_by_their_asset(
    entries: Seq<OriginalDestinationCanonicalization>,
    id: Seq<char>,
    i: int,
)
    requires
        0 <= i < entries.len(),
        forall|j: int| 0 <= j < entries.len() && j != i ==> (#[trigger] entries[j]).asset_id@ != id,
    ensures
        find_canonicalization(entries, id, 0) == (if entries[i].asset_id@ == id {
            Some(entries[i])
        } else {
            None
        }),
{
    canonicalization_found_from(entries, id, i, 0);
}

proof fn canonicalization_found_from(
    entries: Seq<OriginalDestinationCanonicalization>,
    id: Seq<char>,
    i: int,
    from: int,
)
    requires
        0 <= i < entries.len(),
        0 <= from <= entries.len(),
        forall|j: int| 0 <= j < entries.len() && j != i ==> (#[trigger] entries[j]).asset_id@ != id,
    ensures
        find_canonicalization(entries, id, from) == (if from <= i && entries[i].asset_id@ == id {
            Some(entries[i])
        } else {
            None
        }),
    decreases entries.len() - from,
{
    if from < entries.len() {
        canonicalization_found_from(entries, id, i, from + 1);
    }
}

/// An original whose destination is written down is taken as it is, if it is the one that the
/// evidence seals and can be decoded; canonicalizations make no difference to it.
pub proof fn placed_originals_are_taken_as_they_are(
    evidence: EvidenceRetiredReplacement,
    stored: StoredProof<OriginalAssetProof>,
    canonicalizations: Seq<OriginalDestinationCanonicalization>,
    category: Seq<char>,
)
    requires
        destination_fields(stored.json@) == Ok::<bool, Seq<char>>(true),
    ensures
        validated_original(evidence, stored, canonicalizations, category) is Ok
            <==> digest::sha256_hex(stored.json@) == evidence.original_asset_identity_sha256@
            && stored.decoded is Some,
        validated_original(evidence, stored, canonicalizations, category) is Ok
            ==> validated_original(evidence, stored, canonicalizations, category)->Ok_0
            == stored.decoded->0,
        validated_original(evidence, stored, canonicalizations, category) is Err
            ==> validated_original(evidence, stored, canonicalizations, category)->Err_0
            == category,
{
}

/// An original whose destination is not written down is taken with the destination of the evidence,
/// and all else as it is, exactly if a canonicalization of its asset agrees with the evidence and
/// seals the original with that destination written in.
pub proof fn unplaced_originals_need_a_canonicalization(
    evidence: EvidenceRetiredReplacement,
    stored: StoredProof<OriginalAssetProof>,
    canonicalizations: Seq<OriginalDestinationCanonicalization>,
    category: Seq<char>,
    entry: OriginalDestinationCanonicalization,
)
    requires
        destination_fields(stored.json@) == Ok::<bool, Seq<char>>(false),
        find_canonicalization(canonicalizations, evidence.asset_id@, 0) == Some(entry),
    ensures
        validated_original(evidence, stored, canonicalizations, category) is Ok <==> {
            let scoped = json::json_with_text(
                stored.json@,
                "database_scope"@,
                evidence.destination.database_scope.name(),
            );
            let placed = json::json_with_text(
                scoped->0,
                "zone_name"@,
                evidence.destination.zone_name@,
            );
            &&& digest::sha256_hex(stored.json@) == evidence.original_asset_identity_sha256@
            &&& stored.decoded is Some
            &&& entry.original_asset_identity_sha256@ == evidence.original_asset_identity_sha256@
            &&& entry.destination_sha256@ == evidence.destination_sha256@
            &&& entry.remote_state == evidence.original_remote_state
            &&& entry.lookup_mode == evidence.original_state_lookup_mode
            &&& scoped is Some
            &&& placed is Some
            &&& digest::sha256_hex(placed->0) == entry.canonical_original_asset_sha256@
        },
        validated_original(evidence, stored, canonicalizations, category) is Ok ==> {
            let original = validated_original(
                evidence,
                stored,
                canonicalizations,
                category,
            )->Ok_0;
            &&& original.database_scope == evidence.destination.database_scope
            &&& original.zone_name == evidence.destination.zone_name
            &&& original.record_name == stored.decoded->0.record_name
            &&& original.record_change_tag == stored.decoded->0.record_change_tag
            &&& original.owner_record_name == stored.decoded->0.owner_record_name
            &&& original.filename == stored.decoded->0.filename
            &&& original.size_bytes == stored.decoded->0.size_bytes
            &&& original.matched_raw_sha256 == stored.decoded->0.matched_raw_sha256
        },
{
}

/// Canonicalizations are sound exactly if there are at most two, of different assets in ascending
/// order, each made of digests and looked up with all its fields.
pub proof fn at_most_two_canonicalizations_are_sound(
    entries: Seq<OriginalDestinationCanonicalization>,
)
    requires
        entries_sound(entries),
    ensures
        entries.len() <= 2,
        entries.len() == 2 ==> text::before(entries[0].asset_id@, entries[1].asset_id@),
        forall|i: int|
            0 <= i < entries.len() ==> {
                &&& (#[trigger] entries[i]).lookup_mode is FullFields
                &&& identity::digest_text(entries[i].original_asset_identity_sha256@)
                &&& identity::digest_text(entries[i].destination_sha256@)
                &&& identity::digest_text(entries[i].canonical_original_asset_sha256@)
                &&& identity::digest_text(entries[i].delete_confirmed_entry_sha256@)
            },
{
}

/// One or two canonicalizations, of digests and looked up with all their fields, are sound if they
/// are of different assets in ascending order; so is having none.
pub proof fn up_to_two_ordered_canonicalizations_are_sound(
    a: OriginalDestinationCanonicalization,
    b: OriginalDestinationCanonicalization,
)
    requires
        a.lookup_mode is FullFields,
        identity::digest_text(a.original_asset_identity_sha256@),
        identity::digest_text(a.destination_sha256@),
        identity::digest_text(a.canonical_original_asset_sha256@),
        identity::digest_text(a.delete_confirmed_entry_sha256@),
        b.lookup_mode is FullFields,
        identity::digest_text(b.original_asset_identity_sha256@),
        identity::digest_text(b.destination_sha256@),
        identity::digest_text(b.canonical_original_asset_sha256@),
        identity::digest_text(b.delete_confirmed_entry_sha256@),
        text::before(a.asset_id@, b.asset_id@),
    ensures
        entries_sound(Seq::empty()),
        entries_sound(seq![a]),
        entries_sound(seq![b]),
        entries_sound(seq![a, b]),
{
}

proof fn canonicalized_from(
    replacements: Seq<EvidenceRetiredReplacement>,
    manifest: Manifest,
    entries: Seq<OriginalDestinationCanonicalization>,
    from: int,
)
    requires
        0 <= from <= replacements.len(),
    ensures
        canonicalization_refusal_from(replacements, manifest, entries, from) is None
            <==> forall|i: int|
            from <= i < replacements.len() ==> replacement_canonicalization_refusal(
                #[trigger] replacements[i],
                manifest,
                entries,
            ) is None,
    decreases replacements.len() - from,
{
    if from < replacements.len() {
        canonicalized_from(replacements, manifest, entries, from + 1);
    }
}

/// A set of canonicalizations is accepted exactly if it is sound, every entry is of a retired
/// upload, and a retired upload has an entry exactly where its original lacks its destination.
pub proof fn originals_are_canonicalized_where_needed(
    document: EvidenceDocument,
    manifest: Manifest,
    entries: Seq<OriginalDestinationCanonicalization>,
)
    ensures
        canonicalization_set_refusal(document, manifest, entries) is None <==> {
            &&& entries_sound(entries)
            &&& forall|i: int|
                0 <= i < entries.len() ==> document::retires(
                    document.retired_replacements@,
                    (#[trigger] entries[i]).asset_id@,
                )
            &&& forall|i: int|
                0 <= i < document.retired_replacements@.len() ==> needs_met(
                    #[trigger] document.retired_replacements@[i],
                    manifest,
                    entries,
                )
        },
{
    let replacements = document.retired_replacements@;
    canonicalized_from(replacements, manifest, entries, 0);
    assert forall|i: int| 0 <= i < replacements.len() implies (needs_met(
        #[trigger] replacements[i],
        manifest,
        entries,
    ) <==> replacement_canonicalization_refusal(replacements[i], manifest, entries) is None) by {}
}

/// Whether the original of that upload is stored, and lacks its destination exactly if it has a
/// canonicalization.
pub open spec fn needs_met(
    replacement: EvidenceRetiredReplacement,
    manifest: Manifest,
    entries: Seq<OriginalDestinationCanonicalization>,
) -> bool {
    let found = find_canonicalization(entries, replacement.asset_id@, 0);
    &&& manifest.record(replacement.asset_id@) matches Some(record)
    &&& record.original_asset matches Some(stored)
    &&& json::json_members(stored.json@) matches Some(names)
    &&& names.contains("database_scope"@) == names.contains("zone_name"@)
    &&& names.contains("database_scope"@) == (found is None)
}

/// What is wrong with the canonicalization of one retirement is told by its name.
pub proof fn faults_of_a_canonicalization_are_named(
    replacement: EvidenceRetiredReplacement,
    manifest: Manifest,
    entries: Seq<OriginalDestinationCanonicalization>,
)
    ensures
        ({
            let record = manifest.record(replacement.asset_id@)->0;
            let fields = destination_fields(record.original_asset->0.json@);
            let found = find_canonicalization(entries, replacement.asset_id@, 0) is Some;
            let listed = manifest.record(replacement.asset_id@) is Some;
            let stored = record.original_asset is Some;
            let readable = fields is Ok;
            let needed = fields->Ok_0 != found;
            let told = replacement_canonicalization_refusal(replacement, manifest, entries);
            &&& !listed ==> told == Some("original_canonicalization"@)
            &&& listed && !stored ==> told == Some("proof_missing"@)
            &&& listed && stored && !readable ==> told == Some(fields->Err_0)
            &&& listed && stored && readable && !needed
                ==> told == Some("original_canonicalization"@)
        }),
{
}

/// What is wrong with a set of canonicalizations is told by its name.
pub proof fn faults_of_a_canonicalization_set_are_named(
    document: EvidenceDocument,
    manifest: Manifest,
    entries: Seq<OriginalDestinationCanonicalization>,
)
    ensures
        ({
            let each = canonicalization_refusal_from(
                document.retired_replacements@,
                manifest,
                entries,
                0,
            );
            let sound = entries_sound(entries);
            let met = each is None;
            let retired = forall|i: int| 0 <= i < entries.len()
                ==> document::retires(
                    document.retired_replacements@,
                    (#[trigger] entries[i]).asset_id@,
                );
            let told = canonicalization_set_refusal(document, manifest, entries);
            &&& !sound ==> told == Some("original_canonicalization"@)
            &&& sound && !met ==> told == each
            &&& sound && met && !retired ==> told == Some("original_canonicalization"@)
        }),
{
}

/// What is wrong with an original is told by its name: the given one where it is not the sealed
/// original or cannot be decoded, the lineage where its destination is written down in part, and the
/// canonicalization where that is missing or does not agree.
pub proof fn faults_of_an_original_are_named(
    evidence: EvidenceRetiredReplacement,
    stored: StoredProof<OriginalAssetProof>,
    canonicalizations: Seq<OriginalDestinationCanonicalization>,
    category: Seq<char>,
)
    ensures
        digest::sha256_hex(stored.json@) != evidence.original_asset_identity_sha256@
            ==> validated_original(evidence, stored, canonicalizations, category) == Err::<
            OriginalAssetProof,
            Seq<char>,
        >(category),
        digest::sha256_hex(stored.json@) == evidence.original_asset_identity_sha256@ ==> {
            let told = validated_original(evidence, stored, canonicalizations, category);
            let fields = destination_fields(stored.json@);
            &&& fields is Err ==> told == Err::<OriginalAssetProof, Seq<char>>("proof_lineage"@)
            &&& fields is Ok && !fields->Ok_0 && told is Err ==> told->Err_0
                == "original_canonicalization"@
            &&& fields is Ok && !fields->Ok_0 && find_canonicalization(
                canonicalizations,
                evidence.asset_id@,
                0,
            ) is None ==> told is Err
        },
{
}

} // verus!
