use vstd::prelude::*;
use vstd::string::*;

use crate::cloudkit::CloudKitDatabaseScope;
use crate::phase::{LegacyUploadMigrationPhase, State};
use crate::quarantine::LegacyUploadMigrationQuarantinePlan;
use crate::text;
use crate::text::{same_text, text_before};

verus! {

/// Proof that a RAW original lies on the NAS.
#[derive(Debug, PartialEq, Eq)]
pub struct NasRawProof {
    pub canonical_path: String,
    pub sha256: String,
    pub size_bytes: u64,
}

/// Proof of what a conversion wrote.
#[derive(Debug, PartialEq, Eq)]
pub struct ConversionResultProof {
    pub heic_path: String,
    pub heic_sha256: String,
    pub size_bytes: u64,
}

/// Proof that a converted HEIC was checked.
#[derive(Debug, PartialEq, Eq)]
pub struct HeicVerificationProof {
    pub heic_path: String,
    pub heic_sha256: String,
    pub size_bytes: u64,
    pub heif_info_ok: bool,
    pub metadata_copied: bool,
    pub visual_content_ok: bool,
    pub visual_match_ok: bool,
}

impl HeicVerificationProof {
    /// Every check of the HEIC succeeded.
    pub open spec fn sound(self) -> bool {
        self.heif_info_ok && self.metadata_copied && self.visual_content_ok && self.visual_match_ok
    }

    pub fn is_sound(&self) -> (r: bool)
        ensures
            r == self.sound(),
    {
        self.heif_info_ok && self.metadata_copied && self.visual_content_ok && self.visual_match_ok
    }
}

/// Proof that a HEIC was uploaded.
#[derive(Debug, PartialEq, Eq)]
pub struct UploadProof {
    pub uploaded_heic_asset_id: String,
    pub uploaded_heic_sha256: String,
    pub uploaded_heic_path: Option<String>,
    pub database_scope: CloudKitDatabaseScope,
    pub zone_name: String,
    pub owner_record_name: Option<String>,
}

/// Proof that an uploaded HEIC is mirrored where iCloudPD expects it.
#[derive(Debug, PartialEq, Eq)]
pub struct IcloudpdLocalMirrorProof {
    pub uploaded_heic_asset_id: String,
    pub uploaded_heic_sha256: String,
    pub uploaded_heic_path: String,
    pub icloudpd_download_path: String,
    pub size_bytes: u64,
}

/// Proof of which CloudKit record is the original.
#[derive(Debug, PartialEq, Eq)]
pub struct OriginalAssetProof {
    pub record_name: String,
    pub record_change_tag: String,
    pub database_scope: CloudKitDatabaseScope,
    pub zone_name: String,
    pub owner_record_name: Option<String>,
    pub matched_raw_sha256: String,
    pub size_bytes: u64,
    pub filename: String,
}

/// A second copy of an optional text.
pub fn copy_of(value: &Option<String>) -> (r: Option<String>)
    ensures
        r == *value,
{
    match value {
        Some(text) => Some(text.clone()),
        None => None,
    }
}

/// The characters of an optional text.
pub open spec fn optional_text(value: Option<String>) -> Option<Seq<char>> {
    match value {
        Some(text) => Some(text@),
        None => None,
    }
}

/// Whether two optional texts are both absent or hold the same characters.
pub fn same_optional_text(a: &Option<String>, b: &Option<String>) -> (r: bool)
    ensures
        r == (optional_text(*a) == optional_text(*b)),
{
    match (a, b) {
        (Some(x), Some(y)) => same_text(x, y),
        (None, None) => true,
        _ => false,
    }
}

impl Clone for OriginalAssetProof {
    fn clone(&self) -> (r: Self)
        ensures
            r == *self,
    {
        OriginalAssetProof {
            record_name: self.record_name.clone(),
            record_change_tag: self.record_change_tag.clone(),
            database_scope: self.database_scope,
            zone_name: self.zone_name.clone(),
            owner_record_name: copy_of(&self.owner_record_name),
            matched_raw_sha256: self.matched_raw_sha256.clone(),
            size_bytes: self.size_bytes,
            filename: self.filename.clone(),
        }
    }
}

/// A proof as a record stores it: the canonical JSON it is kept as, what that JSON decodes to,
/// and whether encoding the decoded value gives the stored JSON back.
#[derive(Debug, PartialEq, Eq)]
pub struct StoredProof<T> {
    pub json: Vec<u8>,
    pub decoded: Option<T>,
    pub canonical: bool,
}

/// What a stored proof decodes to, if it is there and decodes.
pub open spec fn decoded_proof<T>(stored: Option<StoredProof<T>>) -> Option<T> {
    match stored {
        Some(proof) => proof.decoded,
        None => None,
    }
}

/// What a stored proof decodes to, where encoding it again gives back what is stored.
pub open spec fn exact_proof<T>(stored: Option<StoredProof<T>>) -> Option<T> {
    match stored {
        Some(proof) => if proof.canonical {
            proof.decoded
        } else {
            None
        },
        None => None,
    }
}

pub fn decoded_of<T>(stored: &Option<StoredProof<T>>) -> (r: Option<&T>)
    ensures
        match r {
            Some(proof) => decoded_proof(*stored) == Some(*proof),
            None => decoded_proof(*stored) is None,
        },
{
    match stored {
        Some(proof) => match &proof.decoded {
            Some(value) => Some(value),
            None => None,
        },
        None => None,
    }
}

/// A stored proof, where what it decodes to encodes back to exactly what is stored.
pub fn canonical_proof<T>(stored: &Option<StoredProof<T>>) -> (r: Option<&T>)
    ensures
        match r {
            Some(proof) => exact_proof(*stored) == Some(*proof),
            None => exact_proof(*stored) is None,
        },
{
    match stored {
        Some(proof) => if proof.canonical {
            match &proof.decoded {
                Some(value) => Some(value),
                None => None,
            }
        } else {
            None
        },
        None => None,
    }
}

/// What a migration journal is about: one replacement of one cohort.
#[derive(Debug, PartialEq, Eq)]
pub struct LegacyUploadMigrationIdentity {
    pub migration_id: String,
    pub evidence_sha256: String,
    pub cohort_sha256: String,
    pub asset_id: String,
    pub source_record_sha256: String,
    pub old_uploaded_asset_id: String,
    pub old_uploaded_master_id: String,
    pub destination_sha256: String,
    pub original_asset_identity_sha256: String,
    pub old_conversion_lineage_sha256: String,
    pub old_upload_lineage_sha256: String,
    pub old_mirror_lineage_sha256: String,
    pub quarantine_plan: LegacyUploadMigrationQuarantinePlan,
}

/// One entry of a migration journal.
#[derive(Debug, PartialEq, Eq)]
pub struct LegacyUploadMigrationEntry {
    pub phase: LegacyUploadMigrationPhase,
    pub entry_sha256: String,
}

/// A migration journal whose chain of entries holds.
#[derive(Debug, PartialEq, Eq)]
pub struct LegacyUploadMigrationJournal {
    pub identity: LegacyUploadMigrationIdentity,
    pub entries: Vec<LegacyUploadMigrationEntry>,
}

impl LegacyUploadMigrationJournal {
    /// The phase of the last entry.
    pub open spec fn last_phase(self) -> Option<LegacyUploadMigrationPhase> {
        if self.entries@.len() == 0 {
            None
        } else {
            Some(self.entries@.last().phase)
        }
    }

    /// The journal has reached the reset of the record, or gone past it.
    pub open spec fn resumed(self) -> bool {
        match self.last_phase() {
            Some(phase) => phase.ordinal() >= LegacyUploadMigrationPhase::Reset.ordinal(),
            None => false,
        }
    }

    pub fn phase(&self) -> (r: Option<LegacyUploadMigrationPhase>)
        ensures
            r == self.last_phase(),
    {
        let n: usize = self.entries.len();
        if n == 0 {
            None
        } else {
            Some(self.entries[n - 1].phase)
        }
    }

    pub fn is_resumed(&self) -> (r: bool)
        ensures
            r == self.resumed(),
    {
        match self.phase() {
            Some(phase) => phase.index() >= LegacyUploadMigrationPhase::Reset.index(),
            None => false,
        }
    }
}

/// What a record stores under the name of the migration journal.
#[derive(Debug, PartialEq, Eq)]
pub enum JournalSlot {
    /// Nothing.
    Absent,
    /// Something that is no valid journal of the record.
    Invalid,
    /// A valid journal of the record.
    Valid(LegacyUploadMigrationJournal),
}

/// One asset of the optimizer's state.
#[derive(Debug, PartialEq, Eq)]
pub struct AssetRecord {
    pub asset_id: String,
    pub raw_path: String,
    pub state: State,
    /// The digest that seals the record, where it can be computed.
    pub record_sha256: Option<String>,
    pub nas: Option<StoredProof<NasRawProof>>,
    pub conversion: Option<StoredProof<ConversionResultProof>>,
    pub heic: Option<StoredProof<HeicVerificationProof>>,
    pub upload: Option<StoredProof<UploadProof>>,
    pub icloudpd_local_mirror: Option<StoredProof<IcloudpdLocalMirrorProof>>,
    pub original_asset: Option<StoredProof<OriginalAssetProof>>,
    /// Whether the record holds a proof that its uploaded HEIC was deleted.
    pub uploaded_heic_delete: bool,
    pub journal: JournalSlot,
}

impl AssetRecord {
    /// The record's journal, if it has a valid one.
    pub open spec fn valid_journal(self) -> Option<LegacyUploadMigrationJournal> {
        match self.journal {
            JournalSlot::Valid(journal) => Some(journal),
            _ => None,
        }
    }

    /// The journal has reached the reset of the record, or gone past it.
    pub open spec fn resumed(self) -> bool {
        match self.valid_journal() {
            Some(journal) => journal.resumed(),
            None => false,
        }
    }

    /// The path of the uploaded HEIC, where the upload proof decodes and names one.
    pub open spec fn uploaded_path(self) -> Option<Seq<char>> {
        match decoded_proof(self.upload) {
            Some(upload) => optional_text(upload.uploaded_heic_path),
            None => None,
        }
    }

    /// The path of the local mirror, where the mirror proof decodes.
    pub open spec fn mirror_path(self) -> Option<Seq<char>> {
        match decoded_proof(self.icloudpd_local_mirror) {
            Some(mirror) => Some(mirror.icloudpd_download_path@),
            None => None,
        }
    }

    pub fn journal_of(&self) -> (r: Option<&LegacyUploadMigrationJournal>)
        ensures
            match r {
                Some(journal) => self.valid_journal() == Some(*journal),
                None => self.valid_journal() is None,
            },
    {
        match &self.journal {
            JournalSlot::Valid(journal) => Some(journal),
            _ => None,
        }
    }

    pub fn has_journal(&self) -> (r: bool)
        ensures
            r == !(self.journal is Absent),
    {
        match &self.journal {
            JournalSlot::Absent => false,
            _ => true,
        }
    }

    pub fn is_resumed(&self) -> (r: bool)
        ensures
            r == self.resumed(),
    {
        match self.journal_of() {
            Some(journal) => journal.is_resumed(),
            None => false,
        }
    }

    pub fn uploaded_path_of(&self) -> (r: Option<&String>)
        ensures
            match r {
                Some(path) => self.uploaded_path() == Some(path@),
                None => self.uploaded_path() is None,
            },
    {
        match decoded_of(&self.upload) {
            Some(upload) => match &upload.uploaded_heic_path {
                Some(path) => Some(path),
                None => None,
            },
            None => None,
        }
    }

    pub fn mirror_path_of(&self) -> (r: Option<&String>)
        ensures
            match r {
                Some(path) => self.mirror_path() == Some(path@),
                None => self.mirror_path() is None,
            },
    {
        match decoded_of(&self.icloudpd_local_mirror) {
            Some(mirror) => Some(&mirror.icloudpd_download_path),
            None => None,
        }
    }
}

/// Moves a record into the state that its journal's phase calls for. Nothing else of the record
/// changes.
pub fn set_state_for_phase(record: &mut AssetRecord, phase: LegacyUploadMigrationPhase)
    ensures
        *final(record) == (AssetRecord { state: phase.record_state(), ..*old(record) }),
{
    record.state = phase.state();
}

/// The authoritative state: all records, in strictly ascending order of their asset ids, and the
/// canonical JSON of the whole.
#[derive(Debug, PartialEq, Eq)]
pub struct Manifest {
    pub records: Vec<AssetRecord>,
    pub json: Vec<u8>,
}

/// The first record of that asset id, from the given place on.
pub open spec fn find_record(records: Seq<AssetRecord>, id: Seq<char>, from: int) -> Option<
    AssetRecord,
>
    decreases records.len() - from,
{
    if from < 0 || from >= records.len() {
        None
    } else if records[from].asset_id@ == id {
        Some(records[from])
    } else {
        find_record(records, id, from + 1)
    }
}

impl Manifest {
    /// The records are in strictly ascending order of their asset ids: no asset has two.
    pub open spec fn well_formed(self) -> bool {
        forall|i: int, j: int|
            0 <= i < j < self.records@.len() ==> text::before(
                (#[trigger] self.records@[i]).asset_id@,
                (#[trigger] self.records@[j]).asset_id@,
            )
    }

    /// The state that holds these records; nothing where they are out of order, or where an asset
    /// has two.
    pub fn new(records: Vec<AssetRecord>, json: Vec<u8>) -> (r: Option<Self>)
        ensures
            ({
                let manifest = Manifest { records, json };
                r == if manifest.well_formed() {
                    Some(manifest)
                } else {
                    None
                }
            }),
    {
        let ghost manifest = Manifest { records, json };
        let mut i: usize = 1;
        while i < records.len()
            invariant
                1 <= i,
                manifest.records == records,
                i <= records@.len() || records@.len() == 0,
                forall|a: int, b: int|
                    0 <= a < b < i && b < records@.len() ==> text::before(
                        (#[trigger] records@[a]).asset_id@,
                        (#[trigger] records@[b]).asset_id@,
                    ),
            decreases records@.len() - i,
        {
            if !text_before(&records[i - 1].asset_id, &records[i].asset_id) {
                assert(!text::before(
                    manifest.records@[i - 1].asset_id@,
                    manifest.records@[i as int].asset_id@,
                ));
                return None;
            }
            assert forall|a: int| 0 <= a < i implies text::before(
                (#[trigger] records@[a]).asset_id@,
                records@[i as int].asset_id@,
            ) by {
                if a < i - 1 {
                    text::before_is_transitive(
                        records@[a].asset_id@,
                        records@[i - 1].asset_id@,
                        records@[i as int].asset_id@,
                    );
                }
            }
            i += 1;
        }
        Some(Manifest { records, json })
    }

    /// The record of an asset.
    pub open spec fn record(self, id: Seq<char>) -> Option<AssetRecord> {
        find_record(self.records@, id, 0)
    }

    /// The record of an asset.
    pub fn get(&self, id: &str) -> (r: Option<&AssetRecord>)
        ensures
            match r {
                Some(record) => self.record(id@) == Some(*record),
                None => self.record(id@) is None,
            },
    {
        let mut i: usize = 0;
        while i < self.records.len()
            invariant
                i <= self.records@.len(),
                self.record(id@) == find_record(self.records@, id@, i as int),
            decreases self.records@.len() - i,
        {
            if same_text(&self.records[i].asset_id, id) {
                return Some(&self.records[i]);
            }
            i += 1;
        }
        None
    }
}

/// Every record is found under its asset id.
pub proof fn every_record_is_found(manifest: Manifest, k: int, from: int)
    requires
        manifest.well_formed(),
        0 <= from <= k < manifest.records@.len(),
    ensures
        find_record(manifest.records@, manifest.records@[k].asset_id@, from) == Some(
            manifest.records@[k],
        ),
    decreases k - from,
{
    let records = manifest.records@;
    if from < k {
        assert(text::before(records[from].asset_id@, records[k].asset_id@));
        text::before_is_irreflexive(records[k].asset_id@);
        every_record_is_found(manifest, k, from + 1);
    }
}

/// A record that is found has the asset id that was asked for.
pub proof fn found_record_has_the_id(records: Seq<AssetRecord>, id: Seq<char>, from: int)
    requires
        0 <= from,
        find_record(records, id, from) is Some,
    ensures
        find_record(records, id, from)->0.asset_id@ == id,
        records.contains(find_record(records, id, from)->0),
    decreases records.len() - from,
{
    if records[from].asset_id@ == id {
        assert(records.contains(records[from]));
    } else {
        found_record_has_the_id(records, id, from + 1);
    }
}

/// A HEIC is sound only if all four of its checks passed.
pub proof fn all_checks_make_a_sound_heic(heic: HeicVerificationProof)
    ensures
        heic.sound() <==> heic.heif_info_ok && heic.metadata_copied && heic.visual_content_ok
            && heic.visual_match_ok,
{
}

/// A record is resumed once the last entry of its valid journal is of the reset or of a later
/// phase, and never without such an entry.
pub proof fn records_are_resumed_from_the_reset_on(record: AssetRecord)
    ensures
        record.resumed() <==> (record.journal matches JournalSlot::Valid(journal)
            && journal.entries@.len() > 0 && !(journal.entries@.last().phase is Prepared) && !(
        journal.entries@.last().phase is DeleteConfirmed) && !(
        journal.entries@.last().phase is Quarantined)),
{
}

/// Which record an asset has does not depend on the records of other assets.
pub proof fn other_records_are_not_asked(
    records: Seq<AssetRecord>,
    k: int,
    added: AssetRecord,
    id: Seq<char>,
    from: int,
)
    requires
        0 <= k <= records.len(),
        0 <= from <= records.len() + 1,
        added.asset_id@ != id,
    ensures
        find_record(records.insert(k, added), id, from) == find_record(
            records,
            id,
            if from <= k {
                from
            } else {
                from - 1
            },
        ),
    decreases records.len() + 1 - from,
{
    let all = records.insert(k, added);
    if from < all.len() {
        other_records_are_not_asked(records, k, added, id, from + 1);
        if from < k {
            assert(all[from] == records[from]);
        } else if from > k {
            assert(all[from] == records[from - 1]);
        }
    }
}

} // verus!
