use vstd::prelude::*;
use vstd::string::*;

use crate::cloudkit::{
    CloudKitActiveAssetLookupMode, CloudKitActiveAssetRemoteState, CloudKitDatabaseScope,
    CloudKitUploadedHeicInitialState, CloudKitUploadedHeicInitialStateLookupMode,
};
use crate::manifest::copy_of;
use crate::quarantine::{EvidenceQuarantineMember, QuarantineRawInput, QuarantineRoot};

verus! {

/// The layout of evidence that this library writes and accepts.
pub const EVIDENCE_SCHEMA_VERSION: u64 = 5;

/// How many assets a cohort has.
pub const ASSET_COUNT: usize = 10;

/// How many replacements of a cohort are retired.
pub const RETIRED_REPLACEMENT_COUNT: usize = 2;

/// How many assets of a cohort have a reference.
pub const REFERENCE_COUNT: usize = 5;

/// How many files of a cohort are moved into quarantine.
pub const QUARANTINE_MEMBER_COUNT: usize = 9;

/// The most bytes that evidence may have.
pub const MAX_EVIDENCE_BYTES: u64 = 1_048_576;

/// The place in the cohort of the asset that each reference belongs to.
pub open spec fn reference_asset_index(reference: int) -> int {
    if reference == 0 {
        2
    } else if reference == 1 {
        3
    } else if reference == 2 {
        7
    } else if reference == 3 {
        8
    } else {
        9
    }
}

/// The orientation that each reference has.
pub open spec fn reference_orientation(reference: int) -> u16 {
    if reference < 4 {
        6
    } else {
        8
    }
}

pub fn asset_index_of_reference(reference: usize) -> (r: usize)
    ensures
        r == reference_asset_index(reference as int),
{
    if reference == 0 {
        2
    } else if reference == 1 {
        3
    } else if reference == 2 {
        7
    } else if reference == 3 {
        8
    } else {
        9
    }
}

pub fn orientation_of_reference(reference: usize) -> (r: u16)
    ensures
        r == reference_orientation(reference as int),
{
    if reference < 4 {
        6
    } else {
        8
    }
}

/// An asset of the cohort, sealed by the digest of its record.
#[derive(Debug, PartialEq, Eq)]
pub struct EvidenceAsset {
    pub asset_id: String,
    pub record_sha256: String,
}

impl Clone for EvidenceAsset {
    fn clone(&self) -> (r: Self)
        ensures
            r == *self,
    {
        EvidenceAsset {
            asset_id: self.asset_id.clone(),
            record_sha256: self.record_sha256.clone(),
        }
    }
}

/// Where in CloudKit an upload went, and under which file name.
#[derive(Debug, PartialEq, Eq)]
pub struct EvidenceDestination {
    pub database_scope: CloudKitDatabaseScope,
    pub zone_name: String,
    pub owner_record_name: Option<String>,
    pub filename: String,
}

impl Clone for EvidenceDestination {
    fn clone(&self) -> (r: Self)
        ensures
            r == *self,
    {
        EvidenceDestination {
            database_scope: self.database_scope,
            zone_name: self.zone_name.clone(),
            owner_record_name: copy_of(&self.owner_record_name),
            filename: self.filename.clone(),
        }
    }
}

/// A replacement that the migration retires, bound to the proofs it rests on.
#[derive(Debug, PartialEq, Eq)]
pub struct EvidenceRetiredReplacement {
    pub asset_id: String,
    pub uploaded_asset_id: String,
    pub uploaded_master_id: String,
    pub owner_record_name_sha256: String,
    pub initial_remote_state: CloudKitUploadedHeicInitialState,
    pub initial_state_lookup_mode: CloudKitUploadedHeicInitialStateLookupMode,
    pub destination: EvidenceDestination,
    pub destination_sha256: String,
    pub old_record_change_tag: String,
    pub uploaded_heic_sha256: String,
    pub uploaded_heic_size_bytes: u64,
    pub original_asset_record_name: String,
    pub original_record_change_tag: String,
    pub original_remote_state: CloudKitActiveAssetRemoteState,
    pub original_state_lookup_mode: CloudKitActiveAssetLookupMode,
    pub original_asset_identity_sha256: String,
    pub old_conversion_lineage_sha256: String,
    pub old_upload_lineage_sha256: String,
    pub old_mirror_lineage_sha256: String,
}

impl Clone for EvidenceRetiredReplacement {
    fn clone(&self) -> (r: Self)
        ensures
            r == *self,
    {
        EvidenceRetiredReplacement {
            asset_id: self.asset_id.clone(),
            uploaded_asset_id: self.uploaded_asset_id.clone(),
            uploaded_master_id: self.uploaded_master_id.clone(),
            owner_record_name_sha256: self.owner_record_name_sha256.clone(),
            initial_remote_state: self.initial_remote_state,
            initial_state_lookup_mode: self.initial_state_lookup_mode,
            destination: self.destination.clone(),
            destination_sha256: self.destination_sha256.clone(),
            old_record_change_tag: self.old_record_change_tag.clone(),
            uploaded_heic_sha256: self.uploaded_heic_sha256.clone(),
            uploaded_heic_size_bytes: self.uploaded_heic_size_bytes,
            original_asset_record_name: self.original_asset_record_name.clone(),
            original_record_change_tag: self.original_record_change_tag.clone(),
            original_remote_state: self.original_remote_state,
            original_state_lookup_mode: self.original_state_lookup_mode,
            original_asset_identity_sha256: self.original_asset_identity_sha256.clone(),
            old_conversion_lineage_sha256: self.old_conversion_lineage_sha256.clone(),
            old_upload_lineage_sha256: self.old_upload_lineage_sha256.clone(),
            old_mirror_lineage_sha256: self.old_mirror_lineage_sha256.clone(),
        }
    }
}

/// The oriented preview of an asset, sealed by what it shows.
#[derive(Debug, PartialEq, Eq)]
pub struct EvidenceReferenceNormalization {
    pub asset_id: String,
    pub asset_record_sha256: String,
    pub reference_identity_sha256: String,
    pub reference_path: String,
    pub device: u64,
    pub inode: u64,
    pub size_bytes: u64,
    pub file_sha256: String,
    pub orientation: u16,
    pub width: u32,
    pub height: u32,
    pub decoded_pixel_sha256: String,
}

impl Clone for EvidenceReferenceNormalization {
    fn clone(&self) -> (r: Self)
        ensures
            r == *self,
    {
        EvidenceReferenceNormalization {
            asset_id: self.asset_id.clone(),
            asset_record_sha256: self.asset_record_sha256.clone(),
            reference_identity_sha256: self.reference_identity_sha256.clone(),
            reference_path: self.reference_path.clone(),
            device: self.device,
            inode: self.inode,
            size_bytes: self.size_bytes,
            file_sha256: self.file_sha256.clone(),
            orientation: self.orientation,
            width: self.width,
            height: self.height,
            decoded_pixel_sha256: self.decoded_pixel_sha256.clone(),
        }
    }
}

impl EvidenceReferenceNormalization {
    /// The reference as it reads once its file's device has another number.
    pub open spec fn on_device(self, device: u64) -> Self {
        EvidenceReferenceNormalization { device, ..self }
    }
}

/// What an image shows: its orientation, its size, and a digest of its decoded pixels.
#[derive(Debug, PartialEq, Eq)]
pub struct ReferenceNormalizationIdentity {
    pub orientation: u16,
    pub width: u32,
    pub height: u32,
    pub decoded_pixel_sha256: String,
}

/// The sealed evidence of one cohort.
#[derive(Debug, PartialEq, Eq)]
pub struct EvidenceDocument {
    pub schema_version: u64,
    pub migration_id: String,
    pub asset_count: u64,
    pub retired_replacement_count: u64,
    pub reference_count: u64,
    pub cohort_sha256: String,
    pub assets: Vec<EvidenceAsset>,
    pub retired_replacements: Vec<EvidenceRetiredReplacement>,
    pub reference_normalizations: Vec<EvidenceReferenceNormalization>,
    pub quarantine_roots: Vec<QuarantineRoot>,
    pub quarantine_members: Vec<EvidenceQuarantineMember>,
    pub raw_inputs: Vec<QuarantineRawInput>,
}

impl EvidenceDocument {
    /// The two documents agree field by field; a list agrees where its elements do.
    pub open spec fn equal(self, other: Self) -> bool {
        &&& self.schema_version == other.schema_version
        &&& self.migration_id@ == other.migration_id@
        &&& self.asset_count == other.asset_count
        &&& self.retired_replacement_count == other.retired_replacement_count
        &&& self.reference_count == other.reference_count
        &&& self.cohort_sha256@ == other.cohort_sha256@
        &&& self.assets@ == other.assets@
        &&& self.retired_replacements@ == other.retired_replacements@
        &&& self.reference_normalizations@ == other.reference_normalizations@
        &&& self.quarantine_roots@ == other.quarantine_roots@
        &&& self.quarantine_members@ == other.quarantine_members@
        &&& self.raw_inputs@ == other.raw_inputs@
    }

    /// A second document that agrees with this one field by field.
    pub fn duplicate(&self) -> (r: Self)
        ensures
            r.equal(*self),
    {
        let r = EvidenceDocument {
            schema_version: self.schema_version,
            migration_id: self.migration_id.clone(),
            asset_count: self.asset_count,
            retired_replacement_count: self.retired_replacement_count,
            reference_count: self.reference_count,
            cohort_sha256: self.cohort_sha256.clone(),
            assets: self.assets.clone(),
            retired_replacements: self.retired_replacements.clone(),
            reference_normalizations: self.reference_normalizations.clone(),
            quarantine_roots: self.quarantine_roots.clone(),
            quarantine_members: self.quarantine_members.clone(),
            raw_inputs: self.raw_inputs.clone(),
        };
        assert(r.assets@ =~= self.assets@);
        assert(r.retired_replacements@ =~= self.retired_replacements@);
        assert(r.reference_normalizations@ =~= self.reference_normalizations@);
        assert(r.quarantine_roots@ =~= self.quarantine_roots@);
        assert(r.quarantine_members@ =~= self.quarantine_members@);
        assert(r.raw_inputs@ =~= self.raw_inputs@);
        r
    }
}

/// An asset of the cohort is being retired.
pub open spec fn retires(replacements: Seq<EvidenceRetiredReplacement>, id: Seq<char>) -> bool {
    exists|i: int| 0 <= i < replacements.len() && (#[trigger] replacements[i]).asset_id@ == id
}

/// Whether an asset of the cohort is being retired.
pub fn is_retired(replacements: &Vec<EvidenceRetiredReplacement>, id: &str) -> (r: bool)
    ensures
        r == retires(replacements@, id@),
{
    let mut i: usize = 0;
    while i < replacements.len()
        invariant
            i <= replacements@.len(),
            forall|j: int| 0 <= j < i ==> (#[trigger] replacements@[j]).asset_id@ != id@,
        decreases replacements@.len() - i,
    {
        if crate::text::same_text(&replacements[i].asset_id, id) {
            return true;
        }
        i += 1;
    }
    false
}

/// Two documents are equal exactly if they agree in everything that they hold.
pub proof fn equal_documents_agree_in_everything(a: EvidenceDocument, b: EvidenceDocument)
    ensures
        a.equal(b) <==> {
            &&& a.schema_version == b.schema_version
            &&& a.migration_id@ == b.migration_id@
            &&& a.cohort_sha256@ == b.cohort_sha256@
            &&& a.asset_count == b.asset_count
            &&& a.retired_replacement_count == b.retired_replacement_count
            &&& a.reference_count == b.reference_count
            &&& a.assets@ == b.assets@
            &&& a.retired_replacements@ == b.retired_replacements@
            &&& a.reference_normalizations@ == b.reference_normalizations@
            &&& a.quarantine_roots@ == b.quarantine_roots@
            &&& a.quarantine_members@ == b.quarantine_members@
            &&& a.raw_inputs@ == b.raw_inputs@
        },
        a.equal(b) == b.equal(a),
{
}

/// References belong to the third, fourth, eighth, ninth and tenth asset, and only the last of them
/// is turned the other way.
pub proof fn references_have_fixed_assets_and_orientations()
    ensures
        reference_asset_index(0) == 2,
        reference_asset_index(1) == 3,
        reference_asset_index(2) == 7,
        reference_asset_index(3) == 8,
        reference_asset_index(4) == 9,
        reference_orientation(0) == 6,
        reference_orientation(1) == 6,
        reference_orientation(2) == 6,
        reference_orientation(3) == 6,
        reference_orientation(4) == 8,
{
}

/// An asset is retired exactly if one of the retirements is of its id.
pub proof fn assets_are_retired_by_their_id(
    replacements: Seq<EvidenceRetiredReplacement>,
    added: EvidenceRetiredReplacement,
    id: Seq<char>,
)
    ensures
        !retires(Seq::empty(), id),
        retires(replacements.push(added), id) <==> retires(replacements, id) || added.asset_id@
            == id,
{
    let all = replacements.push(added);
    if retires(replacements, id) {
        let i = choose|i: int|
            0 <= i < replacements.len() && (#[trigger] replacements[i]).asset_id@ == id;
        assert(all[i].asset_id@ == id);
    }
    if added.asset_id@ == id {
        assert(all[replacements.len() as int].asset_id@ == id);
    }
    if retires(all, id) {
        let i = choose|i: int| 0 <= i < all.len() && (#[trigger] all[i]).asset_id@ == id;
        if i < replacements.len() {
            assert(replacements[i].asset_id@ == id);
        }
    }
}

} // verus!
