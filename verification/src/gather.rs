use vstd::prelude::*;
use vstd::string::*;

use crate::cloudkit::{
    CloudKitActiveAssetValidation, CloudKitUploadedHeicAsset, CloudKitUploadedHeicResolveRequest,
};
use crate::digest;
use crate::digest::sha256_bytes;
use crate::document;
use crate::document::{
    orientation_of_reference, EvidenceAsset, EvidenceDestination, EvidenceReferenceNormalization,
    EvidenceRetiredReplacement, ReferenceNormalizationIdentity,
};
use crate::error::{failure, LegacyUploadEvidenceError};
use crate::identity;
use crate::identity::{is_digest, valid_identity};
use crate::manifest;
use crate::manifest::{
    copy_of, decoded_of, same_optional_text, AssetRecord, ConversionResultProof,
    HeicVerificationProof, IcloudpdLocalMirrorProof, NasRawProof, OriginalAssetProof, StoredProof,
    UploadProof,
};
use crate::path;
use crate::path::{file_name, replace_extension, same_path};
use crate::quarantine::{
    EvidenceQuarantineMember, LegacyUploadMigrationQuarantineKind, QuarantineRawInput,
};
use crate::sealed;
use crate::sealed::{
    EvidenceMetadata, HeldGenerationSource, HeldRead, SourceRead, OWNER_ONLY_MODE, PERMISSION_BITS,
};
use crate::text::same_text;
use crate::validation::PREVIEW_EXTENSION;

verus! {

/// What happened while the image of a reference was looked at in a private copy.
#[derive(Debug)]
pub struct StagedProbe {
    /// The private copy, as it was written.
    pub staged: SourceRead,
    /// What its image shows.
    pub probe: Result<ReferenceNormalizationIdentity, LegacyUploadEvidenceError>,
    /// The private copy, once it had been looked at.
    pub restaged: SourceRead,
    /// The source, looked at again: the open file, and the one that has its name by then.
    pub held: SourceRead,
    pub named: SourceRead,
    /// Whether the private copy was removed.
    pub removed: bool,
}

/// A private copy: a file of its own, for the owner only, with the content of the source.
pub open spec fn copy_faithful(
    source: EvidenceMetadata,
    sha256: Seq<char>,
    staged: SourceRead,
) -> bool {
    staged matches SourceRead::Read(metadata, content) && metadata.is_regular && metadata.nlink == 1
        && metadata.mode & PERMISSION_BITS == OWNER_ONLY_MODE && metadata.size == source.size
        && digest::sha256_hex(content@) == sha256
}

/// The category under which a look at the image of a reference is refused, or nothing.
pub open spec fn probe_refusal(
    source: EvidenceMetadata,
    sha256: Seq<char>,
    look: StagedProbe,
) -> Option<Seq<char>> {
    if !copy_faithful(source, sha256, look.staged) {
        Some("reference_staging"@)
    } else if look.probe is Err {
        Some(look.probe->Err_0@)
    } else if !look.restaged.shows(look.staged->Read_0, sha256) {
        Some("reference_staging"@)
    } else if !look.held.shows(source, sha256) || !look.named.shows(source, sha256) {
        Some("source_changed"@)
    } else if !look.removed {
        Some("reference_staging"@)
    } else {
        None
    }
}

fn is_copy_faithful(source: &HeldGenerationSource, staged: &SourceRead) -> (r: bool)
    ensures
        r == copy_faithful(source.metadata, source.sha256@, *staged),
{
    match staged {
        SourceRead::Read(metadata, content) => metadata.is_regular && metadata.nlink == 1
            && metadata.mode & PERMISSION_BITS == OWNER_ONLY_MODE && metadata.size
            == source.metadata.size && same_text(&sha256_bytes(content), &source.sha256),
        _ => false,
    }
}

fn does_copy_stay(staged: &SourceRead, restaged: &SourceRead, sha256: &str) -> (r: bool)
    requires
        staged is Read,
    ensures
        r == restaged.shows(staged->Read_0, sha256@),
{
    match (staged, restaged) {
        (SourceRead::Read(first, _), SourceRead::Read(second, content)) => *second == *first
            && same_text(&sha256_bytes(content), sha256),
        _ => false,
    }
}

/// What the image of a reference shows, seen in a private copy that stayed what the source was.
pub fn probe_held_reference<'a>(source: &HeldGenerationSource, look: &'a StagedProbe) -> (r: Result<
    &'a ReferenceNormalizationIdentity,
    LegacyUploadEvidenceError,
>)
    ensures
        match r {
            Ok(image) => probe_refusal(source.metadata, source.sha256@, *look) is None
                && look.probe == Ok::<ReferenceNormalizationIdentity, LegacyUploadEvidenceError>(
                *image,
            ),
            Err(error) => probe_refusal(source.metadata, source.sha256@, *look) == Some(error@),
        },
{
    if !is_copy_faithful(source, &look.staged) {
        return Err(failure("reference_staging"));
    }
    match &look.probe {
        Err(error) => Err(*error),
        Ok(image) => {
            if !does_copy_stay(&look.staged, &look.restaged, &source.sha256) {
                return Err(failure("reference_staging"));
            }
            match source.revalidate(&look.held, &look.named) {
                Err(error) => {
                    return Err(error);
                },
                Ok(()) => {},
            }
            if !look.removed {
                return Err(failure("reference_staging"));
            }
            Ok(image)
        },
    }
}

/// What was read and answered while the evidence of one asset was gathered.
#[derive(Debug)]
pub struct AssetObservation {
    pub raw: HeldRead,
    pub final_heic: HeldRead,
    pub mirror: HeldRead,
    /// CloudKit's answer about the uploaded replacement, where it was asked.
    pub resolved: Result<CloudKitUploadedHeicAsset, LegacyUploadEvidenceError>,
    /// CloudKit's answer about the original, where it was asked.
    pub original: Result<CloudKitActiveAssetValidation, LegacyUploadEvidenceError>,
    /// The reference, where the asset has one.
    pub reference: SourceRead,
    pub probe: StagedProbe,
}

/// The category under which a stored proof is refused when it is needed, or nothing.
pub open spec fn proof_refusal<T>(stored: Option<StoredProof<T>>) -> Option<Seq<char>> {
    match stored {
        None => Some("proof_missing"@),
        Some(proof) => if proof.decoded is None {
            Some("proof_schema"@)
        } else {
            None
        },
    }
}

/// A stored proof that is needed.
pub fn generation_proof<T>(stored: &Option<StoredProof<T>>) -> (r: Result<
    &T,
    LegacyUploadEvidenceError,
>)
    ensures
        match r {
            Ok(proof) => proof_refusal(*stored) is None && manifest::decoded_proof(*stored) == Some(
                *proof,
            ),
            Err(error) => proof_refusal(*stored) == Some(error@),
        },
{
    match stored {
        None => Err(failure("proof_missing")),
        Some(proof) => match &proof.decoded {
            None => Err(failure("proof_schema")),
            Some(value) => Ok(value),
        },
    }
}

/// The first refusal among the proofs that evidence of an asset needs.
pub open spec fn proofs_refusal(record: AssetRecord) -> Option<Seq<char>> {
    if proof_refusal(record.nas) is Some {
        proof_refusal(record.nas)
    } else if proof_refusal(record.conversion) is Some {
        proof_refusal(record.conversion)
    } else if proof_refusal(record.heic) is Some {
        proof_refusal(record.heic)
    } else if proof_refusal(record.upload) is Some {
        proof_refusal(record.upload)
    } else if proof_refusal(record.icloudpd_local_mirror) is Some {
        proof_refusal(record.icloudpd_local_mirror)
    } else {
        proof_refusal(record.original_asset)
    }
}

/// The proofs of a record tell one story: one original, one conversion of it, one upload of that,
/// one mirror of that upload.
pub open spec fn proofs_agree(record: AssetRecord) -> bool {
    let nas = manifest::decoded_proof(record.nas)->0;
    let conversion = manifest::decoded_proof(record.conversion)->0;
    let heic = manifest::decoded_proof(record.heic)->0;
    let upload = manifest::decoded_proof(record.upload)->0;
    let mirror = manifest::decoded_proof(record.icloudpd_local_mirror)->0;
    let original = manifest::decoded_proof(record.original_asset)->0;
    &&& record.uploaded_path() matches Some(final_path)
    &&& path::last_name(record.raw_path@) matches Some(raw_filename)
    &&& path::same_place(nas.canonical_path@, record.raw_path@)
    &&& nas.sha256@ == original.matched_raw_sha256@
    &&& nas.size_bytes == original.size_bytes
    &&& original.filename@ == raw_filename
    &&& path::same_place(conversion.heic_path@, final_path)
    &&& conversion.heic_sha256@ == heic.heic_sha256@
    &&& conversion.size_bytes == heic.size_bytes
    &&& path::same_place(heic.heic_path@, final_path)
    &&& heic.sound()
    &&& upload.uploaded_heic_sha256@ == heic.heic_sha256@
    &&& upload.uploaded_heic_asset_id@ == mirror.uploaded_heic_asset_id@
    &&& upload.uploaded_heic_sha256@ == mirror.uploaded_heic_sha256@
    &&& path::same_place(mirror.uploaded_heic_path@, final_path)
    &&& mirror.size_bytes == heic.size_bytes
    &&& upload.database_scope == original.database_scope
    &&& upload.zone_name@ == original.zone_name@
    &&& manifest::optional_text(upload.owner_record_name) == manifest::optional_text(
        original.owner_record_name,
    )
}

/// What a file that was read is: its device and inode.
pub open spec fn place_of(read: SourceRead) -> (u64, u64) {
    (read->Read_0.dev, read->Read_0.ino)
}

/// The digest of what a file that was read holds.
pub open spec fn content_of(read: SourceRead) -> Seq<char> {
    digest::sha256_hex(read->Read_1@)
}

/// The original and the mirror hold what their proofs say, and the original, the uploaded HEIC and
/// the mirror are three files.
pub open spec fn sources_bound(record: AssetRecord, observed: AssetObservation) -> bool {
    let nas = manifest::decoded_proof(record.nas)->0;
    let heic = manifest::decoded_proof(record.heic)->0;
    let upload = manifest::decoded_proof(record.upload)->0;
    let raw = observed.raw.read;
    let final_heic = observed.final_heic.read;
    let mirror = observed.mirror.read;
    &&& content_of(raw) == nas.sha256@
    &&& raw->Read_0.size == nas.size_bytes
    &&& content_of(mirror) == upload.uploaded_heic_sha256@
    &&& mirror->Read_0.size == heic.size_bytes
    &&& place_of(raw) != place_of(final_heic)
    &&& place_of(raw) != place_of(mirror)
    &&& place_of(final_heic) != place_of(mirror)
}

/// The uploaded HEIC was replaced on disk since: what was uploaded has to be retired.
pub open spec fn replaced(record: AssetRecord, observed: AssetObservation) -> bool {
    let heic = manifest::decoded_proof(record.heic)->0;
    let upload = manifest::decoded_proof(record.upload)->0;
    !(content_of(observed.final_heic.read) == upload.uploaded_heic_sha256@
        && observed.final_heic.read->Read_0.size == heic.size_bytes)
}

/// CloudKit found the very upload, and it is neither its own master nor the original.
pub open spec fn resolution_bound(record: AssetRecord, resolved: CloudKitUploadedHeicAsset) -> bool {
    let heic = manifest::decoded_proof(record.heic)->0;
    let upload = manifest::decoded_proof(record.upload)->0;
    let original = manifest::decoded_proof(record.original_asset)->0;
    &&& resolved.record_name@ == upload.uploaded_heic_asset_id@
    &&& resolved.matched_heic_sha256@ == upload.uploaded_heic_sha256@
    &&& resolved.size_bytes == heic.size_bytes
    &&& identity::identity_text(resolved.record_change_tag@)
    &&& identity::identity_text(resolved.master_record_name@)
    &&& resolved.master_record_name@ != original.record_name@
    &&& resolved.master_record_name@ != resolved.record_name@
    &&& resolved.record_name@ != original.record_name@
}

/// The category under which the retirement of a replaced upload is refused, or nothing.
pub open spec fn retirement_refusal(record: AssetRecord, observed: AssetObservation) -> Option<
    Seq<char>,
> {
    if !replaced(record, observed) {
        None
    } else if observed.resolved is Err {
        Some(observed.resolved->Err_0@)
    } else if !resolution_bound(record, observed.resolved->Ok_0) {
        Some("cloudkit_binding"@)
    } else if observed.original is Err {
        Some(observed.original->Err_0@)
    } else if path::last_name(record.uploaded_path()->0) is None {
        Some("proof_binding"@)
    } else {
        None
    }
}

/// The reference that the asset at that place of the cohort has, if it has one.
pub open spec fn reference_of_asset(index: int) -> Option<int> {
    if index == 2 {
        Some(0)
    } else if index == 3 {
        Some(1)
    } else if index == 7 {
        Some(2)
    } else if index == 8 {
        Some(3)
    } else if index == 9 {
        Some(4)
    } else {
        None
    }
}

/// The place of an asset and the place of its reference say the same of each other.
pub proof fn references_and_assets_correspond(reference: int, index: int)
    requires
        0 <= reference < document::REFERENCE_COUNT,
        0 <= index < document::ASSET_COUNT,
    ensures
        reference_of_asset(index) == Some(reference) <==> document::reference_asset_index(reference)
            == index,
{
}

pub fn reference_index_of_asset(index: usize) -> (r: Option<usize>)
    ensures
        match r {
            Some(reference) => reference_of_asset(index as int) == Some(reference as int),
            None => reference_of_asset(index as int) is None,
        },
{
    if index == 2 {
        Some(0)
    } else if index == 3 {
        Some(1)
    } else if index == 7 {
        Some(2)
    } else if index == 8 {
        Some(3)
    } else if index == 9 {
        Some(4)
    } else {
        None
    }
}

/// Where the reference of an asset lies: beside the uploaded HEIC.
pub open spec fn reference_place(record: AssetRecord) -> Seq<char> {
    path::with_extension(record.uploaded_path()->0, PREVIEW_EXTENSION@)
}

/// A reference is none of the asset's other files, and holds what none of them holds.
pub open spec fn reference_distinct(observed: AssetObservation) -> bool {
    let reference = observed.reference;
    &&& place_of(reference) != place_of(observed.raw.read)
    &&& place_of(reference) != place_of(observed.final_heic.read)
    &&& place_of(reference) != place_of(observed.mirror.read)
    &&& content_of(reference) != content_of(observed.raw.read)
    &&& content_of(reference) != content_of(observed.final_heic.read)
    &&& content_of(reference) != content_of(observed.mirror.read)
}

/// An image that a reference of that place may show.
pub open spec fn image_expected(image: ReferenceNormalizationIdentity, reference: int) -> bool {
    &&& image.orientation == document::reference_orientation(reference)
    &&& image.width != 0
    &&& image.height != 0
    &&& identity::digest_text(image.decoded_pixel_sha256@)
}

/// The category under which the reference of an asset is refused, or nothing.
pub open spec fn asset_reference_refusal(
    record: AssetRecord,
    index: int,
    observed: AssetObservation,
) -> Option<Seq<char>> {
    match reference_of_asset(index) {
        None => None,
        Some(reference) => {
            let opening = sealed::source_refusal(reference_place(record), observed.reference);
            let probing = probe_refusal(
                observed.reference->Read_0,
                content_of(observed.reference),
                observed.probe,
            );
            if opening is Some {
                opening
            } else if !reference_distinct(observed) {
                Some("reference_distinct"@)
            } else if probing is Some {
                probing
            } else if !image_expected(observed.probe.probe->Ok_0, reference) {
                Some("reference_image"@)
            } else {
                None
            }
        },
    }
}

/// The category under which the evidence of an asset cannot be gathered, or nothing.
pub open spec fn gather_refusal(
    record: AssetRecord,
    index: int,
    observed: AssetObservation,
) -> Option<Seq<char>> {
    let proofs = proofs_refusal(record);
    let mirror_path = record.mirror_path()->0;
    let raw = sealed::source_refusal(record.raw_path@, observed.raw.read);
    let final_heic = sealed::source_refusal(
        record.uploaded_path()->0,
        observed.final_heic.read,
    );
    let mirror = sealed::source_refusal(mirror_path, observed.mirror.read);
    let retirement = retirement_refusal(record, observed);
    let reference = asset_reference_refusal(record, index, observed);
    if proofs is Some {
        proofs
    } else if !proofs_agree(record) {
        Some("proof_binding"@)
    } else if raw is Some {
        raw
    } else if final_heic is Some {
        final_heic
    } else if mirror is Some {
        mirror
    } else if !sources_bound(record, observed) {
        Some("source_binding"@)
    } else if record.record_sha256 is None {
        Some("record_digest"@)
    } else if retirement is Some {
        retirement
    } else if reference is Some {
        reference
    } else if !observed.raw.steady() || !observed.final_heic.steady()
        || !observed.mirror.steady() {
        Some("source_changed"@)
    } else {
        None
    }
}

/// The files of an asset that are held open while evidence is gathered.
#[derive(Debug, PartialEq, Eq)]
pub struct HeldGenerationAsset {
    pub raw: HeldGenerationSource,
    pub final_heic: HeldGenerationSource,
    pub mirror: HeldGenerationSource,
    pub reference: Option<HeldGenerationSource>,
}

/// Later looks at the files of an asset: at each open file, and at the file that has its name by
/// then.
#[derive(Debug, PartialEq, Eq)]
pub struct AssetRereads {
    pub raw: (SourceRead, SourceRead),
    pub final_heic: (SourceRead, SourceRead),
    pub mirror: (SourceRead, SourceRead),
    pub reference: (SourceRead, SourceRead),
}

impl HeldGenerationAsset {
    /// None of the files of the asset changed.
    pub open spec fn unchanged(self, again: AssetRereads) -> bool {
        &&& self.raw.unchanged(again.raw.0, again.raw.1)
        &&& self.final_heic.unchanged(again.final_heic.0, again.final_heic.1)
        &&& self.mirror.unchanged(again.mirror.0, again.mirror.1)
        &&& self.reference matches Some(reference) ==> reference.unchanged(
            again.reference.0,
            again.reference.1,
        )
    }

    /// Whether none of the files of the asset changed.
    pub fn revalidate(&self, again: &AssetRereads) -> (r: Result<(), LegacyUploadEvidenceError>)
        ensures
            r is Ok <==> self.unchanged(*again),
            r matches Err(error) ==> error@ == "source_changed"@,
    {
        match self.raw.revalidate(&again.raw.0, &again.raw.1) {
            Err(error) => {
                return Err(error);
            },
            Ok(()) => {},
        }
        match self.final_heic.revalidate(&again.final_heic.0, &again.final_heic.1) {
            Err(error) => {
                return Err(error);
            },
            Ok(()) => {},
        }
        match self.mirror.revalidate(&again.mirror.0, &again.mirror.1) {
            Err(error) => {
                return Err(error);
            },
            Ok(()) => {},
        }
        match &self.reference {
            Some(reference) => reference.revalidate(&again.reference.0, &again.reference.1),
            None => Ok(()),
        }
    }
}

/// The evidence of one asset. The digests of its destination and of its reference are still to be
/// filled in.
#[derive(Debug, PartialEq, Eq)]
pub struct GatheredAsset {
    pub asset: EvidenceAsset,
    pub raw_input: QuarantineRawInput,
    pub replacement: Option<EvidenceRetiredReplacement>,
    pub reference: Option<EvidenceReferenceNormalization>,
    pub members: Vec<EvidenceQuarantineMember>,
    pub held: HeldGenerationAsset,
}

/// A member stands for one of the asset's files.
pub open spec fn member_of(
    member: EvidenceQuarantineMember,
    record: AssetRecord,
    kind: LegacyUploadMigrationQuarantineKind,
    place: Seq<char>,
    read: SourceRead,
) -> bool {
    &&& member.asset_id == record.asset_id
    &&& member.kind == kind
    &&& member.source_path@ == place
    &&& member.source@ == sealed::file_view(read->Read_0, read->Read_1@)
    &&& member.root_device == read->Read_0.dev
}

/// A replacement is the retirement of what was uploaded for the asset.
pub open spec fn retires_upload(
    replacement: EvidenceRetiredReplacement,
    record: AssetRecord,
    observed: AssetObservation,
) -> bool {
    let heic = manifest::decoded_proof(record.heic)->0;
    let upload = manifest::decoded_proof(record.upload)->0;
    let original = manifest::decoded_proof(record.original_asset)->0;
    let resolved = observed.resolved->Ok_0;
    let validation = observed.original->Ok_0;
    &&& replacement.asset_id == record.asset_id
    &&& replacement.uploaded_asset_id == resolved.record_name
    &&& replacement.uploaded_master_id == resolved.master_record_name
    &&& replacement.owner_record_name_sha256 == resolved.owner_record_name_sha256
    &&& replacement.initial_remote_state == resolved.initial_remote_state
    &&& replacement.initial_state_lookup_mode == resolved.initial_state_lookup_mode
    &&& replacement.destination.database_scope == upload.database_scope
    &&& replacement.destination.zone_name == upload.zone_name
    &&& replacement.destination.owner_record_name == upload.owner_record_name
    &&& path::last_name(record.uploaded_path()->0) == Some(replacement.destination.filename@)
    &&& replacement.destination_sha256@.len() == 0
    &&& replacement.old_record_change_tag == resolved.record_change_tag
    &&& replacement.uploaded_heic_sha256 == upload.uploaded_heic_sha256
    &&& replacement.uploaded_heic_size_bytes == heic.size_bytes
    &&& replacement.original_asset_record_name == original.record_name
    &&& replacement.original_record_change_tag == original.record_change_tag
    &&& replacement.original_remote_state == validation.remote_state
    &&& replacement.original_state_lookup_mode == validation.lookup_mode
    &&& replacement.original_asset_identity_sha256@ == digest::sha256_hex(
        record.original_asset->0.json@,
    )
    &&& replacement.old_conversion_lineage_sha256@ == digest::sha256_hex(record.conversion->0.json@)
    &&& replacement.old_upload_lineage_sha256@ == digest::sha256_hex(record.upload->0.json@)
    &&& replacement.old_mirror_lineage_sha256@ == digest::sha256_hex(
        record.icloudpd_local_mirror->0.json@,
    )
}

/// A reference is the oriented preview of the asset.
pub open spec fn normalizes(
    reference: EvidenceReferenceNormalization,
    record: AssetRecord,
    observed: AssetObservation,
) -> bool {
    let image = observed.probe.probe->Ok_0;
    &&& reference.asset_id == record.asset_id
    &&& record.record_sha256 == Some(reference.asset_record_sha256)
    &&& reference.reference_identity_sha256@.len() == 0
    &&& reference.reference_path@ == reference_place(record)
    &&& reference.device == observed.reference->Read_0.dev
    &&& reference.inode == observed.reference->Read_0.ino
    &&& reference.size_bytes == observed.reference->Read_0.size
    &&& reference.file_sha256@ == content_of(observed.reference)
    &&& reference.orientation == image.orientation
    &&& reference.width == image.width
    &&& reference.height == image.height
    &&& reference.decoded_pixel_sha256 == image.decoded_pixel_sha256
}

/// The members of an asset: its HEIC and its mirror where what was uploaded is retired, and its
/// reference where it has one.
pub open spec fn members_of_asset(
    members: Seq<EvidenceQuarantineMember>,
    record: AssetRecord,
    index: int,
    observed: AssetObservation,
) -> bool {
    let retired: int = if replaced(record, observed) {
        2
    } else {
        0
    };
    let referenced: int = if reference_of_asset(index) is Some {
        1
    } else {
        0
    };
    &&& members.len() == retired + referenced
    &&& retired == 2 ==> {
        &&& member_of(
            members[0],
            record,
            LegacyUploadMigrationQuarantineKind::Final,
            record.uploaded_path()->0,
            observed.final_heic.read,
        )
        &&& member_of(
            members[1],
            record,
            LegacyUploadMigrationQuarantineKind::OldMirror,
            record.mirror_path()->0,
            observed.mirror.read,
        )
    }
    &&& referenced == 1 ==> member_of(
        members[retired],
        record,
        LegacyUploadMigrationQuarantineKind::Reference,
        reference_place(record),
        observed.reference,
    )
}

/// The files of an asset are the ones that were read.
pub open spec fn holds_asset(
    held: HeldGenerationAsset,
    record: AssetRecord,
    index: int,
    observed: AssetObservation,
) -> bool {
    &&& held.raw.stands_for(record.raw_path@, observed.raw.read)
    &&& held.final_heic.stands_for(record.uploaded_path()->0, observed.final_heic.read)
    &&& held.mirror.stands_for(record.mirror_path()->0, observed.mirror.read)
    &&& match held.reference {
        Some(reference) => reference_of_asset(index) is Some && reference.stands_for(
            reference_place(record),
            observed.reference,
        ),
        None => reference_of_asset(index) is None,
    }
}

/// The evidence of one asset is what was read and answered.
pub open spec fn gathers(
    gathered: GatheredAsset,
    record: AssetRecord,
    index: int,
    observed: AssetObservation,
) -> bool {
    &&& gathered.asset.asset_id == record.asset_id
    &&& record.record_sha256 == Some(gathered.asset.record_sha256)
    &&& gathered.raw_input.asset_id == record.asset_id
    &&& gathered.raw_input.path == record.raw_path
    &&& gathered.raw_input.source@ == sealed::file_view(
        observed.raw.read->Read_0,
        observed.raw.read->Read_1@,
    )
    &&& match gathered.replacement {
        Some(replacement) => replaced(record, observed) && retires_upload(
            replacement,
            record,
            observed,
        ),
        None => !replaced(record, observed),
    }
    &&& match gathered.reference {
        Some(reference) => reference_of_asset(index) is Some && normalizes(
            reference,
            record,
            observed,
        ),
        None => reference_of_asset(index) is None,
    }
    &&& members_of_asset(gathered.members@, record, index, observed)
    &&& holds_asset(gathered.held, record, index, observed)
}

/// The question to CloudKit about what was uploaded for an asset.
pub fn uploaded_heic_request(record: &AssetRecord) -> (r: Option<CloudKitUploadedHeicResolveRequest>)
    ensures
        r is Some <==> manifest::decoded_proof(record.heic) is Some && manifest::decoded_proof(
            record.upload,
        ) is Some,
        r matches Some(request) ==> {
            let heic = manifest::decoded_proof(record.heic)->0;
            let upload = manifest::decoded_proof(record.upload)->0;
            &&& request.uploaded_asset_id == upload.uploaded_heic_asset_id
            &&& request.expected_heic_sha256 == upload.uploaded_heic_sha256
            &&& request.expected_size_bytes == heic.size_bytes
            &&& request.database_scope == upload.database_scope
            &&& request.zone_name == upload.zone_name
            &&& request.owner_record_name == upload.owner_record_name
        },
{
    match (decoded_of(&record.heic), decoded_of(&record.upload)) {
        (Some(heic), Some(upload)) => Some(
            CloudKitUploadedHeicResolveRequest {
                uploaded_asset_id: upload.uploaded_heic_asset_id.clone(),
                expected_heic_sha256: upload.uploaded_heic_sha256.clone(),
                expected_size_bytes: heic.size_bytes,
                database_scope: upload.database_scope,
                zone_name: upload.zone_name.clone(),
                owner_record_name: copy_of(&upload.owner_record_name),
            },
        ),
        _ => None,
    }
}

/// The proofs of a record that evidence needs.
struct Proofs<'a> {
    nas: &'a NasRawProof,
    conversion: &'a ConversionResultProof,
    heic: &'a HeicVerificationProof,
    upload: &'a UploadProof,
    mirror: &'a IcloudpdLocalMirrorProof,
    original: &'a OriginalAssetProof,
}

impl<'a> Proofs<'a> {
    spec fn of(self, record: AssetRecord) -> bool {
        &&& manifest::decoded_proof(record.nas) == Some(*self.nas)
        &&& manifest::decoded_proof(record.conversion) == Some(*self.conversion)
        &&& manifest::decoded_proof(record.heic) == Some(*self.heic)
        &&& manifest::decoded_proof(record.upload) == Some(*self.upload)
        &&& manifest::decoded_proof(record.icloudpd_local_mirror) == Some(*self.mirror)
        &&& manifest::decoded_proof(record.original_asset) == Some(*self.original)
    }
}

fn needed_proofs(record: &AssetRecord) -> (r: Result<Proofs<'_>, LegacyUploadEvidenceError>)
    ensures
        match r {
            Ok(proofs) => proofs_refusal(*record) is None && proofs.of(*record),
            Err(error) => proofs_refusal(*record) == Some(error@),
        },
{
    let nas = match generation_proof(&record.nas) {
        Ok(proof) => proof,
        Err(error) => {
            return Err(error);
        },
    };
    let conversion = match generation_proof(&record.conversion) {
        Ok(proof) => proof,
        Err(error) => {
            return Err(error);
        },
    };
    let heic = match generation_proof(&record.heic) {
        Ok(proof) => proof,
        Err(error) => {
            return Err(error);
        },
    };
    let upload = match generation_proof(&record.upload) {
        Ok(proof) => proof,
        Err(error) => {
            return Err(error);
        },
    };
    let mirror = match generation_proof(&record.icloudpd_local_mirror) {
        Ok(proof) => proof,
        Err(error) => {
            return Err(error);
        },
    };
    let original = match generation_proof(&record.original_asset) {
        Ok(proof) => proof,
        Err(error) => {
            return Err(error);
        },
    };
    Ok(Proofs { nas, conversion, heic, upload, mirror, original })
}

/// Where the uploaded HEIC lies, where the proofs of the record agree.
fn agreed_path<'a>(record: &AssetRecord, proofs: &Proofs<'a>) -> (r: Option<&'a String>)
    requires
        proofs.of(*record),
    ensures
        match r {
            Some(path) => proofs_agree(*record) && record.uploaded_path() == Some(path@),
            None => !proofs_agree(*record),
        },
{
    match (&proofs.upload.uploaded_heic_path, file_name(&record.raw_path)) {
        (Some(final_path), Some(raw_filename)) => {
            if same_path(&proofs.nas.canonical_path, &record.raw_path) && same_text(
                &proofs.nas.sha256,
                &proofs.original.matched_raw_sha256,
            ) && proofs.nas.size_bytes == proofs.original.size_bytes && same_text(
                &proofs.original.filename,
                &raw_filename,
            ) && same_path(&proofs.conversion.heic_path, final_path) && same_text(
                &proofs.conversion.heic_sha256,
                &proofs.heic.heic_sha256,
            ) && proofs.conversion.size_bytes == proofs.heic.size_bytes && same_path(
                &proofs.heic.heic_path,
                final_path,
            ) && proofs.heic.is_sound() && same_text(
                &proofs.upload.uploaded_heic_sha256,
                &proofs.heic.heic_sha256,
            ) && same_text(
                &proofs.upload.uploaded_heic_asset_id,
                &proofs.mirror.uploaded_heic_asset_id,
            ) && same_text(
                &proofs.upload.uploaded_heic_sha256,
                &proofs.mirror.uploaded_heic_sha256,
            ) && same_path(&proofs.mirror.uploaded_heic_path, final_path)
                && proofs.mirror.size_bytes == proofs.heic.size_bytes
                && proofs.upload.database_scope == proofs.original.database_scope && same_text(
                &proofs.upload.zone_name,
                &proofs.original.zone_name,
            ) && same_optional_text(
                &proofs.upload.owner_record_name,
                &proofs.original.owner_record_name,
            ) {
                Some(final_path)
            } else {
                None
            }
        },
        _ => None,
    }
}

/// The retirement of what was uploaded for an asset, where it was replaced since.
fn retired_upload(
    record: &AssetRecord,
    proofs: &Proofs<'_>,
    final_heic: &HeldGenerationSource,
    observed: &AssetObservation,
) -> (r: Result<Option<EvidenceRetiredReplacement>, LegacyUploadEvidenceError>)
    requires
        proofs.of(*record),
        record.uploaded_path() == Some(final_heic.path@),
        final_heic.stands_for(final_heic.path@, observed.final_heic.read),
    ensures
        match r {
            Ok(Some(replacement)) => retirement_refusal(*record, *observed) is None && replaced(
                *record,
                *observed,
            ) && retires_upload(replacement, *record, *observed),
            Ok(None) => !replaced(*record, *observed),
            Err(error) => retirement_refusal(*record, *observed) == Some(error@),
        },
{
    if same_text(&final_heic.sha256, &proofs.upload.uploaded_heic_sha256)
        && final_heic.metadata.size == proofs.heic.size_bytes {
        return Ok(None);
    }
    let resolved = match &observed.resolved {
        Ok(resolved) => resolved,
        Err(error) => {
            return Err(*error);
        },
    };
    if !same_text(&resolved.record_name, &proofs.upload.uploaded_heic_asset_id) || !same_text(
        &resolved.matched_heic_sha256,
        &proofs.upload.uploaded_heic_sha256,
    ) || resolved.size_bytes != proofs.heic.size_bytes || !valid_identity(
        &resolved.record_change_tag,
    ) || !valid_identity(&resolved.master_record_name) || same_text(
        &resolved.master_record_name,
        &proofs.original.record_name,
    ) || same_text(&resolved.master_record_name, &resolved.record_name) || same_text(
        &resolved.record_name,
        &proofs.original.record_name,
    ) {
        return Err(failure("cloudkit_binding"));
    }
    let validation = match &observed.original {
        Ok(validation) => validation,
        Err(error) => {
            return Err(*error);
        },
    };
    let filename = match file_name(&final_heic.path) {
        Some(filename) => filename,
        None => {
            return Err(failure("proof_binding"));
        },
    };
    let original_json = stored_digest(&record.original_asset);
    let conversion_json = stored_digest(&record.conversion);
    let upload_json = stored_digest(&record.upload);
    let mirror_json = stored_digest(&record.icloudpd_local_mirror);
    proof {
        reveal_strlit("");
    }
    Ok(
        Some(
            EvidenceRetiredReplacement {
                asset_id: record.asset_id.clone(),
                uploaded_asset_id: resolved.record_name.clone(),
                uploaded_master_id: resolved.master_record_name.clone(),
                owner_record_name_sha256: resolved.owner_record_name_sha256.clone(),
                initial_remote_state: resolved.initial_remote_state,
                initial_state_lookup_mode: resolved.initial_state_lookup_mode,
                destination_sha256: "".to_owned(),
                destination: EvidenceDestination {
                    database_scope: proofs.upload.database_scope,
                    zone_name: proofs.upload.zone_name.clone(),
                    owner_record_name: copy_of(&proofs.upload.owner_record_name),
                    filename,
                },
                old_record_change_tag: resolved.record_change_tag.clone(),
                uploaded_heic_sha256: proofs.upload.uploaded_heic_sha256.clone(),
                uploaded_heic_size_bytes: proofs.heic.size_bytes,
                original_asset_record_name: proofs.original.record_name.clone(),
                original_record_change_tag: proofs.original.record_change_tag.clone(),
                original_remote_state: validation.remote_state,
                original_state_lookup_mode: validation.lookup_mode,
                original_asset_identity_sha256: original_json,
                old_conversion_lineage_sha256: conversion_json,
                old_upload_lineage_sha256: upload_json,
                old_mirror_lineage_sha256: mirror_json,
            },
        ),
    )
}

/// The digest of a stored proof.
fn stored_digest<T>(stored: &Option<StoredProof<T>>) -> (r: String)
    requires
        stored is Some,
    ensures
        r@ == digest::sha256_hex(stored->0.json@),
{
    match stored {
        Some(proof) => sha256_bytes(&proof.json),
        None => "".to_owned(),
    }
}

/// The reference of an asset that has one, and the file that it is.
fn held_reference(
    record: &AssetRecord,
    record_sha256: &String,
    reference: usize,
    raw: &HeldGenerationSource,
    final_heic: &HeldGenerationSource,
    mirror: &HeldGenerationSource,
    observed: &AssetObservation,
) -> (r: Result<
    (EvidenceReferenceNormalization, HeldGenerationSource),
    LegacyUploadEvidenceError,
>)
    requires
        reference < document::REFERENCE_COUNT,
        record.record_sha256 == Some(*record_sha256),
        record.uploaded_path() == Some(final_heic.path@),
        raw.stands_for(record.raw_path@, observed.raw.read),
        final_heic.stands_for(final_heic.path@, observed.final_heic.read),
        mirror.stands_for(record.mirror_path()->0, observed.mirror.read),
    ensures
        match r {
            Ok(held) => {
                &&& forall|index: int|
                    #![trigger asset_reference_refusal(*record, index, *observed)]
                    reference_of_asset(index) == Some(reference as int) ==> asset_reference_refusal(
                        *record,
                        index,
                        *observed,
                    ) is None
                &&& normalizes(held.0, *record, *observed)
                &&& held.1.stands_for(reference_place(*record), observed.reference)
            },
            Err(error) => forall|index: int|
                #![trigger asset_reference_refusal(*record, index, *observed)]
                reference_of_asset(index) == Some(reference as int) ==> asset_reference_refusal(
                    *record,
                    index,
                    *observed,
                ) == Some(error@),
        },
{
    let reference_path = replace_extension(&final_heic.path, PREVIEW_EXTENSION);
    let source = match HeldGenerationSource::open(&reference_path, &observed.reference) {
        Ok(source) => source,
        Err(error) => {
            return Err(error);
        },
    };
    if is_same_file(&source, raw) || is_same_file(&source, final_heic) || is_same_file(
        &source,
        mirror,
    ) || same_text(&source.sha256, &raw.sha256) || same_text(&source.sha256, &final_heic.sha256)
        || same_text(&source.sha256, &mirror.sha256) {
        return Err(failure("reference_distinct"));
    }
    let image = match probe_held_reference(&source, &observed.probe) {
        Ok(image) => image,
        Err(error) => {
            return Err(error);
        },
    };
    if image.orientation != orientation_of_reference(reference) || image.width == 0 || image.height
        == 0 || !is_digest(&image.decoded_pixel_sha256) {
        return Err(failure("reference_image"));
    }
    proof {
        reveal_strlit("");
    }
    Ok(
        (
            EvidenceReferenceNormalization {
                asset_id: record.asset_id.clone(),
                asset_record_sha256: record_sha256.clone(),
                reference_identity_sha256: "".to_owned(),
                reference_path,
                device: source.metadata.dev,
                inode: source.metadata.ino,
                size_bytes: source.metadata.size,
                file_sha256: source.sha256.clone(),
                orientation: image.orientation,
                width: image.width,
                height: image.height,
                decoded_pixel_sha256: image.decoded_pixel_sha256.clone(),
            },
            source,
        ),
    )
}

fn is_same_file(a: &HeldGenerationSource, b: &HeldGenerationSource) -> (r: bool)
    ensures
        r == ((a.metadata.dev, a.metadata.ino) == (b.metadata.dev, b.metadata.ino)),
{
    a.metadata.dev == b.metadata.dev && a.metadata.ino == b.metadata.ino
}

fn quarantine_member(
    record: &AssetRecord,
    kind: LegacyUploadMigrationQuarantineKind,
    source: &HeldGenerationSource,
) -> (r: EvidenceQuarantineMember)
    ensures
        forall|read: SourceRead| #[trigger]
            source.stands_for(source.path@, read) ==> member_of(
                r,
                *record,
                kind,
                source.path@,
                read,
            ),
{
    let identity = source.quarantine_identity();
    EvidenceQuarantineMember {
        asset_id: record.asset_id.clone(),
        kind,
        source_path: source.path.clone(),
        source: identity,
        root_device: source.metadata.dev,
    }
}

/// Gathers the evidence of one asset from its record, its files and what CloudKit answered.
pub fn gather_asset(record: &AssetRecord, index: usize, observed: &AssetObservation) -> (r: Result<
    GatheredAsset,
    LegacyUploadEvidenceError,
>)
    ensures
        match r {
            Ok(gathered) => gather_refusal(*record, index as int, *observed) is None && gathers(
                gathered,
                *record,
                index as int,
                *observed,
            ),
            Err(error) => gather_refusal(*record, index as int, *observed) == Some(error@),
        },
{
    let proofs = match needed_proofs(record) {
        Ok(proofs) => proofs,
        Err(error) => {
            return Err(error);
        },
    };
    let final_path = match agreed_path(record, &proofs) {
        Some(path) => path,
        None => {
            return Err(failure("proof_binding"));
        },
    };
    let raw = match HeldGenerationSource::open(&record.raw_path, &observed.raw.read) {
        Ok(source) => source,
        Err(error) => {
            return Err(error);
        },
    };
    let final_heic = match HeldGenerationSource::open(final_path, &observed.final_heic.read) {
        Ok(source) => source,
        Err(error) => {
            return Err(error);
        },
    };
    let mirror = match HeldGenerationSource::open(
        &proofs.mirror.icloudpd_download_path,
        &observed.mirror.read,
    ) {
        Ok(source) => source,
        Err(error) => {
            return Err(error);
        },
    };
    if !same_text(&raw.sha256, &proofs.nas.sha256) || raw.metadata.size != proofs.nas.size_bytes
        || !same_text(&mirror.sha256, &proofs.upload.uploaded_heic_sha256)
        || mirror.metadata.size != proofs.heic.size_bytes || is_same_file(&raw, &final_heic)
        || is_same_file(&raw, &mirror) || is_same_file(&final_heic, &mirror) {
        return Err(failure("source_binding"));
    }
    let record_sha256 = match &record.record_sha256 {
        Some(sha256) => sha256,
        None => {
            return Err(failure("record_digest"));
        },
    };
    let replacement = match retired_upload(record, &proofs, &final_heic, observed) {
        Ok(replacement) => replacement,
        Err(error) => {
            return Err(error);
        },
    };
    let mut members: Vec<EvidenceQuarantineMember> = Vec::new();
    if replacement.is_some() {
        members.push(
            quarantine_member(record, LegacyUploadMigrationQuarantineKind::Final, &final_heic),
        );
        members.push(
            quarantine_member(record, LegacyUploadMigrationQuarantineKind::OldMirror, &mirror),
        );
    }
    assert(final_heic.stands_for(final_heic.path@, observed.final_heic.read));
    assert(mirror.stands_for(mirror.path@, observed.mirror.read));
    let (reference, reference_source) = match reference_index_of_asset(index) {
        None => (None, None),
        Some(place) => match held_reference(
            record,
            record_sha256,
            place,
            &raw,
            &final_heic,
            &mirror,
            observed,
        ) {
            Err(error) => {
                return Err(error);
            },
            Ok((reference, source)) => {
                members.push(
                    quarantine_member(
                        record,
                        LegacyUploadMigrationQuarantineKind::Reference,
                        &source,
                    ),
                );
                assert(source.stands_for(source.path@, observed.reference));
                (Some(reference), Some(source))
            },
        },
    };
    match raw.revalidate(&observed.raw.held, &observed.raw.named) {
        Ok(()) => {},
        Err(error) => {
            return Err(error);
        },
    }
    match final_heic.revalidate(&observed.final_heic.held, &observed.final_heic.named) {
        Ok(()) => {},
        Err(error) => {
            return Err(error);
        },
    }
    match mirror.revalidate(&observed.mirror.held, &observed.mirror.named) {
        Ok(()) => {},
        Err(error) => {
            return Err(error);
        },
    }
    let raw_identity = raw.quarantine_identity();
    Ok(
        GatheredAsset {
            asset: EvidenceAsset {
                asset_id: record.asset_id.clone(),
                record_sha256: record_sha256.clone(),
            },
            raw_input: QuarantineRawInput {
                asset_id: record.asset_id.clone(),
                path: record.raw_path.clone(),
                source: raw_identity,
            },
            replacement,
            reference,
            members,
            held: HeldGenerationAsset { raw, final_heic, mirror, reference: reference_source },
        },
    )
}

/// What was uploaded for an asset is retired exactly if the HEIC that lies on disk is no longer
/// the one that was uploaded: another content, or another size, be it larger or smaller. Only then
/// do the HEIC and its mirror go into quarantine.
pub proof fn uploads_are_retired_once_their_file_differs(
    gathered: GatheredAsset,
    record: AssetRecord,
    index: int,
    observed: AssetObservation,
    metadata: EvidenceMetadata,
    content: Vec<u8>,
    upload: UploadProof,
    heic: HeicVerificationProof,
)
    requires
        gathers(gathered, record, index, observed),
        observed.final_heic.read == SourceRead::Read(metadata, content),
        record.upload is Some,
        record.upload->0.decoded == Some(upload),
        record.heic is Some,
        record.heic->0.decoded == Some(heic),
    ensures
        gathered.replacement is Some <==> digest::sha256_hex(content@)
            != upload.uploaded_heic_sha256@ || metadata.size < heic.size_bytes || metadata.size
            > heic.size_bytes,
        gathered.replacement is Some <==> gathered.members@.len() >= 2,
        gathered.replacement is None <==> gathered.members@.len() <= 1,
        gathered.reference is Some <==> index == 2 || index == 3 || index == 7 || index == 8
            || index == 9,
        gathered.reference is Some <==> gathered.members@.len() % 2 == 1,
{
}

/// CloudKit is asked about an upload exactly if its file was replaced: its answers make no
/// difference otherwise, and where it was replaced a failure to answer is told as it is.
pub proof fn answers_count_for_replaced_uploads_alone(
    record: AssetRecord,
    observed: AssetObservation,
    metadata: EvidenceMetadata,
    content: Vec<u8>,
    upload: UploadProof,
    heic: HeicVerificationProof,
)
    requires
        observed.final_heic.read == SourceRead::Read(metadata, content),
        record.upload is Some,
        record.upload->0.decoded == Some(upload),
        record.heic is Some,
        record.heic->0.decoded == Some(heic),
    ensures
        digest::sha256_hex(content@) == upload.uploaded_heic_sha256@ && metadata.size
            == heic.size_bytes ==> retirement_refusal(record, observed) is None,
        digest::sha256_hex(content@) != upload.uploaded_heic_sha256@ || metadata.size
            != heic.size_bytes ==> {
            &&& observed.resolved matches Err(error) ==> retirement_refusal(record, observed)
                == Some(error@)
            &&& observed.resolved is Ok && observed.resolved->Ok_0.record_name@
                != upload.uploaded_heic_asset_id@ ==> retirement_refusal(record, observed) is Some
            &&& observed.resolved is Ok && observed.resolved->Ok_0.matched_heic_sha256@
                != upload.uploaded_heic_sha256@ ==> retirement_refusal(record, observed) is Some
            &&& observed.resolved is Ok && observed.resolved->Ok_0.size_bytes != heic.size_bytes
                ==> retirement_refusal(record, observed) is Some
        },
{
}

/// A replaced upload is retired where CloudKit finds the very upload, with a change tag and a
/// master of its own that is neither the upload nor the original, and answers about the original.
pub proof fn replaced_uploads_are_retired_as_cloudkit_knows_them(
    record: AssetRecord,
    observed: AssetObservation,
    resolved: CloudKitUploadedHeicAsset,
    upload: UploadProof,
    heic: HeicVerificationProof,
    original: OriginalAssetProof,
)
    requires
        record.upload is Some,
        record.upload->0.decoded == Some(upload),
        record.heic is Some,
        record.heic->0.decoded == Some(heic),
        record.original_asset is Some,
        record.original_asset->0.decoded == Some(original),
        observed.resolved == Ok::<CloudKitUploadedHeicAsset, LegacyUploadEvidenceError>(resolved),
        upload.uploaded_heic_path is Some,
        replaced(record, observed),
    ensures
        retirement_refusal(record, observed) is None <==> {
            &&& resolved.record_name@ == upload.uploaded_heic_asset_id@
            &&& resolved.matched_heic_sha256@ == upload.uploaded_heic_sha256@
            &&& resolved.size_bytes == heic.size_bytes
            &&& identity::identity_text(resolved.record_change_tag@)
            &&& identity::identity_text(resolved.master_record_name@)
            &&& resolved.master_record_name@ != resolved.record_name@
            &&& resolved.master_record_name@ != original.record_name@
            &&& resolved.record_name@ != original.record_name@
            &&& observed.original is Ok
            &&& path::last_name(upload.uploaded_heic_path->0@) is Some
        },
{
}

/// The proofs of a record agree exactly if they tell of one original, found under its own file
/// name, of one sound HEIC made from it, of one upload of that, and of one mirror of the upload,
/// all in one zone of one database.
pub proof fn agreeing_proofs_tell_one_story(
    record: AssetRecord,
    nas: NasRawProof,
    conversion: ConversionResultProof,
    heic: HeicVerificationProof,
    upload: UploadProof,
    mirror: IcloudpdLocalMirrorProof,
    original: OriginalAssetProof,
)
    requires
        record.nas is Some,
        record.nas->0.decoded == Some(nas),
        record.conversion is Some,
        record.conversion->0.decoded == Some(conversion),
        record.heic is Some,
        record.heic->0.decoded == Some(heic),
        record.upload is Some,
        record.upload->0.decoded == Some(upload),
        record.icloudpd_local_mirror is Some,
        record.icloudpd_local_mirror->0.decoded == Some(mirror),
        record.original_asset is Some,
        record.original_asset->0.decoded == Some(original),
    ensures
        proofs_refusal(record) is None,
        proofs_agree(record) <==> {
            &&& upload.uploaded_heic_path matches Some(place)
            &&& path::same_place(conversion.heic_path@, place@)
            &&& path::same_place(heic.heic_path@, place@)
            &&& path::same_place(mirror.uploaded_heic_path@, place@)
            &&& path::same_place(nas.canonical_path@, record.raw_path@)
            &&& path::last_name(record.raw_path@) == Some(original.filename@)
            &&& original.matched_raw_sha256@ == nas.sha256@
            &&& original.size_bytes == nas.size_bytes
            &&& conversion.heic_sha256@ == heic.heic_sha256@
            &&& upload.uploaded_heic_sha256@ == heic.heic_sha256@
            &&& mirror.uploaded_heic_sha256@ == heic.heic_sha256@
            &&& conversion.size_bytes == heic.size_bytes
            &&& mirror.size_bytes == heic.size_bytes
            &&& heic.heif_info_ok
            &&& heic.metadata_copied
            &&& heic.visual_content_ok
            &&& heic.visual_match_ok
            &&& mirror.uploaded_heic_asset_id@ == upload.uploaded_heic_asset_id@
            &&& original.database_scope == upload.database_scope
            &&& original.zone_name@ == upload.zone_name@
            &&& manifest::optional_text(original.owner_record_name) == manifest::optional_text(
                upload.owner_record_name,
            )
        },
{
}

/// A record lacks a proof that evidence needs exactly if one of the six is not stored or cannot be
/// decoded.
pub proof fn evidence_needs_six_proofs(record: AssetRecord)
    ensures
        proofs_refusal(record) is None <==> {
            &&& record.nas is Some && record.nas->0.decoded is Some
            &&& record.conversion is Some && record.conversion->0.decoded is Some
            &&& record.heic is Some && record.heic->0.decoded is Some
            &&& record.upload is Some && record.upload->0.decoded is Some
            &&& record.icloudpd_local_mirror is Some && record.icloudpd_local_mirror->0.decoded is Some
            &&& record.original_asset is Some && record.original_asset->0.decoded is Some
        },
{
}

/// The files of an asset are bound exactly if the original and the mirror hold what their proofs
/// say, and no two of the three files are one; the HEIC may hold anything.
pub proof fn bound_sources_are_three_files(
    record: AssetRecord,
    observed: AssetObservation,
    raw: (EvidenceMetadata, Vec<u8>),
    final_heic: (EvidenceMetadata, Vec<u8>),
    mirror: (EvidenceMetadata, Vec<u8>),
    nas: NasRawProof,
    heic: HeicVerificationProof,
    upload: UploadProof,
)
    requires
        observed.raw.read == SourceRead::Read(raw.0, raw.1),
        observed.final_heic.read == SourceRead::Read(final_heic.0, final_heic.1),
        observed.mirror.read == SourceRead::Read(mirror.0, mirror.1),
        record.nas is Some,
        record.nas->0.decoded == Some(nas),
        record.heic is Some,
        record.heic->0.decoded == Some(heic),
        record.upload is Some,
        record.upload->0.decoded == Some(upload),
    ensures
        sources_bound(record, observed) <==> {
            &&& digest::sha256_hex(raw.1@) == nas.sha256@
            &&& raw.0.size == nas.size_bytes
            &&& digest::sha256_hex(mirror.1@) == upload.uploaded_heic_sha256@
            &&& mirror.0.size == heic.size_bytes
            &&& raw.0.dev != final_heic.0.dev || raw.0.ino != final_heic.0.ino
            &&& raw.0.dev != mirror.0.dev || raw.0.ino != mirror.0.ino
            &&& final_heic.0.dev != mirror.0.dev || final_heic.0.ino != mirror.0.ino
        },
{
}

/// The image of a reference is accepted exactly if its private copy is faithful and stays so, the
/// reference itself stays as it is, and the copy is removed in the end.
pub proof fn images_are_seen_in_faithful_copies(
    source: EvidenceMetadata,
    sha256: Seq<char>,
    look: StagedProbe,
)
    ensures
        probe_refusal(source, sha256, look) is None <==> {
            &&& look.staged matches SourceRead::Read(metadata, content)
            &&& metadata.is_regular
            &&& metadata.nlink == 1
            &&& metadata.mode & 511 == 384
            &&& metadata.size == source.size
            &&& digest::sha256_hex(content@) == sha256
            &&& look.probe is Ok
            &&& look.restaged matches SourceRead::Read(again, kept)
            &&& again == metadata
            &&& digest::sha256_hex(kept@) == sha256
            &&& look.held matches SourceRead::Read(held, held_content)
            &&& held == source
            &&& digest::sha256_hex(held_content@) == sha256
            &&& look.named matches SourceRead::Read(named, named_content)
            &&& named == source
            &&& digest::sha256_hex(named_content@) == sha256
            &&& look.removed
        },
{
}

/// The third, fourth, eighth and ninth asset have a reference turned a quarter to the right, the
/// tenth one turned a quarter to the left, and no other asset has one.
pub proof fn references_have_their_places_and_orientations(index: int, image: ReferenceNormalizationIdentity)
    requires
        0 <= index < 10,
    ensures
        reference_of_asset(index) is Some <==> index == 2 || index == 3 || index == 7 || index == 8
            || index == 9,
        reference_of_asset(2) == Some(0int),
        reference_of_asset(3) == Some(1int),
        reference_of_asset(7) == Some(2int),
        reference_of_asset(8) == Some(3int),
        reference_of_asset(9) == Some(4int),
        forall|reference: int|
            0 <= reference < 5 ==> (#[trigger] image_expected(image, reference) <==> {
                &&& image.orientation == (if reference == 4 {
                    8u16
                } else {
                    6u16
                })
                &&& image.width > 0
                &&& image.height > 0
                &&& identity::digest_text(image.decoded_pixel_sha256@)
            }),
{
}

/// Evidence of an asset is gathered exactly if its proofs agree, its files are bound and stay as
/// they are, its record has a digest, a replaced upload can be retired, and the reference that its
/// place calls for stands.
pub proof fn assets_in_order_are_gathered(
    record: AssetRecord,
    index: int,
    observed: AssetObservation,
)
    ensures
        gather_refusal(record, index, observed) is None <==> {
            &&& proofs_refusal(record) is None
            &&& proofs_agree(record)
            &&& sealed::source_refusal(record.raw_path@, observed.raw.read) is None
            &&& sealed::source_refusal(
                record.uploaded_path()->0,
                observed.final_heic.read,
            ) is None
            &&& sealed::source_refusal(record.mirror_path()->0, observed.mirror.read) is None
            &&& sources_bound(record, observed)
            &&& record.record_sha256 is Some
            &&& retirement_refusal(record, observed) is None
            &&& reference_of_asset(index) matches Some(reference) ==> {
                &&& sealed::source_refusal(reference_place(record), observed.reference) is None
                &&& reference_distinct(observed)
                &&& probe_refusal(
                    observed.reference->Read_0,
                    digest::sha256_hex(observed.reference->Read_1@),
                    observed.probe,
                ) is None
                &&& image_expected(observed.probe.probe->Ok_0, reference)
            }
            &&& observed.raw.steady()
            &&& observed.final_heic.steady()
            &&& observed.mirror.steady()
        },
{
}

/// A reference is distinct exactly if it shares neither its file nor its content with the original,
/// the HEIC or the mirror of its asset.
pub proof fn distinct_references_share_nothing(
    observed: AssetObservation,
    reference: (EvidenceMetadata, Vec<u8>),
    raw: (EvidenceMetadata, Vec<u8>),
    final_heic: (EvidenceMetadata, Vec<u8>),
    mirror: (EvidenceMetadata, Vec<u8>),
)
    requires
        observed.reference == SourceRead::Read(reference.0, reference.1),
        observed.raw.read == SourceRead::Read(raw.0, raw.1),
        observed.final_heic.read == SourceRead::Read(final_heic.0, final_heic.1),
        observed.mirror.read == SourceRead::Read(mirror.0, mirror.1),
    ensures
        reference_distinct(observed) <==> {
            &&& !(reference.0.dev == raw.0.dev && reference.0.ino == raw.0.ino)
            &&& !(reference.0.dev == final_heic.0.dev && reference.0.ino == final_heic.0.ino)
            &&& !(reference.0.dev == mirror.0.dev && reference.0.ino == mirror.0.ino)
            &&& digest::sha256_hex(reference.1@) != digest::sha256_hex(raw.1@)
            &&& digest::sha256_hex(reference.1@) != digest::sha256_hex(final_heic.1@)
            &&& digest::sha256_hex(reference.1@) != digest::sha256_hex(mirror.1@)
        },
{
}

/// A retirement says of the upload what CloudKit answered, of the destination what the upload was
/// made to, and of the original what was asked for and answered; and it seals the stored proofs.
pub proof fn retirements_say_what_is_known(
    gathered: GatheredAsset,
    record: AssetRecord,
    index: int,
    observed: AssetObservation,
    replacement: EvidenceRetiredReplacement,
)
    requires
        gather_refusal(record, index, observed) is None,
        gathers(gathered, record, index, observed),
        gathered.replacement == Some(replacement),
    ensures
        replacement.asset_id@ == record.asset_id@,
        replacement.uploaded_asset_id@ == observed.resolved->Ok_0.record_name@,
        replacement.uploaded_master_id@ == observed.resolved->Ok_0.master_record_name@,
        replacement.old_record_change_tag@ == observed.resolved->Ok_0.record_change_tag@,
        replacement.initial_remote_state == observed.resolved->Ok_0.initial_remote_state,
        replacement.owner_record_name_sha256@
            == observed.resolved->Ok_0.owner_record_name_sha256@,
        replacement.uploaded_heic_sha256@ == record.upload->0.decoded->0.uploaded_heic_sha256@,
        replacement.uploaded_heic_size_bytes == record.heic->0.decoded->0.size_bytes,
        replacement.original_asset_record_name@
            == record.original_asset->0.decoded->0.record_name@,
        replacement.original_record_change_tag@
            == record.original_asset->0.decoded->0.record_change_tag@,
        replacement.original_remote_state == observed.original->Ok_0.remote_state,
        replacement.destination.zone_name@ == record.upload->0.decoded->0.zone_name@,
        replacement.destination.database_scope
            == record.upload->0.decoded->0.database_scope,
        replacement.old_upload_lineage_sha256@ == digest::sha256_hex(record.upload->0.json@),
        replacement.old_conversion_lineage_sha256@ == digest::sha256_hex(
            record.conversion->0.json@,
        ),
        replacement.old_mirror_lineage_sha256@ == digest::sha256_hex(
            record.icloudpd_local_mirror->0.json@,
        ),
        replacement.original_asset_identity_sha256@ == digest::sha256_hex(
            record.original_asset->0.json@,
        ),
{
}

/// What is wrong with a look at a reference is told by its name, in the order in which it is looked
/// at.
pub proof fn faults_of_a_probe_are_named(
    source: EvidenceMetadata,
    sha256: Seq<char>,
    look: StagedProbe,
)
    ensures
        ({
            let faithful = copy_faithful(source, sha256, look.staged);
            let shown = look.probe is Ok;
            let kept = look.restaged.shows(look.staged->Read_0, sha256);
            let unchanged = look.held.shows(source, sha256) && look.named.shows(source, sha256);
            let removed = look.removed;
            let told = probe_refusal(source, sha256, look);
            &&& !faithful ==> told == Some("reference_staging"@)
            &&& faithful && !shown ==> told == Some(look.probe->Err_0@)
            &&& faithful && shown && !kept ==> told == Some("reference_staging"@)
            &&& faithful && shown && kept && !unchanged ==> told == Some("source_changed"@)
            &&& faithful && shown && kept && unchanged && !removed
                ==> told == Some("reference_staging"@)
        }),
{
}

/// A proof that is not stored is told as missing, and one that cannot be decoded as of another
/// schema; of several, the first is told.
pub proof fn missing_proofs_are_named(record: AssetRecord)
    ensures
        record.nas is None ==> proofs_refusal(record) == Some("proof_missing"@),
        record.nas is Some && record.nas->0.decoded is None ==> proofs_refusal(record) == Some(
            "proof_schema"@,
        ),
        proof_refusal(record.nas) is None ==> {
            &&& record.conversion is None ==> proofs_refusal(record) == Some("proof_missing"@)
            &&& record.conversion is Some && record.conversion->0.decoded is None
                ==> proofs_refusal(record) == Some("proof_schema"@)
        },
        proof_refusal(record.nas) is None && proof_refusal(record.conversion) is None ==> {
            &&& record.heic is None ==> proofs_refusal(record) == Some("proof_missing"@)
            &&& record.heic is Some && record.heic->0.decoded is None ==> proofs_refusal(record)
                == Some("proof_schema"@)
        },
{
}

/// What is wrong with a replaced upload is told by its name: what CloudKit answered, an answer
/// about something else, or a path without a name.
pub proof fn faults_of_a_retirement_are_named(
    record: AssetRecord,
    observed: AssetObservation,
)
    requires
        replaced(record, observed),
    ensures
        ({
            let found = observed.resolved is Ok;
            let bound = resolution_bound(record, observed.resolved->Ok_0);
            let known = observed.original is Ok;
            let named = path::last_name(record.uploaded_path()->0) is Some;
            let told = retirement_refusal(record, observed);
            &&& !found ==> told == Some(observed.resolved->Err_0@)
            &&& found && !bound ==> told == Some("cloudkit_binding"@)
            &&& found && bound && !known ==> told == Some(observed.original->Err_0@)
            &&& found && bound && known && !named ==> told == Some("proof_binding"@)
        }),
{
}

/// What is wrong with an asset is told by its name, in the order in which it is gathered.
pub proof fn faults_of_an_asset_are_named(
    record: AssetRecord,
    index: int,
    observed: AssetObservation,
)
    ensures
        ({
            let proofs = proofs_refusal(record);
            let raw = sealed::source_refusal(record.raw_path@, observed.raw.read);
            let uploaded = sealed::source_refusal(
                record.uploaded_path()->0,
                observed.final_heic.read,
            );
            let mirror = sealed::source_refusal(record.mirror_path()->0, observed.mirror.read);
            let retirement = retirement_refusal(record, observed);
            let reference = asset_reference_refusal(record, index, observed);
            let proven = proofs is None;
            let agreed = proofs_agree(record);
            let raw_read = raw is None;
            let uploaded_read = uploaded is None;
            let mirror_read = mirror is None;
            let bound = sources_bound(record, observed);
            let digested = record.record_sha256 is Some;
            let retired = retirement is None;
            let referenced = reference is None;
            let steady = observed.raw.steady() && observed.final_heic.steady()
                && observed.mirror.steady();
            let told = gather_refusal(record, index, observed);
            &&& !proven ==> told == proofs
            &&& proven && !agreed ==> told == Some("proof_binding"@)
            &&& proven && agreed && !raw_read ==> told == raw
            &&& proven && agreed && raw_read && !uploaded_read ==> told == uploaded
            &&& proven && agreed && raw_read && uploaded_read && !mirror_read ==> told == mirror
            &&& proven && agreed && raw_read && uploaded_read && mirror_read && !bound
                ==> told == Some("source_binding"@)
            &&& proven && agreed && raw_read && uploaded_read && mirror_read && bound
                && !digested ==> told == Some("record_digest"@)
            &&& proven && agreed && raw_read && uploaded_read && mirror_read && bound
                && digested && !retired ==> told == retirement
            &&& proven && agreed && raw_read && uploaded_read && mirror_read && bound
                && digested && retired && !referenced ==> told == reference
            &&& proven && agreed && raw_read && uploaded_read && mirror_read && bound
                && digested && retired && referenced && !steady
                ==> told == Some("source_changed"@)
        }),
{
}

/// What is wrong with a reference that is called for is told by its name.
pub proof fn faults_of_an_asset_reference_are_named(
    record: AssetRecord,
    index: int,
    observed: AssetObservation,
    reference: int,
)
    requires
        reference_of_asset(index) == Some(reference),
    ensures
        ({
            let opening = sealed::source_refusal(reference_place(record), observed.reference);
            let probing = probe_refusal(
                observed.reference->Read_0,
                digest::sha256_hex(observed.reference->Read_1@),
                observed.probe,
            );
            let opened = opening is None;
            let distinct = reference_distinct(observed);
            let probed = probing is None;
            let expected = image_expected(observed.probe.probe->Ok_0, reference);
            let told = asset_reference_refusal(record, index, observed);
            &&& !opened ==> told == opening
            &&& opened && !distinct ==> told == Some("reference_distinct"@)
            &&& opened && distinct && !probed ==> told == probing
            &&& opened && distinct && probed && !expected ==> told == Some("reference_image"@)
        }),
{
}

/// The members of an asset are the HEIC and the mirror of a retired upload and the reference, each
/// where it lies, as it was read, and to be moved within its own device.
pub proof fn members_are_the_files_as_they_were_read(
    gathered: GatheredAsset,
    record: AssetRecord,
    index: int,
    observed: AssetObservation,
    i: int,
)
    requires
        gathers(gathered, record, index, observed),
        0 <= i < gathered.members@.len(),
    ensures
        ({
            let member = gathered.members@[i];
            let read = match member.kind {
                LegacyUploadMigrationQuarantineKind::Final => observed.final_heic.read,
                LegacyUploadMigrationQuarantineKind::OldMirror => observed.mirror.read,
                LegacyUploadMigrationQuarantineKind::Reference => observed.reference,
            };
            let place = match member.kind {
                LegacyUploadMigrationQuarantineKind::Final => record.uploaded_path()->0,
                LegacyUploadMigrationQuarantineKind::OldMirror => record.mirror_path()->0,
                LegacyUploadMigrationQuarantineKind::Reference => path::with_extension(
                    record.uploaded_path()->0,
                    ".oriented-preview.jpg"@,
                ),
            };
            &&& member.asset_id == record.asset_id
            &&& member.source_path@ == place
            &&& member.source.device == read->Read_0.dev
            &&& member.source.inode == read->Read_0.ino
            &&& member.source.owner == read->Read_0.uid
            &&& member.source.mode == read->Read_0.mode & 511
            &&& member.source.link_count == read->Read_0.nlink
            &&& member.source.size_bytes == read->Read_0.size
            &&& member.source.modified_unix_seconds == read->Read_0.mtime
            &&& member.source.modified_unix_nanoseconds == read->Read_0.mtime_nsec
            &&& member.source.sha256@ == digest::sha256_hex(read->Read_1@)
            &&& member.root_device == read->Read_0.dev
        }),
        gathered.replacement is Some ==> gathered.members@[0].kind is Final
            && gathered.members@[1].kind is OldMirror,
        gathered.reference is Some ==> gathered.members@.last().kind is Reference,
{
    if gathered.reference is Some {
        assert(gathered.members@.last() == gathered.members@[gathered.members@.len() - 1]);
    }
    let member = gathered.members@[i];
    if gathered.replacement is Some {
        assert(i == 0 || i == 1 || i == 2);
    } else {
        assert(i == 0);
    }
}

/// What is gathered of an asset says of its original, its record and its reference what was found.
pub proof fn gathered_assets_say_what_was_found(
    gathered: GatheredAsset,
    record: AssetRecord,
    index: int,
    observed: AssetObservation,
)
    requires
        gathers(gathered, record, index, observed),
    ensures
        gathered.asset.asset_id == record.asset_id,
        record.record_sha256 == Some(gathered.asset.record_sha256),
        gathered.raw_input.asset_id == record.asset_id,
        gathered.raw_input.path == record.raw_path,
        gathered.raw_input.source.device == observed.raw.read->Read_0.dev,
        gathered.raw_input.source.inode == observed.raw.read->Read_0.ino,
        gathered.raw_input.source.size_bytes == observed.raw.read->Read_0.size,
        gathered.raw_input.source.link_count == observed.raw.read->Read_0.nlink,
        gathered.raw_input.source.sha256@ == digest::sha256_hex(observed.raw.read->Read_1@),
        gathered.reference is Some ==> {
            let reference = gathered.reference->0;
            let image = observed.probe.probe->Ok_0;
            &&& reference.asset_id == record.asset_id
            &&& record.record_sha256 == Some(reference.asset_record_sha256)
            &&& reference.reference_path@ == path::with_extension(
                record.uploaded_path()->0,
                ".oriented-preview.jpg"@,
            )
            &&& reference.device == observed.reference->Read_0.dev
            &&& reference.inode == observed.reference->Read_0.ino
            &&& reference.size_bytes == observed.reference->Read_0.size
            &&& reference.file_sha256@ == digest::sha256_hex(observed.reference->Read_1@)
            &&& reference.orientation == image.orientation
            &&& reference.width == image.width
            &&& reference.height == image.height
            &&& reference.decoded_pixel_sha256 == image.decoded_pixel_sha256
        },
{
}

/// A retirement names as its destination the owner and the zone that the upload was made to, under
/// the file name of the upload, says how CloudKit looked at both records, and leaves the digest of
/// its destination to be sealed later.
pub proof fn retirements_name_their_destination(
    gathered: GatheredAsset,
    record: AssetRecord,
    index: int,
    observed: AssetObservation,
    replacement: EvidenceRetiredReplacement,
)
    requires
        gather_refusal(record, index, observed) is None,
        gathers(gathered, record, index, observed),
        gathered.replacement == Some(replacement),
    ensures
        replacement.destination.owner_record_name
            == record.upload->0.decoded->0.owner_record_name,
        replacement.destination.zone_name == record.upload->0.decoded->0.zone_name,
        replacement.destination.database_scope == record.upload->0.decoded->0.database_scope,
        Some(replacement.destination.filename@) == path::last_name(
            record.upload->0.decoded->0.uploaded_heic_path->0@,
        ),
        replacement.initial_state_lookup_mode == observed.resolved->Ok_0.initial_state_lookup_mode,
        replacement.original_state_lookup_mode == observed.original->Ok_0.lookup_mode,
        replacement.destination_sha256@.len() == 0,
{
}

/// What is held of an asset are the very files that were read, each under its own path.
pub proof fn held_files_are_those_that_were_read(
    gathered: GatheredAsset,
    record: AssetRecord,
    index: int,
    observed: AssetObservation,
)
    requires
        gathers(gathered, record, index, observed),
    ensures
        gathered.held.raw.path@ == record.raw_path@,
        gathered.held.raw.metadata == observed.raw.read->Read_0,
        gathered.held.raw.sha256@ == digest::sha256_hex(observed.raw.read->Read_1@),
        gathered.held.final_heic.path@ == record.uploaded_path()->0,
        gathered.held.final_heic.metadata == observed.final_heic.read->Read_0,
        gathered.held.final_heic.sha256@ == digest::sha256_hex(observed.final_heic.read->Read_1@),
        gathered.held.mirror.path@ == record.mirror_path()->0,
        gathered.held.mirror.metadata == observed.mirror.read->Read_0,
        gathered.held.mirror.sha256@ == digest::sha256_hex(observed.mirror.read->Read_1@),
        gathered.held.reference is Some <==> gathered.reference is Some,
        gathered.held.reference is Some ==> {
            &&& gathered.held.reference->0.path@ == gathered.reference->0.reference_path@
            &&& gathered.held.reference->0.metadata == observed.reference->Read_0
            &&& gathered.held.reference->0.sha256@ == digest::sha256_hex(
                observed.reference->Read_1@,
            )
        },
{
}

} // verus!
