use vstd::prelude::*;
use vstd::string::*;

use crate::manifest;
use crate::manifest::{canonical_proof, Manifest};
use crate::path;
use crate::path::same_path;
use crate::phase::LegacyUploadMigrationPhase;
use crate::quarantine::{FileView, LegacyUploadMigrationQuarantineFileIdentity};
use crate::sealed::OWNER_ONLY_MODE;
use crate::text::same_text;

verus! {

/// The output of a conversion: where it lies, its digest, and its size.
pub struct ConversionOutput {
    pub path: Seq<char>,
    pub sha256: Seq<char>,
    pub size_bytes: u64,
}

/// The verified output of the conversion of an asset, once its journal stands at a phase from the
/// conversion on: both proofs are stored exactly, they agree, and every check of the HEIC
/// succeeded.
pub open spec fn verified_output(
    manifest: Manifest,
    phase: LegacyUploadMigrationPhase,
    id: Seq<char>,
) -> Option<ConversionOutput> {
    if phase.ordinal() < LegacyUploadMigrationPhase::Converted.ordinal() {
        None
    } else {
        match manifest.record(id) {
            None => None,
            Some(record) => match record.valid_journal() {
                None => None,
                Some(journal) => match (
                    manifest::exact_proof(record.conversion),
                    manifest::exact_proof(record.heic),
                ) {
                    (Some(conversion), Some(heic)) => if {
                        &&& journal.last_phase() == Some(phase)
                        &&& path::same_place(conversion.heic_path@, heic.heic_path@)
                        &&& conversion.heic_sha256@ == heic.heic_sha256@
                        &&& conversion.size_bytes == heic.size_bytes
                        &&& heic.sound()
                    } {
                        Some(
                            ConversionOutput {
                                path: heic.heic_path@,
                                sha256: heic.heic_sha256@,
                                size_bytes: heic.size_bytes,
                            },
                        )
                    } else {
                        None
                    },
                    _ => None,
                },
            },
        }
    }
}

/// The verified output of the conversion of an asset.
pub fn manifest_verified_conversion_output(
    manifest: &Manifest,
    phase: LegacyUploadMigrationPhase,
    asset_id: &str,
) -> (r: Option<(String, String, u64)>)
    ensures
        match r {
            Some((path, sha256, size_bytes)) => verified_output(*manifest, phase, asset_id@) == Some(
                ConversionOutput { path: path@, sha256: sha256@, size_bytes },
            ),
            None => verified_output(*manifest, phase, asset_id@) is None,
        },
{
    if phase.index() < LegacyUploadMigrationPhase::Converted.index() {
        return None;
    }
    let record = match manifest.get(asset_id) {
        None => {
            return None;
        },
        Some(record) => record,
    };
    let at_phase: bool = match record.journal_of() {
        None => false,
        Some(journal) => match journal.phase() {
            Some(reached) => reached == phase,
            None => false,
        },
    };
    if !at_phase {
        return None;
    }
    match (canonical_proof(&record.conversion), canonical_proof(&record.heic)) {
        (Some(conversion), Some(heic)) => if same_path(&conversion.heic_path, &heic.heic_path)
            && same_text(&conversion.heic_sha256, &heic.heic_sha256) && conversion.size_bytes
            == heic.size_bytes && heic.is_sound() {
            Some((heic.heic_path.clone(), heic.heic_sha256.clone(), heic.size_bytes))
        } else {
            None
        },
        _ => None,
    }
}

/// The verified output of the conversion of an asset lies at that path.
pub open spec fn output_at(
    manifest: Manifest,
    phase: LegacyUploadMigrationPhase,
    id: Seq<char>,
    place: Seq<char>,
) -> bool {
    verified_output(manifest, phase, id) matches Some(output) && path::same_place(
        output.path,
        place,
    )
}

/// Whether the verified output of the conversion of an asset lies at that path.
pub fn is_verified_conversion_output_at_path(
    manifest: &Manifest,
    phase: LegacyUploadMigrationPhase,
    asset_id: &str,
    output_path: &str,
) -> (r: bool)
    ensures
        r == output_at(*manifest, phase, asset_id@, output_path@),
{
    match manifest_verified_conversion_output(manifest, phase, asset_id) {
        Some((path, _, _)) => same_path(&path, output_path),
        None => false,
    }
}

/// A file that only the running user may read and write, with one name, and not empty.
pub open spec fn private_file(file: FileView, euid: u32) -> bool {
    &&& file.owner == euid
    &&& file.mode == OWNER_ONLY_MODE
    &&& file.link_count == 1
    &&& file.size_bytes != 0
}

/// A file that lies where a quarantined one lay is the verified output of the asset's conversion,
/// and not the file that was quarantined.
pub open spec fn conversion_source(
    manifest: Manifest,
    phase: LegacyUploadMigrationPhase,
    id: Seq<char>,
    place: Seq<char>,
    source: FileView,
    original: FileView,
    root_device: u64,
    euid: u32,
) -> bool {
    &&& phase.ordinal() >= LegacyUploadMigrationPhase::Converted.ordinal()
    &&& source.inode != original.inode
    &&& source.device == root_device
    &&& private_file(source, euid)
    &&& verified_output(manifest, phase, id) matches Some(output) && path::same_place(
        output.path,
        place,
    ) && source.sha256 == output.sha256 && source.size_bytes == output.size_bytes
}

/// Whether a file that lies where a quarantined one lay is the verified output of the asset's
/// conversion, and not the file that was quarantined. This is the case where the output path of
/// the conversion is the path of the file that was quarantined.
pub fn is_verified_conversion_source_for_quarantine(
    manifest: &Manifest,
    phase: LegacyUploadMigrationPhase,
    asset_id: &str,
    source_path: &str,
    source: &LegacyUploadMigrationQuarantineFileIdentity,
    original: &LegacyUploadMigrationQuarantineFileIdentity,
    root_device: u64,
    euid: u32,
) -> (r: bool)
    ensures
        r == conversion_source(
            *manifest,
            phase,
            asset_id@,
            source_path@,
            source@,
            original@,
            root_device,
            euid,
        ),
{
    if phase.index() < LegacyUploadMigrationPhase::Converted.index() || source.inode
        == original.inode || source.device != root_device || source.owner != euid || source.mode
        != OWNER_ONLY_MODE || source.link_count != 1 || source.size_bytes == 0 {
        return false;
    }
    match manifest_verified_conversion_output(manifest, phase, asset_id) {
        Some((heic_path, heic_sha256, heic_size_bytes)) => same_path(&heic_path, source_path)
            && same_text(&source.sha256, &heic_sha256) && source.size_bytes == heic_size_bytes,
        None => false,
    }
}

/// A conversion has a verified output exactly where its journal stands at the phase that is asked
/// about, from the conversion on, and both stored proofs are exact and tell of one sound HEIC.
pub proof fn verified_outputs_are_told_twice(
    manifest: Manifest,
    phase: LegacyUploadMigrationPhase,
    id: Seq<char>,
)
    ensures
        verified_output(manifest, phase, id) is Some <==> {
            &&& !(phase is Prepared || phase is DeleteConfirmed || phase is Quarantined
                || phase is Reset)
            &&& manifest.record(id) matches Some(record)
            &&& record.valid_journal() matches Some(journal)
            &&& journal.entries@.len() > 0
            &&& journal.entries@.last().phase == phase
            &&& record.conversion matches Some(converted)
            &&& record.heic matches Some(checked)
            &&& converted.canonical
            &&& checked.canonical
            &&& converted.decoded matches Some(conversion)
            &&& checked.decoded matches Some(heic)
            &&& path::same_place(conversion.heic_path@, heic.heic_path@)
            &&& conversion.heic_sha256@ == heic.heic_sha256@
            &&& conversion.size_bytes == heic.size_bytes
            &&& heic.heif_info_ok
            &&& heic.metadata_copied
            &&& heic.visual_content_ok
            &&& heic.visual_match_ok
        },
        verified_output(manifest, phase, id) matches Some(output) ==> {
            let heic = manifest.record(id)->0.heic->0.decoded->0;
            &&& output.path == heic.heic_path@
            &&& output.sha256 == heic.heic_sha256@
            &&& output.size_bytes == heic.size_bytes
        },
{
}

/// A new file may stand where a quarantined HEIC was if it is the verified output of the
/// conversion: another file on the device of the root, the running user's alone, with the digest
/// and the size of the output, at the place of the output.
pub proof fn only_the_verified_output_takes_the_place(
    manifest: Manifest,
    phase: LegacyUploadMigrationPhase,
    id: Seq<char>,
    place: Seq<char>,
    source: FileView,
    original: FileView,
    root_device: u64,
    euid: u32,
)
    ensures
        conversion_source(manifest, phase, id, place, source, original, root_device, euid) <==> {
            &&& verified_output(manifest, phase, id) matches Some(output)
            &&& path::same_place(output.path, place)
            &&& source.sha256 == output.sha256
            &&& source.size_bytes == output.size_bytes
            &&& source.inode != original.inode
            &&& source.device == root_device
            &&& source.owner == euid
            &&& source.mode == 384
            &&& source.link_count == 1
            &&& source.size_bytes > 0
        },
{
}

} // verus!
