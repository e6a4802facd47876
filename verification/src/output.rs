use vstd::prelude::*;
use vstd::string::*;

use crate::audit::LegacyUploadEvidenceAuditRequest;
use crate::digest;
use crate::digest::sha256_bytes;
use crate::document::{ASSET_COUNT, REFERENCE_COUNT, RETIRED_REPLACEMENT_COUNT};
use crate::error;
use crate::error::{failure, LegacyUploadEvidenceError};
use crate::gather::GatheredAsset;
use crate::generate;
use crate::generate::{
    prepare_generated_evidence, revalidate_generation_sources, GenerationEncodings,
    GenerationObservation, LegacyUploadEvidenceGenerateReport, LegacyUploadEvidenceGenerateRequest,
    PreparedEvidence, SourcesAgain,
};
use crate::layout::DirectoryMetadata;
use crate::load;
use crate::load::{audit_legacy_uploaded_heic_evidence, AuditObservation, EvidenceObservation};
use crate::path;
use crate::path::{file_name, safe_absolute_path};
use crate::plan;
use crate::recovery::MAX_DEVICE_RECOVERY_BYTES;
use crate::sealed::{
    is_owner_only, same_bytes, EvidenceMetadata, HeldGenerationSource, SealedEvidence,
    SHARED_WRITE_BITS,
};
use crate::text::{chars_of, same_text};

verus! {

/// A path ends in a name that a file can be created under.
pub open spec fn name_writable(path: Seq<char>) -> bool {
    path::last_name(path) matches Some(name) && forall|i: int|
        0 <= i < name.len() ==> #[trigger] name[i] != '\0'
}

fn is_name_writable(path: &str) -> (r: bool)
    ensures
        r == name_writable(path@),
{
    match file_name(path) {
        None => false,
        Some(name) => {
            let chars = chars_of(&name);
            let mut i: usize = 0;
            while i < chars.len()
                invariant
                    i <= chars@.len(),
                    chars@ == name@,
                    path::last_name(path@) == Some(name@),
                    forall|j: int| 0 <= j < i ==> #[trigger] name@[j] != '\0',
                decreases chars@.len() - i,
            {
                if chars[i] == '\0' {
                    assert(path::last_name(path@)->0[i as int] == '\0');
                    return false;
                }
                i += 1;
            }
            true
        },
    }
}

/// How creating the file for evidence went.
#[derive(Clone, Copy, Debug, PartialEq, Eq, Structural)]
pub enum CreatedOutput {
    /// No new file could be created.
    NotCreated,
    /// A new file was created, but could not be described.
    Undescribed,
    Created(EvidenceMetadata),
}

/// What happened while evidence was written.
#[derive(Debug, PartialEq, Eq)]
pub struct OutputObservation {
    /// The directory of the evidence, where it could be opened.
    pub parent: Option<DirectoryMetadata>,
    pub created: CreatedOutput,
    /// Whether all the bytes were written.
    pub written: bool,
    /// Whether the file and its directory were brought to disk.
    pub synced: bool,
    /// What the system said of the open file then.
    pub committed: Option<EvidenceMetadata>,
    pub reread: Option<Vec<u8>>,
    /// What the system said, after that, of the open file, of the file that has its name by then,
    /// and of the directory that has the directory's name.
    pub held: Option<EvidenceMetadata>,
    pub named: Option<EvidenceMetadata>,
    pub parent_now: Option<DirectoryMetadata>,
    /// The evidence, loaded and audited from where it was written.
    pub evidence: EvidenceObservation,
    pub audit: AuditObservation,
    /// A last look at the sources.
    pub again: SourcesAgain,
    pub euid: u32,
}

/// The file that was written is the one that was created, and holds the very bytes.
pub open spec fn output_verified(
    bytes: Seq<u8>,
    expected_sha256: Seq<char>,
    initial: EvidenceMetadata,
    observed: OutputObservation,
) -> bool {
    &&& observed.committed matches Some(committed)
    &&& committed.dev == initial.dev
    &&& committed.ino == initial.ino
    &&& committed.size == bytes.len()
    &&& observed.reread matches Some(reread)
    &&& reread@ == bytes
    &&& digest::sha256_hex(bytes) == expected_sha256
    &&& observed.held == Some(committed)
    &&& observed.named == Some(committed)
    &&& observed.parent_now matches Some(now)
    &&& now.dev == observed.parent->0.dev
    &&& now.ino == observed.parent->0.ino
}

/// The category under which an audit refuses evidence, or nothing.
pub open spec fn audited_refusal(
    request: LegacyUploadEvidenceAuditRequest,
    evidence: EvidenceObservation,
    observed: AuditObservation,
) -> Option<Seq<char>> {
    match load::loading_refusal(request, evidence, observed.euid) {
        Some(category) => Some(category),
        None => load::audit_refusal(
            request,
            evidence.document->0,
            evidence.state->Loaded_0,
            plan::cohort_phase(evidence.document->0, evidence.state->Loaded_0)->Ok_0,
            evidence.document->0,
            Seq::empty(),
            false,
            evidence.writable,
            load::same_again(evidence.read, observed.again),
            observed,
        ),
    }
}

/// The category under which written evidence is refused, or nothing.
pub open spec fn output_refusal(
    request: LegacyUploadEvidenceAuditRequest,
    bytes: Seq<u8>,
    gathered: Seq<GatheredAsset>,
    checkpoint: HeldGenerationSource,
    observed: OutputObservation,
) -> Option<Seq<char>> {
    let audited = audited_refusal(request, observed.evidence, observed.audit);
    if !name_writable(request.evidence_path@) || !(observed.parent matches Some(parent)
        && parent.is_dir) {
        Some("output_parent"@)
    } else {
        match observed.created {
            CreatedOutput::NotCreated => Some("output_create"@),
            CreatedOutput::Undescribed => Some("output_metadata"@),
            CreatedOutput::Created(initial) => if !initial.owner_only(observed.euid) {
                Some("output_metadata"@)
            } else if !observed.written {
                Some("output_write"@)
            } else if !observed.synced {
                Some("output_sync"@)
            } else if !output_verified(
                bytes,
                request.expected_evidence_sha256@,
                initial,
                observed,
            ) {
                Some("output_verify"@)
            } else if audited is Some {
                audited
            } else {
                generate::sources_refusal(gathered, checkpoint, observed.again)
            },
        }
    }
}

fn is_output_verified(
    bytes: &Vec<u8>,
    expected_sha256: &str,
    initial: EvidenceMetadata,
    observed: &OutputObservation,
) -> (r: bool)
    requires
        observed.parent is Some,
    ensures
        r == output_verified(bytes@, expected_sha256@, initial, *observed),
{
    match (&observed.committed, &observed.reread, &observed.held, &observed.named) {
        (Some(committed), Some(reread), Some(held), Some(named)) => {
            if committed.dev != initial.dev || committed.ino != initial.ino || committed.size
                != bytes.len() as u64 {
                return false;
            }
            if !same_bytes(reread, bytes) || !same_text(&sha256_bytes(reread), expected_sha256)
                || *held != *committed || *named != *held {
                return false;
            }
            match (&observed.parent, &observed.parent_now) {
                (Some(parent), Some(now)) => now.dev == parent.dev && now.ino == parent.ino,
                _ => false,
            }
        },
        _ => false,
    }
}

/// Accepts evidence that was written: the file is new, is its owner's alone, holds the very bytes
/// and passes its own audit, and nothing that it was made from changed meanwhile.
pub fn write_generated_evidence(
    request: &LegacyUploadEvidenceAuditRequest,
    bytes: &Vec<u8>,
    gathered: &Vec<GatheredAsset>,
    checkpoint: &HeldGenerationSource,
    observed: OutputObservation,
) -> (r: Result<(), LegacyUploadEvidenceError>)
    ensures
        error::refused_as(
            r,
            output_refusal(*request, bytes@, gathered@, *checkpoint, observed),
        ),
{
    let parent_stands: bool = match &observed.parent {
        Some(parent) => parent.is_dir,
        None => false,
    };
    if !is_name_writable(&request.evidence_path) || !parent_stands {
        return Err(failure("output_parent"));
    }
    let initial = match observed.created {
        CreatedOutput::NotCreated => {
            return Err(failure("output_create"));
        },
        CreatedOutput::Undescribed => {
            return Err(failure("output_metadata"));
        },
        CreatedOutput::Created(initial) => initial,
    };
    if !is_owner_only(initial, observed.euid) {
        return Err(failure("output_metadata"));
    }
    if !observed.written {
        return Err(failure("output_write"));
    }
    if !observed.synced {
        return Err(failure("output_sync"));
    }
    if !is_output_verified(bytes, &request.expected_evidence_sha256, initial, &observed) {
        return Err(failure("output_verify"));
    }
    let audit = match audit_legacy_uploaded_heic_evidence(
        request,
        observed.evidence,
        &observed.audit,
    ) {
        Err(error) => {
            return Err(error);
        },
        Ok(audit) => audit,
    };
    // An audit that passes answers with the digests that it was asked for.
    if !same_text(&audit.evidence_sha256, &request.expected_evidence_sha256) || !same_text(
        &audit.cohort_sha256,
        &request.expected_cohort_sha256,
    ) {
        return Err(failure("output_round_trip"));
    }
    revalidate_generation_sources(gathered, checkpoint, &observed.again)
}

/// Whether the file that has the name of refused evidence may be removed: only the very file that
/// was created for it.
pub fn may_remove_output(created: CreatedOutput, current: Option<EvidenceMetadata>) -> (r: bool)
    ensures
        r == (created matches CreatedOutput::Created(initial) && current matches Some(found)
            && found.dev == initial.dev && found.ino == initial.ino),
{
    match (created, current) {
        (CreatedOutput::Created(initial), Some(found)) => found.dev == initial.dev && found.ino
            == initial.ino,
        _ => false,
    }
}

/// A report tells the digests of what was generated, and the counts of a cohort.
pub open spec fn reports(
    report: LegacyUploadEvidenceGenerateReport,
    encodings: GenerationEncodings,
) -> bool {
    &&& report.evidence_sha256@ == digest::sha256_hex(encodings.evidence@)
    &&& report.cohort_sha256@ == digest::sha256_hex(encodings.document.cohort_json@)
    &&& report.manifest_target_sha256@ == digest::sha256_hex(encodings.assets_json@)
    &&& report.cloudkit_target_sha256@ == digest::sha256_hex(encodings.replacements_json@)
    &&& report.asset_count == ASSET_COUNT
    &&& report.retired_replacement_count == RETIRED_REPLACEMENT_COUNT
    &&& report.reference_count == REFERENCE_COUNT
}

/// Evidence was prepared, and writing it out was answered like that.
pub open spec fn prepared_and_written(
    prepared: PreparedEvidence,
    request: LegacyUploadEvidenceGenerateRequest,
    observed: GenerationObservation,
    output: OutputObservation,
    refusal: Option<Seq<char>>,
) -> bool {
    &&& generate::prepares(prepared, request, observed)
    &&& output_refusal(
        prepared.audit_request,
        observed.encodings.evidence@,
        prepared.gathered@,
        prepared.checkpoint,
        output,
    ) == refusal
}

/// Generates evidence and accepts it as it was written.
pub fn generate_legacy_uploaded_heic_evidence(
    request: &LegacyUploadEvidenceGenerateRequest,
    observed: &GenerationObservation,
    output: OutputObservation,
) -> (r: Result<LegacyUploadEvidenceGenerateReport, LegacyUploadEvidenceError>)
    ensures
        match r {
            Ok(report) => reports(report, observed.encodings) && exists|
                prepared: PreparedEvidence,
            | #[trigger]
                prepared_and_written(prepared, *request, *observed, output, None),
            Err(error) => generate::refuses_to_prepare(*request, *observed, error@) || exists|
                prepared: PreparedEvidence,
            | #[trigger]
                prepared_and_written(prepared, *request, *observed, output, Some(error@)),
        },
{
    let prepared = match prepare_generated_evidence(request, observed) {
        Err(error) => {
            return Err(error);
        },
        Ok(prepared) => prepared,
    };
    match write_generated_evidence(
        &prepared.audit_request,
        &observed.encodings.evidence,
        &prepared.gathered,
        &prepared.checkpoint,
        output,
    ) {
        Err(error) => {
            assert(prepared_and_written(prepared, *request, *observed, output, Some(error@)));
            return Err(error);
        },
        Ok(()) => {
            assert(prepared_and_written(prepared, *request, *observed, output, None));
        },
    }
    Ok(
        LegacyUploadEvidenceGenerateReport {
            evidence_sha256: prepared.audit_request.expected_evidence_sha256,
            cohort_sha256: prepared.audit_request.expected_cohort_sha256,
            manifest_target_sha256: prepared.manifest_target_sha256,
            cloudkit_target_sha256: prepared.cloudkit_target_sha256,
            asset_count: ASSET_COUNT as u64,
            retired_replacement_count: RETIRED_REPLACEMENT_COUNT as u64,
            reference_count: REFERENCE_COUNT as u64,
        },
    )
}

/// What happened while a receipt was written.
#[derive(Debug, PartialEq, Eq)]
pub struct ReceiptOutput {
    /// The directory of the receipt, where it could be opened.
    pub parent: Option<DirectoryMetadata>,
    /// Whether a new file was created.
    pub created: bool,
    /// Whether all the bytes were written and brought to disk.
    pub written: bool,
    pub reread: Option<Vec<u8>>,
    /// What the system said of the open file after that, and once more at the end.
    pub metadata: Option<EvidenceMetadata>,
    pub sealed: Option<EvidenceMetadata>,
    /// Whether the directory was brought to disk.
    pub parent_synced: bool,
}

/// A receipt of that length may be created under that path: the path is safe, the receipt is not
/// too large, and nobody else may write to the directory.
pub open spec fn receipt_creatable(
    path: Seq<char>,
    len: int,
    parent: Option<DirectoryMetadata>,
    euid: u32,
) -> bool {
    &&& path::safe_place(path)
    &&& 0 < len <= MAX_DEVICE_RECOVERY_BYTES
    &&& parent matches Some(directory)
    &&& directory.is_dir
    &&& directory.uid == euid
    &&& directory.mode & SHARED_WRITE_BITS == 0
    &&& name_writable(path)
}

/// Whether a receipt of that length may be created under that path.
pub fn may_create_receipt(
    path: &str,
    len: usize,
    parent: Option<DirectoryMetadata>,
    euid: u32,
) -> (r: bool)
    ensures
        r == receipt_creatable(path@, len as int, parent, euid),
{
    if !safe_absolute_path(path) || len == 0 || len as u64 > MAX_DEVICE_RECOVERY_BYTES {
        return false;
    }
    match parent {
        None => false,
        Some(directory) => directory.is_dir && directory.uid == euid && directory.mode
            & SHARED_WRITE_BITS == 0 && is_name_writable(path),
    }
}

/// A receipt was written: a new file of the running user's alone, where it may be created, with
/// the very bytes.
pub open spec fn receipt_written(
    path: Seq<char>,
    bytes: Seq<u8>,
    output: ReceiptOutput,
    euid: u32,
) -> bool {
    &&& receipt_creatable(path, bytes.len() as int, output.parent, euid)
    &&& output.created
    &&& output.written
    &&& output.reread matches Some(reread)
    &&& reread@ == bytes
    &&& output.metadata matches Some(metadata)
    &&& metadata.owner_only(euid)
    &&& metadata.size == bytes.len()
    &&& output.sealed is Some
    &&& output.parent_synced
}

/// Whether the file that has the name of a refused receipt may be removed: only the very file that
/// was created for it, with nothing of it changed since it was last looked at.
pub fn may_remove_receipt(output: &ReceiptOutput, current: Option<EvidenceMetadata>) -> (r: bool)
    ensures
        r == (output.created && output.sealed is Some && output.sealed == current),
{
    match (output.sealed, current) {
        (Some(sealed), Some(found)) => output.created && sealed == found,
        _ => false,
    }
}

/// A receipt that was written, sealed as it was created.
#[derive(Debug, PartialEq, Eq)]
pub struct CreatedRecoveryReceipt {
    pub sealed: SealedEvidence,
}

impl CreatedRecoveryReceipt {
    /// Whether the file that has the receipt's name may be removed: only the very file that was
    /// created, with nothing of it changed.
    pub fn may_remove_exact(&self, current: Option<EvidenceMetadata>) -> (r: bool)
        ensures
            r == (current == Some(self.sealed.initial_metadata)),
    {
        match current {
            Some(found) => found == self.sealed.initial_metadata,
            None => false,
        }
    }
}

/// Seals a receipt as it was written.
pub fn write_new_owner_only_receipt(
    path: &str,
    bytes: &Vec<u8>,
    output: &ReceiptOutput,
    euid: u32,
) -> (r: Result<CreatedRecoveryReceipt, LegacyUploadEvidenceError>)
    ensures
        match r {
            Ok(created) => {
                &&& receipt_written(path@, bytes@, *output, euid)
                &&& created.sealed.bytes@ == bytes@
                &&& created.sealed.sha256@ == digest::sha256_hex(bytes@)
                &&& output.sealed == Some(created.sealed.initial_metadata)
            },
            Err(error) => !receipt_written(path@, bytes@, *output, euid) && error@
                == "recovery_output"@,
        },
{
    if !may_create_receipt(path, bytes.len(), output.parent, euid) || !output.created
        || !output.written {
        return Err(failure("recovery_output"));
    }
    match (&output.reread, &output.metadata, &output.sealed) {
        (Some(reread), Some(metadata), Some(sealed)) => {
            if !is_owner_only(*metadata, euid) || !same_bytes(reread, bytes) || metadata.size
                != bytes.len() as u64 || !output.parent_synced {
                return Err(failure("recovery_output"));
            }
            let copy = bytes.clone();
            assert(copy@ =~= bytes@);
            Ok(
                CreatedRecoveryReceipt {
                    sealed: SealedEvidence {
                        bytes: copy,
                        sha256: sha256_bytes(bytes),
                        initial_metadata: *sealed,
                    },
                },
            )
        },
        _ => Err(failure("recovery_output")),
    }
}

/// An output is verified exactly if the file that was written is the one that was created, has the
/// length and the content that were to be written, and their digest, and neither the file nor its
/// directory was exchanged.
pub proof fn verified_outputs_hold_their_bytes(
    bytes: Seq<u8>,
    expected_sha256: Seq<char>,
    initial: EvidenceMetadata,
    observed: OutputObservation,
    committed: EvidenceMetadata,
    parent: DirectoryMetadata,
    now: DirectoryMetadata,
)
    requires
        observed.committed == Some(committed),
        observed.parent == Some(parent),
        observed.parent_now == Some(now),
    ensures
        output_verified(bytes, expected_sha256, initial, observed) <==> {
            &&& committed.dev == initial.dev
            &&& committed.ino == initial.ino
            &&& committed.size == bytes.len()
            &&& observed.reread is Some
            &&& observed.reread->0@ == bytes
            &&& digest::sha256_hex(bytes) == expected_sha256
            &&& observed.held == Some(committed)
            &&& observed.named == Some(committed)
            &&& now.dev == parent.dev
            &&& now.ino == parent.ino
        },
{
}

/// New evidence is kept exactly if its name can be written in a directory, a private file was
/// created, written, synced and verified there, the evidence passes its audit, and its sources are
/// as they were.
pub proof fn new_evidence_is_kept_once_it_passes(
    request: LegacyUploadEvidenceAuditRequest,
    bytes: Seq<u8>,
    gathered: Seq<GatheredAsset>,
    checkpoint: HeldGenerationSource,
    observed: OutputObservation,
    initial: EvidenceMetadata,
)
    requires
        observed.created == CreatedOutput::Created(initial),
    ensures
        output_refusal(request, bytes, gathered, checkpoint, observed) is None <==> {
            let name = path::last_name(request.evidence_path@);
            &&& name is Some
            &&& forall|i: int| 0 <= i < name->0.len() ==> #[trigger] (name->0)[i] as int != 0
            &&& observed.parent is Some
            &&& observed.parent->0.is_dir
            &&& initial.owner_only(observed.euid)
            &&& observed.written
            &&& observed.synced
            &&& output_verified(bytes, request.expected_evidence_sha256@, initial, observed)
            &&& load::loading_refusal(request, observed.evidence, observed.audit.euid) is None
            &&& audited_refusal(request, observed.evidence, observed.audit) is None
            &&& generate::sources_refusal(gathered, checkpoint, observed.again) is None
        },
{
    let name = path::last_name(request.evidence_path@)->0;
    assert forall|i: int| 0 <= i < name.len() implies (#[trigger] name[i] as int != 0 <==> name[i]
        != '\0') by {}
}

/// Nothing is kept that was not created or could not be looked at.
pub proof fn nothing_is_kept_that_was_not_created(
    request: LegacyUploadEvidenceAuditRequest,
    bytes: Seq<u8>,
    gathered: Seq<GatheredAsset>,
    checkpoint: HeldGenerationSource,
    observed: OutputObservation,
)
    requires
        !(observed.created is Created),
    ensures
        output_refusal(request, bytes, gathered, checkpoint, observed) is Some,
{
}

/// A receipt is written exactly if its place is safe and its name can be written, it has between 1
/// and 65536 bytes, its directory is one of the running user that nobody else may write, and it was
/// created there, written, read back as it is, sealed and synced as a private file of its length.
pub proof fn receipts_are_written_whole(
    path: Seq<char>,
    bytes: Seq<u8>,
    output: ReceiptOutput,
    euid: u32,
    directory: DirectoryMetadata,
    metadata: EvidenceMetadata,
)
    requires
        output.parent == Some(directory),
        output.metadata == Some(metadata),
    ensures
        receipt_written(path, bytes, output, euid) <==> {
            &&& path::safe_place(path)
            &&& name_writable(path)
            &&& 1 <= bytes.len() <= 65_536
            &&& directory.is_dir
            &&& directory.uid == euid
            &&& directory.mode & 18 == 0
            &&& output.created
            &&& output.written
            &&& output.reread is Some
            &&& output.reread->0@ == bytes
            &&& metadata.owner_only(euid)
            &&& metadata.size == bytes.len()
            &&& output.sealed is Some
            &&& output.parent_synced
        },
{
}

/// A report of new evidence tells its digests, and ten assets, two retirements and five references.
pub proof fn evidence_reports_tell_ten_two_and_five(
    report: LegacyUploadEvidenceGenerateReport,
    encodings: GenerationEncodings,
)
    requires
        reports(report, encodings),
    ensures
        report.evidence_sha256@ == digest::sha256_hex(encodings.evidence@),
        report.cohort_sha256@ == digest::sha256_hex(encodings.document.cohort_json@),
        report.manifest_target_sha256@ == digest::sha256_hex(encodings.assets_json@),
        report.cloudkit_target_sha256@ == digest::sha256_hex(encodings.replacements_json@),
        report.asset_count == 10,
        report.retired_replacement_count == 2,
        report.reference_count == 5,
{
}

/// What keeps new evidence from being kept is told by its name.
pub proof fn faults_of_an_output_are_named(
    request: LegacyUploadEvidenceAuditRequest,
    bytes: Seq<u8>,
    gathered: Seq<GatheredAsset>,
    checkpoint: HeldGenerationSource,
    observed: OutputObservation,
)
    ensures
        ({
            let audited = audited_refusal(request, observed.evidence, observed.audit);
            let sources = generate::sources_refusal(gathered, checkpoint, observed.again);
            let placed = name_writable(request.evidence_path@) && observed.parent is Some
                && observed.parent->0.is_dir;
            let created = !(observed.created is NotCreated);
            let described = !(observed.created is Undescribed);
            let private = observed.created->Created_0.owner_only(observed.euid);
            let written = observed.written;
            let synced = observed.synced;
            let verified = output_verified(
                bytes,
                request.expected_evidence_sha256@,
                observed.created->Created_0,
                observed,
            );
            let passed = audited is None;
            let unchanged = sources is None;
            let told = output_refusal(request, bytes, gathered, checkpoint, observed);
            &&& !placed ==> told == Some("output_parent"@)
            &&& placed && !created ==> told == Some("output_create"@)
            &&& placed && created && !described ==> told == Some("output_metadata"@)
            &&& placed && created && described && !private ==> told == Some("output_metadata"@)
            &&& placed && created && described && private && !written
                ==> told == Some("output_write"@)
            &&& placed && created && described && private && written && !synced
                ==> told == Some("output_sync"@)
            &&& placed && created && described && private && written && synced && !verified
                ==> told == Some("output_verify"@)
            &&& placed && created && described && private && written && synced && verified
                && !passed ==> told == audited
            &&& placed && created && described && private && written && synced && verified
                && passed && !unchanged ==> told == sources
        }),
{
}

/// New evidence is audited as any other, as a cohort that has not begun to migrate on the devices
/// that it names.
pub proof fn new_evidence_is_audited_as_any_other(
    request: LegacyUploadEvidenceAuditRequest,
    evidence: EvidenceObservation,
    observed: AuditObservation,
)
    ensures
        ({
            let loading = load::loading_refusal(request, evidence, observed.euid);
            let document = evidence.document->0;
            let manifest = evidence.state->Loaded_0;
            let audited = load::audit_refusal(
                request,
                document,
                manifest,
                plan::cohort_phase(document, manifest)->Ok_0,
                document,
                Seq::empty(),
                false,
                evidence.writable,
                load::same_again(evidence.read, observed.again),
                observed,
            );
            let told = audited_refusal(request, evidence, observed);
            &&& told is None <==> loading is None && audited is None
            &&& loading is Some ==> told == loading
            &&& loading is None ==> told == audited
        }),
{
}

} // verus!
