use vstd::prelude::*;
use vstd::string::*;

use crate::audit;
use crate::audit::{
    validate_public_request, DocumentEncodings, LegacyUploadEvidenceAuditRequest,
};
use crate::digest;
use crate::digest::sha256_bytes;
use crate::document::{
    EvidenceDocument, EvidenceRetiredReplacement, RETIRED_REPLACEMENT_COUNT,
};
use crate::error;
use crate::error::{failure, LegacyUploadEvidenceError};
use crate::generate::CheckpointStatus;
use crate::identity;
use crate::identity::is_digest;
use crate::issue;
use crate::issue::reconfirm_receipt;
use crate::layout;
use crate::layout::{validate_device_recovery_quarantine_layout, LayoutObservation};
use crate::load;
use crate::load::EvidenceReread;
use crate::manifest::{LegacyUploadMigrationEntry, LegacyUploadMigrationJournal, Manifest};
use crate::order;
use crate::output;
use crate::output::{write_new_owner_only_receipt, ReceiptOutput};
use crate::phase::LegacyUploadMigrationPhase;
use crate::plan;
use crate::plan::{coherent_retired_replacement_phase, PlanInputs};
use crate::receipt;
use crate::receipt::{
    device_recovery_journal_anchors, is_statement_current,
    validate_device_recovery_continuity_with_signer, ProcessObservation,
};
use crate::recovery;
use crate::recovery::{
    operational_document_from_recovery_receipt, DeviceRecoveryJournalAnchor, DeviceRecoveryReceipt, DeviceRecoveryReceiptBody,
    DEVICE_RECOVERY_SCHEMA_VERSION,
};
use crate::sealed;
use crate::sealed::{
    revalidate_sealed_evidence, seal_read, SealedEvidence, SourceRead,
};
use crate::signer;
use crate::signer::{
    prior_recovery_signer, revalidate_prior_recovery_service_bundle, DeviceRecoverySigner,
    ExecutableObservation, ServiceBundle,
};
use crate::text;
use crate::text::same_text;
use crate::validation;
use crate::validation::validate_document;

verus! {

/// Which receipt an operator wants to carry over to a new helper, on whose word, and where the new
/// receipt is to be written.
#[derive(Debug, PartialEq, Eq)]
pub struct LegacyUploadDeviceRecoveryRotateRequest {
    pub evidence: LegacyUploadEvidenceAuditRequest,
    pub prior_receipt_path: String,
    pub expected_prior_receipt_sha256: String,
    pub prior_service_bundle: String,
    pub output_path: String,
}

/// What an operator is told of a receipt that was carried over.
#[derive(Debug, PartialEq, Eq)]
pub struct LegacyUploadDeviceRecoveryRotateReport {
    pub previous_receipt_sha256: String,
    pub receipt_sha256: String,
    pub evidence_sha256: String,
    pub cohort_sha256: String,
    pub migration_phase: String,
    pub device_mapping_count: u64,
    pub raw_input_count: u64,
    pub quarantine_member_count: u64,
    pub reference_count: u64,
    pub previous_signer_designated_requirement_sha256: String,
    pub signer_designated_requirement_sha256: String,
    pub checkpoint_recovered: bool,
}

/// What was read and found when a receipt is to be carried over.
#[derive(Debug, PartialEq, Eq)]
pub struct RotationObservation {
    /// Whether the state is open for writing, under a lease.
    pub writer: bool,
    pub read: SourceRead,
    /// What the evidence decodes to.
    pub document: Option<EvidenceDocument>,
    pub manifest: Option<Manifest>,
    pub status: CheckpointStatus,
    pub prior_read: SourceRead,
    /// What the prior receipt decodes to, and the canonical JSON of what it states.
    pub prior: Option<DeviceRecoveryReceipt>,
    pub prior_body_json: Vec<u8>,
    pub bundle: Option<ServiceBundle>,
    /// The helper of the bundle.
    pub helper: ExecutableObservation,
    pub process: ProcessObservation,
    /// The canonical JSON of the path of each root of the document.
    pub root_path_json: Vec<Vec<u8>>,
    /// What the plan of the operational document needs.
    pub operational_plan_inputs: PlanInputs,
    pub layout: LayoutObservation,
    pub encodings: DocumentEncodings,
    pub plan_inputs: PlanInputs,
}

/// A later look at all that the new receipt rests on.
#[derive(Debug, PartialEq, Eq)]
pub struct RotationLook {
    /// Whether the state that was read is still the authoritative one.
    pub state_unchanged: bool,
    pub status: CheckpointStatus,
    pub evidence: EvidenceReread,
    pub prior: EvidenceReread,
    pub bundle: Option<ServiceBundle>,
    pub helper: ExecutableObservation,
    pub layout: LayoutObservation,
}

/// How bringing a stale checkpoint up to date went.
#[derive(Debug, PartialEq, Eq)]
pub struct CheckpointExport {
    pub exported: bool,
    /// Whether the state was read back and, where it was, whether it is the one that was read.
    pub reloaded: Option<bool>,
    pub status: CheckpointStatus,
}

/// The signer that the prior receipt names.
pub open spec fn prior_signer(observed: RotationObservation) -> (Seq<char>, Seq<char>) {
    let signer = observed.prior->0.body.signer;
    (signer.executable_sha256@, signer.designated_requirement_sha256@)
}

/// The category under which the request, the evidence, the state or the prior receipt is refused
/// as it was read, or nothing.
pub open spec fn reading_refusal(
    request: LegacyUploadDeviceRecoveryRotateRequest,
    observed: RotationObservation,
) -> Option<Seq<char>> {
    let euid = observed.process.euid;
    let requested = audit::request_refusal(request.evidence);
    let reading = sealed::evidence_read_refusal(observed.read, euid);
    let prior_reading = sealed::evidence_read_refusal(observed.prior_read, euid);
    if requested is Some {
        requested
    } else if !identity::digest_text(request.expected_prior_receipt_sha256@) {
        Some("recovery_expected_digest"@)
    } else if !observed.writer {
        Some("state_writer_required"@)
    } else if reading is Some {
        reading
    } else if digest::sha256_hex(observed.read->Read_1@)
        != request.evidence.expected_evidence_sha256@ {
        Some("evidence_digest"@)
    } else if observed.document is None {
        Some("evidence_schema"@)
    } else if observed.manifest is None {
        Some("state_load"@)
    } else if observed.status == CheckpointStatus::Unreadable {
        Some("checkpoint_read"@)
    } else if prior_reading is Some {
        prior_reading
    } else if digest::sha256_hex(observed.prior_read->Read_1@)
        != request.expected_prior_receipt_sha256@ {
        Some("recovery_digest"@)
    } else if observed.prior is None {
        Some("recovery_schema"@)
    } else if digest::sha256_hex(observed.prior_body_json@) != observed.prior->0.body_sha256@ {
        Some("recovery_digest"@)
    } else {
        None
    }
}

/// The category under which the signers are refused, or nothing: the bundle vouches for the
/// program that the receipt names, and the program that runs is signed under the same requirement.
pub open spec fn signing_refusal(
    request: LegacyUploadDeviceRecoveryRotateRequest,
    observed: RotationObservation,
) -> Option<Seq<char>> {
    let body = observed.prior->0.body;
    let vouched = signer::bundle_signer(
        request.prior_service_bundle@,
        observed.bundle,
        observed.helper,
        observed.process.euid,
        body.signer,
    );
    let running = observed.process.signer();
    if vouched is Err {
        Some(vouched->Err_0)
    } else if running is Err {
        Some(running->Err_0)
    } else if running->Ok_0.1 != body.signer.designated_requirement_sha256@ {
        Some("recovery_signer_mismatch"@)
    } else {
        None
    }
}

/// The category under which the signers or the prior receipt are refused, or nothing: the signers
/// are in order, and the receipt still continues the cohort.
pub open spec fn authority_refusal(
    request: LegacyUploadDeviceRecoveryRotateRequest,
    observed: RotationObservation,
) -> Option<Seq<char>> {
    let document = observed.document->0;
    let body = observed.prior->0.body;
    let signed = signing_refusal(request, observed);
    let continued = receipt::continuity_refusal(
        body,
        document,
        observed.manifest->0,
        request.evidence.expected_evidence_sha256@,
        prior_signer(observed),
    );
    if signed is Some {
        signed
    } else if continued is Some {
        continued
    } else if !(recovery::mappings_sound(
        body.mappings@,
        document.quarantine_roots@,
        observed.root_path_json@,
    ) && recovery::document_known(document, recovery::mapping_pairs(body.mappings@))) {
        Some("recovery_mapping"@)
    } else {
        None
    }
}

/// The category under which a receipt is refused before the operational document is looked at.
pub open spec fn opening_refusal(
    request: LegacyUploadDeviceRecoveryRotateRequest,
    observed: RotationObservation,
) -> Option<Seq<char>> {
    match reading_refusal(request, observed) {
        Some(category) => Some(category),
        None => authority_refusal(request, observed),
    }
}

/// The phase of the cohort is asked for only where all was read, the signers are in order and the
/// prior receipt is current; the document then has to have its two replacements.
pub open spec fn rotation_readable(
    request: LegacyUploadDeviceRecoveryRotateRequest,
    observed: RotationObservation,
) -> bool {
    reading_refusal(request, observed) is None && signing_refusal(request, observed) is None
        && receipt::statement_current(
        observed.prior->0.body,
        observed.document->0,
        request.evidence.expected_evidence_sha256@,
    ) ==> observed.document->0.retired_replacements@.len() >= RETIRED_REPLACEMENT_COUNT
}

/// The phase that the cohort has reached.
pub open spec fn reached(observed: RotationObservation) -> LegacyUploadMigrationPhase {
    plan::cohort_phase(observed.document->0, observed.manifest->0)->Ok_0->0
}

/// The operational document is the one that the prior receipt calls for.
pub open spec fn operates(operational: EvidenceDocument, observed: RotationObservation) -> bool {
    recovery::operational_form(
        operational,
        observed.document->0,
        recovery::mapping_pairs(observed.prior->0.body.mappings@),
    )
}

/// The category under which the operational document, the disk or the sealed document is refused.
pub open spec fn standing_refusal(
    request: LegacyUploadDeviceRecoveryRotateRequest,
    observed: RotationObservation,
    operational: EvidenceDocument,
) -> Option<Seq<char>> {
    match layout::layout_refusal(
        operational,
        observed.manifest->0,
        reached(observed),
        observed.operational_plan_inputs,
        observed.layout,
        observed.process.euid,
    ) {
        Some(category) => Some(category),
        None => validation::document_refusal(
            observed.document->0,
            observed.encodings,
            observed.plan_inputs,
            request.evidence,
            observed.manifest->0,
            observed.prior->0.body.original_destination_canonicalizations@,
        ),
    }
}

/// The category under which a later look is refused, or nothing where all stands as it did. Where
/// `fresh` is set, the checkpoint has to be current too.
pub open spec fn look_refusal(
    request: LegacyUploadDeviceRecoveryRotateRequest,
    observed: RotationObservation,
    operational: EvidenceDocument,
    look: RotationLook,
    fresh: bool,
) -> Option<Seq<char>> {
    let vouched = signer::bundle_signer(
        request.prior_service_bundle@,
        look.bundle,
        look.helper,
        observed.process.euid,
        observed.prior->0.body.signer,
    );
    if !look.state_unchanged {
        Some("state_changed"@)
    } else if fresh && look.status == CheckpointStatus::Unreadable {
        Some("checkpoint_read"@)
    } else if fresh && look.status == CheckpointStatus::Stale {
        Some("checkpoint_stale"@)
    } else if !load::same_again(observed.read, look.evidence) || !load::same_again(
        observed.prior_read,
        look.prior,
    ) {
        Some("evidence_changed"@)
    } else if vouched is Err {
        Some(vouched->Err_0)
    } else {
        layout::layout_refusal(
            operational,
            observed.manifest->0,
            reached(observed),
            observed.operational_plan_inputs,
            look.layout,
            observed.process.euid,
        )
    }
}

/// The category under which the attempt to bring a checkpoint up to date is refused, or nothing.
pub open spec fn export_refusal(export: CheckpointExport) -> Option<Seq<char>> {
    if !export.exported {
        Some("checkpoint_export"@)
    } else if export.reloaded is None {
        Some("state_load"@)
    } else if export.reloaded == Some(false) {
        Some("state_changed"@)
    } else if export.status == CheckpointStatus::Unreadable {
        Some("checkpoint_read"@)
    } else if export.status == CheckpointStatus::Stale {
        Some("checkpoint_export"@)
    } else {
        None
    }
}

/// Whether a checkpoint was brought up to date.
pub fn require_export(export: &CheckpointExport) -> (r: Result<(), LegacyUploadEvidenceError>)
    ensures
        error::refused_as(r, export_refusal(*export)),
{
    if !export.exported {
        return Err(failure("checkpoint_export"));
    }
    match export.reloaded {
        None => {
            return Err(failure("state_load"));
        },
        Some(same) => {
            if !same {
                return Err(failure("state_changed"));
            }
        },
    }
    match export.status {
        CheckpointStatus::Unreadable => Err(failure("checkpoint_read")),
        CheckpointStatus::Stale => Err(failure("checkpoint_export")),
        CheckpointStatus::Current => Ok(()),
    }
}

/// A receipt that may be carried over: what was sealed when it was read, the signers, the phase of
/// the cohort and the operational document.
#[derive(Debug, PartialEq, Eq)]
pub struct Rotation {
    pub evidence: SealedEvidence,
    pub prior_receipt: SealedEvidence,
    pub prior_signer: DeviceRecoverySigner,
    pub current_signer: DeviceRecoverySigner,
    pub phase: LegacyUploadMigrationPhase,
    pub operational: EvidenceDocument,
}

/// A receipt may be carried over: everything that it says was checked, and what is held is what
/// was read.
pub open spec fn authorizes(
    rotation: Rotation,
    request: LegacyUploadDeviceRecoveryRotateRequest,
    observed: RotationObservation,
) -> bool {
    &&& opening_refusal(request, observed) is None
    &&& operates(rotation.operational, observed)
    &&& standing_refusal(request, observed, rotation.operational) is None
    &&& rotation.phase == reached(observed)
    &&& rotation.evidence.bytes@ == observed.read->Read_1@
    &&& rotation.evidence.sha256@ == request.evidence.expected_evidence_sha256@
    &&& rotation.evidence.initial_metadata == observed.read->Read_0
    &&& rotation.prior_receipt.bytes@ == observed.prior_read->Read_1@
    &&& rotation.prior_receipt.sha256@ == request.expected_prior_receipt_sha256@
    &&& rotation.prior_receipt.initial_metadata == observed.prior_read->Read_0
    &&& rotation.prior_signer.executable_sha256@ == prior_signer(observed).0
    &&& rotation.prior_signer.designated_requirement_sha256@ == prior_signer(observed).1
    &&& observed.process.signer() matches Ok(running)
    &&& rotation.current_signer.executable_sha256@ == running.0
    &&& rotation.current_signer.designated_requirement_sha256@ == running.1
}

/// Refused before a receipt is carried over, under that category.
pub open spec fn refuses_to_rotate(
    request: LegacyUploadDeviceRecoveryRotateRequest,
    observed: RotationObservation,
    category: Seq<char>,
) -> bool {
    match opening_refusal(request, observed) {
        Some(refusal) => refusal == category,
        None => exists|operational: EvidenceDocument| #[trigger]
            operates(operational, observed) && standing_refusal(request, observed, operational)
                == Some(category),
    }
}

/// The evidence and the prior receipt, as they were read.
fn read_rotation(
    request: &LegacyUploadDeviceRecoveryRotateRequest,
    observed: &RotationObservation,
) -> (r: Result<(SealedEvidence, SealedEvidence), LegacyUploadEvidenceError>)
    ensures
        match r {
            Ok((evidence, prior_receipt)) => {
                &&& reading_refusal(*request, *observed) is None
                &&& evidence.bytes@ == observed.read->Read_1@
                &&& evidence.sha256@ == request.evidence.expected_evidence_sha256@
                &&& evidence.sha256@ == digest::sha256_hex(evidence.bytes@)
                &&& evidence.initial_metadata == observed.read->Read_0
                &&& prior_receipt.bytes@ == observed.prior_read->Read_1@
                &&& prior_receipt.sha256@ == request.expected_prior_receipt_sha256@
                &&& prior_receipt.sha256@ == digest::sha256_hex(prior_receipt.bytes@)
                &&& prior_receipt.initial_metadata == observed.prior_read->Read_0
            },
            Err(error) => reading_refusal(*request, *observed) == Some(error@),
        },
{
    match validate_public_request(&request.evidence) {
        Err(error) => {
            return Err(error);
        },
        Ok(()) => {},
    }
    if !is_digest(&request.expected_prior_receipt_sha256) {
        return Err(failure("recovery_expected_digest"));
    }
    if !observed.writer {
        return Err(failure("state_writer_required"));
    }
    let euid: u32 = observed.process.euid;
    let evidence = match seal_read(&observed.read, euid) {
        Err(error) => {
            return Err(error);
        },
        Ok(evidence) => evidence,
    };
    if !same_text(&evidence.sha256, &request.evidence.expected_evidence_sha256) {
        return Err(failure("evidence_digest"));
    }
    if observed.document.is_none() {
        return Err(failure("evidence_schema"));
    }
    if observed.manifest.is_none() {
        return Err(failure("state_load"));
    }
    match observed.status {
        CheckpointStatus::Unreadable => {
            return Err(failure("checkpoint_read"));
        },
        _ => {},
    }
    let prior_receipt = match seal_read(&observed.prior_read, euid) {
        Err(error) => {
            return Err(error);
        },
        Ok(prior_receipt) => prior_receipt,
    };
    if !same_text(&prior_receipt.sha256, &request.expected_prior_receipt_sha256) {
        return Err(failure("recovery_digest"));
    }
    match &observed.prior {
        None => Err(failure("recovery_schema")),
        Some(prior) => if same_text(&sha256_bytes(&observed.prior_body_json), &prior.body_sha256) {
            Ok((evidence, prior_receipt))
        } else {
            Err(failure("recovery_digest"))
        },
    }
}

/// The signer that the prior receipt names, and the one of the program that runs.
fn sign_rotation(
    request: &LegacyUploadDeviceRecoveryRotateRequest,
    observed: &RotationObservation,
    prior: &DeviceRecoveryReceipt,
) -> (r: Result<(DeviceRecoverySigner, DeviceRecoverySigner), LegacyUploadEvidenceError>)
    requires
        observed.prior == Some(*prior),
    ensures
        match r {
            Ok((named, running)) => {
                &&& signing_refusal(*request, *observed) is None
                &&& named.executable_sha256@ == prior_signer(*observed).0
                &&& named.designated_requirement_sha256@ == prior_signer(*observed).1
                &&& observed.process.signer() matches Ok(signer)
                &&& running.executable_sha256@ == signer.0
                &&& running.designated_requirement_sha256@ == signer.1
            },
            Err(error) => signing_refusal(*request, *observed) == Some(error@),
        },
{
    let named = match prior_recovery_signer(
        &request.prior_service_bundle,
        &observed.bundle,
        &observed.helper,
        observed.process.euid,
        &prior.body.signer,
    ) {
        Err(error) => {
            return Err(error);
        },
        Ok(signer) => signer,
    };
    let running = match observed.process.current_signer() {
        Err(error) => {
            return Err(error);
        },
        Ok(signer) => signer,
    };
    if same_text(
        &running.designated_requirement_sha256,
        &prior.body.signer.designated_requirement_sha256,
    ) {
        Ok((named, running))
    } else {
        Err(failure("recovery_signer_mismatch"))
    }
}

/// Whether a rotation can be answered: it is refused before the phase of the cohort is asked for,
/// or the document has the two replacements that the phase is read off.
pub fn is_rotation_readable(
    request: &LegacyUploadDeviceRecoveryRotateRequest,
    observed: &RotationObservation,
) -> (r: bool)
    ensures
        r == rotation_readable(*request, *observed),
{
    if read_rotation(request, observed).is_err() {
        return true;
    }
    match (&observed.document, &observed.prior) {
        (Some(document), Some(prior)) => sign_rotation(request, observed, prior).is_err()
            || !is_statement_current(
            &prior.body,
            document,
            &request.evidence.expected_evidence_sha256,
        ) || document.retired_replacements.len() >= RETIRED_REPLACEMENT_COUNT,
        _ => true,
    }
}

/// Checks the prior receipt against the evidence, the state, the signers and the disk.
pub fn authorize_rotation(
    request: &LegacyUploadDeviceRecoveryRotateRequest,
    observed: &RotationObservation,
) -> (r: Result<Rotation, LegacyUploadEvidenceError>)
    requires
        rotation_readable(*request, *observed),
    ensures
        match r {
            Ok(rotation) => authorizes(rotation, *request, *observed),
            Err(error) => refuses_to_rotate(*request, *observed, error@),
        },
{
    let (evidence, prior_receipt) = match read_rotation(request, observed) {
        Err(error) => {
            return Err(error);
        },
        Ok(read) => read,
    };
    let euid: u32 = observed.process.euid;
    let document = match &observed.document {
        None => {
            return Err(failure("evidence_schema"));
        },
        Some(document) => document,
    };
    let manifest = match &observed.manifest {
        None => {
            return Err(failure("state_load"));
        },
        Some(manifest) => manifest,
    };
    let prior = match &observed.prior {
        None => {
            return Err(failure("recovery_schema"));
        },
        Some(prior) => prior,
    };
    let (prior_signer, current_signer) = match sign_rotation(request, observed, prior) {
        Err(error) => {
            return Err(error);
        },
        Ok(signers) => signers,
    };
    match validate_device_recovery_continuity_with_signer(
        &prior.body,
        document,
        manifest,
        &evidence.sha256,
        &prior_signer,
    ) {
        Err(error) => {
            return Err(error);
        },
        Ok(()) => {},
    }
    let phase = match coherent_retired_replacement_phase(document, manifest) {
        Err(error) => {
            return Err(error);
        },
        Ok(None) => {
            return Err(failure("recovery_phase"));
        },
        Ok(Some(phase)) => phase,
    };
    let operational = match operational_document_from_recovery_receipt(
        document,
        &prior.body,
        &observed.root_path_json,
    ) {
        Err(error) => {
            return Err(error);
        },
        Ok(operational) => operational,
    };
    assert(operates(operational, *observed));
    match validate_device_recovery_quarantine_layout(
        &operational,
        manifest,
        phase,
        &observed.operational_plan_inputs,
        &observed.layout,
        euid,
    ) {
        Err(error) => {
            return Err(error);
        },
        Ok(()) => {},
    }
    match validate_document(
        document,
        &observed.encodings,
        &observed.plan_inputs,
        &evidence.sha256,
        &request.evidence,
        manifest,
        &prior.body.original_destination_canonicalizations,
    ) {
        Err(error) => {
            return Err(error);
        },
        Ok(_) => {},
    }
    Ok(Rotation { evidence, prior_receipt, prior_signer, current_signer, phase, operational })
}

/// Whether all that a rotation rests on stands as it did.
pub fn revalidate_rotation(
    request: &LegacyUploadDeviceRecoveryRotateRequest,
    observed: &RotationObservation,
    rotation: &Rotation,
    look: &RotationLook,
    fresh: bool,
) -> (r: Result<(), LegacyUploadEvidenceError>)
    requires
        authorizes(*rotation, *request, *observed),
    ensures
        error::refused_as(
            r,
            look_refusal(*request, *observed, rotation.operational, *look, fresh),
        ),
{
    let euid: u32 = observed.process.euid;
    if !look.state_unchanged {
        return Err(failure("state_changed"));
    }
    if fresh {
        match look.status {
            CheckpointStatus::Unreadable => {
                return Err(failure("checkpoint_read"));
            },
            CheckpointStatus::Stale => {
                return Err(failure("checkpoint_stale"));
            },
            CheckpointStatus::Current => {},
        }
    }
    match revalidate_sealed_evidence(
        &rotation.evidence,
        &look.evidence.reread,
        look.evidence.held,
        look.evidence.named,
        euid,
    ) {
        Err(error) => {
            return Err(error);
        },
        Ok(()) => {},
    }
    match revalidate_sealed_evidence(
        &rotation.prior_receipt,
        &look.prior.reread,
        look.prior.held,
        look.prior.named,
        euid,
    ) {
        Err(error) => {
            return Err(error);
        },
        Ok(()) => {},
    }
    match revalidate_prior_recovery_service_bundle(
        &request.prior_service_bundle,
        &look.bundle,
        &look.helper,
        euid,
        &rotation.prior_signer,
    ) {
        Err(error) => {
            return Err(error);
        },
        Ok(()) => {},
    }
    match &observed.manifest {
        None => Err(failure("state_load")),
        Some(manifest) => validate_device_recovery_quarantine_layout(
            &rotation.operational,
            manifest,
            rotation.phase,
            &observed.operational_plan_inputs,
            &look.layout,
            euid,
        ),
    }
}

/// What a receipt states that is carried over: the mappings and the canonicalizations of the prior
/// receipt, for the program that runs.
pub fn rotated_receipt_body(
    request: &LegacyUploadDeviceRecoveryRotateRequest,
    observed: &RotationObservation,
    rotation: &Rotation,
) -> (r: Result<DeviceRecoveryReceiptBody, LegacyUploadEvidenceError>)
    requires
        authorizes(*rotation, *request, *observed),
    ensures
        match r {
            Ok(body) => carries_over(body, *request, *observed),
            Err(error) => receipt::anchors_from(
                observed.document->0.retired_replacements@,
                observed.manifest->0,
            ) matches Err(category) && error@ == category,
        },
{
    match (&observed.document, &observed.manifest, &observed.prior) {
        (Some(document), Some(manifest), Some(prior)) => {
            let journal_anchors = match device_recovery_journal_anchors(document, manifest) {
                Err(error) => {
                    return Err(error);
                },
                Ok(journal_anchors) => journal_anchors,
            };
            let mappings = prior.body.mappings.clone();
            assert(mappings@ =~= prior.body.mappings@);
            let canonicalizations = prior.body.original_destination_canonicalizations.clone();
            assert(canonicalizations@ =~= prior.body.original_destination_canonicalizations@);
            let operational = &rotation.operational;
            Ok(
                DeviceRecoveryReceiptBody {
                    schema_version: DEVICE_RECOVERY_SCHEMA_VERSION,
                    evidence_sha256: rotation.evidence.sha256.clone(),
                    cohort_sha256: document.cohort_sha256.clone(),
                    authoritative_manifest_sha256: sha256_bytes(&manifest.json),
                    checkpoint_current: true,
                    migration_phase:
                        LegacyUploadMigrationPhase::DeleteConfirmed.as_str().to_owned(),
                    mappings,
                    journal_anchors,
                    original_destination_canonicalizations: canonicalizations,
                    raw_input_count: operational.raw_inputs.len() as u64,
                    quarantine_member_count: operational.quarantine_members.len() as u64,
                    reference_count: operational.reference_normalizations.len() as u64,
                    signer: rotation.current_signer.clone(),
                },
            )
        },
        _ => Err(failure("recovery_receipt")),
    }
}

/// A receipt is the prior one, carried over to the program that runs.
pub open spec fn carries_over(
    body: DeviceRecoveryReceiptBody,
    request: LegacyUploadDeviceRecoveryRotateRequest,
    observed: RotationObservation,
) -> bool {
    let prior = observed.prior->0.body;
    &&& body.mappings@ == prior.mappings@
    &&& observed.process.signer() matches Ok(running) && receipt::body_states(
        body,
        observed.document->0,
        observed.manifest->0,
        request.evidence.expected_evidence_sha256@,
        prior.original_destination_canonicalizations@,
        running,
    )
}

/// What happened after a receipt was found fit to be carried over.
#[derive(Debug, PartialEq, Eq)]
pub struct RotationIssue {
    /// A look before a stale checkpoint is brought up to date, and how that went.
    pub unexported: RotationLook,
    pub export: CheckpointExport,
    /// A look before the receipt is written.
    pub before: RotationLook,
    /// The JSON of the receipt, as it is written out.
    pub receipt: Vec<u8>,
    pub output: ReceiptOutput,
    /// A look once the receipt is written, at what it rests on and at the receipt itself.
    pub after: RotationLook,
    pub receipt_again: EvidenceReread,
}

/// The category under which a stale checkpoint stops a rotation, or nothing.
pub open spec fn stale_refusal(
    request: LegacyUploadDeviceRecoveryRotateRequest,
    observed: RotationObservation,
    operational: EvidenceDocument,
    issue: RotationIssue,
) -> Option<Seq<char>> {
    if observed.status != CheckpointStatus::Stale {
        None
    } else {
        match look_refusal(request, observed, operational, issue.unexported, false) {
            Some(category) => Some(category),
            None => export_refusal(issue.export),
        }
    }
}

/// The category under which a receipt is not carried over after all, or nothing.
pub open spec fn issue_refusal(
    request: LegacyUploadDeviceRecoveryRotateRequest,
    observed: RotationObservation,
    operational: EvidenceDocument,
    issue: RotationIssue,
) -> Option<Seq<char>> {
    let euid = observed.process.euid;
    let stale = stale_refusal(request, observed, operational, issue);
    let before = look_refusal(request, observed, operational, issue.before, true);
    let anchors = receipt::anchors_from(
        observed.document->0.retired_replacements@,
        observed.manifest->0,
    );
    let after = look_refusal(request, observed, operational, issue.after, true);
    if stale is Some {
        stale
    } else if before is Some {
        before
    } else if anchors is Err {
        Some(anchors->Err_0)
    } else if !output::receipt_written(
        request.output_path@,
        issue.receipt@,
        issue.output,
        euid,
    ) {
        Some("recovery_output"@)
    } else if after is Some {
        after
    } else if !issue::receipt_steady(issue.receipt@, issue.output, issue.receipt_again, euid) {
        Some("evidence_changed"@)
    } else {
        None
    }
}

/// A receipt was found fit to be carried over, and doing so was answered like that.
pub open spec fn rotated(
    rotation: Rotation,
    request: LegacyUploadDeviceRecoveryRotateRequest,
    observed: RotationObservation,
    issue: RotationIssue,
    refusal: Option<Seq<char>>,
) -> bool {
    &&& authorizes(rotation, request, observed)
    &&& issue_refusal(request, observed, rotation.operational, issue) == refusal
}

/// A report tells what the new receipt states, the digests of both receipts, and whether a stale
/// checkpoint was brought up to date.
pub open spec fn reports(
    report: LegacyUploadDeviceRecoveryRotateReport,
    request: LegacyUploadDeviceRecoveryRotateRequest,
    observed: RotationObservation,
    receipt: Seq<u8>,
) -> bool {
    let document = observed.document->0;
    let prior = observed.prior->0.body;
    &&& report.previous_receipt_sha256@ == request.expected_prior_receipt_sha256@
    &&& report.receipt_sha256@ == digest::sha256_hex(receipt)
    &&& report.evidence_sha256@ == request.evidence.expected_evidence_sha256@
    &&& report.cohort_sha256@ == document.cohort_sha256@
    &&& report.migration_phase@ == reached(observed).name()
    &&& report.device_mapping_count == prior.mappings@.len()
    &&& report.raw_input_count == document.raw_inputs@.len()
    &&& report.quarantine_member_count == document.quarantine_members@.len()
    &&& report.reference_count == document.reference_normalizations@.len()
    &&& report.previous_signer_designated_requirement_sha256@
        == prior.signer.designated_requirement_sha256@
    &&& report.signer_designated_requirement_sha256@
        == prior.signer.designated_requirement_sha256@
    &&& report.checkpoint_recovered == (observed.status == CheckpointStatus::Stale)
}

/// A rotation answered as it should: the receipt was carried over and is reported, or it was
/// refused under the very category, before or after it was found fit to be carried over.
pub open spec fn rotation_answers(
    r: Result<LegacyUploadDeviceRecoveryRotateReport, LegacyUploadEvidenceError>,
    request: LegacyUploadDeviceRecoveryRotateRequest,
    observed: RotationObservation,
    issue: RotationIssue,
) -> bool {
    match r {
        Ok(report) => reports(report, request, observed, issue.receipt@) && exists|
            rotation: Rotation,
        | #[trigger]
            rotated(rotation, request, observed, issue, None),
        Err(error) => refuses_to_rotate(request, observed, error@) || exists|
            rotation: Rotation,
        | #[trigger]
            rotated(rotation, request, observed, issue, Some(error@)),
    }
}

/// Carries a recovery receipt over to a new helper, and accepts the new receipt as it was written.
/// The requirement that the helper is signed under does not change.
pub fn rotate_legacy_uploaded_heic_device_recovery(
    request: &LegacyUploadDeviceRecoveryRotateRequest,
    observed: &RotationObservation,
    issue: &RotationIssue,
) -> (r: Result<LegacyUploadDeviceRecoveryRotateReport, LegacyUploadEvidenceError>)
    requires
        rotation_readable(*request, *observed),
    ensures
        rotation_answers(r, *request, *observed, *issue),
{
    let rotation = match authorize_rotation(request, observed) {
        Err(error) => {
            return Err(error);
        },
        Ok(rotation) => rotation,
    };
    let ghost held = rotation;
    let euid: u32 = observed.process.euid;
    let stale: bool = match observed.status {
        CheckpointStatus::Stale => true,
        _ => false,
    };
    if stale {
        match revalidate_rotation(request, observed, &rotation, &issue.unexported, false) {
            Err(error) => {
                assert(rotated(held, *request, *observed, *issue, Some(error@)));
                return Err(error);
            },
            Ok(()) => {},
        }
        match require_export(&issue.export) {
            Err(error) => {
                assert(rotated(held, *request, *observed, *issue, Some(error@)));
                return Err(error);
            },
            Ok(()) => {},
        }
    }
    match revalidate_rotation(request, observed, &rotation, &issue.before, true) {
        Err(error) => {
            assert(rotated(held, *request, *observed, *issue, Some(error@)));
            return Err(error);
        },
        Ok(()) => {},
    }
    let body = match rotated_receipt_body(request, observed, &rotation) {
        Err(error) => {
            assert(rotated(held, *request, *observed, *issue, Some(error@)));
            return Err(error);
        },
        Ok(body) => body,
    };
    let created = match write_new_owner_only_receipt(
        &request.output_path,
        &issue.receipt,
        &issue.output,
        euid,
    ) {
        Err(error) => {
            assert(rotated(held, *request, *observed, *issue, Some(error@)));
            return Err(error);
        },
        Ok(created) => created,
    };
    match revalidate_rotation(request, observed, &rotation, &issue.after, true) {
        Err(error) => {
            assert(rotated(held, *request, *observed, *issue, Some(error@)));
            return Err(error);
        },
        Ok(()) => {},
    }
    match reconfirm_receipt(&created, &issue.output, &issue.receipt_again, euid) {
        Err(error) => {
            assert(rotated(held, *request, *observed, *issue, Some(error@)));
            return Err(error);
        },
        Ok(()) => {},
    }
    assert(rotated(held, *request, *observed, *issue, None));
    Ok(
        LegacyUploadDeviceRecoveryRotateReport {
            previous_receipt_sha256: request.expected_prior_receipt_sha256.clone(),
            receipt_sha256: created.sealed.sha256,
            evidence_sha256: body.evidence_sha256,
            cohort_sha256: body.cohort_sha256,
            migration_phase: rotation.phase.as_str().to_owned(),
            device_mapping_count: body.mappings.len() as u64,
            raw_input_count: body.raw_input_count,
            quarantine_member_count: body.quarantine_member_count,
            reference_count: body.reference_count,
            previous_signer_designated_requirement_sha256:
                rotation.prior_signer.designated_requirement_sha256,
            signer_designated_requirement_sha256: body.signer.designated_requirement_sha256,
            checkpoint_recovered: stale,
        },
    )
}

/// Carries a recovery receipt over to a new helper, as
/// `rotate_legacy_uploaded_heic_device_recovery` does; nothing where the phase of the cohort would
/// have to be read off a document without its two replacements.
pub fn try_rotate_legacy_uploaded_heic_device_recovery(
    request: &LegacyUploadDeviceRecoveryRotateRequest,
    observed: &RotationObservation,
    issue: &RotationIssue,
) -> (r: Option<Result<LegacyUploadDeviceRecoveryRotateReport, LegacyUploadEvidenceError>>)
    ensures
        match r {
            Some(answer) => rotation_readable(*request, *observed) && rotation_answers(
                answer,
                *request,
                *observed,
                *issue,
            ),
            None => !rotation_readable(*request, *observed),
        },
{
    if is_rotation_readable(request, observed) {
        Some(rotate_legacy_uploaded_heic_device_recovery(request, observed, issue))
    } else {
        None
    }
}

/// Nothing is carried over while the state is not open for writing, whatever else was found.
pub proof fn rotations_need_a_writer(
    r: Result<LegacyUploadDeviceRecoveryRotateReport, LegacyUploadEvidenceError>,
    request: LegacyUploadDeviceRecoveryRotateRequest,
    observed: RotationObservation,
    issue: RotationIssue,
)
    requires
        audit::request_refusal(request.evidence) is None,
        identity::digest_text(request.expected_prior_receipt_sha256@),
        !observed.writer,
        rotation_answers(r, request, observed, issue),
    ensures
        rotation_readable(request, observed),
        r matches Err(error) && error@ == "state_writer_required"@,
{
}

/// A receipt is carried over only once the checkpoint is current: one that was stale was brought
/// up to date and read back as the state that was read.
pub proof fn rotations_leave_a_current_checkpoint(
    report: LegacyUploadDeviceRecoveryRotateReport,
    request: LegacyUploadDeviceRecoveryRotateRequest,
    observed: RotationObservation,
    issue: RotationIssue,
)
    requires
        rotation_answers(Ok(report), request, observed, issue),
    ensures
        observed.status == CheckpointStatus::Stale ==> issue.export.exported
            && issue.export.reloaded == Some(true) && issue.export.status
            == CheckpointStatus::Current,
        report.checkpoint_recovered == (observed.status == CheckpointStatus::Stale),
        issue.before.status == CheckpointStatus::Current,
        issue.after.status == CheckpointStatus::Current,
{
}

/// A receipt is carried over to a program that is signed under the requirement of the prior one,
/// and to no other.
pub proof fn rotations_keep_the_requirement(
    rotation: Rotation,
    request: LegacyUploadDeviceRecoveryRotateRequest,
    observed: RotationObservation,
)
    requires
        authorizes(rotation, request, observed),
    ensures
        rotation.current_signer.designated_requirement_sha256@
            == rotation.prior_signer.designated_requirement_sha256@,
        rotation.prior_signer.executable_sha256@
            == observed.prior->0.body.signer.executable_sha256@,
{
}

/// A journal passes each phase at most once.
pub open spec fn passes_each_phase_once(journal: LegacyUploadMigrationJournal) -> bool {
    forall|i: int, j: int|
        0 <= i < j < journal.entries@.len() ==> (#[trigger] journal.entries@[i]).phase != (
        #[trigger] journal.entries@[j]).phase
}

proof fn last_entries_are_of_the_phase(
    entries: Seq<LegacyUploadMigrationEntry>,
    phase: LegacyUploadMigrationPhase,
    n: int,
)
    requires
        n <= entries.len(),
    ensures
        receipt::last_entry(entries, phase, n) matches Some(i) ==> 0 <= i < n && entries[i].phase
            == phase,
    decreases n,
{
    if n > 0 && entries[n - 1].phase != phase {
        last_entries_are_of_the_phase(entries, phase, n - 1);
    }
}

proof fn anchor_stands_where_it_stood(
    replacement: EvidenceRetiredReplacement,
    manifest: Manifest,
    prior: Seq<DeviceRecoveryJournalAnchor>,
)
    requires
        receipt::replacement_anchor(replacement, manifest) is Ok,
        receipt::anchored(replacement, manifest, prior),
        passes_each_phase_once(manifest.record(replacement.asset_id@)->0.valid_journal()->0),
    ensures
        receipt::replacement_anchor(replacement, manifest) matches Ok(anchor) && {
            let journal = manifest.record(replacement.asset_id@)->0.valid_journal()->0;
            &&& anchor.asset_id@ == replacement.asset_id@
            &&& 1 <= anchor.entry_count <= journal.entries@.len()
            &&& journal.entries@[anchor.entry_count - 1].phase
                == LegacyUploadMigrationPhase::DeleteConfirmed
            &&& journal.entries@[anchor.entry_count - 1].entry_sha256@
                == anchor.delete_confirmed_entry_sha256@
            &&& anchor.delete_confirmed_entry_sha256@ == receipt::find_anchor(
                prior,
                replacement.asset_id@,
                0,
            )->0.delete_confirmed_entry_sha256@
        },
{
    let journal = manifest.record(replacement.asset_id@)->0.valid_journal()->0;
    let n = journal.entries.len();
    last_entries_are_of_the_phase(
        journal.entries@,
        LegacyUploadMigrationPhase::DeleteConfirmed,
        n as int,
    );
    let i = receipt::last_entry(
        journal.entries@,
        LegacyUploadMigrationPhase::DeleteConfirmed,
        n as int,
    )->0;
    let j = receipt::find_anchor(prior, replacement.asset_id@, 0)->0.entry_count - 1;
    if i < j {
        assert(journal.entries@[i].phase != journal.entries@[j].phase);
    } else if j < i {
        assert(journal.entries@[j].phase != journal.entries@[i].phase);
    }
}

/// A receipt that was carried over is accepted at once, by the program that it was carried over
/// to, as continuing the cohort.
pub proof fn rotated_receipts_continue_their_cohort(
    rotation: Rotation,
    body: DeviceRecoveryReceiptBody,
    request: LegacyUploadDeviceRecoveryRotateRequest,
    observed: RotationObservation,
)
    requires
        authorizes(rotation, request, observed),
        carries_over(body, request, observed),
        forall|i: int|
            0 <= i < observed.document->0.retired_replacements@.len() ==> passes_each_phase_once(
                observed.manifest->0.record(
                    (#[trigger] observed.document->0.retired_replacements@[i]).asset_id@,
                )->0.valid_journal()->0,
            ),
    ensures
        receipt::running_continuity_refusal(
            body,
            observed.document->0,
            observed.manifest->0,
            request.evidence.expected_evidence_sha256@,
            observed.process,
        ) is None,
{
    let document = observed.document->0;
    let manifest = observed.manifest->0;
    let prior = observed.prior->0.body.journal_anchors@;
    let replacements = document.retired_replacements@;
    let canonicalizations = body.original_destination_canonicalizations@;
    let first = replacements[0];
    let second = replacements[1];
    assert(replacements.len() == 2);
    assert(receipt::all_anchored(replacements, manifest, prior));
    assert(receipt::anchored(first, manifest, prior));
    assert(receipt::anchored(second, manifest, prior));
    let front = replacements.drop_last();
    assert(front.drop_last() =~= Seq::empty());
    assert(front.last() == first);
    assert(replacements.last() == second);
    let a = receipt::replacement_anchor(first, manifest)->Ok_0;
    let b = receipt::replacement_anchor(second, manifest)->Ok_0;
    assert(receipt::anchors_from(front.drop_last(), manifest)->Ok_0 =~= Seq::empty());
    assert(receipt::anchors_from(front, manifest) is Ok);
    assert(receipt::anchors_from(front, manifest)->Ok_0 =~= seq![a]);
    let anchors = receipt::anchors_from(replacements, manifest)->Ok_0;
    assert(anchors =~= seq![a, b]);
    anchor_stands_where_it_stood(first, manifest, prior);
    anchor_stands_where_it_stood(second, manifest, prior);
    assert(text::before(first.asset_id@, second.asset_id@)) by {
        let ids = validation::replacement_ids(replacements);
        assert(ids[0] == first.asset_id@ && ids[1] == second.asset_id@);
    }
    text::before_is_irreflexive(first.asset_id@);
    if text::before(second.asset_id@, first.asset_id@) {
        text::before_is_transitive(first.asset_id@, second.asset_id@, first.asset_id@);
    }
    assert(order::sorted(anchors) =~= anchors) by {
        reveal_with_fuel(order::sorted, 3);
        assert(anchors.drop_last() =~= seq![a]);
        assert(anchors.drop_last().drop_last() =~= Seq::empty());
        assert(order::placed(Seq::empty(), a) =~= seq![a]);
        assert(order::placed(seq![a], b) =~= seq![a, b]);
    }
    assert(receipt::statement_current(
        body,
        document,
        request.evidence.expected_evidence_sha256@,
    ));
    assert(receipt::find_anchor(anchors, first.asset_id@, 0) == Some(a));
    assert(receipt::find_anchor(anchors, second.asset_id@, 0) == Some(b)) by {
        reveal_with_fuel(receipt::find_anchor, 3);
    }
    assert(receipt::all_anchored(replacements, manifest, anchors));
    reveal_with_fuel(receipt::find_anchor, 4);
    assert(prior.len() == 2);
    assert(text::before(prior[0].asset_id@, prior[1].asset_id@));
    text::before_is_irreflexive(prior[0].asset_id@);
    if prior[1].asset_id@ == first.asset_id@ {
        assert(prior[0].asset_id@ == second.asset_id@);
        assert(text::before(second.asset_id@, first.asset_id@));
    }
    assert(prior[0].asset_id@ == first.asset_id@ && prior[1].asset_id@ == second.asset_id@);
    assert(receipt::entries_anchored(canonicalizations, anchors)) by {
        assert forall|i: int| 0 <= i < canonicalizations.len() implies receipt::entry_anchored(
            #[trigger] canonicalizations[i],
            anchors,
        ) by {
            let entry = canonicalizations[i];
            assert(receipt::entry_anchored(entry, prior));
            let k = choose|k: int|
                0 <= k < prior.len() && (#[trigger] prior[k]).asset_id@ == entry.asset_id@
                    && prior[k].delete_confirmed_entry_sha256@
                    == entry.delete_confirmed_entry_sha256@;
            assert(anchors[k].asset_id@ == entry.asset_id@);
            assert(anchors[k].delete_confirmed_entry_sha256@
                == entry.delete_confirmed_entry_sha256@);
        }
    }
}

/// A rotation can begin exactly if the request is accepted, the digest of the prior receipt is one,
/// the caller is the writer, evidence and prior receipt are private files of at most a mebibyte with
/// the digests that are expected, the receipt's body has the digest that it says, the state is
/// loaded, and the checkpoint can be read, be it current or stale.
pub proof fn rotations_begin_with_both_files(
    request: LegacyUploadDeviceRecoveryRotateRequest,
    observed: RotationObservation,
    evidence: (sealed::EvidenceMetadata, Vec<u8>),
    prior: (sealed::EvidenceMetadata, Vec<u8>),
)
    requires
        observed.read == SourceRead::Read(evidence.0, evidence.1),
        observed.prior_read == SourceRead::Read(prior.0, prior.1),
    ensures
        reading_refusal(request, observed) is None <==> {
            &&& audit::request_refusal(request.evidence) is None
            &&& identity::digest_text(request.expected_prior_receipt_sha256@)
            &&& observed.writer
            &&& evidence.0.owner_only(observed.process.euid)
            &&& evidence.1@.len() <= 1_048_576
            &&& digest::sha256_hex(evidence.1@) == request.evidence.expected_evidence_sha256@
            &&& observed.document is Some
            &&& observed.manifest is Some
            &&& observed.status is Current || observed.status is Stale
            &&& prior.0.owner_only(observed.process.euid)
            &&& prior.1@.len() <= 1_048_576
            &&& digest::sha256_hex(prior.1@) == request.expected_prior_receipt_sha256@
            &&& observed.prior is Some
            &&& digest::sha256_hex(observed.prior_body_json@) == observed.prior->0.body_sha256@
        },
{
}

/// A rotation has the authority exactly if the prior bundle vouches for the signer of the prior
/// receipt, the running executable states the same requirement, the prior receipt is continued, and
/// its mappings are sound and cover the document.
pub proof fn rotations_need_the_authority_of_both_signers(
    request: LegacyUploadDeviceRecoveryRotateRequest,
    observed: RotationObservation,
)
    ensures
        authority_refusal(request, observed) is None <==> {
            let body = observed.prior->0.body;
            let document = observed.document->0;
            let running = observed.process.signer();
            &&& signer::bundle_signer(
                request.prior_service_bundle@,
                observed.bundle,
                observed.helper,
                observed.process.euid,
                body.signer,
            ) is Ok
            &&& running is Ok
            &&& running->Ok_0.1 == body.signer.designated_requirement_sha256@
            &&& receipt::continuity_refusal(
                body,
                document,
                observed.manifest->0,
                request.evidence.expected_evidence_sha256@,
                (body.signer.executable_sha256@, body.signer.designated_requirement_sha256@),
            ) is None
            &&& recovery::mappings_sound(
                body.mappings@,
                document.quarantine_roots@,
                observed.root_path_json@,
            )
            &&& recovery::document_known(document, recovery::mapping_pairs(body.mappings@))
        },
{
}

/// Another look before a rotation finds everything as it was exactly if the state did not change,
/// the checkpoint is current where it has to be, both files are the same, the prior bundle still
/// vouches, and the layout is sound.
pub proof fn another_look_finds_everything_as_it_was(
    request: LegacyUploadDeviceRecoveryRotateRequest,
    observed: RotationObservation,
    operational: EvidenceDocument,
    look: RotationLook,
    fresh: bool,
)
    ensures
        look_refusal(request, observed, operational, look, fresh) is None <==> {
            &&& look.state_unchanged
            &&& fresh ==> look.status is Current
            &&& load::same_again(observed.read, look.evidence)
            &&& load::same_again(observed.prior_read, look.prior)
            &&& signer::bundle_signer(
                request.prior_service_bundle@,
                look.bundle,
                look.helper,
                observed.process.euid,
                observed.prior->0.body.signer,
            ) is Ok
            &&& layout::layout_refusal(
                operational,
                observed.manifest->0,
                reached(observed),
                observed.operational_plan_inputs,
                look.layout,
                observed.process.euid,
            ) is None
        },
{
}

/// A stale checkpoint is recovered exactly if it was exported, the state was loaded again unchanged,
/// and the checkpoint is current then.
pub proof fn stale_checkpoints_are_exported(export: CheckpointExport)
    ensures
        export_refusal(export) is None <==> export.exported && export.reloaded is Some
            && export.reloaded->0 && export.status is Current,
{
}

/// A rotation is issued exactly if a stale checkpoint was recovered, two looks find everything as it
/// was, one before and one after the receipt is written, every retirement is anchored, and the
/// receipt is a private file of its own bytes that stays the same.
pub proof fn rotations_are_issued_between_two_looks(
    request: LegacyUploadDeviceRecoveryRotateRequest,
    observed: RotationObservation,
    operational: EvidenceDocument,
    issue: RotationIssue,
)
    ensures
        issue_refusal(request, observed, operational, issue) is None <==> {
            &&& observed.status is Stale ==> look_refusal(
                request,
                observed,
                operational,
                issue.unexported,
                false,
            ) is None && export_refusal(issue.export) is None
            &&& look_refusal(request, observed, operational, issue.before, true) is None
            &&& receipt::anchors_from(
                observed.document->0.retired_replacements@,
                observed.manifest->0,
            ) is Ok
            &&& output::receipt_written(
                request.output_path@,
                issue.receipt@,
                issue.output,
                observed.process.euid,
            )
            &&& look_refusal(request, observed, operational, issue.after, true) is None
            &&& issue::receipt_steady(
                issue.receipt@,
                issue.output,
                issue.receipt_again,
                observed.process.euid,
            )
        },
{
}

/// A report of a rotation tells both receipts by their digests, the phase that was reached, the
/// counts of the document and of the prior mappings, the requirement of the prior receipt on both
/// sides, and that the checkpoint was recovered exactly if it was stale.
pub proof fn rotation_reports_tell_both_receipts(
    report: LegacyUploadDeviceRecoveryRotateReport,
    request: LegacyUploadDeviceRecoveryRotateRequest,
    observed: RotationObservation,
    receipt: Seq<u8>,
)
    requires
        reports(report, request, observed, receipt),
    ensures
        report.previous_receipt_sha256@ == request.expected_prior_receipt_sha256@,
        report.receipt_sha256@ == digest::sha256_hex(receipt),
        report.evidence_sha256@ == request.evidence.expected_evidence_sha256@,
        report.cohort_sha256@ == observed.document->0.cohort_sha256@,
        report.migration_phase@ == plan::cohort_phase(
            observed.document->0,
            observed.manifest->0,
        )->Ok_0->0.name(),
        report.device_mapping_count == observed.prior->0.body.mappings@.len(),
        report.raw_input_count == observed.document->0.raw_inputs@.len(),
        report.quarantine_member_count == observed.document->0.quarantine_members@.len(),
        report.reference_count == observed.document->0.reference_normalizations@.len(),
        report.previous_signer_designated_requirement_sha256@
            == observed.prior->0.body.signer.designated_requirement_sha256@,
        report.signer_designated_requirement_sha256@
            == observed.prior->0.body.signer.designated_requirement_sha256@,
        report.checkpoint_recovered <==> observed.status is Stale,
{
}

/// What keeps a rotation from beginning is told by its name.
pub proof fn faults_of_a_rotation_are_named(
    request: LegacyUploadDeviceRecoveryRotateRequest,
    observed: RotationObservation,
)
    ensures
        ({
            let requested = audit::request_refusal(request.evidence);
            let reading = sealed::evidence_read_refusal(observed.read, observed.process.euid);
            let prior_reading = sealed::evidence_read_refusal(
                observed.prior_read,
                observed.process.euid,
            );
            let asked = requested is None;
            let prior_asked = identity::digest_text(request.expected_prior_receipt_sha256@);
            let writing = observed.writer;
            let readable = reading is None;
            let expected = digest::sha256_hex(observed.read->Read_1@)
                == request.evidence.expected_evidence_sha256@;
            let decoded = observed.document is Some;
            let loaded = observed.manifest is Some;
            let checkpoint = !(observed.status is Unreadable);
            let prior_readable = prior_reading is None;
            let prior_expected = digest::sha256_hex(observed.prior_read->Read_1@)
                == request.expected_prior_receipt_sha256@;
            let prior_decoded = observed.prior is Some;
            let prior_sealed = digest::sha256_hex(observed.prior_body_json@)
                == observed.prior->0.body_sha256@;
            let told = reading_refusal(request, observed);
            &&& !asked ==> told == requested
            &&& asked && !prior_asked ==> told == Some("recovery_expected_digest"@)
            &&& asked && prior_asked && !writing ==> told == Some("state_writer_required"@)
            &&& asked && prior_asked && writing && !readable ==> told == reading
            &&& asked && prior_asked && writing && readable && !expected
                ==> told == Some("evidence_digest"@)
            &&& asked && prior_asked && writing && readable && expected && !decoded
                ==> told == Some("evidence_schema"@)
            &&& asked && prior_asked && writing && readable && expected && decoded && !loaded
                ==> told == Some("state_load"@)
            &&& asked && prior_asked && writing && readable && expected && decoded && loaded
                && !checkpoint ==> told == Some("checkpoint_read"@)
            &&& asked && prior_asked && writing && readable && expected && decoded && loaded
                && checkpoint && !prior_readable ==> told == prior_reading
            &&& asked && prior_asked && writing && readable && expected && decoded && loaded
                && checkpoint && prior_readable && !prior_expected
                ==> told == Some("recovery_digest"@)
            &&& asked && prior_asked && writing && readable && expected && decoded && loaded
                && checkpoint && prior_readable && prior_expected && !prior_decoded
                ==> told == Some("recovery_schema"@)
            &&& asked && prior_asked && writing && readable && expected && decoded && loaded
                && checkpoint && prior_readable && prior_expected && prior_decoded
                && !prior_sealed ==> told == Some("recovery_digest"@)
        }),
{
}

/// What denies a rotation its authority is told by its name.
pub proof fn faults_of_an_authority_are_named(
    request: LegacyUploadDeviceRecoveryRotateRequest,
    observed: RotationObservation,
)
    ensures
        ({
            let body = observed.prior->0.body;
            let bundle = signer::bundle_signer(
                request.prior_service_bundle@,
                observed.bundle,
                observed.helper,
                observed.process.euid,
                body.signer,
            );
            let running = observed.process.signer();
            let continued = receipt::continuity_refusal(
                body,
                observed.document->0,
                observed.manifest->0,
                request.evidence.expected_evidence_sha256@,
                prior_signer(observed),
            );
            let vouched = bundle is Ok;
            let signed = running is Ok;
            let matching = running->Ok_0.1 == body.signer.designated_requirement_sha256@;
            let goes_on = continued is None;
            let covered = recovery::mappings_sound(
                    body.mappings@,
                    observed.document->0.quarantine_roots@,
                    observed.root_path_json@,
                )
                && recovery::document_known(
                    observed.document->0,
                    recovery::mapping_pairs(body.mappings@),
                );
            let told = authority_refusal(request, observed);
            &&& !vouched ==> told == Some(bundle->Err_0)
            &&& vouched && !signed ==> told == Some(running->Err_0)
            &&& vouched && signed && !matching ==> told == Some("recovery_signer_mismatch"@)
            &&& vouched && signed && matching && !goes_on ==> told == continued
            &&& vouched && signed && matching && goes_on && !covered
                ==> told == Some("recovery_mapping"@)
        }),
{
}

/// What another look finds changed is told by its name.
pub proof fn faults_of_another_look_are_named(
    request: LegacyUploadDeviceRecoveryRotateRequest,
    observed: RotationObservation,
    operational: EvidenceDocument,
    look: RotationLook,
    fresh: bool,
)
    ensures
        ({
            let bundle = signer::bundle_signer(
                request.prior_service_bundle@,
                look.bundle,
                look.helper,
                observed.process.euid,
                observed.prior->0.body.signer,
            );
            let laid = layout::layout_refusal(
                operational,
                observed.manifest->0,
                reached(observed),
                observed.operational_plan_inputs,
                look.layout,
                observed.process.euid,
            );
            let unchanged = look.state_unchanged;
            let readable = fresh ==> !(look.status is Unreadable);
            let current = fresh ==> !(look.status is Stale);
            let steady = load::same_again(observed.read, look.evidence)
                && load::same_again(observed.prior_read, look.prior);
            let vouched = bundle is Ok;
            let in_place = laid is None;
            let told = look_refusal(request, observed, operational, look, fresh);
            &&& !unchanged ==> told == Some("state_changed"@)
            &&& unchanged && !readable ==> told == Some("checkpoint_read"@)
            &&& unchanged && readable && !current ==> told == Some("checkpoint_stale"@)
            &&& unchanged && readable && current && !steady ==> told == Some("evidence_changed"@)
            &&& unchanged && readable && current && steady && !vouched
                ==> told == Some(bundle->Err_0)
            &&& unchanged && readable && current && steady && vouched && !in_place ==> told == laid
        }),
{
}

/// What keeps a checkpoint from being exported is told by its name.
pub proof fn faults_of_an_export_are_named(
    export: CheckpointExport,
)
    ensures
        ({
            let exported = export.exported;
            let loaded = export.reloaded is Some;
            let unchanged = export.reloaded->0;
            let readable = !(export.status is Unreadable);
            let current = !(export.status is Stale);
            let told = export_refusal(export);
            &&& !exported ==> told == Some("checkpoint_export"@)
            &&& exported && !loaded ==> told == Some("state_load"@)
            &&& exported && loaded && !unchanged ==> told == Some("state_changed"@)
            &&& exported && loaded && unchanged && !readable ==> told == Some("checkpoint_read"@)
            &&& exported && loaded && unchanged && readable && !current
                ==> told == Some("checkpoint_export"@)
        }),
{
}

/// What keeps a rotation from being issued is told by its name.
pub proof fn faults_of_an_issued_rotation_are_named(
    request: LegacyUploadDeviceRecoveryRotateRequest,
    observed: RotationObservation,
    operational: EvidenceDocument,
    issue: RotationIssue,
)
    ensures
        ({
            let stale = stale_refusal(request, observed, operational, issue);
            let before = look_refusal(request, observed, operational, issue.before, true);
            let anchors = receipt::anchors_from(
                observed.document->0.retired_replacements@,
                observed.manifest->0,
            );
            let after = look_refusal(request, observed, operational, issue.after, true);
            let fresh = stale is None;
            let unchanged = before is None;
            let anchored = anchors is Ok;
            let written = output::receipt_written(
                request.output_path@,
                issue.receipt@,
                issue.output,
                observed.process.euid,
            );
            let still_unchanged = after is None;
            let steady = issue::receipt_steady(
                issue.receipt@,
                issue.output,
                issue.receipt_again,
                observed.process.euid,
            );
            let told = issue_refusal(request, observed, operational, issue);
            &&& !fresh ==> told == stale
            &&& fresh && !unchanged ==> told == before
            &&& fresh && unchanged && !anchored ==> told == Some(anchors->Err_0)
            &&& fresh && unchanged && anchored && !written ==> told == Some("recovery_output"@)
            &&& fresh && unchanged && anchored && written && !still_unchanged ==> told == after
            &&& fresh && unchanged && anchored && written && still_unchanged && !steady
                ==> told == Some("evidence_changed"@)
        }),
{
}

/// A rotation stands exactly if its layout does and its document is accepted; the layout is refused
/// first.
pub proof fn rotations_stand_on_their_layout_and_document(
    request: LegacyUploadDeviceRecoveryRotateRequest,
    observed: RotationObservation,
    operational: EvidenceDocument,
)
    ensures
        ({
            let laid = layout::layout_refusal(
                operational,
                observed.manifest->0,
                plan::cohort_phase(observed.document->0, observed.manifest->0)->Ok_0->0,
                observed.operational_plan_inputs,
                observed.layout,
                observed.process.euid,
            );
            let valid = validation::document_refusal(
                observed.document->0,
                observed.encodings,
                observed.plan_inputs,
                request.evidence,
                observed.manifest->0,
                observed.prior->0.body.original_destination_canonicalizations@,
            );
            let told = standing_refusal(request, observed, operational);
            &&& told is None <==> laid is None && valid is None
            &&& laid is Some ==> told == laid
            &&& laid is None ==> told == valid
        }),
{
}

/// A rotated receipt takes over the mappings and the canonicalizations of the prior one, and states
/// all else anew, signed by the running executable.
pub proof fn rotations_take_over_the_mappings(
    body: DeviceRecoveryReceiptBody,
    request: LegacyUploadDeviceRecoveryRotateRequest,
    observed: RotationObservation,
)
    requires
        carries_over(body, request, observed),
    ensures
        body.mappings@ == observed.prior->0.body.mappings@,
        body.original_destination_canonicalizations@
            == observed.prior->0.body.original_destination_canonicalizations@,
        body.evidence_sha256@ == request.evidence.expected_evidence_sha256@,
        body.cohort_sha256@ == observed.document->0.cohort_sha256@,
        body.authoritative_manifest_sha256@ == digest::sha256_hex(observed.manifest->0.json@),
        body.schema_version == 2,
        body.checkpoint_current,
        body.signer.executable_sha256@ == observed.process.signer()->Ok_0.0,
        body.signer.designated_requirement_sha256@ == observed.process.signer()->Ok_0.1,
{
}

/// An authorized rotation holds the evidence and the prior receipt that were read, both signers, and
/// the phase that both retirements have reached.
pub proof fn rotations_hold_both_files_and_signers(
    rotation: Rotation,
    request: LegacyUploadDeviceRecoveryRotateRequest,
    observed: RotationObservation,
)
    requires
        authorizes(rotation, request, observed),
    ensures
        reading_refusal(request, observed) is None,
        authority_refusal(request, observed) is None,
        standing_refusal(request, observed, rotation.operational) is None,
        rotation.evidence.bytes@ == observed.read->Read_1@,
        rotation.evidence.sha256@ == request.evidence.expected_evidence_sha256@,
        rotation.evidence.initial_metadata == observed.read->Read_0,
        rotation.prior_receipt.bytes@ == observed.prior_read->Read_1@,
        rotation.prior_receipt.sha256@ == request.expected_prior_receipt_sha256@,
        rotation.prior_receipt.initial_metadata == observed.prior_read->Read_0,
        rotation.prior_signer.executable_sha256@
            == observed.prior->0.body.signer.executable_sha256@,
        rotation.prior_signer.designated_requirement_sha256@
            == observed.prior->0.body.signer.designated_requirement_sha256@,
        rotation.current_signer.executable_sha256@ == observed.process.signer()->Ok_0.0,
        rotation.current_signer.designated_requirement_sha256@
            == observed.process.signer()->Ok_0.1,
        rotation.phase == plan::cohort_phase(observed.document->0, observed.manifest->0)->Ok_0->0,
        rotation.operational.assets@ == observed.document->0.assets@,
        rotation.operational.retired_replacements@
            == observed.document->0.retired_replacements@,
{
}

/// A rotation begins with the reading of its files, and only then needs authority; a stale
/// checkpoint is looked at and exported, a current one is left as it is.
pub proof fn rotations_read_before_they_ask(
    request: LegacyUploadDeviceRecoveryRotateRequest,
    observed: RotationObservation,
    operational: EvidenceDocument,
    issue: RotationIssue,
)
    ensures
        reading_refusal(request, observed) is Some ==> opening_refusal(request, observed)
            == reading_refusal(request, observed),
        reading_refusal(request, observed) is None ==> opening_refusal(request, observed)
            == authority_refusal(request, observed),
        !(observed.status is Stale) ==> stale_refusal(request, observed, operational, issue)
            is None,
        observed.status is Stale ==> {
            let look = look_refusal(request, observed, operational, issue.unexported, false);
            let told = stale_refusal(request, observed, operational, issue);
            &&& look is Some ==> told == look
            &&& look is None ==> told == export_refusal(issue.export)
        },
{
}

} // verus!
