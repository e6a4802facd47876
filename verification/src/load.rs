use vstd::prelude::*;
use vstd::string::*;

use crate::audit;
use crate::audit::{
    validate_public_request, DocumentEncodings, LegacyUploadEvidenceAudit,
    LegacyUploadEvidenceAuditRequest, ValidatedEvidenceDocument,
};
use crate::canonicalization::OriginalDestinationCanonicalization;
use crate::digest;
use crate::digest::sha256_bytes;
use crate::document::{
    EvidenceDocument, EvidenceReferenceNormalization, MAX_EVIDENCE_BYTES, RETIRED_REPLACEMENT_COUNT,
};
use crate::error::{failure, LegacyUploadEvidenceError};
use crate::identity;
use crate::identity::is_digest;
use crate::layout;
use crate::layout::{
    validate_device_recovery_quarantine_layout, LayoutObservation, RootObservation,
};
use crate::manifest::Manifest;
use crate::phase::LegacyUploadMigrationPhase;
use crate::plan;
use crate::plan::{coherent_retired_replacement_phase, quarantine_plan_from_document, PlanInputs};
use crate::quarantine::LegacyUploadMigrationQuarantinePlan;
use crate::receipt;
use crate::receipt::{validate_device_recovery_continuity, ProcessObservation};
use crate::recovery;
use crate::recovery::{
    device_recovery_root_mappings, operational_document_from_recovery_receipt,
    DeviceRecoveryMapping, DeviceRecoveryReceipt, MAX_DEVICE_RECOVERY_BYTES,
};
use crate::sealed;
use crate::sealed::{
    open_sealed_references, open_sealed_references_for_partial_recovery, read_sealed_evidence,
    revalidate_held_reference_descriptors, revalidate_sealed_evidence,
    revalidate_sealed_references, EvidenceMetadata, Presence, SealedEvidence, SealedReference,
    SourceRead,
};
use crate::text::same_text;
use crate::validation;
use crate::validation::validate_document;

verus! {

/// Which receipt an operator wants to recover with.
#[derive(Debug, PartialEq, Eq)]
pub struct LegacyUploadDeviceRecoveryRequest {
    pub receipt_path: String,
    pub expected_receipt_sha256: String,
}

/// A second look at sealed evidence: the bytes of the open file, and what the system says of it
/// and of the file that has its name now.
#[derive(Debug, PartialEq, Eq)]
pub struct EvidenceReread {
    pub reread: Option<Vec<u8>>,
    pub held: Option<EvidenceMetadata>,
    pub named: Option<EvidenceMetadata>,
}

impl SealedEvidence {
    /// The evidence still is what was sealed.
    pub open spec fn steady(self, again: EvidenceReread, euid: u32) -> bool {
        self.unchanged(again.reread, again.held, again.named, euid)
    }

    fn reconfirm(&self, again: &EvidenceReread, euid: u32) -> (r: Result<
        (),
        LegacyUploadEvidenceError,
    >)
        ensures
            r is Ok <==> self.steady(*again, euid),
            r matches Err(error) ==> error@ == "evidence_changed"@,
    {
        revalidate_sealed_evidence(self, &again.reread, again.held, again.named, euid)
    }
}

/// A second look found the file that was read first, with the same content.
pub open spec fn same_again(read: SourceRead, again: EvidenceReread) -> bool {
    &&& again.reread matches Some(bytes) && bytes@.len() <= MAX_EVIDENCE_BYTES && bytes@
        == read->Read_1@
    &&& again.held == Some(read->Read_0)
    &&& again.named == Some(read->Read_0)
}

/// What was read and found when a receipt is loaded.
#[derive(Debug, PartialEq, Eq)]
pub struct ReceiptObservation {
    pub read: SourceRead,
    /// What the receipt decodes to, and the canonical JSON of what it states.
    pub receipt: Option<DeviceRecoveryReceipt>,
    pub body_json: Vec<u8>,
    pub roots: Vec<RootObservation>,
    /// The canonical JSON of the path of each root of the document.
    pub root_path_json: Vec<Vec<u8>>,
    /// What the plan of the operational document needs.
    pub plan_inputs: PlanInputs,
    pub layout: LayoutObservation,
    pub again: EvidenceReread,
    pub process: ProcessObservation,
}

/// A receipt that was loaded, sealed as it was read.
#[derive(Debug, PartialEq, Eq)]
pub struct SealedDeviceRecovery {
    pub expected_receipt_sha256: String,
    pub receipt: DeviceRecoveryReceipt,
    pub sealed: SealedEvidence,
}

/// The category under which a receipt is refused as it was read, or nothing.
pub open spec fn receipt_reading_refusal(
    expected_sha256: Seq<char>,
    observed: ReceiptObservation,
) -> Option<Seq<char>> {
    let read = sealed::evidence_read_refusal(observed.read, observed.process.euid);
    if !identity::digest_text(expected_sha256) {
        Some("recovery_expected_digest"@)
    } else if read is Some {
        read
    } else if observed.read->Read_1@.len() > MAX_DEVICE_RECOVERY_BYTES || digest::sha256_hex(
        observed.read->Read_1@,
    ) != expected_sha256 {
        Some("recovery_digest"@)
    } else if observed.receipt is None {
        Some("recovery_schema"@)
    } else if digest::sha256_hex(observed.body_json@) != observed.receipt->0.body_sha256@ {
        Some("recovery_digest"@)
    } else {
        None
    }
}

/// The phase of the cohort is asked for only of a receipt that was read, that is current and that
/// is of the program that runs; the document then has to have its two replacements.
pub open spec fn receipt_readable(
    expected_sha256: Seq<char>,
    document: EvidenceDocument,
    evidence_sha256: Seq<char>,
    observed: ReceiptObservation,
) -> bool {
    receipt_reading_refusal(expected_sha256, observed) is None
        ==> receipt::running_continuity_readable(
        observed.receipt->0.body,
        document,
        evidence_sha256,
        observed.process,
    )
}

/// The category under which a receipt is refused before the operational document is looked at.
pub open spec fn receipt_refusal(
    expected_sha256: Seq<char>,
    document: EvidenceDocument,
    manifest: Manifest,
    evidence_sha256: Seq<char>,
    observed: ReceiptObservation,
) -> Option<Seq<char>> {
    let reading = receipt_reading_refusal(expected_sha256, observed);
    if reading is Some {
        reading
    } else {
        let body = observed.receipt->0.body;
        let continued = receipt::running_continuity_refusal(
            body,
            document,
            manifest,
            evidence_sha256,
            observed.process,
        );
        if continued is Some {
            continued
        } else if !(recovery::mappings_sound(
            body.mappings@,
            document.quarantine_roots@,
            observed.root_path_json@,
        ) && recovery::document_known(document, recovery::mapping_pairs(body.mappings@))) {
            Some("recovery_mapping"@)
        } else if plan::cohort_phase(document, manifest)->Ok_0 == Some(
            LegacyUploadMigrationPhase::DeleteConfirmed,
        ) {
            let mapped = recovery::mappings_refusal(
                document.quarantine_roots@,
                observed.roots@,
                observed.root_path_json@,
                false,
            );
            if mapped is Some {
                mapped
            } else if !recovery::maps_roots(
                body.mappings@,
                document.quarantine_roots@,
                observed.roots@,
                observed.root_path_json@,
            ) {
                Some("recovery_changed"@)
            } else {
                None
            }
        } else {
            None
        }
    }
}

/// The category under which the operational document of a receipt is refused, or nothing.
pub open spec fn receipt_operational_refusal(
    operational: EvidenceDocument,
    manifest: Manifest,
    phase: LegacyUploadMigrationPhase,
    observed: ReceiptObservation,
) -> Option<Seq<char>> {
    match layout::layout_refusal(
        operational,
        manifest,
        phase,
        observed.plan_inputs,
        observed.layout,
        observed.process.euid,
    ) {
        Some(category) => Some(category),
        None => if same_again(observed.read, observed.again) {
            None
        } else {
            Some("evidence_changed"@)
        },
    }
}

fn are_roots_mapped(
    mappings: &Vec<DeviceRecoveryMapping>,
    roots: &Vec<crate::quarantine::QuarantineRoot>,
    observed: &Vec<RootObservation>,
    root_path_json: &Vec<Vec<u8>>,
) -> (r: bool)
    requires
        recovery::mappings_sound(mappings@, roots@, root_path_json@),
        recovery::mappings_refusal(roots@, observed@, root_path_json@, false) is None,
    ensures
        r == recovery::maps_roots(mappings@, roots@, observed@, root_path_json@),
{
    let mut k: usize = 0;
    while k < mappings.len()
        invariant
            k <= mappings@.len(),
            recovery::mappings_refusal(roots@, observed@, root_path_json@, false) is None,
            forall|a: int|
                0 <= a < k ==> recovery::maps_some_root(
                    #[trigger] mappings@[a],
                    roots@,
                    observed@,
                    root_path_json@,
                ),
        decreases mappings@.len() - k,
    {
        if !is_root_mapped(&mappings[k], roots, observed, root_path_json) {
            return false;
        }
        k += 1;
    }
    true
}

fn is_root_mapped(
    mapping: &DeviceRecoveryMapping,
    roots: &Vec<crate::quarantine::QuarantineRoot>,
    observed: &Vec<RootObservation>,
    root_path_json: &Vec<Vec<u8>>,
) -> (r: bool)
    requires
        recovery::mappings_refusal(roots@, observed@, root_path_json@, false) is None,
    ensures
        r == recovery::maps_some_root(*mapping, roots@, observed@, root_path_json@),
{
    let mut i: usize = 0;
    while i < roots.len()
        invariant
            i <= roots@.len(),
            roots@.len() <= observed@.len(),
            roots@.len() <= root_path_json@.len(),
            recovery::mappings_refusal(roots@, observed@, root_path_json@, false) is None,
            forall|a: int|
                0 <= a < i ==> !(#[trigger] recovery::maps_root(
                    *mapping,
                    roots@,
                    observed@,
                    root_path_json@,
                    a,
                )),
        decreases roots@.len() - i,
    {
        assert(recovery::root_recovered(roots@[i as int], observed@[i as int], false));
        let device: u64 = match observed[i].metadata {
            Some(found) => found.dev,
            None => 0,
        };
        if mapping.previous_device == roots[i].device && mapping.current_device == device
            && mapping.root_inode == roots[i].inode && same_text(
            &mapping.root_path_sha256,
            &sha256_bytes(&root_path_json[i]),
        ) {
            assert(recovery::maps_root(*mapping, roots@, observed@, root_path_json@, i as int));
            return true;
        }
        assert(!recovery::maps_root(*mapping, roots@, observed@, root_path_json@, i as int));
        i += 1;
    }
    false
}

/// Loads a receipt: it is the one that was asked for, it still continues the cohort for the
/// program that runs, and what lies on disk is what the cohort may have left there.
pub fn load_device_recovery(
    request: &LegacyUploadDeviceRecoveryRequest,
    document: &EvidenceDocument,
    manifest: &Manifest,
    evidence_sha256: &str,
    observed: ReceiptObservation,
) -> (r: Result<(SealedDeviceRecovery, EvidenceDocument), LegacyUploadEvidenceError>)
    requires
        receipt_readable(
            request.expected_receipt_sha256@,
            *document,
            evidence_sha256@,
            observed,
        ),
    ensures
        match r {
            Ok((recovered, operational)) => {
                &&& receipt_refusal(
                    request.expected_receipt_sha256@,
                    *document,
                    *manifest,
                    evidence_sha256@,
                    observed,
                ) is None
                &&& recovery::operational_form(
                    operational,
                    *document,
                    recovery::mapping_pairs(observed.receipt->0.body.mappings@),
                )
                &&& receipt_operational_refusal(
                    operational,
                    *manifest,
                    plan::cohort_phase(*document, *manifest)->Ok_0->0,
                    observed,
                ) is None
                &&& holds_receipt(recovered, *request, observed)
            },
            Err(error) => match receipt_refusal(
                request.expected_receipt_sha256@,
                *document,
                *manifest,
                evidence_sha256@,
                observed,
            ) {
                Some(category) => error@ == category,
                None => exists|operational: EvidenceDocument|
                    recovery::operational_form(
                        operational,
                        *document,
                        recovery::mapping_pairs(observed.receipt->0.body.mappings@),
                    ) && #[trigger] receipt_operational_refusal(
                        operational,
                        *manifest,
                        plan::cohort_phase(*document, *manifest)->Ok_0->0,
                        observed,
                    ) == Some(error@),
            },
        },
{
    if !is_digest(&request.expected_receipt_sha256) {
        return Err(failure("recovery_expected_digest"));
    }
    let ReceiptObservation {
        read,
        receipt,
        body_json,
        roots,
        root_path_json,
        plan_inputs,
        layout,
        again,
        process,
    } = observed;
    let sealed = match read_sealed_evidence(read, process.euid) {
        Err(error) => {
            return Err(error);
        },
        Ok(sealed) => sealed,
    };
    if sealed.bytes.len() as u64 > MAX_DEVICE_RECOVERY_BYTES || !same_text(
        &sealed.sha256,
        &request.expected_receipt_sha256,
    ) {
        return Err(failure("recovery_digest"));
    }
    let receipt = match receipt {
        None => {
            return Err(failure("recovery_schema"));
        },
        Some(receipt) => receipt,
    };
    if !same_text(&sha256_bytes(&body_json), &receipt.body_sha256) {
        return Err(failure("recovery_digest"));
    }
    match validate_device_recovery_continuity(
        &receipt.body,
        document,
        manifest,
        evidence_sha256,
        &process,
    ) {
        Err(error) => {
            return Err(error);
        },
        Ok(()) => {},
    }
    let phase = match coherent_retired_replacement_phase(document, manifest) {
        Err(error) => {
            return Err(error);
        },
        Ok(None) => {
            return Err(failure("recovery_phase"));
        },
        Ok(Some(phase)) => phase,
    };
    let operational = match operational_document_from_recovery_receipt(
        document,
        &receipt.body,
        &root_path_json,
    ) {
        Err(error) => {
            return Err(error);
        },
        Ok(operational) => operational,
    };
    if phase == LegacyUploadMigrationPhase::DeleteConfirmed {
        match device_recovery_root_mappings(document, false, &roots, &root_path_json) {
            Err(error) => {
                return Err(error);
            },
            Ok(_) => {},
        }
        if !are_roots_mapped(
            &receipt.body.mappings,
            &document.quarantine_roots,
            &roots,
            &root_path_json,
        ) {
            return Err(failure("recovery_changed"));
        }
    }
    match validate_device_recovery_quarantine_layout(
        &operational,
        manifest,
        phase,
        &plan_inputs,
        &layout,
        process.euid,
    ) {
        Err(error) => {
            assert(receipt_operational_refusal(operational, *manifest, phase, observed) == Some(
                error@,
            ));
            return Err(error);
        },
        Ok(()) => {},
    }
    match sealed.reconfirm(&again, process.euid) {
        Err(error) => {
            assert(receipt_operational_refusal(operational, *manifest, phase, observed) == Some(
                error@,
            ));
            return Err(error);
        },
        Ok(()) => {},
    }
    Ok(
        (
            SealedDeviceRecovery {
                expected_receipt_sha256: request.expected_receipt_sha256.clone(),
                receipt,
                sealed,
            },
            operational,
        ),
    )
}

/// How the authoritative state was read.
#[derive(Debug, PartialEq, Eq)]
pub enum StateRead {
    OpenFailed,
    LoadFailed,
    Loaded(Manifest),
}

/// Evidence that was opened, with the state it is to be held against and the phase of its cohort.
#[derive(Debug, PartialEq, Eq)]
pub struct OpenedEvidence {
    pub sealed: SealedEvidence,
    pub document: EvidenceDocument,
    pub manifest: Manifest,
    pub phase: Option<LegacyUploadMigrationPhase>,
}

/// The category under which evidence is refused before it is held against the state, or nothing.
pub open spec fn evidence_refusal(
    request: LegacyUploadEvidenceAuditRequest,
    read: SourceRead,
    document: Option<EvidenceDocument>,
    state: StateRead,
    euid: u32,
) -> Option<Seq<char>> {
    let requested = audit::request_refusal(request);
    let reading = sealed::evidence_read_refusal(read, euid);
    if requested is Some {
        requested
    } else if reading is Some {
        reading
    } else if digest::sha256_hex(read->Read_1@) != request.expected_evidence_sha256@ {
        Some("evidence_digest"@)
    } else {
        match document {
            None => Some("evidence_schema"@),
            Some(document) => if document.retired_replacements@.len()
                != RETIRED_REPLACEMENT_COUNT {
                Some("evidence_count"@)
            } else {
                match state {
                    StateRead::OpenFailed => Some("state_open"@),
                    StateRead::LoadFailed => Some("state_load"@),
                    StateRead::Loaded(manifest) => match plan::cohort_phase(document, manifest) {
                        Err(category) => Some(category),
                        Ok(_) => None,
                    },
                }
            },
        }
    }
}

/// Opens evidence: it is the one that was asked for, it decodes, and its cohort stands at one
/// phase.
pub fn open_evidence(
    request: &LegacyUploadEvidenceAuditRequest,
    read: SourceRead,
    document: Option<EvidenceDocument>,
    state: StateRead,
    euid: u32,
) -> (r: Result<OpenedEvidence, LegacyUploadEvidenceError>)
    ensures
        match r {
            Ok(opened) => {
                &&& evidence_refusal(*request, read, document, state, euid) is None
                &&& opened.sealed.bytes@ == read->Read_1@
                &&& opened.sealed.sha256@ == request.expected_evidence_sha256@
                &&& opened.sealed.sha256@ == digest::sha256_hex(opened.sealed.bytes@)
                &&& opened.sealed.initial_metadata == read->Read_0
                &&& document == Some(opened.document)
                &&& state == StateRead::Loaded(opened.manifest)
                &&& plan::cohort_phase(opened.document, opened.manifest) == Ok::<
                    Option<LegacyUploadMigrationPhase>,
                    Seq<char>,
                >(opened.phase)
                &&& opened.document.retired_replacements@.len() == RETIRED_REPLACEMENT_COUNT
            },
            Err(error) => evidence_refusal(*request, read, document, state, euid) == Some(error@),
        },
{
    match validate_public_request(request) {
        Err(error) => {
            return Err(error);
        },
        Ok(()) => {},
    }
    let sealed = match read_sealed_evidence(read, euid) {
        Err(error) => {
            return Err(error);
        },
        Ok(sealed) => sealed,
    };
    if !same_text(&sealed.sha256, &request.expected_evidence_sha256) {
        return Err(failure("evidence_digest"));
    }
    let document = match document {
        None => {
            return Err(failure("evidence_schema"));
        },
        Some(document) => document,
    };
    if document.retired_replacements.len() != RETIRED_REPLACEMENT_COUNT {
        return Err(failure("evidence_count"));
    }
    let manifest = match state {
        StateRead::OpenFailed => {
            return Err(failure("state_open"));
        },
        StateRead::LoadFailed => {
            return Err(failure("state_load"));
        },
        StateRead::Loaded(manifest) => manifest,
    };
    match coherent_retired_replacement_phase(&document, &manifest) {
        Err(error) => Err(error),
        Ok(phase) => Ok(OpenedEvidence { sealed, document, manifest, phase }),
    }
}

/// What was read and found when opened evidence is held against the state.
#[derive(Debug, PartialEq, Eq)]
pub struct AuditObservation {
    pub encodings: DocumentEncodings,
    /// What the plan of the sealed document needs.
    pub plan_inputs: PlanInputs,
    /// What the plan of the operational document needs.
    pub operational_plan_inputs: PlanInputs,
    /// The references, where none may have been moved yet.
    pub references: Vec<SourceRead>,
    /// The references, where some may have been moved already.
    pub present_references: Vec<Presence>,
    /// Whether the state that was read is still the authoritative one.
    pub state_unchanged: bool,
    pub again: EvidenceReread,
    pub references_held: Vec<SourceRead>,
    pub references_named: Vec<SourceRead>,
    pub euid: u32,
}

/// References are held as long as they may still lie at their sources.
pub open spec fn references_due(phase: Option<LegacyUploadMigrationPhase>) -> bool {
    match phase {
        None => true,
        Some(phase) => phase.ordinal() <= LegacyUploadMigrationPhase::DeleteConfirmed.ordinal(),
    }
}

/// Some references may have been moved into quarantine already.
pub open spec fn references_partial(
    recovering: bool,
    phase: Option<LegacyUploadMigrationPhase>,
) -> bool {
    recovering && phase == Some(LegacyUploadMigrationPhase::DeleteConfirmed)
}

/// Whether references are held as long as the journals stand at that phase.
pub fn are_references_due(phase: Option<LegacyUploadMigrationPhase>) -> (r: bool)
    ensures
        r == references_due(phase),
{
    match phase {
        None => true,
        Some(phase) => phase.index() <= LegacyUploadMigrationPhase::DeleteConfirmed.index(),
    }
}

/// Whether some references may have been moved into quarantine already.
pub fn are_references_partial(recovering: bool, phase: Option<LegacyUploadMigrationPhase>) -> (r:
    bool)
    ensures
        r == references_partial(recovering, phase),
{
    match phase {
        Some(phase) => recovering && phase == LegacyUploadMigrationPhase::DeleteConfirmed,
        None => false,
    }
}

/// What the held references remember of their files.
pub open spec fn held_memories(
    references: Seq<EvidenceReferenceNormalization>,
    observed: AuditObservation,
    recovering: bool,
    phase: Option<LegacyUploadMigrationPhase>,
) -> Seq<(EvidenceMetadata, Seq<char>)> {
    if !references_due(phase) {
        Seq::empty()
    } else if references_partial(recovering, phase) {
        sealed::present_memories(observed.present_references@, references.len())
    } else {
        sealed::read_memories(observed.references@, references.len())
    }
}

/// The paths of the references that are held.
pub open spec fn held_paths(
    references: Seq<EvidenceReferenceNormalization>,
    observed: AuditObservation,
    recovering: bool,
    phase: Option<LegacyUploadMigrationPhase>,
) -> Seq<Seq<char>> {
    if !references_due(phase) {
        Seq::empty()
    } else if references_partial(recovering, phase) {
        sealed::present_paths(references, observed.present_references@)
    } else {
        references.map_values(
            |reference: EvidenceReferenceNormalization| reference.reference_path@,
        )
    }
}

/// The category under which the references are refused when they are opened, or nothing.
pub open spec fn opening_refusal(
    references: Seq<EvidenceReferenceNormalization>,
    observed: AuditObservation,
    recovering: bool,
    phase: Option<LegacyUploadMigrationPhase>,
) -> Option<Seq<char>> {
    if !references_due(phase) {
        None
    } else if references_partial(recovering, phase) {
        if sealed::all_holdable(references, observed.present_references@) {
            None
        } else {
            Some("reference_descriptor"@)
        }
    } else {
        sealed::references_open_refusal(references, observed.references@, 0)
    }
}

/// The category under which the references are refused when they are looked at again, or nothing.
pub open spec fn reopening_refusal(
    memories: Seq<(EvidenceMetadata, Seq<char>)>,
    observed: AuditObservation,
    partial: bool,
) -> Option<Seq<char>> {
    if partial {
        sealed::descriptors_reread_refusal(memories, observed.references_held@, 0)
    } else {
        sealed::references_reread_refusal(
            memories,
            observed.references_held@,
            observed.references_named@,
            0,
        )
    }
}

/// The category under which opened evidence is refused, or nothing where it is valid. A state that
/// may be written meanwhile is asked about last, one that may only be read before the evidence is
/// looked at again.
pub open spec fn audit_refusal(
    request: LegacyUploadEvidenceAuditRequest,
    document: EvidenceDocument,
    manifest: Manifest,
    phase: Option<LegacyUploadMigrationPhase>,
    operational: EvidenceDocument,
    canonicalizations: Seq<OriginalDestinationCanonicalization>,
    recovering: bool,
    writable: bool,
    evidence_steady: bool,
    observed: AuditObservation,
) -> Option<Seq<char>> {
    let valid = validation::document_refusal(
        document,
        observed.encodings,
        observed.plan_inputs,
        request,
        manifest,
        canonicalizations,
    );
    let planned = plan::sealed_plan_refusal(
        operational,
        manifest,
        observed.operational_plan_inputs,
    );
    let references = operational.reference_normalizations@;
    let opening = opening_refusal(references, observed, recovering, phase);
    let reopening = reopening_refusal(
        held_memories(references, observed, recovering, phase),
        observed,
        references_partial(recovering, phase),
    );
    if valid is Some {
        valid
    } else if planned is Some {
        planned
    } else if opening is Some {
        opening
    } else if !writable && !observed.state_unchanged {
        Some("state_changed"@)
    } else if !evidence_steady {
        Some("evidence_changed"@)
    } else if reopening is Some {
        reopening
    } else if writable && !observed.state_unchanged {
        Some("state_changed"@)
    } else {
        None
    }
}

/// Evidence that was audited and is held while its cohort is worked on.
#[derive(Debug, PartialEq, Eq)]
pub struct ValidatedLegacyUploadEvidence {
    pub validated: ValidatedEvidenceDocument,
    pub document: EvidenceDocument,
    pub request: LegacyUploadEvidenceAuditRequest,
    pub sealed_evidence: SealedEvidence,
    pub sealed_references: Vec<SealedReference>,
    /// The document with the numbers that its devices have now, where a receipt moved them.
    pub moved_document: Option<EvidenceDocument>,
    pub operational_quarantine_plan: LegacyUploadMigrationQuarantinePlan,
    pub device_recovery: Option<SealedDeviceRecovery>,
}

fn open_references(
    operational: &EvidenceDocument,
    observed: &AuditObservation,
    recovering: bool,
    phase: Option<LegacyUploadMigrationPhase>,
) -> (r: Result<Vec<SealedReference>, LegacyUploadEvidenceError>)
    ensures
        match r {
            Ok(references) => {
                &&& opening_refusal(
                    operational.reference_normalizations@,
                    *observed,
                    recovering,
                    phase,
                ) is None
                &&& sealed::memories(references@) == held_memories(
                    operational.reference_normalizations@,
                    *observed,
                    recovering,
                    phase,
                )
                &&& sealed::paths_of(references@) == held_paths(
                    operational.reference_normalizations@,
                    *observed,
                    recovering,
                    phase,
                )
            },
            Err(error) => opening_refusal(
                operational.reference_normalizations@,
                *observed,
                recovering,
                phase,
            ) == Some(error@),
        },
{
    if !are_references_due(phase) {
        let none: Vec<SealedReference> = Vec::new();
        assert(sealed::memories(none@) =~= Seq::empty());
        assert(sealed::paths_of(none@) =~= Seq::empty());
        return Ok(none);
    }
    if are_references_partial(recovering, phase) {
        open_sealed_references_for_partial_recovery(operational, &observed.present_references)
    } else {
        let r = open_sealed_references(operational, &observed.references);
        assert(r matches Ok(references) ==> sealed::paths_of(references@)
            =~= held_paths(operational.reference_normalizations@, *observed, recovering, phase));
        r
    }
}

impl ValidatedLegacyUploadEvidence {
    /// The document with the numbers that its devices have now.
    pub open spec fn operational(self) -> EvidenceDocument {
        match self.moved_document {
            Some(moved) => moved,
            None => self.document,
        }
    }

    /// Both documents are of a cohort's two replacements, there is leave to prepare both, and the
    /// audit tells what was asked for.
    pub open spec fn well_formed(self) -> bool {
        &&& self.document.retired_replacements@.len() == RETIRED_REPLACEMENT_COUNT
        &&& self.operational().retired_replacements@.len() == RETIRED_REPLACEMENT_COUNT
        &&& self.validated.preparations@.len() == RETIRED_REPLACEMENT_COUNT
        &&& tells(self.validated.audit, self.request, self.document)
    }
}

/// Evidence was audited: everything that it says was checked, and what is held is what was read.
pub open spec fn audited(
    held: ValidatedLegacyUploadEvidence,
    request: LegacyUploadEvidenceAuditRequest,
    document: EvidenceDocument,
    phase: Option<LegacyUploadMigrationPhase>,
    operational: EvidenceDocument,
    observed: AuditObservation,
) -> bool {
    &&& held.validated.audit.evidence_sha256@ == request.expected_evidence_sha256@
    &&& held.validated.audit.cohort_sha256@ == request.expected_cohort_sha256@
    &&& held.validated.audit.asset_count == document.asset_count
    &&& held.validated.audit.retired_replacement_count == document.retired_replacement_count
    &&& held.validated.audit.reference_count == document.reference_count
    &&& held.validated.preparations@.len() == RETIRED_REPLACEMENT_COUNT
    &&& forall|i: int|
        0 <= i < RETIRED_REPLACEMENT_COUNT ==> validation::authorizes(
            #[trigger] held.validated.preparations@[i],
            document,
            observed.encodings,
            observed.plan_inputs,
            request.expected_evidence_sha256@,
            i,
        )
    &&& held.document == document
    &&& held.request == request
    &&& held.operational() == operational
    &&& held.operational_quarantine_plan.content() == plan::drafted(
        operational,
        observed.operational_plan_inputs.destinations@,
    )
    &&& held.operational_quarantine_plan.plan_sha256@ == plan::plan_seal(
        observed.operational_plan_inputs,
    )
    &&& sealed::memories(held.sealed_references@) == held_memories(
        operational.reference_normalizations@,
        observed,
        held.device_recovery is Some,
        phase,
    )
    &&& sealed::paths_of(held.sealed_references@) == held_paths(
        operational.reference_normalizations@,
        observed,
        held.device_recovery is Some,
        phase,
    )
}

/// A receipt is held as it was asked for and read.
pub open spec fn holds_receipt(
    recovered: SealedDeviceRecovery,
    recovery: LegacyUploadDeviceRecoveryRequest,
    receipt: ReceiptObservation,
) -> bool {
    &&& recovered.expected_receipt_sha256@ == recovery.expected_receipt_sha256@
    &&& recovered.receipt == receipt.receipt->0
    &&& recovered.sealed.bytes@ == receipt.read->Read_1@
    &&& recovered.sealed.sha256@ == recovery.expected_receipt_sha256@
    &&& recovered.sealed.initial_metadata == receipt.read->Read_0
}

/// The canonicalizations that a receipt states; none where there is no receipt.
pub open spec fn stated_canonicalizations(
    recovered: Option<(SealedDeviceRecovery, EvidenceDocument)>,
) -> Seq<OriginalDestinationCanonicalization> {
    match recovered {
        Some((recovered, _)) => recovered.receipt.body.original_destination_canonicalizations@,
        None => Seq::empty(),
    }
}

/// The document that a receipt calls for; the sealed one where there is no receipt.
pub open spec fn called_for(
    recovered: Option<(SealedDeviceRecovery, EvidenceDocument)>,
    document: EvidenceDocument,
) -> EvidenceDocument {
    match recovered {
        Some((_, operational)) => operational,
        None => document,
    }
}

/// Holds opened evidence against the state, and holds it from then on.
pub fn audit_opened_evidence(
    request: &LegacyUploadEvidenceAuditRequest,
    opened: OpenedEvidence,
    recovered: Option<(SealedDeviceRecovery, EvidenceDocument)>,
    writable: bool,
    observed: &AuditObservation,
) -> (r: Result<ValidatedLegacyUploadEvidence, LegacyUploadEvidenceError>)
    requires
        opened.sealed.sha256@ == request.expected_evidence_sha256@,
        plan::replacements_readable(called_for(recovered, opened.document), opened.manifest),
        called_for(recovered, opened.document).retired_replacements@
            == opened.document.retired_replacements@,
    ensures
        match r {
            Ok(held) => {
                &&& held.well_formed()
                &&& audit_refusal(
                    *request,
                    opened.document,
                    opened.manifest,
                    opened.phase,
                    called_for(recovered, opened.document),
                    stated_canonicalizations(recovered),
                    recovered is Some,
                    writable,
                    opened.sealed.steady(observed.again, observed.euid),
                    *observed,
                ) is None
                &&& audited(
                    held,
                    *request,
                    opened.document,
                    opened.phase,
                    called_for(recovered, opened.document),
                    *observed,
                )
                &&& held.sealed_evidence == opened.sealed
                &&& match recovered {
                    Some((recovered, _)) => held.device_recovery == Some(recovered),
                    None => held.device_recovery is None,
                }
            },
            Err(error) => audit_refusal(
                *request,
                opened.document,
                opened.manifest,
                opened.phase,
                called_for(recovered, opened.document),
                stated_canonicalizations(recovered),
                recovered is Some,
                writable,
                opened.sealed.steady(observed.again, observed.euid),
                *observed,
            ) == Some(error@),
        },
{
    let none: Vec<OriginalDestinationCanonicalization> = Vec::new();
    let canonicalizations: &Vec<OriginalDestinationCanonicalization> = match &recovered {
        Some((recovered, _)) => &recovered.receipt.body.original_destination_canonicalizations,
        None => &none,
    };
    assert(canonicalizations@ =~= stated_canonicalizations(recovered));
    let operational: &EvidenceDocument = match &recovered {
        Some((_, operational)) => operational,
        None => &opened.document,
    };
    let recovering: bool = recovered.is_some();
    let validated = match validate_document(
        &opened.document,
        &observed.encodings,
        &observed.plan_inputs,
        &opened.sealed.sha256,
        request,
        &opened.manifest,
        canonicalizations,
    ) {
        Err(error) => {
            return Err(error);
        },
        Ok(validated) => validated,
    };
    let operational_quarantine_plan = match quarantine_plan_from_document(
        operational,
        &opened.manifest,
        &observed.operational_plan_inputs,
    ) {
        Err(error) => {
            return Err(error);
        },
        Ok(plan) => plan,
    };
    let sealed_references = match open_references(
        operational,
        observed,
        recovering,
        opened.phase,
    ) {
        Err(error) => {
            return Err(error);
        },
        Ok(references) => references,
    };
    if !writable && !observed.state_unchanged {
        return Err(failure("state_changed"));
    }
    match opened.sealed.reconfirm(&observed.again, observed.euid) {
        Err(error) => {
            return Err(error);
        },
        Ok(()) => {},
    }
    let reopened = if are_references_partial(recovering, opened.phase) {
        revalidate_held_reference_descriptors(&sealed_references, &observed.references_held)
    } else {
        revalidate_sealed_references(
            &sealed_references,
            &observed.references_held,
            &observed.references_named,
        )
    };
    match reopened {
        Err(error) => {
            return Err(error);
        },
        Ok(()) => {},
    }
    if writable && !observed.state_unchanged {
        return Err(failure("state_changed"));
    }
    let (device_recovery, moved_document) = match recovered {
        Some((recovered, moved)) => (Some(recovered), Some(moved)),
        None => (None, None),
    };
    Ok(
        ValidatedLegacyUploadEvidence {
            validated,
            document: opened.document,
            request: request.clone(),
            sealed_evidence: opened.sealed,
            sealed_references,
            moved_document,
            operational_quarantine_plan,
            device_recovery,
        },
    )
}

/// What was read when evidence is loaded.
#[derive(Debug, PartialEq, Eq)]
pub struct EvidenceObservation {
    pub read: SourceRead,
    /// What the evidence decodes to.
    pub document: Option<EvidenceDocument>,
    pub state: StateRead,
    /// Whether the state may be written meanwhile.
    pub writable: bool,
}

/// An audit answered as it should: it was refused under the very category, or it holds the very
/// evidence.
pub open spec fn audit_answers(
    r: Result<ValidatedLegacyUploadEvidence, LegacyUploadEvidenceError>,
    request: LegacyUploadEvidenceAuditRequest,
    evidence: EvidenceObservation,
    operational: EvidenceDocument,
    canonicalizations: Seq<OriginalDestinationCanonicalization>,
    recovering: bool,
    observed: AuditObservation,
) -> bool {
    let document = evidence.document->0;
    let manifest = evidence.state->Loaded_0;
    let phase = plan::cohort_phase(document, manifest)->Ok_0;
    let refusal = audit_refusal(
        request,
        document,
        manifest,
        phase,
        operational,
        canonicalizations,
        recovering,
        evidence.writable,
        same_again(evidence.read, observed.again),
        observed,
    );
    match r {
        Ok(held) => {
            &&& refusal is None
            &&& held.well_formed()
            &&& audited(held, request, document, phase, operational, observed)
            &&& held.device_recovery is Some <==> recovering
            &&& held.sealed_evidence.bytes@ == evidence.read->Read_1@
            &&& held.sealed_evidence.sha256@ == request.expected_evidence_sha256@
            &&& held.sealed_evidence.initial_metadata == evidence.read->Read_0
        },
        Err(error) => refusal == Some(error@),
    }
}

/// The category under which evidence is refused when it is loaded, before anything else.
pub open spec fn loading_refusal(
    request: LegacyUploadEvidenceAuditRequest,
    evidence: EvidenceObservation,
    euid: u32,
) -> Option<Seq<char>> {
    evidence_refusal(request, evidence.read, evidence.document, evidence.state, euid)
}

/// Loads and audits evidence.
pub fn load_validated_legacy_uploaded_heic_evidence(
    request: &LegacyUploadEvidenceAuditRequest,
    evidence: EvidenceObservation,
    observed: &AuditObservation,
) -> (r: Result<ValidatedLegacyUploadEvidence, LegacyUploadEvidenceError>)
    ensures
        match loading_refusal(*request, evidence, observed.euid) {
            Some(category) => r is Err && r->Err_0@ == category,
            None => audit_answers(
                r,
                *request,
                evidence,
                evidence.document->0,
                Seq::empty(),
                false,
                *observed,
            ),
        },
{
    match open_evidence(
        request,
        evidence.read,
        evidence.document,
        evidence.state,
        observed.euid,
    ) {
        Err(error) => Err(error),
        Ok(opened) => audit_opened_evidence(request, opened, None, evidence.writable, observed),
    }
}

/// Loads and audits evidence, with a receipt that says what its devices are called now.
pub fn load_validated_legacy_uploaded_heic_evidence_with_device_recovery(
    request: &LegacyUploadEvidenceAuditRequest,
    recovery: &LegacyUploadDeviceRecoveryRequest,
    evidence: EvidenceObservation,
    receipt: ReceiptObservation,
    observed: &AuditObservation,
) -> (r: Result<ValidatedLegacyUploadEvidence, LegacyUploadEvidenceError>)
    ensures
        match loading_refusal(*request, evidence, observed.euid) {
            Some(category) => r is Err && r->Err_0@ == category,
            None => match receipt_refusal(
                recovery.expected_receipt_sha256@,
                evidence.document->0,
                evidence.state->Loaded_0,
                request.expected_evidence_sha256@,
                receipt,
            ) {
                Some(category) => r is Err && r->Err_0@ == category,
                None => exists|operational: EvidenceDocument| #[trigger]
                    recovery::operational_form(
                        operational,
                        evidence.document->0,
                        recovery::mapping_pairs(receipt.receipt->0.body.mappings@),
                    ) && match receipt_operational_refusal(
                        operational,
                        evidence.state->Loaded_0,
                        plan::cohort_phase(
                            evidence.document->0,
                            evidence.state->Loaded_0,
                        )->Ok_0->0,
                        receipt,
                    ) {
                        Some(category) => r is Err && r->Err_0@ == category,
                        None => audit_answers(
                            r,
                            *request,
                            evidence,
                            operational,
                            receipt.receipt->0.body.original_destination_canonicalizations@,
                            true,
                            *observed,
                        ) && (r matches Ok(held) ==> holds_receipt(
                            held.device_recovery->0,
                            *recovery,
                            receipt,
                        )),
                    },
            },
        },
{
    let opened = match open_evidence(
        request,
        evidence.read,
        evidence.document,
        evidence.state,
        observed.euid,
    ) {
        Err(error) => {
            return Err(error);
        },
        Ok(opened) => opened,
    };
    match load_device_recovery(
        recovery,
        &opened.document,
        &opened.manifest,
        &opened.sealed.sha256,
        receipt,
    ) {
        Err(error) => Err(error),
        Ok((recovered, operational)) => {
            let ghost moved = operational;
            let r = audit_opened_evidence(
                request,
                opened,
                Some((recovered, operational)),
                evidence.writable,
                observed,
            );
            assert(recovery::operational_form(
                moved,
                evidence.document->0,
                recovery::mapping_pairs(receipt.receipt->0.body.mappings@),
            ));
            r
        },
    }
}

/// Audits evidence and tells what an operator may know of it.
pub fn audit_legacy_uploaded_heic_evidence(
    request: &LegacyUploadEvidenceAuditRequest,
    evidence: EvidenceObservation,
    observed: &AuditObservation,
) -> (r: Result<LegacyUploadEvidenceAudit, LegacyUploadEvidenceError>)
    ensures
        match loading_refusal(*request, evidence, observed.euid) {
            Some(category) => r is Err && r->Err_0@ == category,
            None => match audit_refusal(
                *request,
                evidence.document->0,
                evidence.state->Loaded_0,
                plan::cohort_phase(evidence.document->0, evidence.state->Loaded_0)->Ok_0,
                evidence.document->0,
                Seq::empty(),
                false,
                evidence.writable,
                same_again(evidence.read, observed.again),
                *observed,
            ) {
                Some(category) => r is Err && r->Err_0@ == category,
                None => r matches Ok(told) && tells(told, *request, evidence.document->0),
            },
        },
{
    match load_validated_legacy_uploaded_heic_evidence(request, evidence, observed) {
        Err(error) => Err(error),
        Ok(held) => Ok(held.validated.audit),
    }
}

/// What an operator may know of audited evidence: the digests they asked for, and the counts.
pub open spec fn tells(
    told: LegacyUploadEvidenceAudit,
    request: LegacyUploadEvidenceAuditRequest,
    document: EvidenceDocument,
) -> bool {
    &&& told.evidence_sha256@ == request.expected_evidence_sha256@
    &&& told.cohort_sha256@ == request.expected_cohort_sha256@
    &&& told.asset_count == document.asset_count
    &&& told.retired_replacement_count == document.retired_replacement_count
    &&& told.reference_count == document.reference_count
}

/// Audits evidence with a receipt, and tells what an operator may know of it.
pub fn audit_legacy_uploaded_heic_evidence_with_device_recovery(
    request: &LegacyUploadEvidenceAuditRequest,
    recovery: &LegacyUploadDeviceRecoveryRequest,
    evidence: EvidenceObservation,
    receipt: ReceiptObservation,
    observed: &AuditObservation,
) -> (r: Result<LegacyUploadEvidenceAudit, LegacyUploadEvidenceError>)
    ensures
        match loading_refusal(*request, evidence, observed.euid) {
            Some(category) => r is Err && r->Err_0@ == category,
            None => match receipt_refusal(
                recovery.expected_receipt_sha256@,
                evidence.document->0,
                evidence.state->Loaded_0,
                request.expected_evidence_sha256@,
                receipt,
            ) {
                Some(category) => r is Err && r->Err_0@ == category,
                None => exists|operational: EvidenceDocument| #[trigger]
                    recovery::operational_form(
                        operational,
                        evidence.document->0,
                        recovery::mapping_pairs(receipt.receipt->0.body.mappings@),
                    ) && match receipt_operational_refusal(
                        operational,
                        evidence.state->Loaded_0,
                        plan::cohort_phase(
                            evidence.document->0,
                            evidence.state->Loaded_0,
                        )->Ok_0->0,
                        receipt,
                    ) {
                        Some(category) => r is Err && r->Err_0@ == category,
                        None => match audit_refusal(
                            *request,
                            evidence.document->0,
                            evidence.state->Loaded_0,
                            plan::cohort_phase(
                                evidence.document->0,
                                evidence.state->Loaded_0,
                            )->Ok_0,
                            operational,
                            receipt.receipt->0.body.original_destination_canonicalizations@,
                            true,
                            evidence.writable,
                            same_again(evidence.read, observed.again),
                            *observed,
                        ) {
                            Some(category) => r is Err && r->Err_0@ == category,
                            None => r matches Ok(told) && tells(
                                told,
                                *request,
                                evidence.document->0,
                            ),
                        },
                    },
            },
        },
{
    match load_validated_legacy_uploaded_heic_evidence_with_device_recovery(
        request,
        recovery,
        evidence,
        receipt,
        observed,
    ) {
        Err(error) => Err(error),
        Ok(held) => Ok(held.validated.audit),
    }
}

/// A file is the same again exactly if its content, of at most a mebibyte, is read again as it was, and
/// neither the open file nor the one that has its name now differs.
pub proof fn files_are_the_same_again_in_everything(
    metadata: EvidenceMetadata,
    content: Vec<u8>,
    again: EvidenceReread,
)
    ensures
        same_again(SourceRead::Read(metadata, content), again) <==> {
            &&& again.reread is Some
            &&& again.reread->0@ == content@
            &&& again.reread->0@.len() <= 1_048_576
            &&& again.held == Some(metadata)
            &&& again.named == Some(metadata)
        },
{
}

/// A receipt can be read exactly if the digest that is expected is one, the file is a private one
/// of at most 65536 bytes with that digest, and it holds a receipt whose body has the digest that it
/// says.
pub proof fn receipts_are_read_as_they_were_sealed(
    expected_sha256: Seq<char>,
    observed: ReceiptObservation,
    metadata: EvidenceMetadata,
    content: Vec<u8>,
)
    requires
        observed.read == SourceRead::Read(metadata, content),
    ensures
        receipt_reading_refusal(expected_sha256, observed) is None <==> {
            &&& identity::digest_text(expected_sha256)
            &&& metadata.owner_only(observed.process.euid)
            &&& content@.len() <= 65_536
            &&& digest::sha256_hex(content@) == expected_sha256
            &&& observed.receipt is Some
            &&& digest::sha256_hex(observed.body_json@) == observed.receipt->0.body_sha256@
        },
{
}

/// A receipt is accepted exactly if it can be read, is continued, its mappings are sound and cover
/// the document, and, while the deletion is the last that was confirmed, they are the mappings that
/// are found now.
pub proof fn receipts_are_accepted_as_long_as_they_hold(
    expected_sha256: Seq<char>,
    document: EvidenceDocument,
    manifest: Manifest,
    evidence_sha256: Seq<char>,
    observed: ReceiptObservation,
)
    ensures
        receipt_refusal(expected_sha256, document, manifest, evidence_sha256, observed) is None
            <==> {
            let body = observed.receipt->0.body;
            &&& receipt_reading_refusal(expected_sha256, observed) is None
            &&& observed.process.signer() is Ok
            &&& receipt::continuity_refusal(
                body,
                document,
                manifest,
                evidence_sha256,
                observed.process.signer()->Ok_0,
            ) is None
            &&& recovery::mappings_sound(
                body.mappings@,
                document.quarantine_roots@,
                observed.root_path_json@,
            )
            &&& recovery::document_known(document, recovery::mapping_pairs(body.mappings@))
            &&& plan::cohort_phase(document, manifest)->Ok_0->0 is DeleteConfirmed ==> {
                &&& recovery::mappings_refusal(
                    document.quarantine_roots@,
                    observed.roots@,
                    observed.root_path_json@,
                    false,
                ) is None
                &&& recovery::maps_roots(
                    body.mappings@,
                    document.quarantine_roots@,
                    observed.roots@,
                    observed.root_path_json@,
                )
            }
        },
{
}

/// Evidence is loaded exactly if the request is accepted, the file is a private one of at most a
/// mebibyte with the digest that is expected, it holds a document of two retirements, and the
/// manifest is loaded and has both in one phase.
pub proof fn evidence_is_loaded_as_requested(
    request: LegacyUploadEvidenceAuditRequest,
    metadata: EvidenceMetadata,
    content: Vec<u8>,
    document: EvidenceDocument,
    manifest: Manifest,
    euid: u32,
)
    ensures
        evidence_refusal(
            request,
            SourceRead::Read(metadata, content),
            Some(document),
            StateRead::Loaded(manifest),
            euid,
        ) is None <==> {
            &&& audit::request_refusal(request) is None
            &&& metadata.owner_only(euid)
            &&& content@.len() <= 1_048_576
            &&& digest::sha256_hex(content@) == request.expected_evidence_sha256@
            &&& document.retired_replacements@.len() == 2
            &&& plan::cohort_phase(document, manifest) is Ok
        },
        evidence_refusal(
            request,
            SourceRead::Read(metadata, content),
            None,
            StateRead::Loaded(manifest),
            euid,
        ) is Some,
        evidence_refusal(
            request,
            SourceRead::Read(metadata, content),
            Some(document),
            StateRead::OpenFailed,
            euid,
        ) is Some,
        evidence_refusal(
            request,
            SourceRead::Read(metadata, content),
            Some(document),
            StateRead::LoadFailed,
            euid,
        ) is Some,
{
}

/// References are due exactly as long as no file was moved: before the migration begins, once it is
/// prepared, and once the deletion is confirmed. Only then, and only under a recovery, may some of
/// them be gone.
pub proof fn references_are_due_until_the_quarantine(
    phase: LegacyUploadMigrationPhase,
    recovering: bool,
)
    ensures
        references_due(None),
        references_due(Some(phase)) <==> phase is Prepared || phase is DeleteConfirmed,
        references_partial(recovering, Some(phase)) <==> recovering && phase is DeleteConfirmed,
        !references_partial(recovering, None),
{
}

/// Evidence passes its audit exactly if its document is accepted, its plan stands on the devices of
/// today, all references that are due open as sealed and can be read again, the evidence is still
/// the same, and the state did not change meanwhile.
pub proof fn steady_evidence_passes_its_audit(
    request: LegacyUploadEvidenceAuditRequest,
    document: EvidenceDocument,
    manifest: Manifest,
    phase: Option<LegacyUploadMigrationPhase>,
    operational: EvidenceDocument,
    canonicalizations: Seq<OriginalDestinationCanonicalization>,
    recovering: bool,
    writable: bool,
    evidence_steady: bool,
    observed: AuditObservation,
)
    ensures
        audit_refusal(
            request,
            document,
            manifest,
            phase,
            operational,
            canonicalizations,
            recovering,
            writable,
            evidence_steady,
            observed,
        ) is None <==> {
            let references = operational.reference_normalizations@;
            &&& validation::document_refusal(
                document,
                observed.encodings,
                observed.plan_inputs,
                request,
                manifest,
                canonicalizations,
            ) is None
            &&& plan::sealed_plan_refusal(
                operational,
                manifest,
                observed.operational_plan_inputs,
            ) is None
            &&& opening_refusal(references, observed, recovering, phase) is None
            &&& evidence_steady
            &&& reopening_refusal(
                held_memories(references, observed, recovering, phase),
                observed,
                recovering && phase == Some(LegacyUploadMigrationPhase::DeleteConfirmed),
            ) is None
            &&& observed.state_unchanged
        },
{
}

/// A record that is neither UploadVerified nor carries a journal, and that no document names, has no
/// part in the audit: with it or without it in the manifest, evidence passes or fails alike, for the
/// same reason.
pub proof fn other_records_change_no_audit(
    request: LegacyUploadEvidenceAuditRequest,
    document: EvidenceDocument,
    manifest: Manifest,
    larger: Manifest,
    k: int,
    added: crate::manifest::AssetRecord,
    phase: Option<LegacyUploadMigrationPhase>,
    canonicalizations: Seq<OriginalDestinationCanonicalization>,
    recovering: bool,
    writable: bool,
    evidence_steady: bool,
    observed: AuditObservation,
)
    requires
        0 <= k <= manifest.records@.len(),
        larger.records@ == manifest.records@.insert(k, added),
        !(added.state is UploadVerified),
        added.journal is Absent,
        document.retired_replacements@.len() == 2,
        forall|i: int|
            0 <= i < document.assets@.len() ==> (#[trigger] document.assets@[i]).asset_id@
                != added.asset_id@,
        forall|i: int|
            0 <= i < document.retired_replacements@.len() ==> (
            #[trigger] document.retired_replacements@[i]).asset_id@ != added.asset_id@,
        forall|i: int|
            0 <= i < document.reference_normalizations@.len() ==> {
                &&& (#[trigger] document.reference_normalizations@[i]).asset_id@
                    != added.asset_id@
                &&& !crate::path::same_place(
                    added.raw_path@,
                    document.reference_normalizations@[i].reference_path@,
                )
            },
        forall|i: int|
            0 <= i < document.raw_inputs@.len() ==> (#[trigger] document.raw_inputs@[i]).asset_id@
                != added.asset_id@,
    ensures
        audit_refusal(
            request,
            document,
            larger,
            phase,
            document,
            canonicalizations,
            recovering,
            writable,
            evidence_steady,
            observed,
        ) == audit_refusal(
            request,
            document,
            manifest,
            phase,
            document,
            canonicalizations,
            recovering,
            writable,
            evidence_steady,
            observed,
        ),
{
    validation::other_records_change_no_answer(
        document,
        observed.encodings,
        observed.plan_inputs,
        request,
        manifest,
        larger,
        k,
        added,
        canonicalizations,
    );
    validation::other_records_change_no_plan(
        document,
        manifest,
        larger,
        k,
        added,
        observed.operational_plan_inputs,
    );
}

/// An audit tells the digests that were asked for and the counts of the document, and holds the
/// document, its moved form, and one preparation for each of the two retirements.
pub proof fn audits_tell_what_they_hold(
    held: ValidatedLegacyUploadEvidence,
    request: LegacyUploadEvidenceAuditRequest,
    document: EvidenceDocument,
    phase: Option<LegacyUploadMigrationPhase>,
    operational: EvidenceDocument,
    observed: AuditObservation,
)
    requires
        audited(held, request, document, phase, operational, observed),
    ensures
        held.validated.audit.evidence_sha256@ == request.expected_evidence_sha256@,
        held.validated.audit.cohort_sha256@ == request.expected_cohort_sha256@,
        held.validated.audit.asset_count == document.asset_count,
        held.validated.audit.retired_replacement_count == document.retired_replacement_count,
        held.validated.audit.reference_count == document.reference_count,
        held.validated.preparations@.len() == 2,
        held.document == document,
        held.request == request,
        held.moved_document is Some ==> held.moved_document->0 == operational,
        held.moved_document is None ==> document == operational,
        forall|i: int|
            0 <= i < 2 ==> {
                let identity = (#[trigger] held.validated.preparations@[i]).identity;
                let evidence = document.retired_replacements@[i];
                &&& identity.migration_id@ == document.migration_id@
                &&& identity.evidence_sha256@ == request.expected_evidence_sha256@
                &&& identity.cohort_sha256@ == document.cohort_sha256@
                &&& identity.asset_id@ == evidence.asset_id@
                &&& identity.old_uploaded_asset_id@ == evidence.uploaded_asset_id@
                &&& identity.old_uploaded_master_id@ == evidence.uploaded_master_id@
                &&& identity.destination_sha256@ == evidence.destination_sha256@
                &&& identity.old_upload_lineage_sha256@ == evidence.old_upload_lineage_sha256@
                &&& identity.old_conversion_lineage_sha256@
                    == evidence.old_conversion_lineage_sha256@
                &&& identity.old_mirror_lineage_sha256@ == evidence.old_mirror_lineage_sha256@
                &&& identity.original_asset_identity_sha256@
                    == evidence.original_asset_identity_sha256@
                &&& identity.quarantine_plan.plan_sha256@ == digest::sha256_hex(
                    observed.plan_inputs.plan_json->0@,
                )
                &&& i < observed.encodings.witness_json@.len()
                    ==> held.validated.preparations@[i].prepared_witness_sha256@
                    == digest::sha256_hex(observed.encodings.witness_json@[i]@)
            },
{
}

/// What keeps a receipt from being read is told by its name.
pub proof fn faults_of_a_receipt_are_named(
    expected_sha256: Seq<char>,
    observed: ReceiptObservation,
)
    ensures
        ({
            let reading = sealed::evidence_read_refusal(observed.read, observed.process.euid);
            let asked = identity::digest_text(expected_sha256);
            let read = reading is None;
            let expected = observed.read->Read_1@.len() <= 65_536
                && digest::sha256_hex(observed.read->Read_1@) == expected_sha256;
            let decoded = observed.receipt is Some;
            let sealed = digest::sha256_hex(observed.body_json@)
                == observed.receipt->0.body_sha256@;
            let told = receipt_reading_refusal(expected_sha256, observed);
            &&& !asked ==> told == Some("recovery_expected_digest"@)
            &&& asked && !read ==> told == reading
            &&& asked && read && !expected ==> told == Some("recovery_digest"@)
            &&& asked && read && expected && !decoded ==> told == Some("recovery_schema"@)
            &&& asked && read && expected && decoded && !sealed ==> told == Some("recovery_digest"@)
        }),
{
}

/// What keeps a receipt from being accepted is told by its name.
pub proof fn faults_of_a_recovery_are_named(
    expected_sha256: Seq<char>,
    document: EvidenceDocument,
    manifest: Manifest,
    evidence_sha256: Seq<char>,
    observed: ReceiptObservation,
)
    ensures
        ({
            let body = observed.receipt->0.body;
            let reading = receipt_reading_refusal(expected_sha256, observed);
            let continued = receipt::running_continuity_refusal(
                body,
                document,
                manifest,
                evidence_sha256,
                observed.process,
            );
            let mapped = recovery::mappings_refusal(
                document.quarantine_roots@,
                observed.roots@,
                observed.root_path_json@,
                false,
            );
            let at_deletion = plan::cohort_phase(document, manifest)->Ok_0
                == Some(LegacyUploadMigrationPhase::DeleteConfirmed);
            let read = reading is None;
            let goes_on = continued is None;
            let covered = recovery::mappings_sound(
                    body.mappings@,
                    document.quarantine_roots@,
                    observed.root_path_json@,
                ) && recovery::document_known(document, recovery::mapping_pairs(body.mappings@));
            let found = at_deletion ==> mapped is None;
            let same = at_deletion
                ==> recovery::maps_roots(
                    body.mappings@,
                    document.quarantine_roots@,
                    observed.roots@,
                    observed.root_path_json@,
                );
            let told = receipt_refusal(
                expected_sha256,
                document,
                manifest,
                evidence_sha256,
                observed,
            );
            &&& !read ==> told == reading
            &&& read && !goes_on ==> told == continued
            &&& read && goes_on && !covered ==> told == Some("recovery_mapping"@)
            &&& read && goes_on && covered && !found ==> told == mapped
            &&& read && goes_on && covered && found && !same ==> told == Some("recovery_changed"@)
        }),
{
}

/// What keeps evidence from being loaded is told by its name.
pub proof fn faults_of_loading_are_named(
    request: LegacyUploadEvidenceAuditRequest,
    read: SourceRead,
    document: Option<EvidenceDocument>,
    state: StateRead,
    euid: u32,
)
    ensures
        ({
            let requested = audit::request_refusal(request);
            let reading = sealed::evidence_read_refusal(read, euid);
            let phase = plan::cohort_phase(document->0, state->Loaded_0);
            let asked = requested is None;
            let readable = reading is None;
            let expected = digest::sha256_hex(read->Read_1@) == request.expected_evidence_sha256@;
            let decoded = document is Some;
            let counted = document->0.retired_replacements@.len() == 2;
            let opened = !(state is OpenFailed);
            let loaded = !(state is LoadFailed);
            let coherent = phase is Ok;
            let told = evidence_refusal(request, read, document, state, euid);
            &&& !asked ==> told == requested
            &&& asked && !readable ==> told == reading
            &&& asked && readable && !expected ==> told == Some("evidence_digest"@)
            &&& asked && readable && expected && !decoded ==> told == Some("evidence_schema"@)
            &&& asked && readable && expected && decoded && !counted
                ==> told == Some("evidence_count"@)
            &&& asked && readable && expected && decoded && counted && !opened
                ==> told == Some("state_open"@)
            &&& asked && readable && expected && decoded && counted && opened && !loaded
                ==> told == Some("state_load"@)
            &&& asked && readable && expected && decoded && counted && opened && loaded
                && !coherent ==> told == Some(phase->Err_0)
        }),
{
}

/// What keeps evidence from passing its audit is told by its name; a state that changed is told at
/// once where nobody may write, and last where the caller may.
pub proof fn faults_of_an_audit_are_named(
    request: LegacyUploadEvidenceAuditRequest,
    document: EvidenceDocument,
    manifest: Manifest,
    phase: Option<LegacyUploadMigrationPhase>,
    operational: EvidenceDocument,
    canonicalizations: Seq<OriginalDestinationCanonicalization>,
    recovering: bool,
    writable: bool,
    evidence_steady: bool,
    observed: AuditObservation,
)
    ensures
        ({
            let valid = validation::document_refusal(
                document,
                observed.encodings,
                observed.plan_inputs,
                request,
                manifest,
                canonicalizations,
            );
            let planned = plan::sealed_plan_refusal(
                operational,
                manifest,
                observed.operational_plan_inputs,
            );
            let references = operational.reference_normalizations@;
            let opening = opening_refusal(references, observed, recovering, phase);
            let reopening = reopening_refusal(
                held_memories(references, observed, recovering, phase),
                observed,
                references_partial(recovering, phase),
            );
            let accepted = valid is None;
            let plan_stands = planned is None;
            let opened = opening is None;
            let kept = writable || observed.state_unchanged;
            let reopened = reopening is None;
            let still_kept = observed.state_unchanged;
            let told = audit_refusal(
                request,
                document,
                manifest,
                phase,
                operational,
                canonicalizations,
                recovering,
                writable,
                evidence_steady,
                observed,
            );
            &&& !accepted ==> told == valid
            &&& accepted && !plan_stands ==> told == planned
            &&& accepted && plan_stands && !opened ==> told == opening
            &&& accepted && plan_stands && opened && !kept ==> told == Some("state_changed"@)
            &&& accepted && plan_stands && opened && kept && !evidence_steady
                ==> told == Some("evidence_changed"@)
            &&& accepted && plan_stands && opened && kept && evidence_steady && !reopened
                ==> told == reopening
            &&& accepted && plan_stands && opened && kept && evidence_steady && reopened
                && !still_kept ==> told == Some("state_changed"@)
        }),
{
}

/// A recovered receipt is accepted with its document exactly if the layout is sound and the receipt
/// is still the same; the layout is refused first.
pub proof fn recovered_layouts_are_looked_at_first(
    operational: EvidenceDocument,
    manifest: Manifest,
    phase: LegacyUploadMigrationPhase,
    observed: ReceiptObservation,
)
    ensures
        ({
            let laid = layout::layout_refusal(
                operational,
                manifest,
                phase,
                observed.plan_inputs,
                observed.layout,
                observed.process.euid,
            );
            let told = receipt_operational_refusal(operational, manifest, phase, observed);
            &&& told is None <==> laid is None && same_again(observed.read, observed.again)
            &&& laid is Some ==> told == laid
            &&& laid is None && !same_again(observed.read, observed.again) ==> told == Some(
                "evidence_changed"@,
            )
        }),
{
}

/// A held receipt is the one that was read, under the digest that was asked for.
pub proof fn held_receipts_are_those_that_were_read(
    recovered: SealedDeviceRecovery,
    recovery: LegacyUploadDeviceRecoveryRequest,
    receipt: ReceiptObservation,
)
    requires
        holds_receipt(recovered, recovery, receipt),
    ensures
        recovered.expected_receipt_sha256@ == recovery.expected_receipt_sha256@,
        recovered.sealed.sha256@ == recovery.expected_receipt_sha256@,
        recovered.sealed.bytes@ == receipt.read->Read_1@,
        recovered.sealed.initial_metadata == receipt.read->Read_0,
        recovered.receipt == receipt.receipt->0,
{
}

/// Without a recovery the document is its own operational form and no canonicalization is stated;
/// with one, both are those of the receipt.
pub proof fn receipts_state_canonicalizations_and_form(
    recovered: SealedDeviceRecovery,
    operational: EvidenceDocument,
    document: EvidenceDocument,
)
    ensures
        stated_canonicalizations(None) == Seq::<OriginalDestinationCanonicalization>::empty(),
        called_for(None, document) == document,
        stated_canonicalizations(Some((recovered, operational)))
            == recovered.receipt.body.original_destination_canonicalizations@,
        called_for(Some((recovered, operational)), document) == operational,
{
}

/// Where references are due they are opened as sealed or, where some may be gone, held as far as
/// they are there; what is held are their paths and what was read of them. Where none is due, none
/// is opened or held.
pub proof fn due_references_are_opened_and_held(
    references: Seq<EvidenceReferenceNormalization>,
    observed: AuditObservation,
    recovering: bool,
    phase: Option<LegacyUploadMigrationPhase>,
)
    ensures
        ({
            let due = phase is None || phase->0 is Prepared || phase->0 is DeleteConfirmed;
            let partial = recovering && phase is Some && phase->0 is DeleteConfirmed;
            let opening = opening_refusal(references, observed, recovering, phase);
            let memories = held_memories(references, observed, recovering, phase);
            let paths = held_paths(references, observed, recovering, phase);
            &&& !due ==> opening is None && memories.len() == 0 && paths.len() == 0
            &&& due && !partial ==> {
                &&& opening == sealed::references_open_refusal(
                    references,
                    observed.references@,
                    0,
                )
                &&& memories == sealed::read_memories(observed.references@, references.len())
                &&& paths.len() == references.len()
                &&& forall|i: int|
                    0 <= i < paths.len() ==> #[trigger] paths[i] == references[i].reference_path@
            }
            &&& partial ==> {
                &&& opening is None <==> sealed::all_holdable(
                    references,
                    observed.present_references@,
                )
                &&& opening is Some ==> opening == Some("reference_descriptor"@)
                &&& memories == sealed::present_memories(
                    observed.present_references@,
                    references.len(),
                )
                &&& paths == sealed::present_paths(references, observed.present_references@)
            }
        }),
{
}

/// References that may have been moved are read again through their open files alone; the others
/// under their names as well.
pub proof fn moved_references_are_read_through_their_open_files(
    memories: Seq<(EvidenceMetadata, Seq<char>)>,
    observed: AuditObservation,
)
    ensures
        reopening_refusal(memories, observed, true) == sealed::descriptors_reread_refusal(
            memories,
            observed.references_held@,
            0,
        ),
        reopening_refusal(memories, observed, false) == sealed::references_reread_refusal(
            memories,
            observed.references_held@,
            observed.references_named@,
            0,
        ),
{
}

/// A preparation is authorized with the record digest of its asset and with the very plan of the
/// document.
pub proof fn preparations_carry_the_plan(
    held: ValidatedLegacyUploadEvidence,
    request: LegacyUploadEvidenceAuditRequest,
    document: EvidenceDocument,
    phase: Option<LegacyUploadMigrationPhase>,
    operational: EvidenceDocument,
    observed: AuditObservation,
    i: int,
)
    requires
        audited(held, request, document, phase, operational, observed),
        0 <= i < 2,
    ensures
        Some(held.validated.preparations@[i].identity.source_record_sha256@)
            == audit::asset_digest(
            document.assets@,
            document.retired_replacements@[i].asset_id@,
            0,
        ),
        held.validated.preparations@[i].identity.quarantine_plan.content() == plan::drafted(
            document,
            observed.plan_inputs.destinations@,
        ),
        held.operational_quarantine_plan.content() == plan::drafted(
            operational,
            observed.operational_plan_inputs.destinations@,
        ),
        held.operational_quarantine_plan.plan_sha256@ == digest::sha256_hex(
            observed.operational_plan_inputs.plan_json->0@,
        ),
{
}

} // verus!
