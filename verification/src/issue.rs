use vstd::prelude::*;
use vstd::string::*;

use crate::audit;
use crate::audit::{
    validate_public_request, DocumentEncodings, LegacyUploadEvidenceAuditRequest,
};
use crate::canonicalization;
use crate::canonicalization::OriginalDestinationCanonicalization;
use crate::cloudkit::CloudKitActiveAssetValidation;
use crate::digest;
use crate::digest::sha256_bytes;
use crate::document::{EvidenceDocument, MAX_EVIDENCE_BYTES};
use crate::error::{failure, LegacyUploadEvidenceError};
use crate::generate::CheckpointStatus;
use crate::historical;
use crate::historical::build_original_destination_canonicalizations;
use crate::identity;
use crate::load;
use crate::load::{EvidenceReread, ReceiptObservation, StateRead};
use crate::manifest::Manifest;
use crate::order;
use crate::output;
use crate::output::{write_new_owner_only_receipt, CreatedRecoveryReceipt, ReceiptOutput};
use crate::phase::LegacyUploadMigrationPhase;
use crate::plan;
use crate::plan::PlanInputs;
use crate::receipt;
use crate::receipt::{device_recovery_receipt_body, ProcessObservation};
use crate::recovery;
use crate::recovery::{
    DeviceRecoveryReceipt, DeviceRecoveryReceiptBody, OperationalObservation,
    MAX_DEVICE_RECOVERY_BYTES,
};
use crate::sealed;
use crate::sealed::{
    revalidate_sealed_evidence, seal_read, SealedEvidence, SourceRead,
};
use crate::text;
use crate::text::same_text;
use crate::validation;
use crate::validation::validate_document;

verus! {

/// What an operator asks to have a recovery receipt made from, and where it is to be written.
#[derive(Debug, PartialEq, Eq)]
pub struct LegacyUploadDeviceRecoveryGenerateRequest {
    pub evidence: LegacyUploadEvidenceAuditRequest,
    pub expected_signer_designated_requirement_sha256: String,
    /// Whether files of the cohort may have been moved into quarantine already.
    pub allow_partial_quarantine: bool,
    pub output_path: String,
}

/// What an operator is told of a new receipt.
#[derive(Debug, PartialEq, Eq)]
pub struct LegacyUploadDeviceRecoveryGenerateReport {
    pub receipt_sha256: String,
    pub evidence_sha256: String,
    pub cohort_sha256: String,
    pub partial_quarantine: bool,
    pub device_mapping_count: u64,
    pub raw_input_count: u64,
    pub quarantine_member_count: u64,
    pub reference_count: u64,
    pub signer_designated_requirement_sha256: String,
}

/// What was read, found and answered when a receipt is to be made.
#[derive(Debug)]
pub struct RecoveryObservation {
    pub read: SourceRead,
    /// What the evidence decodes to.
    pub document: Option<EvidenceDocument>,
    pub state: StateRead,
    pub encodings: DocumentEncodings,
    pub plan_inputs: PlanInputs,
    /// CloudKit's answer about the original of each retired replacement, where it was asked.
    pub replies: Vec<Result<CloudKitActiveAssetValidation, LegacyUploadEvidenceError>>,
    pub status: CheckpointStatus,
    pub operational: OperationalObservation,
    pub process: ProcessObservation,
}

/// What happened while a receipt was written, and a last look at what it was made from and at the
/// receipt itself.
#[derive(Debug, PartialEq, Eq)]
pub struct IssuedObservation {
    /// The JSON of the receipt, as it is written out.
    pub receipt: Vec<u8>,
    pub output: ReceiptOutput,
    pub state_unchanged: bool,
    pub evidence_again: EvidenceReread,
    pub receipt_again: EvidenceReread,
}

/// The category under which evidence is refused before its originals are looked at, or nothing.
pub open spec fn opening_refusal(
    request: LegacyUploadDeviceRecoveryGenerateRequest,
    observed: RecoveryObservation,
) -> Option<Seq<char>> {
    let requested = audit::request_refusal(request.evidence);
    let reading = sealed::evidence_read_refusal(observed.read, observed.process.euid);
    if requested is Some {
        requested
    } else if reading is Some {
        reading
    } else if digest::sha256_hex(observed.read->Read_1@)
        != request.evidence.expected_evidence_sha256@ {
        Some("evidence_digest"@)
    } else if observed.document is None {
        Some("evidence_schema"@)
    } else {
        match observed.state {
            StateRead::OpenFailed => Some("state_open"@),
            StateRead::LoadFailed => Some("state_load"@),
            StateRead::Loaded(manifest) => {
                let document = observed.document->0;
                match historical::historical_document_refusal(document, manifest) {
                    Some(category) => Some(category),
                    None => match historical::canonical_entries(
                        document.retired_replacements@,
                        manifest,
                        observed.encodings.destination_json@,
                        observed.replies@,
                    ) {
                        Err(category) => Some(category),
                        Ok(_) => None,
                    },
                }
            },
        }
    }
}

/// The canonicalizations are those that the document needs, in the order of their assets.
pub open spec fn canonicalizes(
    canonicalizations: Seq<OriginalDestinationCanonicalization>,
    observed: RecoveryObservation,
) -> bool {
    exists|unsorted: Seq<OriginalDestinationCanonicalization>|
        historical::canonical_entries(
            observed.document->0.retired_replacements@,
            observed.state->Loaded_0,
            observed.encodings.destination_json@,
            observed.replies@,
        ) == Ok::<Seq<historical::EntryView>, Seq<char>>(historical::entry_views(unsorted))
            && canonicalizations == #[trigger] order::sorted(unsorted)
}

/// The operational document is the sealed one with the numbers that its devices have now.
pub open spec fn operates(operational: EvidenceDocument, observed: RecoveryObservation) -> bool {
    recovery::operational_form(
        operational,
        observed.document->0,
        recovery::observed_pairs(
            observed.document->0.quarantine_roots@,
            observed.operational.roots@,
        ),
    )
}

/// The category under which no receipt is made, before the operational document is looked at.
pub open spec fn cohort_refusal(
    request: LegacyUploadDeviceRecoveryGenerateRequest,
    observed: RecoveryObservation,
    canonicalizations: Seq<OriginalDestinationCanonicalization>,
) -> Option<Seq<char>> {
    let document = observed.document->0;
    let manifest = observed.state->Loaded_0;
    let valid = validation::document_refusal(
        document,
        observed.encodings,
        observed.plan_inputs,
        request.evidence,
        manifest,
        canonicalizations,
    );
    if valid is Some {
        valid
    } else if observed.status == CheckpointStatus::Unreadable {
        Some("checkpoint_read"@)
    } else if observed.status == CheckpointStatus::Stale {
        Some("checkpoint_stale"@)
    } else {
        recovery::recovery_refusal(
            document,
            manifest,
            request.allow_partial_quarantine,
            observed.operational,
        )
    }
}

/// The category under which no receipt is made, once there is an operational document, or nothing.
pub open spec fn statement_refusal(
    request: LegacyUploadDeviceRecoveryGenerateRequest,
    observed: RecoveryObservation,
    operational: EvidenceDocument,
) -> Option<Seq<char>> {
    match recovery::operational_refusal(
        operational,
        observed.state->Loaded_0,
        request.allow_partial_quarantine,
        observed.operational,
        observed.process.euid,
    ) {
        Some(category) => Some(category),
        None => receipt::body_refusal(
            observed.document->0,
            observed.state->Loaded_0,
            request.expected_signer_designated_requirement_sha256@,
            observed.process,
        ),
    }
}

/// What leads up to an answer about a receipt: the canonicalizations that it needs and, where the
/// disk bears it out, the operational document.
pub open spec fn leads_to(
    request: LegacyUploadDeviceRecoveryGenerateRequest,
    observed: RecoveryObservation,
    canonicalizations: Seq<OriginalDestinationCanonicalization>,
    operational: EvidenceDocument,
    refusal: Option<Seq<char>>,
) -> bool {
    &&& canonicalizes(canonicalizations, observed)
    &&& match cohort_refusal(request, observed, canonicalizations) {
        Some(category) => refusal == Some(category),
        None => operates(operational, observed) && statement_refusal(
            request,
            observed,
            operational,
        ) == refusal,
    }
}

/// A receipt states the cohort as it stands.
pub open spec fn states(
    body: DeviceRecoveryReceiptBody,
    request: LegacyUploadDeviceRecoveryGenerateRequest,
    observed: RecoveryObservation,
    canonicalizations: Seq<OriginalDestinationCanonicalization>,
) -> bool {
    let document = observed.document->0;
    &&& recovery::maps_roots(
        body.mappings@,
        document.quarantine_roots@,
        observed.operational.roots@,
        observed.operational.root_path_json@,
    )
    &&& observed.process.signer() matches Ok(signer) && receipt::body_states(
        body,
        document,
        observed.state->Loaded_0,
        request.evidence.expected_evidence_sha256@,
        canonicalizations,
        signer,
    )
}

/// Refused before a receipt is made, under that category.
pub open spec fn refuses_to_state(
    request: LegacyUploadDeviceRecoveryGenerateRequest,
    observed: RecoveryObservation,
    category: Seq<char>,
) -> bool {
    match opening_refusal(request, observed) {
        Some(refusal) => refusal == category,
        None => exists|
            canonicalizations: Seq<OriginalDestinationCanonicalization>,
            operational: EvidenceDocument,
        | #[trigger]
            leads_to(request, observed, canonicalizations, operational, Some(category)),
    }
}

/// A receipt may be made, and states that.
pub open spec fn may_state(
    body: DeviceRecoveryReceiptBody,
    request: LegacyUploadDeviceRecoveryGenerateRequest,
    observed: RecoveryObservation,
) -> bool {
    &&& opening_refusal(request, observed) is None
    &&& exists|operational: EvidenceDocument| #[trigger]
        leads_to(
            request,
            observed,
            body.original_destination_canonicalizations@,
            operational,
            None,
        )
    &&& states(body, request, observed, body.original_destination_canonicalizations@)
}

/// What a new receipt for the cohort states. The second value is the evidence as it was sealed.
pub fn draft_device_recovery_receipt(
    request: &LegacyUploadDeviceRecoveryGenerateRequest,
    observed: &RecoveryObservation,
) -> (r: Result<(DeviceRecoveryReceiptBody, SealedEvidence), LegacyUploadEvidenceError>)
    ensures
        match r {
            Ok((body, evidence)) => {
                &&& may_state(body, *request, *observed)
                &&& evidence.bytes@ == observed.read->Read_1@
                &&& evidence.sha256@ == digest::sha256_hex(evidence.bytes@)
                &&& evidence.initial_metadata == observed.read->Read_0
                &&& evidence.initial_metadata.owner_only(observed.process.euid)
            },
            Err(error) => refuses_to_state(*request, *observed, error@),
        },
{
    match validate_public_request(&request.evidence) {
        Err(error) => {
            return Err(error);
        },
        Ok(()) => {},
    }
    let evidence = match seal_read(&observed.read, observed.process.euid) {
        Err(error) => {
            return Err(error);
        },
        Ok(evidence) => evidence,
    };
    if !same_text(&evidence.sha256, &request.evidence.expected_evidence_sha256) {
        return Err(failure("evidence_digest"));
    }
    let document = match &observed.document {
        None => {
            return Err(failure("evidence_schema"));
        },
        Some(document) => document,
    };
    let manifest = match &observed.state {
        StateRead::OpenFailed => {
            return Err(failure("state_open"));
        },
        StateRead::LoadFailed => {
            return Err(failure("state_load"));
        },
        StateRead::Loaded(manifest) => manifest,
    };
    let canonicalizations = match build_original_destination_canonicalizations(
        document,
        manifest,
        &observed.encodings.destination_json,
        &observed.replies,
    ) {
        Err(error) => {
            return Err(error);
        },
        Ok(canonicalizations) => canonicalizations,
    };
    let ghost entries = canonicalizations@;
    assert(canonicalizes(entries, *observed)) by {
        let found = historical::canonical_entries(
            document.retired_replacements@,
            *manifest,
            observed.encodings.destination_json@,
            observed.replies@,
        )->Ok_0;
        let unsorted = choose|unsorted: Seq<OriginalDestinationCanonicalization>|
            historical::entry_views(unsorted) == found && entries == #[trigger] order::sorted(
                unsorted,
            );
        assert(entries == order::sorted(unsorted));
    }
    match validate_document(
        document,
        &observed.encodings,
        &observed.plan_inputs,
        &evidence.sha256,
        &request.evidence,
        manifest,
        &canonicalizations,
    ) {
        Err(error) => {
            assert(leads_to(*request, *observed, entries, *document, Some(error@)));
            return Err(error);
        },
        Ok(_) => {},
    }
    match observed.status {
        CheckpointStatus::Unreadable => {
            assert(leads_to(*request, *observed, entries, *document, Some("checkpoint_read"@)));
            return Err(failure("checkpoint_read"));
        },
        CheckpointStatus::Stale => {
            assert(leads_to(*request, *observed, entries, *document, Some("checkpoint_stale"@)));
            return Err(failure("checkpoint_stale"));
        },
        CheckpointStatus::Current => {},
    }
    match device_recovery_receipt_body(
        document,
        manifest,
        &evidence.sha256,
        &request.expected_signer_designated_requirement_sha256,
        request.allow_partial_quarantine,
        canonicalizations,
        &observed.operational,
        &observed.process,
    ) {
        Err(error) => {
            proof {
                if cohort_refusal(*request, *observed, entries) is Some {
                    assert(leads_to(*request, *observed, entries, *document, Some(error@)));
                } else {
                    let operational = choose|operational: EvidenceDocument|
                        recovery::operational_form(
                            operational,
                            *document,
                            recovery::observed_pairs(
                                document.quarantine_roots@,
                                observed.operational.roots@,
                            ),
                        ) && match #[trigger] recovery::operational_refusal(
                            operational,
                            *manifest,
                            request.allow_partial_quarantine,
                            observed.operational,
                            observed.process.euid,
                        ) {
                            Some(category) => error@ == category,
                            None => receipt::body_refusal(
                                *document,
                                *manifest,
                                request.expected_signer_designated_requirement_sha256@,
                                observed.process,
                            ) == Some(error@),
                        };
                    assert(leads_to(*request, *observed, entries, operational, Some(error@)));
                }
            }
            Err(error)
        },
        Ok((body, operational)) => {
            assert(leads_to(*request, *observed, entries, operational, None));
            Ok((body, evidence))
        },
    }
}

/// Seals what a receipt states with its digest.
pub fn seal_receipt(body: DeviceRecoveryReceiptBody, body_json: &[u8]) -> (r: DeviceRecoveryReceipt)
    ensures
        r.body == body,
        r.body_sha256@ == digest::sha256_hex(body_json@),
{
    let body_sha256 = sha256_bytes(body_json);
    DeviceRecoveryReceipt { body, body_sha256 }
}

/// A receipt still is what was written.
pub open spec fn receipt_steady(
    bytes: Seq<u8>,
    output: ReceiptOutput,
    again: EvidenceReread,
    euid: u32,
) -> bool {
    &&& again.reread matches Some(reread) && reread@.len() <= MAX_EVIDENCE_BYTES && reread@ == bytes
    &&& output.sealed matches Some(metadata)
    &&& metadata.owner_only(euid)
    &&& again.held == Some(metadata)
    &&& again.named == Some(metadata)
}

/// The category under which a receipt is refused once it is made, or nothing.
pub open spec fn issue_refusal(
    output_path: Seq<char>,
    read: SourceRead,
    issued: IssuedObservation,
    euid: u32,
) -> Option<Seq<char>> {
    if !output::receipt_written(output_path, issued.receipt@, issued.output, euid) {
        Some("recovery_output"@)
    } else if !issued.state_unchanged {
        Some("state_changed"@)
    } else if !load::same_again(read, issued.evidence_again) {
        Some("evidence_changed"@)
    } else if !receipt_steady(issued.receipt@, issued.output, issued.receipt_again, euid) {
        Some("evidence_changed"@)
    } else {
        None
    }
}

/// Whether a receipt still is what was written.
pub(crate) fn reconfirm_receipt(
    created: &CreatedRecoveryReceipt,
    output: &ReceiptOutput,
    again: &EvidenceReread,
    euid: u32,
) -> (r: Result<(), LegacyUploadEvidenceError>)
    requires
        output.sealed == Some(created.sealed.initial_metadata),
        created.sealed.sha256@ == digest::sha256_hex(created.sealed.bytes@),
    ensures
        r is Ok <==> receipt_steady(created.sealed.bytes@, *output, *again, euid),
        r matches Err(error) ==> error@ == "evidence_changed"@,
{
    revalidate_sealed_evidence(&created.sealed, &again.reread, again.held, again.named, euid)
}

/// A report tells what a receipt states, and the digest of the receipt itself.
pub open spec fn reports(
    report: LegacyUploadDeviceRecoveryGenerateReport,
    request: LegacyUploadDeviceRecoveryGenerateRequest,
    document: EvidenceDocument,
    receipt: Seq<u8>,
) -> bool {
    &&& report.receipt_sha256@ == digest::sha256_hex(receipt)
    &&& report.evidence_sha256@ == request.evidence.expected_evidence_sha256@
    &&& report.cohort_sha256@ == document.cohort_sha256@
    &&& report.partial_quarantine == request.allow_partial_quarantine
    &&& report.device_mapping_count == document.quarantine_roots@.len()
    &&& report.raw_input_count == document.raw_inputs@.len()
    &&& report.quarantine_member_count == document.quarantine_members@.len()
    &&& report.reference_count == document.reference_normalizations@.len()
    &&& report.signer_designated_requirement_sha256@
        == request.expected_signer_designated_requirement_sha256@
}

/// Makes a recovery receipt and accepts it as it was written.
pub fn generate_legacy_uploaded_heic_device_recovery(
    request: &LegacyUploadDeviceRecoveryGenerateRequest,
    observed: &RecoveryObservation,
    issued: &IssuedObservation,
) -> (r: Result<LegacyUploadDeviceRecoveryGenerateReport, LegacyUploadEvidenceError>)
    ensures
        match r {
            Ok(report) => {
                &&& exists|body: DeviceRecoveryReceiptBody| #[trigger]
                    may_state(body, *request, *observed)
                &&& issue_refusal(
                    request.output_path@,
                    observed.read,
                    *issued,
                    observed.process.euid,
                ) is None
                &&& reports(report, *request, observed.document->0, issued.receipt@)
            },
            Err(error) => refuses_to_state(*request, *observed, error@) || (exists|
                body: DeviceRecoveryReceiptBody,
            | #[trigger]
                may_state(body, *request, *observed)) && issue_refusal(
                request.output_path@,
                observed.read,
                *issued,
                observed.process.euid,
            ) == Some(error@),
        },
{
    let euid: u32 = observed.process.euid;
    let (body, evidence) = match draft_device_recovery_receipt(request, observed) {
        Err(error) => {
            return Err(error);
        },
        Ok(drafted) => drafted,
    };
    assert(may_state(body, *request, *observed));
    let created = match write_new_owner_only_receipt(
        &request.output_path,
        &issued.receipt,
        &issued.output,
        euid,
    ) {
        Err(error) => {
            return Err(error);
        },
        Ok(created) => created,
    };
    if !issued.state_unchanged {
        return Err(failure("state_changed"));
    }
    match revalidate_sealed_evidence(
        &evidence,
        &issued.evidence_again.reread,
        issued.evidence_again.held,
        issued.evidence_again.named,
        euid,
    ) {
        Err(error) => {
            return Err(error);
        },
        Ok(()) => {},
    }
    match reconfirm_receipt(&created, &issued.output, &issued.receipt_again, euid) {
        Err(error) => {
            return Err(error);
        },
        Ok(()) => {},
    }
    Ok(
        LegacyUploadDeviceRecoveryGenerateReport {
            receipt_sha256: created.sealed.sha256,
            evidence_sha256: body.evidence_sha256,
            cohort_sha256: body.cohort_sha256,
            partial_quarantine: request.allow_partial_quarantine,
            device_mapping_count: body.mappings.len() as u64,
            raw_input_count: body.raw_input_count,
            quarantine_member_count: body.quarantine_member_count,
            reference_count: body.reference_count,
            signer_designated_requirement_sha256: body.signer.designated_requirement_sha256,
        },
    )
}

proof fn entries_come_from_replacements(
    replacements: Seq<crate::document::EvidenceRetiredReplacement>,
    manifest: Manifest,
    destination_json: Seq<Vec<u8>>,
    replies: Seq<Result<CloudKitActiveAssetValidation, LegacyUploadEvidenceError>>,
    k: int,
) -> (i: int)
    requires
        historical::canonical_entries(replacements, manifest, destination_json, replies) is Ok,
        0 <= k < historical::canonical_entries(
            replacements,
            manifest,
            destination_json,
            replies,
        )->Ok_0.len(),
    ensures
        0 <= i < replacements.len(),
        historical::canonical_entry(
            replacements[i],
            manifest,
            audit::encoded_digest(destination_json, i),
            historical::reply_at(replies, i),
        ) == Ok::<Option<historical::EntryView>, Seq<char>>(
            Some(
                historical::canonical_entries(
                    replacements,
                    manifest,
                    destination_json,
                    replies,
                )->Ok_0[k],
            ),
        ),
    decreases replacements.len(),
{
    let last = replacements.len() - 1;
    let front = historical::canonical_entries(
        replacements.drop_last(),
        manifest,
        destination_json,
        replies,
    );
    if k < front->Ok_0.len() {
        entries_come_from_replacements(
            replacements.drop_last(),
            manifest,
            destination_json,
            replies,
            k,
        )
    } else {
        last
    }
}

proof fn confirmed_journals_end_at_their_anchor(
    replacement: crate::document::EvidenceRetiredReplacement,
    manifest: Manifest,
)
    requires
        plan::replacement_phase(manifest, replacement.asset_id@) == Ok::<
            Option<LegacyUploadMigrationPhase>,
            Seq<char>,
        >(Some(LegacyUploadMigrationPhase::DeleteConfirmed)),
    ensures
        receipt::replacement_anchor(replacement, manifest) matches Ok(anchor) && {
            let journal = manifest.record(replacement.asset_id@)->0.valid_journal()->0;
            &&& anchor.asset_id@ == replacement.asset_id@
            &&& anchor.entry_count == journal.entries@.len()
            &&& anchor.delete_confirmed_entry_sha256@ == journal.entries@.last().entry_sha256@
            &&& 1 <= anchor.entry_count
            &&& journal.entries@.last().phase == LegacyUploadMigrationPhase::DeleteConfirmed
        },
{
    let journal = manifest.record(replacement.asset_id@)->0.valid_journal()->0;
    let n = journal.entries.len();
    assert(receipt::last_entry(
        journal.entries@,
        LegacyUploadMigrationPhase::DeleteConfirmed,
        n as int,
    ) == Some(n - 1));
}

/// Receipts are made only of cohorts whose deletes were just confirmed and, unless the request
/// allows for files that were moved already, only where the cohort's directories are empty.
pub proof fn new_receipts_need_an_untouched_cohort(
    body: DeviceRecoveryReceiptBody,
    request: LegacyUploadDeviceRecoveryGenerateRequest,
    observed: RecoveryObservation,
)
    requires
        may_state(body, request, observed),
    ensures
        plan::cohort_phase(observed.document->0, observed.state->Loaded_0) == Ok::<
            Option<LegacyUploadMigrationPhase>,
            Seq<char>,
        >(Some(LegacyUploadMigrationPhase::DeleteConfirmed)),
        !request.allow_partial_quarantine ==> forall|i: int|
            0 <= i < observed.document->0.quarantine_roots@.len()
                ==> (#[trigger] observed.operational.roots@[i]).cohort_is_empty,
{
    let roots = observed.document->0.quarantine_roots@;
    let found = observed.operational.roots@;
    let operational = choose|operational: EvidenceDocument| #[trigger]
        leads_to(
            request,
            observed,
            body.original_destination_canonicalizations@,
            operational,
            None,
        );
    assert(recovery::roots_recovered(
        roots,
        found,
        observed.operational.root_path_json@,
        !request.allow_partial_quarantine,
    ));
    assert forall|i: int|
        !request.allow_partial_quarantine && 0 <= i < roots.len() implies (
    #[trigger] found[i]).cohort_is_empty by {
        assert(recovery::root_recovered(roots[i], found[i], true));
    }
}

/// A receipt that may be made is accepted at once, by the program that made it, as continuing the
/// cohort.
pub proof fn new_receipts_continue_their_cohort(
    body: DeviceRecoveryReceiptBody,
    request: LegacyUploadDeviceRecoveryGenerateRequest,
    observed: RecoveryObservation,
)
    requires
        may_state(body, request, observed),
    ensures
        receipt::running_continuity_refusal(
            body,
            observed.document->0,
            observed.state->Loaded_0,
            request.evidence.expected_evidence_sha256@,
            observed.process,
        ) is None,
{
    let document = observed.document->0;
    let manifest = observed.state->Loaded_0;
    let replacements = document.retired_replacements@;
    let canonicalizations = body.original_destination_canonicalizations@;
    let first = replacements[0];
    let second = replacements[1];
    let operational = choose|operational: EvidenceDocument| #[trigger]
        leads_to(request, observed, canonicalizations, operational, None);
    assert(leads_to(request, observed, canonicalizations, operational, None));
    assert(replacements.len() == 2);
    confirmed_journals_end_at_their_anchor(first, manifest);
    confirmed_journals_end_at_their_anchor(second, manifest);
    let a = receipt::replacement_anchor(first, manifest)->Ok_0;
    let b = receipt::replacement_anchor(second, manifest)->Ok_0;
    let front = replacements.drop_last();
    assert(front.drop_last() =~= Seq::empty());
    assert(front.last() == first);
    assert(replacements.last() == second);
    assert(receipt::anchors_from(front.drop_last(), manifest)->Ok_0 =~= Seq::empty());
    assert(receipt::anchors_from(front, manifest)->Ok_0 =~= seq![a]);
    let anchors = receipt::anchors_from(replacements, manifest)->Ok_0;
    assert(anchors =~= seq![a, b]);
    assert(text::before(first.asset_id@, second.asset_id@)) by {
        let ids = validation::replacement_ids(replacements);
        assert(ids[0] == first.asset_id@ && ids[1] == second.asset_id@);
    }
    text::before_is_irreflexive(first.asset_id@);
    if text::before(second.asset_id@, first.asset_id@) {
        text::before_is_transitive(first.asset_id@, second.asset_id@, first.asset_id@);
    }
    assert(order::sorted(anchors) =~= anchors) by {
        reveal_with_fuel(order::sorted, 3);
        assert(anchors.drop_last() =~= seq![a]);
        assert(anchors.drop_last().drop_last() =~= Seq::empty());
        assert(order::placed(Seq::empty(), a) =~= seq![a]);
        assert(order::placed(seq![a], b) =~= seq![a, b]);
    }
    assert(body.journal_anchors@ == anchors);
    assert(receipt::statement_current(
        body,
        document,
        request.evidence.expected_evidence_sha256@,
    ));
    assert(receipt::find_anchor(anchors, first.asset_id@, 0) == Some(a));
    assert(receipt::find_anchor(anchors, second.asset_id@, 0) == Some(b)) by {
        reveal_with_fuel(receipt::find_anchor, 3);
    }
    assert(receipt::all_anchored(replacements, manifest, anchors));
    assert(receipt::entries_anchored(canonicalizations, anchors)) by {
        let unsorted = choose|unsorted: Seq<OriginalDestinationCanonicalization>|
            historical::canonical_entries(
                replacements,
                manifest,
                observed.encodings.destination_json@,
                observed.replies@,
            ) == Ok::<Seq<historical::EntryView>, Seq<char>>(historical::entry_views(unsorted))
                && canonicalizations == #[trigger] order::sorted(unsorted);
        canonicalization::canonicalizations_are_orderly();
        order::sorted_is_an_ascending_rearrangement(unsorted);
        broadcast use vstd::seq_lib::group_to_multiset_ensures;

        assert forall|i: int| 0 <= i < canonicalizations.len() implies receipt::entry_anchored(
            #[trigger] canonicalizations[i],
            anchors,
        ) by {
            let entry = canonicalizations[i];
            assert(canonicalizations.contains(entry));
            assert(unsorted.to_multiset().count(entry) > 0);
            assert(unsorted.contains(entry));
            let k = choose|k: int| 0 <= k < unsorted.len() && unsorted[k] == entry;
            let view = historical::entry_views(unsorted)[k];
            let source = entries_come_from_replacements(
                replacements,
                manifest,
                observed.encodings.destination_json@,
                observed.replies@,
                k,
            );
            assert(view.asset_id == replacements[source].asset_id@);
            assert(anchors[source].asset_id@ == entry.asset_id@);
            assert(anchors[source].delete_confirmed_entry_sha256@
                == entry.delete_confirmed_entry_sha256@);
        }
    }
}

/// A receipt was read back as it was written, by the program that made it, with the roots as they
/// were.
pub open spec fn read_back(
    look: ReceiptObservation,
    body: DeviceRecoveryReceiptBody,
    expected_receipt_sha256: Seq<char>,
    observed: RecoveryObservation,
) -> bool {
    &&& look.process == observed.process
    &&& sealed::evidence_read_refusal(look.read, look.process.euid) is None
    &&& look.read->Read_1@.len() <= MAX_DEVICE_RECOVERY_BYTES
    &&& digest::sha256_hex(look.read->Read_1@) == expected_receipt_sha256
    &&& look.receipt matches Some(receipt)
    &&& receipt.body == body
    &&& receipt.body_sha256@ == digest::sha256_hex(look.body_json@)
    &&& look.roots@ == observed.operational.roots@
    &&& look.root_path_json@ == observed.operational.root_path_json@
}

/// A receipt that may be made is accepted where it is read back as it was written, provided that
/// every device of the cohort has another number than it had. (Where one of several devices kept
/// its number, a receipt may be made, but is refused as `recovery_mapping` when it is read.)
pub proof fn new_receipts_are_accepted(
    body: DeviceRecoveryReceiptBody,
    request: LegacyUploadDeviceRecoveryGenerateRequest,
    observed: RecoveryObservation,
    look: ReceiptObservation,
    expected_receipt_sha256: Seq<char>,
)
    requires
        may_state(body, request, observed),
        identity::digest_text(expected_receipt_sha256),
        read_back(look, body, expected_receipt_sha256, observed),
        forall|i: int|
            0 <= i < observed.document->0.quarantine_roots@.len() ==> (
            #[trigger] observed.document->0.quarantine_roots@[i]).device
                != observed.operational.roots@[i].metadata->0.dev,
    ensures
        load::receipt_refusal(
            expected_receipt_sha256,
            observed.document->0,
            observed.state->Loaded_0,
            request.evidence.expected_evidence_sha256@,
            look,
        ) is None,
{
    let document = observed.document->0;
    let roots = document.quarantine_roots@;
    let found = observed.operational.roots@;
    let json = observed.operational.root_path_json@;
    let canonicalizations = body.original_destination_canonicalizations@;
    let operational = choose|operational: EvidenceDocument| #[trigger]
        leads_to(request, observed, canonicalizations, operational, None);
    assert(leads_to(request, observed, canonicalizations, operational, None));
    new_receipts_continue_their_cohort(body, request, observed);
    assert(roots.len() > 0);
    recovery::recovered_mappings_are_sound(
        body.mappings@,
        roots,
        found,
        json,
        !request.allow_partial_quarantine,
    );
    recovery::recovered_documents_are_known(
        document,
        observed.state->Loaded_0,
        request.allow_partial_quarantine,
        observed.operational,
        body.mappings@,
    );
    assert(recovery::roots_recovered(roots, found, json, false)) by {
        assert forall|i: int| 0 <= i < roots.len() implies recovery::root_recovered(
            #[trigger] roots[i],
            found[i],
            false,
        ) by {
            assert(recovery::root_recovered(
                roots[i],
                found[i],
                !request.allow_partial_quarantine,
            ));
        }
    }
    assert(recovery::mappings_refusal(roots, found, json, false) is None);
}

/// A receipt is begun exactly if the request is accepted, the evidence is a private file of at most
/// a mebibyte with the digest that is expected, it holds a document, the state is loaded, both
/// retirements have just confirmed the deletion, and the originals can be canonicalized.
pub proof fn receipts_begin_once_both_deletions_are_confirmed(
    request: LegacyUploadDeviceRecoveryGenerateRequest,
    observed: RecoveryObservation,
    metadata: sealed::EvidenceMetadata,
    content: Vec<u8>,
    document: EvidenceDocument,
    manifest: Manifest,
)
    requires
        observed.read == SourceRead::Read(metadata, content),
        observed.document == Some(document),
        observed.state == StateRead::Loaded(manifest),
    ensures
        opening_refusal(request, observed) is None <==> {
            &&& audit::request_refusal(request.evidence) is None
            &&& metadata.owner_only(observed.process.euid)
            &&& content@.len() <= 1_048_576
            &&& digest::sha256_hex(content@) == request.evidence.expected_evidence_sha256@
            &&& historical::historical_document_refusal(document, manifest) is None
            &&& historical::canonical_entries(
                document.retired_replacements@,
                manifest,
                observed.encodings.destination_json@,
                observed.replies@,
            ) is Ok
        },
{
}

/// A cohort can be stated exactly if its document is accepted, the checkpoint is current, and its
/// devices can be recovered.
pub proof fn cohorts_are_stated_on_a_current_checkpoint(
    request: LegacyUploadDeviceRecoveryGenerateRequest,
    observed: RecoveryObservation,
    canonicalizations: Seq<OriginalDestinationCanonicalization>,
)
    ensures
        cohort_refusal(request, observed, canonicalizations) is None <==> {
            &&& validation::document_refusal(
                observed.document->0,
                observed.encodings,
                observed.plan_inputs,
                request.evidence,
                observed.state->Loaded_0,
                canonicalizations,
            ) is None
            &&& observed.status is Current
            &&& recovery::recovery_refusal(
                observed.document->0,
                observed.state->Loaded_0,
                request.allow_partial_quarantine,
                observed.operational,
            ) is None
        },
{
}

/// A new receipt is kept exactly if it was written as a private file of its own bytes, the state did
/// not change meanwhile, and evidence and receipt are both still the same.
pub proof fn new_receipts_are_kept_if_nothing_changed(
    output_path: Seq<char>,
    metadata: sealed::EvidenceMetadata,
    content: Vec<u8>,
    issued: IssuedObservation,
    euid: u32,
)
    ensures
        issue_refusal(output_path, SourceRead::Read(metadata, content), issued, euid) is None
            <==> {
            &&& output::receipt_written(output_path, issued.receipt@, issued.output, euid)
            &&& issued.state_unchanged
            &&& issued.evidence_again.reread is Some
            &&& issued.evidence_again.reread->0@ == content@
            &&& content@.len() <= 1_048_576
            &&& issued.evidence_again.held == Some(metadata)
            &&& issued.evidence_again.named == Some(metadata)
            &&& issued.receipt_again.reread is Some
            &&& issued.receipt_again.reread->0@ == issued.receipt@
            &&& issued.output.sealed->0.owner_only(euid)
            &&& issued.receipt_again.held == issued.output.sealed
            &&& issued.receipt_again.named == issued.output.sealed
        },
{
}

/// A report of a new receipt tells its digest, what was asked for, and the counts of the document.
pub proof fn receipt_reports_count_the_document(
    report: LegacyUploadDeviceRecoveryGenerateReport,
    request: LegacyUploadDeviceRecoveryGenerateRequest,
    document: EvidenceDocument,
    receipt: Seq<u8>,
)
    requires
        reports(report, request, document, receipt),
    ensures
        report.receipt_sha256@ == digest::sha256_hex(receipt),
        report.evidence_sha256@ == request.evidence.expected_evidence_sha256@,
        report.cohort_sha256@ == document.cohort_sha256@,
        report.partial_quarantine == request.allow_partial_quarantine,
        report.device_mapping_count == document.quarantine_roots@.len(),
        report.raw_input_count == document.raw_inputs@.len(),
        report.quarantine_member_count == document.quarantine_members@.len(),
        report.reference_count == document.reference_normalizations@.len(),
        report.signer_designated_requirement_sha256@
            == request.expected_signer_designated_requirement_sha256@,
{
}

/// What keeps a receipt from being begun is told by its name.
pub proof fn faults_of_a_new_receipt_are_named(
    request: LegacyUploadDeviceRecoveryGenerateRequest,
    observed: RecoveryObservation,
)
    ensures
        ({
            let requested = audit::request_refusal(request.evidence);
            let reading = sealed::evidence_read_refusal(observed.read, observed.process.euid);
            let document = observed.document->0;
            let manifest = observed.state->Loaded_0;
            let history = historical::historical_document_refusal(document, manifest);
            let entries = historical::canonical_entries(
                document.retired_replacements@,
                manifest,
                observed.encodings.destination_json@,
                observed.replies@,
            );
            let asked = requested is None;
            let readable = reading is None;
            let expected = digest::sha256_hex(observed.read->Read_1@)
                == request.evidence.expected_evidence_sha256@;
            let decoded = observed.document is Some;
            let opened = !(observed.state is OpenFailed);
            let loaded = !(observed.state is LoadFailed);
            let confirmed = history is None;
            let canonical = entries is Ok;
            let told = opening_refusal(request, observed);
            &&& !asked ==> told == requested
            &&& asked && !readable ==> told == reading
            &&& asked && readable && !expected ==> told == Some("evidence_digest"@)
            &&& asked && readable && expected && !decoded ==> told == Some("evidence_schema"@)
            &&& asked && readable && expected && decoded && !opened ==> told == Some("state_open"@)
            &&& asked && readable && expected && decoded && opened && !loaded
                ==> told == Some("state_load"@)
            &&& asked && readable && expected && decoded && opened && loaded && !confirmed
                ==> told == history
            &&& asked && readable && expected && decoded && opened && loaded && confirmed
                && !canonical ==> told == Some(entries->Err_0)
        }),
{
}

/// What keeps a cohort from being stated is told by its name.
pub proof fn faults_of_a_stated_cohort_are_named(
    request: LegacyUploadDeviceRecoveryGenerateRequest,
    observed: RecoveryObservation,
    canonicalizations: Seq<OriginalDestinationCanonicalization>,
)
    ensures
        ({
            let valid = validation::document_refusal(
                observed.document->0,
                observed.encodings,
                observed.plan_inputs,
                request.evidence,
                observed.state->Loaded_0,
                canonicalizations,
            );
            let recovered = recovery::recovery_refusal(
                observed.document->0,
                observed.state->Loaded_0,
                request.allow_partial_quarantine,
                observed.operational,
            );
            let accepted = valid is None;
            let readable = !(observed.status is Unreadable);
            let current = !(observed.status is Stale);
            let found = recovered is None;
            let told = cohort_refusal(request, observed, canonicalizations);
            &&& !accepted ==> told == valid
            &&& accepted && !readable ==> told == Some("checkpoint_read"@)
            &&& accepted && readable && !current ==> told == Some("checkpoint_stale"@)
            &&& accepted && readable && current && !found ==> told == recovered
        }),
{
}

/// A statement is accepted exactly if the recovered document is and a receipt can be stated of it;
/// the document is refused first.
pub proof fn statements_need_a_recovered_document(
    request: LegacyUploadDeviceRecoveryGenerateRequest,
    observed: RecoveryObservation,
    operational: EvidenceDocument,
)
    ensures
        ({
            let recovered = recovery::operational_refusal(
                operational,
                observed.state->Loaded_0,
                request.allow_partial_quarantine,
                observed.operational,
                observed.process.euid,
            );
            let stated = receipt::body_refusal(
                observed.document->0,
                observed.state->Loaded_0,
                request.expected_signer_designated_requirement_sha256@,
                observed.process,
            );
            let told = statement_refusal(request, observed, operational);
            &&& told is None <==> recovered is None && stated is None
            &&& recovered is Some ==> told == recovered
            &&& recovered is None ==> told == stated
        }),
{
}

/// What keeps a new receipt from being kept is told by its name.
pub proof fn faults_of_an_issued_receipt_are_named(
    output_path: Seq<char>,
    read: SourceRead,
    issued: IssuedObservation,
    euid: u32,
)
    ensures
        ({
            let written = output::receipt_written(
                output_path,
                issued.receipt@,
                issued.output,
                euid,
            );
            let unchanged = issued.state_unchanged;
            let steady = load::same_again(read, issued.evidence_again)
                && receipt_steady(issued.receipt@, issued.output, issued.receipt_again, euid);
            let told = issue_refusal(output_path, read, issued, euid);
            &&& !written ==> told == Some("recovery_output"@)
            &&& written && !unchanged ==> told == Some("state_changed"@)
            &&& written && unchanged && !steady ==> told == Some("evidence_changed"@)
        }),
{
}

} // verus!
