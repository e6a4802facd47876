use vstd::prelude::*;
use vstd::string::*;
use vstd::utf8::*;

use crate::audit::{
    DocumentEncodings, LegacyUploadEvidenceAuditRequest,
};
use crate::canonicalization::OriginalDestinationCanonicalization;
use crate::cohort;
use crate::cohort::{
    draft_document, gather_cohort, generated_migration_id, select_cohort,
    validate_generation_quarantine_roots, OfferedRoot,
};
use crate::digest;
use crate::digest::sha256_bytes;
use crate::document::{
    EvidenceDocument, ASSET_COUNT, REFERENCE_COUNT, RETIRED_REPLACEMENT_COUNT,
};
use crate::error;
use crate::error::{failure, LegacyUploadEvidenceError};
use crate::gather::{AssetObservation, AssetRereads, GatheredAsset};
use crate::identity;
use crate::manifest::Manifest;
use crate::order;
use crate::path;
use crate::path::safe_absolute_path;
use crate::plan::PlanInputs;
use crate::quarantine::QuarantineRoot;
use crate::sealed;
use crate::sealed::{HeldGenerationSource, SourceRead};
use crate::validation;
use crate::validation::validate_document;

verus! {

/// What an operator asks to have evidence generated from, and where it is to be written.
#[derive(Debug, PartialEq, Eq)]
pub struct LegacyUploadEvidenceGenerateRequest {
    pub manifest_path: String,
    pub output_path: String,
    pub image_timeout_seconds: u64,
    pub quarantine_roots: Vec<String>,
}

/// What an operator is told of generated evidence: digests and counts.
#[derive(Debug, PartialEq, Eq)]
pub struct LegacyUploadEvidenceGenerateReport {
    pub evidence_sha256: String,
    pub cohort_sha256: String,
    pub manifest_target_sha256: String,
    pub cloudkit_target_sha256: String,
    pub asset_count: u64,
    pub retired_replacement_count: u64,
    pub reference_count: u64,
}

/// How the state's JSON checkpoint stands to the state.
#[derive(Clone, Copy, Debug, PartialEq, Eq, Structural)]
pub enum CheckpointStatus {
    /// It could not be told.
    Unreadable,
    /// It says something else than the state.
    Stale,
    /// It says what the state says.
    Current,
}

/// What was read of the state when evidence is generated.
#[derive(Debug, PartialEq, Eq)]
pub struct StateObservation {
    pub opened: bool,
    /// The file at the manifest's path.
    pub checkpoint: SourceRead,
    pub manifest: Option<Manifest>,
    pub status: CheckpointStatus,
}

/// A later look at all that evidence was generated from.
#[derive(Debug, PartialEq, Eq)]
pub struct SourcesAgain {
    pub assets: Vec<AssetRereads>,
    /// The open checkpoint, and the file that has its name by then.
    pub checkpoint: (SourceRead, SourceRead),
    /// Whether the state that was read is still the authoritative one.
    pub state_unchanged: bool,
    pub status: CheckpointStatus,
}

/// The canonical JSON of what a generated document seals by digest, and the document itself.
#[derive(Debug, PartialEq, Eq)]
pub struct GenerationEncodings {
    pub document: DocumentEncodings,
    pub assets_json: Vec<u8>,
    pub replacements_json: Vec<u8>,
    /// The JSON of the whole document, as it is written out.
    pub evidence: Vec<u8>,
    pub plan_inputs: PlanInputs,
}

/// What was read and answered while evidence was generated.
#[derive(Debug)]
pub struct GenerationObservation {
    pub roots: Vec<OfferedRoot>,
    pub state: StateObservation,
    pub assets: Vec<AssetObservation>,
    pub encodings: GenerationEncodings,
    pub again: SourcesAgain,
    pub euid: u32,
}

/// The category under which a state is refused, or nothing.
pub open spec fn state_refusal(manifest_path: Seq<char>, state: StateObservation) -> Option<
    Seq<char>,
> {
    if !state.opened {
        Some("state_open"@)
    } else if sealed::source_refusal(manifest_path, state.checkpoint) is Some {
        Some("checkpoint_open"@)
    } else if state.manifest is None {
        Some("state_load"@)
    } else if state.status == CheckpointStatus::Unreadable {
        Some("checkpoint_read"@)
    } else if state.status == CheckpointStatus::Stale {
        Some("checkpoint_stale"@)
    } else {
        None
    }
}

/// Holds the checkpoint of a state that may be worked from.
fn open_state<'a>(manifest_path: &str, state: &'a StateObservation) -> (r: Result<
    (HeldGenerationSource, &'a Manifest),
    LegacyUploadEvidenceError,
>)
    ensures
        match r {
            Ok(opened) => {
                &&& state_refusal(manifest_path@, *state) is None
                &&& opened.0.stands_for(manifest_path@, state.checkpoint)
                &&& state.manifest == Some(*opened.1)
            },
            Err(error) => state_refusal(manifest_path@, *state) == Some(error@),
        },
{
    if !state.opened {
        return Err(failure("state_open"));
    }
    let checkpoint = match HeldGenerationSource::open(manifest_path, &state.checkpoint) {
        Ok(checkpoint) => checkpoint,
        Err(_) => {
            return Err(failure("checkpoint_open"));
        },
    };
    match &state.manifest {
        None => Err(failure("state_load")),
        Some(manifest) => match state.status {
            CheckpointStatus::Unreadable => Err(failure("checkpoint_read")),
            CheckpointStatus::Stale => Err(failure("checkpoint_stale")),
            CheckpointStatus::Current => Ok((checkpoint, manifest)),
        },
    }
}

/// The category under which the sources of evidence are refused at a later look, or nothing where
/// none of them changed.
pub open spec fn sources_refusal(
    gathered: Seq<GatheredAsset>,
    checkpoint: HeldGenerationSource,
    again: SourcesAgain,
) -> Option<Seq<char>> {
    let files = again.checkpoint;
    if !assets_unchanged(gathered, again.assets@) || !checkpoint.unchanged(files.0, files.1) {
        Some("source_changed"@)
    } else if !again.state_unchanged {
        Some("state_changed"@)
    } else if again.status != CheckpointStatus::Current {
        Some("checkpoint_changed"@)
    } else {
        None
    }
}

/// None of the files of a cohort changed.
pub open spec fn assets_unchanged(
    gathered: Seq<GatheredAsset>,
    again: Seq<AssetRereads>,
) -> bool {
    &&& again.len() >= gathered.len()
    &&& forall|i: int|
        0 <= i < gathered.len() ==> (#[trigger] gathered[i]).held.unchanged(again[i])
}

/// Whether none of the sources of evidence changed.
pub fn revalidate_generation_sources(
    gathered: &Vec<GatheredAsset>,
    checkpoint: &HeldGenerationSource,
    again: &SourcesAgain,
) -> (r: Result<(), LegacyUploadEvidenceError>)
    ensures
        error::refused_as(r, sources_refusal(gathered@, *checkpoint, *again)),
{
    if again.assets.len() < gathered.len() {
        return Err(failure("source_changed"));
    }
    let mut i: usize = 0;
    while i < gathered.len()
        invariant
            i <= gathered@.len() <= again.assets@.len(),
            forall|j: int|
                0 <= j < i ==> (#[trigger] gathered@[j]).held.unchanged(again.assets@[j]),
        decreases gathered@.len() - i,
    {
        match gathered[i].held.revalidate(&again.assets[i]) {
            Err(error) => {
                assert(!gathered@[i as int].held.unchanged(again.assets@[i as int]));
                return Err(error);
            },
            Ok(()) => {},
        }
        i += 1;
    }
    match checkpoint.revalidate(&again.checkpoint.0, &again.checkpoint.1) {
        Err(error) => {
            return Err(error);
        },
        Ok(()) => {},
    }
    if !again.state_unchanged {
        return Err(failure("state_changed"));
    }
    match again.status {
        CheckpointStatus::Current => Ok(()),
        _ => Err(failure("checkpoint_changed")),
    }
}

/// The roots that a request offers, in the order of their devices.
pub open spec fn requested_roots(
    request: LegacyUploadEvidenceGenerateRequest,
    observed: GenerationObservation,
) -> Seq<QuarantineRoot> {
    order::sorted(
        cohort::offered_roots(
            request.quarantine_roots@,
            observed.roots@,
            request.quarantine_roots@.len(),
        ),
    )
}

/// The category under which evidence cannot be gathered at all, or nothing.
pub open spec fn gathering_refusal(
    request: LegacyUploadEvidenceGenerateRequest,
    observed: GenerationObservation,
) -> Option<Seq<char>> {
    let state = state_refusal(request.manifest_path@, observed.state);
    let records = cohort::verified_records(observed.state.manifest->0.records@);
    if request.image_timeout_seconds == 0 || !path::safe_place(request.output_path@) {
        Some("generator_request"@)
    } else if !cohort::roots_acceptable(
        request.quarantine_roots@,
        observed.roots@,
        observed.euid,
    ) {
        Some("quarantine_roots"@)
    } else if state is Some {
        state
    } else if !cohort::cohort_eligible(records) {
        Some("asset_count"@)
    } else {
        cohort::gathering_refusal(records, observed.assets@, 0)
    }
}

/// The evidence that was gathered is that of the cohort.
pub open spec fn gathers(
    gathered: Seq<GatheredAsset>,
    observed: GenerationObservation,
) -> bool {
    cohort::gathers_cohort(
        gathered,
        cohort::verified_records(observed.state.manifest->0.records@),
        observed.assets@,
    )
}

/// The category under which gathered evidence makes no document, or nothing.
pub open spec fn drafting_refusal(
    gathered: Seq<GatheredAsset>,
    request: LegacyUploadEvidenceGenerateRequest,
    observed: GenerationObservation,
) -> Option<Seq<char>> {
    cohort::draft_refusal(
        gathered,
        requested_roots(request, observed),
        observed.encodings.document.destination_json@,
        observed.encodings.document.reference_json@,
    )
}

/// A document is made of the gathered evidence, and carries its name and its digest.
pub open spec fn documents(
    document: EvidenceDocument,
    gathered: Seq<GatheredAsset>,
    request: LegacyUploadEvidenceGenerateRequest,
    observed: GenerationObservation,
) -> bool {
    let encodings = observed.encodings;
    &&& cohort::drafts(
        document,
        gathered,
        requested_roots(request, observed),
        encodings.document.destination_json@,
        encodings.document.reference_json@,
    )
    &&& document.migration_id@ == digest::sha256_hex(
        encode_utf8(
            cohort::migration_text(
                digest::sha256_hex(encodings.assets_json@),
                digest::sha256_hex(encodings.replacements_json@),
            ),
        ),
    )
    &&& document.cohort_sha256@ == digest::sha256_hex(encodings.document.cohort_json@)
}

/// The request to audit a document once it is written.
pub open spec fn asks_for(
    audit: LegacyUploadEvidenceAuditRequest,
    request: LegacyUploadEvidenceGenerateRequest,
    encodings: GenerationEncodings,
) -> bool {
    &&& audit.manifest_path@ == request.manifest_path@
    &&& audit.evidence_path@ == request.output_path@
    &&& audit.expected_evidence_sha256@ == digest::sha256_hex(encodings.evidence@)
    &&& audit.expected_asset_count == ASSET_COUNT
    &&& audit.expected_retired_replacement_count == RETIRED_REPLACEMENT_COUNT
    &&& audit.expected_reference_count == REFERENCE_COUNT
    &&& audit.expected_cohort_sha256@ == digest::sha256_hex(encodings.document.cohort_json@)
    &&& identity::digest_text(audit.expected_evidence_sha256@)
    &&& identity::digest_text(audit.expected_cohort_sha256@)
}

/// The category under which a document is not fit to be written, or nothing.
pub open spec fn writing_refusal(
    document: EvidenceDocument,
    gathered: Seq<GatheredAsset>,
    audit: LegacyUploadEvidenceAuditRequest,
    checkpoint: HeldGenerationSource,
    observed: GenerationObservation,
) -> Option<Seq<char>> {
    let valid = validation::document_refusal(
        document,
        observed.encodings.document,
        observed.encodings.plan_inputs,
        audit,
        observed.state.manifest->0,
        Seq::empty(),
    );
    if valid is Some {
        valid
    } else {
        sources_refusal(gathered, checkpoint, observed.again)
    }
}

/// Evidence that is fit to be written, and what it was made from.
#[derive(Debug, PartialEq, Eq)]
pub struct PreparedEvidence {
    pub document: EvidenceDocument,
    pub audit_request: LegacyUploadEvidenceAuditRequest,
    pub manifest_target_sha256: String,
    pub cloudkit_target_sha256: String,
    pub gathered: Vec<GatheredAsset>,
    pub checkpoint: HeldGenerationSource,
}

/// Evidence is fit to be written: it was gathered from sources that agree and did not change, and
/// it is valid.
pub open spec fn prepares(
    prepared: PreparedEvidence,
    request: LegacyUploadEvidenceGenerateRequest,
    observed: GenerationObservation,
) -> bool {
    &&& gathering_refusal(request, observed) is None
    &&& gathers(prepared.gathered@, observed)
    &&& drafting_refusal(prepared.gathered@, request, observed) is None
    &&& documents(prepared.document, prepared.gathered@, request, observed)
    &&& asks_for(prepared.audit_request, request, observed.encodings)
    &&& prepared.checkpoint.stands_for(request.manifest_path@, observed.state.checkpoint)
    &&& writing_refusal(
        prepared.document,
        prepared.gathered@,
        prepared.audit_request,
        prepared.checkpoint,
        observed,
    ) is None
    &&& prepared.manifest_target_sha256@ == digest::sha256_hex(observed.encodings.assets_json@)
    &&& prepared.cloudkit_target_sha256@ == digest::sha256_hex(
        observed.encodings.replacements_json@,
    )
}

/// Everything that leads up to a document that is not fit to be written.
pub open spec fn unfit(
    prepared: PreparedEvidence,
    request: LegacyUploadEvidenceGenerateRequest,
    observed: GenerationObservation,
    category: Seq<char>,
) -> bool {
    &&& gathers(prepared.gathered@, observed)
    &&& match drafting_refusal(prepared.gathered@, request, observed) {
        Some(refusal) => refusal == category,
        None => {
            &&& documents(prepared.document, prepared.gathered@, request, observed)
            &&& asks_for(prepared.audit_request, request, observed.encodings)
            &&& prepared.checkpoint.stands_for(request.manifest_path@, observed.state.checkpoint)
            &&& writing_refusal(
                prepared.document,
                prepared.gathered@,
                prepared.audit_request,
                prepared.checkpoint,
                observed,
            ) == Some(category)
        },
    }
}

/// The category under which evidence is refused before it is written.
pub open spec fn refuses_to_prepare(
    request: LegacyUploadEvidenceGenerateRequest,
    observed: GenerationObservation,
    category: Seq<char>,
) -> bool {
    match gathering_refusal(request, observed) {
        Some(refusal) => refusal == category,
        None => exists|prepared: PreparedEvidence| #[trigger]
            unfit(prepared, request, observed, category),
    }
}

/// Generates evidence, up to where it is to be written.
pub fn prepare_generated_evidence(
    request: &LegacyUploadEvidenceGenerateRequest,
    observed: &GenerationObservation,
) -> (r: Result<PreparedEvidence, LegacyUploadEvidenceError>)
    ensures
        match r {
            Ok(prepared) => prepares(prepared, *request, *observed),
            Err(error) => refuses_to_prepare(*request, *observed, error@),
        },
{
    if request.image_timeout_seconds == 0 || !safe_absolute_path(&request.output_path) {
        return Err(failure("generator_request"));
    }
    let roots = match validate_generation_quarantine_roots(
        &request.quarantine_roots,
        &observed.roots,
        observed.euid,
    ) {
        Ok(roots) => roots,
        Err(error) => {
            return Err(error);
        },
    };
    let (checkpoint, manifest) = match open_state(&request.manifest_path, &observed.state) {
        Ok(opened) => opened,
        Err(error) => {
            return Err(error);
        },
    };
    let places = match select_cohort(manifest) {
        Ok(places) => places,
        Err(error) => {
            return Err(error);
        },
    };
    assert(cohort::records_at(*manifest, places@) =~= cohort::verified_records(manifest.records@));
    let gathered = match gather_cohort(manifest, &places, &observed.assets) {
        Ok(gathered) => gathered,
        Err(error) => {
            return Err(error);
        },
    };
    let encodings = &observed.encodings;
    let manifest_target_sha256 = sha256_bytes(&encodings.assets_json);
    let cloudkit_target_sha256 = sha256_bytes(&encodings.replacements_json);
    let cohort_sha256 = sha256_bytes(&encodings.document.cohort_json);
    let evidence_sha256 = sha256_bytes(&encodings.evidence);
    let audit_request = LegacyUploadEvidenceAuditRequest {
        manifest_path: request.manifest_path.clone(),
        evidence_path: request.output_path.clone(),
        expected_evidence_sha256: evidence_sha256.clone(),
        expected_asset_count: ASSET_COUNT as u64,
        expected_retired_replacement_count: RETIRED_REPLACEMENT_COUNT as u64,
        expected_reference_count: REFERENCE_COUNT as u64,
        expected_cohort_sha256: cohort_sha256.clone(),
    };
    let mut document = match draft_document(
        &gathered,
        &roots,
        &encodings.document.destination_json,
        &encodings.document.reference_json,
    ) {
        Ok(document) => document,
        Err(error) => {
            proof {
                let any: PreparedEvidence = arbitrary();
                let prepared = PreparedEvidence { gathered, ..any };
                assert(unfit(prepared, *request, *observed, error@));
            }
            return Err(error);
        },
    };
    document.migration_id = generated_migration_id(
        &manifest_target_sha256,
        &cloudkit_target_sha256,
    );
    document.cohort_sha256 = cohort_sha256;
    let prepared = PreparedEvidence {
        document,
        audit_request,
        manifest_target_sha256,
        cloudkit_target_sha256,
        gathered,
        checkpoint,
    };
    assert(documents(prepared.document, prepared.gathered@, *request, *observed));
    let none: Vec<OriginalDestinationCanonicalization> = Vec::new();
    assert(none@ =~= Seq::empty());
    match validate_document(
        &prepared.document,
        &encodings.document,
        &encodings.plan_inputs,
        &evidence_sha256,
        &prepared.audit_request,
        manifest,
        &none,
    ) {
        Err(error) => {
            assert(unfit(prepared, *request, *observed, error@));
            return Err(error);
        },
        Ok(_) => {},
    }
    match revalidate_generation_sources(
        &prepared.gathered,
        &prepared.checkpoint,
        &observed.again,
    ) {
        Err(error) => {
            assert(unfit(prepared, *request, *observed, error@));
            return Err(error);
        },
        Ok(()) => {},
    }
    Ok(prepared)
}

/// A state can be used exactly if it was opened, its checkpoint is a sound file, its manifest was
/// loaded, and the checkpoint is current.
pub proof fn usable_states_have_a_current_checkpoint(
    manifest_path: Seq<char>,
    state: StateObservation,
)
    ensures
        state_refusal(manifest_path, state) is None <==> {
            &&& state.opened
            &&& sealed::source_refusal(manifest_path, state.checkpoint) is None
            &&& state.manifest is Some
            &&& state.status is Current
        },
{
}

/// The sources of a document are as they were exactly if every file of every asset is, the checkpoint
/// is, the state did not change, and the checkpoint is still current.
pub proof fn sources_stay_as_they_were(
    gathered: Seq<GatheredAsset>,
    checkpoint: HeldGenerationSource,
    again: SourcesAgain,
)
    requires
        again.assets@.len() == gathered.len(),
    ensures
        sources_refusal(gathered, checkpoint, again) is None <==> {
            &&& forall|i: int|
                0 <= i < gathered.len() ==> files_unchanged(
                    (#[trigger] gathered[i]).held,
                    again.assets@[i],
                )
            &&& checkpoint.unchanged(again.checkpoint.0, again.checkpoint.1)
            &&& again.state_unchanged
            &&& again.status is Current
        },
{
    assert forall|i: int| 0 <= i < gathered.len() implies (files_unchanged(
        (#[trigger] gathered[i]).held,
        again.assets@[i],
    ) <==> gathered[i].held.unchanged(again.assets@[i])) by {}
}

/// Whether the original, the HEIC, the mirror and, where there is one, the reference of an asset are
/// all unchanged.
pub open spec fn files_unchanged(
    held: crate::gather::HeldGenerationAsset,
    again: AssetRereads,
) -> bool {
    &&& held.raw.unchanged(again.raw.0, again.raw.1)
    &&& held.final_heic.unchanged(again.final_heic.0, again.final_heic.1)
    &&& held.mirror.unchanged(again.mirror.0, again.mirror.1)
    &&& held.reference is Some ==> held.reference->0.unchanged(
        again.reference.0,
        again.reference.1,
    )
}

/// A cohort is gathered exactly if images get some time, the output has a safe place, the roots are
/// acceptable, the state can be used, exactly ten records are UploadVerified and untouched, and each
/// of them is gathered.
pub proof fn ten_verified_uploads_are_gathered(
    request: LegacyUploadEvidenceGenerateRequest,
    observed: GenerationObservation,
)
    ensures
        gathering_refusal(request, observed) is None <==> {
            let records = cohort::verified_records(observed.state.manifest->0.records@);
            &&& request.image_timeout_seconds > 0
            &&& path::safe_place(request.output_path@)
            &&& cohort::roots_acceptable(
                request.quarantine_roots@,
                observed.roots@,
                observed.euid,
            )
            &&& state_refusal(request.manifest_path@, observed.state) is None
            &&& records.len() == 10
            &&& forall|i: int|
                0 <= i < records.len() ==> (#[trigger] records[i]).journal is Absent
                    && !records[i].uploaded_heic_delete
            &&& cohort::gathering_refusal(records, observed.assets@, 0) is None
        },
{
}

/// The audit of new evidence asks for the very bytes and the very cohort, and for ten assets, two
/// retirements and five references.
pub proof fn new_evidence_is_audited_for_ten_two_and_five(
    audit: LegacyUploadEvidenceAuditRequest,
    request: LegacyUploadEvidenceGenerateRequest,
    encodings: GenerationEncodings,
)
    requires
        asks_for(audit, request, encodings),
    ensures
        audit.manifest_path@ == request.manifest_path@,
        audit.evidence_path@ == request.output_path@,
        audit.expected_evidence_sha256@ == digest::sha256_hex(encodings.evidence@),
        audit.expected_cohort_sha256@ == digest::sha256_hex(encodings.document.cohort_json@),
        audit.expected_asset_count == 10,
        audit.expected_retired_replacement_count == 2,
        audit.expected_reference_count == 5,
        crate::audit::request_refusal(audit) is None,
{
}

/// The id of a migration is the digest of the text that holds, between the name of the generator
/// and its end, the digests of the assets and of the retirements; its cohort is the digest of the
/// cohort's JSON.
pub proof fn migrations_are_named_by_their_targets(
    document: EvidenceDocument,
    gathered: Seq<GatheredAsset>,
    request: LegacyUploadEvidenceGenerateRequest,
    observed: GenerationObservation,
)
    requires
        documents(document, gathered, request, observed),
    ensures
        document.migration_id@ == digest::sha256_hex(
            encode_utf8(
                "[5,\"legacy-uploaded-heic-evidence-generator-v1\",\""@ + digest::sha256_hex(
                    observed.encodings.assets_json@,
                ) + "\",\""@ + digest::sha256_hex(observed.encodings.replacements_json@)
                    + "\"]"@,
            ),
        ),
        document.cohort_sha256@ == digest::sha256_hex(observed.encodings.document.cohort_json@),
        document.quarantine_roots@ == requested_roots(request, observed),
{
}

/// What keeps a state from being used is told by its name.
pub proof fn faults_of_a_state_are_named(
    manifest_path: Seq<char>,
    state: StateObservation,
)
    ensures
        ({
            let opened = state.opened;
            let checkpoint = sealed::source_refusal(manifest_path, state.checkpoint) is None;
            let loaded = state.manifest is Some;
            let readable = !(state.status is Unreadable);
            let current = !(state.status is Stale);
            let told = state_refusal(manifest_path, state);
            &&& !opened ==> told == Some("state_open"@)
            &&& opened && !checkpoint ==> told == Some("checkpoint_open"@)
            &&& opened && checkpoint && !loaded ==> told == Some("state_load"@)
            &&& opened && checkpoint && loaded && !readable ==> told == Some("checkpoint_read"@)
            &&& opened && checkpoint && loaded && readable && !current
                ==> told == Some("checkpoint_stale"@)
        }),
{
}

/// What changed while a document was made is told by its name.
pub proof fn faults_of_the_sources_are_named(
    gathered: Seq<GatheredAsset>,
    checkpoint: HeldGenerationSource,
    again: SourcesAgain,
)
    ensures
        ({
            let files = assets_unchanged(gathered, again.assets@)
                && checkpoint.unchanged(again.checkpoint.0, again.checkpoint.1);
            let state = again.state_unchanged;
            let current = again.status is Current;
            let told = sources_refusal(gathered, checkpoint, again);
            &&& !files ==> told == Some("source_changed"@)
            &&& files && !state ==> told == Some("state_changed"@)
            &&& files && state && !current ==> told == Some("checkpoint_changed"@)
        }),
{
}

/// What keeps a cohort from being gathered is told by its name.
pub proof fn faults_of_a_cohort_are_named(
    request: LegacyUploadEvidenceGenerateRequest,
    observed: GenerationObservation,
)
    ensures
        ({
            let state = state_refusal(request.manifest_path@, observed.state);
            let records = cohort::verified_records(observed.state.manifest->0.records@);
            let gathered = cohort::gathering_refusal(records, observed.assets@, 0);
            let asked = request.image_timeout_seconds > 0 && path::safe_place(request.output_path@);
            let rooted = cohort::roots_acceptable(
                request.quarantine_roots@,
                observed.roots@,
                observed.euid,
            );
            let usable = state is None;
            let eligible = cohort::cohort_eligible(records);
            let taken = gathered is None;
            let told = gathering_refusal(request, observed);
            &&& !asked ==> told == Some("generator_request"@)
            &&& asked && !rooted ==> told == Some("quarantine_roots"@)
            &&& asked && rooted && !usable ==> told == state
            &&& asked && rooted && usable && !eligible ==> told == Some("asset_count"@)
            &&& asked && rooted && usable && eligible && !taken ==> told == gathered
        }),
{
}

/// A new document is written exactly if it is accepted and its sources stayed as they were; it is
/// refused as a document first.
pub proof fn new_documents_are_accepted_before_they_are_written(
    document: EvidenceDocument,
    gathered: Seq<GatheredAsset>,
    audit: LegacyUploadEvidenceAuditRequest,
    checkpoint: HeldGenerationSource,
    observed: GenerationObservation,
)
    ensures
        ({
            let valid = validation::document_refusal(
                document,
                observed.encodings.document,
                observed.encodings.plan_inputs,
                audit,
                observed.state.manifest->0,
                Seq::empty(),
            );
            let changed = sources_refusal(gathered, checkpoint, observed.again);
            let told = writing_refusal(document, gathered, audit, checkpoint, observed);
            &&& told is None <==> valid is None && changed is None
            &&& valid is Some ==> told == valid
            &&& valid is None ==> told == changed
        }),
{
}

/// Prepared evidence holds the document that was drafted of what was gathered, with the roots that
/// were named in ascending order of their devices, and the checkpoint and targets that go with it.
pub proof fn prepared_evidence_holds_what_was_gathered(
    prepared: PreparedEvidence,
    request: LegacyUploadEvidenceGenerateRequest,
    observed: GenerationObservation,
)
    requires
        prepares(prepared, request, observed),
    ensures
        gathering_refusal(request, observed) is None,
        drafting_refusal(prepared.gathered@, request, observed) is None,
        writing_refusal(
            prepared.document,
            prepared.gathered@,
            prepared.audit_request,
            prepared.checkpoint,
            observed,
        ) is None,
        prepared.gathered@.len() == 10,
        prepared.document.assets@.len() == 10,
        prepared.document.retired_replacements@.len() == 2,
        prepared.document.reference_normalizations@.len() == 5,
        prepared.document.quarantine_roots@ == requested_roots(request, observed),
        prepared.checkpoint.path@ == request.manifest_path@,
        prepared.checkpoint.metadata == observed.state.checkpoint->Read_0,
        prepared.checkpoint.sha256@ == digest::sha256_hex(observed.state.checkpoint->Read_1@),
        prepared.manifest_target_sha256@ == digest::sha256_hex(observed.encodings.assets_json@),
        prepared.cloudkit_target_sha256@ == digest::sha256_hex(
            observed.encodings.replacements_json@,
        ),
        prepared.audit_request.expected_evidence_sha256@ == digest::sha256_hex(
            observed.encodings.evidence@,
        ),
        forall|i: int|
            0 <= i < 10 ==> crate::gather::gathers(
                #[trigger] prepared.gathered@[i],
                cohort::verified_records(observed.state.manifest->0.records@)[i],
                i,
                observed.assets@[i],
            ),
{
}

} // verus!
