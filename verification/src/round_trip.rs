use vstd::prelude::*;
use vstd::string::*;

use crate::audit;
use crate::cohort;
use crate::document;
use crate::document::{
    EvidenceReferenceNormalization, EvidenceRetiredReplacement, MAX_EVIDENCE_BYTES,
    REFERENCE_COUNT, RETIRED_REPLACEMENT_COUNT,
};
use crate::gather;
use crate::gather::{AssetObservation, GatheredAsset};
use crate::generate;
use crate::generate::{
    GenerationObservation, LegacyUploadEvidenceGenerateRequest, PreparedEvidence,
};
use crate::load;
use crate::load::{AuditObservation, EvidenceObservation, StateRead};
use crate::manifest;
use crate::manifest::AssetRecord;
use crate::output;
use crate::phase::LegacyUploadMigrationPhase;
use crate::plan;
use crate::sealed;
use crate::sealed::SourceRead;

verus! {

/// The reference of a place in the document is read just as it was when evidence was gathered.
pub open spec fn reference_read_again(
    assets: Seq<AssetObservation>,
    reads: Seq<SourceRead>,
    k: int,
) -> bool {
    sealed::read_at(reads, k) == assets[document::reference_asset_index(k)].reference
}

/// Prepared evidence is read back just as it was prepared: the same bytes, of a file that is its
/// owner's alone, which decode to the same document, beside the same state and the same references.
pub open spec fn read_back(
    prepared: PreparedEvidence,
    observed: GenerationObservation,
    evidence: EvidenceObservation,
    again: AuditObservation,
) -> bool {
    &&& evidence.read matches SourceRead::Read(metadata, content) && metadata.owner_only(again.euid)
        && content@ == observed.encodings.evidence@ && content@.len() <= MAX_EVIDENCE_BYTES
    &&& evidence.document == Some(prepared.document)
    &&& evidence.state == StateRead::Loaded(observed.state.manifest->0)
    &&& again.encodings == observed.encodings.document
    &&& again.plan_inputs == observed.encodings.plan_inputs
    &&& again.operational_plan_inputs == observed.encodings.plan_inputs
    &&& again.state_unchanged
    &&& load::same_again(evidence.read, again.again)
    &&& forall|k: int|
        #![trigger reference_read_again(observed.assets@, again.references@, k)]
        0 <= k < REFERENCE_COUNT ==> {
            &&& reference_read_again(observed.assets@, again.references@, k)
            &&& reference_read_again(observed.assets@, again.references_held@, k)
            &&& reference_read_again(observed.assets@, again.references_named@, k)
        }
}

proof fn verified_records_are_recorded(records: Seq<AssetRecord>, i: int) -> (k: int)
    requires
        0 <= i < cohort::verified_records(records).len(),
    ensures
        0 <= k < records.len(),
        records[k] == cohort::verified_records(records)[i],
    decreases records.len(),
{
    let front = cohort::verified_records(records.drop_last());
    if i < front.len() {
        verified_records_are_recorded(records.drop_last(), i)
    } else {
        records.len() - 1
    }
}

/// The references of gathered evidence are those of the assets that have one.
proof fn references_of_gathered_assets(
    gathered: Seq<GatheredAsset>,
    records: Seq<AssetRecord>,
    observed: Seq<AssetObservation>,
    k: int,
)
    requires
        cohort::gathers_cohort(gathered, records, observed),
        gathered.len() == document::ASSET_COUNT,
        0 <= k < REFERENCE_COUNT,
    ensures
        cohort::gathered_references(gathered).len() == REFERENCE_COUNT,
        gathered[document::reference_asset_index(k)].reference == Some(
            cohort::gathered_references(gathered)[k],
        ),
{
    assert forall|i: int| 0 <= i < gathered.len() implies ((#[trigger] gathered[i]).reference is Some
        <==> gather::reference_of_asset(i) is Some) by {
        assert(gather::gathers(gathered[i], records[i], i, observed[i]));
    }
    reveal_with_fuel(cohort::gathered_references, 11);
    let g9 = gathered.drop_last();
    let g8 = g9.drop_last();
    let g7 = g8.drop_last();
    let g6 = g7.drop_last();
    let g5 = g6.drop_last();
    let g4 = g5.drop_last();
    let g3 = g4.drop_last();
    let g2 = g3.drop_last();
    let g1 = g2.drop_last();
    let g0 = g1.drop_last();
    assert(g0.len() == 0);
    assert(cohort::gathered_references(g0) =~= Seq::empty());
    assert(g1.last() == gathered[0] && g2.last() == gathered[1]);
    assert(cohort::gathered_references(g2) =~= Seq::empty());
    assert(g3.last() == gathered[2] && g4.last() == gathered[3]);
    assert(cohort::gathered_references(g4) =~= seq![
        gathered[2].reference->0,
        gathered[3].reference->0,
    ]);
    assert(g5.last() == gathered[4] && g6.last() == gathered[5] && g7.last() == gathered[6]);
    assert(cohort::gathered_references(g7) =~= cohort::gathered_references(g4));
    assert(g8.last() == gathered[7] && g9.last() == gathered[8] && gathered.last() == gathered[9]);
    assert(cohort::gathered_references(gathered) =~= seq![
        gathered[2].reference->0,
        gathered[3].reference->0,
        gathered[7].reference->0,
        gathered[8].reference->0,
        gathered[9].reference->0,
    ]);
}

proof fn accepted_references_open(
    references: Seq<EvidenceReferenceNormalization>,
    reads: Seq<SourceRead>,
    from: int,
)
    requires
        0 <= from,
        forall|k: int|
            from <= k < references.len() ==> sealed::reference_open_refusal(
                #[trigger] references[k],
                sealed::read_at(reads, k),
            ) is None,
    ensures
        sealed::references_open_refusal(references, reads, from) is None,
    decreases references.len() - from,
{
    if from < references.len() {
        assert(sealed::reference_open_refusal(
            references[from],
            sealed::read_at(reads, from),
        ) is None);
        accepted_references_open(references, reads, from + 1);
    }
}

proof fn same_references_pass_again(
    reads: Seq<SourceRead>,
    held: Seq<SourceRead>,
    named: Seq<SourceRead>,
    n: nat,
    from: int,
)
    requires
        0 <= from,
        forall|k: int|
            from <= k < n ==> {
                &&& #[trigger] sealed::read_at(reads, k) is Read
                &&& sealed::read_at(held, k) == sealed::read_at(reads, k)
                &&& sealed::read_at(named, k) == sealed::read_at(reads, k)
            },
    ensures
        sealed::references_reread_refusal(sealed::read_memories(reads, n), held, named, from)
            is None,
    decreases n - from,
{
    if from < n {
        assert(sealed::read_at(reads, from) is Read);
        same_references_pass_again(reads, held, named, n, from + 1);
    }
}

/// The cohort of evidence that was just prepared has not begun to migrate.
pub proof fn prepared_cohorts_are_untouched(
    prepared: PreparedEvidence,
    request: LegacyUploadEvidenceGenerateRequest,
    observed: GenerationObservation,
    k: int,
)
    requires
        generate::prepares(prepared, request, observed),
        observed.state.manifest->0.well_formed(),
        0 <= k < prepared.document.retired_replacements@.len(),
    ensures
        plan::replacement_phase(
            observed.state.manifest->0,
            prepared.document.retired_replacements@[k].asset_id@,
        ) == Ok::<Option<LegacyUploadMigrationPhase>, Seq<char>>(None),
{
    let manifest = observed.state.manifest->0;
    let records = cohort::verified_records(manifest.records@);
    let gathered = prepared.gathered@;
    let i = cohort::retirements_come_from_assets(gathered, k);
    assert(gather::gathers(gathered[i], records[i], i, observed.assets@[i]));
    let at = verified_records_are_recorded(manifest.records@, i);
    manifest::every_record_is_found(manifest, at, 0);
    let retired = prepared.document.retired_replacements@[k];
    assert(retired == (EvidenceRetiredReplacement {
        destination_sha256: retired.destination_sha256,
        ..cohort::gathered_replacements(gathered)[k]
    }));
    assert(records[i].journal is Absent);
}

/// Evidence that was prepared, written out and read back unchanged passes its own audit, where it
/// is not too large to be read.
pub proof fn generated_evidence_passes_its_audit(
    prepared: PreparedEvidence,
    request: LegacyUploadEvidenceGenerateRequest,
    observed: GenerationObservation,
    evidence: EvidenceObservation,
    again: AuditObservation,
)
    requires
        generate::prepares(prepared, request, observed),
        observed.state.manifest->0.well_formed(),
        read_back(prepared, observed, evidence, again),
    ensures
        output::audited_refusal(prepared.audit_request, evidence, again) is None,
{
    let manifest = observed.state.manifest->0;
    let records = cohort::verified_records(manifest.records@);
    let gathered = prepared.gathered@;
    let document = prepared.document;
    let references = document.reference_normalizations@;
    assert(document.retired_replacements@.len() == RETIRED_REPLACEMENT_COUNT);
    prepared_cohorts_are_untouched(prepared, request, observed, 0);
    prepared_cohorts_are_untouched(prepared, request, observed, 1);
    assert(audit::request_refusal(prepared.audit_request) is None);
    assert(load::loading_refusal(prepared.audit_request, evidence, again.euid) is None);

    assert forall|k: int| 0 <= k < references.len() implies {
        &&& sealed::reference_open_refusal(
            #[trigger] references[k],
            sealed::read_at(again.references@, k),
        ) is None
        &&& sealed::read_at(again.references@, k) is Read
        &&& sealed::read_at(again.references_held@, k) == sealed::read_at(again.references@, k)
        &&& sealed::read_at(again.references_named@, k) == sealed::read_at(again.references@, k)
    } by {
        references_of_gathered_assets(gathered, records, observed.assets@, k);
        let i = document::reference_asset_index(k);
        assert(gather::gathers(gathered[i], records[i], i, observed.assets@[i]));
        cohort::gathered_assets_were_accepted(records, observed.assets@, 0, i);
        assert(references[k] == (EvidenceReferenceNormalization {
            reference_identity_sha256: references[k].reference_identity_sha256,
            ..cohort::gathered_references(gathered)[k]
        }));
        assert(reference_read_again(observed.assets@, again.references@, k));
    }
    accepted_references_open(references, again.references@, 0);
    assert forall|k: int| 0 <= k < references.len() implies {
        &&& #[trigger] sealed::read_at(again.references@, k) is Read
        &&& sealed::read_at(again.references_held@, k) == sealed::read_at(again.references@, k)
        &&& sealed::read_at(again.references_named@, k) == sealed::read_at(again.references@, k)
    } by {
        assert(sealed::reference_open_refusal(
            references[k],
            sealed::read_at(again.references@, k),
        ) is None);
    }
    same_references_pass_again(
        again.references@,
        again.references_held@,
        again.references_named@,
        references.len(),
        0,
    );
}

} // verus!
