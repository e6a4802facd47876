use vstd::prelude::*;
use vstd::string::*;

use crate::canonicalization;
use crate::canonicalization::{
    validate_recovery_canonicalization_set, OriginalDestinationCanonicalization,
};
use crate::digest;
use crate::digest::sha256_bytes;
use crate::document::{EvidenceDocument, EvidenceRetiredReplacement, RETIRED_REPLACEMENT_COUNT};
use crate::error;
use crate::error::{failure, LegacyUploadEvidenceError, Outcome};
use crate::identity;
use crate::identity::is_digest;
use crate::manifest;
use crate::manifest::{LegacyUploadMigrationEntry, Manifest};
use crate::order;
use crate::order::stable_sort;
use crate::phase::LegacyUploadMigrationPhase;
use crate::plan;
use crate::plan::coherent_retired_replacement_phase;
use crate::recovery;
use crate::recovery::{
    operational_document_for_device_recovery_with_mode, DeviceRecoveryJournalAnchor,
    DeviceRecoveryReceiptBody, OperationalObservation, DEVICE_RECOVERY_SCHEMA_VERSION,
};
use crate::signer;
use crate::signer::{current_recovery_signer, DeviceRecoverySigner, ExecutableObservation};
use crate::text;
use crate::text::{same_text, text_before};

verus! {

/// The place of the last entry of a phase, among the first ones.
pub open spec fn last_entry(
    entries: Seq<LegacyUploadMigrationEntry>,
    phase: LegacyUploadMigrationPhase,
    n: int,
) -> Option<int>
    decreases n,
{
    if n <= 0 || n > entries.len() {
        None
    } else if entries[n - 1].phase == phase {
        Some(n - 1)
    } else {
        last_entry(entries, phase, n - 1)
    }
}

fn last_entry_of(
    entries: &Vec<LegacyUploadMigrationEntry>,
    phase: LegacyUploadMigrationPhase,
) -> (r: Option<usize>)
    ensures
        match r {
            Some(i) => i < entries@.len() && last_entry(
                entries@,
                phase,
                entries@.len() as int,
            ) == Some(i as int),
            None => last_entry(entries@, phase, entries@.len() as int) is None,
        },
{
    let mut n: usize = entries.len();
    while n > 0
        invariant
            n <= entries@.len(),
            last_entry(entries@, phase, entries@.len() as int) == last_entry(
                entries@,
                phase,
                n as int,
            ),
        decreases n,
    {
        if entries[n - 1].phase == phase {
            return Some(n - 1);
        }
        n -= 1;
    }
    None
}

/// Where the journal of one replacement confirms its delete.
pub open spec fn replacement_anchor(
    replacement: EvidenceRetiredReplacement,
    manifest: Manifest,
) -> Outcome<DeviceRecoveryJournalAnchor> {
    match manifest.record(replacement.asset_id@) {
        None => Err("recovery_journal"@),
        Some(record) => match record.valid_journal() {
            None => Err("recovery_journal"@),
            Some(journal) => match last_entry(
                journal.entries@,
                LegacyUploadMigrationPhase::DeleteConfirmed,
                journal.entries@.len() as int,
            ) {
                None => Err("recovery_phase"@),
                Some(i) => Ok(
                    DeviceRecoveryJournalAnchor {
                        asset_id: replacement.asset_id,
                        entry_count: (i + 1) as u64,
                        delete_confirmed_entry_sha256: journal.entries@[i].entry_sha256,
                    },
                ),
            },
        },
    }
}

/// Where the journals of the replacements confirm their deletes, in the order of the document.
pub open spec fn anchors_from(
    replacements: Seq<EvidenceRetiredReplacement>,
    manifest: Manifest,
) -> Outcome<Seq<DeviceRecoveryJournalAnchor>>
    decreases replacements.len(),
{
    if replacements.len() == 0 {
        Ok(Seq::empty())
    } else {
        match anchors_from(replacements.drop_last(), manifest) {
            Err(category) => Err(category),
            Ok(anchors) => match replacement_anchor(replacements.last(), manifest) {
                Err(category) => Err(category),
                Ok(anchor) => Ok(anchors.push(anchor)),
            },
        }
    }
}

proof fn anchors_refused_early(
    replacements: Seq<EvidenceRetiredReplacement>,
    manifest: Manifest,
    n: int,
)
    requires
        0 <= n <= replacements.len(),
    ensures
        anchors_from(replacements.take(n), manifest) matches Err(category) ==> anchors_from(
            replacements,
            manifest,
        ) == Err::<Seq<DeviceRecoveryJournalAnchor>, Seq<char>>(category),
    decreases replacements.len() - n,
{
    if n == replacements.len() {
        assert(replacements.take(n) =~= replacements);
    } else {
        assert(replacements.take(n + 1).drop_last() =~= replacements.take(n));
        anchors_refused_early(replacements, manifest, n + 1);
    }
}

/// Where the journals of the replacements confirm their deletes, in ascending order of the assets.
pub fn device_recovery_journal_anchors(document: &EvidenceDocument, manifest: &Manifest) -> (r:
    Result<Vec<DeviceRecoveryJournalAnchor>, LegacyUploadEvidenceError>)
    ensures
        match anchors_from(document.retired_replacements@, *manifest) {
            Ok(anchors) => r is Ok && r->Ok_0@ == order::sorted(anchors),
            Err(category) => r is Err && r->Err_0@ == category,
        },
{
    let replacements = &document.retired_replacements;
    let mut anchors: Vec<DeviceRecoveryJournalAnchor> = Vec::new();
    let mut i: usize = 0;
    assert(replacements@.take(0) =~= Seq::empty());
    while i < replacements.len()
        invariant
            i <= replacements@.len(),
            replacements@ == document.retired_replacements@,
            anchors_from(replacements@.take(i as int), *manifest) == Ok::<
                Seq<DeviceRecoveryJournalAnchor>,
                Seq<char>,
            >(anchors@),
        decreases replacements@.len() - i,
    {
        let replacement = &replacements[i];
        proof {
            assert(replacements@.take(i + 1).drop_last() =~= replacements@.take(i as int));
            assert(replacements@.take(i + 1).last() == *replacement);
            anchors_refused_early(replacements@, *manifest, i + 1);
        }
        let journal = match manifest.get(&replacement.asset_id) {
            None => {
                return Err(failure("recovery_journal"));
            },
            Some(record) => match record.journal_of() {
                None => {
                    return Err(failure("recovery_journal"));
                },
                Some(journal) => journal,
            },
        };
        match last_entry_of(&journal.entries, LegacyUploadMigrationPhase::DeleteConfirmed) {
            None => {
                return Err(failure("recovery_phase"));
            },
            Some(index) => {
                let total: usize = journal.entries.len();
                assert(index < total);
                anchors.push(
                    DeviceRecoveryJournalAnchor {
                        asset_id: replacement.asset_id.clone(),
                        entry_count: index as u64 + 1,
                        delete_confirmed_entry_sha256: journal.entries[index].entry_sha256.clone(),
                    },
                );
            },
        }
        i += 1;
    }
    assert(replacements@.take(replacements@.len() as int) =~= replacements@);
    Ok(stable_sort(anchors))
}

/// What the running process is: the program that runs, and the user it runs for.
#[derive(Debug, PartialEq, Eq)]
pub struct ProcessObservation {
    /// The path of the running program, if the program knows it.
    pub executable: Option<String>,
    pub observed: ExecutableObservation,
    pub euid: u32,
}

impl ProcessObservation {
    /// The signer that the running program makes.
    pub open spec fn signer(self) -> Outcome<(Seq<char>, Seq<char>)> {
        signer::running_signer(manifest::optional_text(self.executable), self.observed, self.euid)
    }

    /// The signer that the running program makes.
    pub fn current_signer(&self) -> (r: Result<DeviceRecoverySigner, LegacyUploadEvidenceError>)
        ensures
            signer::signed_as(r, self.signer()),
    {
        current_recovery_signer(&self.executable, &self.observed, self.euid)
    }
}

/// The category under which a receipt is refused once the operational document stands.
pub open spec fn body_refusal(
    document: EvidenceDocument,
    manifest: Manifest,
    expected_requirement_sha256: Seq<char>,
    process: ProcessObservation,
) -> Option<Seq<char>> {
    let signer = process.signer();
    let anchors = anchors_from(document.retired_replacements@, manifest);
    if !identity::digest_text(expected_requirement_sha256) {
        Some("recovery_signer_expected"@)
    } else if signer is Err {
        Some(signer->Err_0)
    } else if signer->Ok_0.1 != expected_requirement_sha256 {
        Some("recovery_signer_mismatch"@)
    } else if anchors is Err {
        Some(anchors->Err_0)
    } else {
        None
    }
}

/// A receipt states the cohort as it stands, for the program that runs.
pub open spec fn body_states(
    body: DeviceRecoveryReceiptBody,
    document: EvidenceDocument,
    manifest: Manifest,
    evidence_sha256: Seq<char>,
    canonicalizations: Seq<OriginalDestinationCanonicalization>,
    signer: (Seq<char>, Seq<char>),
) -> bool {
    &&& body.schema_version == DEVICE_RECOVERY_SCHEMA_VERSION
    &&& body.evidence_sha256@ == evidence_sha256
    &&& body.cohort_sha256@ == document.cohort_sha256@
    &&& body.authoritative_manifest_sha256@ == digest::sha256_hex(manifest.json@)
    &&& body.checkpoint_current
    &&& body.migration_phase@ == LegacyUploadMigrationPhase::DeleteConfirmed.name()
    &&& anchors_from(document.retired_replacements@, manifest) matches Ok(anchors)
        && body.journal_anchors@ == order::sorted(anchors)
    &&& body.original_destination_canonicalizations@ == canonicalizations
    &&& body.raw_input_count == document.raw_inputs@.len()
    &&& body.quarantine_member_count == document.quarantine_members@.len()
    &&& body.reference_count == document.reference_normalizations@.len()
    &&& body.signer.executable_sha256@ == signer.0
    &&& body.signer.designated_requirement_sha256@ == signer.1
}

/// What a receipt for the cohort states, for the program that runs, and the operational document
/// that goes with it.
pub fn device_recovery_receipt_body(
    document: &EvidenceDocument,
    manifest: &Manifest,
    evidence_sha256: &str,
    expected_signer_designated_requirement_sha256: &str,
    allow_partial_quarantine: bool,
    original_destination_canonicalizations: Vec<OriginalDestinationCanonicalization>,
    observed: &OperationalObservation,
    process: &ProcessObservation,
) -> (r: Result<(DeviceRecoveryReceiptBody, EvidenceDocument), LegacyUploadEvidenceError>)
    requires
        document.retired_replacements@.len() >= RETIRED_REPLACEMENT_COUNT,
    ensures
        match r {
            Ok((body, operational)) => {
                &&& recovery::recovery_refusal(
                    *document,
                    *manifest,
                    allow_partial_quarantine,
                    *observed,
                ) is None
                &&& recovery::operational_refusal(
                    operational,
                    *manifest,
                    allow_partial_quarantine,
                    *observed,
                    process.euid,
                ) is None
                &&& recovery::operational_form(
                    operational,
                    *document,
                    recovery::observed_pairs(document.quarantine_roots@, observed.roots@),
                )
                &&& body_refusal(
                    *document,
                    *manifest,
                    expected_signer_designated_requirement_sha256@,
                    *process,
                ) is None
                &&& recovery::maps_roots(
                    body.mappings@,
                    document.quarantine_roots@,
                    observed.roots@,
                    observed.root_path_json@,
                )
                &&& process.signer() matches Ok(signer) && body_states(
                    body,
                    *document,
                    *manifest,
                    evidence_sha256@,
                    original_destination_canonicalizations@,
                    signer,
                )
            },
            Err(error) => match recovery::recovery_refusal(
                *document,
                *manifest,
                allow_partial_quarantine,
                *observed,
            ) {
                Some(category) => error@ == category,
                None => exists|operational: EvidenceDocument|
                    recovery::operational_form(
                        operational,
                        *document,
                        recovery::observed_pairs(document.quarantine_roots@, observed.roots@),
                    ) && match #[trigger] recovery::operational_refusal(
                        operational,
                        *manifest,
                        allow_partial_quarantine,
                        *observed,
                        process.euid,
                    ) {
                        Some(category) => error@ == category,
                        None => body_refusal(
                            *document,
                            *manifest,
                            expected_signer_designated_requirement_sha256@,
                            *process,
                        ) == Some(error@),
                    },
            },
        },
{
    let (operational, mappings) = match operational_document_for_device_recovery_with_mode(
        document,
        manifest,
        allow_partial_quarantine,
        observed,
        process.euid,
    ) {
        Err(error) => {
            return Err(error);
        },
        Ok(found) => found,
    };
    assert(recovery::operational_refusal(
        operational,
        *manifest,
        allow_partial_quarantine,
        *observed,
        process.euid,
    ) is None);
    if !is_digest(expected_signer_designated_requirement_sha256) {
        return Err(failure("recovery_signer_expected"));
    }
    let signer = match process.current_signer() {
        Err(error) => {
            return Err(error);
        },
        Ok(signer) => signer,
    };
    if !same_text(
        &signer.designated_requirement_sha256,
        expected_signer_designated_requirement_sha256,
    ) {
        return Err(failure("recovery_signer_mismatch"));
    }
    let journal_anchors = match device_recovery_journal_anchors(document, manifest) {
        Err(error) => {
            return Err(error);
        },
        Ok(journal_anchors) => journal_anchors,
    };
    let body = DeviceRecoveryReceiptBody {
        schema_version: DEVICE_RECOVERY_SCHEMA_VERSION,
        evidence_sha256: evidence_sha256.to_owned(),
        cohort_sha256: document.cohort_sha256.clone(),
        authoritative_manifest_sha256: sha256_bytes(&manifest.json),
        checkpoint_current: true,
        migration_phase: LegacyUploadMigrationPhase::DeleteConfirmed.as_str().to_owned(),
        mappings,
        journal_anchors,
        original_destination_canonicalizations,
        raw_input_count: operational.raw_inputs.len() as u64,
        quarantine_member_count: operational.quarantine_members.len() as u64,
        reference_count: operational.reference_normalizations.len() as u64,
        signer,
    };
    Ok((body, operational))
}

/// A receipt states the very evidence and cohort, in full, and its anchors are in strictly
/// ascending order of their assets.
pub open spec fn statement_current(
    body: DeviceRecoveryReceiptBody,
    document: EvidenceDocument,
    evidence_sha256: Seq<char>,
) -> bool {
    &&& body.schema_version == DEVICE_RECOVERY_SCHEMA_VERSION
    &&& body.evidence_sha256@ == evidence_sha256
    &&& body.cohort_sha256@ == document.cohort_sha256@
    &&& body.checkpoint_current
    &&& body.migration_phase@ == LegacyUploadMigrationPhase::DeleteConfirmed.name()
    &&& body.raw_input_count == document.raw_inputs@.len()
    &&& body.quarantine_member_count == document.quarantine_members@.len()
    &&& body.reference_count == document.reference_normalizations@.len()
    &&& body.journal_anchors@.len() == RETIRED_REPLACEMENT_COUNT
    &&& text::before(body.journal_anchors@[0].asset_id@, body.journal_anchors@[1].asset_id@)
}

pub(crate) fn is_statement_current(
    body: &DeviceRecoveryReceiptBody,
    document: &EvidenceDocument,
    evidence_sha256: &str,
) -> (r: bool)
    ensures
        r == statement_current(*body, *document, evidence_sha256@),
{
    body.schema_version == DEVICE_RECOVERY_SCHEMA_VERSION && same_text(
        &body.evidence_sha256,
        evidence_sha256,
    ) && same_text(&body.cohort_sha256, &document.cohort_sha256) && body.checkpoint_current
        && same_text(
        &body.migration_phase,
        LegacyUploadMigrationPhase::DeleteConfirmed.as_str(),
    ) && body.raw_input_count == document.raw_inputs.len() as u64 && body.quarantine_member_count
        == document.quarantine_members.len() as u64 && body.reference_count
        == document.reference_normalizations.len() as u64 && body.journal_anchors.len()
        == RETIRED_REPLACEMENT_COUNT && text_before(
        &body.journal_anchors[0].asset_id,
        &body.journal_anchors[1].asset_id,
    )
}

/// The first anchor of an asset, from the given place on.
pub open spec fn find_anchor(
    anchors: Seq<DeviceRecoveryJournalAnchor>,
    id: Seq<char>,
    from: int,
) -> Option<DeviceRecoveryJournalAnchor>
    decreases anchors.len() - from,
{
    if from < 0 || from >= anchors.len() {
        None
    } else if anchors[from].asset_id@ == id {
        Some(anchors[from])
    } else {
        find_anchor(anchors, id, from + 1)
    }
}

fn anchor_of<'a>(anchors: &'a Vec<DeviceRecoveryJournalAnchor>, id: &str) -> (r: Option<
    &'a DeviceRecoveryJournalAnchor,
>)
    ensures
        match r {
            Some(anchor) => find_anchor(anchors@, id@, 0) == Some(*anchor),
            None => find_anchor(anchors@, id@, 0) is None,
        },
{
    let mut i: usize = 0;
    while i < anchors.len()
        invariant
            i <= anchors@.len(),
            find_anchor(anchors@, id@, 0) == find_anchor(anchors@, id@, i as int),
        decreases anchors@.len() - i,
    {
        if same_text(&anchors[i].asset_id, id) {
            return Some(&anchors[i]);
        }
        i += 1;
    }
    None
}

/// The journal of a replacement still confirms its delete where its anchor says.
pub open spec fn anchored(
    replacement: EvidenceRetiredReplacement,
    manifest: Manifest,
    anchors: Seq<DeviceRecoveryJournalAnchor>,
) -> bool {
    &&& find_anchor(anchors, replacement.asset_id@, 0) matches Some(anchor)
    &&& manifest.record(replacement.asset_id@) matches Some(record)
    &&& record.valid_journal() matches Some(journal)
    &&& 1 <= anchor.entry_count <= journal.entries@.len()
    &&& journal.entries@[anchor.entry_count - 1].phase
        == LegacyUploadMigrationPhase::DeleteConfirmed
    &&& journal.entries@[anchor.entry_count - 1].entry_sha256@
        == anchor.delete_confirmed_entry_sha256@
}

/// The journals of all replacements still confirm their deletes where their anchors say.
pub open spec fn all_anchored(
    replacements: Seq<EvidenceRetiredReplacement>,
    manifest: Manifest,
    anchors: Seq<DeviceRecoveryJournalAnchor>,
) -> bool {
    forall|i: int|
        0 <= i < replacements.len() ==> anchored(#[trigger] replacements[i], manifest, anchors)
}

fn is_anchored(
    replacement: &EvidenceRetiredReplacement,
    manifest: &Manifest,
    anchors: &Vec<DeviceRecoveryJournalAnchor>,
) -> (r: bool)
    ensures
        r == anchored(*replacement, *manifest, anchors@),
{
    let anchor = match anchor_of(anchors, &replacement.asset_id) {
        None => {
            return false;
        },
        Some(anchor) => anchor,
    };
    let journal = match manifest.get(&replacement.asset_id) {
        None => {
            return false;
        },
        Some(record) => match record.journal_of() {
            None => {
                return false;
            },
            Some(journal) => journal,
        },
    };
    if anchor.entry_count == 0 || anchor.entry_count > journal.entries.len() as u64 {
        return false;
    }
    let entry = &journal.entries[(anchor.entry_count - 1) as usize];
    entry.phase == LegacyUploadMigrationPhase::DeleteConfirmed && same_text(
        &entry.entry_sha256,
        &anchor.delete_confirmed_entry_sha256,
    )
}

fn are_all_anchored(
    replacements: &Vec<EvidenceRetiredReplacement>,
    manifest: &Manifest,
    anchors: &Vec<DeviceRecoveryJournalAnchor>,
) -> (r: bool)
    ensures
        r == all_anchored(replacements@, *manifest, anchors@),
{
    let mut i: usize = 0;
    while i < replacements.len()
        invariant
            i <= replacements@.len(),
            forall|k: int|
                0 <= k < i ==> anchored(#[trigger] replacements@[k], *manifest, anchors@),
        decreases replacements@.len() - i,
    {
        if !is_anchored(&replacements[i], manifest, anchors) {
            return false;
        }
        i += 1;
    }
    true
}

/// A canonicalization is sealed by the very entry that an anchor names.
pub open spec fn entry_anchored(
    entry: OriginalDestinationCanonicalization,
    anchors: Seq<DeviceRecoveryJournalAnchor>,
) -> bool {
    exists|i: int|
        0 <= i < anchors.len() && (#[trigger] anchors[i]).asset_id@ == entry.asset_id@
            && anchors[i].delete_confirmed_entry_sha256@ == entry.delete_confirmed_entry_sha256@
}

/// All canonicalizations are sealed by entries that anchors name.
pub open spec fn entries_anchored(
    entries: Seq<OriginalDestinationCanonicalization>,
    anchors: Seq<DeviceRecoveryJournalAnchor>,
) -> bool {
    forall|i: int| 0 <= i < entries.len() ==> entry_anchored(#[trigger] entries[i], anchors)
}

fn is_entry_anchored(
    entry: &OriginalDestinationCanonicalization,
    anchors: &Vec<DeviceRecoveryJournalAnchor>,
) -> (r: bool)
    ensures
        r == entry_anchored(*entry, anchors@),
{
    let mut i: usize = 0;
    while i < anchors.len()
        invariant
            i <= anchors@.len(),
            forall|k: int|
                0 <= k < i ==> !((#[trigger] anchors@[k]).asset_id@ == entry.asset_id@
                    && anchors@[k].delete_confirmed_entry_sha256@
                    == entry.delete_confirmed_entry_sha256@),
        decreases anchors@.len() - i,
    {
        if same_text(&anchors[i].asset_id, &entry.asset_id) && same_text(
            &anchors[i].delete_confirmed_entry_sha256,
            &entry.delete_confirmed_entry_sha256,
        ) {
            return true;
        }
        i += 1;
    }
    false
}

fn are_entries_anchored(
    entries: &Vec<OriginalDestinationCanonicalization>,
    anchors: &Vec<DeviceRecoveryJournalAnchor>,
) -> (r: bool)
    ensures
        r == entries_anchored(entries@, anchors@),
{
    let mut i: usize = 0;
    while i < entries.len()
        invariant
            i <= entries@.len(),
            forall|k: int| 0 <= k < i ==> entry_anchored(#[trigger] entries@[k], anchors@),
        decreases entries@.len() - i,
    {
        if !is_entry_anchored(&entries[i], anchors) {
            return false;
        }
        i += 1;
    }
    true
}

/// The category under which a receipt is refused as no longer continuing the cohort, or nothing.
pub open spec fn continuity_refusal(
    body: DeviceRecoveryReceiptBody,
    document: EvidenceDocument,
    manifest: Manifest,
    evidence_sha256: Seq<char>,
    signer: (Seq<char>, Seq<char>),
) -> Option<Seq<char>> {
    let phase = plan::cohort_phase(document, manifest);
    if !statement_current(body, document, evidence_sha256) {
        Some("recovery_changed"@)
    } else if signer != (
        body.signer.executable_sha256@,
        body.signer.designated_requirement_sha256@,
    ) {
        Some("recovery_signer_mismatch"@)
    } else if phase is Err {
        Some(phase->Err_0)
    } else if !(phase->Ok_0 matches Some(reached) && reached.ordinal()
        >= LegacyUploadMigrationPhase::DeleteConfirmed.ordinal()) {
        Some("recovery_phase"@)
    } else if phase->Ok_0 == Some(LegacyUploadMigrationPhase::DeleteConfirmed)
        && body.authoritative_manifest_sha256@ != digest::sha256_hex(manifest.json@) {
        Some("recovery_manifest"@)
    } else if !all_anchored(document.retired_replacements@, manifest, body.journal_anchors@) {
        Some("recovery_journal"@)
    } else if !entries_anchored(
        body.original_destination_canonicalizations@,
        body.journal_anchors@,
    ) {
        Some("original_canonicalization"@)
    } else {
        canonicalization::canonicalization_set_refusal(
            document,
            manifest,
            body.original_destination_canonicalizations@,
        )
    }
}

/// The phase of the cohort is asked for only of a receipt that is current and of the very signer;
/// the document then has to have its two replacements.
pub open spec fn continuity_readable(
    body: DeviceRecoveryReceiptBody,
    document: EvidenceDocument,
    evidence_sha256: Seq<char>,
    signer: (Seq<char>, Seq<char>),
) -> bool {
    statement_current(body, document, evidence_sha256) && signer == (
        body.signer.executable_sha256@,
        body.signer.designated_requirement_sha256@,
    ) ==> document.retired_replacements@.len() >= RETIRED_REPLACEMENT_COUNT
}

/// Accepts a receipt that still continues the cohort, for that signer.
pub fn validate_device_recovery_continuity_with_signer(
    body: &DeviceRecoveryReceiptBody,
    document: &EvidenceDocument,
    manifest: &Manifest,
    evidence_sha256: &str,
    expected_signer: &DeviceRecoverySigner,
) -> (r: Result<(), LegacyUploadEvidenceError>)
    requires
        continuity_readable(
            *body,
            *document,
            evidence_sha256@,
            (expected_signer.executable_sha256@, expected_signer.designated_requirement_sha256@),
        ),
    ensures
        error::refused_as(
            r,
            continuity_refusal(
                *body,
                *document,
                *manifest,
                evidence_sha256@,
                (
                    expected_signer.executable_sha256@,
                    expected_signer.designated_requirement_sha256@,
                ),
            ),
        ),
{
    if !is_statement_current(body, document, evidence_sha256) {
        return Err(failure("recovery_changed"));
    }
    if !expected_signer.is_same(&body.signer) {
        return Err(failure("recovery_signer_mismatch"));
    }
    let phase = match coherent_retired_replacement_phase(document, manifest) {
        Err(error) => {
            return Err(error);
        },
        Ok(None) => {
            return Err(failure("recovery_phase"));
        },
        Ok(Some(phase)) => phase,
    };
    if phase.index() < LegacyUploadMigrationPhase::DeleteConfirmed.index() {
        return Err(failure("recovery_phase"));
    }
    if phase == LegacyUploadMigrationPhase::DeleteConfirmed && !same_text(
        &body.authoritative_manifest_sha256,
        &sha256_bytes(&manifest.json),
    ) {
        return Err(failure("recovery_manifest"));
    }
    if !are_all_anchored(&document.retired_replacements, manifest, &body.journal_anchors) {
        return Err(failure("recovery_journal"));
    }
    if !are_entries_anchored(
        &body.original_destination_canonicalizations,
        &body.journal_anchors,
    ) {
        return Err(failure("original_canonicalization"));
    }
    validate_recovery_canonicalization_set(
        document,
        manifest,
        &body.original_destination_canonicalizations,
    )
}

/// The category under which a receipt is refused by the program that runs, or nothing.
pub open spec fn running_continuity_refusal(
    body: DeviceRecoveryReceiptBody,
    document: EvidenceDocument,
    manifest: Manifest,
    evidence_sha256: Seq<char>,
    process: ProcessObservation,
) -> Option<Seq<char>> {
    match process.signer() {
        Err(category) => Some(category),
        Ok(signer) => continuity_refusal(body, document, manifest, evidence_sha256, signer),
    }
}

/// A receipt can be held against the cohort where the program that runs is known: the document
/// then has what the phase of the cohort is read off.
pub open spec fn running_continuity_readable(
    body: DeviceRecoveryReceiptBody,
    document: EvidenceDocument,
    evidence_sha256: Seq<char>,
    process: ProcessObservation,
) -> bool {
    process.signer() matches Ok(signer) ==> continuity_readable(
        body,
        document,
        evidence_sha256,
        signer,
    )
}

/// Accepts a receipt that still continues the cohort, for the program that runs.
pub fn validate_device_recovery_continuity(
    body: &DeviceRecoveryReceiptBody,
    document: &EvidenceDocument,
    manifest: &Manifest,
    evidence_sha256: &str,
    process: &ProcessObservation,
) -> (r: Result<(), LegacyUploadEvidenceError>)
    requires
        running_continuity_readable(*body, *document, evidence_sha256@, *process),
    ensures
        error::refused_as(
            r,
            running_continuity_refusal(*body, *document, *manifest, evidence_sha256@, *process),
        ),
{
    match process.current_signer() {
        Err(error) => Err(error),
        Ok(signer) => validate_device_recovery_continuity_with_signer(
            body,
            document,
            manifest,
            evidence_sha256,
            &signer,
        ),
    }
}

/// A receipt continues one cohort of one evidence, for one signer.
pub proof fn receipts_bind_their_evidence(
    body: DeviceRecoveryReceiptBody,
    document: EvidenceDocument,
    manifest: Manifest,
    evidence_sha256: Seq<char>,
    signer: (Seq<char>, Seq<char>),
    other_document: EvidenceDocument,
    other_manifest: Manifest,
    other_evidence_sha256: Seq<char>,
    other_signer: (Seq<char>, Seq<char>),
)
    requires
        continuity_refusal(body, document, manifest, evidence_sha256, signer) is None,
        continuity_refusal(
            body,
            other_document,
            other_manifest,
            other_evidence_sha256,
            other_signer,
        ) is None,
    ensures
        evidence_sha256 == other_evidence_sha256,
        document.cohort_sha256@ == other_document.cohort_sha256@,
        signer == other_signer,
{
}

/// Before the cohort moves on, a receipt continues it only as long as the state is the very one
/// that the receipt was made from.
pub proof fn receipts_bind_the_state(
    body: DeviceRecoveryReceiptBody,
    document: EvidenceDocument,
    manifest: Manifest,
    evidence_sha256: Seq<char>,
    signer: (Seq<char>, Seq<char>),
)
    requires
        continuity_refusal(body, document, manifest, evidence_sha256, signer) is None,
    ensures
        plan::cohort_phase(document, manifest) matches Ok(Some(phase))
            && LegacyUploadMigrationPhase::DeleteConfirmed.ordinal() <= phase.ordinal() && (phase
            == LegacyUploadMigrationPhase::DeleteConfirmed ==> digest::sha256_hex(manifest.json@)
            == body.authoritative_manifest_sha256@),
{
}

/// One journal goes on from the other: it has all its entries, and maybe more.
pub open spec fn goes_on(
    earlier: Seq<LegacyUploadMigrationEntry>,
    later: Seq<LegacyUploadMigrationEntry>,
) -> bool {
    &&& earlier.len() <= later.len()
    &&& forall|i: int|
        0 <= i < earlier.len() ==> (#[trigger] later[i]).phase == earlier[i].phase
            && later[i].entry_sha256@ == earlier[i].entry_sha256@
}

/// The journal of a replacement goes on from one state to the other.
pub open spec fn journal_goes_on(
    replacement: EvidenceRetiredReplacement,
    earlier: Manifest,
    later: Manifest,
) -> bool {
    &&& earlier.record(replacement.asset_id@) matches Some(before)
    &&& later.record(replacement.asset_id@) matches Some(after)
    &&& before.valid_journal() matches Some(first)
    &&& after.valid_journal() matches Some(second)
    &&& goes_on(first.entries@, second.entries@)
}

/// The stored original of a replacement is the same in both states.
pub open spec fn original_stays(
    replacement: EvidenceRetiredReplacement,
    earlier: Manifest,
    later: Manifest,
) -> bool {
    match (
        earlier.record(replacement.asset_id@)->0.original_asset,
        later.record(replacement.asset_id@)->0.original_asset,
    ) {
        (Some(before), Some(after)) => before.json@ == after.json@,
        (None, None) => true,
        _ => false,
    }
}

/// What a journal has beyond the entries of the other is all of phases behind the confirmed delete.
pub open spec fn only_later_phases_follow(
    replacement: EvidenceRetiredReplacement,
    earlier: Manifest,
    later: Manifest,
) -> bool {
    let first = earlier.record(replacement.asset_id@)->0.valid_journal()->0.entries@;
    let second = later.record(replacement.asset_id@)->0.valid_journal()->0.entries@;
    forall|i: int|
        first.len() <= i < second.len() ==> (#[trigger] second[i]).phase.ordinal()
            > LegacyUploadMigrationPhase::DeleteConfirmed.ordinal()
}

/// Two lists of anchors say the same.
pub open spec fn anchors_alike(
    anchors: Seq<DeviceRecoveryJournalAnchor>,
    others: Seq<DeviceRecoveryJournalAnchor>,
) -> bool {
    &&& anchors.len() == others.len()
    &&& forall|i: int| 0 <= i < anchors.len() ==> same_anchor(#[trigger] anchors[i], others[i])
}

/// Two anchors say the same.
pub open spec fn same_anchor(
    anchor: DeviceRecoveryJournalAnchor,
    other: DeviceRecoveryJournalAnchor,
) -> bool {
    &&& anchor.asset_id@ == other.asset_id@
    &&& anchor.entry_count == other.entry_count
    &&& anchor.delete_confirmed_entry_sha256@ == other.delete_confirmed_entry_sha256@
}

proof fn canonicalizations_stay(
    replacements: Seq<EvidenceRetiredReplacement>,
    earlier: Manifest,
    later: Manifest,
    entries: Seq<OriginalDestinationCanonicalization>,
    from: int,
)
    requires
        0 <= from,
        forall|i: int|
            0 <= i < replacements.len() ==> journal_goes_on(
                #[trigger] replacements[i],
                earlier,
                later,
            ) && original_stays(replacements[i], earlier, later),
    ensures
        canonicalization::canonicalization_refusal_from(replacements, later, entries, from)
            == canonicalization::canonicalization_refusal_from(
            replacements,
            earlier,
            entries,
            from,
        ),
    decreases replacements.len() - from,
{
    if from < replacements.len() {
        assert(journal_goes_on(replacements[from], earlier, later));
        canonicalizations_stay(replacements, earlier, later, entries, from + 1);
    }
}

/// A receipt that continues a cohort still continues it once the journals have gone on to later
/// phases, whatever else of the state has changed meanwhile.
pub proof fn receipts_survive_later_phases(
    body: DeviceRecoveryReceiptBody,
    document: EvidenceDocument,
    earlier: Manifest,
    later: Manifest,
    evidence_sha256: Seq<char>,
    signer: (Seq<char>, Seq<char>),
)
    requires
        continuity_refusal(body, document, earlier, evidence_sha256, signer) is None,
        forall|i: int|
            0 <= i < document.retired_replacements@.len() ==> journal_goes_on(
                #[trigger] document.retired_replacements@[i],
                earlier,
                later,
            ) && original_stays(document.retired_replacements@[i], earlier, later),
        plan::cohort_phase(document, later) matches Ok(Some(phase)) && phase.ordinal()
            > LegacyUploadMigrationPhase::DeleteConfirmed.ordinal(),
    ensures
        continuity_refusal(body, document, later, evidence_sha256, signer) is None,
{
    let replacements = document.retired_replacements@;
    assert forall|i: int| 0 <= i < replacements.len() implies anchored(
        #[trigger] replacements[i],
        later,
        body.journal_anchors@,
    ) by {
        assert(anchored(replacements[i], earlier, body.journal_anchors@));
        assert(journal_goes_on(replacements[i], earlier, later));
    }
    canonicalizations_stay(
        replacements,
        earlier,
        later,
        body.original_destination_canonicalizations@,
        0,
    );
}

proof fn last_entry_stays(
    earlier: Seq<LegacyUploadMigrationEntry>,
    later: Seq<LegacyUploadMigrationEntry>,
    phase: LegacyUploadMigrationPhase,
    n: int,
)
    requires
        goes_on(earlier, later),
        n <= later.len(),
        forall|i: int|
            earlier.len() <= i < later.len() ==> (#[trigger] later[i]).phase != phase,
    ensures
        last_entry(later, phase, n) == last_entry(
            earlier,
            phase,
            if n <= earlier.len() {
                n
            } else {
                earlier.len() as int
            },
        ),
        last_entry(later, phase, n) matches Some(i) ==> 0 <= i < earlier.len(),
    decreases n,
{
    if n > 0 {
        last_entry_stays(earlier, later, phase, n - 1);
    }
}

proof fn anchor_stays(
    replacement: EvidenceRetiredReplacement,
    earlier: Manifest,
    later: Manifest,
)
    requires
        journal_goes_on(replacement, earlier, later),
        only_later_phases_follow(replacement, earlier, later),
    ensures
        match (replacement_anchor(replacement, earlier), replacement_anchor(replacement, later)) {
            (Ok(anchor), Ok(other)) => same_anchor(anchor, other),
            (Err(category), Err(other)) => category == other,
            _ => false,
        },
{
    let first = earlier.record(replacement.asset_id@)->0.valid_journal()->0.entries@;
    let second = later.record(replacement.asset_id@)->0.valid_journal()->0.entries@;
    last_entry_stays(
        first,
        second,
        LegacyUploadMigrationPhase::DeleteConfirmed,
        second.len() as int,
    );
}

/// Entries of later phases leave the anchors of a cohort as they are: they are the same, or
/// refused under the same category, in the order of the document and in that of a receipt.
pub proof fn anchors_survive_later_phases(
    replacements: Seq<EvidenceRetiredReplacement>,
    earlier: Manifest,
    later: Manifest,
)
    requires
        forall|i: int|
            0 <= i < replacements.len() ==> journal_goes_on(
                #[trigger] replacements[i],
                earlier,
                later,
            ) && only_later_phases_follow(replacements[i], earlier, later),
    ensures
        match (anchors_from(replacements, earlier), anchors_from(replacements, later)) {
            (Ok(anchors), Ok(others)) => anchors_alike(anchors, others) && anchors_alike(
                order::sorted(anchors),
                order::sorted(others),
            ),
            (Err(category), Err(other)) => category == other,
            _ => false,
        },
    decreases replacements.len(),
{
    if replacements.len() > 0 {
        let front = replacements.drop_last();
        let last = replacements[replacements.len() - 1];
        assert forall|i: int| 0 <= i < front.len() implies journal_goes_on(
            #[trigger] front[i],
            earlier,
            later,
        ) && only_later_phases_follow(front[i], earlier, later) by {
            assert(journal_goes_on(replacements[i], earlier, later));
        }
        anchors_survive_later_phases(front, earlier, later);
        assert(journal_goes_on(last, earlier, later));
        anchor_stays(last, earlier, later);
    }
    if anchors_from(replacements, earlier) is Ok {
        let anchors = anchors_from(replacements, earlier)->Ok_0;
        let others = anchors_from(replacements, later)->Ok_0;
        let related = |anchor: DeviceRecoveryJournalAnchor, other: DeviceRecoveryJournalAnchor|
            same_anchor(anchor, other);
        assert forall|i: int| 0 <= i < anchors.len() implies related(
            #[trigger] anchors[i],
            others[i],
        ) by {
            assert(same_anchor(anchors[i], others[i]));
        }
        order::sorted_together(anchors, others, related);
        assert forall|i: int| 0 <= i < anchors.len() implies same_anchor(
            #[trigger] order::sorted(anchors)[i],
            order::sorted(others)[i],
        ) by {
            assert(related(order::sorted(anchors)[i], order::sorted(others)[i]));
        }
    }
}

/// The last entry of a phase is the one behind which no other entry of that phase stands.
pub proof fn the_last_entry_has_none_behind_it(
    entries: Seq<LegacyUploadMigrationEntry>,
    phase: LegacyUploadMigrationPhase,
    n: int,
)
    requires
        0 <= n <= entries.len(),
    ensures
        last_entry(entries, phase, n) matches Some(i) ==> 0 <= i < n && entries[i].phase == phase
            && forall|j: int| i < j < n ==> (#[trigger] entries[j]).phase != phase,
        last_entry(entries, phase, n) is None <==> forall|j: int|
            0 <= j < n ==> (#[trigger] entries[j]).phase != phase,
    decreases n,
{
    if n > 0 {
        the_last_entry_has_none_behind_it(entries, phase, n - 1);
        if entries[n - 1].phase == phase {
            assert(!(forall|j: int| 0 <= j < n ==> (#[trigger] entries[j]).phase != phase));
        }
    }
}

/// A retirement is anchored in the last entry of its valid journal that confirms the deletion: by
/// how many entries lead up to it, and by its digest. Without such an entry there is no anchor.
pub proof fn anchors_hold_the_last_confirmed_deletion(
    replacement: EvidenceRetiredReplacement,
    manifest: Manifest,
    record: manifest::AssetRecord,
    journal: manifest::LegacyUploadMigrationJournal,
    i: int,
)
    requires
        manifest.record(replacement.asset_id@) == Some(record),
        record.valid_journal() == Some(journal),
        0 <= i < journal.entries@.len(),
        journal.entries@[i].phase is DeleteConfirmed,
        forall|j: int|
            i < j < journal.entries@.len() ==> !((#[trigger] journal.entries@[j]).phase
                is DeleteConfirmed),
        i + 1 <= u64::MAX,
    ensures
        replacement_anchor(replacement, manifest) is Ok,
        ({
            let anchor = replacement_anchor(replacement, manifest)->Ok_0;
            &&& anchor.asset_id == replacement.asset_id
            &&& anchor.entry_count == i + 1
            &&& anchor.delete_confirmed_entry_sha256 == journal.entries@[i].entry_sha256
        }),
{
    let n = journal.entries@.len() as int;
    the_last_entry_has_none_behind_it(
        journal.entries@,
        LegacyUploadMigrationPhase::DeleteConfirmed,
        n,
    );
    let found = last_entry(journal.entries@, LegacyUploadMigrationPhase::DeleteConfirmed, n);
    assert(journal.entries@[i].phase == LegacyUploadMigrationPhase::DeleteConfirmed);
    assert(found is Some);
    let k = found->0;
    if k < i {
        assert(journal.entries@[i].phase != LegacyUploadMigrationPhase::DeleteConfirmed);
    } else if k > i {
        assert(!(journal.entries@[k].phase is DeleteConfirmed));
    }
}

/// One more retirement adds its own anchor after those of the others, and none can be left out.
pub proof fn every_retirement_is_anchored(
    replacements: Seq<EvidenceRetiredReplacement>,
    added: EvidenceRetiredReplacement,
    manifest: Manifest,
)
    ensures
        anchors_from(Seq::empty(), manifest) == Ok::<Seq<DeviceRecoveryJournalAnchor>, Seq<char>>(
            Seq::empty(),
        ),
        anchors_from(replacements.push(added), manifest) is Ok <==> anchors_from(
            replacements,
            manifest,
        ) is Ok && replacement_anchor(added, manifest) is Ok,
        anchors_from(replacements.push(added), manifest) is Ok ==> anchors_from(
            replacements.push(added),
            manifest,
        )->Ok_0 == anchors_from(replacements, manifest)->Ok_0.push(
            replacement_anchor(added, manifest)->Ok_0,
        ),
{
    assert(replacements.push(added).drop_last() =~= replacements);
    assert(replacements.push(added).last() == added);
}

proof fn anchor_found_from(
    anchors: Seq<DeviceRecoveryJournalAnchor>,
    id: Seq<char>,
    i: int,
    from: int,
)
    requires
        0 <= i < anchors.len(),
        0 <= from <= anchors.len(),
        forall|j: int| 0 <= j < anchors.len() && j != i ==> (#[trigger] anchors[j]).asset_id@ != id,
    ensures
        find_anchor(anchors, id, from) == (if from <= i && anchors[i].asset_id@ == id {
            Some(anchors[i])
        } else {
            None
        }),
    decreases anchors.len() - from,
{
    if from < anchors.len() {
        anchor_found_from(anchors, id, i, from + 1);
    }
}

/// A retirement is still anchored exactly if the entry that its own anchor counts to is still there,
/// still confirms the deletion and still has the digest of the anchor.
pub proof fn anchors_hold_as_long_as_their_entry_stands(
    replacement: EvidenceRetiredReplacement,
    manifest: Manifest,
    anchors: Seq<DeviceRecoveryJournalAnchor>,
    i: int,
    record: manifest::AssetRecord,
    journal: manifest::LegacyUploadMigrationJournal,
)
    requires
        0 <= i < anchors.len(),
        anchors[i].asset_id@ == replacement.asset_id@,
        forall|j: int|
            0 <= j < anchors.len() && j != i ==> (#[trigger] anchors[j]).asset_id@
                != replacement.asset_id@,
        manifest.record(replacement.asset_id@) == Some(record),
        record.valid_journal() == Some(journal),
    ensures
        anchored(replacement, manifest, anchors) <==> {
            let count = anchors[i].entry_count;
            &&& count > 0
            &&& count <= journal.entries@.len()
            &&& journal.entries@[count - 1].phase is DeleteConfirmed
            &&& journal.entries@[count - 1].entry_sha256@
                == anchors[i].delete_confirmed_entry_sha256@
        },
{
    anchor_found_from(anchors, replacement.asset_id@, i, 0);
}

/// A receipt is stated exactly if the requirement that is expected is a digest, the running
/// executable can sign and states that requirement, and every retirement can be anchored.
pub proof fn receipts_need_a_signer_and_anchors(
    document: EvidenceDocument,
    manifest: Manifest,
    expected_requirement_sha256: Seq<char>,
    process: ProcessObservation,
    executable: Seq<char>,
    requirement: Seq<char>,
)
    requires
        process.signer() == Ok::<(Seq<char>, Seq<char>), Seq<char>>((executable, requirement)),
    ensures
        body_refusal(document, manifest, expected_requirement_sha256, process) is None <==> {
            &&& identity::digest_text(expected_requirement_sha256)
            &&& requirement == expected_requirement_sha256
            &&& anchors_from(document.retired_replacements@, manifest) is Ok
        },
{
}

/// What a receipt states is current exactly if it is of the second schema, of this evidence and
/// this cohort, was made on a current checkpoint once the deletion was confirmed, counts the files
/// that the document lists, and anchors two retirements in ascending order.
pub proof fn current_statements_agree_with_the_document(
    body: DeviceRecoveryReceiptBody,
    document: EvidenceDocument,
    evidence_sha256: Seq<char>,
)
    ensures
        statement_current(body, document, evidence_sha256) <==> {
            &&& body.schema_version == 2
            &&& body.evidence_sha256@ == evidence_sha256
            &&& body.cohort_sha256@ == document.cohort_sha256@
            &&& body.checkpoint_current
            &&& body.migration_phase@ == "delete_confirmed"@
            &&& body.raw_input_count == document.raw_inputs@.len()
            &&& body.quarantine_member_count == document.quarantine_members@.len()
            &&& body.reference_count == document.reference_normalizations@.len()
            &&& body.journal_anchors@.len() == 2
            &&& text::before(
                body.journal_anchors@[0].asset_id@,
                body.journal_anchors@[1].asset_id@,
            )
        },
{
}

/// A receipt is continued exactly if its statement is current, the signer is the one that made it,
/// both retirements are in one phase from the confirmed deletion on, the manifest is the very one as
/// long as that is the phase, every retirement and every canonicalization is anchored, and the
/// canonicalizations are those that are needed.
pub proof fn receipts_are_continued_from_the_confirmed_deletion_on(
    body: DeviceRecoveryReceiptBody,
    document: EvidenceDocument,
    manifest: Manifest,
    evidence_sha256: Seq<char>,
    signer: (Seq<char>, Seq<char>),
)
    ensures
        continuity_refusal(body, document, manifest, evidence_sha256, signer) is None <==> {
            let phase = plan::cohort_phase(document, manifest);
            &&& statement_current(body, document, evidence_sha256)
            &&& body.signer.executable_sha256@ == signer.0
            &&& body.signer.designated_requirement_sha256@ == signer.1
            &&& phase is Ok
            &&& phase->Ok_0 is Some
            &&& !(phase->Ok_0->0 is Prepared)
            &&& phase->Ok_0->0 is DeleteConfirmed ==> digest::sha256_hex(manifest.json@)
                == body.authoritative_manifest_sha256@
            &&& forall|i: int|
                0 <= i < document.retired_replacements@.len() ==> anchored(
                    #[trigger] document.retired_replacements@[i],
                    manifest,
                    body.journal_anchors@,
                )
            &&& forall|i: int|
                0 <= i < body.original_destination_canonicalizations@.len() ==> entry_anchored(
                    #[trigger] body.original_destination_canonicalizations@[i],
                    body.journal_anchors@,
                )
            &&& canonicalization::canonicalization_set_refusal(
                document,
                manifest,
                body.original_destination_canonicalizations@,
            ) is None
        },
{
}

/// What a receipt states of the document it states of nothing else: the counts are those of its
/// lists, the digests those of its evidence, its cohort and the manifest.
pub proof fn receipts_state_the_document(
    body: DeviceRecoveryReceiptBody,
    document: EvidenceDocument,
    manifest: Manifest,
    evidence_sha256: Seq<char>,
    canonicalizations: Seq<OriginalDestinationCanonicalization>,
    signer: (Seq<char>, Seq<char>),
)
    requires
        body_states(body, document, manifest, evidence_sha256, canonicalizations, signer),
    ensures
        body.schema_version == 2,
        body.checkpoint_current,
        body.migration_phase@ == "delete_confirmed"@,
        body.evidence_sha256@ == evidence_sha256,
        body.cohort_sha256@ == document.cohort_sha256@,
        body.authoritative_manifest_sha256@ == digest::sha256_hex(manifest.json@),
        body.raw_input_count == document.raw_inputs@.len(),
        body.quarantine_member_count == document.quarantine_members@.len(),
        body.reference_count == document.reference_normalizations@.len(),
        body.original_destination_canonicalizations@ == canonicalizations,
        body.signer.executable_sha256@ == signer.0,
        body.signer.designated_requirement_sha256@ == signer.1,
        body.journal_anchors@ == order::sorted(
            anchors_from(document.retired_replacements@, manifest)->Ok_0,
        ),
{
}

/// What keeps a receipt from being stated is told by its name.
pub proof fn faults_of_a_statement_are_named(
    document: EvidenceDocument,
    manifest: Manifest,
    expected_requirement_sha256: Seq<char>,
    process: ProcessObservation,
)
    ensures
        ({
            let signer = process.signer();
            let anchors = anchors_from(document.retired_replacements@, manifest);
            let expected = identity::digest_text(expected_requirement_sha256);
            let signed = signer is Ok;
            let matching = signer->Ok_0.1 == expected_requirement_sha256;
            let anchored = anchors is Ok;
            let told = body_refusal(document, manifest, expected_requirement_sha256, process);
            &&& !expected ==> told == Some("recovery_signer_expected"@)
            &&& expected && !signed ==> told == Some(signer->Err_0)
            &&& expected && signed && !matching ==> told == Some("recovery_signer_mismatch"@)
            &&& expected && signed && matching && !anchored ==> told == Some(anchors->Err_0)
        }),
{
}

/// What keeps a receipt from being continued is told by its name.
pub proof fn faults_of_a_continuation_are_named(
    body: DeviceRecoveryReceiptBody,
    document: EvidenceDocument,
    manifest: Manifest,
    evidence_sha256: Seq<char>,
    signer: (Seq<char>, Seq<char>),
)
    ensures
        ({
            let phase = plan::cohort_phase(document, manifest);
            let set = canonicalization::canonicalization_set_refusal(
                document,
                manifest,
                body.original_destination_canonicalizations@,
            );
            let current = statement_current(body, document, evidence_sha256);
            let signed = signer.0 == body.signer.executable_sha256@
                && signer.1 == body.signer.designated_requirement_sha256@;
            let coherent = phase is Ok;
            let confirmed = phase->Ok_0 is Some && phase->Ok_0->0.ordinal() >= 1;
            let same_manifest = phase->Ok_0->0.ordinal() == 1
                ==> body.authoritative_manifest_sha256@ == digest::sha256_hex(manifest.json@);
            let anchored = all_anchored(
                document.retired_replacements@,
                manifest,
                body.journal_anchors@,
            );
            let entries = entries_anchored(
                body.original_destination_canonicalizations@,
                body.journal_anchors@,
            );
            let canonical = set is None;
            let told = continuity_refusal(body, document, manifest, evidence_sha256, signer);
            &&& !current ==> told == Some("recovery_changed"@)
            &&& current && !signed ==> told == Some("recovery_signer_mismatch"@)
            &&& current && signed && !coherent ==> told == Some(phase->Err_0)
            &&& current && signed && coherent && !confirmed ==> told == Some("recovery_phase"@)
            &&& current && signed && coherent && confirmed && !same_manifest
                ==> told == Some("recovery_manifest"@)
            &&& current && signed && coherent && confirmed && same_manifest && !anchored
                ==> told == Some("recovery_journal"@)
            &&& current && signed && coherent && confirmed && same_manifest && anchored
                && !entries ==> told == Some("original_canonicalization"@)
            &&& current && signed && coherent && confirmed && same_manifest && anchored
                && entries && !canonical ==> told == set
        }),
{
}

/// What keeps a retirement from being anchored is told by its name.
pub proof fn faults_of_an_anchor_are_named(
    replacement: EvidenceRetiredReplacement,
    manifest: Manifest,
)
    ensures
        ({
            let record = manifest.record(replacement.asset_id@);
            let told = replacement_anchor(replacement, manifest);
            let journal = record->0.valid_journal();
            &&& record is None ==> told == Err::<DeviceRecoveryJournalAnchor, Seq<char>>(
                "recovery_journal"@,
            )
            &&& record is Some && journal is None ==> told == Err::<
                DeviceRecoveryJournalAnchor,
                Seq<char>,
            >("recovery_journal"@)
            &&& record is Some && journal is Some && (forall|i: int|
                0 <= i < journal->0.entries@.len() ==> !((
                #[trigger] journal->0.entries@[i]).phase is DeleteConfirmed)) ==> told == Err::<
                DeviceRecoveryJournalAnchor,
                Seq<char>,
            >("recovery_phase"@)
        }),
{
    let record = manifest.record(replacement.asset_id@);
    let journal = record->0.valid_journal();
    if record is Some && journal is Some {
        let entries = journal->0.entries@;
        the_last_entry_has_none_behind_it(
            entries,
            LegacyUploadMigrationPhase::DeleteConfirmed,
            entries.len() as int,
        );
        if forall|i: int| 0 <= i < entries.len() ==> !((#[trigger] entries[i]).phase
            is DeleteConfirmed) {
            assert forall|j: int| 0 <= j < entries.len() implies (#[trigger] entries[j]).phase
                != LegacyUploadMigrationPhase::DeleteConfirmed by {
                assert(!(entries[j].phase is DeleteConfirmed));
            }
        }
    }
}

/// A canonicalization is anchored exactly if there is an anchor of its asset with the digest of the
/// confirmed deletion that it names.
pub proof fn canonicalizations_are_anchored_in_their_deletion(
    entry: OriginalDestinationCanonicalization,
    anchors: Seq<DeviceRecoveryJournalAnchor>,
    added: DeviceRecoveryJournalAnchor,
)
    ensures
        !entry_anchored(entry, Seq::empty()),
        entry_anchored(entry, anchors.push(added)) <==> entry_anchored(entry, anchors) || (
        added.asset_id@ == entry.asset_id@ && added.delete_confirmed_entry_sha256@
            == entry.delete_confirmed_entry_sha256@),
{
    let all = anchors.push(added);
    if entry_anchored(entry, anchors) {
        let i = choose|i: int|
            0 <= i < anchors.len() && (#[trigger] anchors[i]).asset_id@ == entry.asset_id@
                && anchors[i].delete_confirmed_entry_sha256@
                == entry.delete_confirmed_entry_sha256@;
        assert(all[i] == anchors[i]);
    }
    if added.asset_id@ == entry.asset_id@ && added.delete_confirmed_entry_sha256@
        == entry.delete_confirmed_entry_sha256@ {
        assert(all[anchors.len() as int] == added);
    }
    if entry_anchored(entry, all) {
        let i = choose|i: int|
            0 <= i < all.len() && (#[trigger] all[i]).asset_id@ == entry.asset_id@
                && all[i].delete_confirmed_entry_sha256@ == entry.delete_confirmed_entry_sha256@;
        if i < anchors.len() {
            assert(anchors[i] == all[i]);
        }
    }
}

} // verus!
