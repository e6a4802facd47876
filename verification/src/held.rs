use vstd::prelude::*;
use vstd::string::*;

use crate::audit::{
    DocumentEncodings, LegacyUploadEvidenceAudit, LegacyUploadMigrationAuthorizedPreparation,
};
use crate::canonicalization::OriginalDestinationCanonicalization;
use crate::cloudkit::CloudKitUploadedHeicInitialState;
use crate::digest;
use crate::digest::sha256_bytes;
use crate::document::{
    EvidenceDocument, EvidenceReferenceNormalization, EvidenceRetiredReplacement,
    RETIRED_REPLACEMENT_COUNT,
};
use crate::error;
use crate::error::{failure, LegacyUploadEvidenceError};
use crate::load::{EvidenceReread, SealedDeviceRecovery, ValidatedLegacyUploadEvidence};
use crate::manifest::Manifest;
use crate::plan;
use crate::plan::{quarantine_plan_from_document, PlanInputs};
use crate::quarantine::LegacyUploadMigrationQuarantinePlan;
use crate::receipt;
use crate::receipt::{validate_device_recovery_continuity, ProcessObservation};
use crate::sealed;
use crate::sealed::{
    revalidate_held_reference_descriptors, revalidate_sealed_evidence, SourceRead,
};
use crate::text::same_text;
use crate::validation;
use crate::validation::validate_document;

verus! {

/// A later look at held evidence and, where there is one, at its receipt.
#[derive(Debug, PartialEq, Eq)]
pub struct HeldLook {
    pub evidence: EvidenceReread,
    pub receipt: EvidenceReread,
    /// The canonical JSON of what the receipt states.
    pub body_json: Vec<u8>,
    pub euid: u32,
}

/// The category under which a held receipt is refused at a later look, or nothing.
pub open spec fn held_receipt_refusal(
    recovery: Option<SealedDeviceRecovery>,
    look: HeldLook,
) -> Option<Seq<char>> {
    match recovery {
        None => None,
        Some(recovery) => if recovery.sealed.sha256@ != recovery.expected_receipt_sha256@
            || recovery.receipt.body_sha256@ != digest::sha256_hex(look.body_json@) {
            Some("recovery_changed"@)
        } else if !recovery.sealed.steady(look.receipt, look.euid) {
            Some("evidence_changed"@)
        } else {
            None
        },
    }
}

/// What is needed to hold evidence against the state once more.
#[derive(Debug, PartialEq, Eq)]
pub struct ManifestLook {
    pub before: HeldLook,
    pub encodings: DocumentEncodings,
    pub plan_inputs: PlanInputs,
    /// What the plan of the operational document needs.
    pub operational_plan_inputs: PlanInputs,
    pub process: ProcessObservation,
    pub after: HeldLook,
}

impl ValidatedLegacyUploadEvidence {
    /// Where the evidence lies.
    pub fn evidence_path(&self) -> (r: &String)
        ensures
            *r == self.request.evidence_path,
    {
        &self.request.evidence_path
    }

    /// What the audit told.
    pub fn audit(&self) -> (r: &LegacyUploadEvidenceAudit)
        ensures
            *r == self.validated.audit,
    {
        &self.validated.audit
    }

    /// The leave to prepare the migration of the two replacements.
    pub fn preparation_authority(&self) -> (r: &Vec<LegacyUploadMigrationAuthorizedPreparation>)
        ensures
            *r == self.validated.preparations,
    {
        &self.validated.preparations
    }

    /// The assets that are being replaced.
    pub fn replacement_asset_ids(&self) -> (r: [&str; 2])
        requires
            self.well_formed(),
        ensures
            r@.len() == RETIRED_REPLACEMENT_COUNT,
            r@[0]@ == self.document.retired_replacements@[0].asset_id@,
            r@[1]@ == self.document.retired_replacements@[1].asset_id@,
    {
        [
            self.document.retired_replacements[0].asset_id.as_str(),
            self.document.retired_replacements[1].asset_id.as_str(),
        ]
    }

    /// All the assets of the cohort.
    pub fn cohort_asset_ids(&self) -> (r: Vec<&str>)
        ensures
            crate::identity::views(r@) == validation::asset_ids(self.document.assets@),
    {
        let assets = &self.document.assets;
        let mut ids: Vec<&str> = Vec::new();
        let mut i: usize = 0;
        while i < assets.len()
            invariant
                i <= assets@.len(),
                ids@.len() == i,
                forall|j: int| 0 <= j < i ==> (#[trigger] ids@[j])@ == assets@[j].asset_id@,
            decreases assets@.len() - i,
        {
            ids.push(assets[i].asset_id.as_str());
            i += 1;
        }
        assert(crate::identity::views(ids@) =~= validation::asset_ids(assets@));
        ids
    }

    /// The replacements that are being retired.
    pub fn retired_replacements(&self) -> (r: &Vec<EvidenceRetiredReplacement>)
        ensures
            *r == self.document.retired_replacements,
    {
        &self.document.retired_replacements
    }

    /// The state in which CloudKit first found each replacement.
    pub fn initial_remote_states(&self) -> (r: [CloudKitUploadedHeicInitialState; 2])
        requires
            self.well_formed(),
        ensures
            r@.len() == RETIRED_REPLACEMENT_COUNT,
            r@[0] == self.document.retired_replacements@[0].initial_remote_state,
            r@[1] == self.document.retired_replacements@[1].initial_remote_state,
    {
        [
            self.document.retired_replacements[0].initial_remote_state,
            self.document.retired_replacements[1].initial_remote_state,
        ]
    }

    /// The references, on the devices where they lie now.
    pub fn reference_normalizations(&self) -> (r: &Vec<EvidenceReferenceNormalization>)
        ensures
            *r == self.operational().reference_normalizations,
    {
        &self.operational_document().reference_normalizations
    }

    /// The document with the numbers that its devices have now.
    pub fn operational_document(&self) -> (r: &EvidenceDocument)
        ensures
            *r == self.operational(),
    {
        match &self.moved_document {
            Some(moved) => moved,
            None => &self.document,
        }
    }

    /// The plan for the devices as they are now.
    pub fn quarantine_plan(&self) -> (r: &LegacyUploadMigrationQuarantinePlan)
        ensures
            *r == self.operational_quarantine_plan,
    {
        &self.operational_quarantine_plan
    }

    /// Whether the evidence was loaded with a receipt.
    pub fn has_device_recovery_receipt(&self) -> (r: bool)
        ensures
            r == (self.device_recovery is Some),
    {
        self.device_recovery.is_some()
    }

    /// The plan as it was sealed.
    pub fn sealed_quarantine_plan(&self) -> (r: &LegacyUploadMigrationQuarantinePlan)
        requires
            self.well_formed(),
        ensures
            *r == self.validated.preparations@[0].identity.quarantine_plan,
    {
        &self.validated.preparations[0].identity.quarantine_plan
    }

    /// The category under which held evidence is refused at a later look, or nothing.
    pub open spec fn look_refusal(self, look: HeldLook) -> Option<Seq<char>> {
        if !self.sealed_evidence.steady(look.evidence, look.euid) {
            Some("evidence_changed"@)
        } else {
            held_receipt_refusal(self.device_recovery, look)
        }
    }

    /// Whether the evidence and its receipt still are what was sealed.
    pub fn revalidate_held_evidence(&self, look: &HeldLook) -> (r: Result<
        (),
        LegacyUploadEvidenceError,
    >)
        ensures
            error::refused_as(r, self.look_refusal(*look)),
    {
        match revalidate_sealed_evidence(
            &self.sealed_evidence,
            &look.evidence.reread,
            look.evidence.held,
            look.evidence.named,
            look.euid,
        ) {
            Err(error) => {
                return Err(error);
            },
            Ok(()) => {},
        }
        match &self.device_recovery {
            None => Ok(()),
            Some(recovery) => {
                if !same_text(&recovery.sealed.sha256, &recovery.expected_receipt_sha256)
                    || !same_text(
                    &recovery.receipt.body_sha256,
                    &sha256_bytes(&look.body_json),
                ) {
                    return Err(failure("recovery_changed"));
                }
                revalidate_sealed_evidence(
                    &recovery.sealed,
                    &look.receipt.reread,
                    look.receipt.held,
                    look.receipt.named,
                    look.euid,
                )
            },
        }
    }

    /// Whether the references that are held still are what was sealed.
    pub fn revalidate_reference_descriptors_before_quarantine(&self, held: &Vec<SourceRead>) -> (r:
        Result<(), LegacyUploadEvidenceError>)
        ensures
            error::refused_as(
                r,
                sealed::descriptors_reread_refusal(
                    sealed::memories(self.sealed_references@),
                    held@,
                    0,
                ),
            ),
    {
        revalidate_held_reference_descriptors(&self.sealed_references, held)
    }

    /// The canonicalizations that the receipt states; none where there is no receipt.
    pub open spec fn stated(self) -> Seq<OriginalDestinationCanonicalization> {
        match self.device_recovery {
            Some(recovery) => recovery.receipt.body.original_destination_canonicalizations@,
            None => Seq::empty(),
        }
    }

    /// The category under which a receipt no longer goes with the state, or nothing.
    pub open spec fn recovered_refusal(self, manifest: Manifest, look: ManifestLook) -> Option<
        Seq<char>,
    > {
        match self.device_recovery {
            None => None,
            Some(recovery) => {
                let continued = receipt::running_continuity_refusal(
                    recovery.receipt.body,
                    self.document,
                    manifest,
                    self.request.expected_evidence_sha256@,
                    look.process,
                );
                let planned = plan::sealed_plan_refusal(
                    self.operational(),
                    manifest,
                    look.operational_plan_inputs,
                );
                if continued is Some {
                    continued
                } else if planned is Some {
                    planned
                } else if !self.plan_stands(look.operational_plan_inputs) {
                    Some("recovery_changed"@)
                } else {
                    None
                }
            },
        }
    }

    /// The plan for the devices as they are now is the one that is held.
    pub open spec fn plan_stands(self, inputs: PlanInputs) -> bool {
        &&& plan::drafted(self.operational(), inputs.destinations@).same(
            self.operational_quarantine_plan.content(),
        )
        &&& plan::plan_seal(inputs) == self.operational_quarantine_plan.plan_sha256@
    }

    /// The category under which held evidence no longer goes with the state, or nothing, before
    /// the last look.
    pub open spec fn manifest_refusal(self, manifest: Manifest, look: ManifestLook) -> Option<
        Seq<char>,
    > {
        let before = self.look_refusal(look.before);
        let valid = validation::document_refusal(
            self.document,
            look.encodings,
            look.plan_inputs,
            self.request,
            manifest,
            self.stated(),
        );
        if before is Some {
            before
        } else if valid is Some {
            valid
        } else {
            self.recovered_refusal(manifest, look)
        }
    }

    /// Holds the evidence against the state once more. The leave that it gives is renewed where
    /// the evidence still goes with the state, even if the last look then finds it changed.
    pub fn revalidate_authoritative_manifest(&mut self, manifest: &Manifest, look: &ManifestLook)
        -> (r: Result<(), LegacyUploadEvidenceError>)
        requires
            old(self).well_formed(),
        ensures
            final(self).well_formed(),
            final(self).document == old(self).document,
            final(self).request == old(self).request,
            final(self).sealed_evidence == old(self).sealed_evidence,
            final(self).sealed_references == old(self).sealed_references,
            final(self).moved_document == old(self).moved_document,
            final(self).operational_quarantine_plan == old(self).operational_quarantine_plan,
            final(self).device_recovery == old(self).device_recovery,
            match old(self).manifest_refusal(*manifest, *look) {
                Some(category) => {
                    &&& r is Err && r->Err_0@ == category
                    &&& *final(self) == *old(self)
                },
                None => {
                    &&& error::refused_as(r, old(self).look_refusal(look.after))
                    &&& forall|i: int|
                        0 <= i < RETIRED_REPLACEMENT_COUNT ==> validation::authorizes(
                            #[trigger] final(self).validated.preparations@[i],
                            old(self).document,
                            look.encodings,
                            look.plan_inputs,
                            old(self).request.expected_evidence_sha256@,
                            i,
                        )
                },
            },
    {
        match self.revalidate_held_evidence(&look.before) {
            Err(error) => {
                return Err(error);
            },
            Ok(()) => {},
        }
        let none: Vec<OriginalDestinationCanonicalization> = Vec::new();
        let canonicalizations: &Vec<OriginalDestinationCanonicalization> =
            match &self.device_recovery {
            Some(recovery) => &recovery.receipt.body.original_destination_canonicalizations,
            None => &none,
        };
        assert(canonicalizations@ =~= self.stated());
        let validated = match validate_document(
            &self.document,
            &look.encodings,
            &look.plan_inputs,
            &self.validated.audit.evidence_sha256,
            &self.request,
            manifest,
            canonicalizations,
        ) {
            Err(error) => {
                return Err(error);
            },
            Ok(validated) => validated,
        };
        // Both audits tell what was asked for.
        if !same_text(&validated.audit.evidence_sha256, &self.validated.audit.evidence_sha256)
            || !same_text(&validated.audit.cohort_sha256, &self.validated.audit.cohort_sha256)
            || validated.audit.asset_count != self.validated.audit.asset_count
            || validated.audit.retired_replacement_count
            != self.validated.audit.retired_replacement_count
            || validated.audit.reference_count != self.validated.audit.reference_count {
            return Err(failure("evidence_changed"));
        }
        match &self.device_recovery {
            None => {},
            Some(recovery) => {
                match validate_device_recovery_continuity(
                    &recovery.receipt.body,
                    &self.document,
                    manifest,
                    &self.validated.audit.evidence_sha256,
                    &look.process,
                ) {
                    Err(error) => {
                        return Err(error);
                    },
                    Ok(()) => {},
                }
                match quarantine_plan_from_document(
                    self.operational_document(),
                    manifest,
                    &look.operational_plan_inputs,
                ) {
                    Err(error) => {
                        return Err(error);
                    },
                    Ok(plan) => {
                        if !plan.is_same(&self.operational_quarantine_plan) {
                            return Err(failure("recovery_changed"));
                        }
                    },
                }
            },
        }
        self.validated = validated;
        self.revalidate_held_evidence(&look.after)
    }
}

/// Held evidence passes another look exactly if it is still the same file with the same content and,
/// under a recovery, its receipt is too, has the digest that was asked for, and its body the digest
/// that it says.
pub proof fn held_evidence_passes_as_long_as_nothing_changed(
    held: ValidatedLegacyUploadEvidence,
    look: HeldLook,
)
    ensures
        held.look_refusal(look) is None <==> {
            &&& held.sealed_evidence.steady(look.evidence, look.euid)
            &&& held.device_recovery is Some ==> {
                let recovery = held.device_recovery->0;
                &&& recovery.sealed.sha256@ == recovery.expected_receipt_sha256@
                &&& recovery.receipt.body_sha256@ == digest::sha256_hex(look.body_json@)
                &&& recovery.sealed.steady(look.receipt, look.euid)
            }
        },
{
}

/// Held evidence stands against a manifest exactly if it passes another look, its document is
/// accepted with the canonicalizations of its receipt, and, under a recovery, the receipt is
/// continued by the running signer and the plan on the devices of today is still the one that is
/// held.
pub proof fn held_evidence_stands_against_a_manifest(
    held: ValidatedLegacyUploadEvidence,
    manifest: Manifest,
    look: ManifestLook,
)
    ensures
        held.manifest_refusal(manifest, look) is None <==> {
            &&& held.look_refusal(look.before) is None
            &&& validation::document_refusal(
                held.document,
                look.encodings,
                look.plan_inputs,
                held.request,
                manifest,
                if held.device_recovery is Some {
                    held.device_recovery->0.receipt.body.original_destination_canonicalizations@
                } else {
                    Seq::empty()
                },
            ) is None
            &&& held.device_recovery is Some ==> {
                let inputs = look.operational_plan_inputs;
                &&& look.process.signer() is Ok
                &&& receipt::continuity_refusal(
                    held.device_recovery->0.receipt.body,
                    held.document,
                    manifest,
                    held.request.expected_evidence_sha256@,
                    look.process.signer()->Ok_0,
                ) is None
                &&& plan::sealed_plan_refusal(held.operational(), manifest, inputs) is None
                &&& plan::drafted(held.operational(), inputs.destinations@).same(
                    held.operational_quarantine_plan.content(),
                )
                &&& digest::sha256_hex(inputs.plan_json->0@)
                    == held.operational_quarantine_plan.plan_sha256@
            }
        },
{
}

/// What is wrong with held evidence is told by its name.
pub proof fn faults_of_held_evidence_are_named(
    held: ValidatedLegacyUploadEvidence,
    manifest: Manifest,
    look: HeldLook,
    manifest_look: ManifestLook,
)
    ensures
        !held.sealed_evidence.steady(look.evidence, look.euid) ==> held.look_refusal(look) == Some(
            "evidence_changed"@,
        ),
        held.sealed_evidence.steady(look.evidence, look.euid) && held.device_recovery is Some ==> {
            let recovery = held.device_recovery->0;
            let same = recovery.sealed.sha256@ == recovery.expected_receipt_sha256@
                && recovery.receipt.body_sha256@ == digest::sha256_hex(look.body_json@);
            &&& !same ==> held.look_refusal(look) == Some("recovery_changed"@)
            &&& same && !recovery.sealed.steady(look.receipt, look.euid) ==> held.look_refusal(look)
                == Some("evidence_changed"@)
        },
        ({
            let before = held.look_refusal(manifest_look.before);
            let valid = validation::document_refusal(
                held.document,
                manifest_look.encodings,
                manifest_look.plan_inputs,
                held.request,
                manifest,
                held.stated(),
            );
            let told = held.manifest_refusal(manifest, manifest_look);
            &&& before is Some ==> told == before
            &&& before is None && valid is Some ==> told == valid
            &&& before is None && valid is None && held.device_recovery is Some ==> {
                let continued = receipt::running_continuity_refusal(
                    held.device_recovery->0.receipt.body,
                    held.document,
                    manifest,
                    held.request.expected_evidence_sha256@,
                    manifest_look.process,
                );
                let planned = plan::sealed_plan_refusal(
                    held.operational(),
                    manifest,
                    manifest_look.operational_plan_inputs,
                );
                &&& continued is Some ==> told == continued
                &&& continued is None && planned is Some ==> told == planned
                &&& continued is None && planned is None && told is Some ==> told == Some(
                    "recovery_changed"@,
                )
            }
        }),
{
}

} // verus!
