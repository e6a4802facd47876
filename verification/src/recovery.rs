use vstd::prelude::*;
use vstd::string::*;

use crate::audit;
use crate::audit::has_digest;
use crate::canonicalization::OriginalDestinationCanonicalization;
use crate::devices;
use crate::devices::{
    renumber_members, renumber_raws, renumber_references, renumber_roots,
};
use crate::digest;
use crate::digest::sha256_bytes;
use crate::document::{EvidenceDocument, EvidenceReferenceNormalization, RETIRED_REPLACEMENT_COUNT};
use crate::error;
use crate::error::{failure, LegacyUploadEvidenceError};
use crate::layout;
use crate::layout::{
    is_canonical, is_directory, validate_device_recovery_quarantine_layout, LayoutObservation,
    RootObservation,
};
use crate::manifest::Manifest;
use crate::order;
use crate::order::{stable_sort, InOrder};
use crate::path;
use crate::phase::LegacyUploadMigrationPhase;
use crate::plan;
use crate::plan::{
    coherent_retired_replacement_phase, quarantine_plan_from_document, PlanInputs,
    QUARANTINE_ROOT_MODE,
};
use crate::quarantine::{
    EvidenceQuarantineMember, LegacyUploadMigrationQuarantineFileIdentity, QuarantineRawInput,
    QuarantineRoot,
};
use crate::sealed;
use crate::sealed::{
    open_sealed_references, open_sealed_references_for_partial_recovery, require_held_file,
    revalidate_sealed_references, HeldRead, Presence, SourceRead, PERMISSION_BITS,
};
use crate::signer::DeviceRecoverySigner;
use crate::text;
use crate::text::{same_text, text_before};

verus! {

/// The layout of recovery receipts.
pub const DEVICE_RECOVERY_SCHEMA_VERSION: u64 = 2;

/// The most bytes that a recovery receipt may have.
pub const MAX_DEVICE_RECOVERY_BYTES: u64 = 65_536;

/// The number that the device of a root had when it was sealed, and the number it has now.
#[derive(Debug, PartialEq, Eq)]
pub struct DeviceRecoveryMapping {
    pub previous_device: u64,
    pub current_device: u64,
    pub root_path_sha256: String,
    pub root_inode: u64,
}

impl Clone for DeviceRecoveryMapping {
    fn clone(&self) -> (r: Self)
        ensures
            r == *self,
    {
        DeviceRecoveryMapping {
            previous_device: self.previous_device,
            current_device: self.current_device,
            root_path_sha256: self.root_path_sha256.clone(),
            root_inode: self.root_inode,
        }
    }
}

impl InOrder for DeviceRecoveryMapping {
    open spec fn not_after(self, other: Self) -> bool {
        self.previous_device <= other.previous_device
    }

    fn is_not_after(&self, other: &Self) -> (r: bool) {
        self.previous_device <= other.previous_device
    }
}

impl DeviceRecoveryMapping {
    /// The mapping that leads back.
    pub open spec fn exchanged(self) -> Self {
        DeviceRecoveryMapping {
            previous_device: self.current_device,
            current_device: self.previous_device,
            ..self
        }
    }

    /// The two mappings agree in every field.
    pub open spec fn same(self, other: Self) -> bool {
        &&& self.previous_device == other.previous_device
        &&& self.current_device == other.current_device
        &&& self.root_path_sha256@ == other.root_path_sha256@
        &&& self.root_inode == other.root_inode
    }

    pub fn is_same(&self, other: &Self) -> (r: bool)
        ensures
            r == self.same(*other),
    {
        self.previous_device == other.previous_device && self.current_device
            == other.current_device && same_text(&self.root_path_sha256, &other.root_path_sha256)
            && self.root_inode == other.root_inode
    }
}

/// Where the journal of a replacement confirms its delete.
#[derive(Debug, PartialEq, Eq)]
pub struct DeviceRecoveryJournalAnchor {
    pub asset_id: String,
    pub entry_count: u64,
    pub delete_confirmed_entry_sha256: String,
}

impl Clone for DeviceRecoveryJournalAnchor {
    fn clone(&self) -> (r: Self)
        ensures
            r == *self,
    {
        DeviceRecoveryJournalAnchor {
            asset_id: self.asset_id.clone(),
            entry_count: self.entry_count,
            delete_confirmed_entry_sha256: self.delete_confirmed_entry_sha256.clone(),
        }
    }
}

impl InOrder for DeviceRecoveryJournalAnchor {
    open spec fn not_after(self, other: Self) -> bool {
        !text::before(other.asset_id@, self.asset_id@)
    }

    fn is_not_after(&self, other: &Self) -> (r: bool) {
        !text_before(&other.asset_id, &self.asset_id)
    }
}

/// What a recovery receipt states.
#[derive(Debug, PartialEq, Eq)]
pub struct DeviceRecoveryReceiptBody {
    pub schema_version: u64,
    pub evidence_sha256: String,
    pub cohort_sha256: String,
    pub authoritative_manifest_sha256: String,
    pub checkpoint_current: bool,
    pub migration_phase: String,
    pub mappings: Vec<DeviceRecoveryMapping>,
    pub journal_anchors: Vec<DeviceRecoveryJournalAnchor>,
    pub original_destination_canonicalizations: Vec<OriginalDestinationCanonicalization>,
    pub raw_input_count: u64,
    pub quarantine_member_count: u64,
    pub reference_count: u64,
    pub signer: DeviceRecoverySigner,
}

/// A recovery receipt: a statement and its digest.
#[derive(Debug, PartialEq, Eq)]
pub struct DeviceRecoveryReceipt {
    pub body: DeviceRecoveryReceiptBody,
    pub body_sha256: String,
}

/// A root is the directory that was sealed, on whatever device, and holds the cohort's directory.
pub open spec fn root_recovered(
    root: QuarantineRoot,
    observed: RootObservation,
    require_empty: bool,
) -> bool {
    &&& layout::canonical_is(observed.canonical, root.canonical_path@)
    &&& observed.metadata matches Some(found) && found.is_dir && found.ino == root.inode
        && found.uid == root.owner && found.mode & PERMISSION_BITS == root.mode && found.dev != 0
        && layout::directory_is(observed.cohort, found.dev, root.owner, QUARANTINE_ROOT_MODE)
    &&& require_empty ==> observed.cohort_is_empty
}

/// For each root, the number that its device had and the number that was found.
pub open spec fn observed_pairs(
    roots: Seq<QuarantineRoot>,
    observed: Seq<RootObservation>,
) -> Seq<(u64, u64)> {
    Seq::new(roots.len(), |i: int| (roots[i].device, observed[i].metadata->0.dev))
}

/// All roots are the directories that were sealed, and no two share a device, before or now.
pub open spec fn roots_recovered(
    roots: Seq<QuarantineRoot>,
    observed: Seq<RootObservation>,
    root_path_json: Seq<Vec<u8>>,
    require_empty: bool,
) -> bool {
    &&& observed.len() >= roots.len()
    &&& root_path_json.len() >= roots.len()
    &&& forall|i: int|
        0 <= i < roots.len() ==> root_recovered(#[trigger] roots[i], observed[i], require_empty)
    &&& devices::one_to_one(observed_pairs(roots, observed))
}

/// Some device has another number than it had.
pub open spec fn some_device_moved(pairs: Seq<(u64, u64)>) -> bool {
    exists|i: int| 0 <= i < pairs.len() && (#[trigger] pairs[i]).0 != pairs[i].1
}

/// The category under which the roots are refused, or nothing.
pub open spec fn mappings_refusal(
    roots: Seq<QuarantineRoot>,
    observed: Seq<RootObservation>,
    root_path_json: Seq<Vec<u8>>,
    require_empty: bool,
) -> Option<Seq<char>> {
    if !roots_recovered(roots, observed, root_path_json, require_empty) {
        Some("recovery_root"@)
    } else if !some_device_moved(observed_pairs(roots, observed)) {
        Some("recovery_mapping"@)
    } else {
        None
    }
}

/// A mapping is that of one root.
pub open spec fn maps_root(
    mapping: DeviceRecoveryMapping,
    roots: Seq<QuarantineRoot>,
    observed: Seq<RootObservation>,
    root_path_json: Seq<Vec<u8>>,
    i: int,
) -> bool {
    &&& mapping.previous_device == roots[i].device
    &&& mapping.current_device == observed[i].metadata->0.dev
    &&& mapping.root_path_sha256@ == digest::sha256_hex(root_path_json[i]@)
    &&& mapping.root_inode == roots[i].inode
}

/// A mapping is that of some root.
pub open spec fn maps_some_root(
    mapping: DeviceRecoveryMapping,
    roots: Seq<QuarantineRoot>,
    observed: Seq<RootObservation>,
    root_path_json: Seq<Vec<u8>>,
) -> bool {
    exists|i: int|
        0 <= i < roots.len() && #[trigger] maps_root(mapping, roots, observed, root_path_json, i)
}

/// Exactly one mapping for each root, in ascending order of the numbers that the devices had.
pub open spec fn maps_roots(
    mappings: Seq<DeviceRecoveryMapping>,
    roots: Seq<QuarantineRoot>,
    observed: Seq<RootObservation>,
    root_path_json: Seq<Vec<u8>>,
) -> bool {
    &&& mappings.len() == roots.len()
    &&& forall|k: int, m: int|
        0 <= k < m < mappings.len() ==> (#[trigger] mappings[k]).previous_device < (
        #[trigger] mappings[m]).previous_device
    &&& forall|k: int|
        0 <= k < mappings.len() ==> maps_some_root(
            #[trigger] mappings[k],
            roots,
            observed,
            root_path_json,
        )
}

fn is_root_recovered(root: &QuarantineRoot, observed: &RootObservation, require_empty: bool) -> (r:
    bool)
    ensures
        r == root_recovered(*root, *observed, require_empty),
{
    let found_well: bool = match observed.metadata {
        Some(found) => found.is_dir && found.ino == root.inode && found.uid == root.owner
            && found.mode & PERMISSION_BITS == root.mode && found.dev != 0 && is_directory(
            &observed.cohort,
            found.dev,
            root.owner,
            QUARANTINE_ROOT_MODE,
        ),
        None => false,
    };
    is_canonical(&observed.canonical, &root.canonical_path) && found_well && (!require_empty
        || observed.cohort_is_empty)
}

fn pair_observed_roots(
    roots: &Vec<QuarantineRoot>,
    observed: &Vec<RootObservation>,
    require_empty: bool,
) -> (r: Option<Vec<(u64, u64)>>)
    requires
        observed@.len() >= roots@.len(),
    ensures
        r is Some <==> {
            &&& forall|i: int|
                0 <= i < roots@.len() ==> root_recovered(
                    #[trigger] roots@[i],
                    observed@[i],
                    require_empty,
                )
            &&& devices::one_to_one(observed_pairs(roots@, observed@))
        },
        r matches Some(pairs) ==> pairs@ == observed_pairs(roots@, observed@),
{
    let ghost all = observed_pairs(roots@, observed@);
    let mut pairs: Vec<(u64, u64)> = Vec::new();
    let mut i: usize = 0;
    while i < roots.len()
        invariant
            i <= roots@.len() <= observed@.len(),
            all == observed_pairs(roots@, observed@),
            forall|k: int|
                0 <= k < i ==> root_recovered(
                    #[trigger] roots@[k],
                    observed@[k],
                    require_empty,
                ),
            pairs@ =~= all.take(i as int),
            devices::one_to_one(pairs@),
        decreases roots@.len() - i,
    {
        if !is_root_recovered(&roots[i], &observed[i], require_empty) {
            assert(!root_recovered(roots@[i as int], observed@[i as int], require_empty));
            return None;
        }
        let old_device: u64 = roots[i].device;
        let new_device: u64 = match observed[i].metadata {
            Some(found) => found.dev,
            None => 0,
        };
        let mut k: usize = 0;
        while k < pairs.len()
            invariant
                k <= pairs@.len(),
                pairs@.len() == i,
                i < roots@.len(),
                all == observed_pairs(roots@, observed@),
                pairs@ =~= all.take(i as int),
                all[i as int] == (old_device, new_device),
                forall|a: int|
                    0 <= a < k ==> (#[trigger] pairs@[a]).0 != old_device && pairs@[a].1
                        != new_device,
            decreases pairs@.len() - k,
        {
            if pairs[k].0 == old_device || pairs[k].1 == new_device {
                proof {
                    assert(pairs@[k as int] == all[k as int]);
                    assert(!devices::one_to_one(all)) by {
                        if devices::one_to_one(all) {
                            assert(all[k as int].0 != all[i as int].0 && all[k as int].1
                                != all[i as int].1);
                        }
                    }
                }
                return None;
            }
            k += 1;
        }
        pairs.push((old_device, new_device));
        i += 1;
    }
    assert(pairs@ =~= all);
    Some(pairs)
}

fn has_moved_device(pairs: &Vec<(u64, u64)>) -> (r: bool)
    ensures
        r == some_device_moved(pairs@),
{
    let mut i: usize = 0;
    while i < pairs.len()
        invariant
            i <= pairs@.len(),
            forall|k: int| 0 <= k < i ==> (#[trigger] pairs@[k]).0 == pairs@[k].1,
        decreases pairs@.len() - i,
    {
        if pairs[i].0 != pairs[i].1 {
            return true;
        }
        i += 1;
    }
    false
}

/// The pairs of device numbers of the roots, where the roots are the directories that were sealed
/// and at least one device moved.
fn recovered_pairs(
    roots: &Vec<QuarantineRoot>,
    observed: &Vec<RootObservation>,
    root_path_json: &Vec<Vec<u8>>,
    require_empty: bool,
) -> (r: Result<Vec<(u64, u64)>, LegacyUploadEvidenceError>)
    ensures
        match r {
            Ok(pairs) => {
                &&& mappings_refusal(roots@, observed@, root_path_json@, require_empty) is None
                &&& pairs@ == observed_pairs(roots@, observed@)
            },
            Err(error) => mappings_refusal(roots@, observed@, root_path_json@, require_empty)
                == Some(error@),
        },
{
    if observed.len() < roots.len() || root_path_json.len() < roots.len() {
        return Err(failure("recovery_root"));
    }
    match pair_observed_roots(roots, observed, require_empty) {
        None => Err(failure("recovery_root")),
        Some(pairs) => if has_moved_device(&pairs) {
            Ok(pairs)
        } else {
            Err(failure("recovery_mapping"))
        },
    }
}

/// The mappings of the roots: what each device was called when it was sealed, and what it is
/// called now.
pub fn device_recovery_root_mappings(
    document: &EvidenceDocument,
    require_empty_cohorts: bool,
    observed: &Vec<RootObservation>,
    root_path_json: &Vec<Vec<u8>>,
) -> (r: Result<Vec<DeviceRecoveryMapping>, LegacyUploadEvidenceError>)
    ensures
        match r {
            Ok(mappings) => {
                &&& mappings_refusal(
                    document.quarantine_roots@,
                    observed@,
                    root_path_json@,
                    require_empty_cohorts,
                ) is None
                &&& maps_roots(
                    mappings@,
                    document.quarantine_roots@,
                    observed@,
                    root_path_json@,
                )
            },
            Err(error) => mappings_refusal(
                document.quarantine_roots@,
                observed@,
                root_path_json@,
                require_empty_cohorts,
            ) == Some(error@),
        },
{
    let roots = &document.quarantine_roots;
    let pairs = match recovered_pairs(roots, observed, root_path_json, require_empty_cohorts) {
        Err(error) => {
            return Err(error);
        },
        Ok(pairs) => pairs,
    };
    let mut mappings: Vec<DeviceRecoveryMapping> = Vec::new();
    let mut i: usize = 0;
    while i < roots.len()
        invariant
            i <= roots@.len(),
            roots@ == document.quarantine_roots@,
            roots@.len() <= observed@.len(),
            roots@.len() <= root_path_json@.len(),
            pairs@ == observed_pairs(roots@, observed@),
            mappings@.len() == i,
            forall|k: int|
                0 <= k < i ==> maps_root(
                    #[trigger] mappings@[k],
                    roots@,
                    observed@,
                    root_path_json@,
                    k,
                ),
        decreases roots@.len() - i,
    {
        mappings.push(
            DeviceRecoveryMapping {
                previous_device: roots[i].device,
                current_device: pairs[i].1,
                root_path_sha256: sha256_bytes(&root_path_json[i]),
                root_inode: roots[i].inode,
            },
        );
        i += 1;
    }
    let ghost unsorted = mappings@;
    let out = stable_sort(mappings);
    proof {
        sorted_mappings(unsorted, roots@, observed@, root_path_json@, pairs@);
    }
    Ok(out)
}

proof fn sorted_mappings(
    unsorted: Seq<DeviceRecoveryMapping>,
    roots: Seq<QuarantineRoot>,
    observed: Seq<RootObservation>,
    root_path_json: Seq<Vec<u8>>,
    pairs: Seq<(u64, u64)>,
)
    requires
        pairs == observed_pairs(roots, observed),
        devices::one_to_one(pairs),
        unsorted.len() == roots.len(),
        forall|k: int|
            0 <= k < unsorted.len() ==> maps_root(
                #[trigger] unsorted[k],
                roots,
                observed,
                root_path_json,
                k,
            ),
    ensures
        maps_roots(order::sorted(unsorted), roots, observed, root_path_json),
{
    broadcast use vstd::seq_lib::group_to_multiset_ensures;

    let out = order::sorted(unsorted);
    order::sorted_is_an_ascending_rearrangement(unsorted);
    assert forall|k: int| 0 <= k < out.len() implies maps_some_root(
        #[trigger] out[k],
        roots,
        observed,
        root_path_json,
    ) by {
        assert(out.contains(out[k]));
        assert(out.to_multiset().count(out[k]) > 0);
        assert(unsorted.contains(out[k]));
        let i = choose|i: int| 0 <= i < unsorted.len() && unsorted[i] == out[k];
        assert(maps_root(unsorted[i], roots, observed, root_path_json, i));
    }
    assert(unsorted.no_duplicates()) by {
        assert forall|a: int, b: int|
            0 <= a < unsorted.len() && 0 <= b < unsorted.len() && a != b implies unsorted[a]
            != unsorted[b] by {
            assert(maps_root(unsorted[a], roots, observed, root_path_json, a));
            assert(maps_root(unsorted[b], roots, observed, root_path_json, b));
            if a < b {
                assert(pairs[a].0 != pairs[b].0);
            } else {
                assert(pairs[b].0 != pairs[a].0);
            }
        }
    }
    assert forall|k: int, m: int| 0 <= k < m < out.len() implies (
    #[trigger] out[k]).previous_device < (#[trigger] out[m]).previous_device by {
        assert(out[k].not_after(out[m]));
        if out[k].previous_device == out[m].previous_device {
            let i = choose|i: int|
                0 <= i < roots.len() && maps_root(out[k], roots, observed, root_path_json, i);
            let j = choose|j: int|
                0 <= j < roots.len() && maps_root(out[m], roots, observed, root_path_json, j);
            if i < j {
                assert(pairs[i].0 != pairs[j].0);
            } else if j < i {
                assert(pairs[j].0 != pairs[i].0);
            }
            assert(i == j);
            assert(unsorted.contains(out[k])) by {
                assert(out.to_multiset().count(out[k]) > 0);
            }
            assert(unsorted.contains(out[m])) by {
                assert(out.to_multiset().count(out[m]) > 0);
            }
            let a = choose|a: int| 0 <= a < unsorted.len() && unsorted[a] == out[k];
            let b = choose|b: int| 0 <= b < unsorted.len() && unsorted[b] == out[m];
            assert(maps_root(unsorted[a], roots, observed, root_path_json, a));
            assert(maps_root(unsorted[b], roots, observed, root_path_json, b));
            if a < b {
                assert(pairs[a].0 != pairs[b].0);
            } else if b < a {
                assert(pairs[b].0 != pairs[a].0);
            }
            assert(out[k] == out[m]);
            order::sorted_holds_the_values(unsorted);
        }
    }
}

/// Every file of the document lies on a known device.
pub open spec fn document_known(document: EvidenceDocument, pairs: Seq<(u64, u64)>) -> bool {
    &&& devices::roots_known(pairs, document.quarantine_roots@)
    &&& devices::members_known(pairs, document.quarantine_members@)
    &&& devices::raws_known(pairs, document.raw_inputs@)
    &&& devices::references_known(pairs, document.reference_normalizations@)
}

/// The operational document: the sealed one with the numbers that its devices have now, and
/// nothing else changed. Its roots are in ascending order of those numbers.
pub open spec fn operational_form(
    operational: EvidenceDocument,
    document: EvidenceDocument,
    pairs: Seq<(u64, u64)>,
) -> bool {
    &&& operational.schema_version == document.schema_version
    &&& operational.migration_id@ == document.migration_id@
    &&& operational.asset_count == document.asset_count
    &&& operational.retired_replacement_count == document.retired_replacement_count
    &&& operational.reference_count == document.reference_count
    &&& operational.cohort_sha256@ == document.cohort_sha256@
    &&& operational.assets@ == document.assets@
    &&& operational.retired_replacements@ == document.retired_replacements@
    &&& operational.quarantine_roots@ == order::sorted(
        devices::roots_now(pairs, document.quarantine_roots@),
    )
    &&& operational.quarantine_members@ == devices::members_now(pairs, document.quarantine_members@)
    &&& operational.raw_inputs@ == devices::raws_now(pairs, document.raw_inputs@)
    &&& operational.reference_normalizations@ == devices::references_now(
        pairs,
        document.reference_normalizations@,
    )
}

/// The operational document, where every file of the sealed one lies on a known device.
pub fn move_document(document: &EvidenceDocument, pairs: &Vec<(u64, u64)>) -> (r: Option<
    EvidenceDocument,
>)
    ensures
        r is Some <==> document_known(*document, pairs@),
        r matches Some(operational) ==> operational_form(operational, *document, pairs@),
{
    match (
        renumber_roots(pairs, &document.quarantine_roots),
        renumber_members(pairs, &document.quarantine_members),
        renumber_raws(pairs, &document.raw_inputs),
        renumber_references(pairs, &document.reference_normalizations),
    ) {
        (Some(roots), Some(members), Some(raws), Some(references)) => {
            let mut operational = document.duplicate();
            operational.quarantine_roots = stable_sort(roots);
            operational.quarantine_members = members;
            operational.raw_inputs = raws;
            operational.reference_normalizations = references;
            Some(operational)
        },
        _ => None,
    }
}

/// The place of the first root on a device, from the given place on.
pub open spec fn root_index(roots: Seq<QuarantineRoot>, device: u64, from: int) -> Option<int>
    decreases roots.len() - from,
{
    if from < 0 || from >= roots.len() {
        None
    } else if roots[from].device == device {
        Some(from)
    } else {
        root_index(roots, device, from + 1)
    }
}

fn index_of_root(roots: &Vec<QuarantineRoot>, device: u64) -> (r: Option<usize>)
    ensures
        match r {
            Some(i) => i < roots@.len() && root_index(roots@, device, 0) == Some(i as int),
            None => root_index(roots@, device, 0) is None,
        },
{
    let mut i: usize = 0;
    while i < roots.len()
        invariant
            i <= roots@.len(),
            root_index(roots@, device, 0) == root_index(roots@, device, i as int),
        decreases roots@.len() - i,
    {
        if roots[i].device == device {
            return Some(i);
        }
        i += 1;
    }
    None
}

/// For each mapping, the number that the device had and the number it has now.
pub open spec fn mapping_pairs(mappings: Seq<DeviceRecoveryMapping>) -> Seq<(u64, u64)> {
    mappings.map_values(
        |mapping: DeviceRecoveryMapping| (mapping.previous_device, mapping.current_device),
    )
}

/// A mapping moves the device of a root of the document, and seals that root.
pub open spec fn mapping_sound(
    mapping: DeviceRecoveryMapping,
    roots: Seq<QuarantineRoot>,
    root_path_json: Seq<Vec<u8>>,
) -> bool {
    &&& mapping.previous_device != mapping.current_device
    &&& mapping.current_device != 0
    &&& root_index(roots, mapping.previous_device, 0) matches Some(i) && mapping.root_inode
        == roots[i].inode && audit::encoded_digest(root_path_json, i) == Some(
        mapping.root_path_sha256@,
    )
}

/// Mappings that a receipt may state: one for each root, in strictly ascending order of the
/// numbers that the devices had, no two leading to the same number.
pub open spec fn mappings_sound(
    mappings: Seq<DeviceRecoveryMapping>,
    roots: Seq<QuarantineRoot>,
    root_path_json: Seq<Vec<u8>>,
) -> bool {
    &&& mappings.len() == roots.len()
    &&& mappings.len() > 0
    &&& forall|i: int, j: int|
        0 <= i < j < mappings.len() ==> {
            &&& (#[trigger] mappings[i]).previous_device < (#[trigger] mappings[j]).previous_device
            &&& mappings[i].current_device != mappings[j].current_device
        }
    &&& forall|i: int|
        0 <= i < mappings.len() ==> mapping_sound(#[trigger] mappings[i], roots, root_path_json)
}

fn pair_mappings(
    mappings: &Vec<DeviceRecoveryMapping>,
    roots: &Vec<QuarantineRoot>,
    root_path_json: &Vec<Vec<u8>>,
) -> (r: Option<Vec<(u64, u64)>>)
    ensures
        r is Some <==> mappings_sound(mappings@, roots@, root_path_json@),
        r matches Some(pairs) ==> pairs@ == mapping_pairs(mappings@),
{
    if mappings.len() != roots.len() || mappings.len() == 0 {
        return None;
    }
    let mut pairs: Vec<(u64, u64)> = Vec::new();
    let mut i: usize = 0;
    while i < mappings.len()
        invariant
            i <= mappings@.len(),
            mappings@.len() == roots@.len(),
            mappings@.len() > 0,
            pairs@ =~= mapping_pairs(mappings@).take(i as int),
            forall|a: int, b: int|
                0 <= a < b < i ==> {
                    &&& (#[trigger] mappings@[a]).previous_device < (
                    #[trigger] mappings@[b]).previous_device
                    &&& mappings@[a].current_device != mappings@[b].current_device
                },
            forall|k: int|
                0 <= k < i ==> mapping_sound(
                    #[trigger] mappings@[k],
                    roots@,
                    root_path_json@,
                ),
        decreases mappings@.len() - i,
    {
        let item = &mappings[i];
        if i > 0 && mappings[i - 1].previous_device >= item.previous_device {
            assert(!(mappings@[i - 1].previous_device < mappings@[i as int].previous_device));
            return None;
        }
        let sealed: bool = match index_of_root(roots, item.previous_device) {
            Some(k) => item.root_inode == roots[k].inode && has_digest(
                root_path_json,
                k,
                &item.root_path_sha256,
            ),
            None => false,
        };
        if item.previous_device == item.current_device || item.current_device == 0 || !sealed {
            assert(!mapping_sound(mappings@[i as int], roots@, root_path_json@));
            return None;
        }
        let mut k: usize = 0;
        while k < i
            invariant
                k <= i < mappings@.len(),
                forall|a: int|
                    0 <= a < k ==> (#[trigger] mappings@[a]).current_device
                        != mappings@[i as int].current_device,
            decreases i - k,
        {
            if mappings[k].current_device == mappings[i].current_device {
                assert(mappings@[k as int].current_device == mappings@[i as int].current_device);
                return None;
            }
            k += 1;
        }
        assert forall|a: int| 0 <= a < i implies (#[trigger] mappings@[a]).previous_device
            < mappings@[i as int].previous_device by {
            if a < i - 1 {
                assert(mappings@[a].previous_device < mappings@[i - 1].previous_device);
            }
        }
        pairs.push((item.previous_device, item.current_device));
        i += 1;
    }
    assert(pairs@ =~= mapping_pairs(mappings@));
    Some(pairs)
}

/// The operational document that a receipt calls for. Refused as `recovery_mapping` where the
/// receipt does not move the devices of exactly the roots that the document seals, or where a file
/// lies on another device.
pub fn operational_document_from_recovery_receipt(
    document: &EvidenceDocument,
    body: &DeviceRecoveryReceiptBody,
    root_path_json: &Vec<Vec<u8>>,
) -> (r: Result<EvidenceDocument, LegacyUploadEvidenceError>)
    ensures
        match r {
            Ok(operational) => {
                &&& mappings_sound(body.mappings@, document.quarantine_roots@, root_path_json@)
                &&& document_known(*document, mapping_pairs(body.mappings@))
                &&& operational_form(operational, *document, mapping_pairs(body.mappings@))
            },
            Err(error) => {
                &&& error@ == "recovery_mapping"@
                &&& !(mappings_sound(body.mappings@, document.quarantine_roots@, root_path_json@)
                    && document_known(*document, mapping_pairs(body.mappings@)))
            },
        },
{
    match pair_mappings(&body.mappings, &document.quarantine_roots, root_path_json) {
        None => Err(failure("recovery_mapping")),
        Some(pairs) => match move_document(document, &pairs) {
            None => Err(failure("recovery_mapping")),
            Some(operational) => Ok(operational),
        },
    }
}

/// The mappings of an accepted receipt keep all devices apart.
pub proof fn accepted_mappings_are_one_to_one(
    mappings: Seq<DeviceRecoveryMapping>,
    roots: Seq<QuarantineRoot>,
    root_path_json: Seq<Vec<u8>>,
)
    requires
        mappings_sound(mappings, roots, root_path_json),
    ensures
        devices::one_to_one(mapping_pairs(mappings)),
{
    let pairs = mapping_pairs(mappings);
    assert forall|i: int, j: int| #![trigger pairs[i], pairs[j]] 0 <= i < j < pairs.len() implies
        pairs[i].0 != pairs[j].0 && pairs[i].1 != pairs[j].1 by {
        assert(mappings[i].previous_device < mappings[j].previous_device);
    }
}

/// Three looks at a file, from the list of all such looks.
pub open spec fn look_at(looks: Seq<HeldRead>, i: int) -> HeldRead {
    if 0 <= i < looks.len() {
        looks[i]
    } else {
        HeldRead {
            read: SourceRead::OpenFailed,
            held: SourceRead::OpenFailed,
            named: SourceRead::OpenFailed,
        }
    }
}

/// The category under which one member is refused: its devices have to be known, and, where
/// nothing may have been moved yet, it has to lie at its source.
pub open spec fn member_refusal(
    member: EvidenceQuarantineMember,
    pairs: Seq<(u64, u64)>,
    look: HeldRead,
    partial: bool,
) -> Option<Seq<char>> {
    if !devices::known(pairs, member.source.device) || !devices::known(pairs, member.root_device) {
        Some("recovery_mapping"@)
    } else if partial {
        None
    } else {
        sealed::held_refusal(
            member.source_path@,
            look,
            member.source.on_device(devices::now(pairs, member.source.device))@,
            "recovery_member"@,
        )
    }
}

/// The first refusal among the members, from the given place on.
pub open spec fn members_refusal_from(
    members: Seq<EvidenceQuarantineMember>,
    pairs: Seq<(u64, u64)>,
    looks: Seq<HeldRead>,
    partial: bool,
    from: int,
) -> Option<Seq<char>>
    decreases members.len() - from,
{
    if from < 0 || from >= members.len() {
        None
    } else {
        match member_refusal(members[from], pairs, look_at(looks, from), partial) {
            Some(category) => Some(category),
            None => members_refusal_from(members, pairs, looks, partial, from + 1),
        }
    }
}

/// The category under which one original is refused: its device has to be known, and it has to lie
/// at its path.
pub open spec fn raw_refusal(
    raw: QuarantineRawInput,
    pairs: Seq<(u64, u64)>,
    look: HeldRead,
) -> Option<Seq<char>> {
    if !devices::known(pairs, raw.source.device) {
        Some("recovery_mapping"@)
    } else {
        sealed::held_refusal(
            raw.path@,
            look,
            raw.source.on_device(devices::now(pairs, raw.source.device))@,
            "recovery_raw"@,
        )
    }
}

/// The first refusal among the originals, from the given place on.
pub open spec fn raws_refusal_from(
    raws: Seq<QuarantineRawInput>,
    pairs: Seq<(u64, u64)>,
    looks: Seq<HeldRead>,
    from: int,
) -> Option<Seq<char>>
    decreases raws.len() - from,
{
    if from < 0 || from >= raws.len() {
        None
    } else {
        match raw_refusal(raws[from], pairs, look_at(looks, from)) {
            Some(category) => Some(category),
            None => raws_refusal_from(raws, pairs, looks, from + 1),
        }
    }
}

fn require_look(
    path: &str,
    looks: &Vec<HeldRead>,
    i: usize,
    expected: &crate::quarantine::LegacyUploadMigrationQuarantineFileIdentity,
    category: &'static str,
) -> (r: Result<(), LegacyUploadEvidenceError>)
    ensures
        error::refused_as(
            r,
            sealed::held_refusal(path@, look_at(looks@, i as int), expected@, category@),
        ),
{
    if i < looks.len() {
        require_held_file(path, &looks[i], expected, category)
    } else {
        require_held_file(
            path,
            &HeldRead {
                read: SourceRead::OpenFailed,
                held: SourceRead::OpenFailed,
                named: SourceRead::OpenFailed,
            },
            expected,
            category,
        )
    }
}

fn require_members(
    members: &Vec<EvidenceQuarantineMember>,
    pairs: &Vec<(u64, u64)>,
    looks: &Vec<HeldRead>,
    partial: bool,
) -> (r: Result<(), LegacyUploadEvidenceError>)
    ensures
        error::refused_as(r, members_refusal_from(members@, pairs@, looks@, partial, 0)),
        r is Ok ==> devices::members_known(pairs@, members@),
{
    let mut i: usize = 0;
    while i < members.len()
        invariant
            i <= members@.len(),
            members_refusal_from(members@, pairs@, looks@, partial, 0) == members_refusal_from(
                members@,
                pairs@,
                looks@,
                partial,
                i as int,
            ),
            forall|k: int|
                0 <= k < i ==> devices::known(pairs@, (#[trigger] members@[k]).source.device)
                    && devices::known(pairs@, members@[k].root_device),
        decreases members@.len() - i,
    {
        let member = &members[i];
        match (
            devices::renumber(pairs, member.source.device),
            devices::renumber(pairs, member.root_device),
        ) {
            (Some(source_device), Some(_)) => {
                if !partial {
                    let mut expected = member.source.clone();
                    expected.device = source_device;
                    assert(expected == member.source.on_device(
                        devices::now(pairs@, member.source.device),
                    ));
                    match require_look(
                        &member.source_path,
                        looks,
                        i,
                        &expected,
                        "recovery_member",
                    ) {
                        Err(error) => {
                            return Err(error);
                        },
                        Ok(()) => {},
                    }
                }
            },
            _ => {
                return Err(failure("recovery_mapping"));
            },
        }
        i += 1;
    }
    Ok(())
}

fn require_raws(
    raws: &Vec<QuarantineRawInput>,
    pairs: &Vec<(u64, u64)>,
    looks: &Vec<HeldRead>,
) -> (r: Result<(), LegacyUploadEvidenceError>)
    ensures
        error::refused_as(r, raws_refusal_from(raws@, pairs@, looks@, 0)),
        r is Ok ==> devices::raws_known(pairs@, raws@),
{
    let mut i: usize = 0;
    while i < raws.len()
        invariant
            i <= raws@.len(),
            raws_refusal_from(raws@, pairs@, looks@, 0) == raws_refusal_from(
                raws@,
                pairs@,
                looks@,
                i as int,
            ),
            forall|k: int|
                0 <= k < i ==> devices::known(pairs@, (#[trigger] raws@[k]).source.device),
        decreases raws@.len() - i,
    {
        let raw = &raws[i];
        match devices::renumber(pairs, raw.source.device) {
            Some(device) => {
                let mut expected = raw.source.clone();
                expected.device = device;
                assert(expected == raw.source.on_device(devices::now(pairs@, raw.source.device)));
                match require_look(&raw.path, looks, i, &expected, "recovery_raw") {
                    Err(error) => {
                        return Err(error);
                    },
                    Ok(()) => {},
                }
            },
            None => {
                return Err(failure("recovery_mapping"));
            },
        }
        i += 1;
    }
    Ok(())
}

/// What was found on disk when a receipt is to be made. Each list goes with the list of the
/// document that it is named after.
#[derive(Debug, PartialEq, Eq)]
pub struct OperationalObservation {
    pub roots: Vec<RootObservation>,
    /// The canonical JSON of the path of each root.
    pub root_path_json: Vec<Vec<u8>>,
    pub members: Vec<HeldRead>,
    pub raws: Vec<HeldRead>,
    /// The references, where none may have been moved yet.
    pub references: Vec<SourceRead>,
    /// The references, where some may have been moved already.
    pub present_references: Vec<Presence>,
    /// Second looks at the references that are held: at the open files, and at those that have
    /// their names by then.
    pub references_held: Vec<SourceRead>,
    pub references_named: Vec<SourceRead>,
    pub layout: LayoutObservation,
    pub plan_inputs: PlanInputs,
}

/// The category under which the references are refused, or nothing.
pub open spec fn references_refusal(
    references: Seq<EvidenceReferenceNormalization>,
    observed: OperationalObservation,
    partial: bool,
) -> Option<Seq<char>> {
    if partial {
        if !sealed::all_holdable(references, observed.present_references@) {
            Some("reference_descriptor"@)
        } else {
            sealed::references_reread_refusal(
                sealed::present_memories(observed.present_references@, references.len()),
                observed.references_held@,
                observed.references_named@,
                0,
            )
        }
    } else {
        match sealed::references_open_refusal(references, observed.references@, 0) {
            Some(category) => Some(category),
            None => sealed::references_reread_refusal(
                sealed::read_memories(observed.references@, references.len()),
                observed.references_held@,
                observed.references_named@,
                0,
            ),
        }
    }
}

fn require_references(
    operational: &EvidenceDocument,
    observed: &OperationalObservation,
    partial: bool,
) -> (r: Result<(), LegacyUploadEvidenceError>)
    ensures
        error::refused_as(
            r,
            references_refusal(operational.reference_normalizations@, *observed, partial),
        ),
{
    let opened = if partial {
        open_sealed_references_for_partial_recovery(operational, &observed.present_references)
    } else {
        open_sealed_references(operational, &observed.references)
    };
    match opened {
        Err(error) => Err(error),
        Ok(references) => revalidate_sealed_references(
            &references,
            &observed.references_held,
            &observed.references_named,
        ),
    }
}

/// The category under which the disk is refused before the operational document is looked at.
pub open spec fn recovery_refusal(
    document: EvidenceDocument,
    manifest: Manifest,
    partial: bool,
    observed: OperationalObservation,
) -> Option<Seq<char>> {
    let phase = plan::cohort_phase(document, manifest);
    let pairs = observed_pairs(document.quarantine_roots@, observed.roots@);
    let mapped = mappings_refusal(
        document.quarantine_roots@,
        observed.roots@,
        observed.root_path_json@,
        !partial,
    );
    let members = members_refusal_from(
        document.quarantine_members@,
        pairs,
        observed.members@,
        partial,
        0,
    );
    let raws = raws_refusal_from(document.raw_inputs@, pairs, observed.raws@, 0);
    if phase is Err {
        Some(phase->Err_0)
    } else if phase->Ok_0 != Some(LegacyUploadMigrationPhase::DeleteConfirmed) {
        Some("recovery_phase"@)
    } else if mapped is Some {
        mapped
    } else if members is Some {
        members
    } else if raws is Some {
        raws
    } else if !devices::references_known(pairs, document.reference_normalizations@) {
        Some("recovery_mapping"@)
    } else {
        None
    }
}

/// The category under which the operational document is refused, or nothing.
pub open spec fn operational_refusal(
    operational: EvidenceDocument,
    manifest: Manifest,
    partial: bool,
    observed: OperationalObservation,
    euid: u32,
) -> Option<Seq<char>> {
    let laid = layout::layout_refusal(
        operational,
        manifest,
        LegacyUploadMigrationPhase::DeleteConfirmed,
        observed.plan_inputs,
        observed.layout,
        euid,
    );
    let references = references_refusal(
        operational.reference_normalizations@,
        observed,
        partial,
    );
    if partial && laid is Some {
        laid
    } else if references is Some {
        references
    } else {
        plan::sealed_plan_refusal(operational, manifest, observed.plan_inputs)
    }
}

/// The operational document of a cohort whose deletes are confirmed, and the mappings of its
/// roots. Every file has to be found where it was sealed, on whatever device; where `partial` is
/// set, the files of the cohort may have been moved into quarantine already.
pub fn operational_document_for_device_recovery_with_mode(
    document: &EvidenceDocument,
    manifest: &Manifest,
    partial: bool,
    observed: &OperationalObservation,
    euid: u32,
) -> (r: Result<(EvidenceDocument, Vec<DeviceRecoveryMapping>), LegacyUploadEvidenceError>)
    requires
        document.retired_replacements@.len() >= RETIRED_REPLACEMENT_COUNT,
    ensures
        match r {
            Ok((operational, mappings)) => {
                &&& recovery_refusal(*document, *manifest, partial, *observed) is None
                &&& operational_refusal(operational, *manifest, partial, *observed, euid) is None
                &&& operational_form(
                    operational,
                    *document,
                    observed_pairs(document.quarantine_roots@, observed.roots@),
                )
                &&& maps_roots(
                    mappings@,
                    document.quarantine_roots@,
                    observed.roots@,
                    observed.root_path_json@,
                )
            },
            Err(error) => match recovery_refusal(*document, *manifest, partial, *observed) {
                Some(category) => error@ == category,
                None => exists|operational: EvidenceDocument|
                    operational_form(
                        operational,
                        *document,
                        observed_pairs(document.quarantine_roots@, observed.roots@),
                    ) && #[trigger] operational_refusal(
                        operational,
                        *manifest,
                        partial,
                        *observed,
                        euid,
                    ) == Some(error@),
            },
        },
{
    match coherent_retired_replacement_phase(document, manifest) {
        Err(error) => {
            return Err(error);
        },
        Ok(phase) => {
            let confirmed: bool = match phase {
                Some(phase) => phase == LegacyUploadMigrationPhase::DeleteConfirmed,
                None => false,
            };
            if !confirmed {
                return Err(failure("recovery_phase"));
            }
        },
    }
    let mappings = match device_recovery_root_mappings(
        document,
        !partial,
        &observed.roots,
        &observed.root_path_json,
    ) {
        Err(error) => {
            return Err(error);
        },
        Ok(mappings) => mappings,
    };
    let pairs = match recovered_pairs(
        &document.quarantine_roots,
        &observed.roots,
        &observed.root_path_json,
        !partial,
    ) {
        Err(error) => {
            return Err(error);
        },
        Ok(pairs) => pairs,
    };
    match require_members(&document.quarantine_members, &pairs, &observed.members, partial) {
        Err(error) => {
            return Err(error);
        },
        Ok(()) => {},
    }
    match require_raws(&document.raw_inputs, &pairs, &observed.raws) {
        Err(error) => {
            return Err(error);
        },
        Ok(()) => {},
    }
    let operational = match move_document(document, &pairs) {
        None => {
            proof {
                observed_roots_are_known(document.quarantine_roots@, observed.roots@);
            }
            return Err(failure("recovery_mapping"));
        },
        Some(operational) => operational,
    };
    if partial {
        match validate_device_recovery_quarantine_layout(
            &operational,
            manifest,
            LegacyUploadMigrationPhase::DeleteConfirmed,
            &observed.plan_inputs,
            &observed.layout,
            euid,
        ) {
            Err(error) => {
                assert(operational_refusal(operational, *manifest, partial, *observed, euid) == Some(
                    error@,
                ));
                return Err(error);
            },
            Ok(()) => {},
        }
    }
    match require_references(&operational, observed, partial) {
        Err(error) => {
            assert(operational_refusal(operational, *manifest, partial, *observed, euid) == Some(
                error@,
            ));
            return Err(error);
        },
        Ok(()) => {},
    }
    match quarantine_plan_from_document(&operational, manifest, &observed.plan_inputs) {
        Err(error) => {
            assert(operational_refusal(operational, *manifest, partial, *observed, euid) == Some(
                error@,
            ));
            Err(error)
        },
        Ok(_) => Ok((operational, mappings)),
    }
}

proof fn observed_roots_are_known(roots: Seq<QuarantineRoot>, observed: Seq<RootObservation>)
    ensures
        devices::roots_known(observed_pairs(roots, observed), roots),
{
    let pairs = observed_pairs(roots, observed);
    assert forall|i: int| 0 <= i < roots.len() implies devices::known(
        pairs,
        (#[trigger] roots[i]).device,
    ) by {
        assert(pairs[i].0 == roots[i].device);
        devices::pair_is_found(pairs, roots[i].device, 0, i);
    }
}

proof fn first_root_is_found(roots: Seq<QuarantineRoot>, device: u64, from: int, at: int)
    requires
        0 <= from <= at < roots.len(),
        roots[at].device == device,
        forall|i: int| from <= i < at ==> (#[trigger] roots[i]).device != device,
    ensures
        root_index(roots, device, from) == Some(at),
    decreases at - from,
{
    if from < at {
        assert(roots[from].device != device);
        first_root_is_found(roots, device, from + 1, at);
    }
}

/// The place of the root that a mapping is of.
spec fn mapped_place(
    mapping: DeviceRecoveryMapping,
    roots: Seq<QuarantineRoot>,
    observed: Seq<RootObservation>,
    root_path_json: Seq<Vec<u8>>,
) -> int {
    choose|i: int|
        0 <= i < roots.len() && #[trigger] maps_root(mapping, roots, observed, root_path_json, i)
}

/// The mappings of recovered roots leave none of the roots out.
pub proof fn every_root_is_mapped(
    mappings: Seq<DeviceRecoveryMapping>,
    roots: Seq<QuarantineRoot>,
    observed: Seq<RootObservation>,
    root_path_json: Seq<Vec<u8>>,
    root: int,
)
    requires
        maps_roots(mappings, roots, observed, root_path_json),
        0 <= root < roots.len(),
    ensures
        exists|k: int|
            0 <= k < mappings.len() && #[trigger] maps_root(
                mappings[k],
                roots,
                observed,
                root_path_json,
                root,
            ),
{
    let n = roots.len() as int;
    let f = |k: int| mapped_place(mappings[k], roots, observed, root_path_json);
    let range = vstd::set_lib::set_int_range(0, n);
    vstd::set_lib::lemma_int_range(0, n);
    assert forall|k: int| 0 <= k < n implies 0 <= #[trigger] f(k) < n && maps_root(
        mappings[k],
        roots,
        observed,
        root_path_json,
        f(k),
    ) by {
        assert(maps_some_root(mappings[k], roots, observed, root_path_json));
    }
    assert(vstd::relations::injective_on(f, range)) by {
        assert forall|a: int, b: int|
            range.contains(a) && range.contains(b) && #[trigger] f(a) == #[trigger] f(
                b,
            ) implies a == b by {
            assert(0 <= f(a) < n && 0 <= f(b) < n);
            assert(mappings[a].previous_device == mappings[b].previous_device);
            if a < b {
                assert(mappings[a].previous_device < mappings[b].previous_device);
            } else if b < a {
                assert(mappings[b].previous_device < mappings[a].previous_device);
            }
        }
    }
    let image = range.map(f);
    vstd::set_lib::lemma_map_size(range, image, f);
    assert(image.subset_of(range)) by {
        assert forall|x: int| image.contains(x) implies range.contains(x) by {
            let k = choose|k: int| range.contains(k) && x == f(k);
            assert(0 <= f(k) < n);
        }
    }
    vstd::set_lib::lemma_subset_equality(image, range);
    assert(range.contains(root));
    assert(image.contains(root));
    let k = choose|k: int| range.contains(k) && root == f(k);
    assert(maps_root(mappings[k], roots, observed, root_path_json, root));
}

/// The mappings of recovered roots are ones that a receipt may state, where every device has
/// another number than it had.
pub proof fn recovered_mappings_are_sound(
    mappings: Seq<DeviceRecoveryMapping>,
    roots: Seq<QuarantineRoot>,
    observed: Seq<RootObservation>,
    root_path_json: Seq<Vec<u8>>,
    require_empty: bool,
)
    requires
        roots_recovered(roots, observed, root_path_json, require_empty),
        maps_roots(mappings, roots, observed, root_path_json),
        roots.len() > 0,
        forall|i: int|
            0 <= i < roots.len() ==> (#[trigger] roots[i]).device != observed[i].metadata->0.dev,
    ensures
        mappings_sound(mappings, roots, root_path_json),
{
    let pairs = observed_pairs(roots, observed);
    assert forall|k: int| 0 <= k < mappings.len() implies mapping_sound(
        #[trigger] mappings[k],
        roots,
        root_path_json,
    ) by {
        assert(maps_some_root(mappings[k], roots, observed, root_path_json));
        let i = mapped_place(mappings[k], roots, observed, root_path_json);
        assert(maps_root(mappings[k], roots, observed, root_path_json, i));
        assert(root_recovered(roots[i], observed[i], require_empty));
        assert forall|j: int| 0 <= j < i implies (#[trigger] roots[j]).device
            != mappings[k].previous_device by {
            assert(pairs[j].0 != pairs[i].0);
        }
        first_root_is_found(roots, mappings[k].previous_device, 0, i);
    }
    assert forall|k: int, m: int| 0 <= k < m < mappings.len() implies {
        &&& (#[trigger] mappings[k]).previous_device < (#[trigger] mappings[m]).previous_device
        &&& mappings[k].current_device != mappings[m].current_device
    } by {
        assert(maps_some_root(mappings[k], roots, observed, root_path_json));
        assert(maps_some_root(mappings[m], roots, observed, root_path_json));
        let i = mapped_place(mappings[k], roots, observed, root_path_json);
        let j = mapped_place(mappings[m], roots, observed, root_path_json);
        assert(maps_root(mappings[k], roots, observed, root_path_json, i));
        assert(maps_root(mappings[m], roots, observed, root_path_json, j));
        assert(pairs[i] == (mappings[k].previous_device, mappings[k].current_device));
        assert(pairs[j] == (mappings[m].previous_device, mappings[m].current_device));
        if i < j {
            assert(pairs[i].1 != pairs[j].1);
        } else {
            assert(pairs[j].1 != pairs[i].1);
        }
    }
}

/// A device that is known by the roots that were found is known by their mappings.
pub proof fn mapped_devices_are_known(
    mappings: Seq<DeviceRecoveryMapping>,
    roots: Seq<QuarantineRoot>,
    observed: Seq<RootObservation>,
    root_path_json: Seq<Vec<u8>>,
    device: u64,
)
    requires
        maps_roots(mappings, roots, observed, root_path_json),
        devices::known(observed_pairs(roots, observed), device),
    ensures
        devices::known(mapping_pairs(mappings), device),
{
    let pairs = observed_pairs(roots, observed);
    devices::renumbered_from_a_pair(pairs, device, 0);
    let i = choose|i: int|
        0 <= i < pairs.len() && #[trigger] pairs[i] == (device, devices::now(pairs, device));
    every_root_is_mapped(mappings, roots, observed, root_path_json, i);
    let k = choose|k: int|
        0 <= k < mappings.len() && #[trigger] maps_root(
            mappings[k],
            roots,
            observed,
            root_path_json,
            i,
        );
    assert(mapping_pairs(mappings)[k].0 == device);
    devices::pair_is_found(mapping_pairs(mappings), device, 0, k);
}

proof fn accepted_members_are_known(
    members: Seq<EvidenceQuarantineMember>,
    pairs: Seq<(u64, u64)>,
    looks: Seq<HeldRead>,
    partial: bool,
    from: int,
    at: int,
)
    requires
        0 <= from <= at < members.len(),
        members_refusal_from(members, pairs, looks, partial, from) is None,
    ensures
        devices::known(pairs, members[at].source.device),
        devices::known(pairs, members[at].root_device),
    decreases at - from,
{
    if from < at {
        accepted_members_are_known(members, pairs, looks, partial, from + 1, at);
    }
}

proof fn accepted_raws_are_known(
    raws: Seq<QuarantineRawInput>,
    pairs: Seq<(u64, u64)>,
    looks: Seq<HeldRead>,
    from: int,
    at: int,
)
    requires
        0 <= from <= at < raws.len(),
        raws_refusal_from(raws, pairs, looks, from) is None,
    ensures
        devices::known(pairs, raws[at].source.device),
    decreases at - from,
{
    if from < at {
        accepted_raws_are_known(raws, pairs, looks, from + 1, at);
    }
}

/// Where the disk bears a document out, every file of the document lies on a device that the
/// mappings of its roots know.
pub proof fn recovered_documents_are_known(
    document: EvidenceDocument,
    manifest: Manifest,
    partial: bool,
    observed: OperationalObservation,
    mappings: Seq<DeviceRecoveryMapping>,
)
    requires
        recovery_refusal(document, manifest, partial, observed) is None,
        maps_roots(
            mappings,
            document.quarantine_roots@,
            observed.roots@,
            observed.root_path_json@,
        ),
    ensures
        document_known(document, mapping_pairs(mappings)),
{
    let roots = document.quarantine_roots@;
    let found = observed.roots@;
    let json = observed.root_path_json@;
    let pairs = observed_pairs(roots, found);
    observed_roots_are_known(roots, found);
    assert forall|i: int| 0 <= i < roots.len() implies devices::known(
        mapping_pairs(mappings),
        (#[trigger] roots[i]).device,
    ) by {
        mapped_devices_are_known(mappings, roots, found, json, roots[i].device);
    }
    let members = document.quarantine_members@;
    assert forall|i: int| 0 <= i < members.len() implies devices::known(
        mapping_pairs(mappings),
        (#[trigger] members[i]).source.device,
    ) && devices::known(mapping_pairs(mappings), members[i].root_device) by {
        accepted_members_are_known(members, pairs, observed.members@, partial, 0, i);
        mapped_devices_are_known(mappings, roots, found, json, members[i].source.device);
        mapped_devices_are_known(mappings, roots, found, json, members[i].root_device);
    }
    let raws = document.raw_inputs@;
    assert forall|i: int| 0 <= i < raws.len() implies devices::known(
        mapping_pairs(mappings),
        (#[trigger] raws[i]).source.device,
    ) by {
        accepted_raws_are_known(raws, pairs, observed.raws@, 0, i);
        mapped_devices_are_known(mappings, roots, found, json, raws[i].source.device);
    }
    let references = document.reference_normalizations@;
    assert forall|i: int| 0 <= i < references.len() implies devices::known(
        mapping_pairs(mappings),
        (#[trigger] references[i]).device,
    ) by {
        mapped_devices_are_known(mappings, roots, found, json, references[i].device);
    }
}

/// Recovery changes nothing of a document but the numbers of its devices, and keeps together what
/// lay together and apart what lay apart.
pub proof fn recovery_changes_devices_alone(
    operational: EvidenceDocument,
    document: EvidenceDocument,
    pairs: Seq<(u64, u64)>,
    i: int,
    j: int,
)
    requires
        operational_form(operational, document, pairs),
        document_known(document, pairs),
        devices::one_to_one(pairs),
        0 <= i < document.quarantine_members@.len(),
        0 <= j < document.quarantine_members@.len(),
    ensures
        operational.assets@ == document.assets@,
        operational.retired_replacements@ == document.retired_replacements@,
        operational.cohort_sha256@ == document.cohort_sha256@,
        operational.quarantine_members@[i] == document.quarantine_members@[i].on_devices(
            operational.quarantine_members@[i].source.device,
            operational.quarantine_members@[i].root_device,
        ),
        operational.quarantine_members@[i].source.device
            == operational.quarantine_members@[j].source.device
            <==> document.quarantine_members@[i].source.device
            == document.quarantine_members@[j].source.device,
{
    assert(devices::known(pairs, document.quarantine_members@[i].source.device));
    assert(devices::known(pairs, document.quarantine_members@[j].source.device));
    devices::renumbering_keeps_devices_apart(
        pairs,
        document.quarantine_members@[i].source.device,
        document.quarantine_members@[j].source.device,
    );
}

/// The roots of a document as it is sealed: in strictly ascending order of their devices, each of
/// which has a number.
pub open spec fn roots_ascend(roots: Seq<QuarantineRoot>) -> bool {
    &&& forall|i: int| 0 <= i < roots.len() ==> (#[trigger] roots[i]).device != 0
    &&& forall|i: int, j: int|
        0 <= i < j < roots.len() ==> (#[trigger] roots[i]).device < (#[trigger] roots[j]).device
}

/// The same path has the same JSON, whichever root it is of.
pub open spec fn paths_encoded_alike(
    roots: Seq<QuarantineRoot>,
    root_path_json: Seq<Vec<u8>>,
    other_roots: Seq<QuarantineRoot>,
    other_root_path_json: Seq<Vec<u8>>,
) -> bool {
    &&& other_root_path_json.len() == other_roots.len()
    &&& forall|i: int, j: int|
        0 <= i < roots.len() && 0 <= j < other_roots.len() && (
        #[trigger] roots[i]).canonical_path@ == (#[trigger] other_roots[j]).canonical_path@
            ==> root_path_json[i]@ == other_root_path_json[j]@
}

/// The mappings that lead back: each exchanged, and in order again.
pub open spec fn exchanged(mappings: Seq<DeviceRecoveryMapping>) -> Seq<DeviceRecoveryMapping> {
    order::sorted(mappings.map_values(|mapping: DeviceRecoveryMapping| mapping.exchanged()))
}

proof fn root_index_names_a_root(roots: Seq<QuarantineRoot>, device: u64, from: int)
    requires
        0 <= from,
        root_index(roots, device, from) is Some,
    ensures
        root_index(roots, device, from) matches Some(i) && from <= i < roots.len()
            && roots[i].device == device,
    decreases roots.len() - from,
{
    if roots[from].device != device {
        root_index_names_a_root(roots, device, from + 1);
    }
}

/// Where roots are in order, the mappings of an accepted receipt are in the order of the roots.
pub proof fn mappings_follow_their_roots(
    mappings: Seq<DeviceRecoveryMapping>,
    roots: Seq<QuarantineRoot>,
    root_path_json: Seq<Vec<u8>>,
    i: int,
)
    requires
        mappings_sound(mappings, roots, root_path_json),
        roots_ascend(roots),
        0 <= i < roots.len(),
    ensures
        mappings[i].previous_device == roots[i].device,
        mappings[i].root_inode == roots[i].inode,
        audit::encoded_digest(root_path_json, i) == Some(mappings[i].root_path_sha256@),
{
    let n = roots.len() as int;
    let places = |k: int| root_index(roots, mappings[k].previous_device, 0)->0;
    assert forall|k: int| 0 <= k < n implies 0 <= #[trigger] places(k) < n && roots[places(
        k,
    )].device == mappings[k].previous_device by {
        assert(mapping_sound(mappings[k], roots, root_path_json));
        root_index_names_a_root(roots, mappings[k].previous_device, 0);
    }
    assert forall|k: int, m: int| 0 <= k < m < n implies #[trigger] places(k) < #[trigger] places(
        m,
    ) by {
        assert(mappings[k].previous_device < mappings[m].previous_device);
        assert(roots[places(k)].device == mappings[k].previous_device);
        assert(roots[places(m)].device == mappings[m].previous_device);
        if places(m) < places(k) {
            assert(roots[places(m)].device < roots[places(k)].device);
        }
    }
    order::ascending_places_are_in_place(places, n, i);
    assert(mapping_sound(mappings[i], roots, root_path_json));
}

/// A moved root and the mapping that leads back come from one place.
spec fn from_one_place(
    moved: Seq<QuarantineRoot>,
    back: Seq<DeviceRecoveryMapping>,
    root: QuarantineRoot,
    mapping: DeviceRecoveryMapping,
    i: int,
) -> bool {
    0 <= i < moved.len() && root == moved[i] && mapping == back[i]
}

spec fn go_together(
    moved: Seq<QuarantineRoot>,
    back: Seq<DeviceRecoveryMapping>,
    root: QuarantineRoot,
    mapping: DeviceRecoveryMapping,
) -> bool {
    exists|i: int| #[trigger] from_one_place(moved, back, root, mapping, i)
}

/// What the proofs below share: the roots of a document that was recovered, moved and back in
/// order, go with the mappings that lead back.
proof fn moved_roots_go_with_mappings(
    mappings: Seq<DeviceRecoveryMapping>,
    roots: Seq<QuarantineRoot>,
    root_path_json: Seq<Vec<u8>>,
)
    requires
        mappings_sound(mappings, roots, root_path_json),
        roots_ascend(roots),
    ensures
        ({
            let pairs = mapping_pairs(mappings);
            let moved = devices::roots_now(pairs, roots);
            let back = mappings.map_values(|mapping: DeviceRecoveryMapping| mapping.exchanged());
            &&& moved.len() == roots.len()
            &&& back.len() == roots.len()
            &&& order::sorted(moved).len() == roots.len()
            &&& exchanged(mappings).len() == roots.len()
            &&& moved.no_duplicates()
            &&& back.no_duplicates()
            &&& order::sorted(moved).no_duplicates()
            &&& exchanged(mappings).no_duplicates()
            &&& order::ascending(order::sorted(moved))
            &&& order::ascending(exchanged(mappings))
            &&& forall|i: int|
                0 <= i < roots.len() ==> (#[trigger] moved[i]) == roots[i].on_device(
                    mappings[i].current_device,
                )
            &&& forall|k: int|
                0 <= k < roots.len() ==> go_together(
                    moved,
                    back,
                    #[trigger] order::sorted(moved)[k],
                    exchanged(mappings)[k],
                )
            &&& forall|i: int|
                0 <= i < roots.len() ==> exchanged(mappings).contains(#[trigger] back[i])
        }),
{
    let pairs = mapping_pairs(mappings);
    let moved = devices::roots_now(pairs, roots);
    let back = mappings.map_values(|mapping: DeviceRecoveryMapping| mapping.exchanged());
    accepted_mappings_are_one_to_one(mappings, roots, root_path_json);
    assert forall|i: int| 0 <= i < roots.len() implies (#[trigger] moved[i]) == roots[i].on_device(
        mappings[i].current_device,
    ) by {
        mappings_follow_their_roots(mappings, roots, root_path_json, i);
        assert(pairs[i] == (roots[i].device, mappings[i].current_device));
        devices::pair_is_found(pairs, roots[i].device, 0, i);
        devices::renumbered_from_a_pair(pairs, roots[i].device, 0);
        let k = choose|k: int|
            0 <= k < pairs.len() && #[trigger] pairs[k] == (
                roots[i].device,
                devices::now(pairs, roots[i].device),
            );
        if k < i {
            assert(pairs[k].0 != pairs[i].0);
        } else if i < k {
            assert(pairs[i].0 != pairs[k].0);
        }
    }
    assert forall|i: int, j: int|
        0 <= i < roots.len() && 0 <= j < roots.len() && i != j implies #[trigger] moved[i].device
        != #[trigger] moved[j].device && back[i] != back[j] by {
        if i < j {
            assert(mappings[i].current_device != mappings[j].current_device);
        } else {
            assert(mappings[j].current_device != mappings[i].current_device);
        }
    }
    assert(moved.no_duplicates()) by {
        assert forall|i: int, j: int|
            0 <= i < moved.len() && 0 <= j < moved.len() && i != j implies moved[i] != moved[j] by {
            assert(moved[i].device != moved[j].device);
        }
    }
    assert(back.no_duplicates()) by {
        assert forall|i: int, j: int|
            0 <= i < back.len() && 0 <= j < back.len() && i != j implies back[i] != back[j] by {
            assert(moved[i].device != moved[j].device && back[i] != back[j]);
        }
    }
    order::sorted_is_an_ascending_rearrangement(moved);
    order::sorted_is_an_ascending_rearrangement(back);
    order::sorted_holds_the_values(moved);
    order::sorted_holds_the_values(back);
    let related = |root: QuarantineRoot, mapping: DeviceRecoveryMapping|
        go_together(moved, back, root, mapping);
    assert forall|i: int| 0 <= i < moved.len() implies related(#[trigger] moved[i], back[i]) by {
        assert(from_one_place(moved, back, moved[i], back[i], i));
    }
    assert(order::ordered_alike(related)) by {
        assert forall|
            a: QuarantineRoot,
            b: DeviceRecoveryMapping,
            c: QuarantineRoot,
            d: DeviceRecoveryMapping,
        | #[trigger]
            related(a, b) && #[trigger] related(c, d) implies a.not_after(c) == b.not_after(d) by {
            let i = choose|i: int| #[trigger] from_one_place(moved, back, a, b, i);
            let j = choose|j: int| #[trigger] from_one_place(moved, back, c, d, j);
            assert(moved[i].device == back[i].previous_device);
            assert(moved[j].device == back[j].previous_device);
        }
    }
    order::sorted_together(moved, back, related);
    assert forall|k: int| 0 <= k < roots.len() implies go_together(
        moved,
        back,
        #[trigger] order::sorted(moved)[k],
        exchanged(mappings)[k],
    ) by {
        assert(related(order::sorted(moved)[k], order::sorted(back)[k]));
    }
    assert forall|i: int| 0 <= i < roots.len() implies exchanged(mappings).contains(
        #[trigger] back[i],
    ) by {
        assert(back.contains(back[i]));
    }
}

proof fn exchanged_mappings_are_sound(
    mappings: Seq<DeviceRecoveryMapping>,
    roots: Seq<QuarantineRoot>,
    root_path_json: Seq<Vec<u8>>,
    moved_root_path_json: Seq<Vec<u8>>,
)
    requires
        mappings_sound(mappings, roots, root_path_json),
        roots_ascend(roots),
        paths_encoded_alike(
            roots,
            root_path_json,
            order::sorted(devices::roots_now(mapping_pairs(mappings), roots)),
            moved_root_path_json,
        ),
    ensures
        mappings_sound(
            exchanged(mappings),
            order::sorted(devices::roots_now(mapping_pairs(mappings), roots)),
            moved_root_path_json,
        ),
{
    let moved = devices::roots_now(mapping_pairs(mappings), roots);
    let back = mappings.map_values(|mapping: DeviceRecoveryMapping| mapping.exchanged());
    let now = order::sorted(moved);
    let out = exchanged(mappings);
    moved_roots_go_with_mappings(mappings, roots, root_path_json);
    let place = |k: int| choose|i: int| #[trigger] from_one_place(moved, back, now[k], out[k], i);
    assert forall|k: int| 0 <= k < now.len() implies from_one_place(
        moved,
        back,
        #[trigger] now[k],
        out[k],
        place(k),
    ) by {
        assert(go_together(moved, back, now[k], out[k]));
    }
    assert forall|k: int, m: int| 0 <= k < m < now.len() implies (#[trigger] now[k]).device < (
    #[trigger] now[m]).device && out[k].previous_device < out[m].previous_device
        && out[k].current_device != out[m].current_device by {
        let i = place(k);
        let j = place(m);
        assert(from_one_place(moved, back, now[k], out[k], i));
        assert(from_one_place(moved, back, now[m], out[m], j));
        assert(i != j);
        assert(out[k].not_after(out[m]));
        mappings_follow_their_roots(mappings, roots, root_path_json, i);
        mappings_follow_their_roots(mappings, roots, root_path_json, j);
        if i < j {
            assert(mappings[i].current_device != mappings[j].current_device);
            assert(roots[i].device < roots[j].device);
        } else {
            assert(mappings[j].current_device != mappings[i].current_device);
            assert(roots[j].device < roots[i].device);
        }
    }
    assert forall|k: int| 0 <= k < out.len() implies mapping_sound(
        #[trigger] out[k],
        now,
        moved_root_path_json,
    ) by {
        let i = place(k);
        assert(from_one_place(moved, back, now[k], out[k], i));
        mappings_follow_their_roots(mappings, roots, root_path_json, i);
        assert(mapping_sound(mappings[i], roots, root_path_json));
        assert(roots[i].device != 0);
        assert forall|m: int| 0 <= m < k implies (#[trigger] now[m]).device
            != out[k].previous_device by {
            assert(now[m].device < now[k].device);
        }
        first_root_is_found(now, out[k].previous_device, 0, k);
        assert(roots[i].canonical_path@ == now[k].canonical_path@);
    }
    assert forall|k: int, m: int| 0 <= k < m < out.len() implies (
    #[trigger] out[k]).previous_device < (#[trigger] out[m]).previous_device
        && out[k].current_device != out[m].current_device by {
        assert(now[k].device < now[m].device);
    }
}

proof fn exchanged_mappings_lead_back(
    mappings: Seq<DeviceRecoveryMapping>,
    roots: Seq<QuarantineRoot>,
    root_path_json: Seq<Vec<u8>>,
    moved_root_path_json: Seq<Vec<u8>>,
    device: u64,
)
    requires
        mappings_sound(mappings, roots, root_path_json),
        roots_ascend(roots),
        mappings_sound(
            exchanged(mappings),
            order::sorted(devices::roots_now(mapping_pairs(mappings), roots)),
            moved_root_path_json,
        ),
        devices::known(mapping_pairs(mappings), device),
    ensures
        devices::known(
            mapping_pairs(exchanged(mappings)),
            devices::now(mapping_pairs(mappings), device),
        ),
        devices::now(
            mapping_pairs(exchanged(mappings)),
            devices::now(mapping_pairs(mappings), device),
        ) == device,
{
    let pairs = mapping_pairs(mappings);
    let out = exchanged(mappings);
    let back_pairs = mapping_pairs(out);
    let back = mappings.map_values(|mapping: DeviceRecoveryMapping| mapping.exchanged());
    let current = devices::now(pairs, device);
    moved_roots_go_with_mappings(mappings, roots, root_path_json);
    accepted_mappings_are_one_to_one(
        out,
        order::sorted(devices::roots_now(pairs, roots)),
        moved_root_path_json,
    );
    devices::renumbered_from_a_pair(pairs, device, 0);
    let i = choose|i: int| 0 <= i < pairs.len() && #[trigger] pairs[i] == (device, current);
    assert(out.contains(back[i]));
    let k = choose|k: int| 0 <= k < out.len() && out[k] == back[i];
    assert(back_pairs[k] == (current, device));
    devices::pair_is_found(back_pairs, current, 0, k);
    devices::renumbered_from_a_pair(back_pairs, current, 0);
    let m = choose|m: int|
        0 <= m < back_pairs.len() && #[trigger] back_pairs[m] == (
            current,
            devices::now(back_pairs, current),
        );
    if m < k {
        assert(back_pairs[m].0 != back_pairs[k].0);
    } else if k < m {
        assert(back_pairs[k].0 != back_pairs[m].0);
    }
}

proof fn moved_roots_come_back(
    mappings: Seq<DeviceRecoveryMapping>,
    roots: Seq<QuarantineRoot>,
    root_path_json: Seq<Vec<u8>>,
    moved_root_path_json: Seq<Vec<u8>>,
)
    requires
        mappings_sound(mappings, roots, root_path_json),
        roots_ascend(roots),
        mappings_sound(
            exchanged(mappings),
            order::sorted(devices::roots_now(mapping_pairs(mappings), roots)),
            moved_root_path_json,
        ),
        devices::roots_known(mapping_pairs(mappings), roots),
    ensures
        ({
            let pairs = mapping_pairs(mappings);
            let back_pairs = mapping_pairs(exchanged(mappings));
            let now = order::sorted(devices::roots_now(pairs, roots));
            &&& devices::roots_known(back_pairs, now)
            &&& order::sorted(devices::roots_now(back_pairs, now)) == roots
        }),
{
    let n = roots.len() as int;
    let pairs = mapping_pairs(mappings);
    let back_pairs = mapping_pairs(exchanged(mappings));
    let moved = devices::roots_now(pairs, roots);
    let back = mappings.map_values(|mapping: DeviceRecoveryMapping| mapping.exchanged());
    let now = order::sorted(moved);
    let out = exchanged(mappings);
    let again = devices::roots_now(back_pairs, now);
    moved_roots_go_with_mappings(mappings, roots, root_path_json);
    let place = |k: int| choose|i: int| #[trigger] from_one_place(moved, back, now[k], out[k], i);
    assert forall|k: int| 0 <= k < n implies {
        &&& 0 <= #[trigger] place(k) < n
        &&& now[k] == moved[place(k)]
        &&& devices::known(back_pairs, now[k].device)
        &&& again[k] == roots[place(k)]
    } by {
        assert(go_together(moved, back, now[k], out[k]));
        let i = place(k);
        assert(from_one_place(moved, back, now[k], out[k], i));
        assert(devices::known(pairs, roots[i].device));
        exchanged_mappings_lead_back(
            mappings,
            roots,
            root_path_json,
            moved_root_path_json,
            roots[i].device,
        );
        assert(moved[i] == roots[i].on_device(devices::now(pairs, roots[i].device)));
        assert(again[k] == now[k].on_device(devices::now(back_pairs, now[k].device)));
    }
    assert forall|k: int| 0 <= k < now.len() implies devices::known(
        back_pairs,
        (#[trigger] now[k]).device,
    ) by {
        assert(0 <= place(k) < n);
    }
    assert(again.no_duplicates()) by {
        assert forall|k: int, m: int|
            0 <= k < again.len() && 0 <= m < again.len() && k != m implies again[k] != again[m] by {
            assert(0 <= place(k) < n && 0 <= place(m) < n);
            assert(now[k] != now[m]);
            if place(k) < place(m) {
                assert(roots[place(k)].device < roots[place(m)].device);
            } else {
                assert(place(m) < place(k));
                assert(roots[place(m)].device < roots[place(k)].device);
            }
        }
    }
    order::sorted_is_an_ascending_rearrangement(again);
    order::sorted_holds_the_values(again);
    let sorted = order::sorted(again);
    let home = |k: int| choose|i: int| 0 <= i < n && sorted[k] == roots[i];
    assert forall|k: int| 0 <= k < n implies 0 <= #[trigger] home(k) < n && sorted[k] == roots[home(
        k,
    )] by {
        assert(sorted.contains(sorted[k]));
        assert(again.contains(sorted[k]));
        let m = choose|m: int| 0 <= m < again.len() && again[m] == sorted[k];
        assert(0 <= place(m) < n);
        assert(sorted[k] == roots[place(m)]);
    }
    assert forall|k: int, m: int| 0 <= k < m < n implies #[trigger] home(k) < #[trigger] home(
        m,
    ) by {
        assert(sorted[k].not_after(sorted[m]));
        assert(sorted[k] != sorted[m]);
        assert(sorted[k] == roots[home(k)] && sorted[m] == roots[home(m)]);
        if home(m) < home(k) {
            assert(roots[home(m)].device < roots[home(k)].device);
        }
    }
    assert forall|k: int| 0 <= k < n implies sorted[k] == #[trigger] roots[k] by {
        order::ascending_places_are_in_place(home, n, k);
        assert(sorted[k] == roots[home(k)]);
    }
    assert(sorted =~= roots);
}

/// A recovery can be undone. Where the roots of a document are in order, a receipt whose mappings
/// are exchanged is accepted for the operational document, and gives back the sealed one and no
/// other.
pub proof fn exchanged_mappings_undo_recovery(
    document: EvidenceDocument,
    mappings: Seq<DeviceRecoveryMapping>,
    root_path_json: Seq<Vec<u8>>,
    operational: EvidenceDocument,
    operational_root_path_json: Seq<Vec<u8>>,
)
    requires
        roots_ascend(document.quarantine_roots@),
        mappings_sound(mappings, document.quarantine_roots@, root_path_json),
        document_known(document, mapping_pairs(mappings)),
        operational_form(operational, document, mapping_pairs(mappings)),
        paths_encoded_alike(
            document.quarantine_roots@,
            root_path_json,
            operational.quarantine_roots@,
            operational_root_path_json,
        ),
    ensures
        mappings_sound(
            exchanged(mappings),
            operational.quarantine_roots@,
            operational_root_path_json,
        ),
        document_known(operational, mapping_pairs(exchanged(mappings))),
        operational_form(document, operational, mapping_pairs(exchanged(mappings))),
        forall|restored: EvidenceDocument| #[trigger]
            operational_form(restored, operational, mapping_pairs(exchanged(mappings)))
                ==> restored.equal(document),
{
    let roots = document.quarantine_roots@;
    let json = root_path_json;
    let moved_json = operational_root_path_json;
    let pairs = mapping_pairs(mappings);
    let back_pairs = mapping_pairs(exchanged(mappings));
    exchanged_mappings_are_sound(mappings, roots, json, moved_json);
    moved_roots_come_back(mappings, roots, json, moved_json);
    assert forall|device: u64| #[trigger] devices::known(pairs, device) implies devices::known(
        back_pairs,
        devices::now(pairs, device),
    ) && devices::now(back_pairs, devices::now(pairs, device)) == device by {
        exchanged_mappings_lead_back(mappings, roots, json, moved_json, device);
    }
    let members = document.quarantine_members@;
    let moved_members = operational.quarantine_members@;
    assert forall|i: int| 0 <= i < moved_members.len() implies devices::known(
        back_pairs,
        (#[trigger] moved_members[i]).source.device,
    ) && devices::known(back_pairs, moved_members[i].root_device) && devices::members_now(
        back_pairs,
        moved_members,
    )[i] == members[i] by {
        assert(devices::known(pairs, members[i].source.device));
        assert(devices::known(pairs, members[i].root_device));
    }
    assert(devices::members_now(back_pairs, moved_members) =~= members);
    let raws = document.raw_inputs@;
    let moved_raws = operational.raw_inputs@;
    assert forall|i: int| 0 <= i < moved_raws.len() implies devices::known(
        back_pairs,
        (#[trigger] moved_raws[i]).source.device,
    ) && devices::raws_now(back_pairs, moved_raws)[i] == raws[i] by {
        assert(devices::known(pairs, raws[i].source.device));
    }
    assert(devices::raws_now(back_pairs, moved_raws) =~= raws);
    let references = document.reference_normalizations@;
    let moved_references = operational.reference_normalizations@;
    assert forall|i: int| 0 <= i < moved_references.len() implies devices::known(
        back_pairs,
        (#[trigger] moved_references[i]).device,
    ) && devices::references_now(back_pairs, moved_references)[i] == references[i] by {
        assert(devices::known(pairs, references[i].device));
    }
    assert(devices::references_now(back_pairs, moved_references) =~= references);
}

/// Where every root is the directory that was sealed, with the cohort's directory in it, and no two
/// roots share a device, before or now, the roots are mapped as soon as one device has another
/// number than it had, be it a higher or a lower one; where all numbers are as they were, there is
/// nothing to map.
pub proof fn renumbered_devices_are_mapped(
    roots: Seq<QuarantineRoot>,
    observed: Seq<RootObservation>,
    root_path_json: Seq<Vec<u8>>,
    require_empty: bool,
)
    requires
        observed.len() == roots.len(),
        root_path_json.len() == roots.len(),
        forall|i: int|
            0 <= i < roots.len() ==> {
                &&& observed[i].canonical matches Some(found)
                &&& path::same_place(found@, (#[trigger] roots[i]).canonical_path@)
                &&& observed[i].metadata matches Some(directory)
                &&& directory.is_dir
                &&& directory.dev != 0
                &&& directory.ino == roots[i].inode
                &&& directory.uid == roots[i].owner
                &&& directory.mode & 511 == roots[i].mode
                &&& observed[i].cohort matches Some(cohort)
                &&& cohort.is_dir
                &&& cohort.dev == directory.dev
                &&& cohort.uid == roots[i].owner
                &&& cohort.mode & 511 == 448
                &&& require_empty ==> observed[i].cohort_is_empty
            },
        forall|i: int, j: int|
            0 <= i < j < roots.len() ==> (#[trigger] roots[i]).device != (
            #[trigger] roots[j]).device && observed[i].metadata->0.dev
                != observed[j].metadata->0.dev,
    ensures
        mappings_refusal(roots, observed, root_path_json, require_empty) is None <==> exists|i: int|
            0 <= i < roots.len() && ((#[trigger] roots[i]).device < observed[i].metadata->0.dev
                || observed[i].metadata->0.dev < roots[i].device),
        (forall|i: int|
            0 <= i < roots.len() ==> (#[trigger] roots[i]).device == observed[i].metadata->0.dev)
            ==> mappings_refusal(roots, observed, root_path_json, require_empty) == Some(
            "recovery_mapping"@,
        ),
{
    let pairs = observed_pairs(roots, observed);
    assert forall|i: int| 0 <= i < roots.len() implies root_recovered(
        #[trigger] roots[i],
        observed[i],
        require_empty,
    ) by {}
    assert forall|i: int, j: int|
        #![trigger pairs[i], pairs[j]]
        0 <= i < j < pairs.len() implies pairs[i].0 != pairs[j].0 && pairs[i].1 != pairs[j].1 by {
        assert(roots[i].device != roots[j].device);
    }
    assert forall|i: int| 0 <= i < roots.len() implies (#[trigger] pairs[i]) == (
        roots[i].device,
        observed[i].metadata->0.dev,
    ) by {}
    if exists|i: int|
        0 <= i < roots.len() && ((#[trigger] roots[i]).device < observed[i].metadata->0.dev
            || observed[i].metadata->0.dev < roots[i].device) {
        let i = choose|i: int|
            0 <= i < roots.len() && ((#[trigger] roots[i]).device < observed[i].metadata->0.dev
                || observed[i].metadata->0.dev < roots[i].device);
        assert(pairs[i].0 != pairs[i].1);
    }
    if some_device_moved(pairs) {
        let i = choose|i: int| 0 <= i < pairs.len() && (#[trigger] pairs[i]).0 != pairs[i].1;
        assert(roots[i].device != observed[i].metadata->0.dev);
    }
}

/// Roots are mapped only if each of them is the very directory that was sealed: at its place, with
/// its inode, owner and mode, holding a private directory for the cohort on its own device.
pub proof fn only_sealed_directories_are_mapped(
    roots: Seq<QuarantineRoot>,
    observed: Seq<RootObservation>,
    root_path_json: Seq<Vec<u8>>,
    require_empty: bool,
    i: int,
    j: int,
)
    requires
        mappings_refusal(roots, observed, root_path_json, require_empty) is None,
        0 <= i < roots.len(),
        0 <= j < roots.len(),
    ensures
        observed[i].canonical matches Some(found) && path::same_place(
            found@,
            roots[i].canonical_path@,
        ),
        observed[i].metadata matches Some(directory) && directory.is_dir && directory.ino
            == roots[i].inode && directory.uid == roots[i].owner && directory.mode & 511
            == roots[i].mode && directory.dev != 0 && (observed[i].cohort matches Some(cohort)
            && cohort.is_dir && cohort.dev == directory.dev && cohort.uid == roots[i].owner
            && cohort.mode & 511 == 448),
        require_empty ==> observed[i].cohort_is_empty,
        i != j ==> roots[i].device != roots[j].device && observed[i].metadata->0.dev
            != observed[j].metadata->0.dev,
{
    let pairs = observed_pairs(roots, observed);
    assert(root_recovered(roots[i], observed[i], require_empty));
    assert(pairs[i] == (roots[i].device, observed[i].metadata->0.dev));
    assert(pairs[j] == (roots[j].device, observed[j].metadata->0.dev));
    if i < j {
        assert(pairs[i].0 != pairs[j].0 && pairs[i].1 != pairs[j].1);
    } else if j < i {
        assert(pairs[j].0 != pairs[i].0 && pairs[j].1 != pairs[i].1);
    }
}

/// Mappings are accepted if there is one for each root, in the order of the roots, each of which
/// gives the device of its root another number that no other root gets, and seals the inode and
/// the path of the root.
pub proof fn one_mapping_for_each_root_is_accepted(
    mappings: Seq<DeviceRecoveryMapping>,
    roots: Seq<QuarantineRoot>,
    root_path_json: Seq<Vec<u8>>,
)
    requires
        roots_ascend(roots),
        root_path_json.len() == roots.len(),
    ensures
        mappings_sound(mappings, roots, root_path_json) <==> {
            &&& 0 < mappings.len() == roots.len()
            &&& forall|i: int|
                0 <= i < roots.len() ==> {
                    &&& (#[trigger] mappings[i]).previous_device == roots[i].device
                    &&& mappings[i].current_device != roots[i].device
                    &&& mappings[i].current_device > 0
                    &&& mappings[i].root_inode == roots[i].inode
                    &&& mappings[i].root_path_sha256@ == digest::sha256_hex(root_path_json[i]@)
                }
            &&& forall|i: int, j: int|
                0 <= i < j < roots.len() ==> (#[trigger] mappings[i]).current_device != (
                #[trigger] mappings[j]).current_device
        },
{
    if mappings_sound(mappings, roots, root_path_json) {
        assert forall|i: int| 0 <= i < roots.len() implies {
            &&& (#[trigger] mappings[i]).previous_device == roots[i].device
            &&& mappings[i].current_device != roots[i].device
            &&& mappings[i].current_device > 0
            &&& mappings[i].root_inode == roots[i].inode
            &&& mappings[i].root_path_sha256@ == digest::sha256_hex(root_path_json[i]@)
        } by {
            mappings_follow_their_roots(mappings, roots, root_path_json, i);
            assert(mapping_sound(mappings[i], roots, root_path_json));
        }
    }
    if {
        &&& 0 < mappings.len() == roots.len()
        &&& forall|i: int|
            0 <= i < roots.len() ==> {
                &&& (#[trigger] mappings[i]).previous_device == roots[i].device
                &&& mappings[i].current_device != roots[i].device
                &&& mappings[i].current_device > 0
                &&& mappings[i].root_inode == roots[i].inode
                &&& mappings[i].root_path_sha256@ == digest::sha256_hex(root_path_json[i]@)
            }
        &&& forall|i: int, j: int|
            0 <= i < j < roots.len() ==> (#[trigger] mappings[i]).current_device != (
            #[trigger] mappings[j]).current_device
    } {
        assert forall|i: int| 0 <= i < mappings.len() implies mapping_sound(
            #[trigger] mappings[i],
            roots,
            root_path_json,
        ) by {
            assert forall|k: int| 0 <= k < i implies (#[trigger] roots[k]).device
                != roots[i].device by {
                assert(roots[k].device < roots[i].device);
            }
            first_root_is_found(roots, roots[i].device, 0, i);
        }
        assert forall|i: int, j: int| 0 <= i < j < mappings.len() implies (
        #[trigger] mappings[i]).previous_device < (#[trigger] mappings[j]).previous_device
            && mappings[i].current_device != mappings[j].current_device by {
            assert(roots[i].device < roots[j].device);
        }
    }
}

proof fn members_are_found_from(
    members: Seq<EvidenceQuarantineMember>,
    pairs: Seq<(u64, u64)>,
    looks: Seq<HeldRead>,
    partial: bool,
    from: int,
)
    requires
        0 <= from <= members.len(),
    ensures
        members_refusal_from(members, pairs, looks, partial, from) is None <==> forall|i: int|
            from <= i < members.len() ==> member_refusal(
                #[trigger] members[i],
                pairs,
                look_at(looks, i),
                partial,
            ) is None,
    decreases members.len() - from,
{
    if from < members.len() {
        members_are_found_from(members, pairs, looks, partial, from + 1);
    }
}

proof fn raws_are_found_from(
    raws: Seq<QuarantineRawInput>,
    pairs: Seq<(u64, u64)>,
    looks: Seq<HeldRead>,
    from: int,
)
    requires
        0 <= from <= raws.len(),
    ensures
        raws_refusal_from(raws, pairs, looks, from) is None <==> forall|i: int|
            from <= i < raws.len() ==> raw_refusal(
                #[trigger] raws[i],
                pairs,
                look_at(looks, i),
            ) is None,
    decreases raws.len() - from,
{
    if from < raws.len() {
        raws_are_found_from(raws, pairs, looks, from + 1);
    }
}

/// A file was found, three times over, as it was sealed, but for the number of its device.
pub open spec fn found_on(
    place: Seq<char>,
    sealed_file: LegacyUploadMigrationQuarantineFileIdentity,
    device: u64,
    look: HeldRead,
) -> bool {
    &&& path::safe_place(place)
    &&& look.read matches SourceRead::Read(metadata, content)
    &&& metadata.is_regular
    &&& metadata.nlink == 1
    &&& metadata.size > 0
    &&& metadata.dev == device
    &&& metadata.ino == sealed_file.inode
    &&& metadata.uid == sealed_file.owner
    &&& metadata.mode & 511 == sealed_file.mode
    &&& metadata.nlink == sealed_file.link_count
    &&& metadata.size == sealed_file.size_bytes
    &&& metadata.mtime == sealed_file.modified_unix_seconds
    &&& metadata.mtime_nsec == sealed_file.modified_unix_nanoseconds
    &&& digest::sha256_hex(content@) == sealed_file.sha256@
    &&& look.held.shows(metadata, sealed_file.sha256@)
    &&& look.named.shows(metadata, sealed_file.sha256@)
}

/// A cohort whose deletes are confirmed can be recovered exactly if its roots are mapped and every
/// file of it is found as it was sealed, on the device that its old device is now; during a partial
/// recovery the files of the cohort itself need not be found.
pub proof fn confirmed_cohorts_recover_with_all_their_files(
    document: EvidenceDocument,
    manifest: Manifest,
    partial: bool,
    observed: OperationalObservation,
)
    requires
        observed.members@.len() == document.quarantine_members@.len(),
        observed.raws@.len() == document.raw_inputs@.len(),
    ensures
        recovery_refusal(document, manifest, partial, observed) is None <==> {
            let pairs = observed_pairs(document.quarantine_roots@, observed.roots@);
            &&& plan::cohort_phase(document, manifest) == Ok::<
                Option<LegacyUploadMigrationPhase>,
                Seq<char>,
            >(Some(LegacyUploadMigrationPhase::DeleteConfirmed))
            &&& mappings_refusal(
                document.quarantine_roots@,
                observed.roots@,
                observed.root_path_json@,
                !partial,
            ) is None
            &&& forall|i: int|
                0 <= i < document.quarantine_members@.len() ==> {
                    let member = #[trigger] document.quarantine_members@[i];
                    &&& devices::known(pairs, member.source.device)
                    &&& devices::known(pairs, member.root_device)
                    &&& partial || found_on(
                        member.source_path@,
                        member.source,
                        devices::now(pairs, member.source.device),
                        observed.members@[i],
                    )
                }
            &&& forall|i: int|
                0 <= i < document.raw_inputs@.len() ==> {
                    let raw = #[trigger] document.raw_inputs@[i];
                    &&& devices::known(pairs, raw.source.device)
                    &&& found_on(
                        raw.path@,
                        raw.source,
                        devices::now(pairs, raw.source.device),
                        observed.raws@[i],
                    )
                }
            &&& forall|i: int|
                0 <= i < document.reference_normalizations@.len() ==> devices::known(
                    pairs,
                    (#[trigger] document.reference_normalizations@[i]).device,
                )
        },
{
    let pairs = observed_pairs(document.quarantine_roots@, observed.roots@);
    let members = document.quarantine_members@;
    let raws = document.raw_inputs@;
    members_are_found_from(members, pairs, observed.members@, partial, 0);
    raws_are_found_from(raws, pairs, observed.raws@, 0);
    assert forall|i: int| 0 <= i < members.len() implies (member_refusal(
        #[trigger] members[i],
        pairs,
        look_at(observed.members@, i),
        partial,
    ) is None <==> {
        &&& devices::known(pairs, members[i].source.device)
        &&& devices::known(pairs, members[i].root_device)
        &&& partial || found_on(
            members[i].source_path@,
            members[i].source,
            devices::now(pairs, members[i].source.device),
            observed.members@[i],
        )
    }) by {
        sealed::the_expected_file_is_accepted(
            members[i].source_path@,
            observed.members@[i],
            members[i].source.on_device(devices::now(pairs, members[i].source.device))@,
            "recovery_member"@,
        );
    }
    assert forall|i: int| 0 <= i < raws.len() implies (raw_refusal(
        #[trigger] raws[i],
        pairs,
        look_at(observed.raws@, i),
    ) is None <==> {
        &&& devices::known(pairs, raws[i].source.device)
        &&& found_on(
            raws[i].path@,
            raws[i].source,
            devices::now(pairs, raws[i].source.device),
            observed.raws@[i],
        )
    }) by {
        sealed::the_expected_file_is_accepted(
            raws[i].path@,
            observed.raws@[i],
            raws[i].source.on_device(devices::now(pairs, raws[i].source.device))@,
            "recovery_raw"@,
        );
    }
}

/// What keeps devices from being recovered is told by its name.
pub proof fn faults_of_a_device_recovery_are_named(
    document: EvidenceDocument,
    manifest: Manifest,
    partial: bool,
    observed: OperationalObservation,
)
    ensures
        ({
            let phase = plan::cohort_phase(document, manifest);
            let pairs = observed_pairs(document.quarantine_roots@, observed.roots@);
            let mapped = mappings_refusal(
                document.quarantine_roots@,
                observed.roots@,
                observed.root_path_json@,
                !partial,
            );
            let members = members_refusal_from(
                document.quarantine_members@,
                pairs,
                observed.members@,
                partial,
                0,
            );
            let raws = raws_refusal_from(document.raw_inputs@, pairs, observed.raws@, 0);
            let coherent = phase is Ok;
            let confirmed = phase->Ok_0 == Some(LegacyUploadMigrationPhase::DeleteConfirmed);
            let roots_found = mapped is None;
            let members_found = members is None;
            let raws_found = raws is None;
            let known = devices::references_known(pairs, document.reference_normalizations@);
            let told = recovery_refusal(document, manifest, partial, observed);
            &&& !coherent ==> told == Some(phase->Err_0)
            &&& coherent && !confirmed ==> told == Some("recovery_phase"@)
            &&& coherent && confirmed && !roots_found ==> told == mapped
            &&& coherent && confirmed && roots_found && !members_found ==> told == members
            &&& coherent && confirmed && roots_found && members_found && !raws_found
                ==> told == raws
            &&& coherent && confirmed && roots_found && members_found && raws_found && !known
                ==> told == Some("recovery_mapping"@)
        }),
{
}

/// What is wrong with roots, members and originals is told by its name; a recovery in part asks
/// nothing of a member but that its devices are known.
pub proof fn faults_of_recovered_files_are_named(
    roots: Seq<QuarantineRoot>,
    observed: Seq<RootObservation>,
    root_path_json: Seq<Vec<u8>>,
    require_empty: bool,
    member: EvidenceQuarantineMember,
    raw: QuarantineRawInput,
    pairs: Seq<(u64, u64)>,
    look: HeldRead,
)
    ensures
        !roots_recovered(roots, observed, root_path_json, require_empty) ==> mappings_refusal(
            roots,
            observed,
            root_path_json,
            require_empty,
        ) == Some("recovery_root"@),
        roots_recovered(roots, observed, root_path_json, require_empty) && (forall|i: int|
            0 <= i < roots.len() ==> (#[trigger] roots[i]).device == observed[i].metadata->0.dev)
            ==> mappings_refusal(roots, observed, root_path_json, require_empty) == Some(
            "recovery_mapping"@,
        ),
        !devices::known(pairs, member.source.device) || !devices::known(pairs, member.root_device)
            ==> member_refusal(member, pairs, look, false) == Some("recovery_mapping"@)
            && member_refusal(member, pairs, look, true) == Some("recovery_mapping"@),
        devices::known(pairs, member.source.device) && devices::known(pairs, member.root_device)
            ==> member_refusal(member, pairs, look, true) is None && member_refusal(
            member,
            pairs,
            look,
            false,
        ) == sealed::held_refusal(
            member.source_path@,
            look,
            member.source.on_device(devices::now(pairs, member.source.device))@,
            "recovery_member"@,
        ),
        !devices::known(pairs, raw.source.device) ==> raw_refusal(raw, pairs, look) == Some(
            "recovery_mapping"@,
        ),
        devices::known(pairs, raw.source.device) ==> raw_refusal(raw, pairs, look)
            == sealed::held_refusal(
            raw.path@,
            look,
            raw.source.on_device(devices::now(pairs, raw.source.device))@,
            "recovery_raw"@,
        ),
{
    let found = observed_pairs(roots, observed);
    if (forall|i: int|
        0 <= i < roots.len() ==> (#[trigger] roots[i]).device == observed[i].metadata->0.dev) {
        assert forall|i: int| 0 <= i < found.len() implies (#[trigger] found[i]).0 == found[i].1 by {
            assert(roots[i].device == observed[i].metadata->0.dev);
        }
    }
}

/// A recovered document is accepted exactly if its references open and can be read again, its plan
/// stands, and, where files may have been moved in part, its layout is sound.
pub proof fn recovered_documents_are_accepted(
    operational: EvidenceDocument,
    manifest: Manifest,
    partial: bool,
    observed: OperationalObservation,
    euid: u32,
)
    ensures
        operational_refusal(operational, manifest, partial, observed, euid) is None <==> {
            let references = operational.reference_normalizations@;
            &&& partial ==> layout::layout_refusal(
                operational,
                manifest,
                LegacyUploadMigrationPhase::DeleteConfirmed,
                observed.plan_inputs,
                observed.layout,
                euid,
            ) is None
            &&& partial ==> sealed::all_holdable(references, observed.present_references@)
                && sealed::references_reread_refusal(
                sealed::present_memories(observed.present_references@, references.len()),
                observed.references_held@,
                observed.references_named@,
                0,
            ) is None
            &&& !partial ==> sealed::references_open_refusal(references, observed.references@, 0)
                is None && sealed::references_reread_refusal(
                sealed::read_memories(observed.references@, references.len()),
                observed.references_held@,
                observed.references_named@,
                0,
            ) is None
            &&& plan::sealed_plan_refusal(operational, manifest, observed.plan_inputs) is None
        },
        partial && !sealed::all_holdable(
            operational.reference_normalizations@,
            observed.present_references@,
        ) ==> references_refusal(operational.reference_normalizations@, observed, partial) == Some(
            "reference_descriptor"@,
        ),
{
}

/// A recovered document is the document with other device numbers: its counts, digests, assets and
/// retirements are the same, and every member, original and reference keeps its place in its list
/// and all but its devices, which are those that the pairs give.
pub proof fn recovered_documents_renumber_every_file(
    operational: EvidenceDocument,
    document: EvidenceDocument,
    pairs: Seq<(u64, u64)>,
    i: int,
)
    requires
        operational_form(operational, document, pairs),
    ensures
        operational.schema_version == document.schema_version,
        operational.migration_id@ == document.migration_id@,
        operational.asset_count == document.asset_count,
        operational.retired_replacement_count == document.retired_replacement_count,
        operational.reference_count == document.reference_count,
        operational.cohort_sha256@ == document.cohort_sha256@,
        operational.assets@ == document.assets@,
        operational.retired_replacements@ == document.retired_replacements@,
        operational.quarantine_members@.len() == document.quarantine_members@.len(),
        operational.raw_inputs@.len() == document.raw_inputs@.len(),
        operational.reference_normalizations@.len() == document.reference_normalizations@.len(),
        0 <= i < document.quarantine_members@.len() ==> {
            let moved = operational.quarantine_members@[i];
            let member = document.quarantine_members@[i];
            &&& moved.asset_id == member.asset_id
            &&& moved.kind == member.kind
            &&& moved.source_path == member.source_path
            &&& moved.root_device == devices::now(pairs, member.root_device)
            &&& moved.source.device == devices::now(pairs, member.source.device)
            &&& moved.source.inode == member.source.inode
            &&& moved.source.owner == member.source.owner
            &&& moved.source.mode == member.source.mode
            &&& moved.source.link_count == member.source.link_count
            &&& moved.source.size_bytes == member.source.size_bytes
            &&& moved.source.modified_unix_seconds == member.source.modified_unix_seconds
            &&& moved.source.modified_unix_nanoseconds == member.source.modified_unix_nanoseconds
            &&& moved.source.sha256 == member.source.sha256
        },
        0 <= i < document.raw_inputs@.len() ==> {
            let moved = operational.raw_inputs@[i];
            let raw = document.raw_inputs@[i];
            &&& moved.asset_id == raw.asset_id
            &&& moved.path == raw.path
            &&& moved.source.device == devices::now(pairs, raw.source.device)
            &&& moved.source.inode == raw.source.inode
            &&& moved.source.owner == raw.source.owner
            &&& moved.source.mode == raw.source.mode
            &&& moved.source.link_count == raw.source.link_count
            &&& moved.source.size_bytes == raw.source.size_bytes
            &&& moved.source.sha256 == raw.source.sha256
        },
        0 <= i < document.reference_normalizations@.len() ==> {
            let moved = operational.reference_normalizations@[i];
            let reference = document.reference_normalizations@[i];
            &&& moved.device == devices::now(pairs, reference.device)
            &&& moved.asset_id == reference.asset_id
            &&& moved.asset_record_sha256 == reference.asset_record_sha256
            &&& moved.reference_identity_sha256 == reference.reference_identity_sha256
            &&& moved.reference_path == reference.reference_path
            &&& moved.inode == reference.inode
            &&& moved.size_bytes == reference.size_bytes
            &&& moved.file_sha256 == reference.file_sha256
            &&& moved.orientation == reference.orientation
            &&& moved.width == reference.width
            &&& moved.height == reference.height
            &&& moved.decoded_pixel_sha256 == reference.decoded_pixel_sha256
        },
{
}

/// A mapping maps a root exactly if it leads from the sealed device of the root to the one where it
/// was found, and names the root by its inode and by the digest of its path.
pub proof fn mappings_lead_from_the_sealed_device_to_the_found_one(
    mapping: DeviceRecoveryMapping,
    roots: Seq<QuarantineRoot>,
    observed: Seq<RootObservation>,
    root_path_json: Seq<Vec<u8>>,
    i: int,
    looks: Seq<HeldRead>,
)
    requires
        0 <= i < roots.len(),
        i < observed.len(),
        observed[i].metadata is Some,
        i < root_path_json.len(),
    ensures
        maps_root(mapping, roots, observed, root_path_json, i) <==> {
            &&& mapping.previous_device == roots[i].device
            &&& mapping.current_device == observed[i].metadata->0.dev
            &&& mapping.root_inode == roots[i].inode
            &&& mapping.root_path_sha256@ == digest::sha256_hex(root_path_json[i]@)
        },
        maps_some_root(mapping, roots, observed, root_path_json) <==> exists|k: int|
            0 <= k < roots.len() && #[trigger] maps_root(
                mapping,
                roots,
                observed,
                root_path_json,
                k,
            ),
        i < looks.len() ==> look_at(looks, i) == looks[i],
        i >= looks.len() ==> look_at(looks, i).read is OpenFailed,
{
}

/// Mappings map the roots exactly if there is one for each, in ascending order of the sealed
/// devices, and each maps some root.
pub proof fn roots_are_mapped_one_by_one(
    mappings: Seq<DeviceRecoveryMapping>,
    roots: Seq<QuarantineRoot>,
    observed: Seq<RootObservation>,
    root_path_json: Seq<Vec<u8>>,
)
    ensures
        maps_roots(mappings, roots, observed, root_path_json) <==> {
            &&& mappings.len() == roots.len()
            &&& forall|k: int, m: int|
                0 <= k < m < mappings.len() ==> (#[trigger] mappings[k]).previous_device < (
                #[trigger] mappings[m]).previous_device
            &&& forall|k: int|
                0 <= k < mappings.len() ==> maps_some_root(
                    #[trigger] mappings[k],
                    roots,
                    observed,
                    root_path_json,
                )
        },
{
}

/// Two mappings are the same exactly if they lead from one device to one device and name one root.
pub proof fn mappings_are_known_by_all_they_say(a: DeviceRecoveryMapping, b: DeviceRecoveryMapping)
    ensures
        a.same(b) <==> a.previous_device == b.previous_device && a.current_device
            == b.current_device && a.root_inode == b.root_inode && a.root_path_sha256@
            == b.root_path_sha256@,
        a.same(b) == b.same(a),
{
}

} // verus!
