use vstd::prelude::*;
use vstd::string::*;

use crate::conversion;
use crate::conversion::{
    is_verified_conversion_source_for_quarantine, manifest_verified_conversion_output,
};
use crate::document::{
    EvidenceDocument, EvidenceReferenceNormalization, ReferenceNormalizationIdentity,
};
use crate::error::{failure, LegacyUploadEvidenceError};
use crate::manifest::Manifest;
use crate::path;
use crate::path::{is_parent, join_path, same_path};
use crate::phase::LegacyUploadMigrationPhase;
use crate::plan;
use crate::plan::{quarantine_plan_from_document, PlanInputs, QUARANTINE_ROOT_MODE};
use crate::quarantine::{
    FileView, LegacyUploadMigrationQuarantineFileIdentity, LegacyUploadMigrationQuarantineKind,
    LegacyUploadMigrationQuarantineMember, LegacyUploadMigrationQuarantinePlan, PlanContent,
    QuarantineRawInput, QuarantineRoot,
};
use crate::sealed;
use crate::sealed::{
    device_recovery_file_identity, FilePresence, OWNER_ONLY_MODE, PERMISSION_BITS,
};
use crate::text::same_text;

verus! {

/// What the system says of a directory.
#[derive(Clone, Copy, Debug, PartialEq, Eq, Structural)]
pub struct DirectoryMetadata {
    pub is_dir: bool,
    pub dev: u64,
    pub ino: u64,
    pub uid: u32,
    pub mode: u32,
}

/// What was found at a quarantine root and at the cohort's directory in it.
#[derive(Debug, PartialEq, Eq)]
pub struct RootObservation {
    /// The canonical path of the root, if it has one.
    pub canonical: Option<String>,
    pub metadata: Option<DirectoryMetadata>,
    /// The canonical path of the cohort's directory, if it has one.
    pub cohort_canonical: Option<String>,
    pub cohort: Option<DirectoryMetadata>,
    /// Whether the cohort's directory was listed and found empty.
    pub cohort_is_empty: bool,
}

/// An entry of a cohort's directory.
#[derive(Debug, PartialEq, Eq)]
pub struct CohortEntry {
    pub path: String,
    pub file: FilePresence,
}

/// What was found at the places that a plan speaks of. Each list goes with the list of the plan
/// that it is named after.
#[derive(Debug, PartialEq, Eq)]
pub struct LayoutObservation {
    pub roots: Vec<RootObservation>,
    /// The entries of all the cohort's directories, if all of them could be listed.
    pub entries: Option<Vec<CohortEntry>>,
    pub raws: Vec<FilePresence>,
    /// What lies at the source path of each member.
    pub sources: Vec<FilePresence>,
    /// What the image at the source path of each member shows, where it could be told.
    pub probes: Vec<Option<ReferenceNormalizationIdentity>>,
}

/// The first root on a device, from the given place on.
pub open spec fn find_root(roots: Seq<QuarantineRoot>, device: u64, from: int) -> Option<
    QuarantineRoot,
>
    decreases roots.len() - from,
{
    if from < 0 || from >= roots.len() {
        None
    } else if roots[from].device == device {
        Some(roots[from])
    } else {
        find_root(roots, device, from + 1)
    }
}

fn root_of_device(roots: &Vec<QuarantineRoot>, device: u64) -> (r: Option<&QuarantineRoot>)
    ensures
        match r {
            Some(root) => find_root(roots@, device, 0) == Some(*root),
            None => find_root(roots@, device, 0) is None,
        },
{
    let mut i: usize = 0;
    while i < roots.len()
        invariant
            i <= roots@.len(),
            find_root(roots@, device, 0) == find_root(roots@, device, i as int),
        decreases roots@.len() - i,
    {
        if roots[i].device == device {
            return Some(&roots[i]);
        }
        i += 1;
    }
    None
}

/// A member goes directly into the cohort's directory in the root of its device.
pub open spec fn destination_in_cohort(
    plan: PlanContent,
    cohort_sha256: Seq<char>,
    member: LegacyUploadMigrationQuarantineMember,
) -> bool {
    find_root(plan.roots, member.root_device, 0) matches Some(root) && path::parent_place(
        member.destination_path@,
        path::joined(root.canonical_path@, cohort_sha256),
    )
}

/// Every member goes directly into the cohort's directory in the root of its device, and no two go
/// to the same place.
pub open spec fn destinations_sound(plan: PlanContent, cohort_sha256: Seq<char>) -> bool {
    &&& forall|i: int|
        0 <= i < plan.members.len() ==> destination_in_cohort(
            plan,
            cohort_sha256,
            #[trigger] plan.members[i],
        )
    &&& forall|i: int, j: int|
        0 <= i < j < plan.members.len() ==> !path::same_place(
            (#[trigger] plan.members[i]).destination_path@,
            (#[trigger] plan.members[j]).destination_path@,
        )
}

/// A directory is described like that: on that device, owned by that user, with those permission
/// bits.
pub open spec fn directory_is(
    metadata: Option<DirectoryMetadata>,
    device: u64,
    owner: u32,
    mode: u32,
) -> bool {
    metadata matches Some(found) && found.is_dir && found.dev == device && found.uid == owner
        && found.mode & PERMISSION_BITS == mode
}

/// A canonical path is the very path.
pub open spec fn canonical_is(canonical: Option<String>, place: Seq<char>) -> bool {
    canonical matches Some(found) && path::same_place(found@, place)
}

/// A root and the cohort's directory in it are where and what the plan says.
pub open spec fn root_in_place(
    root: QuarantineRoot,
    cohort_sha256: Seq<char>,
    observed: RootObservation,
) -> bool {
    &&& canonical_is(observed.canonical, root.canonical_path@)
    &&& directory_is(observed.metadata, root.device, root.owner, root.mode)
    &&& observed.metadata->0.ino == root.inode
    &&& canonical_is(
        observed.cohort_canonical,
        path::joined(root.canonical_path@, cohort_sha256),
    )
    &&& directory_is(observed.cohort, root.device, root.owner, QUARANTINE_ROOT_MODE)
}

/// All roots are where and what the plan says.
pub open spec fn roots_in_place(
    roots: Seq<QuarantineRoot>,
    cohort_sha256: Seq<char>,
    observed: Seq<RootObservation>,
) -> bool {
    &&& observed.len() >= roots.len()
    &&& forall|i: int|
        0 <= i < roots.len() ==> root_in_place(#[trigger] roots[i], cohort_sha256, observed[i])
}

pub fn is_directory(
    metadata: &Option<DirectoryMetadata>,
    device: u64,
    owner: u32,
    mode: u32,
) -> (r: bool)
    ensures
        r == directory_is(*metadata, device, owner, mode),
{
    match metadata {
        Some(found) => found.is_dir && found.dev == device && found.uid == owner && found.mode
            & PERMISSION_BITS == mode,
        None => false,
    }
}

pub fn is_canonical(canonical: &Option<String>, place: &str) -> (r: bool)
    ensures
        r == canonical_is(*canonical, place@),
{
    match canonical {
        Some(found) => same_path(found, place),
        None => false,
    }
}

fn is_root_in_place(root: &QuarantineRoot, cohort_sha256: &str, observed: &RootObservation) -> (r:
    bool)
    ensures
        r == root_in_place(*root, cohort_sha256@, *observed),
{
    let same_inode: bool = match observed.metadata {
        Some(found) => found.ino == root.inode,
        None => false,
    };
    is_canonical(&observed.canonical, &root.canonical_path) && is_directory(
        &observed.metadata,
        root.device,
        root.owner,
        root.mode,
    ) && same_inode && is_canonical(
        &observed.cohort_canonical,
        &join_path(&root.canonical_path, cohort_sha256),
    ) && is_directory(&observed.cohort, root.device, root.owner, QUARANTINE_ROOT_MODE)
}

fn are_roots_in_place(
    roots: &Vec<QuarantineRoot>,
    cohort_sha256: &str,
    observed: &Vec<RootObservation>,
) -> (r: bool)
    ensures
        r == roots_in_place(roots@, cohort_sha256@, observed@),
{
    if observed.len() < roots.len() {
        return false;
    }
    let mut i: usize = 0;
    while i < roots.len()
        invariant
            i <= roots@.len() <= observed@.len(),
            forall|k: int|
                0 <= k < i ==> root_in_place(
                    #[trigger] roots@[k],
                    cohort_sha256@,
                    observed@[k],
                ),
        decreases roots@.len() - i,
    {
        if !is_root_in_place(&roots[i], cohort_sha256, &observed[i]) {
            assert(!root_in_place(roots@[i as int], cohort_sha256@, observed@[i as int]));
            return false;
        }
        i += 1;
    }
    true
}

fn are_destinations_sound(plan: &LegacyUploadMigrationQuarantinePlan, cohort_sha256: &str) -> (r:
    bool)
    ensures
        r == destinations_sound(plan.content(), cohort_sha256@),
{
    let members = &plan.members;
    let mut i: usize = 0;
    while i < members.len()
        invariant
            i <= members@.len(),
            members@ == plan.members@,
            forall|k: int|
                0 <= k < i ==> destination_in_cohort(
                    plan.content(),
                    cohort_sha256@,
                    #[trigger] members@[k],
                ),
            forall|a: int, b: int|
                0 <= a < b < i ==> !path::same_place(
                    (#[trigger] members@[a]).destination_path@,
                    (#[trigger] members@[b]).destination_path@,
                ),
        decreases members@.len() - i,
    {
        let member = &members[i];
        let home: bool = match root_of_device(&plan.roots, member.root_device) {
            Some(root) => is_parent(
                &member.destination_path,
                &join_path(&root.canonical_path, cohort_sha256),
            ),
            None => false,
        };
        if !home {
            assert(!destination_in_cohort(
                plan.content(),
                cohort_sha256@,
                plan.content().members[i as int],
            ));
            return false;
        }
        let mut k: usize = 0;
        while k < i
            invariant
                k <= i < members@.len(),
                members@ == plan.members@,
                forall|a: int|
                    0 <= a < k ==> !path::same_place(
                        (#[trigger] members@[a]).destination_path@,
                        members@[i as int].destination_path@,
                    ),
            decreases i - k,
        {
            if same_path(&members[k].destination_path, &members[i].destination_path) {
                assert(path::same_place(
                    plan.content().members[k as int].destination_path@,
                    plan.content().members[i as int].destination_path@,
                ));
                return false;
            }
            k += 1;
        }
        i += 1;
    }
    true
}

/// A path is the destination of some member.
pub open spec fn planned_destination(
    members: Seq<LegacyUploadMigrationQuarantineMember>,
    place: Seq<char>,
) -> bool {
    exists|i: int|
        0 <= i < members.len() && path::same_place(
            (#[trigger] members[i]).destination_path@,
            place,
        )
}

fn is_planned_destination(
    members: &Vec<LegacyUploadMigrationQuarantineMember>,
    place: &str,
) -> (r: bool)
    ensures
        r == planned_destination(members@, place@),
{
    let mut i: usize = 0;
    while i < members.len()
        invariant
            i <= members@.len(),
            forall|k: int|
                0 <= k < i ==> !path::same_place(
                    (#[trigger] members@[k]).destination_path@,
                    place@,
                ),
        decreases members@.len() - i,
    {
        if same_path(&members[i].destination_path, place) {
            return true;
        }
        i += 1;
    }
    false
}

/// An entry of a cohort's directory belongs there: it is a file that the plan moved there.
pub open spec fn entry_planned(
    members: Seq<LegacyUploadMigrationQuarantineMember>,
    entry: CohortEntry,
) -> bool {
    &&& planned_destination(members, entry.path@)
    &&& sealed::observed_file(entry.path@, entry.file) matches Some(file) && file is Some
}

/// All entries of the cohort's directories belong there, and no two are the same.
pub open spec fn entries_planned(
    members: Seq<LegacyUploadMigrationQuarantineMember>,
    entries: Seq<CohortEntry>,
) -> bool {
    &&& forall|i: int| 0 <= i < entries.len() ==> entry_planned(members, #[trigger] entries[i])
    &&& forall|i: int, j: int|
        0 <= i < j < entries.len() ==> !path::same_place(
            (#[trigger] entries[i]).path@,
            (#[trigger] entries[j]).path@,
        )
}

fn are_entries_planned(
    members: &Vec<LegacyUploadMigrationQuarantineMember>,
    entries: &Vec<CohortEntry>,
) -> (r: bool)
    ensures
        r == entries_planned(members@, entries@),
{
    let mut i: usize = 0;
    while i < entries.len()
        invariant
            i <= entries@.len(),
            forall|k: int| 0 <= k < i ==> entry_planned(members@, #[trigger] entries@[k]),
            forall|a: int, b: int|
                0 <= a < b < i ==> !path::same_place(
                    (#[trigger] entries@[a]).path@,
                    (#[trigger] entries@[b]).path@,
                ),
        decreases entries@.len() - i,
    {
        let entry = &entries[i];
        let is_file: bool = match device_recovery_file_identity(&entry.path, &entry.file) {
            Ok(Some(_)) => true,
            _ => false,
        };
        if !is_planned_destination(members, &entry.path) || !is_file {
            assert(!entry_planned(members@, entries@[i as int]));
            return false;
        }
        let mut k: usize = 0;
        while k < i
            invariant
                k <= i < entries@.len(),
                forall|a: int|
                    0 <= a < k ==> !path::same_place(
                        (#[trigger] entries@[a]).path@,
                        entries@[i as int].path@,
                    ),
            decreases i - k,
        {
            if same_path(&entries[k].path, &entries[i].path) {
                assert(path::same_place(entries@[k as int].path@, entries@[i as int].path@));
                return false;
            }
            k += 1;
        }
        i += 1;
    }
    true
}

/// The file that was found at a path among the entries of the cohort's directories, from the
/// given place on.
pub open spec fn entry_at(entries: Seq<CohortEntry>, place: Seq<char>, from: int) -> Option<
    FileView,
>
    decreases entries.len() - from,
{
    if from < 0 || from >= entries.len() {
        None
    } else if path::same_place(entries[from].path@, place) {
        match sealed::observed_file(entries[from].path@, entries[from].file) {
            Some(file) => file,
            None => None,
        }
    } else {
        entry_at(entries, place, from + 1)
    }
}

fn find_entry_file(entries: &Vec<CohortEntry>, place: &str) -> (r: Option<
    LegacyUploadMigrationQuarantineFileIdentity,
>)
    ensures
        match r {
            Some(file) => entry_at(entries@, place@, 0) == Some(file@),
            None => entry_at(entries@, place@, 0) is None,
        },
{
    let mut i: usize = 0;
    while i < entries.len()
        invariant
            i <= entries@.len(),
            entry_at(entries@, place@, 0) == entry_at(entries@, place@, i as int),
        decreases entries@.len() - i,
    {
        if same_path(&entries[i].path, place) {
            return match device_recovery_file_identity(&entries[i].path, &entries[i].file) {
                Ok(file) => file,
                Err(_) => None,
            };
        }
        i += 1;
    }
    None
}

/// The file that lies at a place of a list of looks.
pub open spec fn file_at(place: Seq<char>, looks: Seq<FilePresence>, i: int) -> Option<
    Option<FileView>,
> {
    if 0 <= i < looks.len() {
        sealed::observed_file(place, looks[i])
    } else {
        None
    }
}

fn find_file(place: &str, looks: &Vec<FilePresence>, i: usize) -> (r: Option<
    Option<LegacyUploadMigrationQuarantineFileIdentity>,
>)
    ensures
        match r {
            Some(Some(file)) => file_at(place@, looks@, i as int) == Some(Some(file@)),
            Some(None) => file_at(place@, looks@, i as int) == Some(None::<FileView>),
            None => file_at(place@, looks@, i as int) is None,
        },
{
    if i < looks.len() {
        match device_recovery_file_identity(place, &looks[i]) {
            Ok(file) => Some(file),
            Err(_) => None,
        }
    } else {
        None
    }
}

/// Every original lies where the plan says and is the file that the plan says.
pub open spec fn raws_in_place(raws: Seq<QuarantineRawInput>, looks: Seq<FilePresence>) -> bool {
    forall|i: int|
        0 <= i < raws.len() ==> file_at((#[trigger] raws[i]).path@, looks, i) == Some(
            Some(raws[i].source@),
        )
}

fn are_raws_in_place(raws: &Vec<QuarantineRawInput>, looks: &Vec<FilePresence>) -> (r: bool)
    ensures
        r == raws_in_place(raws@, looks@),
{
    let mut i: usize = 0;
    while i < raws.len()
        invariant
            i <= raws@.len(),
            forall|k: int|
                0 <= k < i ==> file_at((#[trigger] raws@[k]).path@, looks@, k) == Some(
                    Some(raws@[k].source@),
                ),
        decreases raws@.len() - i,
    {
        let there: bool = match find_file(&raws[i].path, looks, i) {
            Some(Some(file)) => file.is_same(&raws[i].source),
            _ => false,
        };
        if !there {
            assert(file_at(raws@[i as int].path@, looks@, i as int) != Some(
                Some(raws@[i as int].source@),
            ));
            return false;
        }
        i += 1;
    }
    true
}

/// A path is that of an original.
pub open spec fn raw_place(raws: Seq<QuarantineRawInput>, place: Seq<char>) -> bool {
    exists|i: int| 0 <= i < raws.len() && path::same_place((#[trigger] raws[i]).path@, place)
}

/// A file is an original.
pub open spec fn raw_file(raws: Seq<QuarantineRawInput>, device: u64, inode: u64) -> bool {
    exists|i: int|
        0 <= i < raws.len() && (#[trigger] raws[i]).source.device == device && raws[i].source.inode
            == inode
}

fn is_raw_place(raws: &Vec<QuarantineRawInput>, place: &str) -> (r: bool)
    ensures
        r == raw_place(raws@, place@),
{
    let mut i: usize = 0;
    while i < raws.len()
        invariant
            i <= raws@.len(),
            forall|k: int| 0 <= k < i ==> !path::same_place((#[trigger] raws@[k]).path@, place@),
        decreases raws@.len() - i,
    {
        if same_path(&raws[i].path, place) {
            return true;
        }
        i += 1;
    }
    false
}

fn is_raw_file(raws: &Vec<QuarantineRawInput>, device: u64, inode: u64) -> (r: bool)
    ensures
        r == raw_file(raws@, device, inode),
{
    let mut i: usize = 0;
    while i < raws.len()
        invariant
            i <= raws@.len(),
            forall|k: int|
                0 <= k < i ==> !((#[trigger] raws@[k]).source.device == device
                    && raws@[k].source.inode == inode),
        decreases raws@.len() - i,
    {
        if raws[i].source.device == device && raws[i].source.inode == inode {
            return true;
        }
        i += 1;
    }
    false
}

/// The first reference of an asset, from the given place on.
pub open spec fn find_reference(
    references: Seq<EvidenceReferenceNormalization>,
    id: Seq<char>,
    from: int,
) -> Option<EvidenceReferenceNormalization>
    decreases references.len() - from,
{
    if from < 0 || from >= references.len() {
        None
    } else if references[from].asset_id@ == id {
        Some(references[from])
    } else {
        find_reference(references, id, from + 1)
    }
}

fn reference_of<'a>(references: &'a Vec<EvidenceReferenceNormalization>, id: &str) -> (r: Option<
    &'a EvidenceReferenceNormalization,
>)
    ensures
        match r {
            Some(reference) => find_reference(references@, id@, 0) == Some(*reference),
            None => find_reference(references@, id@, 0) is None,
        },
{
    let mut i: usize = 0;
    while i < references.len()
        invariant
            i <= references@.len(),
            find_reference(references@, id@, 0) == find_reference(references@, id@, i as int),
        decreases references@.len() - i,
    {
        if same_text(&references[i].asset_id, id) {
            return Some(&references[i]);
        }
        i += 1;
    }
    None
}

/// A file of its owner's alone lies beside the one that was moved into quarantine, on its device.
pub open spec fn lies_beside(source: FileView, destination: FileView, euid: u32) -> bool {
    &&& conversion::private_file(source, euid)
    &&& source.device == destination.device
    &&& source.inode != destination.inode
}

fn does_lie_beside(
    source: &LegacyUploadMigrationQuarantineFileIdentity,
    destination: &LegacyUploadMigrationQuarantineFileIdentity,
    euid: u32,
) -> (r: bool)
    ensures
        r == lies_beside(source@, destination@, euid),
{
    source.owner == euid && source.mode == OWNER_ONLY_MODE && source.link_count == 1
        && source.device == destination.device && source.inode != destination.inode
        && source.size_bytes != 0
}

/// A file that lies where a quarantined reference lay is the same image, turned upright.
pub open spec fn normalized_reference(
    reference: EvidenceReferenceNormalization,
    source: FileView,
    destination: FileView,
    probe: Option<ReferenceNormalizationIdentity>,
    euid: u32,
) -> bool {
    &&& lies_beside(source, destination, euid)
    &&& probe matches Some(image) && image.orientation == 1 && image.width == reference.width
        && image.height == reference.height && image.decoded_pixel_sha256@
        == reference.decoded_pixel_sha256@
}

/// Accepts a file that lies where a quarantined reference lay if it is the same image, turned
/// upright.
pub fn validate_device_recovery_normalized_reference(
    reference: &EvidenceReferenceNormalization,
    source: &LegacyUploadMigrationQuarantineFileIdentity,
    destination: &LegacyUploadMigrationQuarantineFileIdentity,
    probe: &Option<ReferenceNormalizationIdentity>,
    euid: u32,
) -> (r: Result<(), LegacyUploadEvidenceError>)
    ensures
        r is Ok <==> normalized_reference(*reference, source@, destination@, *probe, euid),
        r matches Err(error) ==> error@ == "recovery_layout"@,
{
    if !does_lie_beside(source, destination, euid) {
        return Err(failure("recovery_layout"));
    }
    match probe {
        Some(image) => if image.orientation == 1 && image.width == reference.width && image.height
            == reference.height && same_text(
            &image.decoded_pixel_sha256,
            &reference.decoded_pixel_sha256,
        ) {
            Ok(())
        } else {
            Err(failure("recovery_layout"))
        },
        None => Err(failure("recovery_layout")),
    }
}

/// What the image at the source path of a member shows.
pub open spec fn probe_at(
    probes: Seq<Option<ReferenceNormalizationIdentity>>,
    i: int,
) -> Option<ReferenceNormalizationIdentity> {
    if 0 <= i < probes.len() {
        probes[i]
    } else {
        None
    }
}

/// What may lie at the source path and in quarantine, for a member of that kind while the journals
/// stand at that phase.
///
/// Until the delete is confirmed a file may still lie at its source. Once it lies in quarantine
/// its source path is free. The source of a HEIC is free only when the record was just reset, or
/// when the conversion that followed wrote elsewhere; if it wrote there, its verified output lies
/// there. Where a reference lay, the upright image may lie.
pub open spec fn both_ends_sound(
    document: EvidenceDocument,
    manifest: Manifest,
    phase: LegacyUploadMigrationPhase,
    member: LegacyUploadMigrationQuarantineMember,
    source: Option<FileView>,
    destination: Option<FileView>,
    probe: Option<ReferenceNormalizationIdentity>,
    euid: u32,
) -> bool {
    match (source, destination) {
        (Some(file), None) => file == member.source@ && phase.ordinal()
            <= LegacyUploadMigrationPhase::DeleteConfirmed.ordinal(),
        (None, Some(_)) => match member.kind {
            LegacyUploadMigrationQuarantineKind::Final => phase
                == LegacyUploadMigrationPhase::Reset || (conversion::verified_output(
                manifest,
                phase,
                member.asset_id@,
            ) matches Some(output) && !path::same_place(output.path, member.source_path@)),
            _ => true,
        },
        (Some(file), Some(moved)) => match member.kind {
            LegacyUploadMigrationQuarantineKind::Final => conversion::conversion_source(
                manifest,
                phase,
                member.asset_id@,
                member.source_path@,
                file,
                member.source@,
                member.root_device,
                euid,
            ),
            LegacyUploadMigrationQuarantineKind::OldMirror => false,
            LegacyUploadMigrationQuarantineKind::Reference => find_reference(
                document.reference_normalizations@,
                member.asset_id@,
                0,
            ) matches Some(reference) && normalized_reference(
                reference,
                file,
                moved,
                probe,
                euid,
            ),
        },
        (None, None) => false,
    }
}

/// A member lies where a member of its kind may lie while the journals stand at that phase.
pub open spec fn member_in_place(
    document: EvidenceDocument,
    manifest: Manifest,
    phase: LegacyUploadMigrationPhase,
    plan: PlanContent,
    observed: LayoutObservation,
    euid: u32,
    i: int,
) -> bool {
    let member = plan.members[i];
    let destination = entry_at(observed.entries->0@, member.destination_path@, 0);
    &&& !raw_place(plan.raw_inputs, member.source_path@)
    &&& destination matches Some(file) ==> file == member.source@ && !raw_file(
        plan.raw_inputs,
        file.device,
        file.inode,
    )
    &&& file_at(member.source_path@, observed.sources@, i) matches Some(source) && {
        &&& both_ends_sound(
            document,
            manifest,
            phase,
            member,
            source,
            destination,
            probe_at(observed.probes@, i),
            euid,
        )
        &&& source matches Some(file) ==> {
            &&& file.device == member.root_device
            &&& file == member.source@ || !(member.kind is OldMirror)
            &&& !raw_file(plan.raw_inputs, file.device, file.inode)
        }
    }
}

/// What was found on disk is what a cohort may have left there at that phase.
pub open spec fn layout_sound(
    document: EvidenceDocument,
    manifest: Manifest,
    phase: LegacyUploadMigrationPhase,
    plan: PlanContent,
    observed: LayoutObservation,
    euid: u32,
) -> bool {
    &&& destinations_sound(plan, document.cohort_sha256@)
    &&& roots_in_place(plan.roots, document.cohort_sha256@, observed.roots@)
    &&& observed.entries matches Some(entries) && entries_planned(plan.members, entries@)
    &&& raws_in_place(plan.raw_inputs, observed.raws@)
    &&& forall|i: int|
        0 <= i < plan.members.len() ==> #[trigger] member_in_place(
            document,
            manifest,
            phase,
            plan,
            observed,
            euid,
            i,
        )
}

/// The category under which what was found on disk is refused, or nothing.
pub open spec fn layout_refusal(
    document: EvidenceDocument,
    manifest: Manifest,
    phase: LegacyUploadMigrationPhase,
    plan_inputs: PlanInputs,
    observed: LayoutObservation,
    euid: u32,
) -> Option<Seq<char>> {
    match plan::sealed_plan_refusal(document, manifest, plan_inputs) {
        Some(category) => Some(category),
        None => if layout_sound(
            document,
            manifest,
            phase,
            plan::drafted(document, plan_inputs.destinations@),
            observed,
            euid,
        ) {
            None
        } else {
            Some("recovery_layout"@)
        },
    }
}

fn are_both_ends_sound(
    document: &EvidenceDocument,
    manifest: &Manifest,
    phase: LegacyUploadMigrationPhase,
    member: &LegacyUploadMigrationQuarantineMember,
    source: &Option<LegacyUploadMigrationQuarantineFileIdentity>,
    destination: &Option<LegacyUploadMigrationQuarantineFileIdentity>,
    probe: &Option<ReferenceNormalizationIdentity>,
    euid: u32,
) -> (r: bool)
    ensures
        r == both_ends_sound(
            *document,
            *manifest,
            phase,
            *member,
            view_of(*source),
            view_of(*destination),
            *probe,
            euid,
        ),
{
    match (source, destination) {
        (Some(file), None) => file.is_same(&member.source) && phase.index()
            <= LegacyUploadMigrationPhase::DeleteConfirmed.index(),
        (None, Some(_)) => match member.kind {
            LegacyUploadMigrationQuarantineKind::Final => {
                if phase == LegacyUploadMigrationPhase::Reset {
                    return true;
                }
                match manifest_verified_conversion_output(manifest, phase, &member.asset_id) {
                    Some((output_path, _, _)) => !same_path(&output_path, &member.source_path),
                    None => false,
                }
            },
            _ => true,
        },
        (Some(file), Some(moved)) => match member.kind {
            LegacyUploadMigrationQuarantineKind::Final => {
                is_verified_conversion_source_for_quarantine(
                    manifest,
                    phase,
                    &member.asset_id,
                    &member.source_path,
                    file,
                    &member.source,
                    member.root_device,
                    euid,
                )
            },
            LegacyUploadMigrationQuarantineKind::OldMirror => false,
            LegacyUploadMigrationQuarantineKind::Reference => {
                match reference_of(&document.reference_normalizations, &member.asset_id) {
                    Some(reference) => validate_device_recovery_normalized_reference(
                        reference,
                        file,
                        moved,
                        probe,
                        euid,
                    ).is_ok(),
                    None => false,
                }
            },
        },
        (None, None) => false,
    }
}

/// What an optional identity says.
pub open spec fn view_of(file: Option<LegacyUploadMigrationQuarantineFileIdentity>) -> Option<
    FileView,
> {
    match file {
        Some(file) => Some(file@),
        None => None,
    }
}

fn is_member_in_place(
    document: &EvidenceDocument,
    manifest: &Manifest,
    phase: LegacyUploadMigrationPhase,
    plan: &LegacyUploadMigrationQuarantinePlan,
    observed: &LayoutObservation,
    entries: &Vec<CohortEntry>,
    euid: u32,
    i: usize,
) -> (r: bool)
    requires
        i < plan.members@.len(),
        observed.entries == Some(*entries),
    ensures
        r == member_in_place(
            *document,
            *manifest,
            phase,
            plan.content(),
            *observed,
            euid,
            i as int,
        ),
{
    let member = &plan.members[i];
    if is_raw_place(&plan.raw_inputs, &member.source_path) {
        return false;
    }
    let source = match find_file(&member.source_path, &observed.sources, i) {
        None => {
            return false;
        },
        Some(source) => source,
    };
    let destination = find_entry_file(entries, &member.destination_path);
    match &destination {
        Some(file) => {
            if !file.is_same(&member.source) || is_raw_file(
                &plan.raw_inputs,
                file.device,
                file.inode,
            ) {
                return false;
            }
        },
        None => {},
    }
    let ends: bool = if i < observed.probes.len() {
        are_both_ends_sound(
            document,
            manifest,
            phase,
            member,
            &source,
            &destination,
            &observed.probes[i],
            euid,
        )
    } else {
        are_both_ends_sound(
            document,
            manifest,
            phase,
            member,
            &source,
            &destination,
            &None,
            euid,
        )
    };
    if !ends {
        return false;
    }
    match &source {
        Some(file) => {
            let mirror: bool = match member.kind {
                LegacyUploadMigrationQuarantineKind::OldMirror => true,
                _ => false,
            };
            file.device == member.root_device && (!mirror || file.is_same(&member.source))
                && !is_raw_file(&plan.raw_inputs, file.device, file.inode)
        },
        None => true,
    }
}

/// Accepts what was found on disk if a cohort may have left it there at that phase.
pub fn validate_device_recovery_quarantine_layout(
    document: &EvidenceDocument,
    manifest: &Manifest,
    phase: LegacyUploadMigrationPhase,
    plan_inputs: &PlanInputs,
    observed: &LayoutObservation,
    euid: u32,
) -> (r: Result<(), LegacyUploadEvidenceError>)
    requires
        plan::replacements_readable(*document, *manifest),
    ensures
        crate::error::refused_as(
            r,
            layout_refusal(*document, *manifest, phase, *plan_inputs, *observed, euid),
        ),
{
    let plan = match quarantine_plan_from_document(document, manifest, plan_inputs) {
        Err(error) => {
            return Err(error);
        },
        Ok(plan) => plan,
    };
    if !are_destinations_sound(&plan, &document.cohort_sha256) || !are_roots_in_place(
        &plan.roots,
        &document.cohort_sha256,
        &observed.roots,
    ) {
        return Err(failure("recovery_layout"));
    }
    let entries = match &observed.entries {
        None => {
            return Err(failure("recovery_layout"));
        },
        Some(entries) => entries,
    };
    if !are_entries_planned(&plan.members, entries) || !are_raws_in_place(
        &plan.raw_inputs,
        &observed.raws,
    ) {
        return Err(failure("recovery_layout"));
    }
    let mut i: usize = 0;
    while i < plan.members.len()
        invariant
            i <= plan.members@.len(),
            observed.entries == Some(*entries),
            plan::sealed_plan_refusal(*document, *manifest, *plan_inputs) is None,
            plan.content() == plan::drafted(*document, plan_inputs.destinations@),
            forall|k: int|
                0 <= k < i ==> #[trigger] member_in_place(
                    *document,
                    *manifest,
                    phase,
                    plan.content(),
                    *observed,
                    euid,
                    k,
                ),
        decreases plan.members@.len() - i,
    {
        if !is_member_in_place(document, manifest, phase, &plan, observed, entries, euid, i) {
            assert(!member_in_place(
                *document,
                *manifest,
                phase,
                plan.content(),
                *observed,
                euid,
                i as int,
            ));
            return Err(failure("recovery_layout"));
        }
        i += 1;
    }
    Ok(())
}

/// The file of a member lies at its source, unchanged.
pub open spec fn lies_at_source(plan: PlanContent, observed: LayoutObservation, i: int) -> bool {
    file_at(plan.members[i].source_path@, observed.sources@, i) == Some(
        Some(plan.members[i].source@),
    )
}

/// The file of a member lies in quarantine, unchanged.
pub open spec fn lies_in_quarantine(
    plan: PlanContent,
    observed: LayoutObservation,
    i: int,
) -> bool {
    entry_at(observed.entries->0@, plan.members[i].destination_path@, 0) == Some(
        plan.members[i].source@,
    )
}

/// Nothing is lost: where the layout is accepted, the sealed file of every member lies, unchanged,
/// at its source or in quarantine, and once the deletes are more than confirmed it lies in
/// quarantine.
pub proof fn no_member_is_lost(
    document: EvidenceDocument,
    manifest: Manifest,
    phase: LegacyUploadMigrationPhase,
    plan: PlanContent,
    observed: LayoutObservation,
    euid: u32,
    i: int,
)
    requires
        layout_sound(document, manifest, phase, plan, observed, euid),
        0 <= i < plan.members.len(),
    ensures
        lies_at_source(plan, observed, i) || lies_in_quarantine(plan, observed, i),
        phase.ordinal() > LegacyUploadMigrationPhase::DeleteConfirmed.ordinal()
            ==> lies_in_quarantine(plan, observed, i),
{
    assert(member_in_place(document, manifest, phase, plan, observed, euid, i));
}

/// An old mirror never lies at both ends: its source is free once it lies in quarantine.
pub proof fn mirrors_lie_at_one_end(
    document: EvidenceDocument,
    manifest: Manifest,
    phase: LegacyUploadMigrationPhase,
    plan: PlanContent,
    observed: LayoutObservation,
    euid: u32,
    i: int,
)
    requires
        layout_sound(document, manifest, phase, plan, observed, euid),
        0 <= i < plan.members.len(),
        plan.members[i].kind is OldMirror,
        lies_in_quarantine(plan, observed, i),
    ensures
        file_at(plan.members[i].source_path@, observed.sources@, i) == Some(None::<FileView>),
{
    assert(member_in_place(document, manifest, phase, plan, observed, euid, i));
}

/// Originals are left alone: where the layout is accepted, no member has the path of an original,
/// and no file that lies at either end of a member is an original.
pub proof fn originals_are_left_alone(
    document: EvidenceDocument,
    manifest: Manifest,
    phase: LegacyUploadMigrationPhase,
    plan: PlanContent,
    observed: LayoutObservation,
    euid: u32,
    i: int,
)
    requires
        layout_sound(document, manifest, phase, plan, observed, euid),
        0 <= i < plan.members.len(),
    ensures
        !raw_place(plan.raw_inputs, plan.members[i].source_path@),
        file_at(plan.members[i].source_path@, observed.sources@, i) matches Some(Some(file))
            ==> !raw_file(plan.raw_inputs, file.device, file.inode),
        entry_at(observed.entries->0@, plan.members[i].destination_path@, 0) matches Some(file)
            ==> !raw_file(plan.raw_inputs, file.device, file.inode),
{
    assert(member_in_place(document, manifest, phase, plan, observed, euid, i));
}

/// What an image shows is asked for: a file of its owner's alone lies where a reference lay that is
/// in quarantine now.
pub open spec fn probe_awaited(
    document: EvidenceDocument,
    destinations: Seq<Option<String>>,
    observed: LayoutObservation,
    euid: u32,
    i: int,
) -> bool {
    let member = document.quarantine_members@[i];
    &&& 0 <= i < document.quarantine_members@.len()
    &&& member.kind is Reference
    &&& find_reference(document.reference_normalizations@, member.asset_id@, 0) is Some
    &&& file_at(member.source_path@, observed.sources@, i) matches Some(Some(source))
    &&& plan::destination_of(destinations, i) matches Some(destination)
    &&& observed.entries matches Some(entries)
    &&& entry_at(entries@, destination@, 0) matches Some(moved)
    &&& lies_beside(source, moved, euid)
}

/// Whether it is asked for what the image at the source path of a member shows.
pub fn is_probe_awaited(
    document: &EvidenceDocument,
    destinations: &Vec<Option<String>>,
    observed: &LayoutObservation,
    euid: u32,
    i: usize,
) -> (r: bool)
    ensures
        r == probe_awaited(*document, destinations@, *observed, euid, i as int),
{
    if i >= document.quarantine_members.len() || i >= destinations.len() {
        return false;
    }
    let member = &document.quarantine_members[i];
    let is_reference: bool = match member.kind {
        LegacyUploadMigrationQuarantineKind::Reference => true,
        _ => false,
    };
    if !is_reference || reference_of(
        &document.reference_normalizations,
        &member.asset_id,
    ).is_none() {
        return false;
    }
    match (
        find_file(&member.source_path, &observed.sources, i),
        &destinations[i],
        &observed.entries,
    ) {
        (Some(Some(source)), Some(destination), Some(entries)) => match find_entry_file(
            entries,
            destination,
        ) {
            Some(moved) => does_lie_beside(&source, &moved, euid),
            None => false,
        },
        _ => false,
    }
}

/// What an image shows decides nothing where it is not asked for.
pub proof fn unawaited_probes_decide_nothing(
    document: EvidenceDocument,
    manifest: Manifest,
    phase: LegacyUploadMigrationPhase,
    destinations: Seq<Option<String>>,
    observed: LayoutObservation,
    other: LayoutObservation,
    euid: u32,
    i: int,
)
    requires
        other == (LayoutObservation { probes: other.probes, ..observed }),
        0 <= i < document.quarantine_members@.len(),
        plan::destination_of(destinations, i) is Some,
        observed.entries is Some,
        !probe_awaited(document, destinations, observed, euid, i),
    ensures
        member_in_place(
            document,
            manifest,
            phase,
            plan::drafted(document, destinations),
            observed,
            euid,
            i,
        ) == member_in_place(
            document,
            manifest,
            phase,
            plan::drafted(document, destinations),
            other,
            euid,
            i,
        ),
{
}

proof fn root_found_from(roots: Seq<QuarantineRoot>, device: u64, i: int, from: int)
    requires
        0 <= i < roots.len(),
        0 <= from <= roots.len(),
        forall|j: int| 0 <= j < roots.len() && j != i ==> (#[trigger] roots[j]).device != device,
    ensures
        find_root(roots, device, from) == (if from <= i && roots[i].device == device {
            Some(roots[i])
        } else {
            None
        }),
    decreases roots.len() - from,
{
    if from < roots.len() {
        root_found_from(roots, device, i, from + 1);
    }
}

/// A destination is in the cohort exactly if it lies directly in the directory that is named for
/// the cohort in the root of its device.
pub proof fn destinations_lie_in_the_root_of_their_device(
    plan: PlanContent,
    cohort_sha256: Seq<char>,
    member: LegacyUploadMigrationQuarantineMember,
    i: int,
)
    requires
        0 <= i < plan.roots.len(),
        plan.roots[i].device == member.root_device,
        forall|j: int|
            0 <= j < plan.roots.len() && j != i ==> (#[trigger] plan.roots[j]).device
                != member.root_device,
    ensures
        destination_in_cohort(plan, cohort_sha256, member) <==> path::parent_place(
            member.destination_path@,
            path::joined(plan.roots[i].canonical_path@, cohort_sha256),
        ),
{
    root_found_from(plan.roots, member.root_device, i, 0);
}

/// A root is in place exactly if it is the sealed directory, at its canonical place, and holds a
/// directory for the cohort that only the same owner may enter, on the same device.
pub proof fn roots_in_place_are_the_sealed_directories(
    root: QuarantineRoot,
    cohort_sha256: Seq<char>,
    observed: RootObservation,
)
    ensures
        root_in_place(root, cohort_sha256, observed) <==> {
            &&& observed.canonical is Some
            &&& path::same_place(observed.canonical->0@, root.canonical_path@)
            &&& observed.metadata is Some
            &&& observed.metadata->0.is_dir
            &&& observed.metadata->0.dev == root.device
            &&& observed.metadata->0.ino == root.inode
            &&& observed.metadata->0.uid == root.owner
            &&& observed.metadata->0.mode & 511 == root.mode
            &&& observed.cohort_canonical is Some
            &&& path::same_place(
                observed.cohort_canonical->0@,
                path::joined(root.canonical_path@, cohort_sha256),
            )
            &&& observed.cohort is Some
            &&& observed.cohort->0.is_dir
            &&& observed.cohort->0.dev == root.device
            &&& observed.cohort->0.uid == root.owner
            &&& observed.cohort->0.mode & 511 == 448
        },
{
}

proof fn reference_found_from(
    references: Seq<EvidenceReferenceNormalization>,
    id: Seq<char>,
    i: int,
    from: int,
)
    requires
        0 <= i < references.len(),
        0 <= from <= references.len(),
        forall|j: int|
            0 <= j < references.len() && j != i ==> (#[trigger] references[j]).asset_id@ != id,
    ensures
        find_reference(references, id, from) == (if from <= i && references[i].asset_id@ == id {
            Some(references[i])
        } else {
            None
        }),
    decreases references.len() - from,
{
    if from < references.len() {
        reference_found_from(references, id, i, from + 1);
    }
}

/// The reference of an asset is the one of its id.
pub proof fn references_are_found_by_their_asset(
    references: Seq<EvidenceReferenceNormalization>,
    id: Seq<char>,
    i: int,
)
    requires
        0 <= i < references.len(),
        forall|j: int|
            0 <= j < references.len() && j != i ==> (#[trigger] references[j]).asset_id@ != id,
    ensures
        find_reference(references, id, 0) == (if references[i].asset_id@ == id {
            Some(references[i])
        } else {
            None
        }),
{
    reference_found_from(references, id, i, 0);
}

proof fn entry_found_from(entries: Seq<CohortEntry>, place: Seq<char>, i: int, from: int)
    requires
        0 <= i < entries.len(),
        0 <= from <= entries.len(),
        forall|j: int|
            0 <= j < entries.len() && j != i ==> !path::same_place(
                (#[trigger] entries[j]).path@,
                place,
            ),
    ensures
        entry_at(entries, place, from) == (if from <= i && path::same_place(
            entries[i].path@,
            place,
        ) && sealed::observed_file(entries[i].path@, entries[i].file) is Some {
            sealed::observed_file(entries[i].path@, entries[i].file)->0
        } else {
            None
        }),
    decreases entries.len() - from,
{
    if from < entries.len() {
        entry_found_from(entries, place, i, from + 1);
    }
}

/// What lies at a place in quarantine is the file of the one entry there.
pub proof fn quarantined_files_are_found_by_their_place(
    entries: Seq<CohortEntry>,
    place: Seq<char>,
    i: int,
)
    requires
        0 <= i < entries.len(),
        forall|j: int|
            0 <= j < entries.len() && j != i ==> !path::same_place(
                (#[trigger] entries[j]).path@,
                place,
            ),
    ensures
        entry_at(entries, place, 0) == (if path::same_place(entries[i].path@, place)
            && sealed::observed_file(entries[i].path@, entries[i].file) is Some {
            sealed::observed_file(entries[i].path@, entries[i].file)->0
        } else {
            None
        }),
{
    entry_found_from(entries, place, i, 0);
}

/// A file beside its quarantined reference is the normalized reference exactly if it is a private
/// file of its own on the same device that shows the same image, upright.
pub proof fn normalized_references_show_the_same_image_upright(
    reference: EvidenceReferenceNormalization,
    source: FileView,
    destination: FileView,
    probe: Option<ReferenceNormalizationIdentity>,
    euid: u32,
)
    ensures
        normalized_reference(reference, source, destination, probe, euid) <==> {
            &&& conversion::private_file(source, euid)
            &&& source.device == destination.device
            &&& source.inode != destination.inode
            &&& probe is Some
            &&& probe->0.orientation == 1
            &&& probe->0.width == reference.width
            &&& probe->0.height == reference.height
            &&& probe->0.decoded_pixel_sha256@ == reference.decoded_pixel_sha256@
        },
{
}

/// A file that was not moved must be the sealed one, and the cohort must not be past the confirmed
/// deletion; a file that is neither here nor there is never sound; and a mirror is never in both
/// places.
pub proof fn files_are_moved_once_the_deletion_is_confirmed(
    document: EvidenceDocument,
    manifest: Manifest,
    phase: LegacyUploadMigrationPhase,
    member: LegacyUploadMigrationQuarantineMember,
    source: FileView,
    moved: FileView,
    probe: Option<ReferenceNormalizationIdentity>,
    euid: u32,
)
    ensures
        both_ends_sound(document, manifest, phase, member, Some(source), None, probe, euid)
            <==> source == member.source@ && (phase is Prepared || phase is DeleteConfirmed),
        !both_ends_sound(document, manifest, phase, member, None, None, probe, euid),
        member.kind is OldMirror ==> !both_ends_sound(
            document,
            manifest,
            phase,
            member,
            Some(source),
            Some(moved),
            probe,
            euid,
        ),
        !(member.kind is Final) ==> both_ends_sound(
            document,
            manifest,
            phase,
            member,
            None,
            Some(moved),
            probe,
            euid,
        ),
        member.kind is Final && phase is Reset ==> both_ends_sound(
            document,
            manifest,
            phase,
            member,
            None,
            Some(moved),
            probe,
            euid,
        ),
        member.kind is Final && !(phase is Reset) ==> (both_ends_sound(
            document,
            manifest,
            phase,
            member,
            None,
            Some(moved),
            probe,
            euid,
        ) <==> {
            let output = conversion::verified_output(manifest, phase, member.asset_id@);
            output is Some && !path::same_place(output->0.path, member.source_path@)
        }),
        member.kind is Final ==> (both_ends_sound(
            document,
            manifest,
            phase,
            member,
            Some(source),
            Some(moved),
            probe,
            euid,
        ) <==> conversion::conversion_source(
            manifest,
            phase,
            member.asset_id@,
            member.source_path@,
            source,
            member.source@,
            member.root_device,
            euid,
        )),
        member.kind is Reference ==> (both_ends_sound(
            document,
            manifest,
            phase,
            member,
            Some(source),
            Some(moved),
            probe,
            euid,
        ) <==> {
            let reference = find_reference(
                document.reference_normalizations@,
                member.asset_id@,
                0,
            );
            reference is Some && normalized_reference(
                reference->0,
                source,
                moved,
                probe,
                euid,
            )
        }),
{
}

/// A member is in place exactly if no original lies at its source, what was moved is the sealed file
/// and no original, what lies at the source is on the device of the root and no original, and is
/// the sealed file if it is a mirror, and both ends are sound together.
pub proof fn members_in_place_are_no_originals(
    document: EvidenceDocument,
    manifest: Manifest,
    phase: LegacyUploadMigrationPhase,
    plan: PlanContent,
    observed: LayoutObservation,
    euid: u32,
    i: int,
    source: Option<FileView>,
)
    requires
        0 <= i < plan.members.len(),
        file_at(plan.members[i].source_path@, observed.sources@, i) == Some(source),
    ensures
        member_in_place(document, manifest, phase, plan, observed, euid, i) <==> {
            let member = plan.members[i];
            let moved = entry_at(observed.entries->0@, member.destination_path@, 0);
            &&& forall|k: int|
                0 <= k < plan.raw_inputs.len() ==> !path::same_place(
                    (#[trigger] plan.raw_inputs[k]).path@,
                    member.source_path@,
                )
            &&& moved is Some ==> moved->0 == member.source@ && forall|k: int|
                0 <= k < plan.raw_inputs.len() ==> (#[trigger] plan.raw_inputs[k]).source.device
                    != moved->0.device || plan.raw_inputs[k].source.inode != moved->0.inode
            &&& source is Some ==> source->0.device == member.root_device && (member.kind
                is OldMirror ==> source->0 == member.source@) && forall|k: int|
                0 <= k < plan.raw_inputs.len() ==> (#[trigger] plan.raw_inputs[k]).source.device
                    != source->0.device || plan.raw_inputs[k].source.inode != source->0.inode
            &&& both_ends_sound(
                document,
                manifest,
                phase,
                member,
                source,
                moved,
                probe_at(observed.probes@, i),
                euid,
            )
        },
{
}

/// A layout is accepted exactly if its plan is, every destination is in the cohort and no two are
/// one, the roots are in place, each entry of the cohort is a file at a planned destination and no
/// two are at one place, every original is there as sealed, and every member is in place.
pub proof fn layouts_are_accepted_file_by_file(
    document: EvidenceDocument,
    manifest: Manifest,
    phase: LegacyUploadMigrationPhase,
    plan_inputs: PlanInputs,
    observed: LayoutObservation,
    euid: u32,
)
    ensures
        layout_refusal(document, manifest, phase, plan_inputs, observed, euid) is None <==> {
            let plan = plan::drafted(document, plan_inputs.destinations@);
            &&& plan::sealed_plan_refusal(document, manifest, plan_inputs) is None
            &&& destinations_sound(plan, document.cohort_sha256@)
            &&& roots_in_place(plan.roots, document.cohort_sha256@, observed.roots@)
            &&& observed.entries is Some
            &&& entries_planned(plan.members, observed.entries->0@)
            &&& raws_in_place(plan.raw_inputs, observed.raws@)
            &&& forall|i: int|
                0 <= i < plan.members.len() ==> #[trigger] member_in_place(
                    document,
                    manifest,
                    phase,
                    plan,
                    observed,
                    euid,
                    i,
                )
        },
{
}

/// Every entry of an accepted cohort is a file at the destination of a member.
pub proof fn nothing_else_lies_in_quarantine(
    members: Seq<LegacyUploadMigrationQuarantineMember>,
    entries: Seq<CohortEntry>,
    i: int,
    j: int,
)
    requires
        entries_planned(members, entries),
        0 <= i < entries.len(),
        0 <= j < entries.len(),
    ensures
        exists|k: int|
            0 <= k < members.len() && path::same_place(
                (#[trigger] members[k]).destination_path@,
                entries[i].path@,
            ),
        sealed::observed_file(entries[i].path@, entries[i].file) is Some,
        sealed::observed_file(entries[i].path@, entries[i].file)->0 is Some,
        i != j ==> !path::same_place(entries[i].path@, entries[j].path@) || !path::same_place(
            entries[j].path@,
            entries[i].path@,
        ),
{
    assert(entry_planned(members, entries[i]));
    if i < j {
        assert(!path::same_place(entries[i].path@, entries[j].path@));
    } else if j < i {
        assert(!path::same_place(entries[j].path@, entries[i].path@));
    }
}

/// A layout is refused for its plan first, and as a layout for anything else.
pub proof fn faults_of_a_layout_are_named(
    document: EvidenceDocument,
    manifest: Manifest,
    phase: LegacyUploadMigrationPhase,
    plan_inputs: PlanInputs,
    observed: LayoutObservation,
    euid: u32,
)
    ensures
        ({
            let planned = plan::sealed_plan_refusal(document, manifest, plan_inputs);
            let told = layout_refusal(document, manifest, phase, plan_inputs, observed, euid);
            &&& planned is Some ==> told == planned
            &&& planned is None && told is Some ==> told == Some("recovery_layout"@)
        }),
{
}

/// Destinations are sound exactly if each is in the cohort and no two members would lie at one
/// place.
pub proof fn sound_destinations_are_apart(plan: PlanContent, cohort_sha256: Seq<char>)
    ensures
        destinations_sound(plan, cohort_sha256) <==> {
            &&& forall|i: int|
                0 <= i < plan.members.len() ==> destination_in_cohort(
                    plan,
                    cohort_sha256,
                    #[trigger] plan.members[i],
                )
            &&& forall|i: int, j: int|
                0 <= i < plan.members.len() && 0 <= j < plan.members.len() && i != j
                    ==> !path::same_place(
                    (#[trigger] plan.members[i]).destination_path@,
                    (#[trigger] plan.members[j]).destination_path@,
                )
        },
{
    if destinations_sound(plan, cohort_sha256) {
        assert forall|i: int, j: int|
            0 <= i < plan.members.len() && 0 <= j < plan.members.len() && i
                != j implies !path::same_place(
            (#[trigger] plan.members[i]).destination_path@,
            (#[trigger] plan.members[j]).destination_path@,
        ) by {
            if i < j {
                assert(!path::same_place(
                    plan.members[i].destination_path@,
                    plan.members[j].destination_path@,
                ));
            } else {
                assert(!path::same_place(
                    plan.members[j].destination_path@,
                    plan.members[i].destination_path@,
                ));
            }
        }
    }
}

/// The entries of a cohort are planned exactly if each lies at the destination of a member, is a
/// file that can be told, and no two lie at one place.
pub proof fn planned_entries_are_files_at_destinations(
    members: Seq<LegacyUploadMigrationQuarantineMember>,
    entries: Seq<CohortEntry>,
)
    ensures
        entries_planned(members, entries) <==> {
            &&& forall|i: int|
                0 <= i < entries.len() ==> planned_destination(
                    members,
                    (#[trigger] entries[i]).path@,
                ) && sealed::observed_file(entries[i].path@, entries[i].file) is Some
                    && sealed::observed_file(entries[i].path@, entries[i].file)->0 is Some
            &&& forall|i: int, j: int|
                0 <= i < entries.len() && 0 <= j < entries.len() && i != j ==> !path::same_place(
                    (#[trigger] entries[i]).path@,
                    (#[trigger] entries[j]).path@,
                )
        },
{
    assert forall|i: int| 0 <= i < entries.len() implies (entry_planned(
        members,
        #[trigger] entries[i],
    ) <==> planned_destination(members, entries[i].path@) && sealed::observed_file(
        entries[i].path@,
        entries[i].file,
    ) is Some && sealed::observed_file(entries[i].path@, entries[i].file)->0 is Some) by {}
    if entries_planned(members, entries) {
        assert forall|i: int, j: int|
            0 <= i < entries.len() && 0 <= j < entries.len() && i != j implies !path::same_place(
            (#[trigger] entries[i]).path@,
            (#[trigger] entries[j]).path@,
        ) by {
            if i < j {
                assert(!path::same_place(entries[i].path@, entries[j].path@));
            } else {
                assert(!path::same_place(entries[j].path@, entries[i].path@));
            }
        }
    }
}

/// Originals are in place exactly if each is looked at and found as it was sealed; roots, if each is
/// looked at and in place.
pub proof fn originals_and_roots_are_all_looked_at(
    raws: Seq<QuarantineRawInput>,
    looks: Seq<FilePresence>,
    roots: Seq<QuarantineRoot>,
    cohort_sha256: Seq<char>,
    observed: Seq<RootObservation>,
)
    ensures
        raws_in_place(raws, looks) <==> forall|i: int|
            0 <= i < raws.len() ==> i < looks.len() && sealed::observed_file(
                (#[trigger] raws[i]).path@,
                looks[i],
            ) == Some(Some(raws[i].source@)),
        roots_in_place(roots, cohort_sha256, observed) <==> observed.len() >= roots.len()
            && forall|i: int|
            0 <= i < roots.len() ==> root_in_place(#[trigger] roots[i], cohort_sha256, observed[i]),
{
    assert forall|i: int| 0 <= i < raws.len() implies (file_at(
        (#[trigger] raws[i]).path@,
        looks,
        i,
    ) == Some(Some(raws[i].source@)) <==> i < looks.len() && sealed::observed_file(
        raws[i].path@,
        looks[i],
    ) == Some(Some(raws[i].source@))) by {}
}

/// A file is told by the look at its own place in the list, an image by its own probe, and nothing
/// is told where there was no look.
pub proof fn looks_go_by_their_place(
    place: Seq<char>,
    looks: Seq<FilePresence>,
    probes: Seq<Option<ReferenceNormalizationIdentity>>,
    i: int,
)
    requires
        0 <= i,
    ensures
        i < looks.len() ==> file_at(place, looks, i) == sealed::observed_file(place, looks[i]),
        i >= looks.len() ==> file_at(place, looks, i) is None,
        i < probes.len() ==> probe_at(probes, i) == probes[i],
        i >= probes.len() ==> probe_at(probes, i) is None,
{
}

} // verus!
