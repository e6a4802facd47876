use vstd::prelude::*;
use vstd::string::*;
use vstd::utf8::*;

use crate::audit::validate_retired_replacement_pair;
use crate::digest;
use crate::digest::sha256_bytes;
use crate::document::{
    EvidenceAsset, EvidenceDocument, EvidenceReferenceNormalization, EvidenceRetiredReplacement,
    ASSET_COUNT, EVIDENCE_SCHEMA_VERSION, QUARANTINE_MEMBER_COUNT, REFERENCE_COUNT,
    RETIRED_REPLACEMENT_COUNT,
};
use crate::error::{failure, LegacyUploadEvidenceError};
use crate::gather;
use crate::gather::{gather_asset, AssetObservation, GatheredAsset};
use crate::layout::DirectoryMetadata;
use crate::manifest::{AssetRecord, Manifest};
use crate::order;
use crate::order::stable_sort;
use crate::path;
use crate::path::{safe_absolute_path, same_path};
use crate::phase::State;
use crate::plan::QUARANTINE_ROOT_MODE;
use crate::quarantine::{EvidenceQuarantineMember, QuarantineRawInput, QuarantineRoot};
use crate::sealed::{HeldGenerationSource, PERMISSION_BITS};
use crate::text::same_text;

verus! {

/// What was found at a directory that is offered as a quarantine root.
#[derive(Debug, PartialEq, Eq)]
pub struct OfferedRoot {
    /// Its canonical path, if it has one.
    pub canonical: Option<String>,
    /// What the system says of it, where it could be opened as a directory.
    pub metadata: Option<DirectoryMetadata>,
}

/// A directory may be a quarantine root: it lies where its path says, and it is its owner's alone.
pub open spec fn root_acceptable(path: Seq<char>, offered: OfferedRoot, euid: u32) -> bool {
    &&& path::safe_place(path)
    &&& offered.canonical matches Some(canonical)
    &&& path::same_place(canonical@, path)
    &&& offered.metadata matches Some(metadata)
    &&& metadata.is_dir
    &&& metadata.uid == euid
    &&& metadata.mode & PERMISSION_BITS == QUARANTINE_ROOT_MODE
    &&& metadata.dev != 0
    &&& metadata.ino != 0
}

/// Directories may be the quarantine roots of one cohort: there are some, each may be a root, no
/// two are at one place, and no two are on one device.
pub open spec fn roots_acceptable(
    paths: Seq<String>,
    offered: Seq<OfferedRoot>,
    euid: u32,
) -> bool {
    &&& paths.len() > 0
    &&& offered.len() >= paths.len()
    &&& forall|i: int|
        0 <= i < paths.len() ==> root_acceptable(#[trigger] paths[i]@, offered[i], euid)
    &&& forall|i: int, j: int|
        0 <= i < j < paths.len() ==> roots_apart(paths, offered, i, j)
}

/// Two directories are at two places and on two devices.
pub open spec fn roots_apart(
    paths: Seq<String>,
    offered: Seq<OfferedRoot>,
    i: int,
    j: int,
) -> bool {
    !path::same_place(paths[i]@, paths[j]@) && offered[i].metadata->0.dev
        != offered[j].metadata->0.dev
}

/// A directory as a quarantine root.
pub open spec fn offered_root(path: String, offered: OfferedRoot) -> QuarantineRoot {
    QuarantineRoot {
        canonical_path: path,
        device: offered.metadata->0.dev,
        inode: offered.metadata->0.ino,
        owner: offered.metadata->0.uid,
        mode: offered.metadata->0.mode & PERMISSION_BITS,
    }
}

/// The first directories as quarantine roots, in the order in which they were offered.
pub open spec fn offered_roots(paths: Seq<String>, offered: Seq<OfferedRoot>, n: nat) -> Seq<
    QuarantineRoot,
> {
    Seq::new(n, |i: int| offered_root(paths[i], offered[i]))
}

fn acceptable_root(path: &String, offered: &OfferedRoot, euid: u32) -> (r: Option<QuarantineRoot>)
    ensures
        match r {
            Some(root) => root_acceptable(path@, *offered, euid) && root == offered_root(
                *path,
                *offered,
            ),
            None => !root_acceptable(path@, *offered, euid),
        },
{
    if !safe_absolute_path(path) {
        return None;
    }
    match (&offered.canonical, &offered.metadata) {
        (Some(canonical), Some(metadata)) => {
            if same_path(canonical, path) && metadata.is_dir && metadata.uid == euid
                && metadata.mode & PERMISSION_BITS == QUARANTINE_ROOT_MODE && metadata.dev != 0
                && metadata.ino != 0 {
                Some(
                    QuarantineRoot {
                        canonical_path: path.clone(),
                        device: metadata.dev,
                        inode: metadata.ino,
                        owner: metadata.uid,
                        mode: metadata.mode & PERMISSION_BITS,
                    },
                )
            } else {
                None
            }
        },
        _ => None,
    }
}

/// Whether a root is at another place and on another device than all those before it.
fn is_apart(roots: &Vec<QuarantineRoot>, root: &QuarantineRoot) -> (r: bool)
    ensures
        r == forall|i: int|
            0 <= i < roots@.len() ==> !path::same_place(
                (#[trigger] roots@[i]).canonical_path@,
                root.canonical_path@,
            ) && roots@[i].device != root.device,
{
    let mut i: usize = 0;
    while i < roots.len()
        invariant
            i <= roots@.len(),
            forall|j: int|
                0 <= j < i ==> !path::same_place(
                    (#[trigger] roots@[j]).canonical_path@,
                    root.canonical_path@,
                ) && roots@[j].device != root.device,
        decreases roots@.len() - i,
    {
        if same_path(&roots[i].canonical_path, &root.canonical_path) || roots[i].device
            == root.device {
            return false;
        }
        i += 1;
    }
    true
}

/// Accepts the directories that are offered as quarantine roots, and puts them in the order of
/// their devices.
pub fn validate_generation_quarantine_roots(
    paths: &Vec<String>,
    offered: &Vec<OfferedRoot>,
    euid: u32,
) -> (r: Result<Vec<QuarantineRoot>, LegacyUploadEvidenceError>)
    ensures
        match r {
            Ok(roots) => roots_acceptable(paths@, offered@, euid) && roots@ == order::sorted(
                offered_roots(paths@, offered@, paths@.len()),
            ),
            Err(error) => !roots_acceptable(paths@, offered@, euid) && error@
                == "quarantine_roots"@,
        },
{
    if paths.len() == 0 || offered.len() < paths.len() {
        return Err(failure("quarantine_roots"));
    }
    let mut roots: Vec<QuarantineRoot> = Vec::new();
    let mut i: usize = 0;
    while i < paths.len()
        invariant
            i <= paths@.len() <= offered@.len(),
            roots@ == offered_roots(paths@, offered@, i as nat),
            forall|j: int|
                0 <= j < i ==> root_acceptable(#[trigger] paths@[j]@, offered@[j], euid),
            forall|j: int, k: int| 0 <= j < k < i ==> roots_apart(paths@, offered@, j, k),
        decreases paths@.len() - i,
    {
        match acceptable_root(&paths[i], &offered[i], euid) {
            None => {
                assert(!root_acceptable(paths@[i as int]@, offered@[i as int], euid));
                return Err(failure("quarantine_roots"));
            },
            Some(root) => {
                if !is_apart(&roots, &root) {
                    proof {
                        let j = choose|j: int|
                            0 <= j < roots@.len() && !(!path::same_place(
                                (#[trigger] roots@[j]).canonical_path@,
                                root.canonical_path@,
                            ) && roots@[j].device != root.device);
                        assert(!roots_apart(paths@, offered@, j, i as int));
                    }
                    return Err(failure("quarantine_roots"));
                }
                assert forall|j: int| 0 <= j < i implies roots_apart(
                    paths@,
                    offered@,
                    j,
                    i as int,
                ) by {
                    assert(!path::same_place(roots@[j].canonical_path@, root.canonical_path@));
                }
                roots.push(root);
            },
        }
        i += 1;
        assert(roots@ =~= offered_roots(paths@, offered@, i as nat));
    }
    Ok(stable_sort(roots))
}

/// The records of which the upload was verified, in their order.
pub open spec fn verified_records(records: Seq<AssetRecord>) -> Seq<AssetRecord>
    decreases records.len(),
{
    if records.len() == 0 {
        Seq::empty()
    } else if records.last().state == State::UploadVerified {
        verified_records(records.drop_last()).push(records.last())
    } else {
        verified_records(records.drop_last())
    }
}

/// Records may be a cohort: as many as a cohort has, and none of them is being migrated or deleted
/// already.
pub open spec fn cohort_eligible(records: Seq<AssetRecord>) -> bool {
    &&& records.len() == ASSET_COUNT
    &&& forall|i: int|
        0 <= i < records.len() ==> (#[trigger] records[i]).journal is Absent
            && !records[i].uploaded_heic_delete
}

/// The records of a cohort, by their places in the manifest.
pub fn select_cohort(manifest: &Manifest) -> (r: Result<Vec<usize>, LegacyUploadEvidenceError>)
    ensures
        match r {
            Ok(places) => {
                &&& cohort_eligible(verified_records(manifest.records@))
                &&& places@.len() == verified_records(manifest.records@).len()
                &&& forall|i: int|
                    0 <= i < places@.len() ==> {
                        &&& (#[trigger] places@[i]) < manifest.records@.len()
                        &&& manifest.records@[places@[i] as int] == verified_records(
                            manifest.records@,
                        )[i]
                    }
            },
            Err(error) => !cohort_eligible(verified_records(manifest.records@)) && error@
                == "asset_count"@,
        },
{
    let ghost all = manifest.records@;
    let mut places: Vec<usize> = Vec::new();
    let mut engaged: bool = false;
    let mut i: usize = 0;
    assert(all.take(0) =~= Seq::empty());
    while i < manifest.records.len()
        invariant
            i <= all.len(),
            all == manifest.records@,
            places@.len() == verified_records(all.take(i as int)).len(),
            forall|j: int|
                0 <= j < places@.len() ==> {
                    &&& (#[trigger] places@[j]) < i
                    &&& all[places@[j] as int] == verified_records(all.take(i as int))[j]
                },
            engaged == exists|j: int|
                0 <= j < places@.len() && {
                    let record = #[trigger] verified_records(all.take(i as int))[j];
                    !(record.journal is Absent) || record.uploaded_heic_delete
                },
        decreases all.len() - i,
    {
        let ghost before = verified_records(all.take(i as int));
        let ghost after = verified_records(all.take(i + 1));
        assert(all.take(i + 1).drop_last() =~= all.take(i as int));
        assert(all.take(i + 1).last() == all[i as int]);
        if manifest.records[i].state == State::UploadVerified {
            assert(after == before.push(all[i as int]));
            let ghost had = engaged;
            if manifest.records[i].has_journal() || manifest.records[i].uploaded_heic_delete {
                engaged = true;
                assert(after[before.len() as int] == all[i as int]);
            } else {
                proof {
                    if had {
                        let j = choose|j: int|
                            0 <= j < before.len() && {
                                let record = #[trigger] before[j];
                                !(record.journal is Absent) || record.uploaded_heic_delete
                            };
                        assert(after[j] == before[j]);
                    }
                }
            }
            places.push(i);
            assert forall|j: int| 0 <= j < places@.len() implies {
                &&& (#[trigger] places@[j]) < i + 1
                &&& all[places@[j] as int] == after[j]
            } by {
                if j < before.len() {
                    assert(after[j] == before[j]);
                }
            }
            assert(engaged == exists|j: int|
                0 <= j < places@.len() && {
                    let record = #[trigger] after[j];
                    !(record.journal is Absent) || record.uploaded_heic_delete
                }) by {
                if !engaged {
                    assert forall|j: int| 0 <= j < after.len() implies {
                        let record = #[trigger] after[j];
                        record.journal is Absent && !record.uploaded_heic_delete
                    } by {
                        if j < before.len() {
                            assert(after[j] == before[j]);
                        }
                    }
                }
            }
        } else {
            assert(after == before);
        }
        i += 1;
    }
    assert(all.take(all.len() as int) =~= all);
    if places.len() != ASSET_COUNT || engaged {
        return Err(failure("asset_count"));
    }
    Ok(places)
}

/// The first category under which the evidence of a cohort cannot be gathered, from the given
/// record on.
pub open spec fn gathering_refusal(
    records: Seq<AssetRecord>,
    observed: Seq<AssetObservation>,
    from: int,
) -> Option<Seq<char>>
    decreases records.len() - from,
{
    if from < 0 || from >= records.len() {
        None
    } else if from >= observed.len() {
        Some("source_open"@)
    } else {
        let refusal = gather::gather_refusal(records[from], from, observed[from]);
        if refusal is Some {
            refusal
        } else {
            gathering_refusal(records, observed, from + 1)
        }
    }
}

/// The evidence of a cohort is the evidence of its assets, one by one.
pub open spec fn gathers_cohort(
    gathered: Seq<GatheredAsset>,
    records: Seq<AssetRecord>,
    observed: Seq<AssetObservation>,
) -> bool {
    &&& gathered.len() == records.len()
    &&& forall|i: int|
        0 <= i < gathered.len() ==> gather::gathers(
            #[trigger] gathered[i],
            records[i],
            i,
            observed[i],
        )
}

/// Gathers the evidence of the records at some places of the manifest.
pub fn gather_cohort(
    manifest: &Manifest,
    places: &Vec<usize>,
    observed: &Vec<AssetObservation>,
) -> (r: Result<Vec<GatheredAsset>, LegacyUploadEvidenceError>)
    requires
        forall|i: int| 0 <= i < places@.len() ==> (#[trigger] places@[i]) < manifest.records@.len(),
    ensures
        match r {
            Ok(gathered) => gathering_refusal(
                records_at(*manifest, places@),
                observed@,
                0,
            ) is None && gathers_cohort(
                gathered@,
                records_at(*manifest, places@),
                observed@,
            ),
            Err(error) => gathering_refusal(records_at(*manifest, places@), observed@, 0) == Some(
                error@,
            ),
        },
{
    let ghost records = records_at(*manifest, places@);
    let mut gathered: Vec<GatheredAsset> = Vec::new();
    let mut i: usize = 0;
    while i < places.len()
        invariant
            i <= places@.len(),
            records == records_at(*manifest, places@),
            gathered@.len() == i,
            forall|j: int|
                0 <= j < places@.len() ==> (#[trigger] places@[j]) < manifest.records@.len(),
            forall|j: int|
                0 <= j < i ==> gather::gathers(
                    #[trigger] gathered@[j],
                    records[j],
                    j,
                    observed@[j],
                ),
            gathering_refusal(records, observed@, 0) == gathering_refusal(
                records,
                observed@,
                i as int,
            ),
        decreases places@.len() - i,
    {
        if i >= observed.len() {
            return Err(failure("source_open"));
        }
        assert(records[i as int] == manifest.records@[places@[i as int] as int]);
        match gather_asset(&manifest.records[places[i]], i, &observed[i]) {
            Err(error) => {
                return Err(error);
            },
            Ok(asset) => {
                gathered.push(asset);
            },
        }
        i += 1;
    }
    Ok(gathered)
}

/// The records at some places of the manifest.
pub open spec fn records_at(manifest: Manifest, places: Seq<usize>) -> Seq<AssetRecord> {
    Seq::new(places.len(), |i: int| manifest.records@[places[i] as int])
}

/// The assets of gathered evidence.
pub open spec fn gathered_assets(gathered: Seq<GatheredAsset>) -> Seq<EvidenceAsset> {
    Seq::new(gathered.len(), |i: int| gathered[i].asset)
}

/// The raw inputs of gathered evidence.
pub open spec fn gathered_raws(gathered: Seq<GatheredAsset>) -> Seq<QuarantineRawInput> {
    Seq::new(gathered.len(), |i: int| gathered[i].raw_input)
}

/// The retired replacements of gathered evidence, in the order of their assets.
pub open spec fn gathered_replacements(gathered: Seq<GatheredAsset>) -> Seq<
    EvidenceRetiredReplacement,
>
    decreases gathered.len(),
{
    if gathered.len() == 0 {
        Seq::empty()
    } else {
        let front = gathered_replacements(gathered.drop_last());
        match gathered.last().replacement {
            Some(replacement) => front.push(replacement),
            None => front,
        }
    }
}

/// The references of gathered evidence, in the order of their assets.
pub open spec fn gathered_references(gathered: Seq<GatheredAsset>) -> Seq<
    EvidenceReferenceNormalization,
>
    decreases gathered.len(),
{
    if gathered.len() == 0 {
        Seq::empty()
    } else {
        let front = gathered_references(gathered.drop_last());
        match gathered.last().reference {
            Some(reference) => front.push(reference),
            None => front,
        }
    }
}

/// The quarantine members of gathered evidence, in the order of their assets.
pub open spec fn gathered_members(gathered: Seq<GatheredAsset>) -> Seq<EvidenceQuarantineMember>
    decreases gathered.len(),
{
    if gathered.len() == 0 {
        Seq::empty()
    } else {
        gathered_members(gathered.drop_last()) + gathered.last().members@
    }
}

/// Replacements with the digests of their destinations filled in.
pub open spec fn replacements_sealed(
    sealed: Seq<EvidenceRetiredReplacement>,
    drafts: Seq<EvidenceRetiredReplacement>,
    destination_json: Seq<Vec<u8>>,
) -> bool {
    &&& sealed.len() == drafts.len()
    &&& forall|i: int|
        0 <= i < sealed.len() ==> {
            &&& #[trigger] sealed[i] == (EvidenceRetiredReplacement {
                destination_sha256: sealed[i].destination_sha256,
                ..drafts[i]
            })
            &&& sealed[i].destination_sha256@ == digest::sha256_hex(destination_json[i]@)
        }
}

/// References with their own digests filled in.
pub open spec fn references_sealed(
    sealed: Seq<EvidenceReferenceNormalization>,
    drafts: Seq<EvidenceReferenceNormalization>,
    reference_json: Seq<Vec<u8>>,
) -> bool {
    &&& sealed.len() == drafts.len()
    &&& forall|i: int|
        0 <= i < sealed.len() ==> {
            &&& #[trigger] sealed[i] == (EvidenceReferenceNormalization {
                reference_identity_sha256: sealed[i].reference_identity_sha256,
                ..drafts[i]
            })
            &&& sealed[i].reference_identity_sha256@ == digest::sha256_hex(reference_json[i]@)
        }
}

fn seal_replacements(gathered: &Vec<GatheredAsset>, destination_json: &Vec<Vec<u8>>) -> (r: Option<
    Vec<EvidenceRetiredReplacement>,
>)
    ensures
        match r {
            Some(sealed) => {
                &&& gathered_replacements(gathered@).len() <= destination_json@.len()
                &&& replacements_sealed(
                    sealed@,
                    gathered_replacements(gathered@),
                    destination_json@,
                )
            },
            None => gathered_replacements(gathered@).len() > destination_json@.len(),
        },
{
    let ghost all = gathered@;
    let mut sealed: Vec<EvidenceRetiredReplacement> = Vec::new();
    let mut i: usize = 0;
    assert(all.take(0) =~= Seq::empty());
    while i < gathered.len()
        invariant
            i <= all.len(),
            all == gathered@,
            sealed@.len() <= destination_json@.len(),
            replacements_sealed(
                sealed@,
                gathered_replacements(all.take(i as int)),
                destination_json@,
            ),
        decreases all.len() - i,
    {
        let ghost before = gathered_replacements(all.take(i as int));
        let ghost was = sealed@;
        assert(all.take(i + 1).drop_last() =~= all.take(i as int));
        assert(all.take(i + 1).last() == all[i as int]);
        match &gathered[i].replacement {
            None => {},
            Some(draft) => {
                if sealed.len() >= destination_json.len() {
                    proof {
                        replacements_grow(all, i + 1);
                    }
                    return None;
                }
                let mut replacement = draft.clone();
                replacement.destination_sha256 = sha256_bytes(&destination_json[sealed.len()]);
                sealed.push(replacement);
                assert(replacements_sealed(
                    sealed@,
                    gathered_replacements(all.take(i + 1)),
                    destination_json@,
                )) by {
                    let after = gathered_replacements(all.take(i + 1));
                    assert(after == before.push(*draft));
                    assert forall|j: int| 0 <= j < sealed@.len() implies {
                        &&& #[trigger] sealed@[j] == (EvidenceRetiredReplacement {
                            destination_sha256: sealed@[j].destination_sha256,
                            ..after[j]
                        })
                        &&& sealed@[j].destination_sha256@ == digest::sha256_hex(
                            destination_json@[j]@,
                        )
                    } by {
                        if j < was.len() {
                            assert(sealed@[j] == was[j]);
                            assert(after[j] == before[j]);
                        }
                    }
                }
            },
        }
        i += 1;
    }
    assert(all.take(all.len() as int) =~= all);
    Some(sealed)
}

proof fn replacements_grow(all: Seq<GatheredAsset>, n: int)
    requires
        0 <= n <= all.len(),
    ensures
        gathered_replacements(all.take(n)).len() <= gathered_replacements(all).len(),
    decreases all.len() - n,
{
    if n == all.len() {
        assert(all.take(n) =~= all);
    } else {
        assert(all.take(n + 1).drop_last() =~= all.take(n));
        replacements_grow(all, n + 1);
    }
}

fn seal_references(gathered: &Vec<GatheredAsset>, reference_json: &Vec<Vec<u8>>) -> (r: Option<
    Vec<EvidenceReferenceNormalization>,
>)
    ensures
        match r {
            Some(sealed) => {
                &&& gathered_references(gathered@).len() <= reference_json@.len()
                &&& references_sealed(sealed@, gathered_references(gathered@), reference_json@)
            },
            None => gathered_references(gathered@).len() > reference_json@.len(),
        },
{
    let ghost all = gathered@;
    let mut sealed: Vec<EvidenceReferenceNormalization> = Vec::new();
    let mut i: usize = 0;
    assert(all.take(0) =~= Seq::empty());
    while i < gathered.len()
        invariant
            i <= all.len(),
            all == gathered@,
            sealed@.len() <= reference_json@.len(),
            references_sealed(sealed@, gathered_references(all.take(i as int)), reference_json@),
        decreases all.len() - i,
    {
        let ghost before = gathered_references(all.take(i as int));
        let ghost was = sealed@;
        assert(all.take(i + 1).drop_last() =~= all.take(i as int));
        assert(all.take(i + 1).last() == all[i as int]);
        match &gathered[i].reference {
            None => {},
            Some(draft) => {
                if sealed.len() >= reference_json.len() {
                    proof {
                        references_grow(all, i + 1);
                    }
                    return None;
                }
                let mut reference = draft.clone();
                reference.reference_identity_sha256 = sha256_bytes(&reference_json[sealed.len()]);
                sealed.push(reference);
                assert(references_sealed(
                    sealed@,
                    gathered_references(all.take(i + 1)),
                    reference_json@,
                )) by {
                    let after = gathered_references(all.take(i + 1));
                    assert(after == before.push(*draft));
                    assert forall|j: int| 0 <= j < sealed@.len() implies {
                        &&& #[trigger] sealed@[j] == (EvidenceReferenceNormalization {
                            reference_identity_sha256: sealed@[j].reference_identity_sha256,
                            ..after[j]
                        })
                        &&& sealed@[j].reference_identity_sha256@ == digest::sha256_hex(
                            reference_json@[j]@,
                        )
                    } by {
                        if j < was.len() {
                            assert(sealed@[j] == was[j]);
                            assert(after[j] == before[j]);
                        }
                    }
                }
            },
        }
        i += 1;
    }
    assert(all.take(all.len() as int) =~= all);
    Some(sealed)
}

proof fn references_grow(all: Seq<GatheredAsset>, n: int)
    requires
        0 <= n <= all.len(),
    ensures
        gathered_references(all.take(n)).len() <= gathered_references(all).len(),
    decreases all.len() - n,
{
    if n == all.len() {
        assert(all.take(n) =~= all);
    } else {
        assert(all.take(n + 1).drop_last() =~= all.take(n));
        references_grow(all, n + 1);
    }
}

/// A root is on that device.
pub open spec fn has_root_on(roots: Seq<QuarantineRoot>, device: u64) -> bool {
    exists|i: int| 0 <= i < roots.len() && (#[trigger] roots[i]).device == device
}

/// A member lies on that device.
pub open spec fn has_member_on(members: Seq<EvidenceQuarantineMember>, device: u64) -> bool {
    exists|i: int| 0 <= i < members.len() && (#[trigger] members[i]).source.device == device
}

/// Every member has a root on the device where it lies and goes there, and no root is idle.
pub open spec fn mapping_exact(
    members: Seq<EvidenceQuarantineMember>,
    roots: Seq<QuarantineRoot>,
) -> bool {
    &&& forall|i: int|
        0 <= i < members.len() ==> has_root_on(roots, (#[trigger] members[i]).source.device)
            && members[i].root_device == members[i].source.device
    &&& forall|i: int| 0 <= i < roots.len() ==> has_member_on(members, (#[trigger] roots[i]).device)
}

fn is_root_on(roots: &Vec<QuarantineRoot>, device: u64) -> (r: bool)
    ensures
        r == has_root_on(roots@, device),
{
    let mut i: usize = 0;
    while i < roots.len()
        invariant
            i <= roots@.len(),
            forall|j: int| 0 <= j < i ==> (#[trigger] roots@[j]).device != device,
        decreases roots@.len() - i,
    {
        if roots[i].device == device {
            return true;
        }
        i += 1;
    }
    false
}

fn is_member_on(members: &Vec<EvidenceQuarantineMember>, device: u64) -> (r: bool)
    ensures
        r == has_member_on(members@, device),
{
    let mut i: usize = 0;
    while i < members.len()
        invariant
            i <= members@.len(),
            forall|j: int| 0 <= j < i ==> (#[trigger] members@[j]).source.device != device,
        decreases members@.len() - i,
    {
        if members[i].source.device == device {
            return true;
        }
        i += 1;
    }
    false
}

fn is_mapping_exact(
    members: &Vec<EvidenceQuarantineMember>,
    roots: &Vec<QuarantineRoot>,
) -> (r: bool)
    ensures
        r == mapping_exact(members@, roots@),
{
    let mut i: usize = 0;
    while i < members.len()
        invariant
            i <= members@.len(),
            forall|j: int|
                0 <= j < i ==> has_root_on(roots@, (#[trigger] members@[j]).source.device)
                    && members@[j].root_device == members@[j].source.device,
        decreases members@.len() - i,
    {
        if !is_root_on(roots, members[i].source.device) || members[i].root_device
            != members[i].source.device {
            return false;
        }
        i += 1;
    }
    let mut i: usize = 0;
    while i < roots.len()
        invariant
            i <= roots@.len(),
            forall|j: int|
                0 <= j < i ==> has_member_on(members@, (#[trigger] roots@[j]).device),
        decreases roots@.len() - i,
    {
        if !is_member_on(members, roots[i].device) {
            return false;
        }
        i += 1;
    }
    true
}

/// Two replacements that CloudKit tells apart, once the digests of their destinations are known.
pub open spec fn drafts_unambiguous(
    drafts: Seq<EvidenceRetiredReplacement>,
    destination_json: Seq<Vec<u8>>,
) -> bool {
    &&& drafts.len() == RETIRED_REPLACEMENT_COUNT
    &&& drafts[0].uploaded_asset_id@ != drafts[1].uploaded_asset_id@
    &&& drafts[0].uploaded_master_id@ != drafts[1].uploaded_master_id@
    &&& drafts[0].old_record_change_tag@ != drafts[1].old_record_change_tag@
    &&& digest::sha256_hex(destination_json[0]@) != digest::sha256_hex(destination_json[1]@)
    &&& drafts[0].original_asset_record_name@ != drafts[1].original_asset_record_name@
    &&& drafts[0].owner_record_name_sha256@ == drafts[1].owner_record_name_sha256@
    &&& drafts[0].initial_state_lookup_mode is FullFields
    &&& drafts[1].initial_state_lookup_mode is FullFields
}

/// Two files are two, and hold two things.
pub open spec fn files_differ(a: HeldGenerationSource, b: HeldGenerationSource) -> bool {
    (a.metadata.dev, a.metadata.ino) != (b.metadata.dev, b.metadata.ino) && a.sha256@ != b.sha256@
}

/// A reference is none of the files of an asset, nor of an earlier asset's reference.
pub open spec fn reference_apart(
    gathered: Seq<GatheredAsset>,
    referenced: int,
    other: int,
) -> bool {
    gathered[referenced].held.reference matches Some(reference) ==> {
        &&& files_differ(reference, gathered[other].held.raw)
        &&& files_differ(reference, gathered[other].held.final_heic)
        &&& files_differ(reference, gathered[other].held.mirror)
        &&& other < referenced ==> (gathered[other].held.reference matches Some(earlier)
            ==> files_differ(reference, earlier))
    }
}

/// Every reference is a file of its own and holds what no other file of the cohort holds.
pub open spec fn references_apart(gathered: Seq<GatheredAsset>) -> bool {
    forall|i: int, j: int|
        0 <= i < gathered.len() && 0 <= j < gathered.len() ==> reference_apart(gathered, i, j)
}

fn do_files_differ(a: &HeldGenerationSource, b: &HeldGenerationSource) -> (r: bool)
    ensures
        r == files_differ(*a, *b),
{
    !(a.metadata.dev == b.metadata.dev && a.metadata.ino == b.metadata.ino) && !same_text(
        &a.sha256,
        &b.sha256,
    )
}

fn is_reference_apart(gathered: &Vec<GatheredAsset>, referenced: usize, other: usize) -> (r: bool)
    requires
        referenced < gathered@.len(),
        other < gathered@.len(),
    ensures
        r == reference_apart(gathered@, referenced as int, other as int),
{
    let files = &gathered[other].held;
    match &gathered[referenced].held.reference {
        None => true,
        Some(reference) => {
            if !do_files_differ(reference, &files.raw) || !do_files_differ(
                reference,
                &files.final_heic,
            ) || !do_files_differ(reference, &files.mirror) {
                return false;
            }
            match &files.reference {
                Some(earlier) => other >= referenced || do_files_differ(reference, earlier),
                None => true,
            }
        },
    }
}

fn are_references_apart(gathered: &Vec<GatheredAsset>) -> (r: bool)
    ensures
        r == references_apart(gathered@),
{
    let mut i: usize = 0;
    while i < gathered.len()
        invariant
            i <= gathered@.len(),
            forall|k: int, j: int|
                0 <= k < i && 0 <= j < gathered@.len() ==> reference_apart(gathered@, k, j),
        decreases gathered@.len() - i,
    {
        let mut j: usize = 0;
        while j < gathered.len()
            invariant
                i < gathered@.len(),
                j <= gathered@.len(),
                forall|k: int| 0 <= k < j ==> reference_apart(gathered@, i as int, k),
            decreases gathered@.len() - j,
        {
            if !is_reference_apart(gathered, i, j) {
                assert(!reference_apart(gathered@, i as int, j as int));
                return false;
            }
            j += 1;
        }
        i += 1;
    }
    true
}

/// The category under which gathered evidence makes no document, or nothing.
pub open spec fn draft_refusal(
    gathered: Seq<GatheredAsset>,
    roots: Seq<QuarantineRoot>,
    destination_json: Seq<Vec<u8>>,
    reference_json: Seq<Vec<u8>>,
) -> Option<Seq<char>> {
    let replacements = gathered_replacements(gathered);
    let references = gathered_references(gathered);
    let members = order::sorted(gathered_members(gathered));
    if replacements.len() > destination_json.len() {
        Some("proof_lineage"@)
    } else if references.len() > reference_json.len() {
        Some("reference_witness"@)
    } else if replacements.len() != RETIRED_REPLACEMENT_COUNT || references.len()
        != REFERENCE_COUNT || gathered_members(gathered).len() != QUARANTINE_MEMBER_COUNT {
        Some("candidate_count"@)
    } else if !mapping_exact(members, roots) {
        Some("quarantine_mapping"@)
    } else if !drafts_unambiguous(replacements, destination_json) {
        Some("cloudkit_ambiguity"@)
    } else if !references_apart(gathered) {
        Some("reference_distinct"@)
    } else {
        None
    }
}

/// A document is made of gathered evidence.
pub open spec fn drafts(
    document: EvidenceDocument,
    gathered: Seq<GatheredAsset>,
    roots: Seq<QuarantineRoot>,
    destination_json: Seq<Vec<u8>>,
    reference_json: Seq<Vec<u8>>,
) -> bool {
    &&& document.schema_version == EVIDENCE_SCHEMA_VERSION
    &&& document.asset_count == ASSET_COUNT
    &&& document.retired_replacement_count == RETIRED_REPLACEMENT_COUNT
    &&& document.reference_count == REFERENCE_COUNT
    &&& document.assets@ == gathered_assets(gathered)
    &&& replacements_sealed(
        document.retired_replacements@,
        gathered_replacements(gathered),
        destination_json,
    )
    &&& references_sealed(
        document.reference_normalizations@,
        gathered_references(gathered),
        reference_json,
    )
    &&& document.quarantine_roots@ == roots
    &&& document.quarantine_members@ == order::sorted(gathered_members(gathered))
    &&& document.raw_inputs@ == gathered_raws(gathered)
}

fn members_of(gathered: &Vec<GatheredAsset>) -> (r: Vec<EvidenceQuarantineMember>)
    ensures
        r@ == gathered_members(gathered@),
{
    let ghost all = gathered@;
    let mut members: Vec<EvidenceQuarantineMember> = Vec::new();
    let mut i: usize = 0;
    assert(all.take(0) =~= Seq::empty());
    while i < gathered.len()
        invariant
            i <= all.len(),
            all == gathered@,
            members@ == gathered_members(all.take(i as int)),
        decreases all.len() - i,
    {
        let ghost was = members@;
        let more = &gathered[i].members;
        let mut j: usize = 0;
        while j < more.len()
            invariant
                j <= more@.len(),
                members@ == was + more@.take(j as int),
            decreases more@.len() - j,
        {
            members.push(more[j].clone());
            j += 1;
            assert(members@ =~= was + more@.take(j as int));
        }
        assert(more@.take(more@.len() as int) =~= more@);
        assert(all.take(i + 1).drop_last() =~= all.take(i as int));
        assert(all.take(i + 1).last() == all[i as int]);
        i += 1;
    }
    assert(all.take(all.len() as int) =~= all);
    members
}

/// Makes a document of gathered evidence. The name of the migration and the digest of the cohort
/// are still to be filled in.
pub fn draft_document(
    gathered: &Vec<GatheredAsset>,
    roots: &Vec<QuarantineRoot>,
    destination_json: &Vec<Vec<u8>>,
    reference_json: &Vec<Vec<u8>>,
) -> (r: Result<EvidenceDocument, LegacyUploadEvidenceError>)
    ensures
        match r {
            Ok(document) => {
                &&& draft_refusal(
                    gathered@,
                    roots@,
                    destination_json@,
                    reference_json@,
                ) is None
                &&& drafts(document, gathered@, roots@, destination_json@, reference_json@)
            },
            Err(error) => draft_refusal(
                gathered@,
                roots@,
                destination_json@,
                reference_json@,
            ) == Some(error@),
        },
{
    let retired_replacements = match seal_replacements(gathered, destination_json) {
        Some(sealed) => sealed,
        None => {
            return Err(failure("proof_lineage"));
        },
    };
    let reference_normalizations = match seal_references(gathered, reference_json) {
        Some(sealed) => sealed,
        None => {
            return Err(failure("reference_witness"));
        },
    };
    let members = members_of(gathered);
    if retired_replacements.len() != RETIRED_REPLACEMENT_COUNT || reference_normalizations.len()
        != REFERENCE_COUNT || members.len() != QUARANTINE_MEMBER_COUNT {
        return Err(failure("candidate_count"));
    }
    let quarantine_members = stable_sort(members);
    if !is_mapping_exact(&quarantine_members, roots) {
        return Err(failure("quarantine_mapping"));
    }
    assert(retired_replacements@[0].destination_sha256@ == digest::sha256_hex(
        destination_json@[0]@,
    ));
    assert(retired_replacements@[1].destination_sha256@ == digest::sha256_hex(
        destination_json@[1]@,
    ));
    match validate_retired_replacement_pair(&retired_replacements) {
        Err(error) => {
            return Err(error);
        },
        Ok(()) => {},
    }
    if !are_references_apart(gathered) {
        return Err(failure("reference_distinct"));
    }
    let mut assets: Vec<EvidenceAsset> = Vec::new();
    let mut raw_inputs: Vec<QuarantineRawInput> = Vec::new();
    let mut i: usize = 0;
    while i < gathered.len()
        invariant
            i <= gathered@.len(),
            assets@ == gathered_assets(gathered@.take(i as int)),
            raw_inputs@ == gathered_raws(gathered@.take(i as int)),
        decreases gathered@.len() - i,
    {
        assets.push(gathered[i].asset.clone());
        raw_inputs.push(gathered[i].raw_input.clone());
        i += 1;
        assert(assets@ =~= gathered_assets(gathered@.take(i as int)));
        assert(raw_inputs@ =~= gathered_raws(gathered@.take(i as int)));
    }
    assert(gathered@.take(gathered@.len() as int) =~= gathered@);
    let quarantine_roots = roots.clone();
    assert(quarantine_roots@ =~= roots@);
    Ok(
        EvidenceDocument {
            schema_version: EVIDENCE_SCHEMA_VERSION,
            migration_id: "".to_owned(),
            asset_count: ASSET_COUNT as u64,
            retired_replacement_count: RETIRED_REPLACEMENT_COUNT as u64,
            reference_count: REFERENCE_COUNT as u64,
            cohort_sha256: "".to_owned(),
            assets,
            retired_replacements,
            reference_normalizations,
            quarantine_roots,
            quarantine_members,
            raw_inputs,
        },
    )
}

/// The JSON list that names a generated migration: the schema, the generator, and the digests of
/// the assets and of the retired replacements.
pub open spec fn migration_text(manifest_target: Seq<char>, cloudkit_target: Seq<char>) -> Seq<
    char,
> {
    MIGRATION_TEXT_HEAD@ + manifest_target + "\",\""@ + cloudkit_target + "\"]"@
}

/// How the list that names a generated migration begins.
pub const MIGRATION_TEXT_HEAD: &'static str =
    "[5,\"legacy-uploaded-heic-evidence-generator-v1\",\"";

/// The name of a generated migration.
pub fn generated_migration_id(manifest_target: &str, cloudkit_target: &str) -> (r: String)
    ensures
        r@ == digest::sha256_hex(
            encode_utf8(migration_text(manifest_target@, cloudkit_target@)),
        ),
{
    let head: String = MIGRATION_TEXT_HEAD.to_owned();
    let text = head.concat(manifest_target).concat("\",\"").concat(cloudkit_target).concat("\"]");
    assert(text@ =~= migration_text(manifest_target@, cloudkit_target@));
    sha256_bytes(text.as_str().as_bytes())
}

/// The quarantine members of a generated document are the ones that were gathered, none lost and
/// none added, and each stands before all that follow it.
pub proof fn drafted_members_are_in_order(
    document: EvidenceDocument,
    gathered: Seq<GatheredAsset>,
    roots: Seq<QuarantineRoot>,
    destination_json: Seq<Vec<u8>>,
    reference_json: Seq<Vec<u8>>,
)
    requires
        drafts(document, gathered, roots, destination_json, reference_json),
    ensures
        order::ascending(document.quarantine_members@),
        document.quarantine_members@.to_multiset() == gathered_members(gathered).to_multiset(),
{
    crate::quarantine::members_are_orderly();
    order::sorted_is_an_ascending_rearrangement(gathered_members(gathered));
}

/// Each retired replacement was gathered from one of the assets.
pub proof fn retirements_come_from_assets(gathered: Seq<GatheredAsset>, k: int) -> (i: int)
    requires
        0 <= k < gathered_replacements(gathered).len(),
    ensures
        0 <= i < gathered.len(),
        gathered[i].replacement == Some(gathered_replacements(gathered)[k]),
    decreases gathered.len(),
{
    let front = gathered_replacements(gathered.drop_last());
    if k < front.len() {
        retirements_come_from_assets(gathered.drop_last(), k)
    } else {
        gathered.len() - 1
    }
}

/// What a generated document retires are uploads whose HEIC was replaced on disk since, and
/// CloudKit found each of them as it was uploaded.
pub proof fn drafted_retirements_were_replaced(
    document: EvidenceDocument,
    gathered: Seq<GatheredAsset>,
    roots: Seq<QuarantineRoot>,
    destination_json: Seq<Vec<u8>>,
    reference_json: Seq<Vec<u8>>,
    records: Seq<AssetRecord>,
    observed: Seq<AssetObservation>,
    k: int,
)
    requires
        gathers_cohort(gathered, records, observed),
        gathering_refusal(records, observed, 0) is None,
        drafts(document, gathered, roots, destination_json, reference_json),
        0 <= k < document.retired_replacements@.len(),
    ensures
        exists|i: int|
            0 <= i < records.len() && #[trigger] gather::replaced(records[i], observed[i])
                && observed[i].resolved is Ok && gather::resolution_bound(
                records[i],
                observed[i].resolved->Ok_0,
            ) && document.retired_replacements@[k].asset_id == records[i].asset_id,
{
    let i = retirements_come_from_assets(gathered, k);
    assert(gather::gathers(gathered[i], records[i], i, observed[i]));
    gathered_assets_were_accepted(records, observed, 0, i);
    assert(document.retired_replacements@[k] == (EvidenceRetiredReplacement {
        destination_sha256: document.retired_replacements@[k].destination_sha256,
        ..gathered_replacements(gathered)[k]
    }));
    assert(gather::replaced(records[i], observed[i]));
}

/// Every asset of a gathered cohort was accepted by itself.
pub proof fn gathered_assets_were_accepted(
    records: Seq<AssetRecord>,
    observed: Seq<AssetObservation>,
    from: int,
    at: int,
)
    requires
        0 <= from <= at < records.len(),
        gathering_refusal(records, observed, from) is None,
    ensures
        at < observed.len(),
        gather::gather_refusal(records[at], at, observed[at]) is None,
    decreases at - from,
{
    if from < at {
        gathered_assets_were_accepted(records, observed, from + 1, at);
    }
}

/// The candidates of a cohort are the records that are UploadVerified, in their order, and no
/// others.
pub proof fn candidates_are_the_verified_uploads(records: Seq<AssetRecord>)
    ensures
        verified_records(records) == records.filter(
            |record: AssetRecord| record.state is UploadVerified,
        ),
    decreases records.len(),
{
    reveal(Seq::filter);
    if records.len() > 0 {
        candidates_are_the_verified_uploads(records.drop_last());
    } else {
        assert(records =~= Seq::empty());
    }
}

/// A record in any other state changes nothing of who the candidates are, wherever it stands.
pub proof fn other_records_are_no_candidates(records: Seq<AssetRecord>, k: int, added: AssetRecord)
    requires
        0 <= k <= records.len(),
        !(added.state is UploadVerified),
    ensures
        verified_records(records.insert(k, added)) == verified_records(records),
    decreases records.len(),
{
    let all = records.insert(k, added);
    if k == records.len() {
        assert(all.drop_last() =~= records);
    } else {
        assert(all.drop_last() =~= records.drop_last().insert(k, added));
        assert(all.last() == records.last());
        other_records_are_no_candidates(records.drop_last(), k, added);
    }
}

/// A cohort is of exactly ten records, none of which has begun to migrate or had its upload
/// deleted.
pub proof fn cohorts_are_of_ten_untouched_records(records: Seq<AssetRecord>)
    ensures
        cohort_eligible(records) <==> records.len() == 10 && forall|i: int|
            0 <= i < records.len() ==> (#[trigger] records[i]).journal is Absent
                && !records[i].uploaded_heic_delete,
{
}

/// A directory is accepted as a quarantine root exactly if its path is safe and its own canonical
/// one, and it is a directory of the running user that nobody else may enter.
pub proof fn private_directories_are_roots(path: Seq<char>, offered: OfferedRoot, euid: u32)
    ensures
        root_acceptable(path, offered, euid) <==> {
            &&& path::safe_place(path)
            &&& offered.canonical matches Some(canonical)
            &&& path::same_place(canonical@, path)
            &&& offered.metadata matches Some(directory)
            &&& directory.is_dir
            &&& directory.uid == euid
            &&& directory.mode & 511 == 448
            &&& directory.dev > 0
            &&& directory.ino > 0
        },
{
}

/// Roots are accepted if there is at least one, each is acceptable, and no two have one path or lie
/// on one device, in whatever order they are named.
pub proof fn acceptable_roots_are_apart(
    paths: Seq<String>,
    offered: Seq<OfferedRoot>,
    euid: u32,
)
    requires
        offered.len() == paths.len(),
        paths.len() > 0,
        forall|i: int| 0 <= i < paths.len() ==> root_acceptable(#[trigger] paths[i]@, offered[i], euid),
    ensures
        roots_acceptable(paths, offered, euid) <==> forall|i: int, j: int|
            0 <= i < paths.len() && 0 <= j < paths.len() && i != j ==> !path::same_place(
                (#[trigger] paths[i])@,
                (#[trigger] paths[j])@,
            ) && offered[i].metadata->0.dev != offered[j].metadata->0.dev,
{
    if roots_acceptable(paths, offered, euid) {
        assert forall|i: int, j: int|
            0 <= i < paths.len() && 0 <= j < paths.len() && i != j implies !path::same_place(
            (#[trigger] paths[i])@,
            (#[trigger] paths[j])@,
        ) && offered[i].metadata->0.dev != offered[j].metadata->0.dev by {
            if i < j {
                assert(roots_apart(paths, offered, i, j));
            } else {
                assert(roots_apart(paths, offered, j, i));
            }
        }
    }
    if forall|i: int, j: int|
        0 <= i < paths.len() && 0 <= j < paths.len() && i != j ==> !path::same_place(
            (#[trigger] paths[i])@,
            (#[trigger] paths[j])@,
        ) && offered[i].metadata->0.dev != offered[j].metadata->0.dev {
        assert forall|i: int, j: int| 0 <= i < j < paths.len() implies roots_apart(
            paths,
            offered,
            i,
            j,
        ) by {
            assert(!path::same_place(paths[i]@, paths[j]@));
        }
    }
}

/// A root is sealed with the path that was named and with what was found there.
pub proof fn roots_are_sealed_as_found(path: String, offered: OfferedRoot)
    requires
        offered.metadata is Some,
    ensures
        offered_root(path, offered).canonical_path@ == path@,
        offered_root(path, offered).device == offered.metadata->0.dev,
        offered_root(path, offered).inode == offered.metadata->0.ino,
        offered_root(path, offered).owner == offered.metadata->0.uid,
        offered_root(path, offered).mode == offered.metadata->0.mode & 511,
{
}

proof fn gathering_from(records: Seq<AssetRecord>, observed: Seq<AssetObservation>, from: int)
    requires
        0 <= from <= records.len(),
    ensures
        gathering_refusal(records, observed, from) is None <==> forall|i: int|
            from <= i < records.len() ==> i < observed.len() && gather::gather_refusal(
                #[trigger] records[i],
                i,
                observed[i],
            ) is None,
    decreases records.len() - from,
{
    if from < records.len() && from < observed.len() {
        gathering_from(records, observed, from + 1);
    } else if from < records.len() {
        assert(!(from < observed.len()));
        assert(records[from] == records[from]);
    }
}

/// A cohort is gathered exactly if every record of it is, each with what was observed of it.
pub proof fn cohorts_are_gathered_asset_by_asset(
    records: Seq<AssetRecord>,
    observed: Seq<AssetObservation>,
)
    ensures
        gathering_refusal(records, observed, 0) is None <==> forall|i: int|
            0 <= i < records.len() ==> i < observed.len() && gather::gather_refusal(
                #[trigger] records[i],
                i,
                observed[i],
            ) is None,
{
    gathering_from(records, observed, 0);
}

/// Every asset that retires its upload, and no other, adds one retirement to the document; every
/// asset with a reference adds one reference; and all their members are there.
pub proof fn documents_list_what_was_gathered(gathered: Seq<GatheredAsset>)
    ensures
        gathered_replacements(gathered) == gathered.filter(
            |asset: GatheredAsset| asset.replacement is Some,
        ).map_values(|asset: GatheredAsset| asset.replacement->0),
        gathered_references(gathered) == gathered.filter(
            |asset: GatheredAsset| asset.reference is Some,
        ).map_values(|asset: GatheredAsset| asset.reference->0),
        gathered_members(gathered) == gathered.map_values(
            |asset: GatheredAsset| asset.members@,
        ).flatten(),
        gathered_assets(gathered) == gathered.map_values(|asset: GatheredAsset| asset.asset),
        gathered_raws(gathered) == gathered.map_values(|asset: GatheredAsset| asset.raw_input),
    decreases gathered.len(),
{
    reveal(Seq::filter);
    let retiring = |asset: GatheredAsset| asset.replacement is Some;
    let referenced = |asset: GatheredAsset| asset.reference is Some;
    let replacement = |asset: GatheredAsset| asset.replacement->0;
    let reference = |asset: GatheredAsset| asset.reference->0;
    let members = |asset: GatheredAsset| asset.members@;
    assert(gathered_assets(gathered) =~= gathered.map_values(|asset: GatheredAsset| asset.asset));
    assert(gathered_raws(gathered) =~= gathered.map_values(
        |asset: GatheredAsset| asset.raw_input,
    ));
    if gathered.len() == 0 {
        assert(gathered.filter(retiring).map_values(replacement) =~= Seq::empty());
        assert(gathered.filter(referenced).map_values(reference) =~= Seq::empty());
        assert(gathered.map_values(members) =~= Seq::empty());
        assert(gathered.map_values(members).flatten() =~= Seq::empty());
    } else {
        let front = gathered.drop_last();
        let last = gathered.last();
        documents_list_what_was_gathered(front);
        if last.replacement is Some {
            assert(gathered.filter(retiring) =~= front.filter(retiring).push(last));
            assert(gathered.filter(retiring).map_values(replacement) =~= front.filter(
                retiring,
            ).map_values(replacement).push(last.replacement->0));
        }
        if last.reference is Some {
            assert(gathered.filter(referenced) =~= front.filter(referenced).push(last));
            assert(gathered.filter(referenced).map_values(reference) =~= front.filter(
                referenced,
            ).map_values(reference).push(last.reference->0));
        }
        let lists = gathered.map_values(members);
        assert(lists =~= front.map_values(members).push(last.members@));
        front.map_values(members).lemma_flatten_push(last.members@);
    }
}

/// A cohort is drafted exactly if two of its assets retire their upload, five have a reference and
/// nine files go into quarantine; every such file lies on the device of a root, and every root has
/// one; CloudKit tells the two retirements apart; and no reference shares its file or its content
/// with any other file of the cohort.
pub proof fn two_retirements_and_five_references_make_a_document(
    gathered: Seq<GatheredAsset>,
    roots: Seq<QuarantineRoot>,
    destination_json: Seq<Vec<u8>>,
    reference_json: Seq<Vec<u8>>,
)
    requires
        destination_json.len() == gathered_replacements(gathered).len(),
        reference_json.len() == gathered_references(gathered).len(),
    ensures
        draft_refusal(gathered, roots, destination_json, reference_json) is None <==> {
            let retired = gathered_replacements(gathered);
            let members = order::sorted(gathered_members(gathered));
            &&& retired.len() == 2
            &&& gathered_references(gathered).len() == 5
            &&& gathered_members(gathered).len() == 9
            &&& forall|i: int|
                0 <= i < members.len() ==> (#[trigger] members[i]).root_device
                    == members[i].source.device && exists|k: int|
                    0 <= k < roots.len() && (#[trigger] roots[k]).device
                        == members[i].source.device
            &&& forall|k: int|
                0 <= k < roots.len() ==> has_member_on(members, (#[trigger] roots[k]).device)
            &&& retired[0].uploaded_asset_id@ != retired[1].uploaded_asset_id@
            &&& retired[0].uploaded_master_id@ != retired[1].uploaded_master_id@
            &&& retired[0].old_record_change_tag@ != retired[1].old_record_change_tag@
            &&& retired[0].original_asset_record_name@ != retired[1].original_asset_record_name@
            &&& retired[0].owner_record_name_sha256@ == retired[1].owner_record_name_sha256@
            &&& retired[0].initial_state_lookup_mode is FullFields
            &&& retired[1].initial_state_lookup_mode is FullFields
            &&& digest::sha256_hex(destination_json[0]@) != digest::sha256_hex(
                destination_json[1]@,
            )
            &&& references_apart(gathered)
        },
{
}

/// References are apart exactly if each differs, in its file and in its content, from every other
/// file that the cohort holds.
pub proof fn apart_references_differ_from_every_file(gathered: Seq<GatheredAsset>)
    ensures
        references_apart(gathered) ==> forall|i: int, j: int|
            0 <= i < gathered.len() && 0 <= j < gathered.len() && (
            #[trigger] gathered[i]).held.reference is Some ==> {
                let mine = gathered[i].held.reference->0;
                let other = (#[trigger] gathered[j]).held;
                &&& mine.sha256@ != other.raw.sha256@
                &&& mine.sha256@ != other.final_heic.sha256@
                &&& mine.sha256@ != other.mirror.sha256@
                &&& !(mine.metadata.dev == other.raw.metadata.dev && mine.metadata.ino
                    == other.raw.metadata.ino)
                &&& !(mine.metadata.dev == other.final_heic.metadata.dev && mine.metadata.ino
                    == other.final_heic.metadata.ino)
                &&& !(mine.metadata.dev == other.mirror.metadata.dev && mine.metadata.ino
                    == other.mirror.metadata.ino)
                &&& i != j && other.reference is Some ==> mine.sha256@
                    != other.reference->0.sha256@ && !(mine.metadata.dev
                    == other.reference->0.metadata.dev && mine.metadata.ino
                    == other.reference->0.metadata.ino)
            },
        (forall|i: int, j: int|
            0 <= i < gathered.len() && 0 <= j < gathered.len() && (
            #[trigger] gathered[i]).held.reference is Some ==> {
                let mine = gathered[i].held.reference->0;
                let other = (#[trigger] gathered[j]).held;
                &&& mine.sha256@ != other.raw.sha256@
                &&& mine.sha256@ != other.final_heic.sha256@
                &&& mine.sha256@ != other.mirror.sha256@
                &&& !(mine.metadata.dev == other.raw.metadata.dev && mine.metadata.ino
                    == other.raw.metadata.ino)
                &&& !(mine.metadata.dev == other.final_heic.metadata.dev && mine.metadata.ino
                    == other.final_heic.metadata.ino)
                &&& !(mine.metadata.dev == other.mirror.metadata.dev && mine.metadata.ino
                    == other.mirror.metadata.ino)
                &&& i != j && other.reference is Some ==> mine.sha256@
                    != other.reference->0.sha256@ && !(mine.metadata.dev
                    == other.reference->0.metadata.dev && mine.metadata.ino
                    == other.reference->0.metadata.ino)
            }) ==> references_apart(gathered),
{
    if references_apart(gathered) {
        assert forall|i: int, j: int|
            0 <= i < gathered.len() && 0 <= j < gathered.len() && (
            #[trigger] gathered[i]).held.reference is Some implies {
            let mine = gathered[i].held.reference->0;
            let other = (#[trigger] gathered[j]).held;
            &&& mine.sha256@ != other.raw.sha256@
            &&& mine.sha256@ != other.final_heic.sha256@
            &&& mine.sha256@ != other.mirror.sha256@
            &&& !(mine.metadata.dev == other.raw.metadata.dev && mine.metadata.ino
                == other.raw.metadata.ino)
            &&& !(mine.metadata.dev == other.final_heic.metadata.dev && mine.metadata.ino
                == other.final_heic.metadata.ino)
            &&& !(mine.metadata.dev == other.mirror.metadata.dev && mine.metadata.ino
                == other.mirror.metadata.ino)
            &&& i != j && other.reference is Some ==> mine.sha256@ != other.reference->0.sha256@
                && !(mine.metadata.dev == other.reference->0.metadata.dev && mine.metadata.ino
                == other.reference->0.metadata.ino)
        } by {
            assert(reference_apart(gathered, i, j));
            assert(reference_apart(gathered, j, i));
        }
    }
    if forall|i: int, j: int|
        0 <= i < gathered.len() && 0 <= j < gathered.len() && (
        #[trigger] gathered[i]).held.reference is Some ==> {
            let mine = gathered[i].held.reference->0;
            let other = (#[trigger] gathered[j]).held;
            &&& mine.sha256@ != other.raw.sha256@
            &&& mine.sha256@ != other.final_heic.sha256@
            &&& mine.sha256@ != other.mirror.sha256@
            &&& !(mine.metadata.dev == other.raw.metadata.dev && mine.metadata.ino
                == other.raw.metadata.ino)
            &&& !(mine.metadata.dev == other.final_heic.metadata.dev && mine.metadata.ino
                == other.final_heic.metadata.ino)
            &&& !(mine.metadata.dev == other.mirror.metadata.dev && mine.metadata.ino
                == other.mirror.metadata.ino)
            &&& i != j && other.reference is Some ==> mine.sha256@ != other.reference->0.sha256@
                && !(mine.metadata.dev == other.reference->0.metadata.dev && mine.metadata.ino
                == other.reference->0.metadata.ino)
        } {
        assert forall|i: int, j: int|
            0 <= i < gathered.len() && 0 <= j < gathered.len() implies reference_apart(
            gathered,
            i,
            j,
        ) by {
            assert(gathered[i] == gathered[i] && gathered[j] == gathered[j]);
        }
    }
}

/// A drafted document is of schema five, counts ten assets, two retirements and five references,
/// and seals each destination and each reference by the digest of its JSON.
pub proof fn drafted_documents_seal_their_parts(
    document: EvidenceDocument,
    gathered: Seq<GatheredAsset>,
    roots: Seq<QuarantineRoot>,
    destination_json: Seq<Vec<u8>>,
    reference_json: Seq<Vec<u8>>,
    i: int,
)
    requires
        drafts(document, gathered, roots, destination_json, reference_json),
    ensures
        document.schema_version == 5,
        document.asset_count == 10,
        document.retired_replacement_count == 2,
        document.reference_count == 5,
        document.quarantine_roots@ == roots,
        document.assets@.len() == gathered.len(),
        document.raw_inputs@.len() == gathered.len(),
        document.retired_replacements@.len() == gathered_replacements(gathered).len(),
        document.reference_normalizations@.len() == gathered_references(gathered).len(),
        0 <= i < gathered.len() ==> document.assets@[i] == gathered[i].asset
            && document.raw_inputs@[i] == gathered[i].raw_input,
        0 <= i < document.retired_replacements@.len() ==> {
            let sealed = document.retired_replacements@[i];
            let drafted = gathered_replacements(gathered)[i];
            &&& sealed.destination_sha256@ == digest::sha256_hex(destination_json[i]@)
            &&& sealed.asset_id == drafted.asset_id
            &&& sealed.uploaded_asset_id == drafted.uploaded_asset_id
            &&& sealed.uploaded_master_id == drafted.uploaded_master_id
            &&& sealed.initial_remote_state == drafted.initial_remote_state
        },
        0 <= i < document.reference_normalizations@.len() ==> {
            let sealed = document.reference_normalizations@[i];
            let drafted = gathered_references(gathered)[i];
            &&& sealed.reference_identity_sha256@ == digest::sha256_hex(reference_json[i]@)
            &&& sealed.asset_id == drafted.asset_id
            &&& sealed.reference_path == drafted.reference_path
            &&& sealed.file_sha256 == drafted.file_sha256
        },
{
    if 0 <= i < document.retired_replacements@.len() {
        assert(document.retired_replacements@[i] == document.retired_replacements@[i]);
    }
    if 0 <= i < document.reference_normalizations@.len() {
        assert(document.reference_normalizations@[i] == document.reference_normalizations@[i]);
    }
}

/// What is wrong with a draft is told by its name.
pub proof fn faults_of_a_draft_are_named(
    gathered: Seq<GatheredAsset>,
    roots: Seq<QuarantineRoot>,
    destination_json: Seq<Vec<u8>>,
    reference_json: Seq<Vec<u8>>,
)
    ensures
        ({
            let retired = gathered_replacements(gathered);
            let references = gathered_references(gathered);
            let placed = retired.len() <= destination_json.len();
            let witnessed = references.len() <= reference_json.len();
            let counted = retired.len() == 2 && references.len() == 5
                && gathered_members(gathered).len() == 9;
            let mapped = mapping_exact(order::sorted(gathered_members(gathered)), roots);
            let told_apart = drafts_unambiguous(retired, destination_json);
            let distinct = references_apart(gathered);
            let told = draft_refusal(gathered, roots, destination_json, reference_json);
            &&& !placed ==> told == Some("proof_lineage"@)
            &&& placed && !witnessed ==> told == Some("reference_witness"@)
            &&& placed && witnessed && !counted ==> told == Some("candidate_count"@)
            &&& placed && witnessed && counted && !mapped ==> told == Some("quarantine_mapping"@)
            &&& placed && witnessed && counted && mapped && !told_apart
                ==> told == Some("cloudkit_ambiguity"@)
            &&& placed && witnessed && counted && mapped && told_apart && !distinct
                ==> told == Some("reference_distinct"@)
        }),
{
}

/// Every record of a cohort is gathered at its own place, with what was observed of it.
pub proof fn cohorts_are_gathered_place_by_place(
    gathered: Seq<GatheredAsset>,
    records: Seq<AssetRecord>,
    observed: Seq<AssetObservation>,
    i: int,
)
    requires
        gathers_cohort(gathered, records, observed),
        0 <= i < records.len(),
    ensures
        gathered.len() == records.len(),
        gather::gathers(gathered[i], records[i], i, observed[i]),
        gathered[i].asset.asset_id == records[i].asset_id,
{
}

/// Roots are offered one for each path that is named, in the order of the paths.
pub proof fn roots_are_offered_in_the_order_of_their_paths(
    paths: Seq<String>,
    offered: Seq<OfferedRoot>,
    i: int,
)
    requires
        0 <= i < paths.len(),
    ensures
        offered_roots(paths, offered, paths.len()).len() == paths.len(),
        offered_roots(paths, offered, paths.len())[i].canonical_path == paths[i],
        offered_roots(paths, offered, paths.len())[i].device == offered[i].metadata->0.dev,
        offered_roots(paths, offered, paths.len())[i].inode == offered[i].metadata->0.ino,
{
}

/// The text that names a migration holds, behind the name of the generator, both of its targets,
/// and is one text for each two targets of one length.
pub proof fn migrations_are_told_apart_by_their_targets(
    a: Seq<char>,
    b: Seq<char>,
    c: Seq<char>,
    d: Seq<char>,
)
    requires
        a.len() == c.len(),
        b.len() == d.len(),
    ensures
        migration_text(a, b) == migration_text(c, d) <==> a == c && b == d,
        migration_text(a, b) == "[5,\"legacy-uploaded-heic-evidence-generator-v1\",\""@ + a
            + "\",\""@ + b + "\"]"@,
{
    let head = MIGRATION_TEXT_HEAD@;
    let between = "\",\""@;
    let one = migration_text(a, b);
    let other = migration_text(c, d);
    if one == other {
        let start = head.len() as int;
        assert(one.subrange(start, start + a.len()) =~= a);
        assert(other.subrange(start, start + a.len()) =~= c);
        let next = start + a.len() + between.len();
        assert(one.subrange(next, next + b.len()) =~= b);
        assert(other.subrange(next, next + b.len()) =~= d);
    }
}

} // verus!
