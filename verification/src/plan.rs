use vstd::prelude::*;
use vstd::string::*;

use crate::devices;
use crate::devices::{renumber_planned, renumber_raws, renumber_roots};
use crate::digest;
use crate::digest::sha256_bytes;
use crate::document;
use crate::document::{
    is_retired, EvidenceDocument, EvidenceReferenceNormalization, EvidenceRetiredReplacement,
    ASSET_COUNT, QUARANTINE_MEMBER_COUNT, RETIRED_REPLACEMENT_COUNT,
};
use crate::error;
use crate::error::{failure, LegacyUploadEvidenceError, Outcome};
use crate::identity;
use crate::identity::is_digest;
use crate::manifest;
use crate::manifest::{decoded_of, AssetRecord, Manifest};
use crate::order;
use crate::order::stable_sort;
use crate::path;
use crate::path::{safe_absolute_path, same_path};
use crate::phase::LegacyUploadMigrationPhase;
use crate::quarantine;
use crate::quarantine::{
    is_key_before, EvidenceQuarantineMember, LegacyUploadMigrationQuarantineKind,
    LegacyUploadMigrationQuarantineMember, LegacyUploadMigrationQuarantinePlan, PlanContent,
    QuarantineRawInput, QuarantineRoot,
};
use crate::text;
use crate::text::{same_text, text_before};

verus! {

/// The layout of quarantine plans.
pub const QUARANTINE_PLAN_SCHEMA_VERSION: u64 = 1;

/// The permission bits of a quarantine root.
pub const QUARANTINE_ROOT_MODE: u32 = 0o700;

/// What a plan needs from outside the document and the records.
#[derive(Debug, PartialEq, Eq)]
pub struct PlanInputs {
    /// Where each quarantine member of the document is to be moved, in the order of the members;
    /// nothing for one that cannot be given a place.
    pub destinations: Vec<Option<String>>,
    /// The canonical JSON of the plan's content; nothing where the plan cannot be sealed.
    pub plan_json: Option<Vec<u8>>,
    /// The canonical JSON of the plan that the journals already follow, read with the devices of
    /// the document; nothing where no journal follows one, or where it cannot be sealed.
    pub rebased_json: Option<Vec<u8>>,
}

/// The phase that the journal of one replacement has reached.
pub open spec fn replacement_phase(manifest: Manifest, id: Seq<char>) -> Outcome<
    Option<LegacyUploadMigrationPhase>,
> {
    match manifest.record(id) {
        None => Err("replacement_proof"@),
        Some(record) => if record.journal is Absent {
            Ok(None)
        } else {
            match record.valid_journal() {
                None => Err("replacement_proof"@),
                Some(journal) => match journal.last_phase() {
                    None => Err("replacement_proof"@),
                    Some(phase) => Ok(Some(phase)),
                },
            }
        },
    }
}

/// The phase that both replacements of a cohort have reached; nothing where neither has a
/// journal.
pub open spec fn cohort_phase(document: EvidenceDocument, manifest: Manifest) -> Outcome<
    Option<LegacyUploadMigrationPhase>,
> {
    let left = replacement_phase(manifest, document.retired_replacements@[0].asset_id@);
    let right = replacement_phase(manifest, document.retired_replacements@[1].asset_id@);
    match (left, right) {
        (Err(category), _) => Err(category),
        (_, Err(category)) => Err(category),
        (Ok(a), Ok(b)) => if a != b {
            Err("replacement_cohort"@)
        } else {
            Ok(a)
        },
    }
}

fn phase_of_replacement(manifest: &Manifest, id: &str) -> (r: Result<
    Option<LegacyUploadMigrationPhase>,
    LegacyUploadEvidenceError,
>)
    ensures
        error::answers(r, replacement_phase(*manifest, id@)),
{
    match manifest.get(id) {
        None => Err(failure("replacement_proof")),
        Some(record) => {
            if !record.has_journal() {
                return Ok(None);
            }
            match record.journal_of() {
                None => Err(failure("replacement_proof")),
                Some(journal) => match journal.phase() {
                    None => Err(failure("replacement_proof")),
                    Some(phase) => Ok(Some(phase)),
                },
            }
        },
    }
}

/// The phase that both replacements of a cohort have reached.
pub fn coherent_retired_replacement_phase(document: &EvidenceDocument, manifest: &Manifest) -> (r:
    Result<Option<LegacyUploadMigrationPhase>, LegacyUploadEvidenceError>)
    requires
        document.retired_replacements@.len() >= RETIRED_REPLACEMENT_COUNT,
    ensures
        error::answers(r, cohort_phase(*document, *manifest)),
{
    let left = phase_of_replacement(manifest, &document.retired_replacements[0].asset_id);
    let right = phase_of_replacement(manifest, &document.retired_replacements[1].asset_id);
    match (left, right) {
        (Err(error), _) => Err(error),
        (_, Err(error)) => Err(error),
        (Ok(a), Ok(b)) => {
            let agree: bool = match (a, b) {
                (None, None) => true,
                (Some(x), Some(y)) => x == y,
                _ => false,
            };
            if agree {
                Ok(a)
            } else {
                Err(failure("replacement_cohort"))
            }
        },
    }
}

/// Roots that a plan may use: safe paths of private directories, in ascending order of their
/// devices, none twice.
pub open spec fn roots_usable(roots: Seq<QuarantineRoot>) -> bool {
    &&& forall|i: int|
        0 <= i < roots.len() ==> {
            &&& path::safe_place((#[trigger] roots[i]).canonical_path@)
            &&& roots[i].device != 0
            &&& roots[i].inode != 0
            &&& roots[i].mode == QUARANTINE_ROOT_MODE
        }
    &&& forall|i: int, j: int|
        0 <= i < j < roots.len() ==> (#[trigger] roots[i]).device < (#[trigger] roots[j]).device
}

fn are_roots_usable(roots: &Vec<QuarantineRoot>) -> (r: bool)
    ensures
        r == roots_usable(roots@),
{
    let mut i: usize = 0;
    while i < roots.len()
        invariant
            i <= roots@.len(),
            roots_usable(roots@.take(i as int)),
        decreases roots@.len() - i,
    {
        let root = &roots[i];
        let ghost front = roots@.take(i as int);
        let ghost longer = roots@.take(i + 1);
        if !safe_absolute_path(&root.canonical_path) || root.device == 0 || root.inode == 0
            || root.mode != QUARANTINE_ROOT_MODE {
            return false;
        }
        if i > 0 && roots[i - 1].device >= root.device {
            assert(!(roots@[i - 1].device < roots@[i as int].device));
            return false;
        }
        assert forall|a: int| 0 <= a < longer.len() implies {
            &&& path::safe_place((#[trigger] longer[a]).canonical_path@)
            &&& longer[a].device != 0
            &&& longer[a].inode != 0
            &&& longer[a].mode == QUARANTINE_ROOT_MODE
        } by {
            if a < i {
                assert(longer[a] == front[a]);
            }
        }
        assert forall|a: int, b: int| 0 <= a < b < longer.len() implies (
        #[trigger] longer[a]).device < (#[trigger] longer[b]).device by {
            if b < i {
                assert(front[a].device < front[b].device);
            } else if a < i - 1 {
                assert(front[a].device < front[i - 1].device);
            }
        }
        i += 1;
    }
    assert(roots@.take(roots@.len() as int) =~= roots@);
    true
}

/// Where a quarantined file has to lie, and what it has to hold where that is fixed.
pub struct Expectation {
    pub path: Seq<char>,
    pub content: Option<(Seq<char>, u64)>,
}

/// What a cohort expects to quarantine, by asset and kind, and the plan that its journals are
/// already working off, if any.
pub struct Gathered {
    pub expected: Map<(Seq<char>, LegacyUploadMigrationQuarantineKind), Expectation>,
    pub resumed: Option<LegacyUploadMigrationQuarantinePlan>,
}

/// What one more replacement adds. A replacement whose journal has reached the reset works off
/// the plan of its journal; any other expects its uploaded HEIC and its mirror.
pub open spec fn gathered_with(
    gathered: Gathered,
    replacement: EvidenceRetiredReplacement,
    record: AssetRecord,
) -> Outcome<Gathered> {
    if record.resumed() {
        let plan = record.valid_journal()->0.identity.quarantine_plan;
        match gathered.resumed {
            Some(prior) => if prior.same(plan) {
                Ok(Gathered { resumed: Some(plan), ..gathered })
            } else {
                Err("quarantine_mapping"@)
            },
            None => Ok(Gathered { resumed: Some(plan), ..gathered }),
        }
    } else {
        match (record.uploaded_path(), record.mirror_path()) {
            (Some(uploaded), Some(mirror)) => Ok(
                Gathered {
                    expected: gathered.expected.insert(
                        (replacement.asset_id@, LegacyUploadMigrationQuarantineKind::Final),
                        Expectation { path: uploaded, content: None },
                    ).insert(
                        (replacement.asset_id@, LegacyUploadMigrationQuarantineKind::OldMirror),
                        Expectation {
                            path: mirror,
                            content: Some(
                                (
                                    replacement.uploaded_heic_sha256@,
                                    replacement.uploaded_heic_size_bytes,
                                ),
                            ),
                        },
                    ),
                    ..gathered
                },
            ),
            _ => Err("quarantine_mapping"@),
        }
    }
}

/// What the replacements expect, in the order of the document.
pub open spec fn gathered_from(
    replacements: Seq<EvidenceRetiredReplacement>,
    manifest: Manifest,
) -> Outcome<Gathered>
    decreases replacements.len(),
{
    if replacements.len() == 0 {
        Ok(Gathered { expected: Map::empty(), resumed: None })
    } else {
        match gathered_from(replacements.drop_last(), manifest) {
            Err(category) => Err(category),
            Ok(gathered) => match manifest.record(replacements.last().asset_id@) {
                None => Err("quarantine_mapping"@),
                Some(record) => gathered_with(gathered, replacements.last(), record),
            },
        }
    }
}

/// What is expected once the references are counted in.
pub open spec fn with_references(
    expected: Map<(Seq<char>, LegacyUploadMigrationQuarantineKind), Expectation>,
    references: Seq<EvidenceReferenceNormalization>,
) -> Map<(Seq<char>, LegacyUploadMigrationQuarantineKind), Expectation>
    decreases references.len(),
{
    if references.len() == 0 {
        expected
    } else {
        let reference = references.last();
        with_references(expected, references.drop_last()).insert(
            (reference.asset_id@, LegacyUploadMigrationQuarantineKind::Reference),
            Expectation {
                path: reference.reference_path@,
                content: Some((reference.file_sha256@, reference.size_bytes)),
            },
        )
    }
}

struct ExpectedMember {
    asset_id: String,
    kind: LegacyUploadMigrationQuarantineKind,
    path: String,
    content: Option<(String, u64)>,
}

impl ExpectedMember {
    spec fn key(self) -> (Seq<char>, LegacyUploadMigrationQuarantineKind) {
        (self.asset_id@, self.kind)
    }

    spec fn expectation(self) -> Expectation {
        Expectation {
            path: self.path@,
            content: match self.content {
                Some((sha256, size)) => Some((sha256@, size)),
                None => None,
            },
        }
    }
}

spec fn listed(entries: Seq<ExpectedMember>) -> Map<
    (Seq<char>, LegacyUploadMigrationQuarantineKind),
    Expectation,
>
    decreases entries.len(),
{
    if entries.len() == 0 {
        Map::empty()
    } else {
        listed(entries.drop_last()).insert(entries.last().key(), entries.last().expectation())
    }
}

spec fn keyed_once(entries: Seq<ExpectedMember>) -> bool {
    forall|i: int, j: int|
        0 <= i < j < entries.len() ==> (#[trigger] entries[i]).key() != (
        #[trigger] entries[j]).key()
}

proof fn listed_entries(entries: Seq<ExpectedMember>)
    requires
        keyed_once(entries),
    ensures
        listed(entries).dom().finite(),
        listed(entries).dom().len() == entries.len(),
        forall|i: int|
            0 <= i < entries.len() ==> listed(entries).dom().contains(
                (#[trigger] entries[i]).key(),
            ) && listed(entries)[entries[i].key()] == entries[i].expectation(),
        forall|k: (Seq<char>, LegacyUploadMigrationQuarantineKind)| #[trigger]
            listed(entries).dom().contains(k) ==> exists|i: int|
                0 <= i < entries.len() && (#[trigger] entries[i]).key() == k,
    decreases entries.len(),
{
    if entries.len() > 0 {
        let front = entries.drop_last();
        assert(keyed_once(front)) by {
            assert forall|i: int, j: int| 0 <= i < j < front.len() implies (
            #[trigger] front[i]).key() != (#[trigger] front[j]).key() by {
                assert(entries[i].key() != entries[j].key());
            }
        }
        listed_entries(front);
        let last = entries.last();
        assert(!listed(front).dom().contains(last.key())) by {
            if listed(front).dom().contains(last.key()) {
                let i = choose|i: int| 0 <= i < front.len() && (#[trigger] front[i]).key()
                    == last.key();
                assert(entries[i].key() != entries[entries.len() - 1].key());
            }
        }
        assert forall|i: int| 0 <= i < entries.len() implies listed(entries).dom().contains(
            (#[trigger] entries[i]).key(),
        ) && listed(entries)[entries[i].key()] == entries[i].expectation() by {
            if i < front.len() {
                assert(front[i] == entries[i]);
                assert(entries[i].key() != last.key());
            }
        }
        assert forall|k: (Seq<char>, LegacyUploadMigrationQuarantineKind)| #[trigger]
            listed(entries).dom().contains(k) implies exists|i: int|
            0 <= i < entries.len() && (#[trigger] entries[i]).key() == k by {
            if k == last.key() {
                assert(entries[entries.len() - 1].key() == k);
            } else {
                assert(listed(front).dom().contains(k));
                let i = choose|i: int| 0 <= i < front.len() && (#[trigger] front[i]).key() == k;
                assert(entries[i].key() == k);
            }
        }
    }
}

fn find_expected(
    entries: &Vec<ExpectedMember>,
    id: &str,
    kind: LegacyUploadMigrationQuarantineKind,
) -> (r: Option<usize>)
    ensures
        match r {
            Some(i) => i < entries@.len() && entries@[i as int].key() == (id@, kind),
            None => forall|i: int|
                0 <= i < entries@.len() ==> (#[trigger] entries@[i]).key() != (id@, kind),
        },
{
    let mut i: usize = 0;
    while i < entries.len()
        invariant
            i <= entries@.len(),
            forall|j: int| 0 <= j < i ==> (#[trigger] entries@[j]).key() != (id@, kind),
        decreases entries@.len() - i,
    {
        if entries[i].kind == kind && same_text(&entries[i].asset_id, id) {
            return Some(i);
        }
        i += 1;
    }
    None
}

fn expect(entries: &mut Vec<ExpectedMember>, entry: ExpectedMember)
    requires
        keyed_once(old(entries)@),
    ensures
        keyed_once(final(entries)@),
        listed(final(entries)@) == listed(old(entries)@).insert(entry.key(), entry.expectation()),
{
    let ghost prior = entries@;
    let ghost key = entry.key();
    let ghost value = entry.expectation();
    match find_expected(entries, &entry.asset_id, entry.kind) {
        Some(i) => {
            entries.set(i, entry);
            proof {
                let after = entries@;
                assert forall|a: int, b: int| 0 <= a < b < after.len() implies (
                #[trigger] after[a]).key() != (#[trigger] after[b]).key() by {
                    assert(prior[a].key() != prior[b].key());
                }
                listed_entries(prior);
                listed_entries(after);
                let l = listed(after);
                let m = listed(prior).insert(key, value);
                assert forall|k: (Seq<char>, LegacyUploadMigrationQuarantineKind)|
                    l.dom().contains(k) <==> m.dom().contains(k) by {
                    if l.dom().contains(k) {
                        let a = choose|a: int|
                            0 <= a < after.len() && (#[trigger] after[a]).key() == k;
                        if a != i {
                            assert(prior[a].key() == k);
                        }
                    }
                    if m.dom().contains(k) {
                        if k == key {
                            assert(after[i as int].key() == k);
                        } else {
                            let a = choose|a: int|
                                0 <= a < prior.len() && (#[trigger] prior[a]).key() == k;
                            assert(after[a].key() == k);
                        }
                    }
                }
                assert forall|k: (Seq<char>, LegacyUploadMigrationQuarantineKind)|
                    l.dom().contains(k) implies #[trigger] l[k] == m[k] by {
                    let a = choose|a: int| 0 <= a < after.len() && (#[trigger] after[a]).key() == k;
                    if a != i {
                        assert(prior[a].key() == k);
                        assert(k != key) by {
                            if a < i {
                                assert(prior[a].key() != prior[i as int].key());
                            } else {
                                assert(prior[i as int].key() != prior[a].key());
                            }
                        }
                    }
                }
                assert(l =~= m);
            }
        },
        None => {
            entries.push(entry);
            proof {
                assert(entries@.drop_last() =~= prior);
                assert forall|a: int, b: int| 0 <= a < b < entries@.len() implies (
                #[trigger] entries@[a]).key() != (#[trigger] entries@[b]).key() by {
                    if b < prior.len() {
                        assert(prior[a].key() != prior[b].key());
                    } else {
                        assert(prior[a].key() != key);
                    }
                }
            }
        },
    }
}


fn gather<'a>(
    replacements: &Vec<EvidenceRetiredReplacement>,
    manifest: &'a Manifest,
    entries: &mut Vec<ExpectedMember>,
) -> (r: Result<Option<&'a LegacyUploadMigrationQuarantinePlan>, LegacyUploadEvidenceError>)
    requires
        old(entries)@.len() == 0,
    ensures
        keyed_once(final(entries)@),
        match gathered_from(replacements@, *manifest) {
            Ok(gathered) => {
                &&& listed(final(entries)@) == gathered.expected
                &&& match r {
                    Ok(Some(plan)) => gathered.resumed == Some(*plan),
                    Ok(None) => gathered.resumed is None,
                    Err(_) => false,
                }
            },
            Err(category) => r is Err && r->Err_0@ == category,
        },
{
    let mut resumed: Option<&'a LegacyUploadMigrationQuarantinePlan> = None;
    let mut i: usize = 0;
    proof {
        assert(replacements@.take(0) =~= Seq::empty());
        assert(listed(entries@) =~= Map::empty());
    }
    while i < replacements.len()
        invariant
            i <= replacements@.len(),
            keyed_once(entries@),
            gathered_from(replacements@.take(i as int), *manifest) matches Ok(gathered) && {
                &&& listed(entries@) == gathered.expected
                &&& match resumed {
                    Some(plan) => gathered.resumed == Some(*plan),
                    None => gathered.resumed is None,
                }
            },
        decreases replacements@.len() - i,
    {
        let replacement = &replacements[i];
        proof {
            assert(replacements@.take(i + 1).drop_last() =~= replacements@.take(i as int));
            assert(replacements@.take(i + 1).last() == *replacement);
            gathered_refused_early(replacements@, *manifest, i + 1);
        }
        match manifest.get(&replacement.asset_id) {
            None => {
                return Err(failure("quarantine_mapping"));
            },
            Some(record) => {
                if record.is_resumed() {
                    match record.journal_of() {
                        Some(journal) => {
                            let plan = &journal.identity.quarantine_plan;
                            match resumed {
                                Some(prior) => if !prior.is_same(plan) {
                                    return Err(failure("quarantine_mapping"));
                                },
                                None => {},
                            }
                            resumed = Some(plan);
                        },
                        None => {
                            assert(false);
                        },
                    }
                } else {
                    match (record.uploaded_path_of(), record.mirror_path_of()) {
                        (Some(uploaded), Some(mirror)) => {
                            expect(
                                entries,
                                ExpectedMember {
                                    asset_id: replacement.asset_id.clone(),
                                    kind: LegacyUploadMigrationQuarantineKind::Final,
                                    path: uploaded.clone(),
                                    content: None,
                                },
                            );
                            expect(
                                entries,
                                ExpectedMember {
                                    asset_id: replacement.asset_id.clone(),
                                    kind: LegacyUploadMigrationQuarantineKind::OldMirror,
                                    path: mirror.clone(),
                                    content: Some(
                                        (
                                            replacement.uploaded_heic_sha256.clone(),
                                            replacement.uploaded_heic_size_bytes,
                                        ),
                                    ),
                                },
                            );
                        },
                        _ => {
                            return Err(failure("quarantine_mapping"));
                        },
                    }
                }
            },
        }
        i += 1;
    }
    assert(replacements@.take(replacements@.len() as int) =~= replacements@);
    Ok(resumed)
}

proof fn gathered_refused_early(
    replacements: Seq<EvidenceRetiredReplacement>,
    manifest: Manifest,
    n: int,
)
    requires
        0 <= n <= replacements.len(),
    ensures
        gathered_from(replacements.take(n), manifest) matches Err(category) ==> gathered_from(
            replacements,
            manifest,
        ) == Err::<Gathered, Seq<char>>(category),
    decreases replacements.len() - n,
{
    if n == replacements.len() {
        assert(replacements.take(n) =~= replacements);
    } else {
        assert(replacements.take(n + 1).drop_last() =~= replacements.take(n));
        gathered_refused_early(replacements, manifest, n + 1);
    }
}

fn expect_references(
    references: &Vec<EvidenceReferenceNormalization>,
    entries: &mut Vec<ExpectedMember>,
)
    requires
        keyed_once(old(entries)@),
    ensures
        keyed_once(final(entries)@),
        listed(final(entries)@) == with_references(listed(old(entries)@), references@),
{
    let ghost before = listed(entries@);
    let mut i: usize = 0;
    assert(references@.take(0) =~= Seq::empty());
    while i < references.len()
        invariant
            i <= references@.len(),
            keyed_once(entries@),
            listed(entries@) == with_references(before, references@.take(i as int)),
        decreases references@.len() - i,
    {
        let reference = &references[i];
        proof {
            assert(references@.take(i + 1).drop_last() =~= references@.take(i as int));
            assert(references@.take(i + 1).last() == *reference);
        }
        expect(
            entries,
            ExpectedMember {
                asset_id: reference.asset_id.clone(),
                kind: LegacyUploadMigrationQuarantineKind::Reference,
                path: reference.reference_path.clone(),
                content: Some((reference.file_sha256.clone(), reference.size_bytes)),
            },
        );
        i += 1;
    }
    assert(references@.take(references@.len() as int) =~= references@);
}

/// A root lies on that device.
pub open spec fn root_on(roots: Seq<QuarantineRoot>, device: u64) -> bool {
    exists|i: int| 0 <= i < roots.len() && (#[trigger] roots[i]).device == device
}

fn has_root_on(roots: &Vec<QuarantineRoot>, device: u64) -> (r: bool)
    ensures
        r == root_on(roots@, device),
{
    let mut i: usize = 0;
    while i < roots.len()
        invariant
            i <= roots@.len(),
            forall|j: int| 0 <= j < i ==> (#[trigger] roots@[j]).device != device,
        decreases roots@.len() - i,
    {
        if roots[i].device == device {
            return true;
        }
        i += 1;
    }
    false
}

/// The references of an asset are the very file.
pub open spec fn references_are(
    references: Seq<EvidenceReferenceNormalization>,
    id: Seq<char>,
    device: u64,
    inode: u64,
) -> bool {
    forall|i: int|
        0 <= i < references.len() && (#[trigger] references[i]).asset_id@ == id
            ==> references[i].device == device && references[i].inode == inode
}

fn are_references(
    references: &Vec<EvidenceReferenceNormalization>,
    id: &str,
    device: u64,
    inode: u64,
) -> (r: bool)
    ensures
        r == references_are(references@, id@, device, inode),
{
    let mut i: usize = 0;
    while i < references.len()
        invariant
            i <= references@.len(),
            forall|j: int|
                0 <= j < i && (#[trigger] references@[j]).asset_id@ == id@ ==> references@[j].device
                    == device && references@[j].inode == inode,
        decreases references@.len() - i,
    {
        if same_text(&references[i].asset_id, id) && (references[i].device != device
            || references[i].inode != inode) {
            return false;
        }
        i += 1;
    }
    true
}

/// The place that a member is to be moved to, if it was given one.
pub open spec fn destination_of(destinations: Seq<Option<String>>, i: int) -> Option<String> {
    if 0 <= i < destinations.len() {
        destinations[i]
    } else {
        None
    }
}

/// A member may be quarantined: it lies where it is expected and holds what is expected, it is
/// one file with one name on the device of a root, and it was given a place to go. While journals
/// work off a plan, the HEIC and the mirror of a replacement need no longer be expected.
pub open spec fn member_fits(
    document: EvidenceDocument,
    expected: Map<(Seq<char>, LegacyUploadMigrationQuarantineKind), Expectation>,
    resumed: bool,
    destinations: Seq<Option<String>>,
    i: int,
) -> bool {
    let member = document.quarantine_members@[i];
    let key = (member.asset_id@, member.kind);
    &&& if expected.dom().contains(key) {
        &&& path::same_place(member.source_path@, expected[key].path)
        &&& expected[key].content matches Some(content) ==> member.source.sha256@ == content.0
            && member.source.size_bytes == content.1
    } else {
        &&& resumed
        &&& document::retires(document.retired_replacements@, member.asset_id@)
        &&& !(member.kind is Reference)
    }
    &&& identity::digest_text(member.source.sha256@)
    &&& member.source.size_bytes != 0
    &&& member.source.device != 0
    &&& member.source.inode != 0
    &&& member.source.link_count == 1
    &&& member.root_device == member.source.device
    &&& root_on(document.quarantine_roots@, member.root_device)
    &&& member.kind is Reference ==> references_are(
        document.reference_normalizations@,
        member.asset_id@,
        member.source.device,
        member.source.inode,
    )
    &&& destination_of(destinations, i) is Some
}

/// A later member does not repeat an earlier one: neither its path nor its file.
pub open spec fn members_apart(a: EvidenceQuarantineMember, b: EvidenceQuarantineMember) -> bool {
    &&& !path::same_place(a.source_path@, b.source_path@)
    &&& !(a.source.device == b.source.device && a.source.inode == b.source.inode)
}

/// All members may be quarantined, they are listed in ascending order of asset and kind, and no
/// two are the same path or the same file.
pub open spec fn members_fit(
    document: EvidenceDocument,
    expected: Map<(Seq<char>, LegacyUploadMigrationQuarantineKind), Expectation>,
    resumed: bool,
    destinations: Seq<Option<String>>,
) -> bool {
    let members = document.quarantine_members@;
    &&& forall|i: int|
        0 <= i < members.len() ==> #[trigger] member_fits(
            document,
            expected,
            resumed,
            destinations,
            i,
        )
    &&& forall|i: int, j: int|
        0 <= i < members.len() && j == i + 1 && j < members.len() ==> quarantine::key_before(
            (#[trigger] members[i]).asset_id@,
            members[i].kind,
            (#[trigger] members[j]).asset_id@,
            members[j].kind,
        )
    &&& forall|i: int, j: int|
        0 <= i < j < members.len() ==> members_apart(#[trigger] members[i], #[trigger] members[j])
}

/// Everything that is expected is among the members.
pub open spec fn all_expected_listed(
    document: EvidenceDocument,
    expected: Map<(Seq<char>, LegacyUploadMigrationQuarantineKind), Expectation>,
) -> bool {
    forall|k: (Seq<char>, LegacyUploadMigrationQuarantineKind)| #[trigger]
        expected.dom().contains(k) ==> member_listed(document.quarantine_members@, k.0, k.1)
}

/// The members of the plan, each with the place it goes to.
pub open spec fn planned_members(
    document: EvidenceDocument,
    destinations: Seq<Option<String>>,
) -> Seq<LegacyUploadMigrationQuarantineMember> {
    Seq::new(
        document.quarantine_members@.len(),
        |i: int|
            LegacyUploadMigrationQuarantineMember {
                asset_id: document.quarantine_members@[i].asset_id,
                kind: document.quarantine_members@[i].kind,
                source_path: document.quarantine_members@[i].source_path,
                destination_path: destination_of(destinations, i)->0,
                source: document.quarantine_members@[i].source,
                root_device: document.quarantine_members@[i].root_device,
            },
    )
}

fn does_member_fit(
    document: &EvidenceDocument,
    entries: &Vec<ExpectedMember>,
    resumed: bool,
    destinations: &Vec<Option<String>>,
    i: usize,
) -> (r: bool)
    requires
        i < document.quarantine_members@.len(),
        keyed_once(entries@),
    ensures
        r == member_fits(*document, listed(entries@), resumed, destinations@, i as int),
{
    let member = &document.quarantine_members[i];
    proof {
        listed_entries(entries@);
    }
    let reference: bool = match member.kind {
        LegacyUploadMigrationQuarantineKind::Reference => true,
        _ => false,
    };
    let ghost key = (member.asset_id@, member.kind);
    let as_expected: bool = match find_expected(entries, &member.asset_id, member.kind) {
        Some(k) => {
            let entry = &entries[k];
            assert(listed(entries@).dom().contains(entries@[k as int].key()));
            same_path(&member.source_path, &entry.path) && match &entry.content {
                Some((sha256, size)) => same_text(&member.source.sha256, sha256)
                    && member.source.size_bytes == *size,
                None => true,
            }
        },
        None => {
            assert(!listed(entries@).dom().contains(key));
            resumed && !reference && is_retired(&document.retired_replacements, &member.asset_id)
        },
    };
    as_expected && is_digest(&member.source.sha256) && member.source.size_bytes != 0
        && member.source.device != 0 && member.source.inode != 0 && member.source.link_count == 1
        && member.root_device == member.source.device && has_root_on(
        &document.quarantine_roots,
        member.root_device,
    ) && (!reference || are_references(
        &document.reference_normalizations,
        &member.asset_id,
        member.source.device,
        member.source.inode,
    )) && i < destinations.len() && destinations[i].is_some()
}

fn are_members_apart(a: &EvidenceQuarantineMember, b: &EvidenceQuarantineMember) -> (r: bool)
    ensures
        r == members_apart(*a, *b),
{
    !same_path(&a.source_path, &b.source_path) && !(a.source.device == b.source.device
        && a.source.inode == b.source.inode)
}

fn plan_members(
    document: &EvidenceDocument,
    entries: &Vec<ExpectedMember>,
    resumed: bool,
    destinations: &Vec<Option<String>>,
) -> (r: Option<Vec<LegacyUploadMigrationQuarantineMember>>)
    requires
        keyed_once(entries@),
    ensures
        r is Some <==> members_fit(*document, listed(entries@), resumed, destinations@),
        r matches Some(members) ==> members@ == planned_members(*document, destinations@),
{
    let ghost expected = listed(entries@);
    let members = &document.quarantine_members;
    let mut out: Vec<LegacyUploadMigrationQuarantineMember> = Vec::new();
    let mut i: usize = 0;
    while i < members.len()
        invariant
            i <= members@.len(),
            members@ == document.quarantine_members@,
            keyed_once(entries@),
            expected == listed(entries@),
            forall|a: int|
                0 <= a < i ==> #[trigger] member_fits(
                    *document,
                    expected,
                    resumed,
                    destinations@,
                    a,
                ),
            forall|a: int, b: int|
                0 <= a < i && b == a + 1 && b < i ==> quarantine::key_before(
                    (#[trigger] members@[a]).asset_id@,
                    members@[a].kind,
                    (#[trigger] members@[b]).asset_id@,
                    members@[b].kind,
                ),
            forall|a: int, b: int|
                0 <= a < b < i ==> members_apart(#[trigger] members@[a], #[trigger] members@[b]),
            out@ =~= planned_members(*document, destinations@).take(i as int),
        decreases members@.len() - i,
    {
        if !does_member_fit(document, entries, resumed, destinations, i) {
            assert(!member_fits(*document, expected, resumed, destinations@, i as int));
            return None;
        }
        let member = &members[i];
        if i > 0 {
            let prior = &members[i - 1];
            if !is_key_before(&prior.asset_id, prior.kind, &member.asset_id, member.kind) {
                assert(!quarantine::key_before(
                    document.quarantine_members@[i - 1].asset_id@,
                    document.quarantine_members@[i - 1].kind,
                    document.quarantine_members@[i as int].asset_id@,
                    document.quarantine_members@[i as int].kind,
                ));
                return None;
            }
        }
        let mut k: usize = 0;
        while k < i
            invariant
                k <= i < members@.len(),
                members@ == document.quarantine_members@,
                *member == members@[i as int],
                forall|a: int| 0 <= a < k ==> members_apart(#[trigger] members@[a], *member),
            decreases i - k,
        {
            if !are_members_apart(&members[k], member) {
                assert(!members_apart(
                    document.quarantine_members@[k as int],
                    document.quarantine_members@[i as int],
                ));
                return None;
            }
            k += 1;
        }
        let destination_path: String = match &destinations[i] {
            Some(path) => path.clone(),
            None => String::new(),
        };
        out.push(
            LegacyUploadMigrationQuarantineMember {
                asset_id: member.asset_id.clone(),
                kind: member.kind,
                source_path: member.source_path.clone(),
                destination_path,
                source: member.source.clone(),
                root_device: member.root_device,
            },
        );
        i += 1;
    }
    assert(out@ =~= planned_members(*document, destinations@));
    Some(out)
}

/// The asset's file of that kind is among the members.
pub open spec fn member_listed(
    members: Seq<EvidenceQuarantineMember>,
    id: Seq<char>,
    kind: LegacyUploadMigrationQuarantineKind,
) -> bool {
    exists|i: int|
        0 <= i < members.len() && (#[trigger] members[i]).asset_id@ == id && members[i].kind == kind
}

fn lists_member(
    members: &Vec<EvidenceQuarantineMember>,
    id: &str,
    kind: LegacyUploadMigrationQuarantineKind,
) -> (r: bool)
    ensures
        r == member_listed(members@, id@, kind),
{
    let mut i: usize = 0;
    while i < members.len()
        invariant
            i <= members@.len(),
            forall|j: int|
                0 <= j < i ==> !((#[trigger] members@[j]).asset_id@ == id@ && members@[j].kind
                    == kind),
        decreases members@.len() - i,
    {
        if members[i].kind == kind && same_text(&members[i].asset_id, id) {
            return true;
        }
        i += 1;
    }
    false
}

fn are_all_expected_listed(document: &EvidenceDocument, entries: &Vec<ExpectedMember>) -> (r: bool)
    requires
        keyed_once(entries@),
    ensures
        r == all_expected_listed(*document, listed(entries@)),
{
    proof {
        listed_entries(entries@);
    }
    let members = &document.quarantine_members;
    let mut i: usize = 0;
    while i < entries.len()
        invariant
            i <= entries@.len(),
            members@ == document.quarantine_members@,
            forall|a: int|
                0 <= a < i ==> member_listed(
                    members@,
                    (#[trigger] entries@[a]).key().0,
                    entries@[a].key().1,
                ),
            forall|a: int|
                0 <= a < entries@.len() ==> listed(entries@).dom().contains(
                    (#[trigger] entries@[a]).key(),
                ),
        decreases entries@.len() - i,
    {
        let entry = &entries[i];
        let found = lists_member(members, &entry.asset_id, entry.kind);
        if !found {
            assert(listed(entries@).dom().contains(entry.key()));
            assert(!all_expected_listed(*document, listed(entries@)));
            return false;
        }
        i += 1;
    }
    assert forall|key: (Seq<char>, LegacyUploadMigrationQuarantineKind)| #[trigger]
        listed(entries@).dom().contains(key) implies member_listed(
        document.quarantine_members@,
        key.0,
        key.1,
    ) by {
        let a = choose|a: int| 0 <= a < entries@.len() && (#[trigger] entries@[a]).key() == key;
        assert(entries@[a].key() == key);
    }
    true
}


/// An original may be used: its record and the NAS proof of its record name the very path and
/// content, and it is one file with one name.
pub open spec fn raw_fits(raw: QuarantineRawInput, manifest: Manifest) -> bool {
    match manifest.record(raw.asset_id@) {
        None => false,
        Some(record) => match manifest::decoded_proof(record.nas) {
            None => false,
            Some(nas) => {
                &&& path::same_place(raw.path@, record.raw_path@)
                &&& path::same_place(raw.path@, nas.canonical_path@)
                &&& raw.source.sha256@ == nas.sha256@
                &&& raw.source.size_bytes == nas.size_bytes
                &&& raw.source.device != 0
                &&& raw.source.inode != 0
                &&& raw.source.link_count == 1
            },
        },
    }
}

/// A later original does not repeat an earlier one: neither its path nor its file.
pub open spec fn raws_apart(a: QuarantineRawInput, b: QuarantineRawInput) -> bool {
    &&& !path::same_place(a.path@, b.path@)
    &&& !(a.source.device == b.source.device && a.source.inode == b.source.inode)
}

/// All originals may be used, they are listed in ascending order of their assets, and no two are
/// the same path or the same file.
pub open spec fn raws_fit(raws: Seq<QuarantineRawInput>, manifest: Manifest) -> bool {
    &&& forall|i: int| 0 <= i < raws.len() ==> raw_fits(#[trigger] raws[i], manifest)
    &&& forall|i: int, j: int|
        0 <= i < raws.len() && j == i + 1 && j < raws.len() ==> text::before(
            (#[trigger] raws[i]).asset_id@,
            (#[trigger] raws[j]).asset_id@,
        )
    &&& forall|i: int, j: int|
        0 <= i < j < raws.len() ==> raws_apart(#[trigger] raws[i], #[trigger] raws[j])
}

fn does_raw_fit(raw: &QuarantineRawInput, manifest: &Manifest) -> (r: bool)
    ensures
        r == raw_fits(*raw, *manifest),
{
    match manifest.get(&raw.asset_id) {
        None => false,
        Some(record) => match decoded_of(&record.nas) {
            None => false,
            Some(nas) => same_path(&raw.path, &record.raw_path) && same_path(
                &raw.path,
                &nas.canonical_path,
            ) && same_text(&raw.source.sha256, &nas.sha256) && raw.source.size_bytes
                == nas.size_bytes && raw.source.device != 0 && raw.source.inode != 0
                && raw.source.link_count == 1,
        },
    }
}

fn do_raws_fit(raws: &Vec<QuarantineRawInput>, manifest: &Manifest) -> (r: bool)
    ensures
        r == raws_fit(raws@, *manifest),
{
    let mut i: usize = 0;
    while i < raws.len()
        invariant
            i <= raws@.len(),
            forall|a: int| 0 <= a < i ==> raw_fits(#[trigger] raws@[a], *manifest),
            forall|a: int, b: int|
                0 <= a < i && b == a + 1 && b < i ==> text::before(
                    (#[trigger] raws@[a]).asset_id@,
                    (#[trigger] raws@[b]).asset_id@,
                ),
            forall|a: int, b: int|
                0 <= a < b < i ==> raws_apart(#[trigger] raws@[a], #[trigger] raws@[b]),
        decreases raws@.len() - i,
    {
        if !does_raw_fit(&raws[i], manifest) {
            return false;
        }
        if i > 0 && !text_before(&raws[i - 1].asset_id, &raws[i].asset_id) {
            assert(!text::before(raws@[i - 1].asset_id@, raws@[i as int].asset_id@));
            return false;
        }
        let mut k: usize = 0;
        while k < i
            invariant
                k <= i < raws@.len(),
                forall|a: int| 0 <= a < k ==> raws_apart(#[trigger] raws@[a], raws@[i as int]),
            decreases i - k,
        {
            if same_path(&raws[k].path, &raws[i].path) || (raws[k].source.device
                == raws[i].source.device && raws[k].source.inode == raws[i].source.inode) {
                assert(!raws_apart(raws@[k as int], raws@[i as int]));
                return false;
            }
            k += 1;
        }
        i += 1;
    }
    true
}

/// The first root that is the very directory, whatever its device is called.
pub open spec fn current_root(
    roots: Seq<QuarantineRoot>,
    sealed: QuarantineRoot,
    from: int,
) -> Option<QuarantineRoot>
    decreases roots.len() - from,
{
    if from < 0 || from >= roots.len() {
        None
    } else if roots[from].same_directory(sealed) {
        Some(roots[from])
    } else {
        current_root(roots, sealed, from + 1)
    }
}

/// For each sealed root, the number that its device had when it was sealed and the number that
/// it has in the document.
pub open spec fn root_pairs(sealed: Seq<QuarantineRoot>, roots: Seq<QuarantineRoot>) -> Seq<
    (u64, u64),
> {
    sealed.map_values(
        |root: QuarantineRoot| (root.device, current_root(roots, root, 0)->0.device),
    )
}

/// A sealed plan can be read with the devices of the document: it has the shape of the document,
/// each of its roots is found there, no two share a device, before or after, and all its files
/// lie on devices of its roots.
pub open spec fn rebasable(
    sealed: LegacyUploadMigrationQuarantinePlan,
    document: EvidenceDocument,
) -> bool {
    let pairs = root_pairs(sealed.roots@, document.quarantine_roots@);
    &&& sealed.schema_version == QUARANTINE_PLAN_SCHEMA_VERSION
    &&& sealed.roots@.len() == document.quarantine_roots@.len()
    &&& sealed.members@.len() == document.quarantine_members@.len()
    &&& sealed.raw_inputs@.len() == document.raw_inputs@.len()
    &&& forall|i: int|
        0 <= i < sealed.roots@.len() ==> {
            &&& current_root(document.quarantine_roots@, #[trigger] sealed.roots@[i], 0) is Some
            &&& sealed.roots@[i].device != 0
            &&& current_root(document.quarantine_roots@, sealed.roots@[i], 0)->0.device != 0
        }
    &&& devices::one_to_one(pairs)
    &&& devices::planned_known(pairs, sealed.members@)
    &&& devices::raws_known(pairs, sealed.raw_inputs@)
}

/// A sealed plan, read with the devices of the document.
pub open spec fn rebased(
    sealed: LegacyUploadMigrationQuarantinePlan,
    document: EvidenceDocument,
) -> PlanContent {
    let pairs = root_pairs(sealed.roots@, document.quarantine_roots@);
    PlanContent {
        schema_version: sealed.schema_version,
        roots: order::sorted(devices::roots_now(pairs, sealed.roots@)),
        members: devices::planned_now(pairs, sealed.members@),
        raw_inputs: devices::raws_now(pairs, sealed.raw_inputs@),
    }
}

fn find_current_root<'a>(roots: &'a Vec<QuarantineRoot>, sealed: &QuarantineRoot) -> (r: Option<
    &'a QuarantineRoot,
>)
    ensures
        match r {
            Some(root) => current_root(roots@, *sealed, 0) == Some(*root),
            None => current_root(roots@, *sealed, 0) is None,
        },
{
    let mut i: usize = 0;
    while i < roots.len()
        invariant
            i <= roots@.len(),
            current_root(roots@, *sealed, 0) == current_root(roots@, *sealed, i as int),
        decreases roots@.len() - i,
    {
        if roots[i].is_same_directory(sealed) {
            return Some(&roots[i]);
        }
        i += 1;
    }
    None
}

fn pair_roots(sealed: &Vec<QuarantineRoot>, roots: &Vec<QuarantineRoot>) -> (r: Option<
    Vec<(u64, u64)>,
>)
    ensures
        r is Some <==> {
            &&& forall|i: int|
                0 <= i < sealed@.len() ==> {
                    &&& current_root(roots@, #[trigger] sealed@[i], 0) is Some
                    &&& sealed@[i].device != 0
                    &&& current_root(roots@, sealed@[i], 0)->0.device != 0
                }
            &&& devices::one_to_one(root_pairs(sealed@, roots@))
        },
        r matches Some(pairs) ==> pairs@ == root_pairs(sealed@, roots@),
{
    let ghost all = root_pairs(sealed@, roots@);
    let mut pairs: Vec<(u64, u64)> = Vec::new();
    let mut i: usize = 0;
    while i < sealed.len()
        invariant
            i <= sealed@.len(),
            all == root_pairs(sealed@, roots@),
            forall|a: int|
                0 <= a < i ==> {
                    &&& current_root(roots@, #[trigger] sealed@[a], 0) is Some
                    &&& sealed@[a].device != 0
                    &&& current_root(roots@, sealed@[a], 0)->0.device != 0
                },
            pairs@ =~= all.take(i as int),
            devices::one_to_one(pairs@),
        decreases sealed@.len() - i,
    {
        match find_current_root(roots, &sealed[i]) {
            None => {
                assert(current_root(roots@, sealed@[i as int], 0) is None);
                return None;
            },
            Some(root) => {
                let old_device: u64 = sealed[i].device;
                let new_device: u64 = root.device;
                if old_device == 0 || new_device == 0 {
                    assert(sealed@[i as int].device == 0 || current_root(
                        roots@,
                        sealed@[i as int],
                        0,
                    )->0.device == 0);
                    return None;
                }
                let mut k: usize = 0;
                while k < pairs.len()
                    invariant
                        k <= pairs@.len(),
                        pairs@.len() == i,
                        i < sealed@.len(),
                        all == root_pairs(sealed@, roots@),
                        pairs@ =~= all.take(i as int),
                        all[i as int] == (old_device, new_device),
                        forall|a: int|
                            0 <= a < k ==> (#[trigger] pairs@[a]).0 != old_device && pairs@[a].1
                                != new_device,
                    decreases pairs@.len() - k,
                {
                    if pairs[k].0 == old_device || pairs[k].1 == new_device {
                        proof {
                            assert(pairs@[k as int] == all[k as int]);
                            assert(!devices::one_to_one(all)) by {
                                if devices::one_to_one(all) {
                                    assert(all[k as int].0 != all[i as int].0 && all[k as int].1
                                        != all[i as int].1);
                                }
                            }
                        }
                        return None;
                    }
                    k += 1;
                }
                pairs.push((old_device, new_device));
            },
        }
        i += 1;
    }
    assert(pairs@ =~= all);
    Some(pairs)
}

/// A sealed plan, read with the devices of the document. The result carries no seal yet.
pub fn draft_rebased_plan(
    sealed: &LegacyUploadMigrationQuarantinePlan,
    document: &EvidenceDocument,
) -> (r: Result<LegacyUploadMigrationQuarantinePlan, LegacyUploadEvidenceError>)
    ensures
        match r {
            Ok(plan) => {
                &&& rebasable(*sealed, *document)
                &&& plan.content() == rebased(*sealed, *document)
                &&& plan.plan_sha256@.len() == 0
            },
            Err(error) => !rebasable(*sealed, *document) && error@ == "quarantine_mapping"@,
        },
{
    if sealed.schema_version != QUARANTINE_PLAN_SCHEMA_VERSION || sealed.roots.len()
        != document.quarantine_roots.len() || sealed.members.len()
        != document.quarantine_members.len() || sealed.raw_inputs.len()
        != document.raw_inputs.len() {
        return Err(failure("quarantine_mapping"));
    }
    match pair_roots(&sealed.roots, &document.quarantine_roots) {
        None => Err(failure("quarantine_mapping")),
        Some(pairs) => {
            match (
                renumber_roots(&pairs, &sealed.roots),
                renumber_planned(&pairs, &sealed.members),
                renumber_raws(&pairs, &sealed.raw_inputs),
            ) {
                (Some(roots), Some(members), Some(raw_inputs)) => {
                    let roots = stable_sort(roots);
                    Ok(
                        LegacyUploadMigrationQuarantinePlan {
                            schema_version: sealed.schema_version,
                            roots,
                            members,
                            raw_inputs,
                            plan_sha256: String::new(),
                        },
                    )
                },
                _ => {
                    proof {
                        sealed_roots_are_known(sealed.roots@, document.quarantine_roots@);
                    }
                    Err(failure("quarantine_mapping"))
                },
            }
        },
    }
}

proof fn sealed_roots_are_known(sealed: Seq<QuarantineRoot>, roots: Seq<QuarantineRoot>)
    ensures
        devices::roots_known(root_pairs(sealed, roots), sealed),
{
    let pairs = root_pairs(sealed, roots);
    assert forall|i: int| 0 <= i < sealed.len() implies devices::known(
        pairs,
        (#[trigger] sealed[i]).device,
    ) by {
        assert(pairs[i].0 == sealed[i].device);
        devices::pair_is_found(pairs, sealed[i].device, 0, i);
    }
}

/// What the document plans.
pub open spec fn drafted(document: EvidenceDocument, destinations: Seq<Option<String>>) -> PlanContent {
    PlanContent {
        schema_version: QUARANTINE_PLAN_SCHEMA_VERSION,
        roots: document.quarantine_roots@,
        members: planned_members(document, destinations),
        raw_inputs: document.raw_inputs@,
    }
}

/// The category under which a document makes no plan, or nothing where it makes one.
pub open spec fn plan_refusal(
    document: EvidenceDocument,
    manifest: Manifest,
    destinations: Seq<Option<String>>,
) -> Option<Seq<char>> {
    if document.quarantine_roots@.len() == 0 || document.quarantine_members@.len()
        != QUARANTINE_MEMBER_COUNT || !roots_usable(document.quarantine_roots@) {
        Some("quarantine_mapping"@)
    } else {
        match gathered_from(document.retired_replacements@, manifest) {
            Err(category) => Some(category),
            Ok(gathered) => {
                let expected = with_references(
                    gathered.expected,
                    document.reference_normalizations@,
                );
                let resumed = gathered.resumed is Some;
                let phase = cohort_phase(document, manifest);
                if resumed && phase is Err {
                    Some(phase->Err_0)
                } else if resumed && !(phase->Ok_0 matches Some(reached) && reached.ordinal()
                    >= LegacyUploadMigrationPhase::Reset.ordinal()) {
                    Some("replacement_cohort"@)
                } else if !resumed && expected.dom().len() != QUARANTINE_MEMBER_COUNT {
                    Some("quarantine_mapping"@)
                } else if !members_fit(document, expected, resumed, destinations)
                    || !all_expected_listed(document, expected) {
                    Some("quarantine_mapping"@)
                } else if document.raw_inputs@.len() != ASSET_COUNT || !raws_fit(
                    document.raw_inputs@,
                    manifest,
                ) {
                    Some("raw_binding"@)
                } else {
                    None
                }
            },
        }
    }
}

/// A cohort is worked off once at least one of its journals has reached the reset; its phase is
/// then read off the first two replacements.
pub open spec fn replacements_readable(document: EvidenceDocument, manifest: Manifest) -> bool {
    document.retired_replacements@.len() == 1 ==> !(manifest.record(
        document.retired_replacements@[0].asset_id@,
    ) matches Some(record) && record.resumed())
}

/// The plan of a document, without its seal.
pub fn draft_quarantine_plan(
    document: &EvidenceDocument,
    manifest: &Manifest,
    destinations: &Vec<Option<String>>,
) -> (r: Result<LegacyUploadMigrationQuarantinePlan, LegacyUploadEvidenceError>)
    requires
        replacements_readable(*document, *manifest),
    ensures
        match r {
            Ok(plan) => {
                &&& plan_refusal(*document, *manifest, destinations@) is None
                &&& plan.content() == drafted(*document, destinations@)
                &&& plan.plan_sha256@.len() == 0
            },
            Err(error) => plan_refusal(*document, *manifest, destinations@) == Some(error@),
        },
{
    if document.quarantine_roots.len() == 0 || document.quarantine_members.len()
        != QUARANTINE_MEMBER_COUNT || !are_roots_usable(&document.quarantine_roots) {
        return Err(failure("quarantine_mapping"));
    }
    let mut entries: Vec<ExpectedMember> = Vec::new();
    let resumed = match gather(&document.retired_replacements, manifest, &mut entries) {
        Err(error) => {
            return Err(error);
        },
        Ok(resumed) => resumed,
    };
    let ghost gathered = gathered_from(document.retired_replacements@, *manifest)->Ok_0;
    expect_references(&document.reference_normalizations, &mut entries);
    let ghost expected = with_references(gathered.expected, document.reference_normalizations@);
    if resumed.is_some() {
        proof {
            resumed_cohort_is_readable(*document, *manifest);
        }
        match coherent_retired_replacement_phase(document, manifest) {
            Err(error) => {
                return Err(error);
            },
            Ok(phase) => {
                let past_reset: bool = match phase {
                    Some(reached) => reached.index() >= LegacyUploadMigrationPhase::Reset.index(),
                    None => false,
                };
                if !past_reset {
                    return Err(failure("replacement_cohort"));
                }
            },
        }
    } else {
        proof {
            listed_entries(entries@);
        }
        if entries.len() != QUARANTINE_MEMBER_COUNT {
            return Err(failure("quarantine_mapping"));
        }
    }
    let members = match plan_members(document, &entries, resumed.is_some(), destinations) {
        None => {
            return Err(failure("quarantine_mapping"));
        },
        Some(members) => members,
    };
    if !are_all_expected_listed(document, &entries) {
        return Err(failure("quarantine_mapping"));
    }
    if document.raw_inputs.len() != ASSET_COUNT || !do_raws_fit(&document.raw_inputs, manifest) {
        return Err(failure("raw_binding"));
    }
    let plan = LegacyUploadMigrationQuarantinePlan {
        schema_version: QUARANTINE_PLAN_SCHEMA_VERSION,
        roots: document.quarantine_roots.clone(),
        members,
        raw_inputs: document.raw_inputs.clone(),
        plan_sha256: String::new(),
    };
    assert(plan.roots@ =~= document.quarantine_roots@);
    assert(plan.raw_inputs@ =~= document.raw_inputs@);
    assert(plan.content() =~= drafted(*document, destinations@));
    Ok(plan)
}

proof fn resumed_from_a_record(
    replacements: Seq<EvidenceRetiredReplacement>,
    manifest: Manifest,
)
    requires
        gathered_from(replacements, manifest) matches Ok(gathered) && gathered.resumed is Some,
    ensures
        exists|i: int|
            0 <= i < replacements.len() && (manifest.record(
                (#[trigger] replacements[i]).asset_id@,
            ) matches Some(record) && record.resumed()),
    decreases replacements.len(),
{
    let front = replacements.drop_last();
    let last = replacements.last();
    let record = manifest.record(last.asset_id@)->0;
    if record.resumed() {
        assert(replacements[replacements.len() - 1] == last);
    } else {
        resumed_from_a_record(front, manifest);
        let i = choose|i: int|
            0 <= i < front.len() && (manifest.record(
                (#[trigger] front[i]).asset_id@,
            ) matches Some(record) && record.resumed());
        assert(replacements[i] == front[i]);
    }
}

proof fn resumed_cohort_is_readable(document: EvidenceDocument, manifest: Manifest)
    requires
        replacements_readable(document, manifest),
        gathered_from(document.retired_replacements@, manifest) matches Ok(gathered)
            && gathered.resumed is Some,
    ensures
        document.retired_replacements@.len() >= RETIRED_REPLACEMENT_COUNT,
{
    resumed_from_a_record(document.retired_replacements@, manifest);
}

/// Every member is to be moved on the device where it lies.
pub open spec fn moves_stay_on_device(members: Seq<LegacyUploadMigrationQuarantineMember>) -> bool {
    forall|i: int|
        0 <= i < members.len() ==> (#[trigger] members[i]).root_device == members[i].source.device
}

/// Seals a plan with the SHA-256 of its canonical JSON. Refused as `quarantine_mapping` where
/// the plan has none, or where a member is to be moved to another device.
pub fn seal_legacy_upload_migration_quarantine_plan(
    plan: LegacyUploadMigrationQuarantinePlan,
    plan_json: &Option<Vec<u8>>,
) -> (r: Result<LegacyUploadMigrationQuarantinePlan, LegacyUploadEvidenceError>)
    ensures
        match r {
            Ok(sealed) => {
                &&& moves_stay_on_device(plan.members@)
                &&& plan_json matches Some(json) && sealed.plan_sha256@ == digest::sha256_hex(json@)
                &&& sealed.content() == plan.content()
            },
            Err(error) => (plan_json is None || !moves_stay_on_device(plan.members@)) && error@
                == "quarantine_mapping"@,
        },
{
    let mut i: usize = 0;
    while i < plan.members.len()
        invariant
            i <= plan.members@.len(),
            forall|j: int|
                0 <= j < i ==> (#[trigger] plan.members@[j]).root_device
                    == plan.members@[j].source.device,
        decreases plan.members@.len() - i,
    {
        if plan.members[i].root_device != plan.members[i].source.device {
            return Err(failure("quarantine_mapping"));
        }
        i += 1;
    }
    match plan_json {
        None => Err(failure("quarantine_mapping")),
        Some(json) => {
            let mut sealed = plan;
            sealed.plan_sha256 = sha256_bytes(json);
            Ok(sealed)
        },
    }
}

/// A sealed plan can be read with the devices of the document and sealed again.
pub open spec fn resealable(
    sealed: LegacyUploadMigrationQuarantinePlan,
    document: EvidenceDocument,
    rebased_json: Option<Vec<u8>>,
) -> bool {
    &&& rebasable(sealed, document)
    &&& moves_stay_on_device(rebased(sealed, document).members)
    &&& rebased_json is Some
}

/// A sealed plan, read with the devices of the document and sealed again with the SHA-256 of
/// the canonical JSON that it then has.
pub fn rebase_sealed_quarantine_plan_devices(
    sealed: &LegacyUploadMigrationQuarantinePlan,
    document: &EvidenceDocument,
    rebased_json: &Option<Vec<u8>>,
) -> (r: Result<LegacyUploadMigrationQuarantinePlan, LegacyUploadEvidenceError>)
    ensures
        match r {
            Ok(plan) => {
                &&& resealable(*sealed, *document, *rebased_json)
                &&& plan.content() == rebased(*sealed, *document)
                &&& plan.plan_sha256@ == digest::sha256_hex(rebased_json->0@)
            },
            Err(error) => !resealable(*sealed, *document, *rebased_json) && error@
                == "quarantine_mapping"@,
        },
{
    match draft_rebased_plan(sealed, document) {
        Err(error) => Err(error),
        Ok(moved) => {
            assert(moved.members@ == rebased(*sealed, *document).members);
            seal_legacy_upload_migration_quarantine_plan(moved, rebased_json)
        },
    }
}

/// The plan that the journals of the cohort already follow, or nothing where none follows one.
pub open spec fn resumed_plan(document: EvidenceDocument, manifest: Manifest) -> Option<
    LegacyUploadMigrationQuarantinePlan,
> {
    match gathered_from(document.retired_replacements@, manifest) {
        Ok(gathered) => gathered.resumed,
        Err(_) => None,
    }
}

/// The plan that the journals of the cohort already follow, read with the devices of the document
/// and without a seal; nothing where no journal follows one, or where it cannot be read so.
pub fn draft_resumed_plan(document: &EvidenceDocument, manifest: &Manifest) -> (r: Option<
    LegacyUploadMigrationQuarantinePlan,
>)
    ensures
        match r {
            Some(plan) => {
                &&& resumed_plan(*document, *manifest) matches Some(sealed) && rebasable(
                    sealed,
                    *document,
                ) && plan.content() == rebased(sealed, *document)
                &&& plan.plan_sha256@.len() == 0
            },
            None => !(resumed_plan(*document, *manifest) matches Some(sealed) && rebasable(
                sealed,
                *document,
            )),
        },
{
    let mut entries: Vec<ExpectedMember> = Vec::new();
    match gather(&document.retired_replacements, manifest, &mut entries) {
        Ok(Some(sealed)) => match draft_rebased_plan(sealed, document) {
            Ok(plan) => Some(plan),
            Err(_) => None,
        },
        _ => None,
    }
}

/// The document's plan is the one that the journals already follow, read with the devices of the
/// document, down to the seal.
pub open spec fn resumption_stands(
    sealed: LegacyUploadMigrationQuarantinePlan,
    document: EvidenceDocument,
    inputs: PlanInputs,
) -> bool {
    &&& resealable(sealed, document, inputs.rebased_json)
    &&& rebased(sealed, document).same(drafted(document, inputs.destinations@))
    &&& digest::sha256_hex(inputs.rebased_json->0@) == plan_seal(inputs)
}

/// The category under which a document's sealed plan is refused, or nothing where it stands.
pub open spec fn sealed_plan_refusal(
    document: EvidenceDocument,
    manifest: Manifest,
    inputs: PlanInputs,
) -> Option<Seq<char>> {
    match plan_refusal(document, manifest, inputs.destinations@) {
        Some(category) => Some(category),
        None => if inputs.plan_json is None {
            Some("quarantine_mapping"@)
        } else if resumed_plan(document, manifest) matches Some(sealed) && !resumption_stands(
            sealed,
            document,
            inputs,
        ) {
            Some("quarantine_mapping"@)
        } else {
            None
        },
    }
}

/// The seal of a plan that stands.
pub open spec fn plan_seal(inputs: PlanInputs) -> Seq<char> {
    digest::sha256_hex(inputs.plan_json->0@)
}

/// The sealed plan of a document.
pub fn quarantine_plan_from_document(
    document: &EvidenceDocument,
    manifest: &Manifest,
    inputs: &PlanInputs,
) -> (r: Result<LegacyUploadMigrationQuarantinePlan, LegacyUploadEvidenceError>)
    requires
        replacements_readable(*document, *manifest),
    ensures
        match r {
            Ok(plan) => {
                &&& sealed_plan_refusal(*document, *manifest, *inputs) is None
                &&& plan.content() == drafted(*document, inputs.destinations@)
                &&& plan.plan_sha256@ == plan_seal(*inputs)
            },
            Err(error) => sealed_plan_refusal(*document, *manifest, *inputs) == Some(error@),
        },
{
    match draft_quarantine_plan(document, manifest, &inputs.destinations) {
        Err(error) => Err(error),
        Ok(plan) => {
            proof {
                drafted_moves_stay_on_device(*document, *manifest, inputs.destinations@);
            }
            let plan = match seal_legacy_upload_migration_quarantine_plan(plan, &inputs.plan_json) {
                Err(error) => {
                    return Err(error);
                },
                Ok(plan) => plan,
            };
            let mut entries: Vec<ExpectedMember> = Vec::new();
            match gather(&document.retired_replacements, manifest, &mut entries) {
                Err(error) => Err(error),
                Ok(None) => Ok(plan),
                Ok(Some(sealed)) => match rebase_sealed_quarantine_plan_devices(
                    sealed,
                    document,
                    &inputs.rebased_json,
                ) {
                    Err(error) => Err(error),
                    Ok(moved) => if moved.is_same(&plan) {
                        Ok(plan)
                    } else {
                        Err(failure("quarantine_mapping"))
                    },
                },
            }
        },
    }
}

/// A document that makes a plan moves every file on the device where it lies.
pub proof fn drafted_moves_stay_on_device(
    document: EvidenceDocument,
    manifest: Manifest,
    destinations: Seq<Option<String>>,
)
    requires
        plan_refusal(document, manifest, destinations) is None,
    ensures
        moves_stay_on_device(drafted(document, destinations).members),
{
    let members = document.quarantine_members@;
    assert forall|i: int| 0 <= i < members.len() implies (#[trigger] members[i]).root_device
        == members[i].source.device by {
        let gathered = gathered_from(document.retired_replacements@, manifest)->Ok_0;
        let expected = with_references(gathered.expected, document.reference_normalizations@);
        assert(member_fits(document, expected, gathered.resumed is Some, destinations, i));
    }
    let planned = drafted(document, destinations).members;
    assert forall|i: int| 0 <= i < planned.len() implies (#[trigger] planned[i]).root_device
        == planned[i].source.device by {
        assert(members[i].root_device == members[i].source.device);
    }
}

proof fn member_keys_ascend(
    members: Seq<EvidenceQuarantineMember>,
    i: int,
    j: int,
)
    requires
        forall|a: int, b: int|
            0 <= a < members.len() && b == a + 1 && b < members.len() ==> quarantine::key_before(
                (#[trigger] members[a]).asset_id@,
                members[a].kind,
                (#[trigger] members[b]).asset_id@,
                members[b].kind,
            ),
        0 <= i < j < members.len(),
    ensures
        quarantine::key_before(
            members[i].asset_id@,
            members[i].kind,
            members[j].asset_id@,
            members[j].kind,
        ),
    decreases j - i,
{
    if i + 1 < j {
        member_keys_ascend(members, i, j - 1);
        quarantine::key_before_is_transitive(
            members[i].asset_id@,
            members[i].kind,
            members[j - 1].asset_id@,
            members[j - 1].kind,
            members[j].asset_id@,
            members[j].kind,
        );
    }
}

/// A document that makes a plan names every file once: no two of its members are of one kind of
/// one asset.
pub proof fn planned_members_are_distinct(
    document: EvidenceDocument,
    manifest: Manifest,
    destinations: Seq<Option<String>>,
    i: int,
    j: int,
)
    requires
        plan_refusal(document, manifest, destinations) is None,
        0 <= i < j < document.quarantine_members@.len(),
    ensures
        !(document.quarantine_members@[i].asset_id@ == document.quarantine_members@[j].asset_id@
            && document.quarantine_members@[i].kind == document.quarantine_members@[j].kind),
        members_apart(document.quarantine_members@[i], document.quarantine_members@[j]),
{
    let members = document.quarantine_members@;
    member_keys_ascend(members, i, j);
    quarantine::key_before_is_irreflexive(members[i].asset_id@, members[i].kind);
}

/// Reading a sealed plan with other devices changes nothing but the numbers of devices, and keeps
/// together what lay together and apart what lay apart.
pub proof fn rebasing_changes_devices_alone(
    sealed: LegacyUploadMigrationQuarantinePlan,
    document: EvidenceDocument,
    i: int,
    j: int,
)
    requires
        rebasable(sealed, document),
        0 <= i < sealed.members@.len(),
        0 <= j < sealed.members@.len(),
    ensures
        rebased(sealed, document).members.len() == sealed.members@.len(),
        rebased(sealed, document).members[i] == sealed.members@[i].on_devices(
            rebased(sealed, document).members[i].source.device,
            rebased(sealed, document).members[i].root_device,
        ),
        rebased(sealed, document).members[i].source.device == rebased(
            sealed,
            document,
        ).members[j].source.device <==> sealed.members@[i].source.device
            == sealed.members@[j].source.device,
{
    let pairs = root_pairs(sealed.roots@, document.quarantine_roots@);
    devices::renumbering_keeps_devices_apart(
        pairs,
        sealed.members@[i].source.device,
        sealed.members@[j].source.device,
    );
}

proof fn own_directory_is_found(roots: Seq<QuarantineRoot>, i: int, from: int) -> (k: int)
    requires
        0 <= from <= i < roots.len(),
    ensures
        from <= k <= i,
        current_root(roots, roots[i], from) == Some(roots[k]),
        roots[k].same_directory(roots[i]),
        forall|a: int| from <= a < k ==> !(#[trigger] roots[a]).same_directory(roots[i]),
    decreases i - from,
{
    if roots[from].same_directory(roots[i]) {
        from
    } else {
        own_directory_is_found(roots, i, from + 1)
    }
}

/// Reading a sealed plan with the very devices that it was sealed with changes none of its files.
pub proof fn rebasing_in_place_changes_nothing(
    sealed: LegacyUploadMigrationQuarantinePlan,
    document: EvidenceDocument,
)
    requires
        rebasable(sealed, document),
        document.quarantine_roots@ == sealed.roots@,
    ensures
        rebased(sealed, document).members == sealed.members@,
        rebased(sealed, document).raw_inputs == sealed.raw_inputs@,
        rebased(sealed, document).roots == order::sorted(sealed.roots@),
{
    let roots = sealed.roots@;
    let pairs = root_pairs(roots, roots);
    assert forall|i: int| 0 <= i < roots.len() implies (#[trigger] pairs[i]).1 == pairs[i].0 by {
        let k = own_directory_is_found(roots, i, 0);
        let m = own_directory_is_found(roots, k, 0);
        if m < k {
            assert(roots[m].same_directory(roots[i]));
        }
        assert(pairs[k].1 == roots[k].device);
        assert(pairs[i].1 == roots[k].device);
        if k < i {
            assert(pairs[k].1 != pairs[i].1);
        }
    }
    assert forall|device: u64| #[trigger] devices::known(pairs, device) implies devices::now(
        pairs,
        device,
    ) == device by {
        devices::renumbered_from_a_pair(pairs, device, 0);
        let k = choose|k: int|
            0 <= k < pairs.len() && #[trigger] pairs[k] == (device, devices::now(pairs, device));
        assert(pairs[k].1 == pairs[k].0);
    }
    let now = rebased(sealed, document);
    assert forall|i: int| 0 <= i < sealed.members@.len() implies now.members[i]
        == #[trigger] sealed.members@[i] by {
        assert(devices::known(pairs, sealed.members@[i].source.device));
        assert(devices::known(pairs, sealed.members@[i].root_device));
    }
    assert(now.members =~= sealed.members@);
    assert forall|i: int| 0 <= i < sealed.raw_inputs@.len() implies now.raw_inputs[i]
        == #[trigger] sealed.raw_inputs@[i] by {
        assert(devices::known(pairs, sealed.raw_inputs@[i].source.device));
    }
    assert(now.raw_inputs =~= sealed.raw_inputs@);
    assert forall|i: int| 0 <= i < roots.len() implies devices::roots_now(pairs, roots)[i]
        == #[trigger] roots[i] by {
        assert(pairs[i].0 == roots[i].device);
        devices::pair_is_found(pairs, roots[i].device, 0, i);
        assert(devices::known(pairs, roots[i].device));
    }
    assert(devices::roots_now(pairs, roots) =~= roots);
}

/// The phase of a retired upload is that of the last entry of its valid journal; there is none
/// without a journal, and a journal that is not valid or has no entry is refused.
pub proof fn phases_are_those_of_the_last_entry(
    manifest: Manifest,
    id: Seq<char>,
    record: AssetRecord,
)
    requires
        manifest.record(id) == Some(record),
    ensures
        record.journal is Absent ==> replacement_phase(manifest, id) == Ok::<
            Option<LegacyUploadMigrationPhase>,
            Seq<char>,
        >(None),
        record.journal is Valid && record.journal->Valid_0.entries@.len() > 0
            ==> replacement_phase(manifest, id) == Ok::<
            Option<LegacyUploadMigrationPhase>,
            Seq<char>,
        >(Some(record.journal->Valid_0.entries@.last().phase)),
        record.journal is Valid && record.journal->Valid_0.entries@.len() == 0
            ==> replacement_phase(manifest, id) is Err,
        !(record.journal is Absent) && !(record.journal is Valid) ==> replacement_phase(
            manifest,
            id,
        ) is Err,
{
}

/// The cohort is in a phase exactly if both retired uploads are.
pub proof fn cohorts_are_where_both_uploads_are(
    document: EvidenceDocument,
    manifest: Manifest,
    phase: Option<LegacyUploadMigrationPhase>,
)
    ensures
        cohort_phase(document, manifest) == Ok::<Option<LegacyUploadMigrationPhase>, Seq<char>>(
            phase,
        ) <==> replacement_phase(manifest, document.retired_replacements@[0].asset_id@) == Ok::<
            Option<LegacyUploadMigrationPhase>,
            Seq<char>,
        >(phase) && replacement_phase(manifest, document.retired_replacements@[1].asset_id@)
            == Ok::<Option<LegacyUploadMigrationPhase>, Seq<char>>(phase),
{
}

/// Roots can be used exactly if each lies at a safe place, is a directory that only its owner may
/// enter, and each later one is on a larger device.
pub proof fn usable_roots_ascend_by_device(roots: Seq<QuarantineRoot>, added: QuarantineRoot)
    ensures
        roots_usable(Seq::empty()),
        roots_usable(roots.push(added)) <==> {
            &&& roots_usable(roots)
            &&& path::safe_place(added.canonical_path@)
            &&& added.device > 0
            &&& added.inode > 0
            &&& added.mode == 448
            &&& roots.len() > 0 ==> roots.last().device < added.device
        },
{
    let all = roots.push(added);
    if roots_usable(all) {
        assert forall|i: int| 0 <= i < roots.len() implies {
            &&& path::safe_place((#[trigger] roots[i]).canonical_path@)
            &&& roots[i].device != 0
            &&& roots[i].inode != 0
            &&& roots[i].mode == QUARANTINE_ROOT_MODE
        } by {
            assert(all[i] == roots[i]);
        }
        assert forall|i: int, j: int| 0 <= i < j < roots.len() implies (#[trigger] roots[i]).device
            < (#[trigger] roots[j]).device by {
            assert(all[i] == roots[i] && all[j] == roots[j]);
        }
        assert(all[roots.len() as int] == added);
        if roots.len() > 0 {
            assert(all[roots.len() - 1] == roots.last());
        }
    }
    if {
        &&& roots_usable(roots)
        &&& path::safe_place(added.canonical_path@)
        &&& added.device > 0
        &&& added.inode > 0
        &&& added.mode == 448
        &&& roots.len() > 0 ==> roots.last().device < added.device
    } {
        assert forall|i: int| 0 <= i < all.len() implies {
            &&& path::safe_place((#[trigger] all[i]).canonical_path@)
            &&& all[i].device != 0
            &&& all[i].inode != 0
            &&& all[i].mode == QUARANTINE_ROOT_MODE
        } by {
            if i < roots.len() {
                assert(all[i] == roots[i]);
            }
        }
        assert forall|i: int, j: int| 0 <= i < j < all.len() implies (#[trigger] all[i]).device < (
        #[trigger] all[j]).device by {
            assert(all[i] == roots[i]);
            assert(roots.last() == roots[roots.len() - 1]);
            if j < roots.len() {
                assert(all[j] == roots[j]);
            }
        }
    }
}

/// A member fits that is expected exactly if it lies where it is expected, with the content that is
/// expected where one is, is one file with content and no other name, moves within its device to a
/// root there, is the file of its reference where it is one, and has a destination.
pub proof fn expected_members_fit_where_they_lie(
    document: EvidenceDocument,
    expected: Map<(Seq<char>, LegacyUploadMigrationQuarantineKind), Expectation>,
    resumed: bool,
    destinations: Seq<Option<String>>,
    i: int,
    wanted: Expectation,
)
    requires
        0 <= i < document.quarantine_members@.len(),
        i < destinations.len(),
        ({
            let member = document.quarantine_members@[i];
            &&& expected.dom().contains((member.asset_id@, member.kind))
            &&& expected[(member.asset_id@, member.kind)] == wanted
        }),
    ensures
        member_fits(document, expected, resumed, destinations, i) <==> {
            let member = document.quarantine_members@[i];
            &&& path::same_place(member.source_path@, wanted.path)
            &&& wanted.content matches Some((sha256, size)) ==> member.source.sha256@ == sha256
                && member.source.size_bytes == size
            &&& identity::digest_text(member.source.sha256@)
            &&& member.source.size_bytes > 0
            &&& member.source.device > 0
            &&& member.source.inode > 0
            &&& member.source.link_count == 1
            &&& member.root_device == member.source.device
            &&& exists|k: int|
                0 <= k < document.quarantine_roots@.len() && (
                #[trigger] document.quarantine_roots@[k]).device == member.source.device
            &&& member.kind is Reference ==> forall|k: int|
                0 <= k < document.reference_normalizations@.len() && (
                #[trigger] document.reference_normalizations@[k]).asset_id@ == member.asset_id@
                    ==> document.reference_normalizations@[k].device == member.source.device
                    && document.reference_normalizations@[k].inode == member.source.inode
            &&& destinations[i] is Some
        },
{
}

/// A member that is not expected fits only once the cohort is resumed, and only if it is the HEIC or
/// the mirror of a retired upload.
pub proof fn other_members_fit_once_resumed(
    document: EvidenceDocument,
    expected: Map<(Seq<char>, LegacyUploadMigrationQuarantineKind), Expectation>,
    resumed: bool,
    destinations: Seq<Option<String>>,
    i: int,
)
    requires
        0 <= i < document.quarantine_members@.len(),
        ({
            let member = document.quarantine_members@[i];
            !expected.dom().contains((member.asset_id@, member.kind))
        }),
    ensures
        member_fits(document, expected, resumed, destinations, i) ==> {
            let member = document.quarantine_members@[i];
            &&& resumed
            &&& !(member.kind is Reference)
            &&& exists|k: int|
                0 <= k < document.retired_replacements@.len() && (
                #[trigger] document.retired_replacements@[k]).asset_id@ == member.asset_id@
        },
        ({
            let member = document.quarantine_members@[i];
            &&& resumed
            &&& !(member.kind is Reference)
            &&& document::retires(document.retired_replacements@, member.asset_id@)
            &&& identity::digest_text(member.source.sha256@)
            &&& member.source.size_bytes > 0
            &&& member.source.device > 0
            &&& member.source.inode > 0
            &&& member.source.link_count == 1
            &&& member.root_device == member.source.device
            &&& root_on(document.quarantine_roots@, member.source.device)
            &&& i < destinations.len()
            &&& destinations[i] is Some
        }) ==> member_fits(document, expected, resumed, destinations, i),
{
}

/// Two members, and two originals, are apart exactly if they are at two places and are two files,
/// whichever comes first.
pub proof fn files_are_apart_by_place_and_number(
    a: EvidenceQuarantineMember,
    b: EvidenceQuarantineMember,
    c: QuarantineRawInput,
    d: QuarantineRawInput,
)
    ensures
        members_apart(a, b) <==> !path::same_place(a.source_path@, b.source_path@) && (
        a.source.device != b.source.device || a.source.inode != b.source.inode),
        members_apart(a, b) == members_apart(b, a),
        raws_apart(c, d) <==> !path::same_place(c.path@, d.path@) && (c.source.device
            != d.source.device || c.source.inode != d.source.inode),
        raws_apart(c, d) == raws_apart(d, c),
{
}

/// An original fits exactly if it lies where its record and its proof say, has the content that the
/// proof says, and is one file with no other name.
pub proof fn originals_fit_their_proof(
    raw: QuarantineRawInput,
    manifest: Manifest,
    record: AssetRecord,
    nas: manifest::NasRawProof,
)
    requires
        manifest.record(raw.asset_id@) == Some(record),
        record.nas is Some,
        record.nas->0.decoded == Some(nas),
    ensures
        raw_fits(raw, manifest) <==> {
            &&& path::same_place(raw.path@, record.raw_path@)
            &&& path::same_place(raw.path@, nas.canonical_path@)
            &&& raw.source.sha256@ == nas.sha256@
            &&& raw.source.size_bytes == nas.size_bytes
            &&& raw.source.device > 0
            &&& raw.source.inode > 0
            &&& raw.source.link_count == 1
        },
{
}

/// Two retired uploads that are not resumed make four members expected: the HEIC of each where it
/// was uploaded from, with any content, and the mirror of each where it was made, with the content
/// of the upload.
pub proof fn retired_uploads_expect_two_members_each(
    a: EvidenceRetiredReplacement,
    b: EvidenceRetiredReplacement,
    manifest: Manifest,
    first: AssetRecord,
    second: AssetRecord,
)
    requires
        manifest.record(a.asset_id@) == Some(first),
        manifest.record(b.asset_id@) == Some(second),
        a.asset_id@ != b.asset_id@,
        !first.resumed(),
        !second.resumed(),
        first.uploaded_path() is Some,
        first.mirror_path() is Some,
        second.uploaded_path() is Some,
        second.mirror_path() is Some,
    ensures
        ({
            let gathered = gathered_from(seq![a, b], manifest);
            &&& gathered is Ok
            &&& gathered->Ok_0.resumed is None
            &&& gathered->Ok_0.expected.dom() == set![
                (a.asset_id@, LegacyUploadMigrationQuarantineKind::Final),
                (a.asset_id@, LegacyUploadMigrationQuarantineKind::OldMirror),
                (b.asset_id@, LegacyUploadMigrationQuarantineKind::Final),
                (b.asset_id@, LegacyUploadMigrationQuarantineKind::OldMirror),
            ]
            &&& gathered->Ok_0.expected[(
                a.asset_id@,
                LegacyUploadMigrationQuarantineKind::Final,
            )] == Expectation { path: first.uploaded_path()->0, content: None }
            &&& gathered->Ok_0.expected[(
                b.asset_id@,
                LegacyUploadMigrationQuarantineKind::Final,
            )] == Expectation { path: second.uploaded_path()->0, content: None }
            &&& gathered->Ok_0.expected[(
                a.asset_id@,
                LegacyUploadMigrationQuarantineKind::OldMirror,
            )] == Expectation {
                path: first.mirror_path()->0,
                content: Some((a.uploaded_heic_sha256@, a.uploaded_heic_size_bytes)),
            }
            &&& gathered->Ok_0.expected[(
                b.asset_id@,
                LegacyUploadMigrationQuarantineKind::OldMirror,
            )] == Expectation {
                path: second.mirror_path()->0,
                content: Some((b.uploaded_heic_sha256@, b.uploaded_heic_size_bytes)),
            }
        }),
{
    reveal_with_fuel(gathered_from, 3);
    let both = seq![a, b];
    assert(both.drop_last() =~= seq![a]);
    assert(seq![a].drop_last() =~= Seq::empty());
    assert(both.last() == b);
    assert(seq![a].last() == a);
    let gathered = gathered_from(both, manifest);
    assert(gathered->Ok_0.expected.dom() =~= set![
        (a.asset_id@, LegacyUploadMigrationQuarantineKind::Final),
        (a.asset_id@, LegacyUploadMigrationQuarantineKind::OldMirror),
        (b.asset_id@, LegacyUploadMigrationQuarantineKind::Final),
        (b.asset_id@, LegacyUploadMigrationQuarantineKind::OldMirror),
    ]);
}

/// Two uploads that are resumed are gathered exactly if their journals hold the same plan, and then
/// no member of theirs is expected anywhere.
pub proof fn resumed_uploads_share_a_plan(
    a: EvidenceRetiredReplacement,
    b: EvidenceRetiredReplacement,
    manifest: Manifest,
    first: AssetRecord,
    second: AssetRecord,
)
    requires
        manifest.record(a.asset_id@) == Some(first),
        manifest.record(b.asset_id@) == Some(second),
        first.resumed(),
        second.resumed(),
    ensures
        gathered_from(seq![a, b], manifest) is Ok
            <==> first.valid_journal()->0.identity.quarantine_plan.same(
            second.valid_journal()->0.identity.quarantine_plan,
        ),
        gathered_from(seq![a, b], manifest) is Ok ==> gathered_from(
            seq![a, b],
            manifest,
        )->Ok_0.expected == Map::<
            (Seq<char>, LegacyUploadMigrationQuarantineKind),
            Expectation,
        >::empty() && gathered_from(seq![a, b], manifest)->Ok_0.resumed == Some(
            second.valid_journal()->0.identity.quarantine_plan,
        ),
{
    reveal_with_fuel(gathered_from, 3);
    let both = seq![a, b];
    assert(both.drop_last() =~= seq![a]);
    assert(seq![a].drop_last() =~= Seq::empty());
    assert(both.last() == b);
    assert(seq![a].last() == a);
}

/// Every reference makes its own file expected where it lies, with its content, and leaves all that
/// is expected of other assets as it was.
pub proof fn references_are_expected_where_they_lie(
    expected: Map<(Seq<char>, LegacyUploadMigrationQuarantineKind), Expectation>,
    references: Seq<EvidenceReferenceNormalization>,
    added: EvidenceReferenceNormalization,
    key: (Seq<char>, LegacyUploadMigrationQuarantineKind),
)
    ensures
        with_references(expected, Seq::empty()) == expected,
        with_references(expected, references.push(added)).dom().contains(key) <==> with_references(
            expected,
            references,
        ).dom().contains(key) || key == (
            added.asset_id@,
            LegacyUploadMigrationQuarantineKind::Reference,
        ),
        with_references(expected, references.push(added))[(
            added.asset_id@,
            LegacyUploadMigrationQuarantineKind::Reference,
        )] == (Expectation {
            path: added.reference_path@,
            content: Some((added.file_sha256@, added.size_bytes)),
        }),
        key.0 != added.asset_id@ || !(key.1 is Reference) ==> with_references(
            expected,
            references.push(added),
        )[key] == with_references(expected, references)[key],
{
    assert(references.push(added).drop_last() =~= references);
    assert(references.push(added).last() == added);
}

proof fn root_found_from(
    roots: Seq<QuarantineRoot>,
    sealed: QuarantineRoot,
    i: int,
    from: int,
)
    requires
        0 <= i < roots.len(),
        0 <= from <= roots.len(),
        forall|j: int|
            0 <= j < roots.len() && j != i ==> !(#[trigger] roots[j]).same_directory(sealed),
    ensures
        current_root(roots, sealed, from) == (if from <= i && roots[i].same_directory(sealed) {
            Some(roots[i])
        } else {
            None
        }),
    decreases roots.len() - from,
{
    if from < roots.len() {
        root_found_from(roots, sealed, i, from + 1);
    }
}

/// A sealed root is found again as the one root at the same place with the same inode, owner and
/// mode, on whatever device it is.
pub proof fn sealed_roots_are_found_on_any_device(
    roots: Seq<QuarantineRoot>,
    sealed: QuarantineRoot,
    i: int,
)
    requires
        0 <= i < roots.len(),
        forall|j: int|
            0 <= j < roots.len() && j != i ==> !path::same_place(
                (#[trigger] roots[j]).canonical_path@,
                sealed.canonical_path@,
            ),
    ensures
        current_root(roots, sealed, 0) == (if path::same_place(
            roots[i].canonical_path@,
            sealed.canonical_path@,
        ) && roots[i].inode == sealed.inode && roots[i].owner == sealed.owner && roots[i].mode
            == sealed.mode {
            Some(roots[i])
        } else {
            None
        }),
{
    root_found_from(roots, sealed, i, 0);
}

/// A plan can be drafted exactly if its roots can be used, the retired uploads can be gathered, a
/// resumed cohort has reached the reset as a whole, nine members are listed that fit, all that is
/// expected is listed (nine where nothing is resumed), and ten originals are listed that fit.
pub proof fn plans_are_drafted_of_nine_members(
    document: EvidenceDocument,
    manifest: Manifest,
    destinations: Seq<Option<String>>,
    gathered: Gathered,
)
    requires
        gathered_from(document.retired_replacements@, manifest) == Ok::<Gathered, Seq<char>>(
            gathered,
        ),
    ensures
        plan_refusal(document, manifest, destinations) is None <==> {
            let expected = with_references(
                gathered.expected,
                document.reference_normalizations@,
            );
            let phase = cohort_phase(document, manifest);
            &&& document.quarantine_roots@.len() > 0
            &&& roots_usable(document.quarantine_roots@)
            &&& document.quarantine_members@.len() == 9
            &&& gathered.resumed is Some ==> {
                &&& phase is Ok
                &&& phase->Ok_0 is Some
                &&& !(phase->Ok_0->0 is Prepared)
                &&& !(phase->Ok_0->0 is DeleteConfirmed)
                &&& !(phase->Ok_0->0 is Quarantined)
            }
            &&& gathered.resumed is None ==> expected.dom().len() == 9
            &&& members_fit(document, expected, gathered.resumed is Some, destinations)
            &&& all_expected_listed(document, expected)
            &&& document.raw_inputs@.len() == 10
            &&& raws_fit(document.raw_inputs@, manifest)
        },
{
}

/// A drafted plan is of the first schema, with the roots and the originals of the document, and
/// with each member of it under the destination that was worked out for it.
pub proof fn drafts_take_over_the_document(
    document: EvidenceDocument,
    destinations: Seq<Option<String>>,
    i: int,
)
    requires
        0 <= i < document.quarantine_members@.len(),
        i < destinations.len(),
        destinations[i] is Some,
    ensures
        drafted(document, destinations).schema_version == 1,
        drafted(document, destinations).roots == document.quarantine_roots@,
        drafted(document, destinations).raw_inputs == document.raw_inputs@,
        drafted(document, destinations).members.len() == document.quarantine_members@.len(),
        ({
            let planned = drafted(document, destinations).members[i];
            let member = document.quarantine_members@[i];
            &&& planned.destination_path == destinations[i]->0
            &&& planned.asset_id == member.asset_id
            &&& planned.kind == member.kind
            &&& planned.source_path == member.source_path
            &&& planned.source == member.source
            &&& planned.root_device == member.root_device
        }),
{
}

/// A plan is accepted exactly if it can be drafted and written down and, where the cohort is
/// resumed, the sealed plan can be moved to the devices of the document, is then the draft, and has
/// the digest of the draft.
pub proof fn resumed_plans_must_be_the_draft(
    document: EvidenceDocument,
    manifest: Manifest,
    inputs: PlanInputs,
    gathered: Gathered,
)
    requires
        gathered_from(document.retired_replacements@, manifest) == Ok::<Gathered, Seq<char>>(
            gathered,
        ),
    ensures
        sealed_plan_refusal(document, manifest, inputs) is None <==> {
            &&& plan_refusal(document, manifest, inputs.destinations@) is None
            &&& inputs.plan_json is Some
            &&& gathered.resumed is Some ==> {
                let sealed = gathered.resumed->0;
                &&& rebasable(sealed, document)
                &&& rebased(sealed, document).same(drafted(document, inputs.destinations@))
                &&& forall|i: int|
                    0 <= i < rebased(sealed, document).members.len() ==> (
                    #[trigger] rebased(sealed, document).members[i]).root_device == rebased(
                        sealed,
                        document,
                    ).members[i].source.device
                &&& inputs.rebased_json is Some
                &&& digest::sha256_hex(inputs.rebased_json->0@) == digest::sha256_hex(
                    inputs.plan_json->0@,
                )
            }
        },
{
}

/// A sealed plan can be moved to the devices of a document exactly if it is of the first schema,
/// has as many roots, members and originals, each of its roots is found there on a device, no two
/// devices change places, and all its files lie on a device of a root.
pub proof fn plans_move_root_by_root(
    sealed: LegacyUploadMigrationQuarantinePlan,
    document: EvidenceDocument,
)
    ensures
        rebasable(sealed, document) <==> {
            let pairs = root_pairs(sealed.roots@, document.quarantine_roots@);
            &&& sealed.schema_version == 1
            &&& sealed.roots@.len() == document.quarantine_roots@.len()
            &&& sealed.members@.len() == document.quarantine_members@.len()
            &&& sealed.raw_inputs@.len() == document.raw_inputs@.len()
            &&& forall|i: int|
                0 <= i < sealed.roots@.len() ==> (#[trigger] sealed.roots@[i]).device > 0
                    && current_root(document.quarantine_roots@, sealed.roots@[i], 0) is Some
                    && current_root(document.quarantine_roots@, sealed.roots@[i], 0)->0.device > 0
            &&& devices::one_to_one(pairs)
            &&& devices::planned_known(pairs, sealed.members@)
            &&& devices::raws_known(pairs, sealed.raw_inputs@)
        },
{
}

/// A moved plan keeps everything but the devices.
pub proof fn moved_plans_keep_all_but_their_devices(
    sealed: LegacyUploadMigrationQuarantinePlan,
    document: EvidenceDocument,
    i: int,
    j: int,
)
    requires
        0 <= i < sealed.members@.len(),
        0 <= j < sealed.raw_inputs@.len(),
    ensures
        rebased(sealed, document).schema_version == sealed.schema_version,
        rebased(sealed, document).members.len() == sealed.members@.len(),
        rebased(sealed, document).raw_inputs.len() == sealed.raw_inputs@.len(),
        ({
            let moved = rebased(sealed, document).members[i];
            let member = sealed.members@[i];
            let pairs = root_pairs(sealed.roots@, document.quarantine_roots@);
            &&& moved.asset_id == member.asset_id
            &&& moved.kind == member.kind
            &&& moved.source_path == member.source_path
            &&& moved.destination_path == member.destination_path
            &&& moved.source.inode == member.source.inode
            &&& moved.source.sha256 == member.source.sha256
            &&& moved.source.size_bytes == member.source.size_bytes
            &&& moved.source.device == devices::now(pairs, member.source.device)
            &&& moved.root_device == devices::now(pairs, member.root_device)
        }),
        ({
            let moved = rebased(sealed, document).raw_inputs[j];
            let raw = sealed.raw_inputs@[j];
            let pairs = root_pairs(sealed.roots@, document.quarantine_roots@);
            &&& moved.asset_id == raw.asset_id
            &&& moved.path == raw.path
            &&& moved.source.inode == raw.source.inode
            &&& moved.source.sha256 == raw.source.sha256
            &&& moved.source.device == devices::now(pairs, raw.source.device)
        }),
{
}

/// What is wrong with a plan is told by its name.
pub proof fn faults_of_a_plan_are_named(
    document: EvidenceDocument,
    manifest: Manifest,
    destinations: Seq<Option<String>>,
)
    ensures
        ({
            let gathered = gathered_from(document.retired_replacements@, manifest);
            let resumed = gathered->Ok_0.resumed is Some;
            let phase = cohort_phase(document, manifest);
            let expected = with_references(
                gathered->Ok_0.expected,
                document.reference_normalizations@,
            );
            let rooted = document.quarantine_roots@.len() > 0
                && document.quarantine_members@.len() == 9
                && roots_usable(document.quarantine_roots@);
            let taken = gathered is Ok;
            let coherent = resumed ==> phase is Ok;
            let reached = resumed ==> phase->Ok_0 is Some && phase->Ok_0->0.ordinal() >= 3;
            let nine = !resumed ==> expected.dom().len() == 9;
            let fitting = members_fit(document, expected, resumed, destinations)
                && all_expected_listed(document, expected);
            let originals = document.raw_inputs@.len() == 10
                && raws_fit(document.raw_inputs@, manifest);
            let told = plan_refusal(document, manifest, destinations);
            &&& !rooted ==> told == Some("quarantine_mapping"@)
            &&& rooted && !taken ==> told == Some(gathered->Err_0)
            &&& rooted && taken && !coherent ==> told == Some(phase->Err_0)
            &&& rooted && taken && coherent && !reached ==> told == Some("replacement_cohort"@)
            &&& rooted && taken && coherent && reached && !nine
                ==> told == Some("quarantine_mapping"@)
            &&& rooted && taken && coherent && reached && nine && !fitting
                ==> told == Some("quarantine_mapping"@)
            &&& rooted && taken && coherent && reached && nine && fitting && !originals
                ==> told == Some("raw_binding"@)
        }),
{
}

/// What keeps a plan from being sealed is told by its name, and so is what keeps two uploads from
/// being gathered or from being in one phase.
pub proof fn faults_of_a_sealed_plan_are_named(
    document: EvidenceDocument,
    manifest: Manifest,
    inputs: PlanInputs,
    gathered: Gathered,
    replacement: EvidenceRetiredReplacement,
    record: AssetRecord,
)
    ensures
        plan_refusal(document, manifest, inputs.destinations@) is Some ==> sealed_plan_refusal(
            document,
            manifest,
            inputs,
        ) == plan_refusal(document, manifest, inputs.destinations@),
        plan_refusal(document, manifest, inputs.destinations@) is None && sealed_plan_refusal(
            document,
            manifest,
            inputs,
        ) is Some ==> sealed_plan_refusal(document, manifest, inputs) == Some(
            "quarantine_mapping"@,
        ),
        gathered_with(gathered, replacement, record) is Err ==> gathered_with(
            gathered,
            replacement,
            record,
        )->Err_0 == "quarantine_mapping"@,
        replacement_phase(manifest, replacement.asset_id@) is Err ==> replacement_phase(
            manifest,
            replacement.asset_id@,
        )->Err_0 == "replacement_proof"@,
        ({
            let left = replacement_phase(manifest, document.retired_replacements@[0].asset_id@);
            let right = replacement_phase(manifest, document.retired_replacements@[1].asset_id@);
            let told = cohort_phase(document, manifest);
            &&& left is Err || right is Err ==> told is Err && told->Err_0
                == "replacement_proof"@
            &&& left is Ok && right is Ok && left->Ok_0 != right->Ok_0 ==> told is Err
                && told->Err_0 == "replacement_cohort"@
        }),
{
}

/// Members fit exactly if each of them does, each comes before the next by asset and kind, and any
/// two are at two places and are two files.
pub proof fn fitting_members_ascend_and_are_apart(
    document: EvidenceDocument,
    expected: Map<(Seq<char>, LegacyUploadMigrationQuarantineKind), Expectation>,
    resumed: bool,
    destinations: Seq<Option<String>>,
)
    ensures
        members_fit(document, expected, resumed, destinations) <==> {
            let members = document.quarantine_members@;
            &&& forall|i: int|
                0 <= i < members.len() ==> #[trigger] member_fits(
                    document,
                    expected,
                    resumed,
                    destinations,
                    i,
                )
            &&& forall|i: int, j: int|
                0 <= i < members.len() && j == i + 1 && j < members.len()
                    ==> quarantine::key_before(
                    (#[trigger] members[i]).asset_id@,
                    members[i].kind,
                    (#[trigger] members[j]).asset_id@,
                    members[j].kind,
                )
            &&& forall|i: int, j: int|
                0 <= i < members.len() && 0 <= j < members.len() && i != j ==> members_apart(
                    #[trigger] members[i],
                    #[trigger] members[j],
                )
        },
{
    let members = document.quarantine_members@;
    if members_fit(document, expected, resumed, destinations) {
        assert forall|i: int, j: int|
            0 <= i < members.len() && 0 <= j < members.len() && i != j implies members_apart(
            #[trigger] members[i],
            #[trigger] members[j],
        ) by {
            if i < j {
                assert(members_apart(members[i], members[j]));
            } else {
                assert(members_apart(members[j], members[i]));
            }
        }
    }
}

/// All that is expected is listed exactly if for every asset and kind that is expected there is a
/// member of that asset and kind.
pub proof fn whatever_is_expected_is_listed(
    document: EvidenceDocument,
    expected: Map<(Seq<char>, LegacyUploadMigrationQuarantineKind), Expectation>,
    id: Seq<char>,
    kind: LegacyUploadMigrationQuarantineKind,
    i: int,
)
    ensures
        all_expected_listed(document, expected) && expected.dom().contains((id, kind))
            ==> exists|k: int|
            0 <= k < document.quarantine_members@.len() && (
            #[trigger] document.quarantine_members@[k]).asset_id@ == id
                && document.quarantine_members@[k].kind == kind,
        (forall|k: (Seq<char>, LegacyUploadMigrationQuarantineKind)| #[trigger]
            expected.dom().contains(k) ==> member_listed(document.quarantine_members@, k.0, k.1))
            ==> all_expected_listed(document, expected),
        0 <= i < document.quarantine_members@.len() && document.quarantine_members@[i].asset_id@
            == id && document.quarantine_members@[i].kind == kind ==> member_listed(
            document.quarantine_members@,
            id,
            kind,
        ),
{
    if all_expected_listed(document, expected) && expected.dom().contains((id, kind)) {
        let key = (id, kind);
        assert(member_listed(document.quarantine_members@, key.0, key.1));
    }
}

/// Originals fit exactly if each of them does, each comes before the next by its asset, and any two
/// are at two places and are two files.
pub proof fn fitting_originals_ascend_and_are_apart(
    raws: Seq<QuarantineRawInput>,
    manifest: Manifest,
)
    ensures
        raws_fit(raws, manifest) <==> {
            &&& forall|i: int| 0 <= i < raws.len() ==> raw_fits(#[trigger] raws[i], manifest)
            &&& forall|i: int, j: int|
                0 <= i < raws.len() && j == i + 1 && j < raws.len() ==> text::before(
                    (#[trigger] raws[i]).asset_id@,
                    (#[trigger] raws[j]).asset_id@,
                )
            &&& forall|i: int, j: int|
                0 <= i < raws.len() && 0 <= j < raws.len() && i != j ==> raws_apart(
                    #[trigger] raws[i],
                    #[trigger] raws[j],
                )
        },
{
    if raws_fit(raws, manifest) {
        assert forall|i: int, j: int|
            0 <= i < raws.len() && 0 <= j < raws.len() && i != j implies raws_apart(
            #[trigger] raws[i],
            #[trigger] raws[j],
        ) by {
            if i < j {
                assert(raws_apart(raws[i], raws[j]));
            } else {
                assert(raws_apart(raws[j], raws[i]));
            }
        }
    }
}

} // verus!
