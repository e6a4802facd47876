use vstd::prelude::*;
use vstd::string::*;

use crate::order;
use crate::order::InOrder;
use crate::path;
use crate::path::same_path;
use crate::text;
use crate::text::{same_text, text_before};

verus! {

/// What a file is to the migration before it is moved into quarantine.
#[derive(Clone, Copy, Debug, PartialEq, Eq, Structural)]
pub enum LegacyUploadMigrationQuarantineKind {
    /// The HEIC that was uploaded.
    Final,
    /// The local mirror of the replacement that is being retired.
    OldMirror,
    /// The oriented preview that stands as the visual reference.
    Reference,
}

impl LegacyUploadMigrationQuarantineKind {
    /// The place of the kind in a listing.
    pub open spec fn rank(self) -> int {
        match self {
            LegacyUploadMigrationQuarantineKind::Final => 0,
            LegacyUploadMigrationQuarantineKind::OldMirror => 1,
            LegacyUploadMigrationQuarantineKind::Reference => 2,
        }
    }

    pub fn position(self) -> (r: u8)
        ensures
            r == self.rank(),
    {
        match self {
            LegacyUploadMigrationQuarantineKind::Final => 0,
            LegacyUploadMigrationQuarantineKind::OldMirror => 1,
            LegacyUploadMigrationQuarantineKind::Reference => 2,
        }
    }
}

/// A file as the migration found it: where it lies, whose it is, and what it holds.
#[derive(Debug, PartialEq, Eq)]
pub struct LegacyUploadMigrationQuarantineFileIdentity {
    pub device: u64,
    pub inode: u64,
    pub owner: u32,
    pub mode: u32,
    pub link_count: u64,
    pub size_bytes: u64,
    pub modified_unix_seconds: i64,
    pub modified_unix_nanoseconds: i64,
    pub sha256: String,
}

/// What an identity says, for comparison.
pub struct FileView {
    pub device: u64,
    pub inode: u64,
    pub owner: u32,
    pub mode: u32,
    pub link_count: u64,
    pub size_bytes: u64,
    pub modified_unix_seconds: i64,
    pub modified_unix_nanoseconds: i64,
    pub sha256: Seq<char>,
}

impl Clone for LegacyUploadMigrationQuarantineFileIdentity {
    fn clone(&self) -> (r: Self)
        ensures
            r == *self,
    {
        LegacyUploadMigrationQuarantineFileIdentity {
            device: self.device,
            inode: self.inode,
            owner: self.owner,
            mode: self.mode,
            link_count: self.link_count,
            size_bytes: self.size_bytes,
            modified_unix_seconds: self.modified_unix_seconds,
            modified_unix_nanoseconds: self.modified_unix_nanoseconds,
            sha256: self.sha256.clone(),
        }
    }
}

impl LegacyUploadMigrationQuarantineFileIdentity {
    pub open spec fn view(&self) -> FileView {
        FileView {
            device: self.device,
            inode: self.inode,
            owner: self.owner,
            mode: self.mode,
            link_count: self.link_count,
            size_bytes: self.size_bytes,
            modified_unix_seconds: self.modified_unix_seconds,
            modified_unix_nanoseconds: self.modified_unix_nanoseconds,
            sha256: self.sha256@,
        }
    }

    /// The two identities agree in every field.
    pub open spec fn same(self, other: Self) -> bool {
        self@ == other@
    }

    /// The identity as it reads once the file's device has another number.
    pub open spec fn on_device(self, device: u64) -> Self {
        LegacyUploadMigrationQuarantineFileIdentity { device, ..self }
    }

    pub fn is_same(&self, other: &Self) -> (r: bool)
        ensures
            r == self.same(*other),
    {
        self.device == other.device && self.inode == other.inode && self.owner == other.owner
            && self.mode == other.mode && self.link_count == other.link_count && self.size_bytes
            == other.size_bytes && self.modified_unix_seconds == other.modified_unix_seconds
            && self.modified_unix_nanoseconds == other.modified_unix_nanoseconds && same_text(
            &self.sha256,
            &other.sha256,
        )
    }
}

/// A directory that quarantined files of one device are moved into.
#[derive(Debug, PartialEq, Eq)]
pub struct QuarantineRoot {
    pub canonical_path: String,
    pub device: u64,
    pub inode: u64,
    pub owner: u32,
    pub mode: u32,
}

impl Clone for QuarantineRoot {
    fn clone(&self) -> (r: Self)
        ensures
            r == *self,
    {
        QuarantineRoot {
            canonical_path: self.canonical_path.clone(),
            device: self.device,
            inode: self.inode,
            owner: self.owner,
            mode: self.mode,
        }
    }
}

impl QuarantineRoot {
    /// The two roots agree in everything but the device.
    pub open spec fn same_directory(self, other: Self) -> bool {
        &&& path::same_place(self.canonical_path@, other.canonical_path@)
        &&& self.inode == other.inode
        &&& self.owner == other.owner
        &&& self.mode == other.mode
    }

    /// The root as it reads once its device has another number.
    pub open spec fn on_device(self, device: u64) -> Self {
        QuarantineRoot { device, ..self }
    }

    pub fn is_same_directory(&self, other: &Self) -> (r: bool)
        ensures
            r == self.same_directory(*other),
    {
        same_path(&self.canonical_path, &other.canonical_path) && self.inode == other.inode
            && self.owner == other.owner && self.mode == other.mode
    }
}

impl InOrder for QuarantineRoot {
    open spec fn not_after(self, other: Self) -> bool {
        self.device <= other.device
    }

    fn is_not_after(&self, other: &Self) -> (r: bool) {
        self.device <= other.device
    }
}

/// An original that the migration reads and never moves.
#[derive(Debug, PartialEq, Eq)]
pub struct QuarantineRawInput {
    pub asset_id: String,
    pub path: String,
    pub source: LegacyUploadMigrationQuarantineFileIdentity,
}

impl Clone for QuarantineRawInput {
    fn clone(&self) -> (r: Self)
        ensures
            r == *self,
    {
        QuarantineRawInput {
            asset_id: self.asset_id.clone(),
            path: self.path.clone(),
            source: self.source.clone(),
        }
    }
}

impl QuarantineRawInput {
    /// The two inputs are the same file of the same asset.
    pub open spec fn same(self, other: Self) -> bool {
        &&& self.asset_id@ == other.asset_id@
        &&& path::same_place(self.path@, other.path@)
        &&& self.source.same(other.source)
    }

    /// The input as it reads once its file's device has another number.
    pub open spec fn on_device(self, device: u64) -> Self {
        QuarantineRawInput { source: self.source.on_device(device), ..self }
    }

    pub fn is_same(&self, other: &Self) -> (r: bool)
        ensures
            r == self.same(*other),
    {
        same_text(&self.asset_id, &other.asset_id) && same_path(&self.path, &other.path)
            && self.source.is_same(&other.source)
    }
}

/// A file that is to be moved into quarantine, as evidence records it.
#[derive(Debug, PartialEq, Eq)]
pub struct EvidenceQuarantineMember {
    pub asset_id: String,
    pub kind: LegacyUploadMigrationQuarantineKind,
    pub source_path: String,
    pub source: LegacyUploadMigrationQuarantineFileIdentity,
    pub root_device: u64,
}

impl Clone for EvidenceQuarantineMember {
    fn clone(&self) -> (r: Self)
        ensures
            r == *self,
    {
        EvidenceQuarantineMember {
            asset_id: self.asset_id.clone(),
            kind: self.kind,
            source_path: self.source_path.clone(),
            source: self.source.clone(),
            root_device: self.root_device,
        }
    }
}

/// Whether one asset's file of one kind stands strictly before another's in a listing.
pub open spec fn key_before(
    a_id: Seq<char>,
    a_kind: LegacyUploadMigrationQuarantineKind,
    b_id: Seq<char>,
    b_kind: LegacyUploadMigrationQuarantineKind,
) -> bool {
    text::before(a_id, b_id) || (a_id == b_id && a_kind.rank() < b_kind.rank())
}

pub fn is_key_before(
    a_id: &str,
    a_kind: LegacyUploadMigrationQuarantineKind,
    b_id: &str,
    b_kind: LegacyUploadMigrationQuarantineKind,
) -> (r: bool)
    ensures
        r == key_before(a_id@, a_kind, b_id@, b_kind),
{
    text_before(a_id, b_id) || (same_text(a_id, b_id) && a_kind.position() < b_kind.position())
}

impl InOrder for EvidenceQuarantineMember {
    open spec fn not_after(self, other: Self) -> bool {
        !key_before(other.asset_id@, other.kind, self.asset_id@, self.kind)
    }

    fn is_not_after(&self, other: &Self) -> (r: bool) {
        !is_key_before(&other.asset_id, other.kind, &self.asset_id, self.kind)
    }
}

impl EvidenceQuarantineMember {
    /// The member as it reads once its devices have other numbers.
    pub open spec fn on_devices(self, source_device: u64, root_device: u64) -> Self {
        EvidenceQuarantineMember {
            source: self.source.on_device(source_device),
            root_device,
            ..self
        }
    }
}

/// A file that is to be moved into quarantine, with the place it is moved to.
#[derive(Debug, PartialEq, Eq)]
pub struct LegacyUploadMigrationQuarantineMember {
    pub asset_id: String,
    pub kind: LegacyUploadMigrationQuarantineKind,
    pub source_path: String,
    pub destination_path: String,
    pub source: LegacyUploadMigrationQuarantineFileIdentity,
    pub root_device: u64,
}

impl Clone for LegacyUploadMigrationQuarantineMember {
    fn clone(&self) -> (r: Self)
        ensures
            r == *self,
    {
        LegacyUploadMigrationQuarantineMember {
            asset_id: self.asset_id.clone(),
            kind: self.kind,
            source_path: self.source_path.clone(),
            destination_path: self.destination_path.clone(),
            source: self.source.clone(),
            root_device: self.root_device,
        }
    }
}

impl LegacyUploadMigrationQuarantineMember {
    /// The two members are the same file with the same destination.
    pub open spec fn same(self, other: Self) -> bool {
        &&& self.asset_id@ == other.asset_id@
        &&& self.kind == other.kind
        &&& path::same_place(self.source_path@, other.source_path@)
        &&& path::same_place(self.destination_path@, other.destination_path@)
        &&& self.source.same(other.source)
        &&& self.root_device == other.root_device
    }

    /// The member as it reads once its devices have other numbers.
    pub open spec fn on_devices(self, source_device: u64, root_device: u64) -> Self {
        LegacyUploadMigrationQuarantineMember {
            source: self.source.on_device(source_device),
            root_device,
            ..self
        }
    }

    pub fn is_same(&self, other: &Self) -> (r: bool)
        ensures
            r == self.same(*other),
    {
        same_text(&self.asset_id, &other.asset_id) && self.kind == other.kind && same_path(
            &self.source_path,
            &other.source_path,
        ) && same_path(&self.destination_path, &other.destination_path) && self.source.is_same(
            &other.source,
        ) && self.root_device == other.root_device
    }
}

/// Everything that a cohort moves into quarantine, and everything that it must leave alone.
#[derive(Debug, PartialEq, Eq)]
pub struct LegacyUploadMigrationQuarantinePlan {
    pub schema_version: u64,
    pub roots: Vec<QuarantineRoot>,
    pub members: Vec<LegacyUploadMigrationQuarantineMember>,
    pub raw_inputs: Vec<QuarantineRawInput>,
    pub plan_sha256: String,
}

/// What a plan says, without its seal.
#[verifier::ext_equal]
pub struct PlanContent {
    pub schema_version: u64,
    pub roots: Seq<QuarantineRoot>,
    pub members: Seq<LegacyUploadMigrationQuarantineMember>,
    pub raw_inputs: Seq<QuarantineRawInput>,
}

impl PlanContent {
    /// The two plans move the same files between the same places.
    pub open spec fn same(self, other: Self) -> bool {
        &&& self.schema_version == other.schema_version
        &&& self.roots.len() == other.roots.len()
        &&& self.members.len() == other.members.len()
        &&& self.raw_inputs.len() == other.raw_inputs.len()
        &&& forall|i: int|
            0 <= i < self.roots.len() ==> {
                &&& (#[trigger] self.roots[i]).same_directory(other.roots[i])
                &&& self.roots[i].device == other.roots[i].device
            }
        &&& forall|i: int|
            0 <= i < self.members.len() ==> (#[trigger] self.members[i]).same(other.members[i])
        &&& forall|i: int|
            0 <= i < self.raw_inputs.len() ==> (#[trigger] self.raw_inputs[i]).same(
                other.raw_inputs[i],
            )
    }
}

impl LegacyUploadMigrationQuarantinePlan {
    /// What the plan says, without its seal.
    pub open spec fn content(self) -> PlanContent {
        PlanContent {
            schema_version: self.schema_version,
            roots: self.roots@,
            members: self.members@,
            raw_inputs: self.raw_inputs@,
        }
    }

    /// The two plans are the same, down to the seal.
    pub open spec fn same(self, other: Self) -> bool {
        self.content().same(other.content()) && self.plan_sha256@ == other.plan_sha256@
    }

    pub fn is_same_content(&self, other: &Self) -> (r: bool)
        ensures
            r == self.content().same(other.content()),
    {
        if self.schema_version != other.schema_version || self.roots.len() != other.roots.len()
            || self.members.len() != other.members.len() || self.raw_inputs.len()
            != other.raw_inputs.len() {
            return false;
        }
        let mut i: usize = 0;
        while i < self.roots.len()
            invariant
                i <= self.roots@.len(),
                self.roots@.len() == other.roots@.len(),
                forall|j: int|
                    0 <= j < i ==> {
                        &&& (#[trigger] self.roots@[j]).same_directory(other.roots@[j])
                        &&& self.roots@[j].device == other.roots@[j].device
                    },
            decreases self.roots@.len() - i,
        {
            if !self.roots[i].is_same_directory(&other.roots[i]) || self.roots[i].device
                != other.roots[i].device {
                return false;
            }
            i += 1;
        }
        let mut i: usize = 0;
        while i < self.members.len()
            invariant
                i <= self.members@.len(),
                self.members@.len() == other.members@.len(),
                forall|j: int|
                    0 <= j < i ==> (#[trigger] self.members@[j]).same(other.members@[j]),
            decreases self.members@.len() - i,
        {
            if !self.members[i].is_same(&other.members[i]) {
                return false;
            }
            i += 1;
        }
        let mut i: usize = 0;
        while i < self.raw_inputs.len()
            invariant
                i <= self.raw_inputs@.len(),
                self.raw_inputs@.len() == other.raw_inputs@.len(),
                forall|j: int|
                    0 <= j < i ==> (#[trigger] self.raw_inputs@[j]).same(other.raw_inputs@[j]),
            decreases self.raw_inputs@.len() - i,
        {
            if !self.raw_inputs[i].is_same(&other.raw_inputs[i]) {
                return false;
            }
            i += 1;
        }
        true
    }

    pub fn is_same(&self, other: &Self) -> (r: bool)
        ensures
            r == self.same(*other),
    {
        self.is_same_content(other) && same_text(&self.plan_sha256, &other.plan_sha256)
    }

    /// A second plan that says the same and has the same seal.
    pub fn duplicate(&self) -> (r: Self)
        ensures
            r.content() == self.content(),
            r.plan_sha256@ == self.plan_sha256@,
    {
        let r = LegacyUploadMigrationQuarantinePlan {
            schema_version: self.schema_version,
            roots: self.roots.clone(),
            members: self.members.clone(),
            raw_inputs: self.raw_inputs.clone(),
            plan_sha256: self.plan_sha256.clone(),
        };
        assert(r.roots@ =~= self.roots@);
        assert(r.members@ =~= self.members@);
        assert(r.raw_inputs@ =~= self.raw_inputs@);
        r
    }
}

/// What stands strictly before a key that stands strictly before a third stands before the third.
pub proof fn key_before_is_transitive(
    a_id: Seq<char>,
    a_kind: LegacyUploadMigrationQuarantineKind,
    b_id: Seq<char>,
    b_kind: LegacyUploadMigrationQuarantineKind,
    c_id: Seq<char>,
    c_kind: LegacyUploadMigrationQuarantineKind,
)
    requires
        key_before(a_id, a_kind, b_id, b_kind),
        key_before(b_id, b_kind, c_id, c_kind),
    ensures
        key_before(a_id, a_kind, c_id, c_kind),
{
    if text::before(a_id, b_id) && text::before(b_id, c_id) {
        text::before_is_transitive(a_id, b_id, c_id);
    }
}

/// No key stands strictly before itself.
pub proof fn key_before_is_irreflexive(
    id: Seq<char>,
    kind: LegacyUploadMigrationQuarantineKind,
)
    ensures
        !key_before(id, kind, id, kind),
{
    text::before_is_irreflexive(id);
}

/// Of two different keys one stands strictly before the other.
pub proof fn key_before_is_total(
    a_id: Seq<char>,
    a_kind: LegacyUploadMigrationQuarantineKind,
    b_id: Seq<char>,
    b_kind: LegacyUploadMigrationQuarantineKind,
)
    ensures
        (a_id == b_id && a_kind == b_kind) || key_before(a_id, a_kind, b_id, b_kind) || key_before(
            b_id,
            b_kind,
            a_id,
            a_kind,
        ),
{
    text::before_is_total(a_id, b_id);
}

/// Quarantine members can be put in the order of their keys.
pub proof fn members_are_orderly()
    ensures
        order::orderly::<EvidenceQuarantineMember>(),
{
    assert forall|a: EvidenceQuarantineMember, b: EvidenceQuarantineMember| #[trigger]
        a.not_after(b) || b.not_after(a) by {
        if key_before(a.asset_id@, a.kind, b.asset_id@, b.kind) && key_before(
            b.asset_id@,
            b.kind,
            a.asset_id@,
            a.kind,
        ) {
            key_before_is_transitive(
                a.asset_id@,
                a.kind,
                b.asset_id@,
                b.kind,
                a.asset_id@,
                a.kind,
            );
            key_before_is_irreflexive(a.asset_id@, a.kind);
        }
    }
    assert forall|
        a: EvidenceQuarantineMember,
        b: EvidenceQuarantineMember,
        c: EvidenceQuarantineMember,
    | #[trigger] a.not_after(b) && #[trigger] b.not_after(c) implies a.not_after(c) by {
        key_before_is_total(a.asset_id@, a.kind, b.asset_id@, b.kind);
        if key_before(c.asset_id@, c.kind, a.asset_id@, a.kind) {
            if key_before(a.asset_id@, a.kind, b.asset_id@, b.kind) {
                key_before_is_transitive(
                    c.asset_id@,
                    c.kind,
                    a.asset_id@,
                    a.kind,
                    b.asset_id@,
                    b.kind,
                );
            }
        }
    }
}

/// Members are ordered by their assets, and those of one asset by their kind: the HEIC, then the
/// mirror, then the reference.
pub proof fn members_go_by_asset_and_kind(
    a_id: Seq<char>,
    a_kind: LegacyUploadMigrationQuarantineKind,
    b_id: Seq<char>,
    b_kind: LegacyUploadMigrationQuarantineKind,
)
    ensures
        text::before(a_id, b_id) ==> key_before(a_id, a_kind, b_id, b_kind),
        text::before(b_id, a_id) ==> !key_before(a_id, a_kind, b_id, b_kind),
        a_id == b_id ==> key_before(a_id, a_kind, b_id, b_kind) == ((a_kind is Final && !(
        b_kind is Final)) || (a_kind is OldMirror && b_kind is Reference)),
{
    text::before_is_irreflexive(a_id);
    if text::before(b_id, a_id) {
        if text::before(a_id, b_id) {
            text::before_is_transitive(a_id, b_id, a_id);
        }
        if a_id == b_id {
            text::before_is_irreflexive(a_id);
        }
    }
}

/// Two identities of files are the same only if they agree in all that is known of the file.
pub proof fn file_identities_agree_in_everything(
    a: LegacyUploadMigrationQuarantineFileIdentity,
    b: LegacyUploadMigrationQuarantineFileIdentity,
)
    ensures
        a.same(b) <==> a.device == b.device && a.inode == b.inode && a.owner == b.owner && a.mode
            == b.mode && a.link_count == b.link_count && a.size_bytes == b.size_bytes
            && a.modified_unix_seconds == b.modified_unix_seconds && a.modified_unix_nanoseconds
            == b.modified_unix_nanoseconds && a.sha256@ == b.sha256@,
        a.same(a),
        a.same(b) <==> b.same(a),
{
}

/// A plan is the same as itself, and of two plans either both are the same as the other or
/// neither is. Plans that differ in their seal are never the same.
pub proof fn plans_are_compared_both_ways(
    a: LegacyUploadMigrationQuarantinePlan,
    b: LegacyUploadMigrationQuarantinePlan,
)
    ensures
        a.same(a),
        a.same(b) ==> b.same(a),
        a.plan_sha256@ != b.plan_sha256@ ==> !a.same(b),
        a.roots@.len() != b.roots@.len() || a.members@.len() != b.members@.len()
            || a.raw_inputs@.len() != b.raw_inputs@.len() ==> !a.same(b),
{
    if a.same(b) {
        let x = a.content();
        let y = b.content();
        assert forall|i: int| 0 <= i < y.roots.len() implies (
        #[trigger] y.roots[i]).same_directory(x.roots[i]) && y.roots[i].device
            == x.roots[i].device by {
            assert(x.roots[i].same_directory(y.roots[i]));
        }
        assert forall|i: int| 0 <= i < y.members.len() implies (#[trigger] y.members[i]).same(
            x.members[i],
        ) by {
            assert(x.members[i].same(y.members[i]));
        }
        assert forall|i: int| 0 <= i < y.raw_inputs.len() implies (#[trigger] y.raw_inputs[i]).same(
            x.raw_inputs[i],
        ) by {
            assert(x.raw_inputs[i].same(y.raw_inputs[i]));
        }
    }
}

/// Plans of the same shape whose every root, member and original agree are the same, where their
/// seals are.
pub proof fn plans_that_agree_throughout_are_the_same(
    a: LegacyUploadMigrationQuarantinePlan,
    b: LegacyUploadMigrationQuarantinePlan,
)
    requires
        a.schema_version == b.schema_version,
        a.roots@ == b.roots@,
        a.members@ == b.members@,
        a.raw_inputs@ == b.raw_inputs@,
        a.plan_sha256@ == b.plan_sha256@,
    ensures
        a.same(b),
{
}

/// Directories are the same whose paths lead to one place and whose inode, owner and mode agree;
/// their devices are not asked for.
pub proof fn directories_are_known_without_their_device(a: QuarantineRoot, b: QuarantineRoot)
    ensures
        a.same_directory(b) <==> path::same_place(a.canonical_path@, b.canonical_path@) && a.inode
            == b.inode && a.owner == b.owner && a.mode == b.mode,
        a.same_directory(a.on_device(b.device)),
        a.on_device(b.device).device == b.device,
{
}

/// Two planned members are the same exactly if they are of one asset and kind, lie at one place and
/// go to one place, are the same file in everything, and move to one device.
pub proof fn planned_members_agree_in_everything(
    a: LegacyUploadMigrationQuarantineMember,
    b: LegacyUploadMigrationQuarantineMember,
)
    ensures
        a.same(b) <==> {
            &&& a.asset_id@ == b.asset_id@
            &&& a.kind == b.kind
            &&& path::same_place(a.source_path@, b.source_path@)
            &&& path::same_place(a.destination_path@, b.destination_path@)
            &&& a.source@ == b.source@
            &&& a.root_device == b.root_device
        },
{
}

/// Two originals are the same exactly if they are of one asset, lie at one place and are the same
/// file in everything.
pub proof fn originals_agree_in_everything(a: QuarantineRawInput, b: QuarantineRawInput)
    ensures
        a.same(b) <==> a.asset_id@ == b.asset_id@ && path::same_place(a.path@, b.path@)
            && a.source@ == b.source@,
{
}

} // verus!
