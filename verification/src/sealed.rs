use vstd::prelude::*;
use vstd::string::*;

use crate::digest;
use crate::digest::sha256_bytes;
use crate::document::{EvidenceDocument, EvidenceReferenceNormalization, MAX_EVIDENCE_BYTES};
use crate::error;
use crate::error::{failure, LegacyUploadEvidenceError};
use crate::path;
use crate::path::safe_absolute_path;
use crate::quarantine::{FileView, LegacyUploadMigrationQuarantineFileIdentity};
use crate::text::same_text;

verus! {

/// The permission bits of a mode.
pub const PERMISSION_BITS: u32 = 0o777;

/// The permission bits of a file that only its owner may read and write.
pub const OWNER_ONLY_MODE: u32 = 0o600;

/// The bits that let a group or others write.
pub const SHARED_WRITE_BITS: u32 = 0o022;

/// What the system says of a file.
#[derive(Clone, Copy, Debug, PartialEq, Eq, Structural)]
pub struct EvidenceMetadata {
    pub is_regular: bool,
    pub dev: u64,
    pub ino: u64,
    pub mode: u32,
    pub uid: u32,
    pub gid: u32,
    pub nlink: u64,
    pub size: u64,
    pub mtime: i64,
    pub mtime_nsec: i64,
    pub ctime: i64,
    pub ctime_nsec: i64,
}

impl EvidenceMetadata {
    /// The two agree in everything that renaming a file leaves alone.
    pub open spec fn same_but_renamed(self, expected: Self) -> bool {
        self == (EvidenceMetadata {
            ctime: self.ctime,
            ctime_nsec: self.ctime_nsec,
            ..expected
        })
    }

    /// A file of which only its owner may make use, with one name.
    pub open spec fn owner_only(self, euid: u32) -> bool {
        attributes_sound(self.is_regular, self.mode, self.uid, self.nlink, euid)
    }

    /// Whether this is the file that was expected, possibly renamed since.
    pub fn matches_after_rename(self, expected: Self) -> (r: bool)
        ensures
            r == self.same_but_renamed(expected),
    {
        self.is_regular == expected.is_regular && self.dev == expected.dev && self.ino
            == expected.ino && self.mode == expected.mode && self.uid == expected.uid && self.gid
            == expected.gid && self.nlink == expected.nlink && self.size == expected.size
            && self.mtime == expected.mtime && self.mtime_nsec == expected.mtime_nsec
    }
}

/// A regular file with one name that its owner, the running user, alone may read and write.
pub open spec fn attributes_sound(
    is_regular: bool,
    mode: u32,
    uid: u32,
    nlink: u64,
    current_euid: u32,
) -> bool {
    is_regular && mode & PERMISSION_BITS == OWNER_ONLY_MODE && uid == current_euid && nlink == 1
}

/// Accepts the attributes of a file that only the running user may read and write.
pub fn validate_evidence_attributes(
    is_regular: bool,
    mode: u32,
    uid: u32,
    nlink: u64,
    current_euid: u32,
) -> (r: Result<(), LegacyUploadEvidenceError>)
    ensures
        r is Ok <==> attributes_sound(is_regular, mode, uid, nlink, current_euid),
        r matches Err(error) ==> error@ == "evidence_permissions"@,
{
    if !is_regular || mode & PERMISSION_BITS != OWNER_ONLY_MODE || uid != current_euid || nlink
        != 1 {
        return Err(failure("evidence_permissions"));
    }
    Ok(())
}

/// How an attempt to read a whole file went.
#[derive(Debug, PartialEq, Eq)]
pub enum SourceRead {
    /// The file could not be opened.
    OpenFailed,
    /// The open file could not be described.
    MetadataFailed,
    /// The file was described, but its content could not be read.
    ReadFailed(EvidenceMetadata),
    /// The file was described and read.
    Read(EvidenceMetadata, Vec<u8>),
}

impl SourceRead {
    /// The file was read, is described like that, and holds what has that digest.
    pub open spec fn shows(self, metadata: EvidenceMetadata, sha256: Seq<char>) -> bool {
        self matches SourceRead::Read(found, content) && found == metadata && digest::sha256_hex(
            content@,
        ) == sha256
    }

    fn does_show(&self, metadata: EvidenceMetadata, sha256: &str) -> (r: bool)
        ensures
            r == self.shows(metadata, sha256@),
    {
        match self {
            SourceRead::Read(found, content) => *found == metadata && same_text(
                &sha256_bytes(content),
                sha256,
            ),
            _ => false,
        }
    }
}

/// A file that is held open while evidence is gathered from it.
#[derive(Debug, PartialEq, Eq)]
pub struct HeldGenerationSource {
    pub path: String,
    pub metadata: EvidenceMetadata,
    pub sha256: String,
}

/// A file that evidence may be gathered from: regular, with one name, not empty.
pub open spec fn source_sound(metadata: EvidenceMetadata) -> bool {
    metadata.is_regular && metadata.nlink == 1 && metadata.size != 0
}

/// The category under which a source is refused, or nothing where it may be held.
pub open spec fn source_refusal(path: Seq<char>, read: SourceRead) -> Option<Seq<char>> {
    if !path::safe_place(path) {
        Some("source_path"@)
    } else {
        match read {
            SourceRead::OpenFailed => Some("source_open"@),
            SourceRead::MetadataFailed => Some("source_metadata"@),
            SourceRead::ReadFailed(metadata) => if source_sound(metadata) {
                Some("source_read"@)
            } else {
                Some("source_metadata"@)
            },
            SourceRead::Read(metadata, _) => if source_sound(metadata) {
                None
            } else {
                Some("source_metadata"@)
            },
        }
    }
}

fn is_source_sound(metadata: EvidenceMetadata) -> (r: bool)
    ensures
        r == source_sound(metadata),
{
    metadata.is_regular && metadata.nlink == 1 && metadata.size != 0
}

impl HeldGenerationSource {
    /// The source stands for the very file that was read.
    pub open spec fn stands_for(self, path: Seq<char>, read: SourceRead) -> bool {
        self.path@ == path && read.shows(self.metadata, self.sha256@)
    }

    /// Holds a file that was read.
    pub fn open(path: &str, read: &SourceRead) -> (r: Result<Self, LegacyUploadEvidenceError>)
        ensures
            match r {
                Ok(held) => source_refusal(path@, *read) is None && held.stands_for(path@, *read),
                Err(error) => source_refusal(path@, *read) == Some(error@),
            },
    {
        if !safe_absolute_path(path) {
            return Err(failure("source_path"));
        }
        match read {
            SourceRead::OpenFailed => Err(failure("source_open")),
            SourceRead::MetadataFailed => Err(failure("source_metadata")),
            SourceRead::ReadFailed(metadata) => if is_source_sound(*metadata) {
                Err(failure("source_read"))
            } else {
                Err(failure("source_metadata"))
            },
            SourceRead::Read(metadata, content) => if is_source_sound(*metadata) {
                Ok(
                    HeldGenerationSource {
                        path: path.to_owned(),
                        metadata: *metadata,
                        sha256: sha256_bytes(content),
                    },
                )
            } else {
                Err(failure("source_metadata"))
            },
        }
    }

    /// Neither the open file nor the file that has its name now differs from what is held.
    pub open spec fn unchanged(self, held: SourceRead, named: SourceRead) -> bool {
        held.shows(self.metadata, self.sha256@) && named.shows(self.metadata, self.sha256@)
    }

    /// Whether neither the open file nor the file that has its name now differs from what is
    /// held.
    pub fn revalidate(&self, held: &SourceRead, named: &SourceRead) -> (r: Result<
        (),
        LegacyUploadEvidenceError,
    >)
        ensures
            r is Ok <==> self.unchanged(*held, *named),
            r matches Err(error) ==> error@ == "source_changed"@,
    {
        if !held.does_show(self.metadata, &self.sha256) || !named.does_show(
            self.metadata,
            &self.sha256,
        ) {
            return Err(failure("source_changed"));
        }
        Ok(())
    }

    /// The device and the inode of the file.
    pub fn identity(&self) -> (r: (u64, u64))
        ensures
            r == (self.metadata.dev, self.metadata.ino),
    {
        (self.metadata.dev, self.metadata.ino)
    }

    /// The file as quarantine knows it.
    pub open spec fn quarantined(self) -> LegacyUploadMigrationQuarantineFileIdentity {
        LegacyUploadMigrationQuarantineFileIdentity {
            device: self.metadata.dev,
            inode: self.metadata.ino,
            owner: self.metadata.uid,
            mode: self.metadata.mode & PERMISSION_BITS,
            link_count: self.metadata.nlink,
            size_bytes: self.metadata.size,
            modified_unix_seconds: self.metadata.mtime,
            modified_unix_nanoseconds: self.metadata.mtime_nsec,
            sha256: self.sha256,
        }
    }

    /// The file as quarantine knows it.
    pub fn quarantine_identity(&self) -> (r: LegacyUploadMigrationQuarantineFileIdentity)
        ensures
            r == self.quarantined(),
    {
        LegacyUploadMigrationQuarantineFileIdentity {
            device: self.metadata.dev,
            inode: self.metadata.ino,
            owner: self.metadata.uid,
            mode: self.metadata.mode & PERMISSION_BITS,
            link_count: self.metadata.nlink,
            size_bytes: self.metadata.size,
            modified_unix_seconds: self.metadata.mtime,
            modified_unix_nanoseconds: self.metadata.mtime_nsec,
            sha256: self.sha256.clone(),
        }
    }
}

/// What quarantine would know of a file that is described like that and holds that content.
pub open spec fn file_view(metadata: EvidenceMetadata, content: Seq<u8>) -> FileView {
    FileView {
        device: metadata.dev,
        inode: metadata.ino,
        owner: metadata.uid,
        mode: metadata.mode & PERMISSION_BITS,
        link_count: metadata.nlink,
        size_bytes: metadata.size,
        modified_unix_seconds: metadata.mtime,
        modified_unix_nanoseconds: metadata.mtime_nsec,
        sha256: digest::sha256_hex(content),
    }
}

/// Three looks at one file: a first reading, and then a reading of the open file and one of the
/// file that has its name by then.
#[derive(Debug, PartialEq, Eq)]
pub struct HeldRead {
    pub read: SourceRead,
    pub held: SourceRead,
    pub named: SourceRead,
}

impl HeldRead {
    /// The file was read and had not changed by the later looks.
    pub open spec fn steady(self) -> bool {
        self.read matches SourceRead::Read(metadata, content) && self.held.shows(
            metadata,
            digest::sha256_hex(content@),
        ) && self.named.shows(metadata, digest::sha256_hex(content@))
    }

    /// What quarantine would know of the file.
    pub open spec fn seen(self) -> FileView {
        file_view(self.read->Read_0, self.read->Read_1@)
    }
}

/// The category under which a file is refused that has to be a given one, or nothing where it is
/// that file and does not change.
pub open spec fn held_refusal(
    path: Seq<char>,
    look: HeldRead,
    expected: FileView,
    category: Seq<char>,
) -> Option<Seq<char>> {
    match source_refusal(path, look.read) {
        Some(refused) => Some(refused),
        None => if look.seen() != expected {
            Some(category)
        } else if !look.steady() {
            Some("source_changed"@)
        } else {
            None
        },
    }
}

/// Whether a file is a given one and does not change.
pub fn require_held_file(
    path: &str,
    look: &HeldRead,
    expected: &LegacyUploadMigrationQuarantineFileIdentity,
    category: &'static str,
) -> (r: Result<(), LegacyUploadEvidenceError>)
    ensures
        error::refused_as(r, held_refusal(path@, *look, expected@, category@)),
{
    match HeldGenerationSource::open(path, &look.read) {
        Err(error) => Err(error),
        Ok(held) => {
            let seen = held.quarantine_identity();
            assert(seen@ == look.seen());
            if !seen.is_same(expected) {
                return Err(failure(category));
            }
            held.revalidate(&look.held, &look.named)
        },
    }
}

/// What was found at a path.
#[derive(Debug, PartialEq, Eq)]
pub enum FilePresence {
    /// Nothing.
    Missing,
    /// Whether there is something could not be told.
    Unknown,
    /// A file.
    Present(HeldRead),
}

/// What quarantine would know of the file at a path: the file, that there is none, or nothing
/// where that could not be told or the file may not be trusted.
pub open spec fn observed_file(path: Seq<char>, presence: FilePresence) -> Option<
    Option<FileView>,
> {
    match presence {
        FilePresence::Missing => Some(None),
        FilePresence::Unknown => None,
        FilePresence::Present(look) => if source_refusal(path, look.read) is None
            && look.steady() {
            Some(Some(look.seen()))
        } else {
            None
        },
    }
}

/// The file at a path, if there is one.
pub fn device_recovery_file_identity(path: &str, presence: &FilePresence) -> (r: Result<
    Option<LegacyUploadMigrationQuarantineFileIdentity>,
    LegacyUploadEvidenceError,
>)
    ensures
        match r {
            Ok(None) => observed_file(path@, *presence) == Some(None::<FileView>),
            Ok(Some(file)) => observed_file(path@, *presence) == Some(Some(file@)),
            Err(error) => observed_file(path@, *presence) is None && error@ == "recovery_layout"@,
        },
{
    match presence {
        FilePresence::Missing => Ok(None),
        FilePresence::Unknown => Err(failure("recovery_layout")),
        FilePresence::Present(look) => match HeldGenerationSource::open(path, &look.read) {
            Err(_) => Err(failure("recovery_layout")),
            Ok(held) => match held.revalidate(&look.held, &look.named) {
                Err(_) => Err(failure("recovery_layout")),
                Ok(()) => Ok(Some(held.quarantine_identity())),
            },
        },
    }
}

/// Evidence as it was read, with what the system said of its file.
#[derive(Debug, PartialEq, Eq)]
pub struct SealedEvidence {
    pub bytes: Vec<u8>,
    pub sha256: String,
    pub initial_metadata: EvidenceMetadata,
}

/// The category under which evidence is refused when it is read, or nothing.
pub open spec fn evidence_read_refusal(read: SourceRead, euid: u32) -> Option<Seq<char>> {
    match read {
        SourceRead::OpenFailed => Some("evidence_open"@),
        SourceRead::MetadataFailed => Some("evidence_metadata"@),
        SourceRead::ReadFailed(metadata) => if metadata.owner_only(euid) {
            Some("evidence_read"@)
        } else {
            Some("evidence_permissions"@)
        },
        SourceRead::Read(metadata, content) => if !metadata.owner_only(euid) {
            Some("evidence_permissions"@)
        } else if content@.len() > MAX_EVIDENCE_BYTES {
            Some("evidence_size"@)
        } else {
            None
        },
    }
}

/// Whether only its owner, the running user, may make use of a file.
pub fn is_owner_only(metadata: EvidenceMetadata, euid: u32) -> (r: bool)
    ensures
        r == metadata.owner_only(euid),
{
    validate_evidence_attributes(
        metadata.is_regular,
        metadata.mode,
        metadata.uid,
        metadata.nlink,
        euid,
    ).is_ok()
}

/// Whether two byte strings are the same.
pub fn same_bytes(a: &Vec<u8>, b: &Vec<u8>) -> (r: bool)
    ensures
        r == (a@ == b@),
{
    if a.len() != b.len() {
        return false;
    }
    let mut i: usize = 0;
    while i < a.len()
        invariant
            i <= a@.len(),
            a@.len() == b@.len(),
            forall|j: int| 0 <= j < i ==> a@[j] == b@[j],
        decreases a@.len() - i,
    {
        if a[i] != b[i] {
            return false;
        }
        i += 1;
    }
    assert(a@ =~= b@);
    true
}

/// Seals evidence that was read from a file of which only the running user may make use.
pub fn read_sealed_evidence(read: SourceRead, euid: u32) -> (r: Result<
    SealedEvidence,
    LegacyUploadEvidenceError,
>)
    ensures
        match r {
            Ok(sealed) => {
                &&& evidence_read_refusal(read, euid) is None
                &&& read matches SourceRead::Read(metadata, content) && sealed.initial_metadata
                    == metadata && sealed.bytes@ == content@
                &&& sealed.sha256@ == digest::sha256_hex(sealed.bytes@)
            },
            Err(error) => evidence_read_refusal(read, euid) == Some(error@),
        },
{
    match read {
        SourceRead::OpenFailed => Err(failure("evidence_open")),
        SourceRead::MetadataFailed => Err(failure("evidence_metadata")),
        SourceRead::ReadFailed(metadata) => if is_owner_only(metadata, euid) {
            Err(failure("evidence_read"))
        } else {
            Err(failure("evidence_permissions"))
        },
        SourceRead::Read(metadata, content) => {
            if !is_owner_only(metadata, euid) {
                return Err(failure("evidence_permissions"));
            }
            if content.len() as u64 > MAX_EVIDENCE_BYTES {
                return Err(failure("evidence_size"));
            }
            let sha256 = sha256_bytes(&content);
            Ok(SealedEvidence { bytes: content, sha256, initial_metadata: metadata })
        },
    }
}

/// Seals evidence that was read, and leaves what was read in place.
pub fn seal_read(read: &SourceRead, euid: u32) -> (r: Result<
    SealedEvidence,
    LegacyUploadEvidenceError,
>)
    ensures
        match r {
            Ok(sealed) => {
                &&& evidence_read_refusal(*read, euid) is None
                &&& read matches SourceRead::Read(metadata, content) && sealed.initial_metadata
                    == metadata && sealed.bytes@ == content@
                &&& sealed.sha256@ == digest::sha256_hex(sealed.bytes@)
            },
            Err(error) => evidence_read_refusal(*read, euid) == Some(error@),
        },
{
    let copy = match read {
        SourceRead::OpenFailed => SourceRead::OpenFailed,
        SourceRead::MetadataFailed => SourceRead::MetadataFailed,
        SourceRead::ReadFailed(metadata) => SourceRead::ReadFailed(*metadata),
        SourceRead::Read(metadata, content) => {
            let bytes = content.clone();
            assert(bytes@ =~= content@);
            SourceRead::Read(*metadata, bytes)
        },
    };
    read_sealed_evidence(copy, euid)
}

impl SealedEvidence {
    /// The evidence still is what was sealed: the open file holds the same bytes and is described
    /// as it was, and the file that has its name now is that file.
    pub open spec fn unchanged(
        self,
        reread: Option<Vec<u8>>,
        held: Option<EvidenceMetadata>,
        named: Option<EvidenceMetadata>,
        euid: u32,
    ) -> bool {
        &&& reread matches Some(bytes) && bytes@.len() <= MAX_EVIDENCE_BYTES && digest::sha256_hex(
            bytes@,
        ) == self.sha256@ && bytes@ == self.bytes@
        &&& held == Some(self.initial_metadata)
        &&& named == Some(self.initial_metadata)
        &&& self.initial_metadata.owner_only(euid)
    }
}

/// Whether sealed evidence still is what was sealed.
pub fn revalidate_sealed_evidence(
    evidence: &SealedEvidence,
    reread: &Option<Vec<u8>>,
    held: Option<EvidenceMetadata>,
    named: Option<EvidenceMetadata>,
    euid: u32,
) -> (r: Result<(), LegacyUploadEvidenceError>)
    ensures
        r is Ok <==> evidence.unchanged(*reread, held, named, euid),
        r matches Err(error) ==> error@ == "evidence_changed"@,
{
    let same_content: bool = match reread {
        Some(bytes) => bytes.len() as u64 <= MAX_EVIDENCE_BYTES && same_text(
            &sha256_bytes(bytes),
            &evidence.sha256,
        ) && same_bytes(bytes, &evidence.bytes),
        None => false,
    };
    if !same_content {
        return Err(failure("evidence_changed"));
    }
    match (held, named) {
        (Some(held), Some(named)) => if is_owner_only(held, euid) && held
            == evidence.initial_metadata && is_owner_only(named, euid) && named == held {
            Ok(())
        } else {
            Err(failure("evidence_changed"))
        },
        _ => Err(failure("evidence_changed")),
    }
}

/// A reference that is held open while the cohort is worked on.
#[derive(Debug, PartialEq, Eq)]
pub struct SealedReference {
    pub path: String,
    pub initial_metadata: EvidenceMetadata,
    pub sha256: String,
}

/// What is remembered of a file that was read: how it was described, and the digest of its
/// content.
pub open spec fn remembered(read: SourceRead) -> (EvidenceMetadata, Seq<char>) {
    (read->Read_0, digest::sha256_hex(read->Read_1@))
}

/// What sealed references remember of their files.
pub open spec fn memories(references: Seq<SealedReference>) -> Seq<(EvidenceMetadata, Seq<char>)> {
    references.map_values(
        |reference: SealedReference| (reference.initial_metadata, reference.sha256@),
    )
}

/// What the first references remember of their files.
pub open spec fn read_memories(reads: Seq<SourceRead>, n: nat) -> Seq<
    (EvidenceMetadata, Seq<char>),
> {
    Seq::new(n, |i: int| remembered(read_at(reads, i)))
}

/// What the references whose files are still there remember of them, among the first ones.
pub open spec fn present_memories(presences: Seq<Presence>, n: nat) -> Seq<
    (EvidenceMetadata, Seq<char>),
>
    decreases n,
{
    if n == 0 {
        Seq::empty()
    } else {
        match presence_at(presences, n - 1) {
            Presence::Present(read) => present_memories(presences, (n - 1) as nat).push(
                remembered(read),
            ),
            _ => present_memories(presences, (n - 1) as nat),
        }
    }
}

/// How an attempt to read the file of a reference went, from the list of all attempts.
pub open spec fn read_at(reads: Seq<SourceRead>, i: int) -> SourceRead {
    if 0 <= i < reads.len() {
        reads[i]
    } else {
        SourceRead::OpenFailed
    }
}

/// The file of a reference is described as the document says.
pub open spec fn reference_described(
    reference: EvidenceReferenceNormalization,
    metadata: EvidenceMetadata,
) -> bool {
    &&& metadata.is_regular
    &&& metadata.nlink == 1
    &&& metadata.dev == reference.device
    &&& metadata.ino == reference.inode
    &&& metadata.size == reference.size_bytes
}

/// The category under which the file of a reference is refused, or nothing.
pub open spec fn reference_open_refusal(
    reference: EvidenceReferenceNormalization,
    read: SourceRead,
) -> Option<Seq<char>> {
    match read {
        SourceRead::OpenFailed => Some("reference_open"@),
        SourceRead::MetadataFailed => Some("reference_metadata"@),
        SourceRead::ReadFailed(metadata) => if reference_described(reference, metadata) {
            Some("reference_read"@)
        } else {
            Some("reference_descriptor"@)
        },
        SourceRead::Read(metadata, content) => if reference_described(reference, metadata)
            && digest::sha256_hex(content@) == reference.file_sha256@ {
            None
        } else {
            Some("reference_descriptor"@)
        },
    }
}

/// The first refusal among the references, from the given place on.
pub open spec fn references_open_refusal(
    references: Seq<EvidenceReferenceNormalization>,
    reads: Seq<SourceRead>,
    from: int,
) -> Option<Seq<char>>
    decreases references.len() - from,
{
    if from < 0 || from >= references.len() {
        None
    } else {
        match reference_open_refusal(references[from], read_at(reads, from)) {
            Some(category) => Some(category),
            None => references_open_refusal(references, reads, from + 1),
        }
    }
}

/// A sealed reference stands for the very file that was read.
pub open spec fn reference_sealed(
    sealed: SealedReference,
    place: Seq<char>,
    read: SourceRead,
) -> bool {
    sealed.path@ == place && read.shows(sealed.initial_metadata, sealed.sha256@)
}

fn open_sealed_reference(reference: &EvidenceReferenceNormalization, read: &SourceRead) -> (r:
    Result<SealedReference, LegacyUploadEvidenceError>)
    ensures
        match r {
            Ok(sealed) => reference_open_refusal(*reference, *read) is None && reference_sealed(
                sealed,
                reference.reference_path@,
                *read,
            ),
            Err(error) => reference_open_refusal(*reference, *read) == Some(error@),
        },
{
    match read {
        SourceRead::OpenFailed => Err(failure("reference_open")),
        SourceRead::MetadataFailed => Err(failure("reference_metadata")),
        SourceRead::ReadFailed(metadata) => if is_reference_described(reference, *metadata) {
            Err(failure("reference_read"))
        } else {
            Err(failure("reference_descriptor"))
        },
        SourceRead::Read(metadata, content) => {
            if !is_reference_described(reference, *metadata) {
                return Err(failure("reference_descriptor"));
            }
            let sha256 = sha256_bytes(content);
            if !same_text(&sha256, &reference.file_sha256) {
                return Err(failure("reference_descriptor"));
            }
            Ok(
                SealedReference {
                    path: reference.reference_path.clone(),
                    initial_metadata: *metadata,
                    sha256,
                },
            )
        },
    }
}

fn is_reference_described(
    reference: &EvidenceReferenceNormalization,
    metadata: EvidenceMetadata,
) -> (r: bool)
    ensures
        r == reference_described(*reference, metadata),
{
    metadata.is_regular && metadata.nlink == 1 && metadata.dev == reference.device && metadata.ino
        == reference.inode && metadata.size == reference.size_bytes
}

/// Seals the references of a document, each read from the file that the document describes.
pub fn open_sealed_references(document: &EvidenceDocument, reads: &Vec<SourceRead>) -> (r: Result<
    Vec<SealedReference>,
    LegacyUploadEvidenceError,
>)
    ensures
        match r {
            Ok(sealed) => {
                &&& references_open_refusal(
                    document.reference_normalizations@,
                    reads@,
                    0,
                ) is None
                &&& sealed@.len() == document.reference_normalizations@.len()
                &&& forall|i: int|
                    0 <= i < sealed@.len() ==> (#[trigger] sealed@[i]).path@
                        == document.reference_normalizations@[i].reference_path@
                &&& memories(sealed@) == read_memories(
                    reads@,
                    document.reference_normalizations@.len(),
                )
            },
            Err(error) => references_open_refusal(
                document.reference_normalizations@,
                reads@,
                0,
            ) == Some(error@),
        },
{
    let references = &document.reference_normalizations;
    let mut sealed: Vec<SealedReference> = Vec::new();
    let mut i: usize = 0;
    while i < references.len()
        invariant
            i <= references@.len(),
            references@ == document.reference_normalizations@,
            references_open_refusal(references@, reads@, 0) == references_open_refusal(
                references@,
                reads@,
                i as int,
            ),
            sealed@.len() == i,
            forall|k: int|
                0 <= k < i ==> (#[trigger] sealed@[k]).path@ == references@[k].reference_path@,
            memories(sealed@) =~= read_memories(reads@, i as nat),
        decreases references@.len() - i,
    {
        let opened = if i < reads.len() {
            open_sealed_reference(&references[i], &reads[i])
        } else {
            open_sealed_reference(&references[i], &SourceRead::OpenFailed)
        };
        match opened {
            Err(error) => {
                return Err(error);
            },
            Ok(reference) => {
                let ghost prior = memories(sealed@);
                assert((reference.initial_metadata, reference.sha256@) == remembered(
                    read_at(reads@, i as int),
                ));
                sealed.push(reference);
                assert(memories(sealed@) =~= prior.push(remembered(read_at(reads@, i as int))));
                assert(read_memories(reads@, (i + 1) as nat) =~= read_memories(
                    reads@,
                    i as nat,
                ).push(remembered(read_at(reads@, i as int))));
            },
        }
        i += 1;
    }
    Ok(sealed)
}

/// How an attempt to find and read a file went.
#[derive(Debug, PartialEq, Eq)]
pub enum Presence {
    /// There is no file of that name.
    Missing,
    /// Whether there is one could not be told.
    Unknown,
    /// There is one.
    Present(SourceRead),
}

/// How an attempt to find and read the file of a reference went, from the list of all attempts.
pub open spec fn presence_at(presences: Seq<Presence>, i: int) -> Presence {
    if 0 <= i < presences.len() {
        presences[i]
    } else {
        Presence::Unknown
    }
}

/// The file may be held, or there is none.
pub open spec fn holdable(path: Seq<char>, presence: Presence) -> bool {
    match presence {
        Presence::Missing => true,
        Presence::Unknown => false,
        Presence::Present(read) => source_refusal(path, read) is None,
    }
}

/// Every reference may be held, or its file is gone.
pub open spec fn all_holdable(
    references: Seq<EvidenceReferenceNormalization>,
    presences: Seq<Presence>,
) -> bool {
    forall|i: int|
        0 <= i < references.len() ==> holdable(
            (#[trigger] references[i]).reference_path@,
            presence_at(presences, i),
        )
}

/// The paths of the references whose files are still there.
pub open spec fn present_paths(
    references: Seq<EvidenceReferenceNormalization>,
    presences: Seq<Presence>,
) -> Seq<Seq<char>>
    decreases references.len(),
{
    if references.len() == 0 {
        Seq::empty()
    } else if presence_at(presences, references.len() - 1) is Present {
        present_paths(references.drop_last(), presences).push(references.last().reference_path@)
    } else {
        present_paths(references.drop_last(), presences)
    }
}

/// The paths of sealed references.
pub open spec fn paths_of(references: Seq<SealedReference>) -> Seq<Seq<char>> {
    references.map_values(|reference: SealedReference| reference.path@)
}

/// Seals the references of a document whose files are still there. A reference that was moved
/// into quarantine already is passed over.
pub fn open_sealed_references_for_partial_recovery(
    document: &EvidenceDocument,
    presences: &Vec<Presence>,
) -> (r: Result<Vec<SealedReference>, LegacyUploadEvidenceError>)
    ensures
        match r {
            Ok(sealed) => {
                &&& all_holdable(document.reference_normalizations@, presences@)
                &&& paths_of(sealed@) == present_paths(
                    document.reference_normalizations@,
                    presences@,
                )
                &&& memories(sealed@) == present_memories(
                    presences@,
                    document.reference_normalizations@.len(),
                )
            },
            Err(error) => error@ == "reference_descriptor"@ && !all_holdable(
                document.reference_normalizations@,
                presences@,
            ),
        },
{
    let references = &document.reference_normalizations;
    let mut sealed: Vec<SealedReference> = Vec::new();
    let mut i: usize = 0;
    proof {
        assert(references@.take(0) =~= Seq::empty());
        assert(paths_of(sealed@) =~= Seq::empty());
        assert(memories(sealed@) =~= Seq::empty());
    }
    while i < references.len()
        invariant
            i <= references@.len(),
            references@ == document.reference_normalizations@,
            forall|k: int|
                0 <= k < i ==> holdable(
                    (#[trigger] references@[k]).reference_path@,
                    presence_at(presences@, k),
                ),
            paths_of(sealed@) == present_paths(references@.take(i as int), presences@),
            memories(sealed@) == present_memories(presences@, i as nat),
        decreases references@.len() - i,
    {
        assert(references@.take(i + 1).drop_last() =~= references@.take(i as int));
        if i >= presences.len() {
            assert(!holdable(
                document.reference_normalizations@[i as int].reference_path@,
                presence_at(presences@, i as int),
            ));
            return Err(failure("reference_descriptor"));
        }
        match &presences[i] {
            Presence::Missing => {},
            Presence::Unknown => {
                assert(!holdable(
                    document.reference_normalizations@[i as int].reference_path@,
                    presence_at(presences@, i as int),
                ));
                return Err(failure("reference_descriptor"));
            },
            Presence::Present(read) => {
                match HeldGenerationSource::open(&references[i].reference_path, read) {
                    Err(_) => {
                        assert(!holdable(
                            document.reference_normalizations@[i as int].reference_path@,
                            presence_at(presences@, i as int),
                        ));
                        return Err(failure("reference_descriptor"));
                    },
                    Ok(held) => {
                        let ghost prior_paths = paths_of(sealed@);
                        let ghost prior_memories = memories(sealed@);
                        let ghost path = held.path@;
                        let ghost memory = (held.metadata, held.sha256@);
                        sealed.push(
                            SealedReference {
                                path: held.path,
                                initial_metadata: held.metadata,
                                sha256: held.sha256,
                            },
                        );
                        assert(paths_of(sealed@) =~= prior_paths.push(path));
                        assert(memories(sealed@) =~= prior_memories.push(memory));
                    },
                }
            },
        }
        i += 1;
    }
    assert(references@.take(references@.len() as int) =~= references@);
    Ok(sealed)
}

/// The category under which a look at the open file of a reference is refused, or nothing: the
/// file has to be described as expected and to hold the same.
pub open spec fn reread_refusal(
    memory: (EvidenceMetadata, Seq<char>),
    read: SourceRead,
    renamed: bool,
) -> Option<Seq<char>> {
    match read {
        SourceRead::OpenFailed => Some("reference_metadata"@),
        SourceRead::MetadataFailed => Some("reference_metadata"@),
        SourceRead::ReadFailed(metadata) => if described_again(memory.0, metadata, renamed) {
            Some("reference_read"@)
        } else {
            Some("reference_changed"@)
        },
        SourceRead::Read(metadata, content) => if described_again(memory.0, metadata, renamed)
            && digest::sha256_hex(content@) == memory.1 {
            None
        } else {
            Some("reference_changed"@)
        },
    }
}

/// The file of a reference is described as when it was sealed, or, where it may have been
/// renamed, as a renamed file would be.
pub open spec fn described_again(
    initial: EvidenceMetadata,
    metadata: EvidenceMetadata,
    renamed: bool,
) -> bool {
    if renamed {
        metadata.same_but_renamed(initial)
    } else {
        metadata == initial
    }
}

/// The category under which a look at the file that has the reference's name now is refused.
pub open spec fn named_refusal(
    memory: (EvidenceMetadata, Seq<char>),
    read: SourceRead,
) -> Option<Seq<char>> {
    if read is OpenFailed {
        Some("reference_changed"@)
    } else {
        reread_refusal(memory, read, false)
    }
}

fn reread_reference(reference: &SealedReference, read: &SourceRead, renamed: bool) -> (r: Result<
    (),
    LegacyUploadEvidenceError,
>)
    ensures
        error::refused_as(
            r,
            reread_refusal((reference.initial_metadata, reference.sha256@), *read, renamed),
        ),
{
    match read {
        SourceRead::OpenFailed => Err(failure("reference_metadata")),
        SourceRead::MetadataFailed => Err(failure("reference_metadata")),
        SourceRead::ReadFailed(metadata) => if is_described_again(
            reference,
            *metadata,
            renamed,
        ) {
            Err(failure("reference_read"))
        } else {
            Err(failure("reference_changed"))
        },
        SourceRead::Read(metadata, content) => if is_described_again(reference, *metadata, renamed)
            && same_text(&sha256_bytes(content), &reference.sha256) {
            Ok(())
        } else {
            Err(failure("reference_changed"))
        },
    }
}

fn is_described_again(
    reference: &SealedReference,
    metadata: EvidenceMetadata,
    renamed: bool,
) -> (r: bool)
    ensures
        r == described_again(reference.initial_metadata, metadata, renamed),
{
    if renamed {
        metadata.matches_after_rename(reference.initial_metadata)
    } else {
        metadata == reference.initial_metadata
    }
}

/// The first refusal among sealed references, from the given place on: first by the open file,
/// then by the file that has its name now.
pub open spec fn references_reread_refusal(
    references: Seq<(EvidenceMetadata, Seq<char>)>,
    held: Seq<SourceRead>,
    named: Seq<SourceRead>,
    from: int,
) -> Option<Seq<char>>
    decreases references.len() - from,
{
    if from < 0 || from >= references.len() {
        None
    } else {
        match reread_refusal(references[from], read_at(held, from), false) {
            Some(category) => Some(category),
            None => match named_refusal(references[from], read_at(named, from)) {
                Some(category) => Some(category),
                None => references_reread_refusal(references, held, named, from + 1),
            },
        }
    }
}

/// Whether sealed references still are what was sealed, under the same names.
pub fn revalidate_sealed_references(
    references: &Vec<SealedReference>,
    held: &Vec<SourceRead>,
    named: &Vec<SourceRead>,
) -> (r: Result<(), LegacyUploadEvidenceError>)
    ensures
        error::refused_as(r, references_reread_refusal(memories(references@), held@, named@, 0)),
{
    let mut i: usize = 0;
    while i < references.len()
        invariant
            i <= references@.len(),
            references_reread_refusal(memories(references@), held@, named@, 0) == references_reread_refusal(
                memories(references@),
                held@,
                named@,
                i as int,
            ),
        decreases references@.len() - i,
    {
        if i >= held.len() {
            return Err(failure("reference_metadata"));
        }
        match reread_reference(&references[i], &held[i], false) {
            Err(error) => {
                return Err(error);
            },
            Ok(()) => {},
        }
        if i >= named.len() {
            return Err(failure("reference_changed"));
        }
        match &named[i] {
            SourceRead::OpenFailed => {
                return Err(failure("reference_changed"));
            },
            read => match reread_reference(&references[i], read, false) {
                Err(error) => {
                    return Err(error);
                },
                Ok(()) => {},
            },
        }
        i += 1;
    }
    Ok(())
}

/// The first refusal among sealed references that may have been renamed, from the given place on.
pub open spec fn descriptors_reread_refusal(
    references: Seq<(EvidenceMetadata, Seq<char>)>,
    held: Seq<SourceRead>,
    from: int,
) -> Option<Seq<char>>
    decreases references.len() - from,
{
    if from < 0 || from >= references.len() {
        None
    } else {
        match reread_refusal(references[from], read_at(held, from), true) {
            Some(category) => Some(category),
            None => descriptors_reread_refusal(references, held, from + 1),
        }
    }
}

/// Whether sealed references still are what was sealed, possibly under other names.
pub fn revalidate_held_reference_descriptors(
    references: &Vec<SealedReference>,
    held: &Vec<SourceRead>,
) -> (r: Result<(), LegacyUploadEvidenceError>)
    ensures
        error::refused_as(r, descriptors_reread_refusal(memories(references@), held@, 0)),
{
    let mut i: usize = 0;
    while i < references.len()
        invariant
            i <= references@.len(),
            descriptors_reread_refusal(memories(references@), held@, 0) == descriptors_reread_refusal(
                memories(references@),
                held@,
                i as int,
            ),
        decreases references@.len() - i,
    {
        if i >= held.len() {
            return Err(failure("reference_metadata"));
        }
        match reread_reference(&references[i], &held[i], true) {
            Err(error) => {
                return Err(error);
            },
            Ok(()) => {},
        }
        i += 1;
    }
    Ok(())
}

/// No change to sealed evidence goes unnoticed: neither other bytes, nor any difference in what the
/// system says of the open file or of the file that has its name now.
pub proof fn changed_evidence_is_refused(
    sealed: SealedEvidence,
    reread: Option<Vec<u8>>,
    held: Option<EvidenceMetadata>,
    named: Option<EvidenceMetadata>,
    euid: u32,
)
    requires
        reread is None || reread->0@ != sealed.bytes@ || held != Some(sealed.initial_metadata)
            || named != Some(sealed.initial_metadata),
    ensures
        !sealed.unchanged(reread, held, named, euid),
{
}

/// Renaming a file twice is no different from renaming it once.
pub proof fn renaming_composes(a: EvidenceMetadata, b: EvidenceMetadata, c: EvidenceMetadata)
    ensures
        a.same_but_renamed(a),
        a.same_but_renamed(b) == b.same_but_renamed(a),
        a.same_but_renamed(b) && b.same_but_renamed(c) ==> a.same_but_renamed(c),
{
}

/// A file counts as its owner's alone if it is regular, has one name, belongs to the running user,
/// and may be read and written by that user and by nobody else; what else its mode says makes no
/// difference.
pub proof fn only_private_files_are_owner_only(metadata: EvidenceMetadata, euid: u32)
    ensures
        metadata.owner_only(euid) <==> metadata.is_regular && metadata.nlink == 1 && metadata.uid
            == euid && metadata.mode & 511 == 384,
{
}

/// Evidence that was read is accepted whatever it holds, up to and including a megabyte, where its
/// file is the running user's alone; it is refused for nothing else.
pub proof fn private_evidence_up_to_a_megabyte_is_read(read: SourceRead, euid: u32)
    ensures
        evidence_read_refusal(read, euid) is None <==> (read matches SourceRead::Read(
            metadata,
            content,
        ) && metadata.is_regular && metadata.nlink == 1 && metadata.uid == euid && metadata.mode
            & 511 == 384 && content@.len() <= 1_048_576),
        read is OpenFailed ==> evidence_read_refusal(read, euid) == Some("evidence_open"@),
        read is MetadataFailed ==> evidence_read_refusal(read, euid) == Some("evidence_metadata"@),
        read matches SourceRead::Read(metadata, content) && metadata.is_regular && metadata.nlink
            == 1 && metadata.uid == euid && metadata.mode & 511 == 384 && content@.len()
            > 1_048_576 ==> evidence_read_refusal(read, euid) == Some("evidence_size"@),
{
}

/// A source is accepted if it is a regular file with one name and is not empty, at an absolute
/// path that goes nowhere up; its owner, its mode and its size make no difference.
pub proof fn regular_files_are_sources(path: Seq<char>, read: SourceRead)
    ensures
        source_refusal(path, read) is None <==> path::safe_place(path) && (
        read matches SourceRead::Read(metadata, _) && metadata.is_regular && metadata.nlink == 1
            && metadata.size > 0),
        !path::safe_place(path) ==> source_refusal(path, read) == Some("source_path"@),
        path::safe_place(path) && read is OpenFailed ==> source_refusal(path, read) == Some(
            "source_open"@,
        ),
{
}

/// A file is steady if each of two later looks finds the very description and the very content
/// that the first look found.
pub proof fn steady_files_are_found_twice_again(look: HeldRead)
    ensures
        look.steady() <==> (look.read matches SourceRead::Read(first, content) && (
        look.held matches SourceRead::Read(second, kept) && (look.named matches SourceRead::Read(
            third,
            named,
        ) && second == first && third == first && digest::sha256_hex(kept@) == digest::sha256_hex(
            content@,
        ) && digest::sha256_hex(named@) == digest::sha256_hex(content@)))),
{
}

/// A look that found the very file three times is accepted, and one that found another file is
/// refused under the category that was given.
pub proof fn the_expected_file_is_accepted(
    path: Seq<char>,
    look: HeldRead,
    expected: FileView,
    category: Seq<char>,
)
    ensures
        held_refusal(path, look, expected, category) is None <==> {
            &&& path::safe_place(path)
            &&& look.read matches SourceRead::Read(metadata, content)
            &&& metadata.is_regular
            &&& metadata.nlink == 1
            &&& metadata.size != 0
            &&& expected.device == metadata.dev
            &&& expected.inode == metadata.ino
            &&& expected.owner == metadata.uid
            &&& expected.mode == metadata.mode & 511
            &&& expected.link_count == metadata.nlink
            &&& expected.size_bytes == metadata.size
            &&& expected.modified_unix_seconds == metadata.mtime
            &&& expected.modified_unix_nanoseconds == metadata.mtime_nsec
            &&& expected.sha256 == digest::sha256_hex(content@)
            &&& look.held.shows(metadata, digest::sha256_hex(content@))
            &&& look.named.shows(metadata, digest::sha256_hex(content@))
        },
{
}

/// What was found at a path can be told where nothing lies there, or where a source lies there
/// that stays as it is.
pub proof fn missing_and_steady_files_can_be_told(path: Seq<char>, presence: FilePresence)
    ensures
        presence is Missing ==> observed_file(path, presence) == Some(None::<FileView>),
        presence is Unknown ==> observed_file(path, presence) is None,
        presence matches FilePresence::Present(look) ==> (observed_file(path, presence) is Some
            <==> source_refusal(path, look.read) is None && look.steady()),
        observed_file(path, presence) matches Some(Some(file)) ==> (
        presence matches FilePresence::Present(look) && (look.read matches SourceRead::Read(
            metadata,
            content,
        ) && file.device == metadata.dev && file.inode == metadata.ino && file.size_bytes
            == metadata.size && file.sha256 == digest::sha256_hex(content@))),
{
}

proof fn opened_references_from(
    references: Seq<EvidenceReferenceNormalization>,
    reads: Seq<SourceRead>,
    from: int,
)
    requires
        0 <= from <= references.len(),
    ensures
        references_open_refusal(references, reads, from) is None <==> forall|i: int|
            from <= i < references.len() ==> reference_open_refusal(
                #[trigger] references[i],
                read_at(reads, i),
            ) is None,
    decreases references.len() - from,
{
    if from < references.len() {
        opened_references_from(references, reads, from + 1);
        if references_open_refusal(references, reads, from) is None {
            assert forall|i: int| from <= i < references.len() implies reference_open_refusal(
                #[trigger] references[i],
                read_at(reads, i),
            ) is None by {}
        }
    }
}

/// A file was read as the regular file of one name, device, inode, size and content.
pub open spec fn read_as(
    read: SourceRead,
    device: u64,
    inode: u64,
    size_bytes: u64,
    sha256: Seq<char>,
) -> bool {
    &&& read matches SourceRead::Read(metadata, content)
    &&& metadata.is_regular
    &&& metadata.nlink == 1
    &&& metadata.dev == device
    &&& metadata.ino == inode
    &&& metadata.size == size_bytes
    &&& digest::sha256_hex(content@) == sha256
}

/// References are opened where each was read as the regular file of one name, device, inode, size
/// and content that was sealed, and otherwise refused.
pub proof fn references_open_as_they_were_sealed(
    references: Seq<EvidenceReferenceNormalization>,
    reads: Seq<SourceRead>,
)
    requires
        reads.len() >= references.len(),
    ensures
        references_open_refusal(references, reads, 0) is None <==> forall|i: int|
            0 <= i < references.len() ==> read_as(
                reads[i],
                (#[trigger] references[i]).device,
                references[i].inode,
                references[i].size_bytes,
                references[i].file_sha256@,
            ),
{
    opened_references_from(references, reads, 0);
    assert forall|i: int| 0 <= i < references.len() implies (reference_open_refusal(
        #[trigger] references[i],
        read_at(reads, i),
    ) is None <==> read_as(
        reads[i],
        references[i].device,
        references[i].inode,
        references[i].size_bytes,
        references[i].file_sha256@,
    )) by {}
}

proof fn reread_references_from(
    memories: Seq<(EvidenceMetadata, Seq<char>)>,
    held: Seq<SourceRead>,
    named: Seq<SourceRead>,
    from: int,
)
    requires
        0 <= from <= memories.len(),
    ensures
        references_reread_refusal(memories, held, named, from) is None <==> forall|i: int|
            from <= i < memories.len() ==> read_at(held, i).shows(
                (#[trigger] memories[i]).0,
                memories[i].1,
            ) && read_at(named, i).shows(memories[i].0, memories[i].1),
        descriptors_reread_refusal(memories, held, from) is None <==> forall|i: int|
            from <= i < memories.len() ==> reread_refusal(
                #[trigger] memories[i],
                read_at(held, i),
                true,
            ) is None,
    decreases memories.len() - from,
{
    if from < memories.len() {
        reread_references_from(memories, held, named, from + 1);
        assert(reread_refusal(memories[from], read_at(held, from), false) is None <==> read_at(
            held,
            from,
        ).shows(memories[from].0, memories[from].1));
        assert(named_refusal(memories[from], read_at(named, from)) is None <==> read_at(
            named,
            from,
        ).shows(memories[from].0, memories[from].1));
    }
}

/// A file was read with the very description and content that are remembered.
pub open spec fn read_like(read: SourceRead, memory: (EvidenceMetadata, Seq<char>)) -> bool {
    &&& read matches SourceRead::Read(again, content)
    &&& again == memory.0
    &&& digest::sha256_hex(content@) == memory.1
}

/// A file was read with the content that is remembered, and with the description but for the time
/// at which that last changed.
pub open spec fn read_like_but_renamed(
    read: SourceRead,
    memory: (EvidenceMetadata, Seq<char>),
) -> bool {
    &&& read matches SourceRead::Read(again, content)
    &&& again.is_regular == memory.0.is_regular
    &&& again.dev == memory.0.dev
    &&& again.ino == memory.0.ino
    &&& again.mode == memory.0.mode
    &&& again.uid == memory.0.uid
    &&& again.gid == memory.0.gid
    &&& again.nlink == memory.0.nlink
    &&& again.size == memory.0.size
    &&& again.mtime == memory.0.mtime
    &&& again.mtime_nsec == memory.0.mtime_nsec
    &&& digest::sha256_hex(content@) == memory.1
}

/// Held references pass another look if each is found again, by its descriptor and by its name,
/// with the very description and content that it was opened with.
pub proof fn unchanged_references_pass_another_look(
    memories: Seq<(EvidenceMetadata, Seq<char>)>,
    held: Seq<SourceRead>,
    named: Seq<SourceRead>,
)
    requires
        held.len() >= memories.len(),
        named.len() >= memories.len(),
    ensures
        references_reread_refusal(memories, held, named, 0) is None <==> forall|i: int|
            0 <= i < memories.len() ==> read_like(held[i], #[trigger] memories[i]) && read_like(
                named[i],
                memories[i],
            ),
{
    reread_references_from(memories, held, named, 0);
    assert forall|i: int| 0 <= i < memories.len() implies (read_at(held, i).shows(
        (#[trigger] memories[i]).0,
        memories[i].1,
    ) && read_at(named, i).shows(memories[i].0, memories[i].1) <==> read_like(held[i], memories[i])
        && read_like(named[i], memories[i])) by {}
}

/// A reference that may have been renamed meanwhile passes if nothing but its change time is new.
pub proof fn renamed_references_keep_all_but_their_change_time(
    memories: Seq<(EvidenceMetadata, Seq<char>)>,
    held: Seq<SourceRead>,
)
    requires
        held.len() >= memories.len(),
    ensures
        descriptors_reread_refusal(memories, held, 0) is None <==> forall|i: int|
            0 <= i < memories.len() ==> read_like_but_renamed(held[i], #[trigger] memories[i]),
{
    reread_references_from(memories, held, held, 0);
    assert forall|i: int| 0 <= i < memories.len() implies (reread_refusal(
        #[trigger] memories[i],
        read_at(held, i),
        true,
    ) is None <==> read_like_but_renamed(held[i], memories[i])) by {}
}

/// A reference can be held during a partial recovery if nothing lies at its path any more, or a
/// source does; the references that are still there are the ones that are held, in their order.
pub proof fn references_still_there_are_held(
    references: Seq<EvidenceReferenceNormalization>,
    presences: Seq<Presence>,
)
    requires
        presences.len() == references.len(),
    ensures
        all_holdable(references, presences) <==> forall|i: int|
            0 <= i < references.len() ==> (presences[i] is Missing || (
            presences[i] matches Presence::Present(read) && source_refusal(
                (#[trigger] references[i]).reference_path@,
                read,
            ) is None)),
        present_paths(references, presences).len() == present_memories(
            presences,
            references.len(),
        ).len(),
        forall|i: int|
            0 <= i < references.len() && (#[trigger] presences[i]) is Present ==> present_paths(
                references,
                presences,
            ).contains(references[i].reference_path@),
        (forall|i: int| 0 <= i < presences.len() ==> (#[trigger] presences[i]) is Present)
            ==> present_paths(references, presences) == references.map_values(
            |reference: EvidenceReferenceNormalization| reference.reference_path@,
        ),
        (forall|i: int| 0 <= i < presences.len() ==> (#[trigger] presences[i]) is Missing)
            ==> present_paths(references, presences).len() == 0,
{
    assert forall|i: int| 0 <= i < references.len() implies (holdable(
        (#[trigger] references[i]).reference_path@,
        presence_at(presences, i),
    ) <==> (presences[i] is Missing || (presences[i] matches Presence::Present(read)
        && source_refusal(references[i].reference_path@, read) is None))) by {}
    present_paths_of(references, presences);
}

proof fn present_paths_of(
    references: Seq<EvidenceReferenceNormalization>,
    presences: Seq<Presence>,
)
    requires
        presences.len() >= references.len(),
    ensures
        present_paths(references, presences).len() == present_memories(
            presences,
            references.len(),
        ).len(),
        forall|i: int|
            0 <= i < references.len() && (#[trigger] presences[i]) is Present ==> present_paths(
                references,
                presences,
            ).contains(references[i].reference_path@),
        (forall|i: int| 0 <= i < references.len() ==> (#[trigger] presences[i]) is Present)
            ==> present_paths(references, presences) == references.map_values(
            |reference: EvidenceReferenceNormalization| reference.reference_path@,
        ),
        (forall|i: int| 0 <= i < references.len() ==> (#[trigger] presences[i]) is Missing)
            ==> present_paths(references, presences).len() == 0,
    decreases references.len(),
{
    let path_of = |reference: EvidenceReferenceNormalization| reference.reference_path@;
    if references.len() == 0 {
        assert(references.map_values(path_of) =~= Seq::empty());
    } else {
        let front = references.drop_last();
        let n = references.len() - 1;
        present_paths_of(front, presences);
        let inner = present_paths(front, presences);
        let all = present_paths(references, presences);
        assert forall|i: int|
            0 <= i < references.len() && (#[trigger] presences[i]) is Present implies all.contains(
            references[i].reference_path@,
        ) by {
            if i < n {
                assert(inner.contains(front[i].reference_path@));
                let k = choose|k: int| 0 <= k < inner.len() && inner[k] == front[i].reference_path@;
                assert(all[k] == references[i].reference_path@);
            } else {
                assert(all[inner.len() as int] == references[i].reference_path@);
            }
        }
        if forall|i: int| 0 <= i < references.len() ==> (#[trigger] presences[i]) is Present {
            assert(presences[n] is Present);
            assert(all =~= references.map_values(path_of));
        }
        if forall|i: int| 0 <= i < references.len() ==> (#[trigger] presences[i]) is Missing {
            assert(presences[n] is Missing);
        }
    }
}

/// What is wrong with a source is told by its name: a place that is not safe, a file that cannot be
/// opened, looked at or read, or one that is no file of its own with content.
pub proof fn faults_of_a_source_are_named(
    path: Seq<char>,
    metadata: EvidenceMetadata,
    content: Vec<u8>,
)
    ensures
        ({
            let safe = path::safe_place(path);
            let sound = metadata.is_regular && metadata.nlink == 1 && metadata.size > 0;
            let told = source_refusal(path, SourceRead::Read(metadata, content));
            &&& !safe ==> told == Some("source_path"@)
            &&& safe && !sound ==> told == Some("source_metadata"@)
        }),
{
}

/// What goes wrong before a source is read is told by its name.
pub proof fn failed_reads_of_a_source_are_named(path: Seq<char>, metadata: EvidenceMetadata)
    requires
        path::safe_place(path),
    ensures
        source_refusal(path, SourceRead::OpenFailed) == Some("source_open"@),
        source_refusal(path, SourceRead::MetadataFailed) == Some("source_metadata"@),
        metadata.is_regular && metadata.nlink == 1 && metadata.size > 0 ==> source_refusal(
            path,
            SourceRead::ReadFailed(metadata),
        ) == Some("source_read"@),
        !(metadata.is_regular && metadata.nlink == 1 && metadata.size > 0) ==> source_refusal(
            path,
            SourceRead::ReadFailed(metadata),
        ) == Some("source_metadata"@),
{
}

/// What is wrong with a file of evidence is told by its name.
pub proof fn faults_of_evidence_are_named(metadata: EvidenceMetadata, content: Vec<u8>, euid: u32)
    ensures
        evidence_read_refusal(SourceRead::OpenFailed, euid) == Some("evidence_open"@),
        evidence_read_refusal(SourceRead::MetadataFailed, euid) == Some("evidence_metadata"@),
        !metadata.owner_only(euid) ==> evidence_read_refusal(
            SourceRead::Read(metadata, content),
            euid,
        ) == Some("evidence_permissions"@) && evidence_read_refusal(
            SourceRead::ReadFailed(metadata),
            euid,
        ) == Some("evidence_permissions"@),
        metadata.owner_only(euid) ==> evidence_read_refusal(SourceRead::ReadFailed(metadata), euid)
            == Some("evidence_read"@),
        metadata.owner_only(euid) && content@.len() > 1_048_576 ==> evidence_read_refusal(
            SourceRead::Read(metadata, content),
            euid,
        ) == Some("evidence_size"@),
{
}

/// What is wrong with one reference is told by its name, both when it is opened and when it is read
/// again.
pub proof fn faults_of_a_reference_are_named(
    reference: EvidenceReferenceNormalization,
    metadata: EvidenceMetadata,
    content: Vec<u8>,
    memory: (EvidenceMetadata, Seq<char>),
    renamed: bool,
)
    ensures
        reference_open_refusal(reference, SourceRead::OpenFailed) == Some("reference_open"@),
        reference_open_refusal(reference, SourceRead::MetadataFailed) == Some(
            "reference_metadata"@,
        ),
        reference_described(reference, metadata) ==> reference_open_refusal(
            reference,
            SourceRead::ReadFailed(metadata),
        ) == Some("reference_read"@),
        !reference_described(reference, metadata) ==> reference_open_refusal(
            reference,
            SourceRead::ReadFailed(metadata),
        ) == Some("reference_descriptor"@) && reference_open_refusal(
            reference,
            SourceRead::Read(metadata, content),
        ) == Some("reference_descriptor"@),
        digest::sha256_hex(content@) != reference.file_sha256@ ==> reference_open_refusal(
            reference,
            SourceRead::Read(metadata, content),
        ) == Some("reference_descriptor"@),
        reread_refusal(memory, SourceRead::OpenFailed, renamed) == Some("reference_metadata"@),
        reread_refusal(memory, SourceRead::MetadataFailed, renamed) == Some(
            "reference_metadata"@,
        ),
        reread_refusal(memory, SourceRead::ReadFailed(memory.0), false) == Some(
            "reference_read"@,
        ),
        metadata != memory.0 ==> reread_refusal(memory, SourceRead::Read(metadata, content), false)
            == Some("reference_changed"@) && reread_refusal(
            memory,
            SourceRead::ReadFailed(metadata),
            false,
        ) == Some("reference_changed"@),
        digest::sha256_hex(content@) != memory.1 ==> reread_refusal(
            memory,
            SourceRead::Read(metadata, content),
            renamed,
        ) == Some("reference_changed"@),
        named_refusal(memory, SourceRead::OpenFailed) == Some("reference_changed"@),
{
}

/// A held file is refused for what is wrong with its source first, under the given name if it is
/// another file, and as changed if it does not stay as it is.
pub proof fn faults_of_a_held_file_are_named(
    path: Seq<char>,
    look: HeldRead,
    expected: FileView,
    category: Seq<char>,
)
    ensures
        source_refusal(path, look.read) is Some ==> held_refusal(path, look, expected, category)
            == source_refusal(path, look.read),
        source_refusal(path, look.read) is None && look.seen() != expected ==> held_refusal(
            path,
            look,
            expected,
            category,
        ) == Some(category),
        source_refusal(path, look.read) is None && look.seen() == expected && !look.steady()
            ==> held_refusal(path, look, expected, category) == Some("source_changed"@),
{
}

/// A reference is told by the read, or the presence, at its own place; where there is none it could
/// not be opened, or nothing is known of it.
pub proof fn reads_go_by_their_place(reads: Seq<SourceRead>, presences: Seq<Presence>, i: int)
    requires
        0 <= i,
    ensures
        i < reads.len() ==> read_at(reads, i) == reads[i],
        i >= reads.len() ==> read_at(reads, i) is OpenFailed,
        i < presences.len() ==> presence_at(presences, i) == presences[i],
        i >= presences.len() ==> presence_at(presences, i) is Unknown,
{
}

} // verus!
