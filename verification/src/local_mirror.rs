use vstd::prelude::*;
use vstd::string::*;

use crate::digest;
use crate::digest::sha256_bytes;
use crate::manifest::IcloudpdLocalMirrorProof;
use crate::path;
use crate::path::{file_name, join_path, parent_path};
use crate::text::same_text;

verus! {

/// Which upload is to have a copy where iCloudPD would have downloaded it.
#[derive(Debug, PartialEq, Eq)]
pub struct IcloudpdLocalMirrorRequest {
    pub uploaded_heic_asset_id: String,
    pub uploaded_heic_sha256: String,
    pub uploaded_heic_path: String,
    pub size_bytes: u64,
    pub icloudpd_download_path: String,
}

/// What a file is known by.
#[derive(Debug, PartialEq, Eq)]
pub struct FileIdentity {
    pub sha256: String,
    pub size_bytes: u64,
}

/// Why an upload has no local mirror.
#[derive(Debug, PartialEq, Eq)]
pub enum LocalMirrorError {
    EmptyPath { field: &'static str },
    InvalidPath { field: &'static str, path: String, reason: &'static str },
    Symlink { field: &'static str, path: String },
    Directory { field: &'static str, path: String },
    NotRegularFile { field: &'static str, path: String },
    Mismatch { field: &'static str, expected: String, actual: String },
    /// An operation of the system failed; `source` is what the system said of it.
    Io { operation: &'static str, path: String, source: String },
}

/// A refusal, as texts.
pub enum RefusalView {
    EmptyPath { field: Seq<char> },
    InvalidPath { field: Seq<char>, path: Seq<char>, reason: Seq<char> },
    Symlink { field: Seq<char>, path: Seq<char> },
    Directory { field: Seq<char>, path: Seq<char> },
    NotRegularFile { field: Seq<char>, path: Seq<char> },
    Mismatch { field: Seq<char>, expected: Seq<char>, actual: Seq<char> },
    Io { operation: Seq<char>, path: Seq<char>, source: Seq<char> },
}

/// The decimal numeral of a number.
pub open spec fn decimal(n: nat) -> Seq<char>
    decreases n,
{
    if n < 10 {
        seq![digest::hex_digit(n as int)]
    } else {
        decimal(n / 10).push(digest::hex_digit((n % 10) as int))
    }
}

/// The decimal numeral of a number.
pub fn decimal_text(n: u64) -> (r: String)
    ensures
        r@ == decimal(n as nat),
    decreases n,
{
    let last: char = digest::hex_char((n % 10) as u8);
    if n < 10 {
        let mut r: String = String::new();
        r.push(last);
        assert(r@ =~= decimal(n as nat));
        r
    } else {
        let mut r: String = decimal_text(n / 10);
        r.push(last);
        r
    }
}

impl LocalMirrorError {
    pub open spec fn view(&self) -> RefusalView {
        match self {
            LocalMirrorError::EmptyPath { field } => RefusalView::EmptyPath { field: field@ },
            LocalMirrorError::InvalidPath { field, path, reason } => RefusalView::InvalidPath {
                field: field@,
                path: path@,
                reason: reason@,
            },
            LocalMirrorError::Symlink { field, path } => RefusalView::Symlink {
                field: field@,
                path: path@,
            },
            LocalMirrorError::Directory { field, path } => RefusalView::Directory {
                field: field@,
                path: path@,
            },
            LocalMirrorError::NotRegularFile { field, path } => RefusalView::NotRegularFile {
                field: field@,
                path: path@,
            },
            LocalMirrorError::Mismatch { field, expected, actual } => RefusalView::Mismatch {
                field: field@,
                expected: expected@,
                actual: actual@,
            },
            LocalMirrorError::Io { operation, path, source } => RefusalView::Io {
                operation: operation@,
                path: path@,
                source: source@,
            },
        }
    }

    /// The message shown to an operator.
    pub fn message(&self) -> (r: String)
        ensures
            r@ == message_of(self@),
    {
        match self {
            LocalMirrorError::EmptyPath { field } => {
                let r = FIELD_HEAD.to_owned().concat(field).concat(" is required");
                assert(r@ =~= message_of(self@));
                r
            },
            LocalMirrorError::InvalidPath { field, path, reason } => {
                let r = FIELD_HEAD.to_owned().concat(field).concat(" path ").concat(path).concat(
                    " is invalid: ",
                ).concat(reason);
                assert(r@ =~= message_of(self@));
                r
            },
            LocalMirrorError::Symlink { field, path } => {
                let r = FIELD_HEAD.to_owned().concat(field).concat(" path ").concat(path).concat(
                    " is a symlink",
                );
                assert(r@ =~= message_of(self@));
                r
            },
            LocalMirrorError::Directory { field, path } => {
                let r = FIELD_HEAD.to_owned().concat(field).concat(" path ").concat(path).concat(
                    " is a directory",
                );
                assert(r@ =~= message_of(self@));
                r
            },
            LocalMirrorError::NotRegularFile { field, path } => {
                let r = FIELD_HEAD.to_owned().concat(field).concat(" path ").concat(path).concat(
                    " is not a regular file",
                );
                assert(r@ =~= message_of(self@));
                r
            },
            LocalMirrorError::Mismatch { field, expected, actual } => {
                let r = FIELD_HEAD.to_owned().concat(field).concat(" mismatch: expected ").concat(
                    expected,
                ).concat(", got ").concat(actual);
                assert(r@ =~= message_of(self@));
                r
            },
            LocalMirrorError::Io { operation, path, source } => {
                let r = "failed to ".to_owned().concat(operation).concat(
                    " for iCloudPD local mirror at ",
                ).concat(path).concat(": ").concat(source);
                assert(r@ =~= message_of(self@));
                r
            },
        }
    }
}

/// How a message about a field of a request begins.
pub const FIELD_HEAD: &'static str = "iCloudPD local mirror field ";

/// The message shown to an operator.
pub open spec fn message_of(refusal: RefusalView) -> Seq<char> {
    match refusal {
        RefusalView::EmptyPath { field } => FIELD_HEAD@ + field + " is required"@,
        RefusalView::InvalidPath { field, path, reason } => FIELD_HEAD@ + field + " path "@ + path
            + " is invalid: "@ + reason,
        RefusalView::Symlink { field, path } => FIELD_HEAD@ + field + " path "@ + path
            + " is a symlink"@,
        RefusalView::Directory { field, path } => FIELD_HEAD@ + field + " path "@ + path
            + " is a directory"@,
        RefusalView::NotRegularFile { field, path } => FIELD_HEAD@ + field + " path "@ + path
            + " is not a regular file"@,
        RefusalView::Mismatch { field, expected, actual } => FIELD_HEAD@ + field
            + " mismatch: expected "@ + expected + ", got "@ + actual,
        RefusalView::Io { operation, path, source } => "failed to "@ + operation
            + " for iCloudPD local mirror at "@ + path + ": "@ + source,
    }
}

/// What was found at a path. The texts are what the system said of a failure.
#[derive(Debug, PartialEq, Eq)]
pub enum FileLook {
    /// There is nothing at the path.
    Missing(String),
    /// Whether there is something could not be told.
    MetadataFailed(String),
    Symlink,
    Directory,
    /// Something else than a regular file.
    Special,
    /// A regular file that could not be opened.
    OpenFailed(String),
    /// A regular file that could not be read.
    ReadFailed(String),
    Regular { size_bytes: u64, content: Vec<u8> },
}

/// Why what was found at a path is no regular file that can be known, or nothing.
pub open spec fn inspection_refusal(
    field: Seq<char>,
    path: Seq<char>,
    look: FileLook,
) -> Option<RefusalView> {
    match look {
        FileLook::Missing(source) => Some(
            RefusalView::Io { operation: "read metadata"@, path, source: source@ },
        ),
        FileLook::MetadataFailed(source) => Some(
            RefusalView::Io { operation: "read metadata"@, path, source: source@ },
        ),
        FileLook::Symlink => Some(RefusalView::Symlink { field, path }),
        FileLook::Directory => Some(RefusalView::Directory { field, path }),
        FileLook::Special => Some(RefusalView::NotRegularFile { field, path }),
        FileLook::OpenFailed(source) => Some(
            RefusalView::Io { operation: "open for hash"@, path, source: source@ },
        ),
        FileLook::ReadFailed(source) => Some(
            RefusalView::Io { operation: "read for hash"@, path, source: source@ },
        ),
        FileLook::Regular { size_bytes: _, content: _ } => None,
    }
}

fn io_error(operation: &'static str, path: &str, source: &String) -> (r: LocalMirrorError)
    ensures
        r@ == (RefusalView::Io { operation: operation@, path: path@, source: source@ }),
{
    LocalMirrorError::Io { operation, path: path.to_owned(), source: source.clone() }
}

/// What the regular file at a path is known by.
pub fn inspect_existing_metadata(field: &'static str, path: &str, look: &FileLook) -> (r: Result<
    FileIdentity,
    LocalMirrorError,
>)
    ensures
        match r {
            Ok(identity) => look matches FileLook::Regular { size_bytes, content }
                && identity.size_bytes == size_bytes && identity.sha256@ == digest::sha256_hex(
                content@,
            ),
            Err(error) => inspection_refusal(field@, path@, *look) == Some(error@),
        },
        r is Ok <==> *look is Regular,
{
    match look {
        FileLook::Missing(source) => Err(io_error("read metadata", path, source)),
        FileLook::MetadataFailed(source) => Err(io_error("read metadata", path, source)),
        FileLook::Symlink => Err(LocalMirrorError::Symlink { field, path: path.to_owned() }),
        FileLook::Directory => Err(LocalMirrorError::Directory { field, path: path.to_owned() }),
        FileLook::Special => Err(LocalMirrorError::NotRegularFile { field, path: path.to_owned() }),
        FileLook::OpenFailed(source) => Err(io_error("open for hash", path, source)),
        FileLook::ReadFailed(source) => Err(io_error("read for hash", path, source)),
        FileLook::Regular { size_bytes, content } => Ok(
            FileIdentity { sha256: sha256_bytes(content), size_bytes: *size_bytes },
        ),
    }
}

/// Why a file is not the one that was expected, or nothing. Its digest is looked at before its
/// size.
pub open spec fn identity_refusal(
    hash_field: Seq<char>,
    size_field: Seq<char>,
    expected_hash: Seq<char>,
    expected_size: u64,
    sha256: Seq<char>,
    size_bytes: u64,
) -> Option<RefusalView> {
    if sha256 != expected_hash {
        Some(
            RefusalView::Mismatch { field: hash_field, expected: expected_hash, actual: sha256 },
        )
    } else if size_bytes != expected_size {
        Some(
            RefusalView::Mismatch {
                field: size_field,
                expected: decimal(expected_size as nat),
                actual: decimal(size_bytes as nat),
            },
        )
    } else {
        None
    }
}

/// A check was answered as it should.
pub open spec fn refused_as(
    r: Result<(), LocalMirrorError>,
    refusal: Option<RefusalView>,
) -> bool {
    match r {
        Ok(()) => refusal is None,
        Err(error) => refusal == Some(error@),
    }
}

/// Accepts the file that was expected.
pub fn require_identity(
    hash_field: &'static str,
    size_field: &'static str,
    expected_hash: &str,
    expected_size: u64,
    identity: &FileIdentity,
) -> (r: Result<(), LocalMirrorError>)
    ensures
        refused_as(
            r,
            identity_refusal(
                hash_field@,
                size_field@,
                expected_hash@,
                expected_size,
                identity.sha256@,
                identity.size_bytes,
            ),
        ),
        r is Ok <==> identity.sha256@ == expected_hash@ && identity.size_bytes == expected_size,
{
    if !same_text(&identity.sha256, expected_hash) {
        return Err(
            LocalMirrorError::Mismatch {
                field: hash_field,
                expected: expected_hash.to_owned(),
                actual: identity.sha256.clone(),
            },
        );
    }
    if identity.size_bytes != expected_size {
        return Err(
            LocalMirrorError::Mismatch {
                field: size_field,
                expected: decimal_text(expected_size),
                actual: decimal_text(identity.size_bytes),
            },
        );
    }
    Ok(())
}

/// Accepts a path that is not empty.
pub fn require_non_empty_path(field: &'static str, path: &str) -> (r: Result<(), LocalMirrorError>)
    ensures
        refused_as(
            r,
            if path@.len() == 0 {
                Some(RefusalView::EmptyPath { field: field@ })
            } else {
                None
            },
        ),
{
    if path.unicode_len() == 0 {
        return Err(LocalMirrorError::EmptyPath { field });
    }
    Ok(())
}

/// Why a file is not the upload that was asked for, or nothing.
pub open spec fn upload_refusal(
    request: IcloudpdLocalMirrorRequest,
    field: Seq<char>,
    path: Seq<char>,
    look: FileLook,
) -> Option<RefusalView> {
    match look {
        FileLook::Regular { size_bytes, content } => identity_refusal(
            "uploaded_heic_sha256"@,
            "size_bytes"@,
            request.uploaded_heic_sha256@,
            request.size_bytes,
            digest::sha256_hex(content@),
            size_bytes,
        ),
        _ => inspection_refusal(field, path, look),
    }
}

/// Accepts a file that is the upload that was asked for.
pub fn require_upload(
    request: &IcloudpdLocalMirrorRequest,
    field: &'static str,
    path: &str,
    look: &FileLook,
) -> (r: Result<(), LocalMirrorError>)
    ensures
        refused_as(r, upload_refusal(*request, field@, path@, *look)),
        r is Ok <==> (look matches FileLook::Regular { size_bytes, content } && *size_bytes
            == request.size_bytes && digest::sha256_hex(content@)
            == request.uploaded_heic_sha256@),
{
    match inspect_existing_metadata(field, path, look) {
        Err(error) => Err(error),
        Ok(identity) => require_identity(
            "uploaded_heic_sha256",
            "size_bytes",
            &request.uploaded_heic_sha256,
            request.size_bytes,
            &identity,
        ),
    }
}

/// A character of the place `i` of the text of a random UUID.
pub open spec fn uuid_char(i: int, c: char) -> bool {
    if i == 8 || i == 13 || i == 18 || i == 23 {
        c == '-'
    } else if i == 14 {
        c == '4'
    } else if i == 19 {
        c == '8' || c == '9' || c == 'a' || c == 'b'
    } else {
        crate::identity::hex_text_char(c)
    }
}

/// The text of a random UUID: lower-case hexadecimal in groups of 8, 4, 4, 4 and 12 digits.
pub open spec fn uuid_text(s: Seq<char>) -> bool {
    s.len() == 36 && forall|i: int| 0 <= i < 36 ==> uuid_char(i, #[trigger] s[i])
}

/// `uuid::Uuid::new_v4`, written out by its `Display`: some random UUID of version 4. Which one it
/// is depends on the system's source of randomness, and nothing is said of it; where the system
/// has none, the call does not return.
#[verifier::external_body]
fn fresh_token() -> (r: String)
    ensures
        uuid_text(r@),
{
    uuid::Uuid::new_v4().to_string()
}

/// The name of a temporary copy.
pub open spec fn temp_name(name: Seq<char>, token: Seq<char>) -> Seq<char> {
    "."@ + name + ".icloudpd-local-mirror."@ + token + ".tmp"@
}

/// A place for a temporary copy: beside the destination, under a name of its own.
pub open spec fn temp_place(temp: Seq<char>, destination: Seq<char>) -> bool {
    exists|token: Seq<char>| #[trigger]
        uuid_text(token) && (path::last_name(destination) matches Some(name) && temp
            == path::joined(path::parent_text(destination), temp_name(name, token)))
}

/// The place for a temporary copy that goes with a token.
pub fn temp_path(destination: &str, token: &str) -> (r: Option<String>)
    ensures
        match r {
            Some(temp) => path::last_name(destination@) matches Some(name) && temp@
                == path::joined(path::parent_text(destination@), temp_name(name, token@)),
            None => path::last_name(destination@) is None,
        },
{
    match file_name(destination) {
        None => None,
        Some(name) => {
            let full = ".".to_owned().concat(&name).concat(".icloudpd-local-mirror.").concat(
                token,
            ).concat(".tmp");
            assert(full@ =~= temp_name(name@, token@));
            Some(join_path(&parent_path(destination), &full))
        },
    }
}

/// How copying the upload went. The texts are what the system said of a failure.
#[derive(Debug, PartialEq, Eq)]
pub enum CopyOutcome {
    Copied,
    SourceUnopened(String),
    TempUncreated(String),
    CopyFailed(String),
    SyncFailed(String),
}

/// What is to be done next for a mirror, or how it ended.
#[derive(Debug, PartialEq, Eq)]
pub enum MirrorState {
    /// Look at the upload.
    InspectSource,
    /// Look at the destination.
    InspectDestination,
    /// Copy the upload into a new temporary file, and bring that to disk.
    Copy { temp: String },
    /// Look at the temporary file.
    InspectCopy { temp: String },
    /// Give the temporary file the destination's name too, unless something has it.
    Install { temp: String },
    /// Remove the temporary file, whatever comes of it.
    Discard { temp: String, refusal: Option<LocalMirrorError> },
    /// Look at the destination again.
    InspectInstalled,
    Done(IcloudpdLocalMirrorProof),
    Failed(LocalMirrorError),
}

/// What came of what was to be done.
#[derive(Debug, PartialEq, Eq)]
pub enum MirrorEvent {
    Look(FileLook),
    Copied(CopyOutcome),
    /// What the system said of a failure to give the destination's name, if there was one.
    Installed(Option<String>),
    Discarded,
}

/// What is to be done next for a mirror, or how it ended, as texts.
pub enum MirrorView {
    InspectSource,
    InspectDestination,
    Copy { temp: Seq<char> },
    InspectCopy { temp: Seq<char> },
    Install { temp: Seq<char> },
    Discard { temp: Seq<char>, refusal: Option<RefusalView> },
    InspectInstalled,
    Done(IcloudpdLocalMirrorProof),
    Failed(RefusalView),
}

impl MirrorState {
    pub open spec fn view(&self) -> MirrorView {
        match self {
            MirrorState::InspectSource => MirrorView::InspectSource,
            MirrorState::InspectDestination => MirrorView::InspectDestination,
            MirrorState::Copy { temp } => MirrorView::Copy { temp: temp@ },
            MirrorState::InspectCopy { temp } => MirrorView::InspectCopy { temp: temp@ },
            MirrorState::Install { temp } => MirrorView::Install { temp: temp@ },
            MirrorState::Discard { temp, refusal } => MirrorView::Discard {
                temp: temp@,
                refusal: match refusal {
                    Some(error) => Some(error@),
                    None => None,
                },
            },
            MirrorState::InspectInstalled => MirrorView::InspectInstalled,
            MirrorState::Done(proof) => MirrorView::Done(*proof),
            MirrorState::Failed(error) => MirrorView::Failed(error@),
        }
    }
}

/// The proof that an upload has a local mirror.
pub open spec fn proof_of(request: IcloudpdLocalMirrorRequest) -> IcloudpdLocalMirrorProof {
    IcloudpdLocalMirrorProof {
        uploaded_heic_asset_id: request.uploaded_heic_asset_id,
        uploaded_heic_sha256: request.uploaded_heic_sha256,
        uploaded_heic_path: request.uploaded_heic_path,
        icloudpd_download_path: request.icloudpd_download_path,
        size_bytes: request.size_bytes,
    }
}

/// Where a mirror begins.
pub open spec fn first_view(request: IcloudpdLocalMirrorRequest) -> MirrorView {
    if request.uploaded_heic_path@.len() == 0 {
        MirrorView::Failed(RefusalView::EmptyPath { field: "uploaded_heic_path"@ })
    } else if request.icloudpd_download_path@.len() == 0 {
        MirrorView::Failed(RefusalView::EmptyPath { field: "icloudpd_download_path"@ })
    } else {
        MirrorView::InspectSource
    }
}

/// Where a mirror goes on after a look at a file that has to be the upload.
pub open spec fn looked(
    request: IcloudpdLocalMirrorRequest,
    field: Seq<char>,
    path: Seq<char>,
    look: FileLook,
    accepted: MirrorView,
) -> MirrorView {
    match upload_refusal(request, field, path, look) {
        Some(refusal) => MirrorView::Failed(refusal),
        None => accepted,
    }
}

/// Why the upload was not copied, or nothing.
pub open spec fn copy_refusal(
    request: IcloudpdLocalMirrorRequest,
    temp: Seq<char>,
    outcome: CopyOutcome,
) -> Option<RefusalView> {
    match outcome {
        CopyOutcome::Copied => None,
        CopyOutcome::SourceUnopened(source) => Some(
            RefusalView::Io {
                operation: "open source"@,
                path: request.uploaded_heic_path@,
                source: source@,
            },
        ),
        CopyOutcome::TempUncreated(source) => Some(
            RefusalView::Io { operation: "create temp mirror"@, path: temp, source: source@ },
        ),
        CopyOutcome::CopyFailed(source) => Some(
            RefusalView::Io { operation: "copy mirror"@, path: temp, source: source@ },
        ),
        CopyOutcome::SyncFailed(source) => Some(
            RefusalView::Io { operation: "sync temp mirror"@, path: temp, source: source@ },
        ),
    }
}

/// Where a mirror goes on where its destination is missing: a copy is made under a fresh name, or
/// the destination can have no file.
pub open spec fn missing_leads_to(
    request: IcloudpdLocalMirrorRequest,
    after: MirrorView,
) -> bool {
    let destination = request.icloudpd_download_path@;
    if path::last_name(destination) is None {
        after == MirrorView::Failed(
            RefusalView::InvalidPath {
                field: "icloudpd_download_path"@,
                path: destination,
                reason: "must include a file name"@,
            },
        )
    } else {
        after matches MirrorView::Copy { temp } && temp_place(temp, destination)
    }
}

/// One step of a mirror leads from `before` to `after`. What does not answer what was to be done
/// changes nothing.
pub open spec fn follows(
    request: IcloudpdLocalMirrorRequest,
    before: MirrorView,
    event: MirrorEvent,
    after: MirrorView,
) -> bool {
    let destination = request.icloudpd_download_path@;
    match (before, event) {
        (MirrorView::InspectSource, MirrorEvent::Look(look)) => after == looked(
            request,
            "uploaded_heic_path"@,
            request.uploaded_heic_path@,
            look,
            MirrorView::InspectDestination,
        ),
        (MirrorView::InspectDestination, MirrorEvent::Look(look)) => if look is Missing {
            missing_leads_to(request, after)
        } else {
            after == looked(
                request,
                "icloudpd_download_path"@,
                destination,
                look,
                MirrorView::Done(proof_of(request)),
            )
        },
        (MirrorView::Copy { temp }, MirrorEvent::Copied(outcome)) => match copy_refusal(
            request,
            temp,
            outcome,
        ) {
            Some(refusal) => after == (MirrorView::Discard { temp, refusal: Some(refusal) }),
            None => after == (MirrorView::InspectCopy { temp }),
        },
        (MirrorView::InspectCopy { temp }, MirrorEvent::Look(look)) => match upload_refusal(
            request,
            "icloudpd_download_path"@,
            temp,
            look,
        ) {
            Some(refusal) => after == (MirrorView::Discard { temp, refusal: Some(refusal) }),
            None => after == (MirrorView::Install { temp }),
        },
        (MirrorView::Install { temp }, MirrorEvent::Installed(failed)) => match failed {
            Some(source) => after == (MirrorView::Discard {
                temp,
                refusal: Some(
                    RefusalView::Io {
                        operation: "install mirror without overwrite"@,
                        path: destination,
                        source: source@,
                    },
                ),
            }),
            None => after == (MirrorView::Discard { temp, refusal: None }),
        },
        (MirrorView::Discard { temp: _, refusal }, MirrorEvent::Discarded) => match refusal {
            Some(refusal) => after == MirrorView::Failed(refusal),
            None => after == MirrorView::InspectInstalled,
        },
        (MirrorView::InspectInstalled, MirrorEvent::Look(look)) => after == looked(
            request,
            "icloudpd_download_path"@,
            destination,
            look,
            MirrorView::Done(proof_of(request)),
        ),
        _ => after == before,
    }
}

/// Begins a mirror.
pub fn begin_icloudpd_local_mirror(request: &IcloudpdLocalMirrorRequest) -> (r: MirrorState)
    ensures
        r@ == first_view(*request),
{
    match require_non_empty_path("uploaded_heic_path", &request.uploaded_heic_path) {
        Err(error) => {
            return MirrorState::Failed(error);
        },
        Ok(()) => {},
    }
    match require_non_empty_path("icloudpd_download_path", &request.icloudpd_download_path) {
        Err(error) => MirrorState::Failed(error),
        Ok(()) => MirrorState::InspectSource,
    }
}

fn accepted(
    request: &IcloudpdLocalMirrorRequest,
    field: &'static str,
    path: &str,
    look: &FileLook,
    next: MirrorState,
) -> (r: MirrorState)
    ensures
        r@ == looked(*request, field@, path@, *look, next@),
{
    match require_upload(request, field, path, look) {
        Err(error) => MirrorState::Failed(error),
        Ok(()) => next,
    }
}

fn mirrored(request: &IcloudpdLocalMirrorRequest) -> (r: MirrorState)
    ensures
        r@ == MirrorView::Done(proof_of(*request)),
{
    MirrorState::Done(
        IcloudpdLocalMirrorProof {
            uploaded_heic_asset_id: request.uploaded_heic_asset_id.clone(),
            uploaded_heic_sha256: request.uploaded_heic_sha256.clone(),
            uploaded_heic_path: request.uploaded_heic_path.clone(),
            icloudpd_download_path: request.icloudpd_download_path.clone(),
            size_bytes: request.size_bytes,
        },
    )
}

/// Where a mirror goes on where its destination is missing.
fn copy_missing_destination(request: &IcloudpdLocalMirrorRequest) -> (r: MirrorState)
    ensures
        missing_leads_to(*request, r@),
{
    let token = fresh_token();
    match temp_path(&request.icloudpd_download_path, &token) {
        None => MirrorState::Failed(
            LocalMirrorError::InvalidPath {
                field: "icloudpd_download_path",
                path: request.icloudpd_download_path.clone(),
                reason: "must include a file name",
            },
        ),
        Some(temp) => {
            assert(uuid_text(token@));
            assert(temp_place(temp@, request.icloudpd_download_path@));
            MirrorState::Copy { temp }
        },
    }
}

/// Takes a mirror one step on.
pub fn advance_icloudpd_local_mirror(
    request: &IcloudpdLocalMirrorRequest,
    state: MirrorState,
    event: &MirrorEvent,
) -> (r: MirrorState)
    ensures
        follows(*request, state@, *event, r@),
{
    match (state, event) {
        (MirrorState::InspectSource, MirrorEvent::Look(look)) => accepted(
            request,
            "uploaded_heic_path",
            &request.uploaded_heic_path,
            look,
            MirrorState::InspectDestination,
        ),
        (MirrorState::InspectDestination, MirrorEvent::Look(look)) => match look {
            FileLook::Missing(_) => copy_missing_destination(request),
            _ => accepted(
                request,
                "icloudpd_download_path",
                &request.icloudpd_download_path,
                look,
                mirrored(request),
            ),
        },
        (MirrorState::Copy { temp }, MirrorEvent::Copied(outcome)) => match outcome {
            CopyOutcome::Copied => MirrorState::InspectCopy { temp },
            CopyOutcome::SourceUnopened(source) => {
                let error = io_error("open source", &request.uploaded_heic_path, source);
                MirrorState::Discard { temp, refusal: Some(error) }
            },
            CopyOutcome::TempUncreated(source) => {
                let error = io_error("create temp mirror", &temp, source);
                MirrorState::Discard { temp, refusal: Some(error) }
            },
            CopyOutcome::CopyFailed(source) => {
                let error = io_error("copy mirror", &temp, source);
                MirrorState::Discard { temp, refusal: Some(error) }
            },
            CopyOutcome::SyncFailed(source) => {
                let error = io_error("sync temp mirror", &temp, source);
                MirrorState::Discard { temp, refusal: Some(error) }
            },
        },
        (MirrorState::InspectCopy { temp }, MirrorEvent::Look(look)) => match require_upload(
            request,
            "icloudpd_download_path",
            &temp,
            look,
        ) {
            Err(error) => MirrorState::Discard { temp, refusal: Some(error) },
            Ok(()) => MirrorState::Install { temp },
        },
        (MirrorState::Install { temp }, MirrorEvent::Installed(failed)) => match failed {
            Some(source) => {
                let error = io_error(
                    "install mirror without overwrite",
                    &request.icloudpd_download_path,
                    source,
                );
                MirrorState::Discard { temp, refusal: Some(error) }
            },
            None => MirrorState::Discard { temp, refusal: None },
        },
        (MirrorState::Discard { temp: _, refusal }, MirrorEvent::Discarded) => match refusal {
            Some(error) => MirrorState::Failed(error),
            None => MirrorState::InspectInstalled,
        },
        (MirrorState::InspectInstalled, MirrorEvent::Look(look)) => accepted(
            request,
            "icloudpd_download_path",
            &request.icloudpd_download_path,
            look,
            mirrored(request),
        ),
        (state, _) => state,
    }
}

/// A mirror is done only on a look that finds the upload itself at the destination, digest and
/// size, and the proof says so of the very request.
pub proof fn done_is_witnessed(
    request: IcloudpdLocalMirrorRequest,
    before: MirrorView,
    event: MirrorEvent,
    proof_given: IcloudpdLocalMirrorProof,
)
    requires
        follows(request, before, event, MirrorView::Done(proof_given)),
        !(before is Done),
    ensures
        before is InspectDestination || before is InspectInstalled,
        event matches MirrorEvent::Look(FileLook::Regular { size_bytes, content }) && size_bytes
            == request.size_bytes && digest::sha256_hex(content@) == request.uploaded_heic_sha256@,
        proof_given == proof_of(request),
{
}

/// A copy is made only where nothing was found at the destination, so nothing that lies there is
/// ever replaced.
pub proof fn only_a_missing_destination_is_filled(
    request: IcloudpdLocalMirrorRequest,
    before: MirrorView,
    event: MirrorEvent,
    temp: Seq<char>,
)
    requires
        follows(request, before, event, MirrorView::Copy { temp }),
        !(before is Copy),
    ensures
        before is InspectDestination,
        event matches MirrorEvent::Look(look) && look is Missing,
        temp_place(temp, request.icloudpd_download_path@),
{
}

/// Only a temporary copy that was found to be the upload itself is given the destination's name.
pub proof fn only_a_verified_copy_is_installed(
    request: IcloudpdLocalMirrorRequest,
    before: MirrorView,
    event: MirrorEvent,
    temp: Seq<char>,
)
    requires
        follows(request, before, event, MirrorView::Install { temp }),
        !(before is Install),
    ensures
        before == (MirrorView::InspectCopy { temp }),
        event matches MirrorEvent::Look(FileLook::Regular { size_bytes, content }) && size_bytes
            == request.size_bytes && digest::sha256_hex(content@) == request.uploaded_heic_sha256@,
{
}

/// The temporary copy of a mirror that has one.
pub open spec fn temp_of(state: MirrorView) -> Option<Seq<char>> {
    match state {
        MirrorView::Copy { temp } => Some(temp),
        MirrorView::InspectCopy { temp } => Some(temp),
        MirrorView::Install { temp } => Some(temp),
        MirrorView::Discard { temp, refusal: _ } => Some(temp),
        _ => None,
    }
}

/// A temporary copy is let go only by being removed: no step forgets it before.
pub proof fn temporary_copies_are_removed(
    request: IcloudpdLocalMirrorRequest,
    before: MirrorView,
    event: MirrorEvent,
    after: MirrorView,
)
    requires
        follows(request, before, event, after),
        temp_of(before) is Some,
        temp_of(after) != temp_of(before),
    ensures
        before is Discard,
        event is Discarded,
        temp_of(after) is None,
{
}

/// How far a mirror has come.
pub open spec fn progress(state: MirrorView) -> nat {
    match state {
        MirrorView::InspectSource => 0,
        MirrorView::InspectDestination => 1,
        MirrorView::Copy { temp: _ } => 2,
        MirrorView::InspectCopy { temp: _ } => 3,
        MirrorView::Install { temp: _ } => 4,
        MirrorView::Discard { temp: _, refusal: _ } => 5,
        MirrorView::InspectInstalled => 6,
        MirrorView::Done(_) => 7,
        MirrorView::Failed(_) => 7,
    }
}

/// Every step that changes anything brings a mirror closer to its end, so at most seven do.
pub proof fn mirrors_come_to_an_end(
    request: IcloudpdLocalMirrorRequest,
    before: MirrorView,
    event: MirrorEvent,
    after: MirrorView,
)
    requires
        follows(request, before, event, after),
    ensures
        after == before || progress(before) < progress(after) <= 7,
        before is Done || before is Failed ==> after == before,
{
}

/// A regular file is the upload that was asked for exactly if it holds the digest and has the size
/// that were asked for, whatever these are.
pub proof fn the_upload_is_known_by_digest_and_size(
    request: IcloudpdLocalMirrorRequest,
    field: Seq<char>,
    path: Seq<char>,
    look: FileLook,
)
    ensures
        upload_refusal(request, field, path, look) is None <==> (
        look matches FileLook::Regular { size_bytes, content } && size_bytes == request.size_bytes
            && digest::sha256_hex(content@) == request.uploaded_heic_sha256@),
        look matches FileLook::Regular { size_bytes, content } && digest::sha256_hex(content@)
            != request.uploaded_heic_sha256@ ==> upload_refusal(request, field, path, look) == Some(
            RefusalView::Mismatch {
                field: "uploaded_heic_sha256"@,
                expected: request.uploaded_heic_sha256@,
                actual: digest::sha256_hex(look->content@),
            },
        ),
        look matches FileLook::Regular { size_bytes, content } && digest::sha256_hex(content@)
            == request.uploaded_heic_sha256@ && size_bytes != request.size_bytes ==> upload_refusal(
            request,
            field,
            path,
            look,
        ) == Some(
            RefusalView::Mismatch {
                field: "size_bytes"@,
                expected: decimal(request.size_bytes as nat),
                actual: decimal(look->size_bytes as nat),
            },
        ),
        look is Symlink ==> upload_refusal(request, field, path, look) == Some(
            RefusalView::Symlink { field, path },
        ),
        look is Directory ==> upload_refusal(request, field, path, look) == Some(
            RefusalView::Directory { field, path },
        ),
        look is Special ==> upload_refusal(request, field, path, look) == Some(
            RefusalView::NotRegularFile { field, path },
        ),
{
}

/// A look that finds the upload that was asked for.
pub open spec fn finds_upload(request: IcloudpdLocalMirrorRequest, look: FileLook) -> bool {
    look matches FileLook::Regular { size_bytes, content } && size_bytes == request.size_bytes
        && digest::sha256_hex(content@) == request.uploaded_heic_sha256@
}

/// A mirror of an upload of any size ends in its proof where every step succeeds: the upload is
/// found, nothing lies at the destination, and the copy and the installed file are the upload. The
/// proof names what the request named.
pub proof fn mirrors_succeed_step_by_step(
    request: IcloudpdLocalMirrorRequest,
    source: FileLook,
    missing: FileLook,
    copy: FileLook,
    installed: FileLook,
    found: MirrorView,
    copying: MirrorView,
    copied: MirrorView,
    verified: MirrorView,
    linked: MirrorView,
    discarded: MirrorView,
    end: MirrorView,
)
    requires
        request.uploaded_heic_path@.len() > 0,
        request.icloudpd_download_path@.len() > 0,
        path::last_name(request.icloudpd_download_path@) is Some,
        finds_upload(request, source),
        missing is Missing,
        finds_upload(request, copy),
        finds_upload(request, installed),
        follows(request, first_view(request), MirrorEvent::Look(source), found),
        follows(request, found, MirrorEvent::Look(missing), copying),
        follows(request, copying, MirrorEvent::Copied(CopyOutcome::Copied), copied),
        follows(request, copied, MirrorEvent::Look(copy), verified),
        follows(request, verified, MirrorEvent::Installed(None), linked),
        follows(request, linked, MirrorEvent::Discarded, discarded),
        follows(request, discarded, MirrorEvent::Look(installed), end),
    ensures
        found is InspectDestination,
        copying matches MirrorView::Copy { temp } && copied == (MirrorView::InspectCopy { temp })
            && verified == (MirrorView::Install { temp }) && linked == (MirrorView::Discard {
            temp,
            refusal: None,
        }),
        discarded is InspectInstalled,
        end matches MirrorView::Done(mirror) && mirror.uploaded_heic_asset_id
            == request.uploaded_heic_asset_id && mirror.uploaded_heic_sha256
            == request.uploaded_heic_sha256 && mirror.uploaded_heic_path
            == request.uploaded_heic_path && mirror.icloudpd_download_path
            == request.icloudpd_download_path && mirror.size_bytes == request.size_bytes,
{
}

/// Where the upload lies at the destination already, the mirror is done with two looks.
pub proof fn existing_mirrors_are_kept(
    request: IcloudpdLocalMirrorRequest,
    source: FileLook,
    existing: FileLook,
    found: MirrorView,
    end: MirrorView,
)
    requires
        request.uploaded_heic_path@.len() > 0,
        request.icloudpd_download_path@.len() > 0,
        finds_upload(request, source),
        finds_upload(request, existing),
        follows(request, first_view(request), MirrorEvent::Look(source), found),
        follows(request, found, MirrorEvent::Look(existing), end),
    ensures
        end matches MirrorView::Done(mirror) && mirror.uploaded_heic_sha256
            == request.uploaded_heic_sha256 && mirror.size_bytes == request.size_bytes
            && mirror.icloudpd_download_path == request.icloudpd_download_path,
{
}

/// Anything but the upload fails a mirror where it is found: as the source, at the destination,
/// or once it was installed. A copy that is something else is removed first.
pub proof fn anything_else_fails_a_mirror(
    request: IcloudpdLocalMirrorRequest,
    before: MirrorView,
    look: FileLook,
    after: MirrorView,
)
    requires
        follows(request, before, MirrorEvent::Look(look), after),
        !finds_upload(request, look),
    ensures
        before is InspectSource || before is InspectInstalled ==> after is Failed,
        before is InspectDestination && !(look is Missing) ==> after is Failed,
        before matches MirrorView::InspectCopy { temp } ==> (
        after matches MirrorView::Discard { temp: kept, refusal } && kept == temp
            && refusal is Some),
{
}

/// A step that fails leads to the removal of the copy, and then to the very failure.
pub proof fn failures_are_reported_once_the_copy_is_gone(
    request: IcloudpdLocalMirrorRequest,
    temp: Seq<char>,
    source: String,
    after: MirrorView,
    end: MirrorView,
)
    requires
        ({
            ||| follows(
                request,
                MirrorView::Copy { temp },
                MirrorEvent::Copied(CopyOutcome::SourceUnopened(source)),
                after,
            )
            ||| follows(
                request,
                MirrorView::Copy { temp },
                MirrorEvent::Copied(CopyOutcome::TempUncreated(source)),
                after,
            )
            ||| follows(
                request,
                MirrorView::Copy { temp },
                MirrorEvent::Copied(CopyOutcome::CopyFailed(source)),
                after,
            )
            ||| follows(
                request,
                MirrorView::Copy { temp },
                MirrorEvent::Copied(CopyOutcome::SyncFailed(source)),
                after,
            )
            ||| follows(
                request,
                MirrorView::Install { temp },
                MirrorEvent::Installed(Some(source)),
                after,
            )
        }),
        follows(request, after, MirrorEvent::Discarded, end),
    ensures
        temp_of(after) == Some(temp),
        end matches MirrorView::Failed(RefusalView::Io { operation, path, source: told }) && told
            == source@ && (path == temp || path == request.uploaded_heic_path@ || path
            == request.icloudpd_download_path@),
{
}

/// A mirror begins with a look at the upload, unless one of its paths is empty; the path of the
/// upload is told of first.
pub proof fn mirrors_begin_with_both_paths(request: IcloudpdLocalMirrorRequest)
    ensures
        first_view(request) is InspectSource <==> request.uploaded_heic_path@.len() != 0
            && request.icloudpd_download_path@.len() != 0,
        request.uploaded_heic_path@.len() == 0 ==> first_view(request) == MirrorView::Failed(
            RefusalView::EmptyPath { field: "uploaded_heic_path"@ },
        ),
        request.uploaded_heic_path@.len() != 0 && request.icloudpd_download_path@.len() == 0
            ==> first_view(request) == MirrorView::Failed(
            RefusalView::EmptyPath { field: "icloudpd_download_path"@ },
        ),
{
}

/// The number that decimal digits stand for.
pub open spec fn numeral_value(digits: Seq<char>) -> nat
    decreases digits.len(),
{
    if digits.len() == 0 {
        0
    } else {
        numeral_value(digits.drop_last()) * 10 + (digits.last() as nat - '0' as nat) as nat
    }
}

/// A numeral reads back as its number, is all digits, and has no leading zero.
pub proof fn numerals_read_back(n: nat)
    ensures
        numeral_value(decimal(n)) == n,
        decimal(n).len() > 0,
        forall|i: int| 0 <= i < decimal(n).len() ==> '0' <= #[trigger] decimal(n)[i] <= '9',
        n > 0 ==> decimal(n)[0] != '0',
    decreases n,
{
    reveal_with_fuel(numeral_value, 2);
    if n < 10 {
        digest::digits_read_back(n as int);
        assert(decimal(n).drop_last() =~= Seq::empty());
        assert(decimal(n).last() == digest::hex_digit(n as int));
    } else {
        numerals_read_back(n / 10);
        digest::digits_read_back((n % 10) as int);
        let front = decimal(n / 10);
        assert(decimal(n).drop_last() =~= front);
        assert(decimal(n).last() == digest::hex_digit((n % 10) as int));
        assert(decimal(n)[0] == front[0]);
        assert forall|i: int| 0 <= i < decimal(n).len() implies '0' <= #[trigger] decimal(n)[i]
            <= '9' by {
            if i < front.len() {
                assert(decimal(n)[i] == front[i]);
            }
        }
    }
}

/// A temporary copy lies in the directory of its destination, under the hidden name of the
/// destination with the token behind it; different tokens of one length give different names.
pub proof fn temporary_copies_are_hidden_beside_their_destination(
    name: Seq<char>,
    token: Seq<char>,
    other: Seq<char>,
)
    ensures
        temp_name(name, token) == "."@ + name + ".icloudpd-local-mirror."@ + token + ".tmp"@,
        token.len() == other.len() ==> (temp_name(name, token) == temp_name(name, other)
            <==> token == other),
{
    let one = temp_name(name, token);
    let two = temp_name(name, other);
    if token.len() == other.len() && one == two {
        let start = ("."@ + name + ".icloudpd-local-mirror."@).len() as int;
        assert(one.subrange(start, start + token.len()) =~= token);
        assert(two.subrange(start, start + token.len()) =~= other);
    }
}

/// Every fault is told in a sentence of its own that names what it is about.
pub proof fn faults_are_told_in_sentences(
    field: Seq<char>,
    path: Seq<char>,
    reason: Seq<char>,
    expected: Seq<char>,
    actual: Seq<char>,
)
    ensures
        message_of(RefusalView::EmptyPath { field }) == "iCloudPD local mirror field "@ + field
            + " is required"@,
        message_of(RefusalView::InvalidPath { field, path, reason })
            == "iCloudPD local mirror field "@ + field + " path "@ + path + " is invalid: "@
            + reason,
        message_of(RefusalView::Symlink { field, path }) == "iCloudPD local mirror field "@ + field
            + " path "@ + path + " is a symlink"@,
        message_of(RefusalView::Directory { field, path }) == "iCloudPD local mirror field "@
            + field + " path "@ + path + " is a directory"@,
        message_of(RefusalView::NotRegularFile { field, path })
            == "iCloudPD local mirror field "@ + field + " path "@ + path
            + " is not a regular file"@,
        message_of(RefusalView::Mismatch { field, expected, actual })
            == "iCloudPD local mirror field "@ + field + " mismatch: expected "@ + expected
            + ", got "@ + actual,
        message_of(RefusalView::Io { operation: field, path, source: reason }) == "failed to "@
            + field + " for iCloudPD local mirror at "@ + path + ": "@ + reason,
{
}

/// What is found at a path is known exactly if it is a regular file that could be read; anything
/// else is told as what it is, and what the system said of a failure is passed on.
pub proof fn only_regular_files_can_be_known(
    field: Seq<char>,
    path: Seq<char>,
    look: FileLook,
    said: String,
)
    ensures
        inspection_refusal(field, path, look) is None <==> look is Regular,
        inspection_refusal(field, path, FileLook::Symlink) == Some(
            RefusalView::Symlink { field, path },
        ),
        inspection_refusal(field, path, FileLook::Directory) == Some(
            RefusalView::Directory { field, path },
        ),
        inspection_refusal(field, path, FileLook::Special) == Some(
            RefusalView::NotRegularFile { field, path },
        ),
        inspection_refusal(field, path, FileLook::Missing(said)) == Some(
            RefusalView::Io { operation: "read metadata"@, path, source: said@ },
        ),
        inspection_refusal(field, path, FileLook::MetadataFailed(said)) == Some(
            RefusalView::Io { operation: "read metadata"@, path, source: said@ },
        ),
        inspection_refusal(field, path, FileLook::OpenFailed(said)) == Some(
            RefusalView::Io { operation: "open for hash"@, path, source: said@ },
        ),
        inspection_refusal(field, path, FileLook::ReadFailed(said)) == Some(
            RefusalView::Io { operation: "read for hash"@, path, source: said@ },
        ),
{
}

} // verus!
