use vstd::prelude::*;
use vstd::string::*;

verus! {

/// The CloudKit database that holds a record.
#[derive(Clone, Copy, Debug, PartialEq, Eq, Structural)]
pub enum CloudKitDatabaseScope {
    Private,
    Shared,
}

impl CloudKitDatabaseScope {
    /// The name of the scope in stored proofs.
    pub open spec fn name(self) -> Seq<char> {
        match self {
            CloudKitDatabaseScope::Private => "private"@,
            CloudKitDatabaseScope::Shared => "shared"@,
        }
    }

    pub fn as_str(self) -> (r: &'static str)
        ensures
            r@ == self.name(),
    {
        match self {
            CloudKitDatabaseScope::Private => "private",
            CloudKitDatabaseScope::Shared => "shared",
        }
    }
}

/// What CloudKit said of an uploaded replacement when evidence was gathered.
#[derive(Clone, Copy, Debug, PartialEq, Eq, Structural)]
pub enum CloudKitUploadedHeicInitialState {
    Active,
    ActiveUnmarked,
    AlreadyDeleted,
}

/// How the state of an uploaded replacement was looked up.
#[derive(Clone, Copy, Debug, PartialEq, Eq, Structural)]
pub enum CloudKitUploadedHeicInitialStateLookupMode {
    FullFields,
    FilteredMarker,
}

/// What CloudKit said of an original.
#[derive(Clone, Copy, Debug, PartialEq, Eq, Structural)]
pub enum CloudKitActiveAssetRemoteState {
    Active,
    ActiveUnmarked,
}

/// How the state of an original was looked up.
#[derive(Clone, Copy, Debug, PartialEq, Eq, Structural)]
pub enum CloudKitActiveAssetLookupMode {
    FullFields,
}

/// The question put to CloudKit about an uploaded replacement.
#[derive(Debug, PartialEq, Eq)]
pub struct CloudKitUploadedHeicResolveRequest {
    pub uploaded_asset_id: String,
    pub expected_heic_sha256: String,
    pub expected_size_bytes: u64,
    pub database_scope: CloudKitDatabaseScope,
    pub zone_name: String,
    pub owner_record_name: Option<String>,
}

/// CloudKit's answer about an uploaded replacement.
#[derive(Debug, PartialEq, Eq)]
pub struct CloudKitUploadedHeicAsset {
    pub record_name: String,
    pub record_change_tag: String,
    pub master_record_name: String,
    pub owner_record_name_sha256: String,
    pub initial_remote_state: CloudKitUploadedHeicInitialState,
    pub initial_state_lookup_mode: CloudKitUploadedHeicInitialStateLookupMode,
    pub matched_heic_sha256: String,
    pub size_bytes: u64,
}

/// CloudKit's answer about an original.
#[derive(Clone, Copy, Debug, PartialEq, Eq, Structural)]
pub struct CloudKitActiveAssetValidation {
    pub remote_state: CloudKitActiveAssetRemoteState,
    pub lookup_mode: CloudKitActiveAssetLookupMode,
}

/// The question put to CloudKit about an original.
#[derive(Debug, PartialEq, Eq)]
pub struct CloudKitActiveAssetReadRequest {
    pub record_name: String,
    pub record_change_tag: String,
    pub database_scope: CloudKitDatabaseScope,
    pub zone_name: String,
    pub owner_record_name: Option<String>,
}

/// Each scope is written down under its own word.
pub proof fn scopes_are_written_as_words(a: CloudKitDatabaseScope, b: CloudKitDatabaseScope)
    ensures
        CloudKitDatabaseScope::Private.name() == "private"@,
        CloudKitDatabaseScope::Shared.name() == "shared"@,
        a.name() == b.name() <==> a == b,
{
    reveal_strlit("private");
    reveal_strlit("shared");
    assert("private"@.len() == 7);
    assert("shared"@.len() == 6);
}

} // verus!
