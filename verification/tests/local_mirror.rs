use icloudpd_optimizer::digest::sha256_bytes;
use icloudpd_optimizer::local_mirror::{
    advance_icloudpd_local_mirror, begin_icloudpd_local_mirror, decimal_text,
    inspect_existing_metadata, require_identity, require_non_empty_path, temp_path, CopyOutcome,
    FileIdentity, FileLook, IcloudpdLocalMirrorRequest, LocalMirrorError, MirrorEvent, MirrorState,
};

const UPLOAD: &[u8] = b"uploaded heic";

fn request() -> IcloudpdLocalMirrorRequest {
    IcloudpdLocalMirrorRequest {
        uploaded_heic_asset_id: "uploaded-1".to_string(),
        uploaded_heic_sha256: sha256_bytes(UPLOAD),
        uploaded_heic_path: "/uploads/a.heic".to_string(),
        size_bytes: UPLOAD.len() as u64,
        icloudpd_download_path: "/photos/a.heic".to_string(),
    }
}

fn upload() -> MirrorEvent {
    MirrorEvent::Look(FileLook::Regular {
        size_bytes: UPLOAD.len() as u64,
        content: UPLOAD.to_vec(),
    })
}

fn other() -> MirrorEvent {
    MirrorEvent::Look(FileLook::Regular {
        size_bytes: 5,
        content: b"other".to_vec(),
    })
}

fn missing() -> MirrorEvent {
    MirrorEvent::Look(FileLook::Missing("no such file".to_string()))
}

fn advance(state: MirrorState, events: &[MirrorEvent]) -> MirrorState {
    events.iter().fold(state, |state, event| {
        advance_icloudpd_local_mirror(&request(), state, event)
    })
}

fn run(events: &[MirrorEvent]) -> MirrorState {
    advance(begin_icloudpd_local_mirror(&request()), events)
}

fn refusal(state: MirrorState) -> LocalMirrorError {
    match state {
        MirrorState::Failed(error) => error,
        state => panic!("not refused: {state:?}"),
    }
}

#[test]
fn a_missing_destination_is_filled_with_a_verified_copy() {
    let state = run(&[upload(), missing()]);
    let temp = match &state {
        MirrorState::Copy { temp } => temp.clone(),
        state => panic!("no copy: {state:?}"),
    };
    assert!(temp.starts_with("/photos/.a.heic.icloudpd-local-mirror."));
    assert!(temp.ends_with(".tmp"));
    let state = advance(state, &[MirrorEvent::Copied(CopyOutcome::Copied)]);
    assert_eq!(state, MirrorState::InspectCopy { temp: temp.clone() });
    let state = advance(state, &[upload()]);
    assert_eq!(state, MirrorState::Install { temp: temp.clone() });
    let state = advance(state, &[MirrorEvent::Installed(None)]);
    assert_eq!(
        state,
        MirrorState::Discard {
            temp,
            refusal: None
        }
    );
    let state = advance(state, &[MirrorEvent::Discarded]);
    assert_eq!(state, MirrorState::InspectInstalled);
    match advance(state, &[upload()]) {
        MirrorState::Done(proof) => {
            assert_eq!(proof.uploaded_heic_asset_id, "uploaded-1");
            assert_eq!(proof.uploaded_heic_sha256, sha256_bytes(UPLOAD));
            assert_eq!(proof.uploaded_heic_path, "/uploads/a.heic");
            assert_eq!(proof.icloudpd_download_path, "/photos/a.heic");
            assert_eq!(proof.size_bytes, 13);
        }
        state => panic!("not done: {state:?}"),
    }
}

#[test]
fn every_temporary_copy_has_a_name_of_its_own() {
    let names: Vec<String> = (0..4)
        .map(|_| match run(&[upload(), missing()]) {
            MirrorState::Copy { temp } => temp,
            state => panic!("no copy: {state:?}"),
        })
        .collect();
    for (index, name) in names.iter().enumerate() {
        assert!(!names[..index].contains(name));
        let token = name
            .strip_prefix("/photos/.a.heic.icloudpd-local-mirror.")
            .and_then(|rest| rest.strip_suffix(".tmp"))
            .unwrap();
        assert_eq!(token.len(), 36);
        assert_eq!(&token[14..15], "4");
        assert!(uuid::Uuid::parse_str(token).is_ok());
    }
}

#[test]
fn an_existing_mirror_is_left_alone_and_has_to_match() {
    assert!(matches!(run(&[upload(), upload()]), MirrorState::Done(_)));
    let error = refusal(run(&[upload(), other()]));
    assert_eq!(
        error.message(),
        format!(
            "iCloudPD local mirror field uploaded_heic_sha256 mismatch: expected {}, got {}",
            sha256_bytes(UPLOAD),
            sha256_bytes(b"other")
        )
    );
}

#[test]
fn a_copy_that_differs_is_discarded_before_it_is_installed() {
    let state = run(&[
        upload(),
        missing(),
        MirrorEvent::Copied(CopyOutcome::Copied),
        other(),
    ]);
    assert!(matches!(
        &state,
        MirrorState::Discard {
            refusal: Some(LocalMirrorError::Mismatch { .. }),
            ..
        }
    ));
    let state = advance(state, &[MirrorEvent::Discarded]);
    assert!(matches!(
        refusal(state),
        LocalMirrorError::Mismatch {
            field: "uploaded_heic_sha256",
            ..
        }
    ));
}

#[test]
fn failures_to_copy_or_install_are_told_and_the_copy_is_discarded() {
    let why = || "disk full".to_string();
    for (outcome, operation) in [
        (CopyOutcome::SourceUnopened(why()), "open source"),
        (CopyOutcome::TempUncreated(why()), "create temp mirror"),
        (CopyOutcome::CopyFailed(why()), "copy mirror"),
        (CopyOutcome::SyncFailed(why()), "sync temp mirror"),
    ] {
        let state = run(&[upload(), missing(), MirrorEvent::Copied(outcome)]);
        assert!(matches!(&state, MirrorState::Discard { .. }));
        let error = refusal(advance(state, &[MirrorEvent::Discarded]));
        assert!(error.message().starts_with(&format!(
            "failed to {operation} for iCloudPD local mirror at /"
        )));
        assert!(error.message().ends_with(": disk full"));
    }
    let state = run(&[
        upload(),
        missing(),
        MirrorEvent::Copied(CopyOutcome::Copied),
        upload(),
        MirrorEvent::Installed(Some("file exists".to_string())),
        MirrorEvent::Discarded,
    ]);
    assert_eq!(
        refusal(state).message(),
        "failed to install mirror without overwrite for iCloudPD local mirror at /photos/a.heic: file exists"
    );
    let state = run(&[
        upload(),
        missing(),
        MirrorEvent::Copied(CopyOutcome::Copied),
        upload(),
        MirrorEvent::Installed(None),
        MirrorEvent::Discarded,
        missing(),
    ]);
    assert_eq!(
        refusal(state).message(),
        "failed to read metadata for iCloudPD local mirror at /photos/a.heic: no such file"
    );
}

#[test]
fn the_upload_has_to_be_a_readable_regular_file() {
    let why = || "denied".to_string();
    let cases = [
        (
            FileLook::Missing(why()),
            "failed to read metadata for iCloudPD local mirror at /uploads/a.heic: denied",
        ),
        (
            FileLook::MetadataFailed(why()),
            "failed to read metadata for iCloudPD local mirror at /uploads/a.heic: denied",
        ),
        (
            FileLook::Symlink,
            "iCloudPD local mirror field uploaded_heic_path path /uploads/a.heic is a symlink",
        ),
        (
            FileLook::Directory,
            "iCloudPD local mirror field uploaded_heic_path path /uploads/a.heic is a directory",
        ),
        (
            FileLook::Special,
            "iCloudPD local mirror field uploaded_heic_path path /uploads/a.heic is not a regular file",
        ),
        (
            FileLook::OpenFailed(why()),
            "failed to open for hash for iCloudPD local mirror at /uploads/a.heic: denied",
        ),
        (
            FileLook::ReadFailed(why()),
            "failed to read for hash for iCloudPD local mirror at /uploads/a.heic: denied",
        ),
        (
            FileLook::Regular {
                size_bytes: 14,
                content: UPLOAD.to_vec(),
            },
            "iCloudPD local mirror field size_bytes mismatch: expected 13, got 14",
        ),
    ];
    for (look, message) in cases {
        assert_eq!(refusal(run(&[MirrorEvent::Look(look)])).message(), message);
    }
}

#[test]
fn paths_must_be_given_and_name_a_file() {
    let mut empty = request();
    empty.uploaded_heic_path = String::new();
    assert_eq!(
        refusal(begin_icloudpd_local_mirror(&empty)).message(),
        "iCloudPD local mirror field uploaded_heic_path is required"
    );
    let mut empty = request();
    empty.icloudpd_download_path = String::new();
    assert_eq!(
        refusal(begin_icloudpd_local_mirror(&empty)).message(),
        "iCloudPD local mirror field icloudpd_download_path is required"
    );
    assert!(require_non_empty_path("uploaded_heic_path", "a").is_ok());
    let mut nameless = request();
    nameless.icloudpd_download_path = "/photos/..".to_string();
    let state = begin_icloudpd_local_mirror(&nameless);
    let state = advance_icloudpd_local_mirror(&nameless, state, &upload());
    let state = advance_icloudpd_local_mirror(&nameless, state, &missing());
    assert_eq!(
        refusal(state).message(),
        "iCloudPD local mirror field icloudpd_download_path path /photos/.. is invalid: must include a file name"
    );
}

#[test]
fn events_that_answer_nothing_change_nothing() {
    assert_eq!(
        advance(MirrorState::InspectSource, &[MirrorEvent::Discarded]),
        MirrorState::InspectSource
    );
    let done = run(&[upload(), upload()]);
    assert!(matches!(
        advance(done, &[other(), MirrorEvent::Discarded]),
        MirrorState::Done(_)
    ));
}

#[test]
fn temporary_copies_lie_beside_their_destination() {
    assert_eq!(
        temp_path("/photos/a.heic", "token").as_deref(),
        Some("/photos/.a.heic.icloudpd-local-mirror.token.tmp")
    );
    assert_eq!(
        temp_path("a.heic", "token").as_deref(),
        Some("./.a.heic.icloudpd-local-mirror.token.tmp")
    );
    assert_eq!(temp_path("/", "token"), None);
}

#[test]
fn an_identity_is_a_digest_and_a_size() {
    let look = FileLook::Regular {
        size_bytes: 3,
        content: b"abc".to_vec(),
    };
    let identity = inspect_existing_metadata("field", "/abc", &look).unwrap();
    assert_eq!(
        identity,
        FileIdentity {
            sha256: "ba7816bf8f01cfea414140de5dae2223b00361a396177a9cb410ff61f20015ad".to_string(),
            size_bytes: 3,
        }
    );
    assert!(require_identity("hash", "size", &identity.sha256, 3, &identity).is_ok());
    assert!(matches!(
        require_identity("hash", "size", &identity.sha256, 4, &identity),
        Err(LocalMirrorError::Mismatch { field: "size", .. })
    ));
}

#[test]
fn numbers_are_written_in_decimal() {
    assert_eq!(decimal_text(0), "0");
    assert_eq!(decimal_text(10), "10");
    assert_eq!(decimal_text(u64::MAX), "18446744073709551615");
}
