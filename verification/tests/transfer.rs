use localsend::api::{DownloadParams, Pin, PrepareDownloadParams, PrepareUploadParams, UploadParams};
use localsend::download::TransferAction::{CreateDirectory, SaveBody, SendRequest, Stop};
use localsend::download::TransferEvent::{
    Abandoned, Answered, DirectoryFailed, DirectoryReady, ReceiveFailed, RequestFailed, Saved,
    Started, WriteFailed,
};
use localsend::download::TransferState::{
    Failed, Planned, Preparing, Receiving, Requesting, Succeeded,
};
use localsend::download::{
    base_url, listing, plan_fetches, read_manifest, FetchBatch, FileFetch, HandshakeError, Method,
    PerFileError, Request, TransferAction, TransferEvent, TransferState,
};
use localsend::errors::{DownloadRequestError, UploadError, UploadRequestError};
use localsend::messages::common_fields::{
    Alias, DeviceInfo, DeviceType, FileId, FileInfo, FileUploadToken, FilesInfoMap, Fingerprint,
    SessionId, Version,
};
use localsend::messages::discover::True;
use localsend::messages::download::{PrepareDownloadMeta, PrepareDownloadResponse};

fn file(id: &str, name: &str, size: u64) -> (FileId, FileInfo) {
    (
        FileId::new(id.to_string()),
        FileInfo::new(
            FileId::new(id.to_string()),
            name.to_string(),
            size,
            "text/plain".to_string(),
            None,
            None,
            None,
        ),
    )
}

fn manifest(files: Vec<(FileId, FileInfo)>) -> PrepareDownloadResponse {
    PrepareDownloadResponse::new(
        PrepareDownloadMeta::new(
            Version::new("2.1".to_string()),
            DeviceInfo::new(
                Alias::new("Sender".to_string()),
                None,
                DeviceType::Server,
                Fingerprint::new("sender".to_string()),
            ),
            True,
        ),
        SessionId::new("mySessionId".to_string()),
        FilesInfoMap::new(files),
    )
}

fn pairs(list: &[(&str, &str)]) -> Vec<(String, String)> {
    list.iter().map(|(k, v)| (k.to_string(), v.to_string())).collect()
}

#[test]
fn handshake_status_is_told_apart() {
    for status in [200u16, 201, 204, 299] {
        assert_eq!(HandshakeError::check_status(status), Ok(()));
    }
    assert_eq!(HandshakeError::check_status(401), Err(HandshakeError::Unauthorized));
    assert_eq!(HandshakeError::check_status(403), Err(HandshakeError::Forbidden));
    assert_eq!(HandshakeError::check_status(429), Err(HandshakeError::RateLimited));
    for status in [500u16, 502, 599] {
        assert_eq!(HandshakeError::check_status(status), Err(HandshakeError::PeerError));
    }
    for status in [0u16, 100, 199, 300, 304, 400, 404, 409, 600, 65535] {
        assert_eq!(HandshakeError::check_status(status), Err(HandshakeError::UnexpectedStatus));
    }
}

#[test]
fn rejected_handshake_yields_no_manifest() {
    let good_body = manifest(vec![file("a", "a.txt", 1)]).encode();
    assert_eq!(read_manifest(401, &good_body), Err(HandshakeError::Unauthorized));
    assert_eq!(read_manifest(403, &good_body), Err(HandshakeError::Forbidden));
    assert_eq!(read_manifest(429, ""), Err(HandshakeError::RateLimited));
    assert_eq!(read_manifest(500, "{}"), Err(HandshakeError::PeerError));
    assert_eq!(read_manifest(302, &good_body), Err(HandshakeError::UnexpectedStatus));
    assert_eq!(read_manifest(200, "{}"), Err(HandshakeError::InvalidManifest));
    assert_eq!(read_manifest(200, "<html>"), Err(HandshakeError::InvalidManifest));
    assert_eq!(read_manifest(200, &good_body), Ok(manifest(vec![file("a", "a.txt", 1)])));
    // without a manifest there is nothing to plan: a batch is made from one alone
    let read = read_manifest(200, &good_body).unwrap();
    assert!(FetchBatch::begin(&read, None, false).is_none());
    assert_eq!(FetchBatch::begin(&read, None, true).unwrap().len(), 1);
}

#[test]
fn refusals_of_the_protocol_have_their_status_and_text() {
    let all = [
        (DownloadRequestError::Http401, 401, "PIN required / Invalid PIN", HandshakeError::Unauthorized),
        (DownloadRequestError::Http403, 403, "Rejected", HandshakeError::Forbidden),
        (DownloadRequestError::Http429, 429, "Too many requests", HandshakeError::RateLimited),
        (DownloadRequestError::Http500, 500, "Unknown error by sender", HandshakeError::PeerError),
    ];
    for (refusal, status, text, failure) in all {
        assert_eq!(refusal.status(), status);
        assert_eq!(DownloadRequestError::from_status(status), Some(refusal));
        assert_eq!(refusal.to_string(), text);
        assert_eq!(HandshakeError::from_refusal(refusal), failure);
        assert_eq!(HandshakeError::check_status(status), Err(failure));
    }
    assert_eq!(DownloadRequestError::from_status(200), None);
    assert_eq!(DownloadRequestError::from_status(503), None);

    let all = [
        (UploadRequestError::Http204, 204, "Finished (No file transfer needed)"),
        (UploadRequestError::Http400, 400, "Invalid body"),
        (UploadRequestError::Http401, 401, "PIN required / Invalid PIN"),
        (UploadRequestError::Http403, 403, "Rejected"),
        (UploadRequestError::Http409, 409, "Blocked by another session"),
        (UploadRequestError::Http429, 429, "Too many requests"),
        (UploadRequestError::Http500, 500, "Unknown error by receiver"),
    ];
    for (refusal, status, text) in all {
        assert_eq!(refusal.status(), status);
        assert_eq!(UploadRequestError::from_status(status), Some(refusal));
        assert_eq!(refusal.to_string(), text);
    }
    assert_eq!(UploadRequestError::from_status(200), None);

    let all = [
        (UploadError::Http400, 400, "Missing parameters"),
        (UploadError::Http403, 403, "Invalid token or IP address"),
        (UploadError::Http409, 409, "Blocked by another session"),
        (UploadError::Http500, 500, "Unknown error by receiver"),
    ];
    for (refusal, status, text) in all {
        assert_eq!(refusal.status(), status);
        assert_eq!(UploadError::from_status(status), Some(refusal));
        assert_eq!(refusal.to_string(), text);
    }
    assert_eq!(UploadError::from_status(401), None);
}

#[test]
fn handshake_request_carries_the_pin_only_if_there_is_one() {
    let bare = Request::prepare_download(None);
    assert_eq!(bare.method(), Method::Post);
    assert_eq!(bare.path(), "/api/localsend/v2/prepare-download");
    assert!(bare.query().is_empty());
    assert_eq!(
        bare.url("http://192.168.1.5:53317").as_deref(),
        Some("http://192.168.1.5:53317/api/localsend/v2/prepare-download")
    );
    let pinned = Request::prepare_download(Some("123456"));
    assert_eq!(*pinned.query(), pairs(&[("pin", "123456")]));
    assert_eq!(
        pinned.url("http://192.168.1.5:53317").as_deref(),
        Some("http://192.168.1.5:53317/api/localsend/v2/prepare-download?pin=123456")
    );
}

#[test]
fn file_request_names_session_and_file() {
    let session = SessionId::new("mySessionId".to_string());
    let id = FileId::new("some file id".to_string());
    let bare = Request::download(&session, &id, None);
    assert_eq!(bare.method(), Method::Get);
    assert_eq!(bare.path(), "/api/localsend/v2/download");
    assert_eq!(*bare.query(), pairs(&[("sessionId", "mySessionId"), ("fileId", "some file id")]));
    assert_eq!(
        bare.url("http://10.0.0.2:8080/").as_deref(),
        Some("http://10.0.0.2:8080/api/localsend/v2/download?sessionId=mySessionId&fileId=some+file+id")
    );
    let pinned = Request::download(&session, &id, Some("a&b=c"));
    assert_eq!(
        *pinned.query(),
        pairs(&[("sessionId", "mySessionId"), ("fileId", "some file id"), ("pin", "a&b=c")])
    );
    assert_eq!(
        pinned.url("http://10.0.0.2:8080").as_deref(),
        Some("http://10.0.0.2:8080/api/localsend/v2/download?sessionId=mySessionId&fileId=some+file+id&pin=a%26b%3Dc")
    );
}

#[test]
fn address_that_is_no_url_gives_no_request_address() {
    assert_eq!(Request::prepare_download(None).url("not a url"), None);
    assert_eq!(Request::prepare_download(Some("1")).url(""), None);
    assert_eq!(Request::prepare_download(None).url("mailto:someone@example.com"), None);
}

#[test]
fn base_url_is_written_in_decimal() {
    assert_eq!(base_url([192, 168, 1, 5], 53317), "http://192.168.1.5:53317");
    assert_eq!(base_url([0, 0, 0, 0], 0), "http://0.0.0.0:0");
    assert_eq!(base_url([255, 255, 255, 255], 65535), "http://255.255.255.255:65535");
    assert_eq!(base_url([10, 100, 9, 99], 80), "http://10.100.9.99:80");
}

#[test]
fn query_parameters_have_their_names() {
    let pin = || Pin::new("123456".to_string());
    let session = || SessionId::new("s".to_string());
    let id = || FileId::new("f".to_string());
    assert_eq!(PrepareDownloadParams::new(pin()).query(), pairs(&[("pin", "123456")]));
    assert_eq!(PrepareUploadParams::new(pin()).query(), pairs(&[("pin", "123456")]));
    assert_eq!(
        DownloadParams::new(session(), id()).query(),
        pairs(&[("sessionId", "s"), ("fileId", "f")])
    );
    let upload = UploadParams::new(session(), id(), FileUploadToken::new("t".to_string()));
    assert_eq!(upload.query(), pairs(&[("sessionId", "s"), ("fileId", "f"), ("token", "t")]));
    assert_eq!(upload.token().as_str(), "t");
    assert_eq!(PrepareDownloadParams::new(pin()).pin().as_str(), "123456");
}

#[test]
fn every_file_gets_a_fetch_with_a_safe_destination() {
    let listed = manifest(vec![
        file("one", "a/b/c.txt", 3),
        file("two", "/a/../../etc/passwd", 4),
        file("three", "../../secret", 5),
        file("four", "..", 6),
    ]);
    let fetches = plan_fetches(&listed, Some("9"));
    assert_eq!(fetches.len(), 4);
    let destinations: Vec<&str> = fetches.iter().map(|fetch| fetch.destination()).collect();
    assert_eq!(destinations, vec!["a/b/c.txt", "etc/passwd", "secret", "."]);
    for (fetch, id) in fetches.iter().zip(["one", "two", "three", "four"]) {
        assert_eq!(fetch.file_id().as_str(), id);
        assert_eq!(
            *fetch.request().query(),
            pairs(&[("sessionId", "mySessionId"), ("fileId", id), ("pin", "9")])
        );
        assert_eq!(fetch.request().method(), Method::Get);
    }
    assert!(plan_fetches(&manifest(vec![]), None).is_empty());
    let single = FileFetch::of(listed.session_id(), None, &file("x", "dir/./x.bin", 1).1);
    assert_eq!(single.destination(), "dir/x.bin");
    assert_eq!(*single.request().query(), pairs(&[("sessionId", "mySessionId"), ("fileId", "x")]));
}

#[test]
fn one_failure_leaves_the_other_files_alone() {
    let listed = manifest(vec![file("a", "a.txt", 1), file("b", "b.txt", 2), file("c", "c.txt", 3)]);
    let mut batch = FetchBatch::begin(&listed, None, true).unwrap();
    assert_eq!(batch.len(), 3);
    assert!(!batch.is_complete());
    assert_eq!(batch.tally(), (0, 0));
    for index in 0..3 {
        assert_eq!(batch.advance(index, TransferEvent::Started), TransferAction::CreateDirectory);
        assert_eq!(batch.advance(index, TransferEvent::DirectoryReady), TransferAction::SendRequest);
    }
    assert_eq!(batch.advance(0, TransferEvent::Answered(200)), TransferAction::SaveBody);
    assert_eq!(batch.advance(1, TransferEvent::Answered(403)), TransferAction::Stop);
    assert_eq!(batch.advance(2, TransferEvent::Answered(200)), TransferAction::SaveBody);
    assert_eq!(batch.state(1), Some(TransferState::Failed(PerFileError::StatusFailure(403))));
    assert_eq!(batch.state(0), Some(TransferState::Receiving));
    assert!(!batch.is_complete());
    assert_eq!(batch.results(), None);
    assert_eq!(batch.advance(2, TransferEvent::Saved), TransferAction::Stop);
    assert_eq!(batch.advance(0, TransferEvent::Saved), TransferAction::Stop);
    assert!(batch.is_complete());
    assert_eq!(batch.tally(), (2, 1));
    let results = batch.results().unwrap();
    assert_eq!(results.len(), 3);
    let outcomes: Vec<(&str, Result<(), PerFileError>)> =
        results.iter().map(|result| (result.file_id().as_str(), result.outcome())).collect();
    assert_eq!(
        outcomes,
        vec![
            ("a", Ok(())),
            ("b", Err(PerFileError::StatusFailure(403))),
            ("c", Ok(()))
        ]
    );
    assert!(results[0].is_success());
    assert!(!results[1].is_success());
    // nothing more happens to a batch that is complete
    assert_eq!(batch.advance(1, TransferEvent::Answered(200)), TransferAction::Stop);
    assert_eq!(batch.advance(7, TransferEvent::Started), TransferAction::Stop);
    assert_eq!(batch.state(7), None);
    assert_eq!(batch.tally(), (2, 1));
    assert_eq!(batch.fetches().len(), 3);
}

#[test]
fn transfer_goes_through_its_steps() {
    assert_eq!(Planned.advance(Started), (Preparing, CreateDirectory));
    assert_eq!(Preparing.advance(DirectoryReady), (Requesting, SendRequest));
    assert_eq!(Preparing.advance(DirectoryFailed), (Failed(PerFileError::IoFailure), Stop));
    assert_eq!(Requesting.advance(Answered(200)), (Receiving, SaveBody));
    assert_eq!(Requesting.advance(Answered(299)), (Receiving, SaveBody));
    assert_eq!(
        Requesting.advance(Answered(300)),
        (Failed(PerFileError::StatusFailure(300)), Stop)
    );
    assert_eq!(
        Requesting.advance(Answered(199)),
        (Failed(PerFileError::StatusFailure(199)), Stop)
    );
    assert_eq!(
        Requesting.advance(Answered(404)),
        (Failed(PerFileError::StatusFailure(404)), Stop)
    );
    assert_eq!(Requesting.advance(RequestFailed), (Failed(PerFileError::NetworkFailure), Stop));
    assert_eq!(Receiving.advance(Saved), (Succeeded, Stop));
    assert_eq!(Receiving.advance(ReceiveFailed), (Failed(PerFileError::NetworkFailure), Stop));
    assert_eq!(Receiving.advance(WriteFailed), (Failed(PerFileError::IoFailure), Stop));
    // events out of turn change nothing
    assert_eq!(Planned.advance(Saved), (Planned, Stop));
    assert_eq!(Planned.advance(Answered(200)), (Planned, Stop));
    assert_eq!(Preparing.advance(Started), (Preparing, Stop));
    assert_eq!(Requesting.advance(Saved), (Requesting, Stop));
    assert_eq!(Receiving.advance(Answered(200)), (Receiving, Stop));
    assert_eq!(Succeeded.advance(Started), (Succeeded, Stop));
    assert_eq!(
        Failed(PerFileError::IoFailure).advance(Saved),
        (Failed(PerFileError::IoFailure), Stop)
    );
    // giving up ends a fetch that is under way, and no other
    for state in [Planned, Preparing, Requesting, Receiving] {
        assert_eq!(state.advance(Abandoned), (Failed(PerFileError::NetworkFailure), Stop));
    }
    assert_eq!(Succeeded.advance(Abandoned), (Succeeded, Stop));
    assert_eq!(
        Failed(PerFileError::StatusFailure(403)).advance(Abandoned),
        (Failed(PerFileError::StatusFailure(403)), Stop)
    );
    assert!(Succeeded.is_over());
    assert!(Failed(PerFileError::NetworkFailure).is_over());
    assert!(!Receiving.is_over());
    assert!(!Planned.is_over());
}

#[test]
fn closing_a_batch_gives_up_what_is_under_way() {
    let listed = manifest(vec![file("a", "a.txt", 1), file("b", "b.txt", 2), file("c", "c.txt", 3)]);
    let mut batch = FetchBatch::begin(&listed, None, true).unwrap();
    for event in [Started, DirectoryReady, Answered(200), Saved] {
        batch.advance(0, event);
    }
    for event in [Started, DirectoryFailed] {
        batch.advance(1, event);
    }
    batch.advance(2, Started);
    assert!(!batch.is_complete());
    batch.close();
    assert!(batch.is_complete());
    assert_eq!(batch.state(0), Some(Succeeded));
    assert_eq!(batch.state(1), Some(Failed(PerFileError::IoFailure)));
    assert_eq!(batch.state(2), Some(Failed(PerFileError::NetworkFailure)));
    assert_eq!(batch.tally(), (1, 2));
    assert_eq!(batch.results().unwrap().len(), 3);
}

#[test]
fn files_are_listed_with_type_size_and_name() {
    let listed = manifest(vec![file("a", "my image.png", 324242), file("b", "empty", 0)]);
    assert_eq!(
        listing(&listed),
        vec!["text/plain\t324242b\tmy image.png".to_string(), "text/plain\t0b\tempty".to_string()]
    );
    assert!(listing(&manifest(vec![])).is_empty());
}
