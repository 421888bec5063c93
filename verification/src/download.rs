//! Fetching the files that a sender offers.
//!
//! A download begins with a handshake: the receiver asks the sender what it
//! offers, and the sender answers with a list of files and a session, or
//! refuses. Then each file of the list is fetched by a request of its own,
//! and what becomes of one file has no bearing on the others.
//!
//! This module holds what is decided on the way: which requests are made,
//! what a status means, where a file is saved, and what is reported in the
//! end. Making the requests and writing the files is left to the caller.

use vstd::prelude::*;
use crate::errors::DownloadRequestError;
use crate::messages::common_fields::common_file_fields::pairs_view;
use crate::messages::common_fields::{FileId, FileInfo, FileInfoView, SessionId};
use crate::messages::download::{PrepareDownloadResponse, PrepareDownloadResponseView};
use crate::api::push_pair;
use crate::text::{decimal, decimal_text};
use crate::utils::{is_confined, lemma_sanitized_is_confined, sanitize_relative_path, sanitized};

verus! {

/// Why a handshake came to nothing.
#[derive(Debug, Clone, Copy, PartialEq, Eq, Structural)]
pub enum HandshakeError {
    /// Status 401: the sender wants a PIN, or the PIN was wrong.
    Unauthorized,
    /// Status 403: the sender said no.
    Forbidden,
    /// Status 429: the sender has been asked too often.
    RateLimited,
    /// A status from 500 to 599: the sender failed.
    PeerError,
    /// Any other status that is not from 200 to 299.
    UnexpectedStatus,
    /// The sender agreed, but what it sent is no list of files.
    InvalidManifest,
}

/// Whether a status reports success: it lies from 200 to 299.
pub open spec fn is_success(status: u16) -> bool {
    200 <= status <= 299
}

impl HandshakeError {
    /// What a status says of a handshake: nothing where it reports success,
    /// else the reason of the failure.
    pub open spec fn of_status(status: u16) -> Option<HandshakeError> {
        if is_success(status) {
            None
        } else if status == 401 {
            Some(HandshakeError::Unauthorized)
        } else if status == 403 {
            Some(HandshakeError::Forbidden)
        } else if status == 429 {
            Some(HandshakeError::RateLimited)
        } else if 500 <= status <= 599 {
            Some(HandshakeError::PeerError)
        } else {
            Some(HandshakeError::UnexpectedStatus)
        }
    }

    /// The failure that a refusal of the protocol amounts to.
    pub open spec fn of_refusal(refusal: DownloadRequestError) -> HandshakeError {
        match refusal {
            DownloadRequestError::Http401 => HandshakeError::Unauthorized,
            DownloadRequestError::Http403 => HandshakeError::Forbidden,
            DownloadRequestError::Http429 => HandshakeError::RateLimited,
            DownloadRequestError::Http500 => HandshakeError::PeerError,
        }
    }

    /// Each refusal that the protocol names is told by its status.
    pub proof fn lemma_refusals(refusal: DownloadRequestError)
        ensures
            HandshakeError::of_status(refusal.spec_status()) == Some(HandshakeError::of_refusal(refusal)),
    {
    }

    /// Says what a status means for a handshake.
    pub fn check_status(status: u16) -> (out: Result<(), HandshakeError>)
        ensures
            out is Ok <==> is_success(status),
            out is Err ==> HandshakeError::of_status(status) == Some(out->Err_0),
    {
        if 200 <= status && status <= 299 {
            Ok(())
        } else if status == 401 {
            Err(HandshakeError::Unauthorized)
        } else if status == 403 {
            Err(HandshakeError::Forbidden)
        } else if status == 429 {
            Err(HandshakeError::RateLimited)
        } else if 500 <= status && status <= 599 {
            Err(HandshakeError::PeerError)
        } else {
            Err(HandshakeError::UnexpectedStatus)
        }
    }

    /// The failure that a refusal of the protocol amounts to.
    pub fn from_refusal(refusal: DownloadRequestError) -> (out: HandshakeError)
        ensures
            out == HandshakeError::of_refusal(refusal),
    {
        match refusal {
            DownloadRequestError::Http401 => HandshakeError::Unauthorized,
            DownloadRequestError::Http403 => HandshakeError::Forbidden,
            DownloadRequestError::Http429 => HandshakeError::RateLimited,
            DownloadRequestError::Http500 => HandshakeError::PeerError,
        }
    }
}

/// What a handshake yields, given the status and the body of the reply:
/// the list of files where the status reports success and the body holds
/// one, else the reason of the failure. The status is looked at first.
pub open spec fn manifest_read(status: u16, body: Seq<char>) -> Result<
    PrepareDownloadResponseView,
    HandshakeError,
> {
    match HandshakeError::of_status(status) {
        Some(error) => Err(error),
        None => match PrepareDownloadResponseView::decode_text(body) {
            Some(manifest) => Ok(manifest),
            None => Err(HandshakeError::InvalidManifest),
        },
    }
}

/// Reads the reply to a handshake.
pub fn read_manifest(status: u16, body: &str) -> (out: Result<PrepareDownloadResponse, HandshakeError>)
    ensures
        out is Ok <==> manifest_read(status, body@) is Ok,
        out is Ok ==> out->Ok_0@ == manifest_read(status, body@)->Ok_0,
        out is Err ==> out->Err_0 == manifest_read(status, body@)->Err_0,
{
    match HandshakeError::check_status(status) {
        Err(error) => Err(error),
        Ok(()) => match PrepareDownloadResponse::decode(body) {
            Some(manifest) => Ok(manifest),
            None => Err(HandshakeError::InvalidManifest),
        },
    }
}

/// How a request is made.
#[derive(Debug, Clone, Copy, PartialEq, Eq, Structural)]
pub enum Method {
    Get,
    Post,
}

/// A request to a sender: how it is made, the path it goes to, and the
/// pairs of its query.
#[derive(Debug, PartialEq, Eq)]
pub struct Request {
    method: Method,
    path: String,
    query: Vec<(String, String)>,
}

/// The content of a [`Request`].
pub ghost struct RequestView {
    pub method: Method,
    pub path: Seq<char>,
    pub query: Seq<(Seq<char>, Seq<char>)>,
}

/// The pair that carries a PIN, where there is one.
pub open spec fn pin_pair(pin: Option<Seq<char>>) -> Seq<(Seq<char>, Seq<char>)> {
    match pin {
        Some(pin) => seq![("pin"@, pin)],
        None => Seq::empty(),
    }
}

/// What `Url::join` of the `url` crate makes of an address and a
/// reference, as text; `None` where the address or the result is no URL.
pub uninterp spec fn url_joined(base: Seq<char>, reference: Seq<char>) -> Option<Seq<char>>;

/// What an address becomes when the `url` crate appends the pairs to its
/// query; `None` where the address is no URL.
pub uninterp spec fn url_extended(address: Seq<char>, query: Seq<(Seq<char>, Seq<char>)>) -> Option<
    Seq<char>,
>;

/// Resolves a reference against an address with `Url::join`.
#[verifier::external_body]
fn join_url(base: &str, reference: &str) -> (out: Option<String>)
    ensures
        out is Some <==> url_joined(base@, reference@) is Some,
        out is Some ==> out->0@ == url_joined(base@, reference@)->0,
{
    url::Url::parse(base).and_then(|base| base.join(reference)).ok().map(String::from)
}

/// Appends pairs to the query of an address with
/// `Url::query_pairs_mut` and `extend_pairs`.
#[verifier::external_body]
fn extend_url(address: &str, query: &Vec<(String, String)>) -> (out: Option<String>)
    ensures
        out is Some <==> url_extended(address@, pairs_view(query@)) is Some,
        out is Some ==> out->0@ == url_extended(address@, pairs_view(query@))->0,
{
    let mut address = url::Url::parse(address).ok()?;
    address.query_pairs_mut().extend_pairs(query.iter());
    Some(String::from(address))
}

impl RequestView {
    /// The request for the list of files: a POST, with the PIN where there
    /// is one.
    pub open spec fn prepare_download(pin: Option<Seq<char>>) -> RequestView {
        RequestView {
            method: Method::Post,
            path: "/api/localsend/v2/prepare-download"@,
            query: pin_pair(pin),
        }
    }

    /// The request for one file: a GET that names the session and the
    /// file, with the PIN where there is one.
    pub open spec fn download(session_id: Seq<char>, file_id: Seq<char>, pin: Option<Seq<char>>) -> RequestView {
        RequestView {
            method: Method::Get,
            path: "/api/localsend/v2/download"@,
            query: seq![("sessionId"@, session_id), ("fileId"@, file_id)] + pin_pair(pin),
        }
    }

    /// The address that the request goes to at a sender: the path resolved
    /// against the sender's address, and the query appended where there is
    /// one.
    pub open spec fn url(self, base: Seq<char>) -> Option<Seq<char>> {
        match url_joined(base, self.path) {
            None => None,
            Some(address) => if self.query.len() == 0 {
                Some(address)
            } else {
                url_extended(address, self.query)
            },
        }
    }
}

impl View for Request {
    type V = RequestView;

    closed spec fn view(&self) -> RequestView {
        RequestView { method: self.method, path: self.path@, query: pairs_view(self.query@) }
    }
}

/// The text of a PIN, where there is one.
pub open spec fn pin_view(pin: Option<&str>) -> Option<Seq<char>> {
    match pin {
        Some(pin) => Some(pin@),
        None => None,
    }
}

impl Request {
    pub fn method(&self) -> (out: Method)
        ensures
            out == self@.method,
    {
        self.method
    }

    pub fn path(&self) -> (out: &str)
        ensures
            out@ == self@.path,
    {
        self.path.as_str()
    }

    pub fn query(&self) -> (out: &Vec<(String, String)>)
        ensures
            pairs_view(out@) == self@.query,
    {
        &self.query
    }

    /// The request for the list of files.
    pub fn prepare_download(pin: Option<&str>) -> (out: Request)
        ensures
            out@ == RequestView::prepare_download(pin_view(pin)),
    {
        let mut query: Vec<(String, String)> = Vec::new();
        assert(pairs_view(query@) =~= Seq::empty());
        match pin {
            Some(pin) => {
                push_pair(&mut query, "pin", pin);
            },
            None => {},
        }
        Request { method: Method::Post, path: "/api/localsend/v2/prepare-download".to_owned(), query }
    }

    /// The request for one file.
    pub fn download(session_id: &SessionId, file_id: &FileId, pin: Option<&str>) -> (out: Request)
        ensures
            out@ == RequestView::download(session_id@, file_id@, pin_view(pin)),
    {
        let mut query: Vec<(String, String)> = Vec::new();
        push_pair(&mut query, "sessionId", session_id.as_str());
        push_pair(&mut query, "fileId", file_id.as_str());
        match pin {
            Some(pin) => {
                push_pair(&mut query, "pin", pin);
            },
            None => {},
        }
        assert(pairs_view(query@) =~= seq![("sessionId"@, session_id@), ("fileId"@, file_id@)]
            + pin_pair(pin_view(pin)));
        Request { method: Method::Get, path: "/api/localsend/v2/download".to_owned(), query }
    }

    /// The address that the request goes to at the sender whose address is
    /// `base`; `None` where `base` is no URL.
    pub fn url(&self, base: &str) -> (out: Option<String>)
        ensures
            out is Some <==> self@.url(base@) is Some,
            out is Some ==> out->0@ == self@.url(base@)->0,
    {
        match join_url(base, self.path.as_str()) {
            None => None,
            Some(address) => if self.query.len() == 0 {
                Some(address)
            } else {
                extend_url(address.as_str(), &self.query)
            },
        }
    }
}

/// The address of a sender: `http://a.b.c.d:port`.
pub open spec fn base_url_of(address: [u8; 4], port: u16) -> Seq<char> {
    "http://"@ + decimal(address[0] as nat) + "."@ + decimal(address[1] as nat) + "."@ + decimal(
        address[2] as nat,
    ) + "."@ + decimal(address[3] as nat) + ":"@ + decimal(port as nat)
}

/// The address of a sender, from its IP address and its port.
pub fn base_url(address: [u8; 4], port: u16) -> (out: String)
    ensures
        out@ == base_url_of(address, port),
{
    let mut out = "http://".to_owned();
    out.append(decimal_text(address[0] as u64).as_str());
    out.append(".");
    out.append(decimal_text(address[1] as u64).as_str());
    out.append(".");
    out.append(decimal_text(address[2] as u64).as_str());
    out.append(".");
    out.append(decimal_text(address[3] as u64).as_str());
    out.append(":");
    out.append(decimal_text(port as u64).as_str());
    out
}

/// What it takes to fetch one file: its name in the list, the path to save
/// it under, relative to the directory that the files go to, and the
/// request to make.
#[derive(Debug, PartialEq, Eq)]
pub struct FileFetch {
    file_id: FileId,
    destination: String,
    request: Request,
}

/// The content of a [`FileFetch`].
pub ghost struct FileFetchView {
    pub file_id: Seq<char>,
    pub destination: Seq<char>,
    pub request: RequestView,
}

impl FileFetchView {
    /// The fetch of a file of a session: it is saved under its name, made
    /// safe, and asked for by its `id`.
    pub open spec fn of(session_id: Seq<char>, pin: Option<Seq<char>>, file: FileInfoView) -> FileFetchView {
        FileFetchView {
            file_id: file.id,
            destination: sanitized(file.file_name),
            request: RequestView::download(session_id, file.id, pin),
        }
    }

    /// The fetches of a list of files: one for each file, in the order of
    /// the list.
    pub open spec fn all(manifest: PrepareDownloadResponseView, pin: Option<Seq<char>>) -> Seq<
        FileFetchView,
    > {
        Seq::new(
            manifest.files.len(),
            |i: int| FileFetchView::of(manifest.session_id, pin, manifest.files[i].1),
        )
    }

    /// Every file of a list is saved below the directory that the files go
    /// to, whatever the sender called it, and is asked for under the
    /// session of the list.
    pub proof fn lemma_all(manifest: PrepareDownloadResponseView, pin: Option<Seq<char>>)
        ensures
            FileFetchView::all(manifest, pin).len() == manifest.files.len(),
            forall|i: int|
                0 <= i < manifest.files.len() ==> {
                    let fetch = #[trigger] FileFetchView::all(manifest, pin)[i];
                    &&& is_confined(fetch.destination)
                    &&& fetch.destination.len() > 0
                    &&& fetch.destination[0] != '/'
                    &&& fetch.request.query[0] == ("sessionId"@, manifest.session_id)
                    &&& fetch.request.query[1] == ("fileId"@, manifest.files[i].1.id)
                },
    {
        assert forall|i: int| 0 <= i < manifest.files.len() implies {
            let fetch = #[trigger] FileFetchView::all(manifest, pin)[i];
            &&& is_confined(fetch.destination)
            &&& fetch.destination.len() > 0
            &&& fetch.destination[0] != '/'
            &&& fetch.request.query[0] == ("sessionId"@, manifest.session_id)
            &&& fetch.request.query[1] == ("fileId"@, manifest.files[i].1.id)
        } by {
            lemma_sanitized_is_confined(manifest.files[i].1.file_name);
        }
    }
}

impl View for FileFetch {
    type V = FileFetchView;

    closed spec fn view(&self) -> FileFetchView {
        FileFetchView {
            file_id: self.file_id@,
            destination: self.destination@,
            request: self.request@,
        }
    }
}

/// The content of a list of fetches.
pub open spec fn fetches_view(fetches: Seq<FileFetch>) -> Seq<FileFetchView> {
    Seq::new(fetches.len(), |i: int| fetches[i]@)
}

impl FileFetch {
    /// The fetch of a file of a session.
    pub fn of(session_id: &SessionId, pin: Option<&str>, file: &FileInfo) -> (out: FileFetch)
        ensures
            out@ == FileFetchView::of(session_id@, pin_view(pin), file@),
            is_confined(out@.destination),
    {
        FileFetch {
            file_id: file.id().clone(),
            destination: sanitize_relative_path(file.file_name().as_str()),
            request: Request::download(session_id, file.id(), pin),
        }
    }

    pub fn file_id(&self) -> (out: &FileId)
        ensures
            out@ == self@.file_id,
    {
        &self.file_id
    }

    /// The path to save the file under, relative to the directory that the
    /// files go to.
    pub fn destination(&self) -> (out: &str)
        ensures
            out@ == self@.destination,
    {
        self.destination.as_str()
    }

    pub fn request(&self) -> (out: &Request)
        ensures
            out@ == self@.request,
    {
        &self.request
    }
}

/// Plans the fetches of a list of files: one for each file, in the order of
/// the list.
pub fn plan_fetches(manifest: &PrepareDownloadResponse, pin: Option<&str>) -> (out: Vec<FileFetch>)
    ensures
        fetches_view(out@) == FileFetchView::all(manifest@, pin_view(pin)),
        out@.len() == manifest@.files.len(),
        forall|i: int| 0 <= i < out@.len() ==> is_confined((#[trigger] out@[i])@.destination),
{
    let files = manifest.files().as_ref();
    let mut out: Vec<FileFetch> = Vec::new();
    let mut i: usize = 0;
    while i < files.len()
        invariant
            i <= files.len(),
            crate::messages::common_fields::common_file_fields::files_view(files@) == manifest@.files,
            fetches_view(out@) == FileFetchView::all(manifest@, pin_view(pin)).take(i as int),
        decreases files.len() - i,
    {
        let fetch = FileFetch::of(manifest.session_id(), pin, &files[i].1);
        let ghost before = fetches_view(out@);
        let ghost content = fetch@;
        out.push(fetch);
        assert(FileFetchView::all(manifest@, pin_view(pin)).take(i + 1) =~= before.push(content));
        i += 1;
    }
    proof {
        FileFetchView::lemma_all(manifest@, pin_view(pin));
        assert forall|i: int| 0 <= i < out@.len() implies is_confined(
            (#[trigger] out@[i])@.destination,
        ) by {
            assert(fetches_view(out@)[i] == out@[i]@);
        }
    }
    out
}

/// Why the fetch of a file came to nothing.
#[derive(Debug, Clone, Copy, PartialEq, Eq, Structural)]
pub enum PerFileError {
    /// The request did not get through, or the body broke off.
    NetworkFailure,
    /// The sender answered with a status that does not report success.
    StatusFailure(u16),
    /// The directory or the file could not be written.
    IoFailure,
}

/// How far the fetch of one file has come.
#[derive(Debug, Clone, Copy, PartialEq, Eq, Structural)]
pub enum TransferState {
    /// Nothing has been done yet.
    Planned,
    /// The directory that the file goes to is being made.
    Preparing,
    /// The request is under way.
    Requesting,
    /// The body is being written to the file.
    Receiving,
    /// The file is saved.
    Succeeded,
    /// The fetch has failed.
    Failed(PerFileError),
}

/// What happened to the fetch of one file.
#[derive(Debug, Clone, Copy, PartialEq, Eq, Structural)]
pub enum TransferEvent {
    /// The fetch is taken up.
    Started,
    /// The directory that the file goes to is there.
    DirectoryReady,
    /// The directory could not be made.
    DirectoryFailed,
    /// The sender answered with the given status.
    Answered(u16),
    /// The request did not get through.
    RequestFailed,
    /// The whole body is written to the file.
    Saved,
    /// The body broke off.
    ReceiveFailed,
    /// The file could not be written.
    WriteFailed,
    /// Whoever was fetching the file gave up, or was lost.
    Abandoned,
}

/// What is to be done next for one file.
#[derive(Debug, Clone, Copy, PartialEq, Eq, Structural)]
pub enum TransferAction {
    /// Make the directories that the destination lies in.
    CreateDirectory,
    /// Make the request.
    SendRequest,
    /// Write the body to the destination, piece by piece as it arrives.
    SaveBody,
    /// Nothing more.
    Stop,
}

impl TransferState {
    /// Whether the fetch has come to its end.
    pub open spec fn spec_is_over(self) -> bool {
        self is Succeeded || self is Failed
    }

    /// Where the fetch stands after an event, and what is to be done next.
    ///
    /// A fetch goes through its steps in order: the directory, the request,
    /// the body. The body is written only after a status that reports
    /// success. Whatever fails ends the fetch with the reason. A fetch that
    /// is given up before its end counts as failed on the network. Any other
    /// event that does not belong where the fetch stands changes nothing.
    pub open spec fn after(self, event: TransferEvent) -> (TransferState, TransferAction) {
        match (self, event) {
            (TransferState::Succeeded, TransferEvent::Abandoned) => (self, TransferAction::Stop),
            (TransferState::Failed(_), TransferEvent::Abandoned) => (self, TransferAction::Stop),
            (_, TransferEvent::Abandoned) => (
                TransferState::Failed(PerFileError::NetworkFailure),
                TransferAction::Stop,
            ),
            (TransferState::Planned, TransferEvent::Started) => (
                TransferState::Preparing,
                TransferAction::CreateDirectory,
            ),
            (TransferState::Preparing, TransferEvent::DirectoryReady) => (
                TransferState::Requesting,
                TransferAction::SendRequest,
            ),
            (TransferState::Preparing, TransferEvent::DirectoryFailed) => (
                TransferState::Failed(PerFileError::IoFailure),
                TransferAction::Stop,
            ),
            (TransferState::Requesting, TransferEvent::Answered(status)) => if is_success(status) {
                (TransferState::Receiving, TransferAction::SaveBody)
            } else {
                (TransferState::Failed(PerFileError::StatusFailure(status)), TransferAction::Stop)
            },
            (TransferState::Requesting, TransferEvent::RequestFailed) => (
                TransferState::Failed(PerFileError::NetworkFailure),
                TransferAction::Stop,
            ),
            (TransferState::Receiving, TransferEvent::Saved) => (
                TransferState::Succeeded,
                TransferAction::Stop,
            ),
            (TransferState::Receiving, TransferEvent::ReceiveFailed) => (
                TransferState::Failed(PerFileError::NetworkFailure),
                TransferAction::Stop,
            ),
            (TransferState::Receiving, TransferEvent::WriteFailed) => (
                TransferState::Failed(PerFileError::IoFailure),
                TransferAction::Stop,
            ),
            _ => (self, TransferAction::Stop),
        }
    }

    /// A fetch that is over stays as it is, whatever comes. And a body is
    /// written only in answer to a status that reports success.
    pub proof fn lemma_after(self, event: TransferEvent)
        ensures
            self.spec_is_over() ==> self.after(event) == (self, TransferAction::Stop),
            self.after(event).1 == TransferAction::SaveBody ==> self == TransferState::Requesting
                && event is Answered && is_success(event->Answered_0),
            self.after(event).0 is Succeeded ==> self is Succeeded || (self is Receiving && event
                == TransferEvent::Saved),
    {
    }

    #[verifier::when_used_as_spec(spec_is_over)]
    pub fn is_over(self) -> (out: bool)
        ensures
            out == self.spec_is_over(),
    {
        match self {
            TransferState::Succeeded => true,
            TransferState::Failed(_) => true,
            _ => false,
        }
    }

    /// Takes the fetch one step further.
    pub fn advance(self, event: TransferEvent) -> (out: (TransferState, TransferAction))
        ensures
            out == self.after(event),
    {
        match (self, event) {
            (TransferState::Succeeded, TransferEvent::Abandoned) => (self, TransferAction::Stop),
            (TransferState::Failed(_), TransferEvent::Abandoned) => (self, TransferAction::Stop),
            (_, TransferEvent::Abandoned) => (
                TransferState::Failed(PerFileError::NetworkFailure),
                TransferAction::Stop,
            ),
            (TransferState::Planned, TransferEvent::Started) => (
                TransferState::Preparing,
                TransferAction::CreateDirectory,
            ),
            (TransferState::Preparing, TransferEvent::DirectoryReady) => (
                TransferState::Requesting,
                TransferAction::SendRequest,
            ),
            (TransferState::Preparing, TransferEvent::DirectoryFailed) => (
                TransferState::Failed(PerFileError::IoFailure),
                TransferAction::Stop,
            ),
            (TransferState::Requesting, TransferEvent::Answered(status)) => if 200 <= status && status
                <= 299 {
                (TransferState::Receiving, TransferAction::SaveBody)
            } else {
                (TransferState::Failed(PerFileError::StatusFailure(status)), TransferAction::Stop)
            },
            (TransferState::Requesting, TransferEvent::RequestFailed) => (
                TransferState::Failed(PerFileError::NetworkFailure),
                TransferAction::Stop,
            ),
            (TransferState::Receiving, TransferEvent::Saved) => (
                TransferState::Succeeded,
                TransferAction::Stop,
            ),
            (TransferState::Receiving, TransferEvent::ReceiveFailed) => (
                TransferState::Failed(PerFileError::NetworkFailure),
                TransferAction::Stop,
            ),
            (TransferState::Receiving, TransferEvent::WriteFailed) => (
                TransferState::Failed(PerFileError::IoFailure),
                TransferAction::Stop,
            ),
            _ => (self, TransferAction::Stop),
        }
    }
}

/// What became of one file.
#[derive(Debug, PartialEq, Eq)]
pub struct PerFileResult {
    file_id: FileId,
    outcome: Result<(), PerFileError>,
}

/// The content of a [`PerFileResult`].
pub ghost struct PerFileResultView {
    pub file_id: Seq<char>,
    pub outcome: Result<(), PerFileError>,
}

impl View for PerFileResult {
    type V = PerFileResultView;

    closed spec fn view(&self) -> PerFileResultView {
        PerFileResultView { file_id: self.file_id@, outcome: self.outcome }
    }
}

impl PerFileResult {
    pub fn file_id(&self) -> (out: &FileId)
        ensures
            out@ == self@.file_id,
    {
        &self.file_id
    }

    pub fn outcome(&self) -> (out: Result<(), PerFileError>)
        ensures
            out == self@.outcome,
    {
        self.outcome
    }

    pub fn is_success(&self) -> (out: bool)
        ensures
            out == self@.outcome is Ok,
    {
        self.outcome.is_ok()
    }
}

/// The content of a [`FetchBatch`]: the fetches of a list of files, and how
/// far each has come.
pub ghost struct FetchBatchView {
    pub fetches: Seq<FileFetchView>,
    pub states: Seq<TransferState>,
}

impl FetchBatchView {
    pub open spec fn wf(self) -> bool {
        self.fetches.len() == self.states.len()
    }

    /// The batch after an event for the file at `index`. Only that file is
    /// touched: how far the others have come stays as it was. An index that
    /// names no file changes nothing.
    pub open spec fn after(self, index: int, event: TransferEvent) -> FetchBatchView {
        if 0 <= index < self.states.len() {
            FetchBatchView {
                fetches: self.fetches,
                states: self.states.update(index, self.states[index].after(event).0),
            }
        } else {
            self
        }
    }

    /// What is to be done next for the file at `index` after an event.
    pub open spec fn action(self, index: int, event: TransferEvent) -> TransferAction {
        if 0 <= index < self.states.len() {
            self.states[index].after(event).1
        } else {
            TransferAction::Stop
        }
    }

    /// Whether every fetch has come to its end.
    pub open spec fn complete(self) -> bool {
        forall|i: int| 0 <= i < self.states.len() ==> (#[trigger] self.states[i]).spec_is_over()
    }

    /// The batch once every fetch that has not come to its end is given up.
    pub open spec fn closed(self) -> FetchBatchView {
        FetchBatchView {
            fetches: self.fetches,
            states: Seq::new(
                self.states.len(),
                |i: int| self.states[i].after(TransferEvent::Abandoned).0,
            ),
        }
    }

    /// What is reported of the file at `index`, once its fetch is over.
    pub open spec fn result(self, index: int) -> PerFileResultView {
        PerFileResultView {
            file_id: self.fetches[index].file_id,
            outcome: match self.states[index] {
                TransferState::Failed(error) => Err(error),
                _ => Ok(()),
            },
        }
    }

    /// How many of the first `n` files are saved.
    pub open spec fn successes(self, n: int) -> nat
        decreases n,
    {
        if n <= 0 {
            0
        } else {
            self.successes(n - 1) + if self.states[n - 1] is Succeeded {
                1nat
            } else {
                0nat
            }
        }
    }

    /// How many of the first `n` fetches have failed.
    pub open spec fn failures(self, n: int) -> nat
        decreases n,
    {
        if n <= 0 {
            0
        } else {
            self.failures(n - 1) + if self.states[n - 1] is Failed {
                1nat
            } else {
                0nat
            }
        }
    }

    /// What happens to one file leaves every other file where it was.
    pub proof fn lemma_siblings_untouched(self, index: int, event: TransferEvent, other: int)
        requires
            self.wf(),
            0 <= other < self.states.len(),
            other != index,
        ensures
            self.after(index, event).wf(),
            self.after(index, event).states[other] == self.states[other],
            self.after(index, event).fetches == self.fetches,
    {
    }

    /// In a batch that is complete every file is either saved or failed:
    /// the two counts add up to the number of files.
    pub proof fn lemma_complete_counts(self, n: int)
        requires
            self.wf(),
            self.complete(),
            0 <= n <= self.states.len(),
        ensures
            self.successes(n) + self.failures(n) == n,
        decreases n,
    {
        if n > 0 {
            self.lemma_complete_counts(n - 1);
        }
    }
}

/// The fetches of a list of files, and how far each has come.
#[derive(Debug)]
pub struct FetchBatch {
    fetches: Vec<FileFetch>,
    states: Vec<TransferState>,
}

impl View for FetchBatch {
    type V = FetchBatchView;

    closed spec fn view(&self) -> FetchBatchView {
        FetchBatchView { fetches: fetches_view(self.fetches@), states: self.states@ }
    }
}

impl FetchBatch {
    /// What every batch keeps to: each fetch has its state.
    pub open spec fn wf(&self) -> bool {
        self@.wf()
    }

    /// The batch of the given fetches, none of them taken up yet.
    pub fn new(fetches: Vec<FileFetch>) -> (out: FetchBatch)
        ensures
            out.wf(),
            out@.fetches == fetches_view(fetches@),
            forall|i: int| 0 <= i < out@.states.len() ==> out@.states[i] == TransferState::Planned,
    {
        let mut states: Vec<TransferState> = Vec::new();
        let mut i: usize = 0;
        while i < fetches.len()
            invariant
                i <= fetches.len(),
                states@.len() == i,
                forall|k: int| 0 <= k < i ==> states@[k] == TransferState::Planned,
            decreases fetches.len() - i,
        {
            states.push(TransferState::Planned);
            i += 1;
        }
        FetchBatch { fetches, states }
    }

    /// The batch for a list of files once the user has been asked: the
    /// fetches of all its files where the answer was yes, nothing where it
    /// was no.
    pub fn begin(manifest: &PrepareDownloadResponse, pin: Option<&str>, confirmed: bool) -> (out: Option<
        FetchBatch,
    >)
        ensures
            out is Some <==> confirmed,
            out is Some ==> out->0.wf() && out->0@.fetches == FileFetchView::all(
                manifest@,
                pin_view(pin),
            ) && forall|i: int|
                0 <= i < out->0@.states.len() ==> out->0@.states[i] == TransferState::Planned,
    {
        if confirmed {
            Some(FetchBatch::new(plan_fetches(manifest, pin)))
        } else {
            None
        }
    }

    /// How many files the batch has.
    pub fn len(&self) -> (out: usize)
        requires
            self.wf(),
        ensures
            out == self@.fetches.len(),
            out == self@.states.len(),
    {
        self.fetches.len()
    }

    /// The fetches, in the order of the list.
    pub fn fetches(&self) -> (out: &Vec<FileFetch>)
        ensures
            fetches_view(out@) == self@.fetches,
    {
        &self.fetches
    }

    /// How far the file at `index` has come.
    pub fn state(&self, index: usize) -> (out: Option<TransferState>)
        ensures
            out is Some <==> index < self@.states.len(),
            out is Some ==> out->0 == self@.states[index as int],
    {
        if index < self.states.len() {
            Some(self.states[index])
        } else {
            None
        }
    }

    /// Takes note of an event for the file at `index`, and says what is to
    /// be done next for it.
    pub fn advance(&mut self, index: usize, event: TransferEvent) -> (out: TransferAction)
        requires
            old(self).wf(),
        ensures
            final(self).wf(),
            final(self)@ == old(self)@.after(index as int, event),
            out == old(self)@.action(index as int, event),
    {
        if index < self.states.len() {
            let (state, action) = self.states[index].advance(event);
            self.states.set(index, state);
            action
        } else {
            TransferAction::Stop
        }
    }

    /// Gives up every fetch that has not come to its end, so that the batch
    /// is complete. What is saved stays saved, and what has failed keeps its
    /// reason.
    pub fn close(&mut self)
        requires
            old(self).wf(),
        ensures
            final(self).wf(),
            final(self)@ == old(self)@.closed(),
            final(self)@.complete(),
    {
        let mut i: usize = 0;
        while i < self.states.len()
            invariant
                self.wf(),
                i <= self.states.len(),
                self@.fetches == old(self)@.fetches,
                self@.states.len() == old(self)@.states.len(),
                forall|k: int| 0 <= k < i ==> #[trigger] self@.states[k] == old(self)@.closed().states[k],
                forall|k: int|
                    i <= k < self@.states.len() ==> #[trigger] self@.states[k] == old(self)@.states[k],
            decreases self.states.len() - i,
        {
            let (state, _) = self.states[i].advance(TransferEvent::Abandoned);
            self.states.set(i, state);
            i += 1;
        }
        assert(self@.states =~= old(self)@.closed().states);
    }

    /// Whether every fetch has come to its end.
    pub fn is_complete(&self) -> (out: bool)
        ensures
            out == self@.complete(),
    {
        let mut i: usize = 0;
        while i < self.states.len()
            invariant
                i <= self.states.len(),
                forall|k: int| 0 <= k < i ==> (#[trigger] self@.states[k]).spec_is_over(),
            decreases self.states.len() - i,
        {
            if !self.states[i].is_over() {
                assert(!self@.states[i as int].spec_is_over());
                return false;
            }
            i += 1;
        }
        true
    }

    /// What became of each file, in the order of the list: one result for
    /// each file. There are no results before every fetch has come to its
    /// end.
    pub fn results(&self) -> (out: Option<Vec<PerFileResult>>)
        requires
            self.wf(),
        ensures
            out is Some <==> self@.complete(),
            out is Some ==> out->0@.len() == self@.fetches.len(),
            out is Some ==> forall|i: int|
                0 <= i < out->0@.len() ==> (#[trigger] out->0@[i])@ == self@.result(i),
    {
        if !self.is_complete() {
            return None;
        }
        let mut out: Vec<PerFileResult> = Vec::new();
        let mut i: usize = 0;
        while i < self.fetches.len()
            invariant
                self.wf(),
                i <= self.fetches.len(),
                out@.len() == i,
                forall|k: int| 0 <= k < i ==> (#[trigger] out@[k])@ == self@.result(k),
            decreases self.fetches.len() - i,
        {
            let outcome = match self.states[i] {
                TransferState::Failed(error) => Err(error),
                _ => Ok(()),
            };
            out.push(PerFileResult { file_id: self.fetches[i].file_id().clone(), outcome });
            i += 1;
        }
        Some(out)
    }

    /// How many files are saved, and how many fetches have failed.
    pub fn tally(&self) -> (out: (usize, usize))
        ensures
            out.0 == self@.successes(self@.states.len() as int),
            out.1 == self@.failures(self@.states.len() as int),
    {
        let mut successes: usize = 0;
        let mut failures: usize = 0;
        let mut i: usize = 0;
        while i < self.states.len()
            invariant
                i <= self.states.len(),
                successes == self@.successes(i as int),
                failures == self@.failures(i as int),
                successes <= i,
                failures <= i,
            decreases self.states.len() - i,
        {
            match self.states[i] {
                TransferState::Succeeded => {
                    successes += 1;
                },
                TransferState::Failed(_) => {
                    failures += 1;
                },
                _ => {},
            }
            i += 1;
        }
        (successes, failures)
    }
}

/// The line that tells the user of one file: its type, its size in bytes,
/// and its name.
pub open spec fn listing_line(file: FileInfoView) -> Seq<char> {
    file.file_type + "\t"@ + decimal(file.size as nat) + "b\t"@ + file.file_name
}

/// The lines that tell the user what a sender offers: one for each file, in
/// the order of the list.
pub fn listing(manifest: &PrepareDownloadResponse) -> (out: Vec<String>)
    ensures
        out@.len() == manifest@.files.len(),
        forall|i: int| 0 <= i < out@.len() ==> (#[trigger] out@[i])@ == listing_line(manifest@.files[i].1),
{
    let files = manifest.files().as_ref();
    let mut out: Vec<String> = Vec::new();
    let mut i: usize = 0;
    while i < files.len()
        invariant
            i <= files.len(),
            crate::messages::common_fields::common_file_fields::files_view(files@) == manifest@.files,
            out@.len() == i,
            forall|k: int| 0 <= k < i ==> (#[trigger] out@[k])@ == listing_line(manifest@.files[k].1),
        decreases files.len() - i,
    {
        let file = &files[i].1;
        let mut line = file.file_type().clone();
        line.append("\t");
        line.append(decimal_text(*file.size()).as_str());
        line.append("b\t");
        line.append(file.file_name().as_str());
        out.push(line);
        i += 1;
    }
    out
}

} // verus!
