//! The parameters that go into the query of each request.

use vstd::prelude::*;
use crate::messages::common_fields::common_file_fields::pairs_view;
use crate::messages::common_fields::{FileId, FileUploadToken, SessionId};

verus! {

/// The PIN that a device asks of those that talk to it.
#[derive(Debug, PartialEq, Eq)]
pub struct Pin(String);

impl View for Pin {
    type V = Seq<char>;

    closed spec fn view(&self) -> Seq<char> {
        self.0@
    }
}

impl Clone for Pin {
    fn clone(&self) -> (out: Self)
        ensures
            out@ == self@,
    {
        Pin(self.0.clone())
    }
}

impl Pin {
    pub fn new(value: String) -> (out: Self)
        ensures
            out@ == value@,
    {
        Pin(value)
    }

    pub fn as_str(&self) -> (out: &str)
        ensures
            out@ == self@,
    {
        self.0.as_str()
    }
}

/// Puts one more pair at the end of a query.
pub fn push_pair(query: &mut Vec<(String, String)>, key: &str, value: &str)
    ensures
        pairs_view(final(query)@) == pairs_view(old(query)@).push((key@, value@)),
{
    query.push((key.to_owned(), value.to_owned()));
}

/// What goes with the request for a sender's list of files.
#[derive(Debug, PartialEq, Eq)]
pub struct PrepareDownloadParams {
    pin: Pin,
}

impl PrepareDownloadParams {
    pub closed spec fn pin_view(&self) -> Seq<char> {
        self.pin@
    }

    /// The query that the parameters make: `pin`.
    pub open spec fn spec_query(&self) -> Seq<(Seq<char>, Seq<char>)> {
        seq![("pin"@, self.pin_view())]
    }

    pub fn new(pin: Pin) -> (out: Self)
        ensures
            out.pin_view() == pin@,
    {
        PrepareDownloadParams { pin }
    }

    pub fn pin(&self) -> (out: &Pin)
        ensures
            out@ == self.pin_view(),
    {
        &self.pin
    }

    /// The parameters as the pairs of a query.
    pub fn query(&self) -> (out: Vec<(String, String)>)
        ensures
            pairs_view(out@) == self.spec_query(),
    {
        let mut out: Vec<(String, String)> = Vec::new();
        push_pair(&mut out, "pin", self.pin.as_str());
        out
    }
}

/// What goes with the request for one file of a sender.
#[derive(Debug, PartialEq, Eq)]
pub struct DownloadParams {
    session_id: SessionId,
    file_id: FileId,
}

impl DownloadParams {
    pub closed spec fn session_view(&self) -> Seq<char> {
        self.session_id@
    }

    pub closed spec fn file_view(&self) -> Seq<char> {
        self.file_id@
    }

    /// The query that the parameters make: `sessionId`, then `fileId`.
    pub open spec fn spec_query(&self) -> Seq<(Seq<char>, Seq<char>)> {
        seq![("sessionId"@, self.session_view()), ("fileId"@, self.file_view())]
    }

    pub fn new(session_id: SessionId, file_id: FileId) -> (out: Self)
        ensures
            out.session_view() == session_id@,
            out.file_view() == file_id@,
    {
        DownloadParams { session_id, file_id }
    }

    pub fn session_id(&self) -> (out: &SessionId)
        ensures
            out@ == self.session_view(),
    {
        &self.session_id
    }

    pub fn file_id(&self) -> (out: &FileId)
        ensures
            out@ == self.file_view(),
    {
        &self.file_id
    }

    /// The parameters as the pairs of a query.
    pub fn query(&self) -> (out: Vec<(String, String)>)
        ensures
            pairs_view(out@) == self.spec_query(),
    {
        let mut out: Vec<(String, String)> = Vec::new();
        push_pair(&mut out, "sessionId", self.session_id.as_str());
        push_pair(&mut out, "fileId", self.file_id.as_str());
        out
    }
}

/// What goes with the offer of a list of files to a receiver.
#[derive(Debug, PartialEq, Eq)]
pub struct PrepareUploadParams {
    pin: Pin,
}

impl PrepareUploadParams {
    pub closed spec fn pin_view(&self) -> Seq<char> {
        self.pin@
    }

    /// The query that the parameters make: `pin`.
    pub open spec fn spec_query(&self) -> Seq<(Seq<char>, Seq<char>)> {
        seq![("pin"@, self.pin_view())]
    }

    pub fn new(pin: Pin) -> (out: Self)
        ensures
            out.pin_view() == pin@,
    {
        PrepareUploadParams { pin }
    }

    pub fn pin(&self) -> (out: &Pin)
        ensures
            out@ == self.pin_view(),
    {
        &self.pin
    }

    /// The parameters as the pairs of a query.
    pub fn query(&self) -> (out: Vec<(String, String)>)
        ensures
            pairs_view(out@) == self.spec_query(),
    {
        let mut out: Vec<(String, String)> = Vec::new();
        push_pair(&mut out, "pin", self.pin.as_str());
        out
    }
}

/// What goes with the upload of one file to a receiver.
#[derive(Debug, PartialEq, Eq)]
pub struct UploadParams {
    session_id: SessionId,
    file_id: FileId,
    token: FileUploadToken,
}

impl UploadParams {
    pub closed spec fn session_view(&self) -> Seq<char> {
        self.session_id@
    }

    pub closed spec fn file_view(&self) -> Seq<char> {
        self.file_id@
    }

    pub closed spec fn token_view(&self) -> Seq<char> {
        self.token@
    }

    /// The query that the parameters make: `sessionId`, `fileId`, then
    /// `token`.
    pub open spec fn spec_query(&self) -> Seq<(Seq<char>, Seq<char>)> {
        seq![
            ("sessionId"@, self.session_view()),
            ("fileId"@, self.file_view()),
            ("token"@, self.token_view()),
        ]
    }

    pub fn new(session_id: SessionId, file_id: FileId, token: FileUploadToken) -> (out: Self)
        ensures
            out.session_view() == session_id@,
            out.file_view() == file_id@,
            out.token_view() == token@,
    {
        UploadParams { session_id, file_id, token }
    }

    pub fn session_id(&self) -> (out: &SessionId)
        ensures
            out@ == self.session_view(),
    {
        &self.session_id
    }

    pub fn file_id(&self) -> (out: &FileId)
        ensures
            out@ == self.file_view(),
    {
        &self.file_id
    }

    pub fn token(&self) -> (out: &FileUploadToken)
        ensures
            out@ == self.token_view(),
    {
        &self.token
    }

    /// The parameters as the pairs of a query.
    pub fn query(&self) -> (out: Vec<(String, String)>)
        ensures
            pairs_view(out@) == self.spec_query(),
    {
        let mut out: Vec<(String, String)> = Vec::new();
        push_pair(&mut out, "sessionId", self.session_id.as_str());
        push_pair(&mut out, "fileId", self.file_id.as_str());
        push_pair(&mut out, "token", self.token.as_str());
        out
    }
}

} // verus!
