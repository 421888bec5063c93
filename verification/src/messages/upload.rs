//! Offering files to a receiver.
//!
//! A sender offers its files with `POST /api/localsend/v2/prepare-upload`:
//! it says who it is and what it has. The receiver answers with a session
//! and, for each file it takes, the token that opens the upload:
//!
//! ```json
//! {
//!   "sessionId": "mySessionId",
//!   "files": {
//!     "someFileId": "someFileToken",
//!     "someOtherFileId": "someOtherFileToken"
//!   }
//! }
//! ```

use vstd::prelude::*;
use crate::json::{
    Json, JsonValue, lemma_lookup_push, members_view, object_value, push_member, text_value,
    with_member,
};
use crate::messages::common_fields::common_file_fields::{
    files_decoded, files_encoded, lemma_files_round_trip, lemma_meta_round_trip, meta_decoded,
    meta_encoded,
};
use crate::messages::common_fields::{
    DeviceInfo, FileInfoView, FilesInfoMap, FilesTokenMap, Port, PreferDownload, Protocol, SessionId,
    Version,
};
use crate::messages::discover::{LegacyRegister, LegacyRegisterView};
use crate::messages::download::lemma_answer_member_names;

verus! {

/// Who offers the files: the members of a registration.
#[derive(Debug, PartialEq)]
pub struct PrepareUploadDeviceInfo {
    registration: LegacyRegister,
}

impl View for PrepareUploadDeviceInfo {
    type V = LegacyRegisterView;

    closed spec fn view(&self) -> LegacyRegisterView {
        self.registration@
    }
}

impl PrepareUploadDeviceInfo {
    pub fn new(
        version: Version,
        device_info: DeviceInfo,
        port: Port,
        protocol: Protocol,
        download: Option<bool>,
    ) -> (out: Self)
        ensures
            out@ == (LegacyRegisterView {
                version: version@,
                device_info: device_info@,
                port: port@,
                protocol,
                download,
            }),
    {
        let download = match download {
            Some(prefer) => Some(PreferDownload::new(prefer)),
            None => None,
        };
        PrepareUploadDeviceInfo {
            registration: LegacyRegister::new(version, device_info, port, protocol, download),
        }
    }

    /// The members as a registration.
    pub fn registration(&self) -> (out: &LegacyRegister)
        ensures
            out@ == self@,
    {
        &self.registration
    }

    pub fn to_json(&self) -> (out: JsonValue)
        ensures
            out@ == self@.encode(),
    {
        self.registration.to_json()
    }

    pub fn from_json(j: &JsonValue) -> (out: Option<PrepareUploadDeviceInfo>)
        ensures
            out is Some <==> LegacyRegisterView::decode(j@) is Some,
            out is Some ==> out->0@ == LegacyRegisterView::decode(j@)->0,
    {
        match LegacyRegister::from_json(j) {
            Some(registration) => Some(PrepareUploadDeviceInfo { registration }),
            None => None,
        }
    }
}

/// The offer of a sender: who it is and what it has.
#[derive(Debug, PartialEq)]
pub struct PrepareUploadRequest {
    info: PrepareUploadDeviceInfo,
    files: FilesInfoMap,
}

/// The content of a [`PrepareUploadRequest`].
pub ghost struct PrepareUploadRequestView {
    pub info: LegacyRegisterView,
    pub files: Seq<(Seq<char>, FileInfoView)>,
}

impl PrepareUploadRequestView {
    pub open spec fn encode(self) -> Json {
        Json::Object(
            with_member(
                with_member(Seq::empty(), "info"@, self.info.encode()),
                "files"@,
                files_encoded(self.files),
            ),
        )
    }

    /// The offer that a document holds: an object with a sender under
    /// `info` and an object of files under `files`.
    pub open spec fn decode(j: Json) -> Option<PrepareUploadRequestView> {
        if j.field("info"@) is Some && LegacyRegisterView::decode(j.field("info"@)->0) is Some
            && j.field("files"@) is Some && files_decoded(j.field("files"@)->0) is Some {
            Some(
                PrepareUploadRequestView {
                    info: LegacyRegisterView::decode(j.field("info"@)->0)->0,
                    files: files_decoded(j.field("files"@)->0)->0,
                },
            )
        } else {
            None
        }
    }

    /// An offer that is written out and read again is the same offer.
    pub proof fn lemma_round_trip(self)
        ensures
            PrepareUploadRequestView::decode(self.encode()) == Some(self),
    {
        lemma_lookup_push();
        lemma_answer_member_names();
        self.info.lemma_round_trip();
        lemma_files_round_trip(self.files);
    }
}

impl View for PrepareUploadRequest {
    type V = PrepareUploadRequestView;

    closed spec fn view(&self) -> PrepareUploadRequestView {
        PrepareUploadRequestView { info: self.info@, files: self.files@ }
    }
}

impl PrepareUploadRequest {
    pub fn new(info: PrepareUploadDeviceInfo, files: FilesInfoMap) -> (out: Self)
        ensures
            out@ == (PrepareUploadRequestView { info: info@, files: files@ }),
    {
        PrepareUploadRequest { info, files }
    }

    pub fn info(&self) -> (out: &PrepareUploadDeviceInfo)
        ensures
            out@ == self@.info,
    {
        &self.info
    }

    pub fn files(&self) -> (out: &FilesInfoMap)
        ensures
            out@ == self@.files,
    {
        &self.files
    }

    /// The offer as a document.
    pub fn to_json(&self) -> (out: JsonValue)
        ensures
            out@ == self@.encode(),
    {
        let mut members: Vec<(String, JsonValue)> = Vec::new();
        assert(members_view(members@) =~= Seq::empty());
        push_member(&mut members, "info", self.info.to_json());
        push_member(&mut members, "files", self.files.to_json());
        object_value(members)
    }

    /// Reads an offer from a document.
    pub fn from_json(j: &JsonValue) -> (out: Option<PrepareUploadRequest>)
        ensures
            out is Some <==> PrepareUploadRequestView::decode(j@) is Some,
            out is Some ==> out->0@ == PrepareUploadRequestView::decode(j@)->0,
    {
        let info = match j.get("info") {
            Some(info) => PrepareUploadDeviceInfo::from_json(info),
            None => None,
        };
        let files = match j.get("files") {
            Some(files) => FilesInfoMap::from_json(files),
            None => None,
        };
        match (info, files) {
            (Some(info), Some(files)) => Some(PrepareUploadRequest::new(info, files)),
            _ => None,
        }
    }
}

/// The answer of a receiver that takes an offer: the session, and the
/// tokens of the files it takes.
#[derive(Debug, PartialEq)]
pub struct PrepareUploadResponse {
    session_id: SessionId,
    files: FilesTokenMap,
}

/// The content of a [`PrepareUploadResponse`].
pub ghost struct PrepareUploadResponseView {
    pub session_id: Seq<char>,
    pub files: Seq<(Seq<char>, Seq<char>)>,
}

impl PrepareUploadResponseView {
    pub open spec fn encode(self) -> Json {
        Json::Object(
            with_member(
                with_member(Seq::empty(), "sessionId"@, Json::Text(self.session_id)),
                "files"@,
                meta_encoded(self.files),
            ),
        )
    }

    /// The answer that a document holds: an object with a string under
    /// `sessionId` and an object of strings under `files`.
    pub open spec fn decode(j: Json) -> Option<PrepareUploadResponseView> {
        if j.text_at("sessionId"@) is Some && j.field("files"@) is Some && meta_decoded(
            j.field("files"@)->0,
        ) is Some {
            Some(
                PrepareUploadResponseView {
                    session_id: j.text_at("sessionId"@)->0,
                    files: meta_decoded(j.field("files"@)->0)->0,
                },
            )
        } else {
            None
        }
    }

    /// An answer that is written out and read again is the same answer.
    pub proof fn lemma_round_trip(self)
        ensures
            PrepareUploadResponseView::decode(self.encode()) == Some(self),
    {
        lemma_lookup_push();
        lemma_answer_member_names();
        lemma_meta_round_trip(self.files);
    }
}

impl View for PrepareUploadResponse {
    type V = PrepareUploadResponseView;

    closed spec fn view(&self) -> PrepareUploadResponseView {
        PrepareUploadResponseView { session_id: self.session_id@, files: self.files@ }
    }
}

impl PrepareUploadResponse {
    pub fn new(session_id: SessionId, files: FilesTokenMap) -> (out: Self)
        ensures
            out@ == (PrepareUploadResponseView { session_id: session_id@, files: files@ }),
    {
        PrepareUploadResponse { session_id, files }
    }

    pub fn session_id(&self) -> (out: &SessionId)
        ensures
            out@ == self@.session_id,
    {
        &self.session_id
    }

    pub fn files(&self) -> (out: &FilesTokenMap)
        ensures
            out@ == self@.files,
    {
        &self.files
    }

    /// The answer as a document.
    pub fn to_json(&self) -> (out: JsonValue)
        ensures
            out@ == self@.encode(),
    {
        let mut members: Vec<(String, JsonValue)> = Vec::new();
        assert(members_view(members@) =~= Seq::empty());
        push_member(&mut members, "sessionId", text_value(self.session_id.as_str()));
        push_member(&mut members, "files", self.files.to_json());
        object_value(members)
    }

    /// Reads an answer from a document.
    pub fn from_json(j: &JsonValue) -> (out: Option<PrepareUploadResponse>)
        ensures
            out is Some <==> PrepareUploadResponseView::decode(j@) is Some,
            out is Some ==> out->0@ == PrepareUploadResponseView::decode(j@)->0,
    {
        let session_id = j.text_at("sessionId");
        let files = match j.get("files") {
            Some(files) => FilesTokenMap::from_json(files),
            None => None,
        };
        match (session_id, files) {
            (Some(session_id), Some(files)) => Some(
                PrepareUploadResponse::new(SessionId::new(session_id), files),
            ),
            _ => None,
        }
    }
}

} // verus!
