//! Fetching files from a sender.
//!
//! A receiver asks a sender for the list of the files it offers with
//! `POST /api/localsend/v2/prepare-download`, and `?pin=...` where the
//! sender wants a PIN. The answer names the sender, a session and the files:
//!
//! ```json
//! {
//!   "info": {
//!     "alias": "Nice Orange",
//!     "version": "2.0",
//!     "deviceModel": "Samsung",
//!     "deviceType": "mobile",
//!     "fingerprint": "random string",
//!     "download": true
//!   },
//!   "sessionId": "mySessionId",
//!   "files": {
//!     "some file id": {
//!       "id": "some file id",
//!       "fileName": "my image.png",
//!       "size": 324242,
//!       "fileType": "image/jpeg",
//!       "sha256": "*sha256 hash*",
//!       "preview": "*preview data*"
//!     }
//!   }
//! }
//! ```

use vstd::prelude::*;
use crate::json::{
    Json, JsonValue, Members, json_parsed, json_printed, lemma_lookup_push, members_view,
    object_value, push_member, text_value, with_member,
};
use crate::messages::common_fields::common_file_fields::{
    files_decoded, files_encoded, lemma_files_round_trip,
};
use crate::messages::common_fields::{
    DeviceInfo, DeviceInfoView, FileInfoView, FilesInfoMap, SessionId, Version,
};
use crate::messages::discover::{True, lemma_member_names};

verus! {

/// Who the sender of a list of files is.
#[derive(Debug, PartialEq)]
pub struct PrepareDownloadMeta {
    version: Version,
    device_info: DeviceInfo,
    download: True,
}

/// The content of a [`PrepareDownloadMeta`].
pub ghost struct PrepareDownloadMetaView {
    pub version: Seq<char>,
    pub device_info: DeviceInfoView,
}

impl PrepareDownloadMetaView {
    /// The members, in the order in which they are written. The last says
    /// `"download": true`.
    pub open spec fn members(self) -> Members {
        with_member(
            self.device_info.members(with_member(Seq::empty(), "version"@, Json::Text(self.version))),
            "download"@,
            Json::Bool(true),
        )
    }

    pub open spec fn encode(self) -> Json {
        Json::Object(self.members())
    }

    /// What a document says of a sender: an object that names a device and
    /// a version, in which `download` is `true`.
    pub open spec fn decode(j: Json) -> Option<PrepareDownloadMetaView> {
        if j.text_at("version"@) is Some && DeviceInfoView::decode(j) is Some && j.bool_at(
            "download"@,
        ) == Some(true) {
            Some(
                PrepareDownloadMetaView {
                    version: j.text_at("version"@)->0,
                    device_info: DeviceInfoView::decode(j)->0,
                },
            )
        } else {
            None
        }
    }

    pub proof fn lemma_round_trip(self)
        ensures
            PrepareDownloadMetaView::decode(self.encode()) == Some(self),
    {
        lemma_lookup_push();
        lemma_member_names();
        self.device_info.device_type.lemma_wire_name_read_back();
    }
}

impl View for PrepareDownloadMeta {
    type V = PrepareDownloadMetaView;

    closed spec fn view(&self) -> PrepareDownloadMetaView {
        PrepareDownloadMetaView { version: self.version@, device_info: self.device_info@ }
    }
}

impl PrepareDownloadMeta {
    pub fn new(version: Version, device_info: DeviceInfo, download: True) -> (out: Self)
        ensures
            out@ == (PrepareDownloadMetaView { version: version@, device_info: device_info@ }),
    {
        PrepareDownloadMeta { version, device_info, download }
    }

    pub fn version(&self) -> (out: &Version)
        ensures
            out@ == self@.version,
    {
        &self.version
    }

    pub fn device_info(&self) -> (out: &DeviceInfo)
        ensures
            out@ == self@.device_info,
    {
        &self.device_info
    }

    pub fn download(&self) -> (out: &True) {
        &self.download
    }

    pub fn to_json(&self) -> (out: JsonValue)
        ensures
            out@ == self@.encode(),
    {
        let mut members: Vec<(String, JsonValue)> = Vec::new();
        assert(members_view(members@) =~= Seq::empty());
        push_member(&mut members, "version", text_value(self.version.as_str()));
        self.device_info.write_members(&mut members);
        push_member(&mut members, "download", JsonValue::Bool(true));
        object_value(members)
    }

    pub fn from_json(j: &JsonValue) -> (out: Option<PrepareDownloadMeta>)
        ensures
            out is Some <==> PrepareDownloadMetaView::decode(j@) is Some,
            out is Some ==> out->0@ == PrepareDownloadMetaView::decode(j@)->0,
    {
        let version = j.text_at("version");
        let device_info = DeviceInfo::from_json(j);
        let download = j.bool_at("download");
        match (version, device_info, download) {
            (Some(version), Some(device_info), Some(true)) => Some(
                PrepareDownloadMeta::new(Version::new(version), device_info, True),
            ),
            _ => None,
        }
    }
}

/// What the names of the members of the answer are made of, as far as it
/// takes to tell them apart.
pub proof fn lemma_answer_member_names()
    ensures
        "info"@.len() == 4,
        "sessionId"@.len() == 9,
        "files"@.len() == 5,
{
    reveal_strlit("info");
    reveal_strlit("sessionId");
    reveal_strlit("files");
}

/// The answer of a sender that was asked what it offers: who it is, the
/// session under which the files can be fetched, and the files.
#[derive(Debug, PartialEq)]
pub struct PrepareDownloadResponse {
    info: PrepareDownloadMeta,
    session_id: SessionId,
    files: FilesInfoMap,
}

/// The content of a [`PrepareDownloadResponse`].
pub ghost struct PrepareDownloadResponseView {
    pub info: PrepareDownloadMetaView,
    pub session_id: Seq<char>,
    pub files: Seq<(Seq<char>, FileInfoView)>,
}

impl PrepareDownloadResponseView {
    pub open spec fn encode(self) -> Json {
        Json::Object(
            with_member(
                with_member(
                    with_member(Seq::empty(), "info"@, self.info.encode()),
                    "sessionId"@,
                    Json::Text(self.session_id),
                ),
                "files"@,
                files_encoded(self.files),
            ),
        )
    }

    /// The answer that a document holds: an object with a sender under
    /// `info`, a string under `sessionId` and an object of files under
    /// `files`.
    pub open spec fn decode(j: Json) -> Option<PrepareDownloadResponseView> {
        if j.field("info"@) is Some && PrepareDownloadMetaView::decode(j.field("info"@)->0) is Some
            && j.text_at("sessionId"@) is Some && j.field("files"@) is Some && files_decoded(
            j.field("files"@)->0,
        ) is Some {
            Some(
                PrepareDownloadResponseView {
                    info: PrepareDownloadMetaView::decode(j.field("info"@)->0)->0,
                    session_id: j.text_at("sessionId"@)->0,
                    files: files_decoded(j.field("files"@)->0)->0,
                },
            )
        } else {
            None
        }
    }

    /// The answer that a text holds: the text must be JSON, and the
    /// document must hold an answer.
    pub open spec fn decode_text(text: Seq<char>) -> Option<PrepareDownloadResponseView> {
        match json_parsed(text) {
            Some(j) => PrepareDownloadResponseView::decode(j),
            None => None,
        }
    }

    /// An answer that is written out as a document and read again is the
    /// same answer.
    pub proof fn lemma_round_trip(self)
        ensures
            PrepareDownloadResponseView::decode(self.encode()) == Some(self),
    {
        lemma_lookup_push();
        lemma_answer_member_names();
        self.info.lemma_round_trip();
        lemma_files_round_trip(self.files);
    }
}

impl View for PrepareDownloadResponse {
    type V = PrepareDownloadResponseView;

    closed spec fn view(&self) -> PrepareDownloadResponseView {
        PrepareDownloadResponseView {
            info: self.info@,
            session_id: self.session_id@,
            files: self.files@,
        }
    }
}

impl PrepareDownloadResponse {
    pub fn new(info: PrepareDownloadMeta, session_id: SessionId, files: FilesInfoMap) -> (out: Self)
        ensures
            out@ == (PrepareDownloadResponseView {
                info: info@,
                session_id: session_id@,
                files: files@,
            }),
    {
        PrepareDownloadResponse { info, session_id, files }
    }

    pub fn info(&self) -> (out: &PrepareDownloadMeta)
        ensures
            out@ == self@.info,
    {
        &self.info
    }

    pub fn session_id(&self) -> (out: &SessionId)
        ensures
            out@ == self@.session_id,
    {
        &self.session_id
    }

    pub fn files(&self) -> (out: &FilesInfoMap)
        ensures
            out@ == self@.files,
    {
        &self.files
    }

    /// The answer as a document.
    pub fn to_json(&self) -> (out: JsonValue)
        ensures
            out@ == self@.encode(),
    {
        let mut members: Vec<(String, JsonValue)> = Vec::new();
        assert(members_view(members@) =~= Seq::empty());
        push_member(&mut members, "info", self.info.to_json());
        push_member(&mut members, "sessionId", text_value(self.session_id.as_str()));
        push_member(&mut members, "files", self.files.to_json());
        object_value(members)
    }

    /// Reads an answer from a document.
    pub fn from_json(j: &JsonValue) -> (out: Option<PrepareDownloadResponse>)
        ensures
            out is Some <==> PrepareDownloadResponseView::decode(j@) is Some,
            out is Some ==> out->0@ == PrepareDownloadResponseView::decode(j@)->0,
    {
        let info = match j.get("info") {
            Some(info) => PrepareDownloadMeta::from_json(info),
            None => None,
        };
        let session_id = j.text_at("sessionId");
        let files = match j.get("files") {
            Some(files) => FilesInfoMap::from_json(files),
            None => None,
        };
        match (info, session_id, files) {
            (Some(info), Some(session_id), Some(files)) => Some(
                PrepareDownloadResponse::new(info, SessionId::new(session_id), files),
            ),
            _ => None,
        }
    }

    /// The answer as JSON text.
    pub fn encode(&self) -> (out: String)
        ensures
            out@ == json_printed(self@.encode()),
    {
        self.to_json().print()
    }

    /// Reads an answer from the text of a reply.
    pub fn decode(text: &str) -> (out: Option<PrepareDownloadResponse>)
        ensures
            out is Some <==> PrepareDownloadResponseView::decode_text(text@) is Some,
            out is Some ==> out->0@ == PrepareDownloadResponseView::decode_text(text@)->0,
    {
        match JsonValue::parse(text) {
            Some(j) => PrepareDownloadResponse::from_json(&j),
            None => None,
        }
    }
}

} // verus!
