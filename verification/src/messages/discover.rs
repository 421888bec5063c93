//! The messages by which devices find each other.
//!
//! A device that starts up sends an announcement to the multicast group:
//!
//! ```json
//! {
//!   "alias": "Nice Orange",
//!   "version": "2.0",
//!   "deviceModel": "Samsung",
//!   "deviceType": "mobile",
//!   "fingerprint": "random string",
//!   "port": 53317,
//!   "protocol": "https",
//!   "download": true,
//!   "announce": true
//! }
//! ```
//!
//! Those that hear it answer with the same members, where `announce` is
//! `false` or left out. Nothing but that member tells the two apart.

use vstd::prelude::*;
use vstd::std_specs::convert::FromSpecImpl;
use crate::json::{json_parsed, json_printed};
use crate::json::{
    Json, JsonValue, Members, lemma_lookup_push, members_view, object_value, push_member,
    text_value, with_member, with_optional,
};
use crate::messages::common_fields::{
    DeviceInfo, DeviceInfoView, Port, PreferDownload, Protocol, Version,
};

verus! {

/// Marks a member that is always `true`.
#[derive(Debug, Clone, Copy, PartialEq, Eq, Structural)]
pub struct True;

/// Marks a member that is always `false`.
#[derive(Debug, Clone, Copy, PartialEq, Eq, Structural)]
pub struct False;

/// A boolean where there is one.
pub open spec fn optional_bool(value: Option<bool>) -> Option<Json> {
    match value {
        Some(b) => Some(Json::Bool(b)),
        None => None,
    }
}

/// What the names of the members are made of, as far as it takes to tell
/// them apart: the length of each and its first character.
pub proof fn lemma_member_names()
    ensures
        "alias"@.len() == 5 && "alias"@[0] == 'a',
        "version"@.len() == 7 && "version"@[0] == 'v',
        "deviceModel"@.len() == 11 && "deviceModel"@[0] == 'd',
        "deviceType"@.len() == 10 && "deviceType"@[0] == 'd',
        "fingerprint"@.len() == 11 && "fingerprint"@[0] == 'f',
        "port"@.len() == 4 && "port"@[0] == 'p',
        "protocol"@.len() == 8 && "protocol"@[0] == 'p',
        "download"@.len() == 8 && "download"@[0] == 'd',
        "announce"@.len() == 8 && "announce"@[0] == 'a',
{
    reveal_strlit("alias");
    reveal_strlit("version");
    reveal_strlit("deviceModel");
    reveal_strlit("deviceType");
    reveal_strlit("fingerprint");
    reveal_strlit("port");
    reveal_strlit("protocol");
    reveal_strlit("download");
    reveal_strlit("announce");
}

/// What an announcement and its answers have in common.
#[derive(Debug, PartialEq)]
pub struct MulticastCommon {
    device_info: DeviceInfo,
    port: Port,
    protocol: Protocol,
    download: Option<PreferDownload>,
}

/// The content of a [`MulticastCommon`].
pub ghost struct MulticastCommonView {
    pub device_info: DeviceInfoView,
    pub port: u16,
    pub protocol: Protocol,
    pub download: Option<bool>,
}

impl MulticastCommonView {
    /// The list `base` with the members of this record behind it. A
    /// preference that is not stated leaves no member.
    pub open spec fn members(self, base: Members) -> Members {
        with_optional(
            with_member(
                with_member(self.device_info.members(base), "port"@, Port::written(self.port)),
                "protocol"@,
                Json::Text(self.protocol.wire_name()),
            ),
            "download"@,
            optional_bool(self.download),
        )
    }

    /// The record that an object holds among its members.
    pub open spec fn decode(j: Json) -> Option<MulticastCommonView> {
        if DeviceInfoView::decode(j) is Some && Port::at(j, "port"@) is Some && Protocol::at(
            j,
            "protocol"@,
        ) is Some && j.optional_bool_at("download"@) is Some {
            Some(
                MulticastCommonView {
                    device_info: DeviceInfoView::decode(j)->0,
                    port: Port::at(j, "port"@)->0,
                    protocol: Protocol::at(j, "protocol"@)->0,
                    download: j.optional_bool_at("download"@)->0,
                },
            )
        } else {
            None
        }
    }
}

impl View for MulticastCommon {
    type V = MulticastCommonView;

    closed spec fn view(&self) -> MulticastCommonView {
        MulticastCommonView {
            device_info: self.device_info@,
            port: self.port@,
            protocol: self.protocol,
            download: match self.download {
                Some(prefer) => Some(prefer@),
                None => None,
            },
        }
    }
}

impl Clone for MulticastCommon {
    fn clone(&self) -> (out: Self)
        ensures
            out@ == self@,
    {
        MulticastCommon {
            device_info: self.device_info.clone(),
            port: self.port,
            protocol: self.protocol,
            download: self.download,
        }
    }
}

impl MulticastCommon {
    pub fn new(
        device_info: DeviceInfo,
        port: Port,
        protocol: Protocol,
        download: Option<PreferDownload>,
    ) -> (out: Self)
        ensures
            out@ == (MulticastCommonView {
                device_info: device_info@,
                port: port@,
                protocol,
                download: match download {
                    Some(prefer) => Some(prefer@),
                    None => None,
                },
            }),
    {
        MulticastCommon { device_info, port, protocol, download }
    }

    pub fn device_info(&self) -> (out: &DeviceInfo)
        ensures
            out@ == self@.device_info,
    {
        &self.device_info
    }

    pub fn port(&self) -> (out: &Port)
        ensures
            out@ == self@.port,
    {
        &self.port
    }

    pub fn protocol(&self) -> (out: &Protocol)
        ensures
            *out == self@.protocol,
    {
        &self.protocol
    }

    pub fn download(&self) -> (out: &Option<PreferDownload>)
        ensures
            out is Some <==> self@.download is Some,
            out is Some ==> out->0@ == self@.download->0,
    {
        &self.download
    }

    /// Puts the members of this record at the end of a list.
    pub fn write_members(&self, members: &mut Vec<(String, JsonValue)>)
        ensures
            members_view(final(members)@) == self@.members(members_view(old(members)@)),
    {
        self.device_info.write_members(members);
        push_member(members, "port", self.port.to_json());
        push_member(members, "protocol", text_value(self.protocol.as_wire_name()));
        match self.download {
            Some(prefer) => push_member(members, "download", JsonValue::Bool(prefer.get())),
            None => {},
        }
    }

    /// Reads the record from the members of an object.
    pub fn from_json(j: &JsonValue) -> (out: Option<MulticastCommon>)
        ensures
            out is Some <==> MulticastCommonView::decode(j@) is Some,
            out is Some ==> out->0@ == MulticastCommonView::decode(j@)->0,
    {
        let device_info = DeviceInfo::from_json(j);
        let port = Port::from_json_at(j, "port");
        let protocol = Protocol::from_json_at(j, "protocol");
        let download = j.optional_bool_at("download");
        match (device_info, port, protocol, download) {
            (Some(device_info), Some(port), Some(protocol), Some(download)) => {
                let download = match download {
                    Some(b) => Some(PreferDownload::new(b)),
                    None => None,
                };
                Some(MulticastCommon::new(device_info, port, protocol, download))
            },
            _ => None,
        }
    }
}

/// The announcement that a device sends to the multicast group.
#[derive(Debug, PartialEq)]
pub struct MulticastAnnounce {
    version: Version,
    multicast_common: MulticastCommon,
    announce: True,
}

/// The content of a [`MulticastAnnounce`].
pub ghost struct MulticastAnnounceView {
    pub version: Seq<char>,
    pub multicast_common: MulticastCommonView,
}

impl MulticastAnnounceView {
    /// The members of the announcement, in the order in which they are
    /// written. The last says `"announce": true`.
    pub open spec fn members(self) -> Members {
        with_member(
            self.multicast_common.members(
                with_member(Seq::empty(), "version"@, Json::Text(self.version)),
            ),
            "announce"@,
            Json::Bool(true),
        )
    }

    pub open spec fn encode(self) -> Json {
        Json::Object(self.members())
    }

    /// The announcement that a document holds: an object with the common
    /// members, a version, and a member `announce` that is `true`.
    pub open spec fn decode(j: Json) -> Option<MulticastAnnounceView> {
        if j.text_at("version"@) is Some && MulticastCommonView::decode(j) is Some && j.bool_at(
            "announce"@,
        ) == Some(true) {
            Some(
                MulticastAnnounceView {
                    version: j.text_at("version"@)->0,
                    multicast_common: MulticastCommonView::decode(j)->0,
                },
            )
        } else {
            None
        }
    }

    /// An announcement that is written out and read again is the same
    /// announcement.
    pub proof fn lemma_round_trip(self)
        ensures
            MulticastAnnounceView::decode(self.encode()) == Some(self),
    {
        lemma_lookup_push();
        lemma_member_names();
        self.multicast_common.device_info.device_type.lemma_wire_name_read_back();
        self.multicast_common.protocol.lemma_wire_name_read_back();
        Port::lemma_read_back(self.multicast_common.port, self.encode(), "port"@);
    }
}

impl View for MulticastAnnounce {
    type V = MulticastAnnounceView;

    closed spec fn view(&self) -> MulticastAnnounceView {
        MulticastAnnounceView { version: self.version@, multicast_common: self.multicast_common@ }
    }
}

impl Clone for MulticastAnnounce {
    fn clone(&self) -> (out: Self)
        ensures
            out@ == self@,
    {
        MulticastAnnounce {
            version: self.version.clone(),
            multicast_common: self.multicast_common.clone(),
            announce: True,
        }
    }
}

impl FromSpecImpl<MulticastCommon> for MulticastAnnounce {
    open spec fn obeys_from_spec() -> bool {
        false
    }

    open spec fn from_spec(value: MulticastCommon) -> MulticastAnnounce {
        arbitrary()
    }
}

impl From<MulticastCommon> for MulticastAnnounce {
    /// The announcement of the given members, in the version that this
    /// library speaks.
    fn from(value: MulticastCommon) -> (out: MulticastAnnounce)
        ensures
            out@ == (MulticastAnnounceView { version: "2.1"@, multicast_common: value@ }),
    {
        MulticastAnnounce { version: Version::default(), multicast_common: value, announce: True }
    }
}

impl MulticastAnnounce {
    pub fn new(version: Version, multicast_common: MulticastCommon, announce: True) -> (out: Self)
        ensures
            out@ == (MulticastAnnounceView { version: version@, multicast_common: multicast_common@ }),
    {
        MulticastAnnounce { version, multicast_common, announce }
    }

    pub fn version(&self) -> (out: &Version)
        ensures
            out@ == self@.version,
    {
        &self.version
    }

    pub fn multicast_common(&self) -> (out: &MulticastCommon)
        ensures
            out@ == self@.multicast_common,
    {
        &self.multicast_common
    }

    pub fn announce(&self) -> (out: &True) {
        &self.announce
    }

    /// The announcement as a document.
    pub fn to_json(&self) -> (out: JsonValue)
        ensures
            out@ == self@.encode(),
    {
        let mut members: Vec<(String, JsonValue)> = Vec::new();
        assert(members_view(members@) =~= Seq::empty());
        push_member(&mut members, "version", text_value(self.version.as_str()));
        self.multicast_common.write_members(&mut members);
        push_member(&mut members, "announce", JsonValue::Bool(true));
        object_value(members)
    }

    /// Reads an announcement from a document.
    pub fn from_json(j: &JsonValue) -> (out: Option<MulticastAnnounce>)
        ensures
            out is Some <==> MulticastAnnounceView::decode(j@) is Some,
            out is Some ==> out->0@ == MulticastAnnounceView::decode(j@)->0,
    {
        let version = j.text_at("version");
        let common = MulticastCommon::from_json(j);
        let announce = j.bool_at("announce");
        match (version, common, announce) {
            (Some(version), Some(common), Some(true)) => Some(
                MulticastAnnounce::new(Version::new(version), common, True),
            ),
            _ => None,
        }
    }
}

/// The answer of a device that heard an announcement.
#[derive(Debug, PartialEq)]
pub struct MulticastResponse {
    version: Version,
    multicast_common: MulticastCommon,
    announce: Option<False>,
}

/// The content of a [`MulticastResponse`]. `announce_stated` says whether
/// the answer spells out `"announce": false` or leaves the member out.
pub ghost struct MulticastResponseView {
    pub version: Seq<char>,
    pub multicast_common: MulticastCommonView,
    pub announce_stated: bool,
}

impl MulticastResponseView {
    /// The members of the answer, in the order in which they are written.
    pub open spec fn members(self) -> Members {
        with_optional(
            self.multicast_common.members(
                with_member(Seq::empty(), "version"@, Json::Text(self.version)),
            ),
            "announce"@,
            if self.announce_stated {
                Some(Json::Bool(false))
            } else {
                None
            },
        )
    }

    pub open spec fn encode(self) -> Json {
        Json::Object(self.members())
    }

    /// The answer that a document holds: an object with the common members
    /// and a version, in which `announce` is `false`, `null` or left out.
    pub open spec fn decode(j: Json) -> Option<MulticastResponseView> {
        if j.text_at("version"@) is Some && MulticastCommonView::decode(j) is Some
            && j.optional_bool_at("announce"@) is Some && j.optional_bool_at("announce"@)->0
            != Some(true) {
            Some(
                MulticastResponseView {
                    version: j.text_at("version"@)->0,
                    multicast_common: MulticastCommonView::decode(j)->0,
                    announce_stated: j.optional_bool_at("announce"@)->0 is Some,
                },
            )
        } else {
            None
        }
    }

    /// An answer that is written out and read again is the same answer.
    pub proof fn lemma_round_trip(self)
        ensures
            MulticastResponseView::decode(self.encode()) == Some(self),
    {
        lemma_lookup_push();
        lemma_member_names();
        self.multicast_common.device_info.device_type.lemma_wire_name_read_back();
        self.multicast_common.protocol.lemma_wire_name_read_back();
        Port::lemma_read_back(self.multicast_common.port, self.encode(), "port"@);
    }

    /// What is written for an answer is never read as an announcement.
    pub proof fn lemma_no_announcement(self)
        ensures
            MulticastAnnounceView::decode(self.encode()) is None,
    {
        lemma_lookup_push();
        lemma_member_names();
    }
}

impl View for MulticastResponse {
    type V = MulticastResponseView;

    closed spec fn view(&self) -> MulticastResponseView {
        MulticastResponseView {
            version: self.version@,
            multicast_common: self.multicast_common@,
            announce_stated: self.announce is Some,
        }
    }
}

impl Clone for MulticastResponse {
    fn clone(&self) -> (out: Self)
        ensures
            out@ == self@,
    {
        MulticastResponse {
            version: self.version.clone(),
            multicast_common: self.multicast_common.clone(),
            announce: self.announce,
        }
    }
}

impl FromSpecImpl<MulticastCommon> for MulticastResponse {
    open spec fn obeys_from_spec() -> bool {
        false
    }

    open spec fn from_spec(value: MulticastCommon) -> MulticastResponse {
        arbitrary()
    }
}

impl From<MulticastCommon> for MulticastResponse {
    /// The answer of the given members, in the version that this library
    /// speaks, with `"announce": false` spelled out.
    fn from(value: MulticastCommon) -> (out: MulticastResponse)
        ensures
            out@ == (MulticastResponseView {
                version: "2.1"@,
                multicast_common: value@,
                announce_stated: true,
            }),
    {
        MulticastResponse {
            version: Version::default(),
            multicast_common: value,
            announce: Some(False),
        }
    }
}

impl MulticastResponse {
    pub fn new(version: Version, multicast_common: MulticastCommon, announce: Option<False>) -> (out:
        Self)
        ensures
            out@ == (MulticastResponseView {
                version: version@,
                multicast_common: multicast_common@,
                announce_stated: announce is Some,
            }),
    {
        MulticastResponse { version, multicast_common, announce }
    }

    pub fn version(&self) -> (out: &Version)
        ensures
            out@ == self@.version,
    {
        &self.version
    }

    pub fn multicast_common(&self) -> (out: &MulticastCommon)
        ensures
            out@ == self@.multicast_common,
    {
        &self.multicast_common
    }

    pub fn announce(&self) -> (out: &Option<False>)
        ensures
            out is Some == self@.announce_stated,
    {
        &self.announce
    }

    /// The answer as a document.
    pub fn to_json(&self) -> (out: JsonValue)
        ensures
            out@ == self@.encode(),
    {
        let mut members: Vec<(String, JsonValue)> = Vec::new();
        assert(members_view(members@) =~= Seq::empty());
        push_member(&mut members, "version", text_value(self.version.as_str()));
        self.multicast_common.write_members(&mut members);
        match self.announce {
            Some(_) => push_member(&mut members, "announce", JsonValue::Bool(false)),
            None => {},
        }
        object_value(members)
    }

    /// Reads an answer from a document.
    pub fn from_json(j: &JsonValue) -> (out: Option<MulticastResponse>)
        ensures
            out is Some <==> MulticastResponseView::decode(j@) is Some,
            out is Some ==> out->0@ == MulticastResponseView::decode(j@)->0,
    {
        let version = j.text_at("version");
        let common = MulticastCommon::from_json(j);
        let announce = j.optional_bool_at("announce");
        match (version, common, announce) {
            (Some(version), Some(common), Some(None)) => Some(
                MulticastResponse::new(Version::new(version), common, None),
            ),
            (Some(version), Some(common), Some(Some(false))) => Some(
                MulticastResponse::new(Version::new(version), common, Some(False)),
            ),
            _ => None,
        }
    }
}

/// A message of the multicast group: an announcement or an answer to one.
#[derive(Debug, PartialEq)]
pub enum MulticastMessage {
    Announce(MulticastAnnounce),
    Response(MulticastResponse),
}

/// The content of a [`MulticastMessage`].
pub ghost enum MulticastMessageView {
    Announce(MulticastAnnounceView),
    Response(MulticastResponseView),
}

impl MulticastMessageView {
    /// What the two shapes share.
    pub open spec fn multicast_common(self) -> MulticastCommonView {
        match self {
            MulticastMessageView::Announce(announce) => announce.multicast_common,
            MulticastMessageView::Response(response) => response.multicast_common,
        }
    }

    /// The fingerprint of the device that sent the message.
    pub open spec fn fingerprint(self) -> Seq<char> {
        self.multicast_common().device_info.fingerprint
    }

    pub open spec fn encode(self) -> Json {
        match self {
            MulticastMessageView::Announce(announce) => announce.encode(),
            MulticastMessageView::Response(response) => response.encode(),
        }
    }

    /// The message that a document holds. The shape of an announcement is
    /// tried first, then that of an answer; a document of neither shape
    /// holds no message.
    pub open spec fn decode(j: Json) -> Option<MulticastMessageView> {
        match MulticastAnnounceView::decode(j) {
            Some(announce) => Some(MulticastMessageView::Announce(announce)),
            None => match MulticastResponseView::decode(j) {
                Some(response) => Some(MulticastMessageView::Response(response)),
                None => None,
            },
        }
    }

    /// The message that a text holds: the text must be JSON, and the
    /// document must hold a message.
    pub open spec fn decode_text(text: Seq<char>) -> Option<MulticastMessageView> {
        match json_parsed(text) {
            Some(j) => MulticastMessageView::decode(j),
            None => None,
        }
    }

    /// A message that is written out as a document and read again is the
    /// same message, an announcement as an announcement and an answer as an
    /// answer.
    pub proof fn lemma_round_trip(self)
        ensures
            MulticastMessageView::decode(self.encode()) == Some(self),
    {
        match self {
            MulticastMessageView::Announce(announce) => {
                announce.lemma_round_trip();
            },
            MulticastMessageView::Response(response) => {
                response.lemma_no_announcement();
                response.lemma_round_trip();
            },
        }
    }
}

impl View for MulticastMessage {
    type V = MulticastMessageView;

    open spec fn view(&self) -> MulticastMessageView {
        match self {
            MulticastMessage::Announce(announce) => MulticastMessageView::Announce(announce@),
            MulticastMessage::Response(response) => MulticastMessageView::Response(response@),
        }
    }
}

impl Clone for MulticastMessage {
    fn clone(&self) -> (out: Self)
        ensures
            out@ == self@,
    {
        match self {
            MulticastMessage::Announce(announce) => MulticastMessage::Announce(announce.clone()),
            MulticastMessage::Response(response) => MulticastMessage::Response(response.clone()),
        }
    }
}

impl MulticastMessage {
    /// What the two shapes share.
    pub fn multicast_common(&self) -> (out: &MulticastCommon)
        ensures
            out@ == self@.multicast_common(),
    {
        match self {
            MulticastMessage::Announce(announce) => announce.multicast_common(),
            MulticastMessage::Response(response) => response.multicast_common(),
        }
    }

    /// The message as a document.
    pub fn to_json(&self) -> (out: JsonValue)
        ensures
            out@ == self@.encode(),
    {
        match self {
            MulticastMessage::Announce(announce) => announce.to_json(),
            MulticastMessage::Response(response) => response.to_json(),
        }
    }

    /// Reads a message from a document: as an announcement where the
    /// document has that shape, else as an answer.
    pub fn from_json(j: &JsonValue) -> (out: Option<MulticastMessage>)
        ensures
            out is Some <==> MulticastMessageView::decode(j@) is Some,
            out is Some ==> out->0@ == MulticastMessageView::decode(j@)->0,
    {
        match MulticastAnnounce::from_json(j) {
            Some(announce) => Some(MulticastMessage::Announce(announce)),
            None => match MulticastResponse::from_json(j) {
                Some(response) => Some(MulticastMessage::Response(response)),
                None => None,
            },
        }
    }

    /// The message as the JSON text that goes into a datagram.
    pub fn encode(&self) -> (out: String)
        ensures
            out@ == json_printed(self@.encode()),
    {
        self.to_json().print()
    }

    /// Reads a message from the text of a datagram. Text that is no JSON,
    /// or that has neither shape, holds no message.
    pub fn decode(text: &str) -> (out: Option<MulticastMessage>)
        ensures
            out is Some <==> MulticastMessageView::decode_text(text@) is Some,
            out is Some ==> out->0@ == MulticastMessageView::decode_text(text@)->0,
    {
        match JsonValue::parse(text) {
            Some(j) => MulticastMessage::from_json(&j),
            None => None,
        }
    }
}

/// The request by which a device registers with another over HTTP, where
/// multicast did not reach it. It has the members of an answer, without
/// `announce`.
#[derive(Debug, PartialEq)]
pub struct LegacyRegister {
    version: Version,
    device_info: DeviceInfo,
    port: Port,
    protocol: Protocol,
    download: Option<PreferDownload>,
}

/// The content of a [`LegacyRegister`].
pub ghost struct LegacyRegisterView {
    pub version: Seq<char>,
    pub device_info: DeviceInfoView,
    pub port: u16,
    pub protocol: Protocol,
    pub download: Option<bool>,
}

impl LegacyRegisterView {
    /// What the request has in common with a multicast message.
    pub open spec fn common(self) -> MulticastCommonView {
        MulticastCommonView {
            device_info: self.device_info,
            port: self.port,
            protocol: self.protocol,
            download: self.download,
        }
    }

    pub open spec fn encode(self) -> Json {
        Json::Object(
            self.common().members(with_member(Seq::empty(), "version"@, Json::Text(self.version))),
        )
    }

    pub open spec fn decode(j: Json) -> Option<LegacyRegisterView> {
        if j.text_at("version"@) is Some && MulticastCommonView::decode(j) is Some {
            let common = MulticastCommonView::decode(j)->0;
            Some(
                LegacyRegisterView {
                    version: j.text_at("version"@)->0,
                    device_info: common.device_info,
                    port: common.port,
                    protocol: common.protocol,
                    download: common.download,
                },
            )
        } else {
            None
        }
    }

    /// A request that is written out and read again is the same request.
    pub proof fn lemma_round_trip(self)
        ensures
            LegacyRegisterView::decode(self.encode()) == Some(self),
    {
        lemma_lookup_push();
        lemma_member_names();
        self.device_info.device_type.lemma_wire_name_read_back();
        self.protocol.lemma_wire_name_read_back();
        Port::lemma_read_back(self.port, self.encode(), "port"@);
    }
}

impl View for LegacyRegister {
    type V = LegacyRegisterView;

    closed spec fn view(&self) -> LegacyRegisterView {
        LegacyRegisterView {
            version: self.version@,
            device_info: self.device_info@,
            port: self.port@,
            protocol: self.protocol,
            download: match self.download {
                Some(prefer) => Some(prefer@),
                None => None,
            },
        }
    }
}

impl LegacyRegister {
    pub fn new(
        version: Version,
        device_info: DeviceInfo,
        port: Port,
        protocol: Protocol,
        download: Option<PreferDownload>,
    ) -> (out: Self)
        ensures
            out@ == (LegacyRegisterView {
                version: version@,
                device_info: device_info@,
                port: port@,
                protocol,
                download: match download {
                    Some(prefer) => Some(prefer@),
                    None => None,
                },
            }),
    {
        LegacyRegister { version, device_info, port, protocol, download }
    }

    pub fn version(&self) -> (out: &Version)
        ensures
            out@ == self@.version,
    {
        &self.version
    }

    pub fn device_info(&self) -> (out: &DeviceInfo)
        ensures
            out@ == self@.device_info,
    {
        &self.device_info
    }

    pub fn port(&self) -> (out: &Port)
        ensures
            out@ == self@.port,
    {
        &self.port
    }

    pub fn protocol(&self) -> (out: &Protocol)
        ensures
            *out == self@.protocol,
    {
        &self.protocol
    }

    pub fn download(&self) -> (out: &Option<PreferDownload>)
        ensures
            out is Some <==> self@.download is Some,
            out is Some ==> out->0@ == self@.download->0,
    {
        &self.download
    }

    /// The request as a document.
    pub fn to_json(&self) -> (out: JsonValue)
        ensures
            out@ == self@.encode(),
    {
        let mut members: Vec<(String, JsonValue)> = Vec::new();
        assert(members_view(members@) =~= Seq::empty());
        push_member(&mut members, "version", text_value(self.version.as_str()));
        self.device_info.write_members(&mut members);
        push_member(&mut members, "port", self.port.to_json());
        push_member(&mut members, "protocol", text_value(self.protocol.as_wire_name()));
        match self.download {
            Some(prefer) => push_member(&mut members, "download", JsonValue::Bool(prefer.get())),
            None => {},
        }
        object_value(members)
    }

    /// Reads a request from a document.
    pub fn from_json(j: &JsonValue) -> (out: Option<LegacyRegister>)
        ensures
            out is Some <==> LegacyRegisterView::decode(j@) is Some,
            out is Some ==> out->0@ == LegacyRegisterView::decode(j@)->0,
    {
        let version = j.text_at("version");
        let device_info = DeviceInfo::from_json(j);
        let port = Port::from_json_at(j, "port");
        let protocol = Protocol::from_json_at(j, "protocol");
        let download = j.optional_bool_at("download");
        match (version, device_info, port, protocol, download) {
            (Some(version), Some(device_info), Some(port), Some(protocol), Some(download)) => {
                let download = match download {
                    Some(b) => Some(PreferDownload::new(b)),
                    None => None,
                };
                Some(LegacyRegister::new(Version::new(version), device_info, port, protocol, download))
            },
            _ => None,
        }
    }
}

/// The reply to a [`LegacyRegister`]: who the other device is.
#[derive(Debug, PartialEq)]
pub struct LegacyRegisterResponse {
    version: Version,
    device_info: DeviceInfo,
    download: Option<PreferDownload>,
}

/// The content of a [`LegacyRegisterResponse`].
pub ghost struct LegacyRegisterResponseView {
    pub version: Seq<char>,
    pub device_info: DeviceInfoView,
    pub download: Option<bool>,
}

impl LegacyRegisterResponseView {
    pub open spec fn encode(self) -> Json {
        Json::Object(
            with_optional(
                self.device_info.members(
                    with_member(Seq::empty(), "version"@, Json::Text(self.version)),
                ),
                "download"@,
                optional_bool(self.download),
            ),
        )
    }

    pub open spec fn decode(j: Json) -> Option<LegacyRegisterResponseView> {
        if j.text_at("version"@) is Some && DeviceInfoView::decode(j) is Some && j.optional_bool_at(
            "download"@,
        ) is Some {
            Some(
                LegacyRegisterResponseView {
                    version: j.text_at("version"@)->0,
                    device_info: DeviceInfoView::decode(j)->0,
                    download: j.optional_bool_at("download"@)->0,
                },
            )
        } else {
            None
        }
    }

    /// A reply that is written out and read again is the same reply.
    pub proof fn lemma_round_trip(self)
        ensures
            LegacyRegisterResponseView::decode(self.encode()) == Some(self),
    {
        lemma_lookup_push();
        lemma_member_names();
        self.device_info.device_type.lemma_wire_name_read_back();
    }
}

impl View for LegacyRegisterResponse {
    type V = LegacyRegisterResponseView;

    closed spec fn view(&self) -> LegacyRegisterResponseView {
        LegacyRegisterResponseView {
            version: self.version@,
            device_info: self.device_info@,
            download: match self.download {
                Some(prefer) => Some(prefer@),
                None => None,
            },
        }
    }
}

impl LegacyRegisterResponse {
    pub fn new(version: Version, device_info: DeviceInfo, download: Option<PreferDownload>) -> (out:
        Self)
        ensures
            out@ == (LegacyRegisterResponseView {
                version: version@,
                device_info: device_info@,
                download: match download {
                    Some(prefer) => Some(prefer@),
                    None => None,
                },
            }),
    {
        LegacyRegisterResponse { version, device_info, download }
    }

    pub fn version(&self) -> (out: &Version)
        ensures
            out@ == self@.version,
    {
        &self.version
    }

    pub fn device_info(&self) -> (out: &DeviceInfo)
        ensures
            out@ == self@.device_info,
    {
        &self.device_info
    }

    pub fn download(&self) -> (out: &Option<PreferDownload>)
        ensures
            out is Some <==> self@.download is Some,
            out is Some ==> out->0@ == self@.download->0,
    {
        &self.download
    }

    /// The reply as a document.
    pub fn to_json(&self) -> (out: JsonValue)
        ensures
            out@ == self@.encode(),
    {
        let mut members: Vec<(String, JsonValue)> = Vec::new();
        assert(members_view(members@) =~= Seq::empty());
        push_member(&mut members, "version", text_value(self.version.as_str()));
        self.device_info.write_members(&mut members);
        match self.download {
            Some(prefer) => push_member(&mut members, "download", JsonValue::Bool(prefer.get())),
            None => {},
        }
        object_value(members)
    }

    /// Reads a reply from a document.
    pub fn from_json(j: &JsonValue) -> (out: Option<LegacyRegisterResponse>)
        ensures
            out is Some <==> LegacyRegisterResponseView::decode(j@) is Some,
            out is Some ==> out->0@ == LegacyRegisterResponseView::decode(j@)->0,
    {
        let version = j.text_at("version");
        let device_info = DeviceInfo::from_json(j);
        let download = j.optional_bool_at("download");
        match (version, device_info, download) {
            (Some(version), Some(device_info), Some(download)) => {
                let download = match download {
                    Some(b) => Some(PreferDownload::new(b)),
                    None => None,
                };
                Some(LegacyRegisterResponse::new(Version::new(version), device_info, download))
            },
            _ => None,
        }
    }
}

} // verus!
