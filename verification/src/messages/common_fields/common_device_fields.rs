//! Fields that most messages share: who a device is and how to reach it.

use vstd::prelude::*;
use crate::json::{Json, JsonValue, Members, with_member, text_or_null, members_view, push_member, text_value};
use crate::text::{decimal, lemma_decimal_read_back, same_text};

verus! {

/// The name a device presents to others. It should be easy to recognise
/// and to tell apart.
#[derive(Debug, PartialEq, Eq)]
pub struct Alias(String);

impl View for Alias {
    type V = Seq<char>;

    closed spec fn view(&self) -> Seq<char> {
        self.0@
    }
}

impl Clone for Alias {
    fn clone(&self) -> (out: Self)
        ensures
            out@ == self@,
    {
        Alias(self.0.clone())
    }
}

impl Alias {
    pub fn new(value: String) -> (out: Self)
        ensures
            out@ == value@,
    {
        Alias(value)
    }

    pub fn as_str(&self) -> (out: &str)
        ensures
            out@ == self@,
    {
        self.0.as_str()
    }

    /// The text as it is shown to a reader.
    pub fn to_string(&self) -> (out: String)
        ensures
            out@ == self@,
    {
        self.0.clone()
    }
}

/// The protocol version, as `major.minor`.
#[derive(Debug, PartialEq, Eq)]
pub struct Version(String);

impl View for Version {
    type V = Seq<char>;

    closed spec fn view(&self) -> Seq<char> {
        self.0@
    }
}

impl Clone for Version {
    fn clone(&self) -> (out: Self)
        ensures
            out@ == self@,
    {
        Version(self.0.clone())
    }
}

impl Version {
    pub fn new(value: String) -> (out: Self)
        ensures
            out@ == value@,
    {
        Version(value)
    }

    pub fn as_str(&self) -> (out: &str)
        ensures
            out@ == self@,
    {
        self.0.as_str()
    }

    /// The text as it is shown to a reader.
    pub fn to_string(&self) -> (out: String)
        ensures
            out@ == self@,
    {
        self.0.clone()
    }
}

impl Default for Version {
    fn default() -> (out: Self)
        ensures
            out@ == "2.1"@,
    {
        Version::new("2.1".to_string())
    }
}

/// The model of a device, such as `Samsung`, `Windows` or `Linux`.
#[derive(Debug, PartialEq, Eq)]
pub struct DeviceModel(String);

impl View for DeviceModel {
    type V = Seq<char>;

    closed spec fn view(&self) -> Seq<char> {
        self.0@
    }
}

impl Clone for DeviceModel {
    fn clone(&self) -> (out: Self)
        ensures
            out@ == self@,
    {
        DeviceModel(self.0.clone())
    }
}

impl DeviceModel {
    pub fn new(value: String) -> (out: Self)
        ensures
            out@ == value@,
    {
        DeviceModel(value)
    }

    pub fn as_str(&self) -> (out: &str)
        ensures
            out@ == self@,
    {
        self.0.as_str()
    }

    /// The text as it is shown to a reader.
    pub fn to_string(&self) -> (out: String)
        ensures
            out@ == self@,
    {
        self.0.clone()
    }
}

/// The kind of a device.
#[derive(Debug, Clone, Copy, PartialEq, Eq, Structural)]
pub enum DeviceType {
    Mobile,
    Desktop,
    Web,
    Headless,
    Server,
}

impl DeviceType {
    /// The name of the kind in a message: in lower case.
    pub open spec fn wire_name(self) -> Seq<char> {
        match self {
            DeviceType::Mobile => "mobile"@,
            DeviceType::Desktop => "desktop"@,
            DeviceType::Web => "web"@,
            DeviceType::Headless => "headless"@,
            DeviceType::Server => "server"@,
        }
    }

    /// The kind that a name in a message stands for.
    pub open spec fn from_wire_name(name: Seq<char>) -> Option<DeviceType> {
        if name == "mobile"@ {
            Some(DeviceType::Mobile)
        } else if name == "desktop"@ {
            Some(DeviceType::Desktop)
        } else if name == "web"@ {
            Some(DeviceType::Web)
        } else if name == "headless"@ {
            Some(DeviceType::Headless)
        } else if name == "server"@ {
            Some(DeviceType::Server)
        } else {
            None
        }
    }

    /// The name of the kind as it is shown to a reader.
    pub open spec fn shown(self) -> Seq<char> {
        match self {
            DeviceType::Mobile => "Mobile"@,
            DeviceType::Desktop => "Desktop"@,
            DeviceType::Web => "Web"@,
            DeviceType::Headless => "Headless"@,
            DeviceType::Server => "Server"@,
        }
    }

    /// The kind of a member that must be there and must name a kind.
    pub open spec fn at(j: Json, key: Seq<char>) -> Option<DeviceType> {
        match j.text_at(key) {
            Some(name) => DeviceType::from_wire_name(name),
            None => None,
        }
    }

    /// The names of the kinds differ from each other, so a name stands for
    /// the kind it was written for.
    pub proof fn lemma_wire_name_read_back(self)
        ensures
            DeviceType::from_wire_name(self.wire_name()) == Some(self),
    {
        reveal_strlit("mobile");
        reveal_strlit("desktop");
        reveal_strlit("web");
        reveal_strlit("headless");
        reveal_strlit("server");
        assert("web"@.len() == 3);
        assert("headless"@.len() == 8);
        assert("server"@[0] == 's');
        assert("mobile"@[0] == 'm');
    }

    pub fn as_wire_name(&self) -> (out: &'static str)
        ensures
            out@ == self.wire_name(),
    {
        match self {
            DeviceType::Mobile => "mobile",
            DeviceType::Desktop => "desktop",
            DeviceType::Web => "web",
            DeviceType::Headless => "headless",
            DeviceType::Server => "server",
        }
    }

    pub fn parse_wire_name(name: &str) -> (out: Option<DeviceType>)
        ensures
            out == DeviceType::from_wire_name(name@),
    {
        if same_text(name, "mobile") {
            Some(DeviceType::Mobile)
        } else if same_text(name, "desktop") {
            Some(DeviceType::Desktop)
        } else if same_text(name, "web") {
            Some(DeviceType::Web)
        } else if same_text(name, "headless") {
            Some(DeviceType::Headless)
        } else if same_text(name, "server") {
            Some(DeviceType::Server)
        } else {
            None
        }
    }

    /// The name of the kind as it is shown to a reader.
    pub fn to_string(&self) -> (out: String)
        ensures
            out@ == self.shown(),
    {
        match self {
            DeviceType::Mobile => "Mobile".to_string(),
            DeviceType::Desktop => "Desktop".to_string(),
            DeviceType::Web => "Web".to_string(),
            DeviceType::Headless => "Headless".to_string(),
            DeviceType::Server => "Server".to_string(),
        }
    }

    /// Reads the kind from the member `key` of a document.
    pub fn from_json_at(j: &JsonValue, key: &str) -> (out: Option<DeviceType>)
        ensures
            out == DeviceType::at(j@, key@),
    {
        match j.text_at(key) {
            Some(name) => DeviceType::parse_wire_name(name.as_str()),
            None => None,
        }
    }
}

/// A string that tells one device from every other. It serves only to
/// ignore the messages that a device hears of itself.
#[derive(Debug, PartialEq, Eq, Hash)]
pub struct Fingerprint(String);

impl View for Fingerprint {
    type V = Seq<char>;

    closed spec fn view(&self) -> Seq<char> {
        self.0@
    }
}

impl Clone for Fingerprint {
    fn clone(&self) -> (out: Self)
        ensures
            out@ == self@,
    {
        Fingerprint(self.0.clone())
    }
}

impl Fingerprint {
    pub fn new(value: String) -> (out: Self)
        ensures
            out@ == value@,
    {
        Fingerprint(value)
    }

    pub fn as_str(&self) -> (out: &str)
        ensures
            out@ == self@,
    {
        self.0.as_str()
    }

    /// The text as it is shown to a reader.
    pub fn to_string(&self) -> (out: String)
        ensures
            out@ == self@,
    {
        self.0.clone()
    }
}

/// Who a device is.
#[derive(Debug, PartialEq)]
pub struct DeviceInfo {
    alias: Alias,
    device_model: Option<DeviceModel>,
    device_type: DeviceType,
    fingerprint: Fingerprint,
}

/// The content of a [`DeviceInfo`].
pub ghost struct DeviceInfoView {
    pub alias: Seq<char>,
    pub device_model: Option<Seq<char>>,
    pub device_type: DeviceType,
    pub fingerprint: Seq<char>,
}

impl DeviceInfoView {
    /// The list `base` with the members of this record behind it.
    pub open spec fn members(self, base: Members) -> Members {
        with_member(
            with_member(
                with_member(
                    with_member(base, "alias"@, Json::Text(self.alias)),
                    "deviceModel"@,
                    text_or_null(self.device_model),
                ),
                "deviceType"@,
                Json::Text(self.device_type.wire_name()),
            ),
            "fingerprint"@,
            Json::Text(self.fingerprint),
        )
    }

    /// The record that an object holds among its members. Members of other
    /// names are passed over.
    pub open spec fn decode(j: Json) -> Option<DeviceInfoView> {
        if j.text_at("alias"@) is Some && j.optional_text_at("deviceModel"@) is Some
            && DeviceType::at(j, "deviceType"@) is Some && j.text_at("fingerprint"@) is Some {
            Some(
                DeviceInfoView {
                    alias: j.text_at("alias"@)->0,
                    device_model: j.optional_text_at("deviceModel"@)->0,
                    device_type: DeviceType::at(j, "deviceType"@)->0,
                    fingerprint: j.text_at("fingerprint"@)->0,
                },
            )
        } else {
            None
        }
    }

    /// The record as it is shown to a reader: the alias, then the model and
    /// the kind in brackets. A device without a model is shown as `Generic`.
    pub open spec fn shown(self) -> Seq<char> {
        self.alias + " ("@ + (match self.device_model {
            Some(model) => model,
            None => "Generic"@,
        }) + " "@ + self.device_type.shown() + ")"@
    }
}

impl View for DeviceInfo {
    type V = DeviceInfoView;

    closed spec fn view(&self) -> DeviceInfoView {
        DeviceInfoView {
            alias: self.alias@,
            device_model: match self.device_model {
                Some(model) => Some(model@),
                None => None,
            },
            device_type: self.device_type,
            fingerprint: self.fingerprint@,
        }
    }
}

impl Clone for DeviceInfo {
    fn clone(&self) -> (out: Self)
        ensures
            out@ == self@,
    {
        DeviceInfo {
            alias: self.alias.clone(),
            device_model: match &self.device_model {
                Some(model) => Some(model.clone()),
                None => None,
            },
            device_type: self.device_type,
            fingerprint: self.fingerprint.clone(),
        }
    }
}

impl Default for DeviceInfo {
    fn default() -> (out: Self)
        ensures
            out@ == (DeviceInfoView {
                alias: "GenericTurnip"@,
                device_model: Some("Rust"@),
                device_type: DeviceType::Headless,
                fingerprint: "XXXXXXXXXXXXXXXX"@,
            }),
    {
        DeviceInfo::new(
            Alias::new("GenericTurnip".to_string()),
            Some(DeviceModel::new("Rust".to_string())),
            DeviceType::Headless,
            Fingerprint::new("XXXXXXXXXXXXXXXX".to_string()),
        )
    }
}

impl DeviceInfo {
    pub fn new(
        alias: Alias,
        device_model: Option<DeviceModel>,
        device_type: DeviceType,
        fingerprint: Fingerprint,
    ) -> (out: Self)
        ensures
            out@ == (DeviceInfoView {
                alias: alias@,
                device_model: match device_model {
                    Some(model) => Some(model@),
                    None => None,
                },
                device_type,
                fingerprint: fingerprint@,
            }),
    {
        DeviceInfo { alias, device_model, device_type, fingerprint }
    }

    pub fn alias(&self) -> (out: &Alias)
        ensures
            out@ == self@.alias,
    {
        &self.alias
    }

    pub fn device_model(&self) -> (out: &Option<DeviceModel>)
        ensures
            out is Some <==> self@.device_model is Some,
            out is Some ==> out->0@ == self@.device_model->0,
    {
        &self.device_model
    }

    pub fn device_type(&self) -> (out: &DeviceType)
        ensures
            *out == self@.device_type,
    {
        &self.device_type
    }

    pub fn fingerprint(&self) -> (out: &Fingerprint)
        ensures
            out@ == self@.fingerprint,
    {
        &self.fingerprint
    }

    /// Puts the members of this record at the end of a list.
    pub fn write_members(&self, members: &mut Vec<(String, JsonValue)>)
        ensures
            members_view(final(members)@) == self@.members(members_view(old(members)@)),
    {
        push_member(members, "alias", text_value(self.alias.as_str()));
        let model = match &self.device_model {
            Some(model) => text_value(model.as_str()),
            None => JsonValue::Null,
        };
        push_member(members, "deviceModel", model);
        push_member(members, "deviceType", text_value(self.device_type.as_wire_name()));
        push_member(members, "fingerprint", text_value(self.fingerprint.as_str()));
    }

    /// Reads the record from the members of an object.
    pub fn from_json(j: &JsonValue) -> (out: Option<DeviceInfo>)
        ensures
            out is Some <==> DeviceInfoView::decode(j@) is Some,
            out is Some ==> out->0@ == DeviceInfoView::decode(j@)->0,
    {
        let alias = j.text_at("alias");
        let model = j.optional_text_at("deviceModel");
        let kind = DeviceType::from_json_at(j, "deviceType");
        let fingerprint = j.text_at("fingerprint");
        match (alias, model, kind, fingerprint) {
            (Some(alias), Some(model), Some(kind), Some(fingerprint)) => {
                let model = match model {
                    Some(model) => Some(DeviceModel::new(model)),
                    None => None,
                };
                Some(DeviceInfo::new(Alias::new(alias), model, kind, Fingerprint::new(fingerprint)))
            },
            _ => None,
        }
    }

    /// The record as it is shown to a reader.
    pub fn to_string(&self) -> (out: String)
        ensures
            out@ == self@.shown(),
    {
        let mut out = self.alias.to_string();
        out.append(" (");
        match &self.device_model {
            Some(model) => out.append(model.as_str()),
            None => out.append("Generic"),
        }
        out.append(" ");
        out.append(self.device_type.to_string().as_str());
        out.append(")");
        out
    }
}

/// The port on which a device listens.
#[derive(Debug, Clone, Copy, PartialEq, Eq, Structural)]
pub struct Port(u16);

impl View for Port {
    type V = u16;

    closed spec fn view(&self) -> u16 {
        self.0
    }
}

impl Default for Port {
    fn default() -> (out: Self)
        ensures
            out@ == 53317,
    {
        Port::new(53317)
    }
}

impl Port {
    pub fn new(value: u16) -> (out: Self)
        ensures
            out@ == value,
    {
        Port(value)
    }

    /// The number of the port.
    pub fn dissolve(self) -> (out: u16)
        ensures
            out == self@,
    {
        self.0
    }

    /// The port of a member that must be there and must be a whole number
    /// from 0 to 65535.
    pub open spec fn at(j: Json, key: Seq<char>) -> Option<u16> {
        match j.u64_at(key) {
            Some(n) => if n <= 65535 {
                Some(n as u16)
            } else {
                None
            },
            None => None,
        }
    }

    /// The port as it is written in a document: in decimal digits.
    pub open spec fn written(port: u16) -> Json {
        Json::Number(decimal(port as nat))
    }

    /// A port that is written and read again is the same port.
    pub proof fn lemma_read_back(port: u16, j: Json, key: Seq<char>)
        requires
            j.field(key) == Some(Port::written(port)),
        ensures
            Port::at(j, key) == Some(port),
    {
        lemma_decimal_read_back(port as u64);
    }

    /// The port as a document.
    pub fn to_json(self) -> (out: JsonValue)
        ensures
            out@ == Port::written(self@),
    {
        crate::json::number_value(self.0 as u64)
    }

    /// Reads the port from the member `key` of a document.
    pub fn from_json_at(j: &JsonValue, key: &str) -> (out: Option<Port>)
        ensures
            out is Some <==> Port::at(j@, key@) is Some,
            out is Some ==> out->0@ == Port::at(j@, key@)->0,
    {
        match j.u64_at(key) {
            Some(n) => if n <= 65535 {
                Some(Port(n as u16))
            } else {
                None
            },
            None => None,
        }
    }
}

/// The protocol over which a device serves its files.
#[derive(Debug, Clone, Copy, PartialEq, Eq, Structural)]
pub enum Protocol {
    Http,
    Https,
}

impl Protocol {
    /// The name of the protocol in a message and in an address.
    pub open spec fn wire_name(self) -> Seq<char> {
        match self {
            Protocol::Http => "http"@,
            Protocol::Https => "https"@,
        }
    }

    /// The protocol that a name in a message stands for.
    pub open spec fn from_wire_name(name: Seq<char>) -> Option<Protocol> {
        if name == "http"@ {
            Some(Protocol::Http)
        } else if name == "https"@ {
            Some(Protocol::Https)
        } else {
            None
        }
    }

    /// The name of the protocol as it is shown to a reader.
    pub open spec fn shown(self) -> Seq<char> {
        match self {
            Protocol::Http => "Http"@,
            Protocol::Https => "Https"@,
        }
    }

    /// The protocol of a member that must be there and must name one.
    pub open spec fn at(j: Json, key: Seq<char>) -> Option<Protocol> {
        match j.text_at(key) {
            Some(name) => Protocol::from_wire_name(name),
            None => None,
        }
    }

    /// The two names differ, so a name stands for the protocol it was
    /// written for.
    pub proof fn lemma_wire_name_read_back(self)
        ensures
            Protocol::from_wire_name(self.wire_name()) == Some(self),
    {
        reveal_strlit("http");
        reveal_strlit("https");
        assert("https"@.len() == 5);
    }

    pub fn as_wire_name(&self) -> (out: &'static str)
        ensures
            out@ == self.wire_name(),
    {
        match self {
            Protocol::Http => "http",
            Protocol::Https => "https",
        }
    }

    pub fn parse_wire_name(name: &str) -> (out: Option<Protocol>)
        ensures
            out == Protocol::from_wire_name(name@),
    {
        if same_text(name, "http") {
            Some(Protocol::Http)
        } else if same_text(name, "https") {
            Some(Protocol::Https)
        } else {
            None
        }
    }

    /// The name of the protocol as it is shown to a reader.
    pub fn to_string(&self) -> (out: String)
        ensures
            out@ == self.shown(),
    {
        match self {
            Protocol::Http => "Http".to_string(),
            Protocol::Https => "Https".to_string(),
        }
    }

    /// Reads the protocol from the member `key` of a document.
    pub fn from_json_at(j: &JsonValue, key: &str) -> (out: Option<Protocol>)
        ensures
            out == Protocol::at(j@, key@),
    {
        match j.text_at(key) {
            Some(name) => Protocol::parse_wire_name(name.as_str()),
            None => None,
        }
    }
}

/// Whether a device would rather have its files fetched than push them.
#[derive(Debug, Clone, Copy, PartialEq, Eq, Structural)]
pub struct PreferDownload(bool);

impl View for PreferDownload {
    type V = bool;

    closed spec fn view(&self) -> bool {
        self.0
    }
}

impl PreferDownload {
    pub fn new(value: bool) -> (out: Self)
        ensures
            out@ == value,
    {
        PreferDownload(value)
    }

    pub fn get(self) -> (out: bool)
        ensures
            out == self@,
    {
        self.0
    }
}

/// A secret that a sender hands out with its list of files. It opens the
/// transfers of that list, and no others.
#[derive(Debug, PartialEq, Eq)]
pub struct SessionId(String);

impl View for SessionId {
    type V = Seq<char>;

    closed spec fn view(&self) -> Seq<char> {
        self.0@
    }
}

impl Clone for SessionId {
    fn clone(&self) -> (out: Self)
        ensures
            out@ == self@,
    {
        SessionId(self.0.clone())
    }
}

impl SessionId {
    pub fn new(value: String) -> (out: Self)
        ensures
            out@ == value@,
    {
        SessionId(value)
    }

    pub fn as_str(&self) -> (out: &str)
        ensures
            out@ == self@,
    {
        self.0.as_str()
    }

    /// The text as it is shown to a reader.
    pub fn to_string(&self) -> (out: String)
        ensures
            out@ == self@,
    {
        self.0.clone()
    }
}

} // verus!
