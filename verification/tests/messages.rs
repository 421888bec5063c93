use localsend::json::JsonValue;
use localsend::messages::common_fields::{
    Alias, DeviceInfo, DeviceModel, DeviceType, FileId, FileInfo, FileMeta, FilePreview,
    FileUploadToken, FilesInfoMap, FilesTokenMap, Fingerprint, Port, PreferDownload, Protocol,
    SessionId, Version, SHA256,
};
use localsend::messages::discover::{
    False, LegacyRegister, LegacyRegisterResponse, MulticastAnnounce, MulticastCommon,
    MulticastMessage, MulticastResponse, True,
};
use localsend::messages::download::{PrepareDownloadMeta, PrepareDownloadResponse};
use localsend::messages::upload::{
    PrepareUploadDeviceInfo, PrepareUploadRequest, PrepareUploadResponse,
};

fn parsed(text: &str) -> JsonValue {
    JsonValue::parse(text).expect("the text is JSON")
}

fn reparsed(value: &JsonValue) -> JsonValue {
    parsed(&value.print())
}

fn nice_orange() -> DeviceInfo {
    DeviceInfo::new(
        Alias::new("Nice Orange".into()),
        Some(DeviceModel::new("Samsung".into())),
        DeviceType::Mobile,
        Fingerprint::new("random string".into()),
    )
}

fn secret_banana() -> DeviceInfo {
    DeviceInfo::new(
        Alias::new("Secret Banana".to_owned()),
        Some(DeviceModel::new("Windows".to_owned())),
        DeviceType::Desktop,
        Fingerprint::new("random string".to_owned()),
    )
}

#[test]
fn discover_multicast_announce_deserialize_serialize() {
    let multicast_announce_json = parsed(
        r#"{
            "alias": "Nice Orange",
            "version": "2.0",
            "deviceModel": "Samsung",
            "deviceType": "mobile",
            "fingerprint": "random string",
            "port": 53317,
            "protocol": "https",
            "download": true,
            "announce": true
        }"#,
    );
    let constructed_multicast_announce = MulticastAnnounce::new(
        Version::new("2.0".into()),
        MulticastCommon::new(
            nice_orange(),
            Port::new(53317),
            Protocol::Https,
            Some(PreferDownload::new(true)),
        ),
        True,
    );
    // Deserialize
    let read_multicast_announce = MulticastAnnounce::from_json(&multicast_announce_json).unwrap();
    assert_eq!(constructed_multicast_announce, read_multicast_announce);
    // Serialize
    let written_multicast_announce_json = reparsed(&constructed_multicast_announce.to_json());
    assert_eq!(multicast_announce_json, written_multicast_announce_json);
}

#[test]
fn discover_multicast_response_deserialize_serialize() {
    let response_json_1 = parsed(
        r#"{
            "alias": "Secret Banana",
            "version": "2.0",
            "deviceModel": "Windows",
            "deviceType": "desktop",
            "fingerprint": "random string",
            "port": 53317,
            "protocol": "https",
            "download": true
        }"#,
    );
    let response_json_2 = parsed(
        r#"{
            "alias": "Secret Banana",
            "version": "2.0",
            "deviceModel": "Windows",
            "deviceType": "desktop",
            "fingerprint": "random string",
            "port": 53317,
            "protocol": "https",
            "download": true,
            "announce": false
        }"#,
    );
    let constructed_response_1 = MulticastResponse::new(
        Version::new("2.0".to_owned()),
        MulticastCommon::new(
            secret_banana(),
            Port::new(53317),
            Protocol::Https,
            Some(PreferDownload::new(true)),
        ),
        None,
    );
    let constructed_response_2 = MulticastResponse::new(
        Version::new("2.0".to_owned()),
        MulticastCommon::new(
            secret_banana(),
            Port::new(53317),
            Protocol::Https,
            Some(PreferDownload::new(true)),
        ),
        Some(False),
    );
    // Deserialize
    let read_response_1 = MulticastResponse::from_json(&response_json_1).unwrap();
    assert_eq!(constructed_response_1, read_response_1);
    let read_response_2 = MulticastResponse::from_json(&response_json_2).unwrap();
    assert_eq!(constructed_response_2, read_response_2);
    // Serialize
    let written_response_json_1 = reparsed(&constructed_response_1.to_json());
    assert_eq!(response_json_1, written_response_json_1);
    let written_response_json_2 = reparsed(&constructed_response_2.to_json());
    assert_eq!(response_json_2, written_response_json_2);
}

#[test]
fn discover_legacy_register_deserialize_serialize() {
    let request_json = parsed(
        r#"{
            "alias": "Secret Banana",
            "version": "2.0",
            "deviceModel": "Windows",
            "deviceType": "desktop",
            "fingerprint": "random string",
            "port": 53317,
            "protocol": "https",
            "download": true
        }"#,
    );
    let constructed_request = LegacyRegister::new(
        Version::new("2.0".into()),
        secret_banana(),
        Port::new(53317),
        Protocol::Https,
        Some(PreferDownload::new(true)),
    );
    // Deserialize
    let read_request = LegacyRegister::from_json(&request_json).unwrap();
    assert_eq!(constructed_request, read_request);
    // Serialize
    let written_multicast_announce_json = reparsed(&constructed_request.to_json());
    assert_eq!(request_json, written_multicast_announce_json);
}

#[test]
fn discover_legacy_response_deserialize_serialize() {
    let response_json = parsed(
        r#"{
            "alias": "Nice Orange",
            "version": "2.0",
            "deviceModel": "Samsung",
            "deviceType": "mobile",
            "fingerprint": "random string",
            "download": true
        }"#,
    );
    let constructed_response = LegacyRegisterResponse::new(
        Version::new("2.0".into()),
        nice_orange(),
        Some(PreferDownload::new(true)),
    );
    // Deserialize
    let read_response = LegacyRegisterResponse::from_json(&response_json).unwrap();
    assert_eq!(constructed_response, read_response);
    // Serialize
    let written_multicast_announce_json = reparsed(&constructed_response.to_json());
    assert_eq!(response_json, written_multicast_announce_json);
}

fn some_file(metadata: Option<FileMeta>) -> FileInfo {
    FileInfo::new(
        FileId::new("some file id".to_string()),
        "my image.png".to_string(),
        324242,
        "image/jpeg".to_string(),
        Some(SHA256::new("*sha256 hash*".to_string())),
        Some(FilePreview::new("*preview data*".to_string())),
        metadata,
    )
}

fn another_file() -> FileInfo {
    FileInfo::new(
        FileId::new("another file id".to_string()),
        "another image.jpg".to_string(),
        1234,
        "image/jpeg".to_string(),
        Some(SHA256::new("*sha256 hash*".to_string())),
        Some(FilePreview::new("*preview data*".to_string())),
        None,
    )
}

#[test]
fn download_predownload_meta_deserialize_serialize() {
    let response_json = parsed(
        r#"{
            "info": {
                "alias": "Nice Orange",
                "version": "2.0",
                "deviceModel": "Samsung",
                "deviceType": "mobile",
                "fingerprint": "random string",
                "download": true
            },
            "sessionId": "mySessionId",
            "files": {
                "some file id": {
                    "id": "some file id",
                    "fileName": "my image.png",
                    "size": 324242,
                    "fileType": "image/jpeg",
                    "sha256": "*sha256 hash*",
                    "preview": "*preview data*"
                },
                "another file id": {
                    "id": "another file id",
                    "fileName": "another image.jpg",
                    "size": 1234,
                    "fileType": "image/jpeg",
                    "sha256": "*sha256 hash*",
                    "preview": "*preview data*"
                }
            }
        }"#,
    );
    let info = PrepareDownloadMeta::new(Version::new("2.0".to_string()), nice_orange(), True);
    // The files of a document come in the order of their names.
    let files = FilesInfoMap::new(vec![
        (FileId::new("another file id".to_string()), another_file()),
        (FileId::new("some file id".to_string()), some_file(None)),
    ]);
    let constructed_response =
        PrepareDownloadResponse::new(info, SessionId::new("mySessionId".to_string()), files);
    let read_response = PrepareDownloadResponse::from_json(&response_json).unwrap();
    assert_eq!(constructed_response, read_response);
    let written_response = reparsed(&constructed_response.to_json());
    assert_eq!(response_json, written_response);
}

#[test]
fn upload_prepareupload_request_deserialize_serialize() {
    let request_json = parsed(
        r#"{
            "info": {
                "alias": "Nice Orange",
                "version": "2.0",
                "deviceModel": "Samsung",
                "deviceType": "mobile",
                "fingerprint": "random string",
                "port": 53317,
                "protocol": "https",
                "download": true
            },
            "files": {
                "some file id": {
                    "id": "some file id",
                    "fileName": "my image.png",
                    "size": 324242,
                    "fileType": "image/jpeg",
                    "sha256": "*sha256 hash*",
                    "preview": "*preview data*",
                    "metadata": {
                        "modified": "2021-01-01T12:34:56Z",
                        "accessed": "2021-01-01T12:34:56Z"
                    }
                },
                "another file id": {
                    "id": "another file id",
                    "fileName": "another image.jpg",
                    "size": 1234,
                    "fileType": "image/jpeg",
                    "sha256": "*sha256 hash*",
                    "preview": "*preview data*"
                }
            }
        }"#,
    );
    let info = PrepareUploadDeviceInfo::new(
        Version::new("2.0".to_string()),
        nice_orange(),
        Port::new(53317),
        Protocol::Https,
        Some(true),
    );
    let file_extra_meta = FileMeta::new(vec![
        ("accessed".to_string(), "2021-01-01T12:34:56Z".to_string()),
        ("modified".to_string(), "2021-01-01T12:34:56Z".to_string()),
    ]);
    let files = FilesInfoMap::new(vec![
        (FileId::new("another file id".to_string()), another_file()),
        (FileId::new("some file id".to_string()), some_file(Some(file_extra_meta))),
    ]);
    let constructed_request = PrepareUploadRequest::new(info, files);
    let read_request = PrepareUploadRequest::from_json(&request_json).unwrap();
    assert_eq!(constructed_request, read_request);
    let written_request = reparsed(&constructed_request.to_json());
    assert_eq!(request_json, written_request);
}

#[test]
fn prepareupload_response_deserialize_serialize() {
    let response_json = parsed(
        r#"{
            "sessionId": "mySessionId",
            "files": {
                "someFileId": "someFileToken",
                "someOtherFileId": "someOtherFileToken"
            }
        }"#,
    );
    let token_map = vec![
        (
            FileId::new("someFileId".to_string()),
            FileUploadToken::new("someFileToken".to_string()),
        ),
        (
            FileId::new("someOtherFileId".to_string()),
            FileUploadToken::new("someOtherFileToken".to_string()),
        ),
    ];
    let constructed_response = PrepareUploadResponse::new(
        SessionId::new("mySessionId".to_string()),
        FilesTokenMap::new(token_map),
    );
    let read_response = PrepareUploadResponse::from_json(&response_json).unwrap();
    assert_eq!(constructed_response, read_response);
    let written_response = reparsed(&constructed_response.to_json());
    assert_eq!(response_json, written_response);
}

fn common(download: Option<bool>) -> MulticastCommon {
    MulticastCommon::new(
        nice_orange(),
        Port::new(53317),
        Protocol::Http,
        download.map(PreferDownload::new),
    )
}

#[test]
fn announcement_survives_text() {
    let announce = MulticastMessage::Announce(MulticastAnnounce::from(common(Some(true))));
    let text = announce.encode();
    assert_eq!(MulticastMessage::decode(&text), Some(announce));
}

#[test]
fn response_survives_text_with_and_without_announce() {
    let stated = MulticastMessage::Response(MulticastResponse::from(common(None)));
    assert_eq!(MulticastMessage::decode(&stated.encode()), Some(stated));
    let left_out = MulticastMessage::Response(MulticastResponse::new(
        Version::new("2.1".to_string()),
        common(Some(false)),
        None,
    ));
    assert_eq!(MulticastMessage::decode(&left_out.encode()), Some(left_out));
}

#[test]
fn announcement_is_written_member_by_member() {
    let announce = MulticastAnnounce::from(common(Some(true)));
    assert_eq!(
        announce.to_json().print(),
        r#"{"alias":"Nice Orange","announce":true,"deviceModel":"Samsung","deviceType":"mobile","download":true,"fingerprint":"random string","port":53317,"protocol":"http","version":"2.1"}"#
    );
}

#[test]
fn preference_left_out_is_not_written() {
    let response = MulticastResponse::new(Version::new("2.0".to_string()), common(None), None);
    let written = response.to_json();
    assert!(written.get("download").is_none());
    assert!(written.get("announce").is_none());
    assert_eq!(written.get("port"), Some(&JsonValue::Number("53317".to_string())));
}

#[test]
fn device_without_model_is_written_as_null() {
    let device = DeviceInfo::new(
        Alias::new("a".to_string()),
        None,
        DeviceType::Web,
        Fingerprint::new("f".to_string()),
    );
    let mut members = Vec::new();
    device.write_members(&mut members);
    let written = JsonValue::Object(members);
    assert_eq!(written.get("deviceModel"), Some(&JsonValue::Null));
    assert_eq!(DeviceInfo::from_json(&written), Some(device));
}

#[test]
fn announce_true_is_an_announcement_and_false_a_response() {
    let text = |announce: &str| {
        format!(
            r#"{{"alias":"a","version":"2.0","deviceType":"server","fingerprint":"f","port":1,"protocol":"http"{}}}"#,
            announce
        )
    };
    assert!(matches!(
        MulticastMessage::decode(&text(r#","announce":true"#)),
        Some(MulticastMessage::Announce(_))
    ));
    assert!(matches!(
        MulticastMessage::decode(&text(r#","announce":false"#)),
        Some(MulticastMessage::Response(_))
    ));
    assert!(matches!(MulticastMessage::decode(&text("")), Some(MulticastMessage::Response(_))));
    assert!(matches!(
        MulticastMessage::decode(&text(r#","announce":null"#)),
        Some(MulticastMessage::Response(_))
    ));
    assert_eq!(MulticastMessage::decode(&text(r#","announce":"yes""#)), None);
}

#[test]
fn malformed_messages_are_refused() {
    assert_eq!(MulticastMessage::decode("not json"), None);
    assert_eq!(MulticastMessage::decode("[1, 2]"), None);
    assert_eq!(MulticastMessage::decode("{}"), None);
    // no fingerprint
    assert_eq!(
        MulticastMessage::decode(
            r#"{"alias":"a","version":"2.0","deviceType":"server","port":1,"protocol":"http"}"#
        ),
        None
    );
    // a kind of device that does not exist
    assert_eq!(
        MulticastMessage::decode(
            r#"{"alias":"a","version":"2.0","deviceType":"toaster","fingerprint":"f","port":1,"protocol":"http"}"#
        ),
        None
    );
    // a port that is no port
    for port in ["65536", "-1", "1.5", "\"1\""] {
        let text = format!(
            r#"{{"alias":"a","version":"2.0","deviceType":"server","fingerprint":"f","port":{},"protocol":"http"}}"#,
            port
        );
        assert_eq!(MulticastMessage::decode(&text), None);
    }
    // a protocol that does not exist
    assert_eq!(
        MulticastMessage::decode(
            r#"{"alias":"a","version":"2.0","deviceType":"server","fingerprint":"f","port":1,"protocol":"ftp"}"#
        ),
        None
    );
}

#[test]
fn largest_port_is_read() {
    let text = r#"{"alias":"a","version":"2.0","deviceType":"server","fingerprint":"f","port":65535,"protocol":"https","extra":[1,{"x":null}]}"#;
    let message = MulticastMessage::decode(text).unwrap();
    assert_eq!(message.multicast_common().port().dissolve(), 65535);
    assert_eq!(*message.multicast_common().protocol(), Protocol::Https);
    assert_eq!(*message.multicast_common().download(), None);
}

#[test]
fn every_kind_of_device_has_its_name() {
    let kinds = [
        (DeviceType::Mobile, "mobile", "Mobile"),
        (DeviceType::Desktop, "desktop", "Desktop"),
        (DeviceType::Web, "web", "Web"),
        (DeviceType::Headless, "headless", "Headless"),
        (DeviceType::Server, "server", "Server"),
    ];
    for (kind, wire, shown) in kinds {
        assert_eq!(kind.as_wire_name(), wire);
        assert_eq!(DeviceType::parse_wire_name(wire), Some(kind));
        assert_eq!(kind.to_string(), shown);
    }
    assert_eq!(DeviceType::parse_wire_name("Mobile"), None);
    assert_eq!(Protocol::parse_wire_name("http"), Some(Protocol::Http));
    assert_eq!(Protocol::parse_wire_name("https"), Some(Protocol::Https));
    assert_eq!(Protocol::parse_wire_name("HTTP"), None);
    assert_eq!(Protocol::Https.to_string(), "Https");
}

#[test]
fn defaults_are_those_of_the_protocol() {
    assert_eq!(Version::default().as_str(), "2.1");
    assert_eq!(Port::default().dissolve(), 53317);
    let device = DeviceInfo::default();
    assert_eq!(device.alias().as_str(), "GenericTurnip");
    assert_eq!(device.device_model().as_ref().map(|m| m.as_str()), Some("Rust"));
    assert_eq!(*device.device_type(), DeviceType::Headless);
    assert_eq!(device.fingerprint().as_str(), "XXXXXXXXXXXXXXXX");
    assert_eq!(device.to_string(), "GenericTurnip (Rust Headless)");
    let plain = DeviceInfo::new(
        Alias::new("Plain".to_string()),
        None,
        DeviceType::Mobile,
        Fingerprint::new("f".to_string()),
    );
    assert_eq!(plain.to_string(), "Plain (Generic Mobile)");
}

#[test]
fn from_common_sets_version_and_announce() {
    let announce = MulticastAnnounce::from(common(None));
    assert_eq!(announce.version().as_str(), "2.1");
    assert_eq!(*announce.multicast_common(), common(None));
    let response = MulticastResponse::from(common(None));
    assert_eq!(response.version().as_str(), "2.1");
    assert_eq!(*response.announce(), Some(False));
}

#[test]
fn file_description_needs_its_members() {
    let whole = r#"{"id":"i","fileName":"n","size":0,"fileType":"t","sha256":null}"#;
    let file = FileInfo::from_json(&parsed(whole)).unwrap();
    assert_eq!(file.id().as_str(), "i");
    assert_eq!(*file.size(), 0);
    assert_eq!(*file.sha_256(), None);
    assert_eq!(*file.metadata(), None);
    for broken in [
        r#"{"fileName":"n","size":0,"fileType":"t"}"#,
        r#"{"id":"i","size":0,"fileType":"t"}"#,
        r#"{"id":"i","fileName":"n","fileType":"t"}"#,
        r#"{"id":"i","fileName":"n","size":0}"#,
        r#"{"id":"i","fileName":"n","size":-3,"fileType":"t"}"#,
        r#"{"id":"i","fileName":"n","size":0,"fileType":"t","metadata":{"a":1}}"#,
        r#"{"id":"i","fileName":"n","size":0,"fileType":"t","preview":7}"#,
    ] {
        assert_eq!(FileInfo::from_json(&parsed(broken)), None);
    }
}

#[test]
fn sizes_must_be_whole_and_fit() {
    let with_size = |size: &str| {
        FileInfo::from_json(&parsed(&format!(
            r#"{{"id":"i","fileName":"n","size":{},"fileType":"t"}}"#,
            size
        )))
    };
    assert_eq!(with_size("1000").map(|file| *file.size()), Some(1000));
    assert_eq!(with_size("1e3"), None);
    assert_eq!(with_size("1000.0"), None);
    assert_eq!(with_size("18446744073709551616"), None);
    assert_eq!(with_size("-0"), None);
    assert_eq!(with_size("\"1000\""), None);
}

#[test]
fn largest_size_is_read() {
    let text = r#"{"id":"i","fileName":"n","size":18446744073709551615,"fileType":"t"}"#;
    let file = FileInfo::from_json(&parsed(text)).unwrap();
    assert_eq!(*file.size(), u64::MAX);
    assert_eq!(FileInfo::from_json(&reparsed(&file.to_json())), Some(file));
}

#[test]
fn manifest_needs_a_sender_that_offers_downloads() {
    let text = |download: &str| {
        format!(
            r#"{{"info":{{"alias":"a","version":"2.0","deviceType":"server","fingerprint":"f"{}}},"sessionId":"s","files":{{}}}}"#,
            download
        )
    };
    let manifest = PrepareDownloadResponse::decode(&text(r#","download":true"#)).unwrap();
    assert_eq!(manifest.session_id().as_str(), "s");
    assert_eq!(manifest.files().len(), 0);
    assert_eq!(PrepareDownloadResponse::decode(&text(r#","download":false"#)), None);
    assert_eq!(PrepareDownloadResponse::decode(&text("")), None);
    assert_eq!(PrepareDownloadResponse::decode(r#"{"sessionId":"s","files":{}}"#), None);
}

#[test]
fn json_numbers_are_told_apart() {
    assert_eq!(parsed("7"), JsonValue::Number("7".to_string()));
    assert_eq!(parsed("-7"), JsonValue::Number("-7".to_string()));
    assert_eq!(parsed("7.5"), JsonValue::Number("7.5".to_string()));
    assert_eq!(parsed("7.0"), JsonValue::Number("7.0".to_string()));
    assert_eq!(parsed("18446744073709551615"), JsonValue::Number("18446744073709551615".to_string()));
    assert_eq!(parsed("null"), JsonValue::Null);
    assert_eq!(parsed("true"), JsonValue::Bool(true));
    assert_eq!(parsed(r#""a\nb""#), JsonValue::Text("a\nb".to_string()));
    assert_eq!(
        parsed("[1, [2]]"),
        JsonValue::Array(vec![
            JsonValue::Number("1".to_string()),
            JsonValue::Array(vec![JsonValue::Number("2".to_string())])
        ])
    );
    assert_eq!(JsonValue::parse("{"), None);
    assert_eq!(JsonValue::parse(""), None);
}

#[test]
fn json_is_printed_compactly() {
    let value = JsonValue::Object(vec![
        ("b".to_string(), JsonValue::Array(vec![JsonValue::Null, JsonValue::Number("-2".to_string())])),
        ("a".to_string(), JsonValue::Text("x\"y".to_string())),
        ("c".to_string(), JsonValue::Number("1.5".to_string())),
        ("d".to_string(), JsonValue::Bool(false)),
    ]);
    assert_eq!(value.print(), r#"{"a":"x\"y","b":[null,-2],"c":1.5,"d":false}"#);
    // a number whose text is no JSON number is stored as null
    assert_eq!(JsonValue::Number("007".to_string()).print(), "null");
    assert_eq!(JsonValue::Number("seven".to_string()).print(), "null");
    assert_eq!(JsonValue::Number("53317".to_string()).print(), "53317");
}

#[test]
fn member_lookup_takes_the_last_of_a_name() {
    let value = JsonValue::Object(vec![
        ("k".to_string(), JsonValue::Number("1".to_string())),
        ("k".to_string(), JsonValue::Number("2".to_string())),
    ]);
    assert_eq!(value.get("k"), Some(&JsonValue::Number("2".to_string())));
    assert_eq!(value.print(), r#"{"k":2}"#);
    assert_eq!(value.get("K"), None);
    assert_eq!(JsonValue::Null.get("k"), None);
    assert_eq!(value.u64_at("k"), Some(2));
    assert_eq!(value.text_at("k"), None);
    assert_eq!(value.optional_text_at("missing"), Some(None));
    assert_eq!(value.optional_text_at("k"), None);
    assert_eq!(value.optional_bool_at("k"), None);
    assert_eq!(value.bool_at("missing"), None);
}
