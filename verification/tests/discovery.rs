use localsend::args::DiscoverArgs;
use localsend::constants::{LOCALSEND_PORT, MULTICAST_IP};
use localsend::discover::{
    announcement, announcement_text, Datagram, DiscoveryAction, DiscoverySession, PeerInfo,
    PeersMap, Sighting,
};
use localsend::messages::common_fields::{
    Alias, DeviceInfo, DeviceModel, DeviceType, Fingerprint, Port, PreferDownload, Protocol,
    Version,
};
use localsend::messages::discover::{
    MulticastAnnounce, MulticastCommon, MulticastMessage, MulticastResponse, True,
};

fn device(alias: &str, fingerprint: &str) -> DeviceInfo {
    DeviceInfo::new(
        Alias::new(alias.to_string()),
        Some(DeviceModel::new("Linux".to_string())),
        DeviceType::Desktop,
        Fingerprint::new(fingerprint.to_string()),
    )
}

fn announce(alias: &str, fingerprint: &str, port: u16, download: Option<bool>) -> MulticastMessage {
    MulticastMessage::Announce(MulticastAnnounce::new(
        Version::new("2.0".to_string()),
        MulticastCommon::new(
            device(alias, fingerprint),
            Port::new(port),
            Protocol::Https,
            download.map(PreferDownload::new),
        ),
        True,
    ))
}

fn fingerprint(text: &str) -> Fingerprint {
    Fingerprint::new(text.to_string())
}

#[test]
fn own_messages_never_enter_the_registry() {
    let mut peers = PeersMap::new(fingerprint("me"));
    let own = announce("Myself", "me", 53317, Some(true));
    for now in 0..25 {
        assert_eq!(peers.observe([10, 0, 0, 1], &own, now), Sighting::Own);
        assert_eq!(
            peers.hear([10, 0, 0, 1], own.encode().as_bytes(), now),
            Datagram::Message(Sighting::Own)
        );
    }
    assert_eq!(peers.len(), 0);
    assert!(peers.get(&fingerprint("me")).is_none());
    assert_eq!(peers.observe([10, 0, 0, 2], &announce("Other", "you", 1, None), 30), Sighting::New);
    assert_eq!(peers.observe([10, 0, 0, 1], &own, 31), Sighting::Own);
    assert_eq!(peers.len(), 1);
    assert!(peers.get(&fingerprint("me")).is_none());
}

#[test]
fn second_announcement_refreshes_the_record() {
    let mut peers = PeersMap::new(fingerprint("me"));
    assert_eq!(
        peers.observe([10, 0, 0, 2], &announce("Early Name", "peer", 1000, Some(true)), 5),
        Sighting::New
    );
    assert_eq!(
        peers.observe([10, 0, 0, 3], &announce("Late Name", "peer", 2000, None), 9),
        Sighting::Known
    );
    assert_eq!(peers.len(), 1);
    let record = peers.get(&fingerprint("peer")).unwrap();
    assert_eq!(record.device_info().alias().as_str(), "Late Name");
    assert_eq!(record.address(), [10, 0, 0, 3]);
    assert_eq!(record.port().dissolve(), 2000);
    assert_eq!(record.download_mode(), false);
    assert_eq!(record.first_seen(), 5);
    assert_eq!(record.last_seen(), 9);
    assert_eq!(peers.find(&fingerprint("peer")), Some(0));
}

#[test]
fn peers_keep_the_order_in_which_they_were_heard() {
    let mut peers = PeersMap::new(fingerprint("me"));
    peers.observe([1, 1, 1, 1], &announce("A", "a", 1, None), 1);
    peers.observe([2, 2, 2, 2], &announce("B", "b", 2, None), 2);
    peers.observe([3, 3, 3, 3], &announce("C", "c", 3, None), 3);
    peers.observe([4, 4, 4, 4], &announce("B again", "b", 4, None), 4);
    let aliases: Vec<&str> =
        peers.peers().iter().map(|peer| peer.device_info().alias().as_str()).collect();
    assert_eq!(aliases, vec!["A", "B again", "C"]);
    assert_eq!(peers.find(&fingerprint("c")), Some(2));
    assert_eq!(peers.find(&fingerprint("d")), None);
    assert_eq!(peers.local().as_str(), "me");
}

#[test]
fn address_comes_from_the_datagram_and_the_rest_from_the_message() {
    let mut peers = PeersMap::new(fingerprint("me"));
    let text = r#"{"alias":"Phone","version":"2.0","deviceModel":"Pixel","deviceType":"mobile","fingerprint":"abc","port":40000,"protocol":"https","download":true,"announce":true,"address":"6.6.6.6","ip":"6.6.6.6"}"#;
    assert_eq!(
        peers.hear([192, 168, 1, 20], text.as_bytes(), 77),
        Datagram::Message(Sighting::New)
    );
    let record = peers.get(&fingerprint("abc")).unwrap();
    assert_eq!(record.address(), [192, 168, 1, 20]);
    assert_eq!(record.port().dissolve(), 40000);
    assert_eq!(record.protocol(), Protocol::Https);
    assert_eq!(record.download_mode(), true);
    assert_eq!(record.first_seen(), 77);
    assert_eq!(record.last_seen(), 77);
    assert_eq!(record.fingerprint().as_str(), "abc");
    assert_eq!(record.full_address(), "192.168.1.20:40000");
    assert_eq!(record.url(), "https://192.168.1.20:40000");
}

#[test]
fn responses_count_as_sightings_too() {
    let mut peers = PeersMap::new(fingerprint("me"));
    let response = MulticastMessage::Response(MulticastResponse::from(MulticastCommon::new(
        device("Answering", "r"),
        Port::new(53317),
        Protocol::Http,
        None,
    )));
    assert_eq!(
        peers.hear([10, 1, 1, 1], response.encode().as_bytes(), 1),
        Datagram::Message(Sighting::New)
    );
    assert_eq!(peers.get(&fingerprint("r")).unwrap().download_mode(), false);
}

#[test]
fn datagrams_that_hold_no_message_are_dropped() {
    let mut peers = PeersMap::new(fingerprint("me"));
    assert_eq!(peers.hear([1, 2, 3, 4], &[0xff, 0xfe, 0x00], 1), Datagram::NotText);
    assert_eq!(peers.hear([1, 2, 3, 4], &[0xc3], 1), Datagram::NotText);
    assert_eq!(peers.hear([1, 2, 3, 4], b"", 1), Datagram::NotAMessage);
    assert_eq!(peers.hear([1, 2, 3, 4], b"hello", 1), Datagram::NotAMessage);
    assert_eq!(peers.hear([1, 2, 3, 4], br#"{"alias":"x"}"#, 1), Datagram::NotAMessage);
    assert_eq!(peers.len(), 0);
    let accented = announce("Zo\u{eb}", "z", 1, None);
    assert_eq!(
        peers.hear([1, 2, 3, 4], accented.encode().as_bytes(), 2),
        Datagram::Message(Sighting::New)
    );
    assert_eq!(peers.get(&fingerprint("z")).unwrap().device_info().alias().as_str(), "Zo\u{eb}");
}

#[test]
fn peer_is_shown_with_a_link() {
    let common = MulticastCommon::new(
        device("Nice Orange", "f"),
        Port::new(53317),
        Protocol::Http,
        Some(PreferDownload::new(true)),
    );
    let inbox = PeerInfo::sighted([192, 168, 0, 7], &common, 0, 0);
    assert_eq!(
        inbox.terminal_display(),
        "Nice Orange (Linux Desktop) @\u{1b}]8;;http://192.168.0.7:53317\u{1b}\\192.168.0.7:53317\u{1b}]8;;\u{1b}\\ \u{1F4E5}"
    );
    assert_eq!(inbox.to_string(), inbox.terminal_display());
    let common =
        MulticastCommon::new(device("Nice Orange", "f"), Port::new(1), Protocol::Https, None);
    let outbox = PeerInfo::sighted([0, 0, 0, 0], &common, 0, 0);
    assert_eq!(
        outbox.terminal_display(),
        "Nice Orange (Linux Desktop) @\u{1b}]8;;https://0.0.0.0:1\u{1b}\\0.0.0.0:1\u{1b}]8;;\u{1b}\\ \u{1F4E4}"
    );
    assert_eq!(outbox.clone(), outbox);
}

#[test]
fn announcement_names_this_device() {
    let me = device("Myself", "me");
    let made = announcement(&me);
    assert_eq!(made.version().as_str(), "2.1");
    assert_eq!(*made.multicast_common().device_info(), me);
    assert_eq!(made.multicast_common().port().dissolve(), LOCALSEND_PORT);
    assert_eq!(*made.multicast_common().protocol(), Protocol::Http);
    assert_eq!(*made.multicast_common().download(), Some(PreferDownload::new(true)));
    let text = announcement_text(&me);
    assert_eq!(MulticastMessage::decode(&text), Some(MulticastMessage::Announce(made)));
    assert_eq!(MULTICAST_IP, [224, 0, 0, 167]);
    assert_eq!(LOCALSEND_PORT, 53317);
}

#[test]
fn session_announces_listens_and_stops_at_its_deadline() {
    let me = device("Myself", "me");
    let args = DiscoverArgs::new(false, 2, 1);
    let mut session = DiscoverySession::begin(me.clone(), &args, 10_000);
    assert_eq!(session.deadline(), 12_000);
    assert_eq!(session.poll(10_000), DiscoveryAction::Announce(announcement_text(&me)));
    assert_eq!(session.poll(10_001), DiscoveryAction::Listen(11_000));
    let other = announce("Other", "you", 53317, None);
    assert_eq!(
        session.hear([10, 0, 0, 9], other.encode().as_bytes(), 10_500),
        Some(Datagram::Message(Sighting::New))
    );
    assert_eq!(session.poll(10_999), DiscoveryAction::Listen(11_000));
    assert_eq!(session.poll(11_000), DiscoveryAction::Announce(announcement_text(&me)));
    // the next announcement is due a full interval later, at the deadline
    assert_eq!(session.poll(11_500), DiscoveryAction::Listen(12_000));
    assert!(!session.is_over());
    assert_eq!(session.poll(12_000), DiscoveryAction::Finish);
    assert!(session.is_over());
    // what arrives now is not looked at, and the session stays over
    let late = announce("Late", "late", 53317, None);
    assert_eq!(session.hear([10, 0, 0, 8], late.encode().as_bytes(), 11_000), None);
    assert_eq!(session.poll(10_000), DiscoveryAction::Finish);
    assert_eq!(session.peers().len(), 1);
    let peers = session.finish();
    assert_eq!(peers.len(), 1);
    assert_eq!(peers.peers()[0].device_info().alias().as_str(), "Other");
    assert_eq!(peers.peers()[0].first_seen(), 10_500);
}

#[test]
fn silent_session_only_listens() {
    let args = DiscoverArgs::new(true, 5, 2);
    let mut session = DiscoverySession::begin(device("Myself", "me"), &args, 0);
    assert_eq!(session.poll(0), DiscoveryAction::Listen(5_000));
    assert_eq!(session.poll(4_999), DiscoveryAction::Listen(5_000));
    let own = announce("Myself", "me", 53317, None);
    assert_eq!(
        session.hear([10, 0, 0, 1], own.encode().as_bytes(), 100),
        Some(Datagram::Message(Sighting::Own))
    );
    assert_eq!(session.hear([10, 0, 0, 1], b"\xff", 100), Some(Datagram::NotText));
    assert_eq!(session.hear([10, 0, 0, 1], b"\xff", 5_000), None);
    assert_eq!(session.poll(5_000), DiscoveryAction::Finish);
    assert_eq!(session.finish().len(), 0);
}

#[test]
fn session_times_do_not_overflow() {
    let args = DiscoverArgs::new(false, u64::MAX, u64::MAX);
    let mut session = DiscoverySession::begin(device("Myself", "me"), &args, 7);
    assert_eq!(session.deadline(), u64::MAX);
    assert!(matches!(session.poll(7), DiscoveryAction::Announce(_)));
    assert_eq!(session.poll(8), DiscoveryAction::Listen(u64::MAX));
    assert_eq!(session.poll(u64::MAX), DiscoveryAction::Finish);
    let zero = DiscoverArgs::new(false, 0, 0);
    let mut session = DiscoverySession::begin(device("Myself", "me"), &zero, 7);
    assert_eq!(session.poll(7), DiscoveryAction::Finish);
}

#[test]
fn default_arguments_are_five_seconds_and_two() {
    let args = DiscoverArgs::default();
    assert_eq!(args.silent(), false);
    assert_eq!(args.timeout(), 5);
    assert_eq!(args.announce_interval(), 2);
    assert_eq!(args, DiscoverArgs::new(false, 5, 2));
}
