//! Finding the devices nearby.
//!
//! Devices announce themselves to a multicast group and answer the
//! announcements of others. This module holds what a listener decides: which
//! datagrams count, whom they come from, and what the registry of peers
//! holds afterwards. Sockets and clocks stay with the caller, who hands in
//! what arrived and when.
//!
//! A [`DiscoverySession`] is one value with one owner. Whoever holds it is
//! the only one who can change its registry, so the registry has one writer
//! at a time, however the caller spreads sending and receiving over threads.

use vstd::prelude::*;
use vstd::utf8::{decode_utf8, valid_utf8};
use crate::args::{DiscoverArgs, DiscoverArgsView};
use crate::constants::LOCALSEND_PORT;
use crate::json::json_printed;
use crate::messages::common_fields::{
    DeviceInfo, DeviceInfoView, Fingerprint, Port, PreferDownload, Protocol,
};
use crate::messages::discover::{
    MulticastAnnounce, MulticastAnnounceView, MulticastCommon, MulticastCommonView, MulticastMessage,
    MulticastMessageView,
};
use crate::text::{decimal, decimal_text, utf8_text};

verus! {

/// What is known of a peer.
///
/// The address is the one the datagram came from, never one that the
/// message claims. Port, protocol and preference are those of the message.
/// The two times are the caller's: when the peer was first heard and when it
/// was last heard.
#[derive(Debug, PartialEq)]
pub struct PeerInfo {
    device_info: DeviceInfo,
    address: [u8; 4],
    port: Port,
    protocol: Protocol,
    download_mode: bool,
    first_seen: u64,
    last_seen: u64,
}

/// The content of a [`PeerInfo`].
pub ghost struct PeerInfoView {
    pub device_info: DeviceInfoView,
    pub address: [u8; 4],
    pub port: u16,
    pub protocol: Protocol,
    pub download_mode: bool,
    pub first_seen: u64,
    pub last_seen: u64,
}

impl PeerInfoView {
    /// The record of a peer whose message arrived from `source` at `now`
    /// and who was first heard at `first_seen`. A preference that the
    /// message does not state counts as `false`.
    pub open spec fn sighted(
        source: [u8; 4],
        message: MulticastCommonView,
        first_seen: u64,
        now: u64,
    ) -> PeerInfoView {
        PeerInfoView {
            device_info: message.device_info,
            address: source,
            port: message.port,
            protocol: message.protocol,
            download_mode: match message.download {
                Some(prefer) => prefer,
                None => false,
            },
            first_seen,
            last_seen: now,
        }
    }

    pub open spec fn fingerprint(self) -> Seq<char> {
        self.device_info.fingerprint
    }

    /// The address and the port, as `a.b.c.d:port`.
    pub open spec fn full_address(self) -> Seq<char> {
        decimal(self.address[0] as nat) + "."@ + decimal(self.address[1] as nat) + "."@ + decimal(
            self.address[2] as nat,
        ) + "."@ + decimal(self.address[3] as nat) + ":"@ + decimal(self.port as nat)
    }

    /// The address at which the peer serves its files.
    pub open spec fn url(self) -> Seq<char> {
        self.protocol.wire_name() + "://"@ + self.full_address()
    }

    /// The line that tells the user of the peer: who it is, its address as
    /// a link to follow, and a sign that says whether it would rather have
    /// its files fetched (an inbox) or push them (an outbox).
    pub open spec fn shown(self) -> Seq<char> {
        self.device_info.shown() + " @"@ + hyperlink(self.full_address(), self.url()) + " "@ + (
        if self.download_mode {
            "\u{1F4E5}"@
        } else {
            "\u{1F4E4}"@
        })
    }
}

/// A link as a terminal takes it: the escape sequence that opens a link to
/// `url`, the text to show, and the escape sequence that closes the link.
pub open spec fn hyperlink(text: Seq<char>, url: Seq<char>) -> Seq<char> {
    "\u{1b}]8;;"@ + url + "\u{1b}\\"@ + text + "\u{1b}]8;;\u{1b}\\"@
}

/// Writes a link with `terminal_link::Link`, which puts the text between the
/// escape sequences that open and close a link to the address.
#[verifier::external_body]
fn terminal_hyperlink(text: &str, url: &str) -> (out: String)
    ensures
        out@ == hyperlink(text@, url@),
{
    terminal_link::Link::new(text, url).to_string()
}

impl View for PeerInfo {
    type V = PeerInfoView;

    closed spec fn view(&self) -> PeerInfoView {
        PeerInfoView {
            device_info: self.device_info@,
            address: self.address,
            port: self.port@,
            protocol: self.protocol,
            download_mode: self.download_mode,
            first_seen: self.first_seen,
            last_seen: self.last_seen,
        }
    }
}

impl Clone for PeerInfo {
    fn clone(&self) -> (out: Self)
        ensures
            out@ == self@,
    {
        PeerInfo {
            device_info: self.device_info.clone(),
            address: self.address,
            port: self.port,
            protocol: self.protocol,
            download_mode: self.download_mode,
            first_seen: self.first_seen,
            last_seen: self.last_seen,
        }
    }
}

impl PeerInfo {
    /// The record of a peer whose message arrived from `source` at `now`.
    pub fn sighted(source: [u8; 4], message: &MulticastCommon, first_seen: u64, now: u64) -> (out:
        Self)
        ensures
            out@ == PeerInfoView::sighted(source, message@, first_seen, now),
    {
        let download_mode = match message.download() {
            Some(prefer) => prefer.get(),
            None => false,
        };
        PeerInfo {
            device_info: message.device_info().clone(),
            address: source,
            port: *message.port(),
            protocol: *message.protocol(),
            download_mode,
            first_seen,
            last_seen: now,
        }
    }

    pub fn device_info(&self) -> (out: &DeviceInfo)
        ensures
            out@ == self@.device_info,
    {
        &self.device_info
    }

    pub fn fingerprint(&self) -> (out: &Fingerprint)
        ensures
            out@ == self@.fingerprint(),
    {
        self.device_info.fingerprint()
    }

    pub fn address(&self) -> (out: [u8; 4])
        ensures
            out == self@.address,
    {
        self.address
    }

    pub fn port(&self) -> (out: Port)
        ensures
            out@ == self@.port,
    {
        self.port
    }

    pub fn protocol(&self) -> (out: Protocol)
        ensures
            out == self@.protocol,
    {
        self.protocol
    }

    pub fn download_mode(&self) -> (out: bool)
        ensures
            out == self@.download_mode,
    {
        self.download_mode
    }

    pub fn first_seen(&self) -> (out: u64)
        ensures
            out == self@.first_seen,
    {
        self.first_seen
    }

    pub fn last_seen(&self) -> (out: u64)
        ensures
            out == self@.last_seen,
    {
        self.last_seen
    }

    /// The address and the port, as `a.b.c.d:port`.
    pub fn full_address(&self) -> (out: String)
        ensures
            out@ == self@.full_address(),
    {
        let mut out = decimal_text(self.address[0] as u64);
        out.append(".");
        out.append(decimal_text(self.address[1] as u64).as_str());
        out.append(".");
        out.append(decimal_text(self.address[2] as u64).as_str());
        out.append(".");
        out.append(decimal_text(self.address[3] as u64).as_str());
        out.append(":");
        out.append(decimal_text(self.port.dissolve() as u64).as_str());
        out
    }

    /// The address at which the peer serves its files.
    pub fn url(&self) -> (out: String)
        ensures
            out@ == self@.url(),
    {
        let mut out = self.protocol.as_wire_name().to_owned();
        out.append("://");
        out.append(self.full_address().as_str());
        out
    }

    /// The line that tells the user of the peer.
    pub fn terminal_display(&self) -> (out: String)
        ensures
            out@ == self@.shown(),
    {
        let full_address = self.full_address();
        let url = self.url();
        let mut out = self.device_info.to_string();
        out.append(" @");
        out.append(terminal_hyperlink(full_address.as_str(), url.as_str()).as_str());
        out.append(" ");
        if self.download_mode {
            out.append("\u{1F4E5}");
        } else {
            out.append("\u{1F4E4}");
        }
        out
    }

    /// The line that tells the user of the peer.
    pub fn to_string(&self) -> (out: String)
        ensures
            out@ == self@.shown(),
    {
        self.terminal_display()
    }
}

/// What a message did to the registry.
#[derive(Debug, Clone, Copy, PartialEq, Eq, Structural)]
pub enum Sighting {
    /// The message came from this device itself and was passed over.
    Own,
    /// The peer was not known before.
    New,
    /// The peer was known, and its record was brought up to date.
    Known,
}

/// The content of a [`PeersMap`]: the fingerprint of this device, and the
/// records of its peers in the order in which they were first heard.
pub ghost struct PeersMapView {
    pub local: Seq<char>,
    pub peers: Seq<PeerInfoView>,
}

impl PeersMapView {
    /// Whether the registry has a record under the fingerprint.
    pub open spec fn holds(self, fingerprint: Seq<char>) -> bool {
        exists|i: int| 0 <= i < self.peers.len() && #[trigger] self.peers[i].fingerprint() == fingerprint
    }

    /// Where the record under the fingerprint stands.
    pub open spec fn position(self, fingerprint: Seq<char>) -> int {
        choose|i: int| 0 <= i < self.peers.len() && #[trigger] self.peers[i].fingerprint() == fingerprint
    }

    /// Whether the record at `at`, and no other, stands under the fingerprint.
    pub open spec fn only_at(self, fingerprint: Seq<char>, at: int) -> bool {
        &&& 0 <= at < self.peers.len()
        &&& forall|i: int|
            0 <= i < self.peers.len() ==> (#[trigger] self.peers[i].fingerprint() == fingerprint <==> i
                == at)
    }

    /// What every registry keeps to: no record stands under the fingerprint
    /// of this device, and no two records under one fingerprint.
    pub open spec fn wf(self) -> bool {
        &&& forall|i: int| 0 <= i < self.peers.len() ==> #[trigger] self.peers[i].fingerprint() != self.local
        &&& forall|i: int, j: int|
            0 <= i < j < self.peers.len() ==> #[trigger] self.peers[i].fingerprint()
                != #[trigger] self.peers[j].fingerprint()
    }

    /// What a message does: nothing where it is this device's own, else it
    /// brings the record of its sender up to date, or adds one.
    pub open spec fn sighting(self, message: MulticastMessageView) -> Sighting {
        if message.fingerprint() == self.local {
            Sighting::Own
        } else if self.holds(message.fingerprint()) {
            Sighting::Known
        } else {
            Sighting::New
        }
    }

    /// The registry after a message that arrived from `source` at `now`.
    ///
    /// A record that is brought up to date keeps its place and the time at
    /// which the peer was first heard; all else in it is taken anew from the
    /// message and the datagram. A new record goes to the end.
    pub open spec fn observed(self, source: [u8; 4], message: MulticastMessageView, now: u64) -> PeersMapView {
        let common = message.multicast_common();
        match self.sighting(message) {
            Sighting::Own => self,
            Sighting::Known => {
                let at = self.position(message.fingerprint());
                PeersMapView {
                    local: self.local,
                    peers: self.peers.update(
                        at,
                        PeerInfoView::sighted(source, common, self.peers[at].first_seen, now),
                    ),
                }
            },
            Sighting::New => PeersMapView {
                local: self.local,
                peers: self.peers.push(PeerInfoView::sighted(source, common, now, now)),
            },
        }
    }

    /// The registry after the bytes of a datagram that arrived from `source`
    /// at `now`. Bytes that are no UTF-8, and text that holds no message,
    /// change nothing.
    pub open spec fn heard(self, source: [u8; 4], payload: Seq<u8>, now: u64) -> PeersMapView {
        match PeersMapView::message_in(payload) {
            Some(message) => self.observed(source, message, now),
            None => self,
        }
    }

    /// The message that the bytes of a datagram hold.
    pub open spec fn message_in(payload: Seq<u8>) -> Option<MulticastMessageView> {
        if valid_utf8(payload) {
            MulticastMessageView::decode_text(decode_utf8(payload))
        } else {
            None
        }
    }
}

/// A message together with where it came from and when it arrived.
pub ghost struct Arrival {
    pub source: [u8; 4],
    pub message: MulticastMessageView,
    pub now: u64,
}

impl PeersMapView {
    /// The registry after a run of messages, one after the other.
    pub open spec fn observed_all(self, arrivals: Seq<Arrival>) -> PeersMapView
        decreases arrivals.len(),
    {
        if arrivals.len() == 0 {
            self
        } else {
            let last = arrivals.last();
            self.observed_all(arrivals.drop_last()).observed(last.source, last.message, last.now)
        }
    }

    /// In a registry that keeps to its rules, the record under a
    /// fingerprint is the only one under it.
    pub proof fn lemma_position(self, fingerprint: Seq<char>)
        requires
            self.wf(),
            self.holds(fingerprint),
        ensures
            self.only_at(fingerprint, self.position(fingerprint)),
    {
    }

    /// A message leaves the registry within its rules, under the same
    /// fingerprint of this device, and with the sender on record unless the
    /// message is this device's own.
    pub proof fn lemma_observed(self, source: [u8; 4], message: MulticastMessageView, now: u64)
        requires
            self.wf(),
        ensures
            self.observed(source, message, now).wf(),
            self.observed(source, message, now).local == self.local,
            message.fingerprint() != self.local ==> self.observed(source, message, now).holds(
                message.fingerprint(),
            ),
            message.fingerprint() == self.local ==> self.observed(source, message, now) == self,
    {
        let after = self.observed(source, message, now);
        let fingerprint = message.fingerprint();
        match self.sighting(message) {
            Sighting::Own => {},
            Sighting::Known => {
                let at = self.position(fingerprint);
                self.lemma_position(fingerprint);
                assert(after.peers[at].fingerprint() == fingerprint);
            },
            Sighting::New => {
                let at = self.peers.len() as int;
                assert(after.peers[at].fingerprint() == fingerprint);
            },
        }
    }

    /// No run of messages, however long and however often it repeats this
    /// device's own, puts a record under this device's fingerprint.
    pub proof fn lemma_own_messages_filtered(self, arrivals: Seq<Arrival>)
        requires
            self.wf(),
        ensures
            self.observed_all(arrivals).wf(),
            self.observed_all(arrivals).local == self.local,
            !self.observed_all(arrivals).holds(self.local),
        decreases arrivals.len(),
    {
        if arrivals.len() > 0 {
            let last = arrivals.last();
            self.lemma_own_messages_filtered(arrivals.drop_last());
            self.observed_all(arrivals.drop_last()).lemma_observed(last.source, last.message, last.now);
        }
    }

    /// Two messages of one sender leave one record of it, and that record
    /// says what the later message said: the later alias, the later address.
    /// The second message adds no record. In a registry that was empty
    /// before the two, that one record is all there is.
    pub proof fn lemma_refresh(self, first: Arrival, second: Arrival)
        requires
            self.wf(),
            first.message.fingerprint() == second.message.fingerprint(),
            first.message.fingerprint() != self.local,
        ensures
            ({
                let once = self.observed(first.source, first.message, first.now);
                let twice = once.observed(second.source, second.message, second.now);
                let at = twice.position(second.message.fingerprint());
                &&& twice.wf()
                &&& twice.only_at(second.message.fingerprint(), at)
                &&& twice.peers[at].device_info == second.message.multicast_common().device_info
                &&& twice.peers[at].address == second.source
                &&& twice.peers[at].last_seen == second.now
                &&& twice.peers[at].first_seen == once.peers[at].first_seen
                &&& twice.peers.len() == once.peers.len()
                &&& self.peers.len() == 0 ==> twice.peers.len() == 1
            }),
    {
        let fingerprint = second.message.fingerprint();
        let once = self.observed(first.source, first.message, first.now);
        self.lemma_observed(first.source, first.message, first.now);
        let twice = once.observed(second.source, second.message, second.now);
        once.lemma_observed(second.source, second.message, second.now);
        once.lemma_position(fingerprint);
        twice.lemma_position(fingerprint);
    }
}

/// What a datagram turned out to be.
#[derive(Debug, Clone, Copy, PartialEq, Eq, Structural)]
pub enum Datagram {
    /// The bytes are no UTF-8 text.
    NotText,
    /// The text is no message of the multicast group.
    NotAMessage,
    /// The text is a message, and this is what it did.
    Message(Sighting),
}

/// The registry of the peers heard in one session of discovery.
#[derive(Debug)]
pub struct PeersMap {
    local: Fingerprint,
    peers: Vec<PeerInfo>,
}

impl View for PeersMap {
    type V = PeersMapView;

    closed spec fn view(&self) -> PeersMapView {
        PeersMapView { local: self.local@, peers: Seq::new(self.peers@.len(), |i: int| self.peers@[i]@) }
    }
}

impl PeersMap {
    /// What every registry keeps to; see [`PeersMapView::wf`]. The
    /// registry that [`PeersMap::new`] makes does, and every method keeps
    /// it so.
    pub open spec fn wf(&self) -> bool {
        self@.wf()
    }

    /// An empty registry for the device with the given fingerprint.
    pub fn new(local: Fingerprint) -> (out: Self)
        ensures
            out@.local == local@,
            out@.peers.len() == 0,
            out.wf(),
    {
        PeersMap { local, peers: Vec::new() }
    }

    /// The fingerprint of this device.
    pub fn local(&self) -> (out: &Fingerprint)
        ensures
            out@ == self@.local,
    {
        &self.local
    }

    /// How many peers are known.
    pub fn len(&self) -> (out: usize)
        ensures
            out == self@.peers.len(),
    {
        self.peers.len()
    }

    /// The records, in the order in which the peers were first heard.
    pub fn peers(&self) -> (out: &Vec<PeerInfo>)
        ensures
            out@.len() == self@.peers.len(),
            forall|i: int| 0 <= i < out@.len() ==> #[trigger] out@[i]@ == self@.peers[i],
    {
        &self.peers
    }

    /// Where the record under the fingerprint stands, if there is one.
    pub fn find(&self, fingerprint: &Fingerprint) -> (out: Option<usize>)
        requires
            self.wf(),
        ensures
            out is Some <==> self@.holds(fingerprint@),
            out is Some ==> out->0 == self@.position(fingerprint@),
            out is Some ==> 0 <= out->0 < self@.peers.len(),
    {
        let mut i: usize = 0;
        while i < self.peers.len()
            invariant
                i <= self.peers.len(),
                self@.wf(),
                forall|k: int| 0 <= k < i ==> #[trigger] self@.peers[k].fingerprint() != fingerprint@,
            decreases self.peers.len() - i,
        {
            if crate::text::same_text(self.peers[i].fingerprint().as_str(), fingerprint.as_str()) {
                assert(self@.peers[i as int].fingerprint() == fingerprint@);
                return Some(i);
            }
            i += 1;
        }
        None
    }

    /// The record under the fingerprint, if there is one.
    pub fn get(&self, fingerprint: &Fingerprint) -> (out: Option<&PeerInfo>)
        requires
            self.wf(),
        ensures
            out is Some <==> self@.holds(fingerprint@),
            out is Some ==> out->0@ == self@.peers[self@.position(fingerprint@)],
    {
        match self.find(fingerprint) {
            Some(at) => Some(&self.peers[at]),
            None => None,
        }
    }

    /// Takes note of a message that arrived from `source` at `now`.
    pub fn observe(&mut self, source: [u8; 4], message: &MulticastMessage, now: u64) -> (out: Sighting)
        requires
            old(self).wf(),
        ensures
            out == old(self)@.sighting(message@),
            final(self)@ == old(self)@.observed(source, message@, now),
            final(self).wf(),
            out != Sighting::Own ==> final(self)@.holds(message@.fingerprint()),
    {
        proof {
            old(self)@.lemma_observed(source, message@, now);
        }
        let common = message.multicast_common();
        let fingerprint = common.device_info().fingerprint();
        if crate::text::same_text(fingerprint.as_str(), self.local.as_str()) {
            return Sighting::Own;
        }
        match self.find(fingerprint) {
            Some(at) => {
                let record = PeerInfo::sighted(source, common, self.peers[at].first_seen(), now);
                let ghost before = self@;
                let ghost after = record@;
                self.peers.set(at, record);
                assert(self@.peers =~= before.peers.update(at as int, after));
                Sighting::Known
            },
            None => {
                let record = PeerInfo::sighted(source, common, now, now);
                let ghost before = self@;
                let ghost after = record@;
                self.peers.push(record);
                assert(self@.peers =~= before.peers.push(after));
                Sighting::New
            },
        }
    }

    /// Takes note of the bytes of a datagram that arrived from `source` at
    /// `now`.
    pub fn hear(&mut self, source: [u8; 4], payload: &[u8], now: u64) -> (out: Datagram)
        requires
            old(self).wf(),
        ensures
            final(self)@ == old(self)@.heard(source, payload@, now),
            final(self).wf(),
            out == match PeersMapView::message_in(payload@) {
                Some(message) => Datagram::Message(old(self)@.sighting(message)),
                None => if valid_utf8(payload@) {
                    Datagram::NotAMessage
                } else {
                    Datagram::NotText
                },
            },
    {
        match utf8_text(payload) {
            None => Datagram::NotText,
            Some(text) => match MulticastMessage::decode(text) {
                None => Datagram::NotAMessage,
                Some(message) => Datagram::Message(self.observe(source, &message, now)),
            },
        }
    }
}

/// A number of seconds in milliseconds, or the largest number there is
/// where that does not fit.
pub open spec fn millis(seconds: u64) -> u64 {
    if seconds * 1000 > u64::MAX {
        u64::MAX
    } else {
        (seconds * 1000) as u64
    }
}

/// A time and a span added up, or the largest number there is where the sum
/// does not fit.
pub open spec fn later(time: u64, span: u64) -> u64 {
    if time + span > u64::MAX {
        u64::MAX
    } else {
        (time + span) as u64
    }
}

/// A number of seconds in milliseconds.
fn to_millis(seconds: u64) -> (out: u64)
    ensures
        out == millis(seconds),
{
    match seconds.checked_mul(1000) {
        Some(out) => out,
        None => u64::MAX,
    }
}

/// The announcement that a device makes of itself: in the version that this
/// library speaks, on the port of the protocol, over HTTP, and willing to
/// have its files fetched.
pub open spec fn self_announcement(identity: DeviceInfoView) -> MulticastAnnounceView {
    MulticastAnnounceView {
        version: "2.1"@,
        multicast_common: MulticastCommonView {
            device_info: identity,
            port: 53317,
            protocol: Protocol::Http,
            download: Some(true),
        },
    }
}

/// The announcement that a device makes of itself.
pub fn announcement(identity: &DeviceInfo) -> (out: MulticastAnnounce)
    ensures
        out@ == self_announcement(identity@),
{
    MulticastAnnounce::from(
        MulticastCommon::new(
            identity.clone(),
            Port::new(LOCALSEND_PORT),
            Protocol::Http,
            Some(PreferDownload::new(true)),
        ),
    )
}

/// The announcement that a device makes of itself, as the text of a
/// datagram.
pub fn announcement_text(identity: &DeviceInfo) -> (out: String)
    ensures
        out@ == json_printed(self_announcement(identity@).encode()),
{
    announcement(identity).to_json().print()
}

/// What a session of discovery is to do next.
#[derive(Debug, PartialEq, Eq)]
pub enum DiscoveryAction {
    /// Send the text to the multicast group. Whether or not that works, ask
    /// again afterwards.
    Announce(String),
    /// Wait for a datagram, but no longer than until the given time, in
    /// milliseconds. Then hand in what arrived, if anything, and ask again.
    Listen(u64),
    /// Stop: the time is up. Release the socket and take the registry.
    Finish,
}

/// The content of a [`DiscoveryAction`].
pub ghost enum DiscoveryActionView {
    Announce(Seq<char>),
    Listen(u64),
    Finish,
}

impl View for DiscoveryAction {
    type V = DiscoveryActionView;

    open spec fn view(&self) -> DiscoveryActionView {
        match self {
            DiscoveryAction::Announce(text) => DiscoveryActionView::Announce(text@),
            DiscoveryAction::Listen(until) => DiscoveryActionView::Listen(*until),
            DiscoveryAction::Finish => DiscoveryActionView::Finish,
        }
    }
}

/// The content of a [`DiscoverySession`]. All times are in milliseconds, by
/// the caller's clock.
pub ghost struct DiscoverySessionView {
    /// Who this device is.
    pub identity: DeviceInfoView,
    /// Whether this device only listens.
    pub silent: bool,
    /// When the session ends.
    pub deadline: u64,
    /// How long to wait from one announcement to the next.
    pub interval: u64,
    /// When the next announcement is due.
    pub next_announce: u64,
    /// The peers heard so far.
    pub peers: PeersMapView,
    /// Whether the session has ended.
    pub over: bool,
}

impl DiscoverySessionView {
    pub open spec fn wf(self) -> bool {
        &&& self.peers.wf()
        &&& self.peers.local == self.identity.fingerprint
    }

    /// The session as it begins at `now`: it ends when the timeout has run
    /// out, the first announcement is due at once, and no peer is known.
    pub open spec fn begun(identity: DeviceInfoView, args: DiscoverArgsView, now: u64) -> DiscoverySessionView {
        DiscoverySessionView {
            identity,
            silent: args.silent,
            deadline: later(now, millis(args.timeout)),
            interval: millis(args.announce_interval),
            next_announce: now,
            peers: PeersMapView { local: identity.fingerprint, peers: Seq::empty() },
            over: false,
        }
    }

    /// Whether the session is over at `now`: it has ended before, or its
    /// time is up.
    pub open spec fn over_at(self, now: u64) -> bool {
        self.over || now >= self.deadline
    }

    /// Whether an announcement is due at `now`.
    pub open spec fn announce_due(self, now: u64) -> bool {
        !self.silent && now >= self.next_announce
    }

    /// What is to be done at `now`.
    ///
    /// Once the time is up the answer is to stop, and it stays so. Before
    /// that a device that does not keep silent announces itself whenever an
    /// announcement is due. Otherwise it listens, until the next
    /// announcement is due or the time is up, whichever comes first.
    pub open spec fn action(self, now: u64) -> DiscoveryActionView {
        if self.over_at(now) {
            DiscoveryActionView::Finish
        } else if self.announce_due(now) {
            DiscoveryActionView::Announce(json_printed(self_announcement(self.identity).encode()))
        } else if self.silent || self.deadline <= self.next_announce {
            DiscoveryActionView::Listen(self.deadline)
        } else {
            DiscoveryActionView::Listen(self.next_announce)
        }
    }

    /// The session after it was asked at `now` what to do. An announcement
    /// puts off the next one by the full interval, whether or not it gets
    /// through.
    pub open spec fn polled(self, now: u64) -> DiscoverySessionView {
        if self.over_at(now) {
            DiscoverySessionView { over: true, ..self }
        } else if self.announce_due(now) {
            DiscoverySessionView { next_announce: later(now, self.interval), ..self }
        } else {
            self
        }
    }

    /// The session after a datagram that arrived from `source` at `now`. A
    /// datagram that arrives when the session is over is not looked at.
    pub open spec fn heard(self, source: [u8; 4], payload: Seq<u8>, now: u64) -> DiscoverySessionView {
        if self.over_at(now) {
            self
        } else {
            DiscoverySessionView { peers: self.peers.heard(source, payload, now), ..self }
        }
    }

    /// A session that is over stays over: it says to stop whenever it is
    /// asked, and no datagram changes what it has heard.
    pub proof fn lemma_over_stays(self, now: u64, source: [u8; 4], payload: Seq<u8>)
        requires
            self.over,
        ensures
            self.action(now) == DiscoveryActionView::Finish,
            self.polled(now) == self,
            self.heard(source, payload, now) == self,
    {
    }

    /// A session is bounded by its deadline: asked at the deadline or
    /// later, it says to stop, and is over from then on. Before the
    /// deadline it never says to wait beyond it.
    pub proof fn lemma_bounded(self, now: u64)
        ensures
            now >= self.deadline ==> self.action(now) == DiscoveryActionView::Finish && self.polled(
                now,
            ).over,
            self.action(now) is Listen ==> now < self.action(now)->Listen_0 <= self.deadline,
    {
    }

    /// A device that keeps silent never announces itself.
    pub proof fn lemma_silent(self, now: u64)
        requires
            self.silent,
        ensures
            !(self.action(now) is Announce),
    {
    }

    /// A session never has this device itself among its peers, and a peer
    /// that it has heard stays on record until the end.
    pub proof fn lemma_heard(self, source: [u8; 4], payload: Seq<u8>, now: u64, fingerprint: Seq<char>)
        requires
            self.wf(),
        ensures
            self.heard(source, payload, now).wf(),
            !self.heard(source, payload, now).peers.holds(self.identity.fingerprint),
            self.peers.holds(fingerprint) ==> self.heard(source, payload, now).peers.holds(fingerprint),
    {
        let after = self.heard(source, payload, now).peers;
        if !self.over_at(now) {
            match PeersMapView::message_in(payload) {
                Some(message) => {
                    self.peers.lemma_observed(source, message, now);
                    if self.peers.holds(fingerprint) {
                        let at = choose|i: int|
                            0 <= i < self.peers.peers.len() && #[trigger] self.peers.peers[i].fingerprint()
                                == fingerprint;
                        match self.peers.sighting(message) {
                            Sighting::Own => {},
                            Sighting::Known => {
                                self.peers.lemma_position(message.fingerprint());
                                assert(after.peers[at].fingerprint() == fingerprint);
                            },
                            Sighting::New => {
                                assert(after.peers[at].fingerprint() == fingerprint);
                            },
                        }
                    }
                },
                None => {},
            }
        }
    }
}

/// What is done with a session: it is asked what to do next, or a datagram
/// is handed to it.
pub ghost enum SessionStep {
    Poll(u64),
    Hear([u8; 4], Seq<u8>, u64),
}

impl DiscoverySessionView {
    /// The session after one step.
    pub open spec fn stepped(self, step: SessionStep) -> DiscoverySessionView {
        match step {
            SessionStep::Poll(now) => self.polled(now),
            SessionStep::Hear(source, payload, now) => self.heard(source, payload, now),
        }
    }

    /// The session after a run of steps, one after the other.
    pub open spec fn ran(self, steps: Seq<SessionStep>) -> DiscoverySessionView
        decreases steps.len(),
    {
        if steps.len() == 0 {
            self
        } else {
            self.ran(steps.drop_last()).stepped(steps.last())
        }
    }

    /// Whatever is done with a session, and in whatever order: its deadline
    /// stays where it was, this device is never among its peers, a peer that
    /// was heard is on record at the end, and a session that is over is left
    /// as it is.
    pub proof fn lemma_ran(self, steps: Seq<SessionStep>, fingerprint: Seq<char>)
        requires
            self.wf(),
        ensures
            self.ran(steps).wf(),
            self.ran(steps).deadline == self.deadline,
            self.ran(steps).identity == self.identity,
            !self.ran(steps).peers.holds(self.identity.fingerprint),
            self.peers.holds(fingerprint) ==> self.ran(steps).peers.holds(fingerprint),
            self.over ==> self.ran(steps) == self,
        decreases steps.len(),
    {
        if steps.len() > 0 {
            let before = self.ran(steps.drop_last());
            self.lemma_ran(steps.drop_last(), fingerprint);
            match steps.last() {
                SessionStep::Poll(now) => {},
                SessionStep::Hear(source, payload, now) => {
                    before.lemma_heard(source, payload, now, fingerprint);
                },
            }
        }
    }
}

/// One session of discovery: who this device is, how long to look, and the
/// peers heard so far.
#[derive(Debug)]
pub struct DiscoverySession {
    identity: DeviceInfo,
    silent: bool,
    deadline: u64,
    interval: u64,
    next_announce: u64,
    peers: PeersMap,
    over: bool,
}

impl View for DiscoverySession {
    type V = DiscoverySessionView;

    closed spec fn view(&self) -> DiscoverySessionView {
        DiscoverySessionView {
            identity: self.identity@,
            silent: self.silent,
            deadline: self.deadline,
            interval: self.interval,
            next_announce: self.next_announce,
            peers: self.peers@,
            over: self.over,
        }
    }
}

impl DiscoverySession {
    /// What every session keeps to: its registry keeps to its rules, and
    /// is that of this device.
    pub open spec fn wf(&self) -> bool {
        self@.wf()
    }

    /// Begins a session at `now`, in milliseconds by the caller's clock.
    pub fn begin(identity: DeviceInfo, args: &DiscoverArgs, now: u64) -> (out: DiscoverySession)
        ensures
            out.wf(),
            out@ == DiscoverySessionView::begun(identity@, args@, now),
    {
        let peers = PeersMap::new(identity.fingerprint().clone());
        assert(peers@.peers =~= Seq::empty());
        DiscoverySession {
            silent: args.silent(),
            deadline: now.saturating_add(to_millis(args.timeout())),
            interval: to_millis(args.announce_interval()),
            next_announce: now,
            peers,
            over: false,
            identity,
        }
    }

    /// When the session ends.
    pub fn deadline(&self) -> (out: u64)
        ensures
            out == self@.deadline,
    {
        self.deadline
    }

    /// Whether the session has ended.
    pub fn is_over(&self) -> (out: bool)
        ensures
            out == self@.over,
    {
        self.over
    }

    /// The peers heard so far.
    pub fn peers(&self) -> (out: &PeersMap)
        ensures
            out@ == self@.peers,
    {
        &self.peers
    }

    /// Says what is to be done at `now`.
    pub fn poll(&mut self, now: u64) -> (out: DiscoveryAction)
        requires
            old(self).wf(),
        ensures
            final(self).wf(),
            out@ == old(self)@.action(now),
            final(self)@ == old(self)@.polled(now),
    {
        if self.over || now >= self.deadline {
            self.over = true;
            DiscoveryAction::Finish
        } else if !self.silent && now >= self.next_announce {
            self.next_announce = now.saturating_add(self.interval);
            DiscoveryAction::Announce(announcement_text(&self.identity))
        } else if self.silent || self.deadline <= self.next_announce {
            DiscoveryAction::Listen(self.deadline)
        } else {
            DiscoveryAction::Listen(self.next_announce)
        }
    }

    /// Takes note of a datagram that arrived from `source` at `now`, and
    /// says what it turned out to be; `None` where the session is over and
    /// the datagram was not looked at.
    pub fn hear(&mut self, source: [u8; 4], payload: &[u8], now: u64) -> (out: Option<Datagram>)
        requires
            old(self).wf(),
        ensures
            final(self).wf(),
            final(self)@ == old(self)@.heard(source, payload@, now),
            out is None <==> old(self)@.over_at(now),
            out is Some ==> out->0 == match PeersMapView::message_in(payload@) {
                Some(message) => Datagram::Message(old(self)@.peers.sighting(message)),
                None => if valid_utf8(payload@) {
                    Datagram::NotAMessage
                } else {
                    Datagram::NotText
                },
            },
    {
        if self.over || now >= self.deadline {
            None
        } else {
            Some(self.peers.hear(source, payload, now))
        }
    }

    /// Ends the session and hands out what it has heard: the registry as it
    /// stands.
    pub fn finish(self) -> (out: PeersMap)
        requires
            self.wf(),
        ensures
            out.wf(),
            out@ == self@.peers,
    {
        self.peers
    }
}

} // verus!
