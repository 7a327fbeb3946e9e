//! What LAN peers say to each other: the UDP discovery beacon and the
//! length-prefixed JSON frames of a TCP session.

use vstd::prelude::*;
use vstd::string::*;
use vstd::utf8::encode_utf8;
use crate::json::{
    decimal_text, json_parsed, json_quoted, push_decimal, push_quoted, text_at, unsigned_at,
    JsonDoc, JsonNodeView,
};
use crate::text::{owned, str_eq};

verus! {

/// UDP port on which beacons are sent and heard.
pub const DEFAULT_DISCOVERY_PORT: u16 = 52741;

/// TCP port on which a peer accepts sessions.
pub const DEFAULT_TCP_PORT: u16 = 52742;

/// Seconds between two beacons.
pub const DISCOVERY_INTERVAL_SECS: u64 = 3;

/// Seconds between two pings.
pub const HEARTBEAT_INTERVAL_SECS: u64 = 5;

/// Seconds without a pong after which a session is dead.
pub const HEARTBEAT_TIMEOUT_SECS: u64 = 15;

/// Longest wait between two connection attempts, in seconds.
pub const MAX_RECONNECT_DELAY_SECS: u64 = 30;

/// First wait between two connection attempts, in seconds.
pub const INITIAL_RECONNECT_DELAY_SECS: u64 = 1;

/// Largest frame body, 16 MiB.
pub const MAX_FRAME_SIZE: u32 = 16777216;

/// Largest datagram that the listener takes in.
pub const MAX_DATAGRAM_SIZE: usize = 2048;

/// The eight bytes `RSCV_LAN` that open every beacon datagram.
pub const DISCOVERY_MAGIC: [u8; 8] = [82, 83, 67, 86, 95, 76, 65, 78];

/// The magic as a sequence.
pub open spec fn discovery_magic() -> Seq<u8> {
    seq![82u8, 83u8, 67u8, 86u8, 95u8, 76u8, 65u8, 78u8]
}

/// Periodic announcement of a peer's presence.
#[derive(Debug, Clone, PartialEq, Eq)]
pub struct DiscoveryBeacon {
    pub device_id: String,
    pub device_name: String,
    /// Where the peer accepts TCP sessions.
    pub tcp_port: u16,
    /// Counts the beacons sent; wraps.
    pub seq: u64,
}

pub struct DiscoveryBeaconView {
    pub device_id: Seq<char>,
    pub device_name: Seq<char>,
    pub tcp_port: u16,
    pub seq: u64,
}

impl View for DiscoveryBeacon {
    type V = DiscoveryBeaconView;

    open spec fn view(&self) -> DiscoveryBeaconView {
        DiscoveryBeaconView {
            device_id: self.device_id@,
            device_name: self.device_name@,
            tcp_port: self.tcp_port,
            seq: self.seq,
        }
    }
}

/// One message of a TCP session.
#[derive(Debug, Clone, PartialEq, Eq)]
pub enum PeerMessage {
    /// First message of the connecting side.
    Hello { device_id: String, device_name: String },
    /// The accepting side's answer to `Hello`.
    Welcome { device_id: String, device_name: String },
    Ping { ts: u64 },
    Pong { ts: u64 },
    Clipboard { content_type: String, data: String },
}

pub enum PeerMessageView {
    Hello { device_id: Seq<char>, device_name: Seq<char> },
    Welcome { device_id: Seq<char>, device_name: Seq<char> },
    Ping { ts: u64 },
    Pong { ts: u64 },
    Clipboard { content_type: Seq<char>, data: Seq<char> },
}

impl View for PeerMessage {
    type V = PeerMessageView;

    open spec fn view(&self) -> PeerMessageView {
        match self {
            PeerMessage::Hello { device_id, device_name } => PeerMessageView::Hello {
                device_id: device_id@,
                device_name: device_name@,
            },
            PeerMessage::Welcome { device_id, device_name } => PeerMessageView::Welcome {
                device_id: device_id@,
                device_name: device_name@,
            },
            PeerMessage::Ping { ts } => PeerMessageView::Ping { ts: *ts },
            PeerMessage::Pong { ts } => PeerMessageView::Pong { ts: *ts },
            PeerMessage::Clipboard { content_type, data } => PeerMessageView::Clipboard {
                content_type: content_type@,
                data: data@,
            },
        }
    }
}

/// A peer heard on the LAN.
#[derive(Debug, Clone, PartialEq, Eq)]
pub struct DiscoveredPeer {
    pub device_id: String,
    pub device_name: String,
    /// IPv4 address, without port.
    pub addr: String,
    pub tcp_port: u16,
    /// Unix time of the last beacon, in seconds.
    pub last_seen: u64,
}

pub struct DiscoveredPeerView {
    pub device_id: Seq<char>,
    pub device_name: Seq<char>,
    pub addr: Seq<char>,
    pub tcp_port: u16,
    pub last_seen: u64,
}

impl View for DiscoveredPeer {
    type V = DiscoveredPeerView;

    open spec fn view(&self) -> DiscoveredPeerView {
        DiscoveredPeerView {
            device_id: self.device_id@,
            device_name: self.device_name@,
            addr: self.addr@,
            tcp_port: self.tcp_port,
            last_seen: self.last_seen,
        }
    }
}

impl DiscoveredPeer {
    /// A copy of this entry.
    pub fn duplicate(&self) -> (r: DiscoveredPeer)
        ensures
            r@ == self@,
    {
        DiscoveredPeer {
            device_id: self.device_id.clone(),
            device_name: self.device_name.clone(),
            addr: self.addr.clone(),
            tcp_port: self.tcp_port,
            last_seen: self.last_seen,
        }
    }
}

/// JSON text of a beacon.
pub open spec fn beacon_text(b: DiscoveryBeaconView) -> Seq<char> {
    "{\"device_id\":"@ + json_quoted(b.device_id) + ",\"device_name\":"@ + json_quoted(
        b.device_name,
    ) + ",\"tcp_port\":"@ + decimal_text(b.tcp_port as nat) + ",\"seq\":"@ + decimal_text(
        b.seq as nat,
    ) + "}"@
}

/// The datagram of a beacon: the magic, then its JSON text in UTF-8.
pub open spec fn beacon_datagram(b: DiscoveryBeaconView) -> Seq<u8> {
    discovery_magic() + encode_utf8(beacon_text(b))
}

fn magic_bytes() -> (r: Vec<u8>)
    ensures
        r@ == discovery_magic(),
{
    let mut r: Vec<u8> = Vec::new();
    let mut i: usize = 0;
    while i < 8
        invariant
            i <= 8,
            r@ == discovery_magic().subrange(0, i as int),
        decreases 8 - i,
    {
        r.push(DISCOVERY_MAGIC[i]);
        i += 1;
        assert(r@ =~= discovery_magic().subrange(0, i as int));
    }
    assert(r@ =~= discovery_magic());
    r
}

/// Writes a beacon as the datagram to broadcast.
pub fn encode_beacon(beacon: &DiscoveryBeacon) -> (r: Vec<u8>)
    ensures
        r@ == beacon_datagram(beacon@),
{
    let mut text = owned("{\"device_id\":");
    push_quoted(&mut text, beacon.device_id.as_str());
    text.append(",\"device_name\":");
    push_quoted(&mut text, beacon.device_name.as_str());
    text.append(",\"tcp_port\":");
    push_decimal(&mut text, beacon.tcp_port as u64);
    text.append(",\"seq\":");
    push_decimal(&mut text, beacon.seq);
    text.append("}");
    let mut body = text.as_str().as_bytes_vec();
    let mut out = magic_bytes();
    out.append(&mut body);
    out
}

/// The beacon in a parsed JSON document: both names as strings, the port as
/// an integer up to 65535, the count as an integer up to `u64::MAX`.
pub open spec fn beacon_of(nodes: Map<Seq<char>, JsonNodeView>) -> Option<DiscoveryBeaconView> {
    if text_at(nodes, "/device_id"@) is Some && text_at(nodes, "/device_name"@) is Some
        && unsigned_at(nodes, "/tcp_port"@) is Some && unsigned_at(nodes, "/tcp_port"@)->0 <= 65535
        && unsigned_at(nodes, "/seq"@) is Some {
        Some(
            DiscoveryBeaconView {
                device_id: text_at(nodes, "/device_id"@)->0,
                device_name: text_at(nodes, "/device_name"@)->0,
                tcp_port: unsigned_at(nodes, "/tcp_port"@)->0 as u16,
                seq: unsigned_at(nodes, "/seq"@)->0,
            },
        )
    } else {
        None
    }
}

/// The beacon in a datagram: none unless the datagram is longer than the
/// magic, starts with it, and goes on with the JSON of a beacon.
pub open spec fn beacon_of_datagram(data: Seq<u8>) -> Option<DiscoveryBeaconView> {
    if data.len() <= 8 || data.subrange(0, 8) != discovery_magic() {
        None
    } else {
        match json_parsed(data.subrange(8, data.len() as int)) {
            Some(nodes) => beacon_of(nodes),
            None => None,
        }
    }
}

/// `r` is `expected`.
pub open spec fn beacon_matches(r: Option<DiscoveryBeacon>, expected: Option<DiscoveryBeaconView>)
    -> bool {
    match r {
        Some(b) => expected == Some(b@),
        None => expected is None,
    }
}

/// Reads the beacon out of a parsed JSON document.
pub fn beacon_from_document(doc: &JsonDoc) -> (r: Option<DiscoveryBeacon>)
    ensures
        beacon_matches(r, beacon_of(doc.nodes())),
{
    let device_id = doc.text("/device_id");
    let device_name = doc.text("/device_name");
    let tcp_port = doc.unsigned("/tcp_port");
    let seq = doc.unsigned("/seq");
    if let (Some(device_id), Some(device_name), Some(tcp_port), Some(seq)) = (
        device_id,
        device_name,
        tcp_port,
        seq,
    ) {
        if tcp_port <= 65535 {
            return Some(DiscoveryBeacon { device_id, device_name, tcp_port: tcp_port as u16, seq });
        }
    }
    None
}

/// Whether `data` starts with the magic.
pub fn has_magic(data: &[u8]) -> (r: bool)
    ensures
        r == (data@.len() >= 8 && data@.subrange(0, 8) == discovery_magic()),
{
    if data.len() < 8 {
        return false;
    }
    let mut i: usize = 0;
    while i < 8
        invariant
            i <= 8,
            data@.len() >= 8,
            data@.subrange(0, i as int) == discovery_magic().subrange(0, i as int),
        decreases 8 - i,
    {
        if data[i] != DISCOVERY_MAGIC[i] {
            assert(data@.subrange(0, 8)[i as int] != discovery_magic()[i as int]);
            return false;
        }
        i += 1;
        assert(data@.subrange(0, i as int) =~= discovery_magic().subrange(0, i as int));
    }
    assert(discovery_magic().subrange(0, 8) =~= discovery_magic());
    true
}

/// Reads a beacon out of a datagram; `None` for foreign traffic.
pub fn decode_beacon(data: &[u8]) -> (r: Option<DiscoveryBeacon>)
    ensures
        beacon_matches(r, beacon_of_datagram(data@)),
{
    if data.len() <= 8 || !has_magic(data) {
        return None;
    }
    let body = vstd::slice::slice_subrange(data, 8, data.len());
    match JsonDoc::parse(body) {
        Some(doc) => beacon_from_document(&doc),
        None => None,
    }
}

/// JSON text of a session message: the tag first, then the fields.
pub open spec fn peer_message_text(m: PeerMessageView) -> Seq<char> {
    match m {
        PeerMessageView::Hello { device_id, device_name } => "{\"type\":\"Hello\",\"device_id\":"@
            + json_quoted(device_id) + ",\"device_name\":"@ + json_quoted(device_name) + "}"@,
        PeerMessageView::Welcome {
            device_id,
            device_name,
        } => "{\"type\":\"Welcome\",\"device_id\":"@ + json_quoted(device_id)
            + ",\"device_name\":"@ + json_quoted(device_name) + "}"@,
        PeerMessageView::Ping { ts } => "{\"type\":\"Ping\",\"ts\":"@ + decimal_text(ts as nat)
            + "}"@,
        PeerMessageView::Pong { ts } => "{\"type\":\"Pong\",\"ts\":"@ + decimal_text(ts as nat)
            + "}"@,
        PeerMessageView::Clipboard {
            content_type,
            data,
        } => "{\"type\":\"Clipboard\",\"content_type\":"@ + json_quoted(content_type)
            + ",\"data\":"@ + json_quoted(data) + "}"@,
    }
}

/// Writes a session message as JSON text.
pub fn peer_message_json(msg: &PeerMessage) -> (r: String)
    ensures
        r@ == peer_message_text(msg@),
{
    match msg {
        PeerMessage::Hello { device_id, device_name } => {
            let mut out = owned("{\"type\":\"Hello\",\"device_id\":");
            push_quoted(&mut out, device_id.as_str());
            out.append(",\"device_name\":");
            push_quoted(&mut out, device_name.as_str());
            out.append("}");
            out
        },
        PeerMessage::Welcome { device_id, device_name } => {
            let mut out = owned("{\"type\":\"Welcome\",\"device_id\":");
            push_quoted(&mut out, device_id.as_str());
            out.append(",\"device_name\":");
            push_quoted(&mut out, device_name.as_str());
            out.append("}");
            out
        },
        PeerMessage::Ping { ts } => {
            let mut out = owned("{\"type\":\"Ping\",\"ts\":");
            push_decimal(&mut out, *ts);
            out.append("}");
            out
        },
        PeerMessage::Pong { ts } => {
            let mut out = owned("{\"type\":\"Pong\",\"ts\":");
            push_decimal(&mut out, *ts);
            out.append("}");
            out
        },
        PeerMessage::Clipboard { content_type, data } => {
            let mut out = owned("{\"type\":\"Clipboard\",\"content_type\":");
            push_quoted(&mut out, content_type.as_str());
            out.append(",\"data\":");
            push_quoted(&mut out, data.as_str());
            out.append("}");
            out
        },
    }
}

/// The four bytes of `n`, most significant first.
pub open spec fn be32(n: u32) -> Seq<u8> {
    seq![
        (n / 16777216) as u8,
        ((n / 65536) % 256) as u8,
        ((n / 256) % 256) as u8,
        (n % 256) as u8,
    ]
}

/// The number that four bytes spell, most significant first.
pub open spec fn be32_value(b: Seq<u8>) -> int
    recommends
        b.len() == 4,
{
    b[0] * 16777216 + b[1] * 65536 + b[2] * 256 + b[3]
}

/// Reading the length prefix gives back the number that was written.
pub proof fn lemma_be32_round_trip(n: u32)
    ensures
        be32(n).len() == 4,
        be32_value(be32(n)) == n,
{
}

/// A body with its length in front.
pub open spec fn frame_of(body: Seq<u8>) -> Seq<u8>
    recommends
        body.len() <= MAX_FRAME_SIZE,
{
    be32(body.len() as u32) + body
}

/// Puts the length prefix in front of a frame body. `None` for a body over
/// [`MAX_FRAME_SIZE`], which no receiver would take.
pub fn frame(body: Vec<u8>) -> (r: Option<Vec<u8>>)
    ensures
        match r {
            Some(f) => body@.len() <= MAX_FRAME_SIZE && f@ == frame_of(body@),
            None => body@.len() > MAX_FRAME_SIZE,
        },
{
    let mut body = body;
    if body.len() > MAX_FRAME_SIZE as usize {
        return None;
    }
    let n: u32 = body.len() as u32;
    let mut out: Vec<u8> = Vec::new();
    out.push((n / 16777216) as u8);
    out.push(((n / 65536) % 256) as u8);
    out.push(((n / 256) % 256) as u8);
    out.push((n % 256) as u8);
    assert(out@ =~= be32(n));
    out.append(&mut body);
    Some(out)
}

/// The frame of a session message: four bytes of length, most significant
/// first, then the JSON text in UTF-8. None where the text is over
/// [`MAX_FRAME_SIZE`].
pub open spec fn frame_for(m: PeerMessageView) -> Option<Seq<u8>> {
    let body = encode_utf8(peer_message_text(m));
    if body.len() <= MAX_FRAME_SIZE {
        Some(frame_of(body))
    } else {
        None
    }
}

/// A ping and a pong always fit a frame.
pub proof fn lemma_heartbeat_fits(ts: u64)
    ensures
        frame_for(PeerMessageView::Ping { ts }) is Some,
        frame_for(PeerMessageView::Pong { ts }) is Some,
{
    reveal_strlit("{\"type\":\"Ping\",\"ts\":");
    reveal_strlit("{\"type\":\"Pong\",\"ts\":");
    reveal_strlit("}");
    crate::json::lemma_decimal_text_u64(ts);
    let ping = peer_message_text(PeerMessageView::Ping { ts });
    let pong = peer_message_text(PeerMessageView::Pong { ts });
    assert(ping.len() <= 42 && vstd::utf8::is_ascii_chars(ping));
    assert(pong.len() <= 42 && vstd::utf8::is_ascii_chars(pong));
    vstd::utf8::is_ascii_chars_encode_utf8(ping);
    vstd::utf8::is_ascii_chars_encode_utf8(pong);
}

/// `r` is `expected`.
pub open spec fn bytes_match(r: Option<Vec<u8>>, expected: Option<Seq<u8>>) -> bool {
    match r {
        Some(f) => expected == Some(f@),
        None => expected is None,
    }
}

/// Writes a session message as a frame. `None` where its text is over
/// [`MAX_FRAME_SIZE`].
pub fn encode_peer_message(msg: &PeerMessage) -> (r: Option<Vec<u8>>)
    ensures
        bytes_match(r, frame_for(msg@)),
{
    let text = peer_message_json(msg);
    frame(text.as_str().as_bytes_vec())
}

/// Why an inbound frame is refused.
#[derive(Debug, Clone, Copy, PartialEq, Eq, Structural)]
pub enum FrameError {
    /// The length prefix announces more than [`MAX_FRAME_SIZE`] bytes.
    TooLarge { length: u32 },
}

/// Reads the length prefix of an inbound frame. A length over
/// [`MAX_FRAME_SIZE`] is an error, so that the caller closes the session
/// before it reserves room for the body.
pub fn frame_length(header: [u8; 4]) -> (r: Result<u32, FrameError>)
    ensures
        match r {
            Ok(n) => n == be32_value(header@) && n <= MAX_FRAME_SIZE,
            Err(FrameError::TooLarge { length }) => length == be32_value(header@) && length
                > MAX_FRAME_SIZE,
        },
{
    let b0: u32 = header[0] as u32;
    let b1: u32 = header[1] as u32;
    let b2: u32 = header[2] as u32;
    let b3: u32 = header[3] as u32;
    let length: u32 = b0 * 16777216 + b1 * 65536 + b2 * 256 + b3;
    if length > MAX_FRAME_SIZE {
        Err(FrameError::TooLarge { length })
    } else {
        Ok(length)
    }
}

/// The two names of a handshake message, where both are strings.
pub open spec fn names_of(nodes: Map<Seq<char>, JsonNodeView>) -> Option<(Seq<char>, Seq<char>)> {
    if text_at(nodes, "/device_id"@) is Some && text_at(nodes, "/device_name"@) is Some {
        Some((text_at(nodes, "/device_id"@)->0, text_at(nodes, "/device_name"@)->0))
    } else {
        None
    }
}

/// The session message in a parsed JSON document: the `type` names the
/// variant, and each of its fields must be there in its type.
pub open spec fn peer_message_of(nodes: Map<Seq<char>, JsonNodeView>) -> Option<PeerMessageView> {
    match text_at(nodes, "/type"@) {
        None => None,
        Some(tag) => if tag == "Hello"@ {
            match names_of(nodes) {
                Some((device_id, device_name)) => Some(
                    PeerMessageView::Hello { device_id, device_name },
                ),
                None => None,
            }
        } else if tag == "Welcome"@ {
            match names_of(nodes) {
                Some((device_id, device_name)) => Some(
                    PeerMessageView::Welcome { device_id, device_name },
                ),
                None => None,
            }
        } else if tag == "Ping"@ {
            match unsigned_at(nodes, "/ts"@) {
                Some(ts) => Some(PeerMessageView::Ping { ts }),
                None => None,
            }
        } else if tag == "Pong"@ {
            match unsigned_at(nodes, "/ts"@) {
                Some(ts) => Some(PeerMessageView::Pong { ts }),
                None => None,
            }
        } else if tag == "Clipboard"@ {
            if text_at(nodes, "/content_type"@) is Some && text_at(nodes, "/data"@) is Some {
                Some(
                    PeerMessageView::Clipboard {
                        content_type: text_at(nodes, "/content_type"@)->0,
                        data: text_at(nodes, "/data"@)->0,
                    },
                )
            } else {
                None
            }
        } else {
            None
        },
    }
}

/// The session message in a frame body.
pub open spec fn peer_message_of_body(body: Seq<u8>) -> Option<PeerMessageView> {
    match json_parsed(body) {
        Some(nodes) => peer_message_of(nodes),
        None => None,
    }
}

/// `r` is `expected`.
pub open spec fn peer_message_matches(r: Option<PeerMessage>, expected: Option<PeerMessageView>)
    -> bool {
    match r {
        Some(m) => expected == Some(m@),
        None => expected is None,
    }
}

fn read_names(doc: &JsonDoc) -> (r: Option<(String, String)>)
    ensures
        match r {
            Some((id, name)) => names_of(doc.nodes()) == Some((id@, name@)),
            None => names_of(doc.nodes()) is None,
        },
{
    let device_id = doc.text("/device_id");
    let device_name = doc.text("/device_name");
    if let (Some(device_id), Some(device_name)) = (device_id, device_name) {
        Some((device_id, device_name))
    } else {
        None
    }
}

/// Reads the session message out of a parsed JSON document.
pub fn peer_message_from_document(doc: &JsonDoc) -> (r: Option<PeerMessage>)
    ensures
        peer_message_matches(r, peer_message_of(doc.nodes())),
{
    let tag = match doc.text("/type") {
        Some(tag) => tag,
        None => { return None; },
    };
    if str_eq(tag.as_str(), "Hello") {
        match read_names(doc) {
            Some((device_id, device_name)) => Some(PeerMessage::Hello { device_id, device_name }),
            None => None,
        }
    } else if str_eq(tag.as_str(), "Welcome") {
        match read_names(doc) {
            Some((device_id, device_name)) => Some(PeerMessage::Welcome { device_id, device_name }),
            None => None,
        }
    } else if str_eq(tag.as_str(), "Ping") {
        match doc.unsigned("/ts") {
            Some(ts) => Some(PeerMessage::Ping { ts }),
            None => None,
        }
    } else if str_eq(tag.as_str(), "Pong") {
        match doc.unsigned("/ts") {
            Some(ts) => Some(PeerMessage::Pong { ts }),
            None => None,
        }
    } else if str_eq(tag.as_str(), "Clipboard") {
        let content_type = doc.text("/content_type");
        let data = doc.text("/data");
        if let (Some(content_type), Some(data)) = (content_type, data) {
            Some(PeerMessage::Clipboard { content_type, data })
        } else {
            None
        }
    } else {
        None
    }
}

/// Reads the session message out of a frame body.
pub fn decode_peer_message(body: &[u8]) -> (r: Option<PeerMessage>)
    ensures
        peer_message_matches(r, peer_message_of_body(body@)),
{
    match JsonDoc::parse(body) {
        Some(doc) => peer_message_from_document(&doc),
        None => None,
    }
}

/// The name of a message's variant.
pub open spec fn type_name_of(m: PeerMessageView) -> Seq<char> {
    match m {
        PeerMessageView::Hello { .. } => "Hello"@,
        PeerMessageView::Welcome { .. } => "Welcome"@,
        PeerMessageView::Ping { .. } => "Ping"@,
        PeerMessageView::Pong { .. } => "Pong"@,
        PeerMessageView::Clipboard { .. } => "Clipboard"@,
    }
}

/// The name of a message's variant, for log lines.
pub fn msg_type_name(msg: &PeerMessage) -> (r: &'static str)
    ensures
        r@ == type_name_of(msg@),
{
    match msg {
        PeerMessage::Hello { .. } => "Hello",
        PeerMessage::Welcome { .. } => "Welcome",
        PeerMessage::Ping { .. } => "Ping",
        PeerMessage::Pong { .. } => "Pong",
        PeerMessage::Clipboard { .. } => "Clipboard",
    }
}

} // verus!
