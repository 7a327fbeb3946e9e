//! Serverless mode: peers find each other by UDP broadcast and talk over one
//! TCP session per pair.
//!
//! This module holds what ties the parts together: the name a peer goes by
//! and the connector that decides, at each scan of the peer table, which
//! sessions to open.

pub mod discovery;
pub mod peer;
pub mod protocol;
pub mod session;

use vstd::prelude::*;
use vstd::string::*;
use crate::events::{
    emit, events_view, log_event, log_view, no_events, Level, RuntimeEvent, RuntimeEventView,
};
use crate::json::{decimal_text, push_decimal};
use crate::lan::peer::{initiates, should_initiate};
use crate::config::{clamp_image_kb, clamped_image_kb, Config, ConfigView};
use crate::events::{log_line, status_view};
use crate::lan::protocol::{
    DiscoveredPeer, DiscoveredPeerView, DEFAULT_DISCOVERY_PORT, DEFAULT_TCP_PORT,
};
use crate::text::{concat2, owned, str_eq};

verus! {

/// Seconds between two scans of the peer table.
pub const CONNECTOR_SCAN_INTERVAL_SECS: u64 = 4;

/// Logged whenever LAN mode starts.
pub const LAN_SECURITY_WARNING: &'static str =
    "LAN mode has no authentication or encryption. Only use on trusted networks. Any device on this network segment can discover this peer and exchange clipboard data.";

/// The first eight characters of a device id, or all of a shorter one.
pub open spec fn id_prefix(device_id: Seq<char>) -> Seq<char> {
    if device_id.len() <= 8 {
        device_id
    } else {
        device_id.subrange(0, 8)
    }
}

/// The name a peer goes by: the configured one unless it is empty, else the
/// host name where the system gives one, else `RSCV-` and the first eight
/// characters of the device id.
pub open spec fn device_name_of(
    configured: Seq<char>,
    hostname: Option<Seq<char>>,
    device_id: Seq<char>,
) -> Seq<char> {
    if configured.len() > 0 {
        configured
    } else {
        match hostname {
            Some(h) => h,
            None => "RSCV-"@ + id_prefix(device_id),
        }
    }
}

/// Picks the name a peer goes by.
pub fn resolve_device_name(configured: &str, hostname: Option<String>, device_id: &str) -> (r:
    String)
    ensures
        r@ == device_name_of(
            configured@,
            match hostname {
                Some(h) => Some(h@),
                None => None,
            },
            device_id@,
        ),
{
    if !configured.is_empty() {
        return owned(configured);
    }
    match hostname {
        Some(h) => h,
        None => {
            let n = device_id.unicode_len();
            if n <= 8 {
                concat2("RSCV-", device_id)
            } else {
                concat2("RSCV-", device_id.substring_char(0, 8))
            }
        },
    }
}

/// What LAN mode runs with.
#[derive(Debug, PartialEq, Eq)]
pub struct LanPlan {
    pub device_id: String,
    pub device_name: String,
    pub discovery_port: u16,
    pub tcp_port: u16,
    pub max_image_kb: u64,
}

pub struct LanPlanView {
    pub device_id: Seq<char>,
    pub device_name: Seq<char>,
    pub discovery_port: u16,
    pub tcp_port: u16,
    pub max_image_kb: u64,
}

impl View for LanPlan {
    type V = LanPlanView;

    open spec fn view(&self) -> LanPlanView {
        LanPlanView {
            device_id: self.device_id@,
            device_name: self.device_name@,
            discovery_port: self.discovery_port,
            tcp_port: self.tcp_port,
            max_image_kb: self.max_image_kb,
        }
    }
}

/// The plan of LAN mode for a configuration, a fresh device id and the host
/// name, if the system gives one. The ports are the defaults, so that all
/// peers agree on them.
pub open spec fn lan_plan_of(c: ConfigView, device_id: Seq<char>, hostname: Option<Seq<char>>)
    -> LanPlanView {
    LanPlanView {
        device_id,
        device_name: device_name_of(c.lan_device_name, hostname, device_id),
        discovery_port: DEFAULT_DISCOVERY_PORT,
        tcp_port: DEFAULT_TCP_PORT,
        max_image_kb: clamped_image_kb(c.max_image_kb as int) as u64,
    }
}

/// The events of a start of LAN mode, once both sockets are bound.
pub open spec fn lan_started_events(p: LanPlanView) -> Seq<RuntimeEventView> {
    seq![
        log_view(Level::Warn, LAN_SECURITY_WARNING@),
        log_view(
            Level::Info,
            "LAN mode started: id="@ + p.device_id + ", name="@ + p.device_name
                + ", discovery_port="@ + decimal_text(p.discovery_port as nat) + ", tcp_port="@
                + decimal_text(p.tcp_port as nat),
        ),
        status_view("LAN mode active ("@ + p.device_name + ")"@),
    ]
}

/// Plans LAN mode.
pub fn plan_lan(cfg: &Config, device_id: String, hostname: Option<String>) -> (r: LanPlan)
    ensures
        r@ == lan_plan_of(
            cfg@,
            device_id@,
            match hostname {
                Some(h) => Some(h@),
                None => None,
            },
        ),
{
    let device_name = resolve_device_name(
        cfg.lan_device_name.as_str(),
        hostname,
        device_id.as_str(),
    );
    LanPlan {
        device_id,
        device_name,
        discovery_port: DEFAULT_DISCOVERY_PORT,
        tcp_port: DEFAULT_TCP_PORT,
        max_image_kb: clamp_image_kb(cfg.max_image_kb),
    }
}

impl LanPlan {
    /// The events that announce LAN mode, warning first.
    pub fn started_events(&self) -> (r: Vec<RuntimeEvent>)
        ensures
            events_view(r@) == lan_started_events(self@),
    {
        let mut line = owned("LAN mode started: id=");
        line.append(self.device_id.as_str());
        line.append(", name=");
        line.append(self.device_name.as_str());
        line.append(", discovery_port=");
        push_decimal(&mut line, self.discovery_port as u64);
        line.append(", tcp_port=");
        push_decimal(&mut line, self.tcp_port as u64);
        let mut status = concat2("LAN mode active (", self.device_name.as_str());
        status.append(")");
        let mut events = no_events();
        emit(&mut events, log_line(Level::Warn, LAN_SECURITY_WARNING));
        emit(&mut events, log_event(Level::Info, line));
        emit(&mut events, RuntimeEvent::Status(status));
        assert(events_view(events@) =~= lan_started_events(self@));
        events
    }
}

/// A session to open.
#[derive(Debug, PartialEq, Eq)]
pub struct ConnectTarget {
    pub device_id: String,
    pub device_name: String,
    /// `"<ip>:<port>"`.
    pub addr: String,
}

pub struct ConnectTargetView {
    pub device_id: Seq<char>,
    pub device_name: Seq<char>,
    pub addr: Seq<char>,
}

impl View for ConnectTarget {
    type V = ConnectTargetView;

    open spec fn view(&self) -> ConnectTargetView {
        ConnectTargetView {
            device_id: self.device_id@,
            device_name: self.device_name@,
            addr: self.addr@,
        }
    }
}

/// The session to open to a peer of the table.
pub open spec fn target_of(p: DiscoveredPeerView) -> ConnectTargetView {
    ConnectTargetView {
        device_id: p.device_id,
        device_name: p.device_name,
        addr: p.addr + ":"@ + decimal_text(p.tcp_port as nat),
    }
}

/// The log line for a session that is opened.
pub open spec fn target_event(t: ConnectTargetView) -> RuntimeEventView {
    log_view(
        Level::Info,
        "LAN connector: initiating connection to "@ + t.device_name + " ("@ + t.device_id
            + ") at "@ + t.addr,
    )
}

/// Whether the peer called `own_id`, which has tried the ids in `attempted`,
/// opens a session to `p` now: it must be the side that connects, and must
/// not have tried this peer before.
pub open spec fn eligible(own_id: Seq<char>, attempted: Seq<Seq<char>>, p: DiscoveredPeerView)
    -> bool {
    initiates(own_id, p.device_id) && !attempted.contains(p.device_id)
}

/// The ids tried after a scan of `peers`.
pub open spec fn attempted_after(
    own_id: Seq<char>,
    attempted: Seq<Seq<char>>,
    peers: Seq<DiscoveredPeerView>,
) -> Seq<Seq<char>>
    decreases peers.len(),
{
    if peers.len() == 0 {
        attempted
    } else {
        let before = attempted_after(own_id, attempted, peers.drop_last());
        if eligible(own_id, before, peers.last()) {
            before.push(peers.last().device_id)
        } else {
            before
        }
    }
}

/// The sessions that a scan of `peers` opens, in the table's order.
pub open spec fn targets_of(
    own_id: Seq<char>,
    attempted: Seq<Seq<char>>,
    peers: Seq<DiscoveredPeerView>,
) -> Seq<ConnectTargetView>
    decreases peers.len(),
{
    if peers.len() == 0 {
        Seq::empty()
    } else {
        let before = attempted_after(own_id, attempted, peers.drop_last());
        let targets = targets_of(own_id, attempted, peers.drop_last());
        if eligible(own_id, before, peers.last()) {
            targets.push(target_of(peers.last()))
        } else {
            targets
        }
    }
}

/// No id occurs twice.
pub open spec fn no_repeats(ids: Seq<Seq<char>>) -> bool {
    forall|i: int, j: int| 0 <= i < j < ids.len() ==> ids[i] != ids[j]
}

/// A scan opens a session only from the side that connects, never to a peer
/// that was tried before, and never twice to one peer.
pub proof fn lemma_scan(own_id: Seq<char>, attempted: Seq<Seq<char>>, peers: Seq<DiscoveredPeerView>)
    requires
        no_repeats(attempted),
    ensures
        no_repeats(attempted_after(own_id, attempted, peers)),
        attempted_after(own_id, attempted, peers) == attempted + targets_of(
            own_id,
            attempted,
            peers,
        ).map_values(|t: ConnectTargetView| t.device_id),
        forall|k: int|
            0 <= k < targets_of(own_id, attempted, peers).len() ==> initiates(
                own_id,
                (#[trigger] targets_of(own_id, attempted, peers)[k]).device_id,
            ) && !attempted.contains(targets_of(own_id, attempted, peers)[k].device_id),
    decreases peers.len(),
{
    let ids = |t: ConnectTargetView| t.device_id;
    if peers.len() == 0 {
        assert(attempted =~= attempted + Seq::<ConnectTargetView>::empty().map_values(ids));
    } else {
        let front = peers.drop_last();
        lemma_scan(own_id, attempted, front);
        let before = attempted_after(own_id, attempted, front);
        let targets = targets_of(own_id, attempted, front);
        if eligible(own_id, before, peers.last()) {
            let id = peers.last().device_id;
            assert(targets.push(target_of(peers.last())).map_values(ids) =~= targets.map_values(
                ids,
            ).push(id));
            assert(before.push(id) =~= attempted + targets.map_values(ids).push(id));
            assert forall|i: int, j: int| 0 <= i < j < before.push(id).len() implies before.push(
                id,
            )[i] != before.push(id)[j] by {
                if j == before.len() {
                    assert(before.contains(before[i]));
                }
            }
            assert(!attempted.contains(id)) by {
                if attempted.contains(id) {
                    let i = choose|i: int| 0 <= i < attempted.len() && attempted[i] == id;
                    assert(before[i] == id);
                }
            }
        }
    }
}

/// The peer connector: remembers which peers it has opened a session to.
pub struct Connector {
    own_id: String,
    attempted: Vec<String>,
}

/// The ids in a list of strings.
pub open spec fn ids_view(ids: Seq<String>) -> Seq<Seq<char>> {
    ids.map_values(|s: String| s@)
}

/// The views of a list of targets, in order.
pub open spec fn targets_view(targets: Seq<ConnectTarget>) -> Seq<ConnectTargetView> {
    targets.map_values(|t: ConnectTarget| t@)
}

/// The answer to one scan.
#[derive(Debug, PartialEq, Eq)]
pub struct ScanOutput {
    /// One log line for each session to open.
    pub events: Vec<RuntimeEvent>,
    /// The sessions to open, in the table's order.
    pub targets: Vec<ConnectTarget>,
}

impl Connector {
    #[verifier::type_invariant]
    spec fn tried_once(&self) -> bool {
        no_repeats(ids_view(self.attempted@))
    }

    /// This peer's id.
    pub closed spec fn own_id(&self) -> Seq<char> {
        self.own_id@
    }

    /// The ids of the peers tried so far, in the order of trying.
    pub closed spec fn attempted(&self) -> Seq<Seq<char>> {
        ids_view(self.attempted@)
    }

    /// A connector that has tried nobody.
    pub fn new(own_id: String) -> (r: Connector)
        ensures
            r.own_id() == own_id@,
            r.attempted() == Seq::<Seq<char>>::empty(),
    {
        let r = Connector { own_id, attempted: Vec::new() };
        assert(ids_view(r.attempted@) =~= Seq::<Seq<char>>::empty());
        r
    }

    fn has_tried(&self, id: &str) -> (r: bool)
        ensures
            r == self.attempted().contains(id@),
    {
        let mut i: usize = 0;
        while i < self.attempted.len()
            invariant
                i <= self.attempted@.len(),
                forall|k: int| 0 <= k < i ==> ids_view(self.attempted@)[k] != id@,
            decreases self.attempted@.len() - i,
        {
            if str_eq(self.attempted[i].as_str(), id) {
                assert(ids_view(self.attempted@)[i as int] == id@);
                return true;
            }
            i += 1;
        }
        false
    }

    /// Scans the peer table and names the sessions to open. No peer is named
    /// twice in the life of a connector, and none whose id is not below this
    /// peer's.
    pub fn scan(&mut self, peers: &Vec<DiscoveredPeer>) -> (r: ScanOutput)
        ensures
            final(self).own_id() == old(self).own_id(),
            final(self).attempted() == attempted_after(
                old(self).own_id(),
                old(self).attempted(),
                crate::lan::discovery::peers_view(peers@),
            ),
            targets_view(r.targets@) == targets_of(
                old(self).own_id(),
                old(self).attempted(),
                crate::lan::discovery::peers_view(peers@),
            ),
            events_view(r.events@) == targets_view(r.targets@).map_values(
                |t: ConnectTargetView| target_event(t),
            ),
            no_repeats(final(self).attempted()),
    {
        proof {
            use_type_invariant(&*self);
        }
        let ghost own = self.own_id();
        let ghost start = self.attempted();
        let ghost table = crate::lan::discovery::peers_view(peers@);
        let ghost line = |t: ConnectTargetView| target_event(t);
        let mut events = no_events();
        let mut targets: Vec<ConnectTarget> = Vec::new();
        let mut i: usize = 0;
        assert(table.take(0) =~= Seq::<DiscoveredPeerView>::empty());
        assert(targets_view(targets@) =~= Seq::<ConnectTargetView>::empty());
        assert(events_view(events@) =~= targets_view(targets@).map_values(line));
        while i < peers.len()
            invariant
                i <= peers@.len(),
                table == crate::lan::discovery::peers_view(peers@),
                line == |t: ConnectTargetView| target_event(t),
                self.own_id() == own,
                no_repeats(start),
                self.attempted() == attempted_after(own, start, table.take(i as int)),
                targets_view(targets@) == targets_of(own, start, table.take(i as int)),
                events_view(events@) == targets_view(targets@).map_values(line),
            decreases peers@.len() - i,
        {
            let peer = &peers[i];
            proof {
                assert(table.take(i as int + 1).drop_last() =~= table.take(i as int));
                assert(table.take(i as int + 1).last() == peer@);
                lemma_scan(own, start, table.take(i as int));
                lemma_scan(own, start, table.take(i as int + 1));
            }
            if should_initiate(self.own_id.as_str(), peer.device_id.as_str()) && !self.has_tried(
                peer.device_id.as_str(),
            ) {
                let mut addr = concat2(peer.addr.as_str(), ":");
                push_decimal(&mut addr, peer.tcp_port as u64);
                let target = ConnectTarget {
                    device_id: peer.device_id.clone(),
                    device_name: peer.device_name.clone(),
                    addr,
                };
                assert(target@ == target_of(peer@));
                let mut text = owned("LAN connector: initiating connection to ");
                text.append(target.device_name.as_str());
                text.append(" (");
                text.append(target.device_id.as_str());
                text.append(") at ");
                text.append(target.addr.as_str());
                let ghost tried = self.attempted@;
                let ghost named = targets@;
                let ghost lines = events_view(events@);
                emit(&mut events, log_event(Level::Info, text));
                let mut attempted = Vec::new();
                std::mem::swap(&mut attempted, &mut self.attempted);
                attempted.push(peer.device_id.clone());
                assert(ids_view(attempted@) =~= ids_view(tried).push(peer@.device_id));
                self.attempted = attempted;
                targets.push(target);
                assert(targets_view(targets@) =~= targets_view(named).push(target@));
                assert(events_view(events@) =~= targets_view(targets@).map_values(line));
            }
            i += 1;
        }
        proof {
            assert(table.take(i as int) =~= table);
            lemma_scan(own, start, table);
        }
        ScanOutput { events, targets }
    }
}

} // verus!
