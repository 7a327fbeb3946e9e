//! Discovery of peers on the LAN: the table of peers heard, what a received
//! beacon does to it, and the beacons this peer sends.

use vstd::prelude::*;
use vstd::string::*;
use crate::events::{
    emit, events_view, log_event, log_view, no_events, Level, RuntimeEvent, RuntimeEventView,
};
use crate::json::{decimal_text, json_quoted, push_decimal, push_quoted};
use crate::lan::protocol::{
    beacon_datagram, beacon_of_datagram, decode_beacon, encode_beacon,
    DiscoveredPeer, DiscoveredPeerView, DiscoveryBeacon, DiscoveryBeaconView,
    DEFAULT_DISCOVERY_PORT,
};
use crate::text::{owned, str_eq};

verus! {

/// Seconds after its last beacon at which a peer is dropped from the table.
pub const PEER_EXPIRY_SECS: u64 = 15;

/// The UDP port in use: `port`, or the default where it is zero.
pub open spec fn effective_discovery_port(port: u16) -> u16 {
    if port == 0 {
        DEFAULT_DISCOVERY_PORT
    } else {
        port
    }
}

/// The UDP port for a configured `port`; zero selects the default.
pub fn discovery_port_or_default(port: u16) -> (r: u16)
    ensures
        r == effective_discovery_port(port),
{
    if port == 0 {
        DEFAULT_DISCOVERY_PORT
    } else {
        port
    }
}

/// No two entries have the same device id.
pub open spec fn distinct_ids(peers: Seq<DiscoveredPeerView>) -> bool {
    forall|i: int, j: int|
        0 <= i < j < peers.len() ==> (#[trigger] peers[i]).device_id != (#[trigger] peers[j]).device_id
}

/// Whether the table has an entry for `id`.
pub open spec fn known(peers: Seq<DiscoveredPeerView>, id: Seq<char>) -> bool {
    exists|i: int| 0 <= i < peers.len() && (#[trigger] peers[i]).device_id == id
}

/// Where the entry for `id` stands, if the table has one.
pub open spec fn slot(peers: Seq<DiscoveredPeerView>, id: Seq<char>) -> int {
    choose|i: int| 0 <= i < peers.len() && (#[trigger] peers[i]).device_id == id
}

/// The entry that a beacon heard from `addr` at `now` makes.
pub open spec fn entry_of(b: DiscoveryBeaconView, addr: Seq<char>, now: u64) -> DiscoveredPeerView {
    DiscoveredPeerView {
        device_id: b.device_id,
        device_name: b.device_name,
        addr,
        tcp_port: b.tcp_port,
        last_seen: now,
    }
}

/// The table with `entry` put in: in place of the entry with its id, or at
/// the end where there is none.
pub open spec fn upserted(peers: Seq<DiscoveredPeerView>, entry: DiscoveredPeerView) -> Seq<
    DiscoveredPeerView,
> {
    if known(peers, entry.device_id) {
        peers.update(slot(peers, entry.device_id), entry)
    } else {
        peers.push(entry)
    }
}

/// Whether putting `entry` in changes what a user sees: a new peer, or
/// another name, address or port. A later `last_seen` alone is no change.
pub open spec fn visibly_changed(peers: Seq<DiscoveredPeerView>, entry: DiscoveredPeerView) -> bool {
    !known(peers, entry.device_id) || {
        let old = peers[slot(peers, entry.device_id)];
        old.device_name != entry.device_name || old.addr != entry.addr || old.tcp_port
            != entry.tcp_port
    }
}

/// Whether a peer has been silent for [`PEER_EXPIRY_SECS`] or longer at `now`.
pub open spec fn stale(p: DiscoveredPeerView, now: u64) -> bool {
    now - p.last_seen >= PEER_EXPIRY_SECS
}

/// The entries that are not stale at `now`, in their order.
pub open spec fn fresh_peers(peers: Seq<DiscoveredPeerView>, now: u64) -> Seq<DiscoveredPeerView>
    decreases peers.len(),
{
    if peers.len() == 0 {
        peers
    } else if stale(peers.last(), now) {
        fresh_peers(peers.drop_last(), now)
    } else {
        fresh_peers(peers.drop_last(), now).push(peers.last())
    }
}

/// Pruning keeps exactly the entries that are not stale: every entry kept was
/// there and is fresh, every fresh entry is kept, and ids stay distinct.
pub proof fn lemma_fresh_peers(peers: Seq<DiscoveredPeerView>, now: u64)
    ensures
        fresh_peers(peers, now).len() <= peers.len(),
        forall|k: int|
            0 <= k < fresh_peers(peers, now).len() ==> !stale(
                #[trigger] fresh_peers(peers, now)[k],
                now,
            ) && peers.contains(fresh_peers(peers, now)[k]),
        forall|i: int|
            0 <= i < peers.len() && !stale(#[trigger] peers[i], now) ==> fresh_peers(
                peers,
                now,
            ).contains(peers[i]),
        distinct_ids(peers) ==> distinct_ids(fresh_peers(peers, now)),
        fresh_peers(peers, now).len() == peers.len() ==> fresh_peers(peers, now) == peers,
    decreases peers.len(),
{
    if peers.len() > 0 {
        let front = peers.drop_last();
        let kept_front = fresh_peers(front, now);
        let kept = fresh_peers(peers, now);
        lemma_fresh_peers(front, now);
        assert forall|k: int| 0 <= k < kept.len() implies !stale(#[trigger] kept[k], now)
            && peers.contains(kept[k]) by {
            if k < kept_front.len() {
                assert(kept[k] == kept_front[k]);
                assert(front.contains(kept_front[k]));
                let i = choose|i: int| 0 <= i < front.len() && front[i] == kept_front[k];
                assert(peers[i] == kept[k]);
            } else {
                assert(kept[k] == peers[peers.len() - 1]);
            }
        }
        assert forall|i: int| 0 <= i < peers.len() && !stale(#[trigger] peers[i], now) implies kept.contains(
            peers[i],
        ) by {
            if i < front.len() {
                assert(front[i] == peers[i]);
                assert(kept_front.contains(front[i]));
                let k = choose|k: int| 0 <= k < kept_front.len() && kept_front[k] == front[i];
                assert(kept[k] == peers[i]);
            } else {
                assert(kept[kept.len() - 1] == peers[i]);
            }
        }
        if distinct_ids(peers) {
            assert(distinct_ids(front)) by {
                assert forall|i: int, j: int| 0 <= i < j < front.len() implies (#[trigger] front[i]).device_id
                    != (#[trigger] front[j]).device_id by {
                    assert(front[i] == peers[i] && front[j] == peers[j]);
                }
            }
            assert forall|a: int, b: int| 0 <= a < b < kept.len() implies (#[trigger] kept[a]).device_id
                != (#[trigger] kept[b]).device_id by {
                if b < kept_front.len() {
                    assert(kept[a] == kept_front[a] && kept[b] == kept_front[b]);
                } else {
                    assert(kept[a] == kept_front[a]);
                    assert(front.contains(kept_front[a]));
                    let i = choose|i: int| 0 <= i < front.len() && front[i] == kept_front[a];
                    assert(peers[i] == kept[a]);
                    assert(kept[b] == peers[peers.len() - 1]);
                }
            }
        }
        if kept.len() == peers.len() {
            assert(kept =~= peers);
        }
    }
}

/// JSON text of one entry of the table.
pub open spec fn peer_text(p: DiscoveredPeerView) -> Seq<char> {
    "{\"device_id\":"@ + json_quoted(p.device_id) + ",\"device_name\":"@ + json_quoted(
        p.device_name,
    ) + ",\"addr\":"@ + json_quoted(p.addr) + ",\"tcp_port\":"@ + decimal_text(p.tcp_port as nat)
        + ",\"last_seen\":"@ + decimal_text(p.last_seen as nat) + "}"@
}

/// The entries' JSON texts with commas between them.
pub open spec fn peers_joined(peers: Seq<DiscoveredPeerView>) -> Seq<char>
    decreases peers.len(),
{
    if peers.len() == 0 {
        Seq::empty()
    } else if peers.len() == 1 {
        peer_text(peers[0])
    } else {
        peers_joined(peers.drop_last()) + ","@ + peer_text(peers.last())
    }
}

/// JSON text of the table: an array of its entries, in their order.
pub open spec fn peers_text(peers: Seq<DiscoveredPeerView>) -> Seq<char> {
    "["@ + peers_joined(peers) + "]"@
}

fn push_peer(out: &mut String, peer: &DiscoveredPeer)
    ensures
        final(out)@ == old(out)@ + peer_text(peer@),
{
    let mut text = owned("{\"device_id\":");
    push_quoted(&mut text, peer.device_id.as_str());
    text.append(",\"device_name\":");
    push_quoted(&mut text, peer.device_name.as_str());
    text.append(",\"addr\":");
    push_quoted(&mut text, peer.addr.as_str());
    text.append(",\"tcp_port\":");
    push_decimal(&mut text, peer.tcp_port as u64);
    text.append(",\"last_seen\":");
    push_decimal(&mut text, peer.last_seen);
    text.append("}");
    out.append(text.as_str());
}

/// The views of a list of entries, in order.
pub open spec fn peers_view(entries: Seq<DiscoveredPeer>) -> Seq<DiscoveredPeerView> {
    entries.map_values(|p: DiscoveredPeer| p@)
}

/// What a beacon from another device, heard from `addr` at `now`, does to
/// the table, and the events that follow: the beacon's entry is put in, which
/// is reported if it shows; then stale entries are dropped, which is reported
/// if there were any.
pub open spec fn foreign_beacon_step(
    peers: Seq<DiscoveredPeerView>,
    beacon: DiscoveryBeaconView,
    addr: Seq<char>,
    now: u64,
) -> (Seq<DiscoveredPeerView>, Seq<RuntimeEventView>) {
    let entry = entry_of(beacon, addr, now);
    let merged = upserted(peers, entry);
    let kept = fresh_peers(merged, now);
    let shown = if visibly_changed(peers, entry) {
        seq![
            log_view(
                Level::Info,
                "LAN peer discovered/updated: "@ + beacon.device_name + " ("@ + beacon.device_id
                    + ") at "@ + addr + ":"@ + decimal_text(beacon.tcp_port as nat),
            ),
            RuntimeEventView::LanPeersChanged(peers_text(merged)),
        ]
    } else {
        Seq::empty()
    };
    let pruned = if kept.len() < merged.len() {
        seq![RuntimeEventView::LanPeersChanged(peers_text(kept))]
    } else {
        Seq::empty()
    };
    (kept, shown + pruned)
}

/// What a decoded beacon does to the table of the device called `own_id`:
/// its own beacons do nothing.
pub open spec fn beacon_step(
    peers: Seq<DiscoveredPeerView>,
    own_id: Seq<char>,
    beacon: DiscoveryBeaconView,
    addr: Seq<char>,
    now: u64,
) -> (Seq<DiscoveredPeerView>, Seq<RuntimeEventView>) {
    if beacon.device_id == own_id {
        (peers, Seq::empty())
    } else {
        foreign_beacon_step(peers, beacon, addr, now)
    }
}

/// What a datagram does: nothing unless it holds a beacon.
pub open spec fn datagram_step(
    peers: Seq<DiscoveredPeerView>,
    own_id: Seq<char>,
    data: Seq<u8>,
    addr: Seq<char>,
    now: u64,
) -> (Seq<DiscoveredPeerView>, Seq<RuntimeEventView>) {
    match beacon_of_datagram(data) {
        Some(beacon) => beacon_step(peers, own_id, beacon, addr, now),
        None => (peers, Seq::empty()),
    }
}

/// Putting an entry in keeps the ids distinct and leaves every other entry
/// where it was.
pub proof fn lemma_upserted(peers: Seq<DiscoveredPeerView>, entry: DiscoveredPeerView)
    requires
        distinct_ids(peers),
    ensures
        distinct_ids(upserted(peers, entry)),
        upserted(peers, entry).len() >= peers.len(),
        forall|i: int|
            0 <= i < peers.len() && (#[trigger] peers[i]).device_id != entry.device_id
                ==> upserted(peers, entry)[i] == peers[i],
        known(upserted(peers, entry), entry.device_id),
{
    let merged = upserted(peers, entry);
    if known(peers, entry.device_id) {
        let at = slot(peers, entry.device_id);
        assert(merged[at] == entry);
        assert forall|a: int, b: int| 0 <= a < b < merged.len() implies (#[trigger] merged[a]).device_id
            != (#[trigger] merged[b]).device_id by {
            assert(peers[a].device_id != peers[b].device_id);
        }
    } else {
        assert(merged[peers.len() as int] == entry);
        assert forall|a: int, b: int| 0 <= a < b < merged.len() implies (#[trigger] merged[a]).device_id
            != (#[trigger] merged[b]).device_id by {
            assert(merged[a] == peers[a]);
            if b < peers.len() {
                assert(merged[b] == peers[b]);
            }
        }
    }
}

/// Peer expiry: a beacon from another device removes every entry that is
/// stale by then, and the last event reports the table that is left.
pub proof fn lemma_stale_peer_removed(
    peers: Seq<DiscoveredPeerView>,
    beacon: DiscoveryBeaconView,
    addr: Seq<char>,
    now: u64,
    i: int,
)
    requires
        distinct_ids(peers),
        0 <= i < peers.len(),
        stale(peers[i], now),
        peers[i].device_id != beacon.device_id,
    ensures
        !known(foreign_beacon_step(peers, beacon, addr, now).0, peers[i].device_id),
        foreign_beacon_step(peers, beacon, addr, now).1.len() > 0,
        foreign_beacon_step(peers, beacon, addr, now).1.last() == RuntimeEventView::LanPeersChanged(
            peers_text(foreign_beacon_step(peers, beacon, addr, now).0),
        ),
{
    let entry = entry_of(beacon, addr, now);
    let merged = upserted(peers, entry);
    let kept = fresh_peers(merged, now);
    lemma_upserted(peers, entry);
    lemma_fresh_peers(merged, now);
    assert(merged[i] == peers[i]);
    if known(kept, peers[i].device_id) {
        let k = slot(kept, peers[i].device_id);
        assert(merged.contains(kept[k]));
        let j = choose|j: int| 0 <= j < merged.len() && merged[j] == kept[k];
        if j < i {
            assert(merged[j].device_id != merged[i].device_id);
        } else if j > i {
            assert(merged[i].device_id != merged[j].device_id);
        }
        assert(!stale(kept[k], now));
    }
    if kept.len() == merged.len() {
        assert(kept[i] == merged[i]);
        assert(!stale(kept[i], now));
    }
}

/// The peers heard on the LAN, one entry for each device id, in the order in
/// which they were first heard.
pub struct DiscoveredPeers {
    entries: Vec<DiscoveredPeer>,
}

impl View for DiscoveredPeers {
    type V = Seq<DiscoveredPeerView>;

    closed spec fn view(&self) -> Seq<DiscoveredPeerView> {
        peers_view(self.entries@)
    }
}

/// An empty table.
pub fn new_peer_map() -> (r: DiscoveredPeers)
    ensures
        r@ == Seq::<DiscoveredPeerView>::empty(),
{
    let r = DiscoveredPeers { entries: Vec::new() };
    assert(r@ =~= Seq::<DiscoveredPeerView>::empty());
    r
}

/// A copy of the table's entries, in their order.
pub fn get_discovered_peers(peers: &DiscoveredPeers) -> (r: Vec<DiscoveredPeer>)
    ensures
        peers_view(r@) == peers@,
        distinct_ids(peers@),
{
    proof {
        use_type_invariant(peers);
    }
    let mut out: Vec<DiscoveredPeer> = Vec::new();
    let mut i: usize = 0;
    while i < peers.entries.len()
        invariant
            i <= peers.entries@.len(),
            peers_view(out@) == peers_view(peers.entries@).take(i as int),
        decreases peers.entries@.len() - i,
    {
        let ghost copied = out@;
        let copy = peers.entries[i].duplicate();
        out.push(copy);
        assert(peers_view(out@) =~= peers_view(copied).push(copy@));
        i += 1;
        assert(peers_view(out@) =~= peers_view(peers.entries@).take(i as int));
    }
    assert(peers_view(peers.entries@).take(i as int) =~= peers_view(peers.entries@));
    out
}

/// Puts the entry of a beacon heard from `ip` at `now` into the table.
/// Returns whether that changes what a user sees.
pub fn upsert_peer(peers: &mut DiscoveredPeers, beacon: &DiscoveryBeacon, ip: &str, now: u64) -> (r:
    bool)
    ensures
        final(peers)@ == upserted(old(peers)@, entry_of(beacon@, ip@, now)),
        r == visibly_changed(old(peers)@, entry_of(beacon@, ip@, now)),
        distinct_ids(final(peers)@),
{
    peers.upsert(beacon, ip, now)
}

/// Drops the entries that are stale at `now`. Returns how many there were.
pub fn prune_stale_peers(peers: &mut DiscoveredPeers, now: u64) -> (r: usize)
    ensures
        final(peers)@ == fresh_peers(old(peers)@, now),
        r == old(peers)@.len() - final(peers)@.len(),
        forall|k: int| 0 <= k < final(peers)@.len() ==> !stale(#[trigger] final(peers)@[k], now),
        distinct_ids(final(peers)@),
{
    peers.prune(now)
}

impl DiscoveredPeers {
    #[verifier::type_invariant]
    spec fn keyed_by_id(&self) -> bool {
        distinct_ids(peers_view(self.entries@))
    }

    /// The number of entries.
    pub fn len(&self) -> (r: usize)
        ensures
            r == self@.len(),
    {
        self.entries.len()
    }

    fn position(&self, id: &str) -> (r: Option<usize>)
        ensures
            match r {
                Some(i) => i < self@.len() && self@[i as int].device_id == id@ && known(self@, id@)
                    && slot(self@, id@) == i,
                None => !known(self@, id@),
            },
    {
        proof {
            use_type_invariant(self);
        }
        let mut i: usize = 0;
        while i < self.entries.len()
            invariant
                i <= self.entries@.len(),
                distinct_ids(self@),
                forall|k: int| 0 <= k < i ==> (#[trigger] self@[k]).device_id != id@,
            decreases self.entries@.len() - i,
        {
            if str_eq(self.entries[i].device_id.as_str(), id) {
                assert(self@[i as int].device_id == id@);
                proof {
                    let c = slot(self@, id@);
                    if c < i {
                        assert(self@[c].device_id != id@);
                    } else if c > i {
                        assert(self@[i as int].device_id != self@[c].device_id);
                    }
                }
                return Some(i);
            }
            i += 1;
        }
        None
    }

    fn upsert(&mut self, beacon: &DiscoveryBeacon, ip: &str, now: u64) -> (r: bool)
        ensures
            final(self)@ == upserted(old(self)@, entry_of(beacon@, ip@, now)),
            r == visibly_changed(old(self)@, entry_of(beacon@, ip@, now)),
            distinct_ids(final(self)@),
    {
        proof {
            use_type_invariant(&*self);
        }
        let entry = DiscoveredPeer {
            device_id: beacon.device_id.clone(),
            device_name: beacon.device_name.clone(),
            addr: owned(ip),
            tcp_port: beacon.tcp_port,
            last_seen: now,
        };
        let ghost before = self@;
        match self.position(beacon.device_id.as_str()) {
            Some(i) => {
                let existing = &self.entries[i];
                let changed = !str_eq(existing.device_name.as_str(), entry.device_name.as_str())
                    || !str_eq(existing.addr.as_str(), entry.addr.as_str()) || existing.tcp_port
                    != entry.tcp_port;
                let mut entries = Vec::new();
                std::mem::swap(&mut entries, &mut self.entries);
                entries.set(i, entry);
                assert(peers_view(entries@) =~= before.update(i as int, entry@));
                assert(distinct_ids(peers_view(entries@))) by {
                    assert forall|a: int, b: int| 0 <= a < b < before.len() implies (
                    #[trigger] peers_view(entries@)[a]).device_id != (#[trigger] peers_view(
                        entries@,
                    )[b]).device_id by {
                        assert(before[a].device_id != before[b].device_id);
                    }
                }
                self.entries = entries;
                changed
            },
            None => {
                let mut entries = Vec::new();
                std::mem::swap(&mut entries, &mut self.entries);
                entries.push(entry);
                assert(peers_view(entries@) =~= before.push(entry@));
                assert(distinct_ids(peers_view(entries@))) by {
                    assert forall|a: int, b: int|
                        0 <= a < b < peers_view(entries@).len() implies (#[trigger] peers_view(
                        entries@,
                    )[a]).device_id != (#[trigger] peers_view(entries@)[b]).device_id by {
                        assert(before[a].device_id == peers_view(entries@)[a].device_id);
                        if b < before.len() {
                            assert(before[b].device_id == peers_view(entries@)[b].device_id);
                        }
                    }
                }
                self.entries = entries;
                true
            },
        }
    }

    fn prune(&mut self, now: u64) -> (r: usize)
        ensures
            final(self)@ == fresh_peers(old(self)@, now),
            r == old(self)@.len() - final(self)@.len(),
            forall|k: int| 0 <= k < final(self)@.len() ==> !stale(#[trigger] final(self)@[k], now),
            distinct_ids(final(self)@),
    {
        proof {
            use_type_invariant(&*self);
        }
        let ghost before = self@;
        let total = self.entries.len();
        let mut kept: Vec<DiscoveredPeer> = Vec::new();
        let mut i: usize = 0;
        assert(before.take(0) =~= Seq::<DiscoveredPeerView>::empty());
        while i < self.entries.len()
            invariant
                i <= self.entries@.len(),
                before == peers_view(self.entries@),
                peers_view(kept@) == fresh_peers(before.take(i as int), now),
            decreases self.entries@.len() - i,
        {
            let peer = &self.entries[i];
            assert(before.take(i as int + 1).drop_last() =~= before.take(i as int));
            assert(before.take(i as int + 1).last() == peer@);
            if !(now >= peer.last_seen && now - peer.last_seen >= PEER_EXPIRY_SECS) {
                kept.push(peer.duplicate());
                assert(peers_view(kept@) =~= fresh_peers(before.take(i as int), now).push(peer@));
            }
            i += 1;
        }
        assert(before.take(i as int) =~= before);
        proof {
            lemma_fresh_peers(before, now);
        }
        let removed = total - kept.len();
        self.entries = kept;
        removed
    }

    /// Writes the table as the JSON array that is shown to the user.
    pub fn snapshot(&self) -> (r: String)
        ensures
            r@ == peers_text(self@),
    {
        let mut out = owned("[");
        let mut i: usize = 0;
        assert(self@.take(0) =~= Seq::<DiscoveredPeerView>::empty());
        while i < self.entries.len()
            invariant
                i <= self.entries@.len(),
                out@ == "["@ + peers_joined(self@.take(i as int)),
            decreases self.entries@.len() - i,
        {
            let peer = &self.entries[i];
            let ghost so_far = self@.take(i as int);
            let ghost next = self@.take(i as int + 1);
            assert(next.drop_last() =~= so_far);
            assert(next.last() == peer@);
            if i > 0 {
                out.append(",");
            }
            let ghost lead = out@;
            push_peer(&mut out, peer);
            assert(out@ == lead + peer_text(peer@));
            assert(out@ =~= "["@ + peers_joined(next)) by {
                if i == 0 {
                    assert(next[0] == peer@);
                    assert(peers_joined(so_far) =~= Seq::<char>::empty());
                    assert(lead =~= "["@);
                } else {
                    assert(lead == "["@ + peers_joined(so_far) + ","@);
                    assert(peers_joined(next) == peers_joined(so_far) + ","@ + peer_text(peer@));
                }
            }
            i += 1;
        }
        assert(self@.take(i as int) =~= self@);
        out.append("]");
        out
    }

    /// Takes in a beacon heard from `addr` at `now`, on the device called
    /// `own_id`. Afterwards the table holds no entry that is stale at `now`,
    /// unless the beacon was this device's own.
    pub fn on_beacon(&mut self, own_id: &str, beacon: &DiscoveryBeacon, addr: &str, now: u64) -> (r:
        Vec<RuntimeEvent>)
        ensures
            (final(self)@, events_view(r@)) == beacon_step(
                old(self)@,
                own_id@,
                beacon@,
                addr@,
                now,
            ),
            distinct_ids(final(self)@),
            beacon.device_id@ != own_id@ ==> forall|k: int|
                0 <= k < final(self)@.len() ==> !stale(#[trigger] final(self)@[k], now),
    {
        proof {
            use_type_invariant(&*self);
        }
        let mut events = no_events();
        if str_eq(beacon.device_id.as_str(), own_id) {
            return events;
        }
        let changed = self.upsert(beacon, addr, now);
        if changed {
            let mut line = owned("LAN peer discovered/updated: ");
            line.append(beacon.device_name.as_str());
            line.append(" (");
            line.append(beacon.device_id.as_str());
            line.append(") at ");
            line.append(addr);
            line.append(":");
            push_decimal(&mut line, beacon.tcp_port as u64);
            emit(&mut events, log_event(Level::Info, line));
            emit(&mut events, RuntimeEvent::LanPeersChanged(self.snapshot()));
        }
        let pruned = self.prune(now);
        if pruned > 0 {
            emit(&mut events, RuntimeEvent::LanPeersChanged(self.snapshot()));
        }
        assert(events_view(events@) =~= foreign_beacon_step(
            old(self)@,
            beacon@,
            addr@,
            now,
        ).1);
        events
    }

    /// Takes in a datagram heard from `addr` at `now`. Foreign traffic and
    /// this device's own beacons change nothing and are not reported.
    pub fn on_datagram(&mut self, own_id: &str, data: &[u8], addr: &str, now: u64) -> (r: Vec<
        RuntimeEvent,
    >)
        ensures
            (final(self)@, events_view(r@)) == datagram_step(
                old(self)@,
                own_id@,
                data@,
                addr@,
                now,
            ),
            distinct_ids(final(self)@),
    {
        proof {
            use_type_invariant(&*self);
        }
        match decode_beacon(data) {
            Some(beacon) => self.on_beacon(own_id, &beacon, addr, now),
            None => no_events(),
        }
    }
}

/// The sender of this peer's beacons.
#[derive(Debug, PartialEq, Eq)]
pub struct BeaconBroadcaster {
    pub device_id: String,
    pub device_name: String,
    pub tcp_port: u16,
    /// The count that the next beacon carries.
    pub seq: u64,
}

/// The count after `seq`; it wraps to zero.
pub open spec fn next_seq(seq: u64) -> u64 {
    if seq == u64::MAX {
        0
    } else {
        (seq + 1) as u64
    }
}

impl BeaconBroadcaster {
    /// A broadcaster whose first beacon carries the count zero.
    pub fn new(device_id: String, device_name: String, tcp_port: u16) -> (r: BeaconBroadcaster)
        ensures
            r.device_id@ == device_id@,
            r.device_name@ == device_name@,
            r.tcp_port == tcp_port,
            r.seq == 0,
    {
        BeaconBroadcaster { device_id, device_name, tcp_port, seq: 0 }
    }

    /// The next beacon and its datagram; the count goes up by one.
    pub fn next_datagram(&mut self) -> (r: Vec<u8>)
        ensures
            r@ == beacon_datagram(
                DiscoveryBeaconView {
                    device_id: old(self).device_id@,
                    device_name: old(self).device_name@,
                    tcp_port: old(self).tcp_port,
                    seq: old(self).seq,
                },
            ),
            final(self).seq == next_seq(old(self).seq),
            final(self).device_id@ == old(self).device_id@,
            final(self).device_name@ == old(self).device_name@,
            final(self).tcp_port == old(self).tcp_port,
    {
        let beacon = DiscoveryBeacon {
            device_id: self.device_id.clone(),
            device_name: self.device_name.clone(),
            tcp_port: self.tcp_port,
            seq: self.seq,
        };
        let packet = encode_beacon(&beacon);
        self.seq = self.seq.wrapping_add(1);
        packet
    }
}

} // verus!
