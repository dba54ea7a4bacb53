//! Peer-state mirroring engine: a fixed 16-slot table of peer transform
//! records, a fixed-width wire codec for single records and full snapshots,
//! the per-connection worker state machine, and the hub/upstream endpoint
//! lifecycle. Socket I/O, threads and locks live outside this crate; the
//! library works on plain values and states exactly what each operation does.

use vstd::prelude::*;

pub mod client;
pub mod codec;
pub mod server;
pub mod shared;
pub mod table;
pub mod worker;

use crate::client::PlayerMirrorClient;
use crate::codec::CodecError;
use crate::server::PlayerMirrorServer;
use crate::shared::{MirrorError, MirroringType, PlayerInfo, SerializableVector3};

verus! {

/// Number of slots in the shared state table.
pub const SLOT_COUNT: usize = 16;

/// Index of the slot reserved for the local peer of this process.
pub const LOCAL_SLOT: usize = 15;

/// How many of the first `i` records of `s` are renderable: those whose
/// position is not the sentinel origin. Renderable records are numbered in
/// slot order by this count.
pub open spec fn spec_index_count(s: Seq<PlayerInfo>, i: int) -> int
    decreases i,
{
    if i <= 0 {
        0
    } else {
        spec_index_count(s, i - 1) + if s[i - 1].position == SerializableVector3::spec_zero() {
            0int
        } else {
            1int
        }
    }
}

/// The render list drawn from the first `i` records of a snapshot: each
/// renderable record paired with its puppet index (its number among the
/// renderable records), minus any record standing at `skip` — the local
/// peer's own echo — which still consumes its index.
pub open spec fn spec_visible_upto(
    s: Seq<PlayerInfo>,
    i: int,
    skip: Option<SerializableVector3>,
) -> Seq<(usize, PlayerInfo)>
    decreases i,
{
    if i <= 0 {
        Seq::empty()
    } else {
        let prev = spec_visible_upto(s, i - 1, skip);
        let p = s[i - 1];
        if p.position == SerializableVector3::spec_zero() {
            prev
        } else if skip matches Some(v) && p.position == v {
            prev
        } else {
            prev.push((spec_index_count(s, i - 1) as usize, p))
        }
    }
}

/// The full render list of a snapshot: see [`spec_visible_upto`].
pub open spec fn spec_visible_entries(
    s: Seq<PlayerInfo>,
    skip: Option<SerializableVector3>,
) -> Seq<(usize, PlayerInfo)> {
    spec_visible_upto(s, s.len() as int, skip)
}

/// The driver's per-tick render pass over a snapshot: keep every record
/// whose position is not the sentinel origin, number the kept records in
/// slot order, and drop — index kept — any record standing exactly at
/// `skip` (the upstream driver passes its own position so it never renders
/// its own echo; the hub passes nothing, its own slot being blanked in the
/// snapshot already).
pub fn visible_entries(snapshot: &Vec<PlayerInfo>, skip: Option<SerializableVector3>) -> (r: Vec<
    (usize, PlayerInfo),
>)
    ensures
        r@ == spec_visible_entries(snapshot@, skip),
{
    let n = snapshot.len();
    let zero = SerializableVector3::zero();
    let mut r: Vec<(usize, PlayerInfo)> = Vec::new();
    let mut count: usize = 0;
    let mut i: usize = 0;
    while i < n
        invariant
            i <= n,
            n == snapshot@.len(),
            zero == SerializableVector3::spec_zero(),
            count == spec_index_count(snapshot@, i as int),
            count <= i,
            r@ == spec_visible_upto(snapshot@, i as int, skip),
        decreases n - i,
    {
        let p = snapshot[i];
        if !(p.position == zero) {
            let skipped = match skip {
                Some(v) => p.position == v,
                None => false,
            };
            if !skipped {
                r.push((count, p));
            }
            count = count + 1;
        }
        i = i + 1;
    }
    r
}

/// The process-wide mirroring state: exactly one mode — hub or upstream —
/// active at a time, owned by the driver and swapped in place by the
/// connect and bind commands.
pub struct PlayerMirror {
    mirrortype: MirroringType,
}

impl PlayerMirror {
    /// Whether the hub mode is the active one.
    pub closed spec fn spec_is_hub(&self) -> bool {
        self.mirrortype is Server
    }

    /// The active mode's table contents.
    pub closed spec fn table(&self) -> Seq<PlayerInfo> {
        match self.mirrortype {
            MirroringType::Server(s) => s.table(),
            MirroringType::Client(c) => c.table(),
        }
    }

    /// Whether the active mode has a live session: a listener up (hub) or a
    /// connection considered active (upstream).
    pub closed spec fn spec_active(&self) -> bool {
        match self.mirrortype {
            MirroringType::Server(s) => s.spec_listening(),
            MirroringType::Client(c) => c.spec_connected(),
        }
    }

    /// The upstream mode's pushed-but-not-yet-sent local record; the hub
    /// mode writes straight to its table and keeps none.
    pub closed spec fn pending(&self) -> Option<PlayerInfo> {
        match self.mirrortype {
            MirroringType::Server(_) => None,
            MirroringType::Client(c) => c.pending(),
        }
    }

    pub open spec fn wf(&self) -> bool {
        self.table().len() == 16
    }

    /// A fresh mirror starts in the upstream mode, disconnected, with an
    /// all-sentinel table.
    pub fn new() -> (m: PlayerMirror)
        ensures
            m.wf(),
            !m.spec_is_hub(),
            !m.spec_active(),
            m.pending() is None,
            forall|i: int| 0 <= i < 16 ==> m.table()[i] == PlayerInfo::spec_default(),
    {
        PlayerMirror { mirrortype: MirroringType::Client(PlayerMirrorClient::new()) }
    }

    pub fn is_hub(&self) -> (r: bool)
        ensures
            r == self.spec_is_hub(),
    {
        match &self.mirrortype {
            MirroringType::Server(_) => true,
            MirroringType::Client(_) => false,
        }
    }

    pub fn is_active(&self) -> (r: bool)
        ensures
            r == self.spec_active(),
    {
        match &self.mirrortype {
            MirroringType::Server(s) => s.is_listening(),
            MirroringType::Client(c) => c.is_connected(),
        }
    }

    /// The decision half of the connect command, taken before the transport
    /// attempts the outgoing connection: a hub gives up its listener first;
    /// an upstream endpoint reports whether its worker must be told to end
    /// the previous job. Either way no session is active afterwards — the
    /// endpoint becomes active only when the transport succeeds — and the
    /// mode itself does not change yet.
    pub fn connect_prepare(&mut self) -> (end_job: bool)
        requires
            old(self).wf(),
        ensures
            final(self).wf(),
            final(self).spec_is_hub() == old(self).spec_is_hub(),
            final(self).table() == old(self).table(),
            final(self).pending() == old(self).pending(),
            !final(self).spec_active(),
            old(self).spec_is_hub() ==> !end_job,
            !old(self).spec_is_hub() ==> end_job == old(self).spec_active(),
    {
        match &mut self.mirrortype {
            MirroringType::Server(s) => {
                s.shutdown();
                false
            },
            MirroringType::Client(c) => c.connect_begin(),
        }
    }

    /// The commit half of the connect command, applied only once the
    /// transport has the connection up: a hub is replaced by a fresh,
    /// connected upstream endpoint (its table starts over at the sentinel);
    /// an upstream endpoint keeps its state and becomes active. A failed
    /// attempt commits nothing: the endpoint stays inactive as prepared.
    pub fn connect_succeeded(&mut self)
        requires
            old(self).wf(),
        ensures
            final(self).wf(),
            !final(self).spec_is_hub(),
            final(self).spec_active(),
            old(self).spec_is_hub() ==> final(self).pending() is None && forall|i: int|
                0 <= i < 16 ==> final(self).table()[i] == PlayerInfo::spec_default(),
            !old(self).spec_is_hub() ==> final(self).table() == old(self).table() && final(self).pending() == old(self).pending(),
    {
        match &mut self.mirrortype {
            MirroringType::Server(_) => {
                let mut fresh = PlayerMirrorClient::new();
                fresh.connect_succeeded();
                self.mirrortype = MirroringType::Client(fresh);
            },
            MirroringType::Client(c) => {
                c.connect_succeeded();
            },
        }
    }

    /// The decision half of the bind command, taken before the transport
    /// attempts to bind the listener: a hub gives up its previous listener;
    /// an upstream endpoint is shut down, reporting whether its worker must
    /// be told to end its job. The mode itself does not change yet.
    pub fn bind_prepare(&mut self) -> (end_job: bool)
        requires
            old(self).wf(),
        ensures
            final(self).wf(),
            final(self).spec_is_hub() == old(self).spec_is_hub(),
            final(self).table() == old(self).table(),
            final(self).pending() == old(self).pending(),
            !final(self).spec_active(),
            old(self).spec_is_hub() ==> !end_job,
            !old(self).spec_is_hub() ==> end_job == old(self).spec_active(),
    {
        match &mut self.mirrortype {
            MirroringType::Server(s) => {
                s.bind_begin();
                false
            },
            MirroringType::Client(c) => c.shutdown(),
        }
    }

    /// The commit half of the bind command, applied with the transport's
    /// outcome: a hub records it; an upstream endpoint is replaced by a
    /// fresh, listening hub on success (its table starts over at the
    /// sentinel) and stands unchanged on failure.
    pub fn bind_completed(&mut self, bound: bool)
        requires
            old(self).wf(),
            !old(self).spec_active(),
        ensures
            final(self).wf(),
            final(self).spec_active() == bound,
            old(self).spec_is_hub() ==> final(self).spec_is_hub() && final(self).table() == old(self).table() && final(self).pending() == old(self).pending(),
            !old(self).spec_is_hub() && bound ==> final(self).spec_is_hub() && final(self).pending() is None && forall|i: int|
                0 <= i < 16 ==> final(self).table()[i] == PlayerInfo::spec_default(),
            !old(self).spec_is_hub() && !bound ==> !final(self).spec_is_hub() && final(self).table() == old(self).table() && final(self).pending() == old(self).pending(),
    {
        match &mut self.mirrortype {
            MirroringType::Server(s) => {
                s.bind_complete(bound);
            },
            MirroringType::Client(c) => {
                if bound {
                    let mut fresh = PlayerMirrorServer::new();
                    fresh.bind_complete(true);
                    self.mirrortype = MirroringType::Server(fresh);
                }
            },
        }
    }

    /// Tear down the active session or listener; safe when none is up.
    /// Reports whether an upstream worker must be told to end its job.
    pub fn shutdown(&mut self) -> (end_job: bool)
        requires
            old(self).wf(),
        ensures
            final(self).wf(),
            !final(self).spec_active(),
            final(self).spec_is_hub() == old(self).spec_is_hub(),
            final(self).table() == old(self).table(),
            final(self).pending() == old(self).pending(),
            old(self).spec_is_hub() ==> !end_job,
            !old(self).spec_is_hub() ==> end_job == old(self).spec_active(),
    {
        match &mut self.mirrortype {
            MirroringType::Server(s) => {
                s.shutdown();
                false
            },
            MirroringType::Client(c) => c.shutdown(),
        }
    }

    /// The driver's per-tick write of the local peer's state. Owed to
    /// succeed exactly when a session is active: the hub writes the record
    /// straight into the reserved local slot, the upstream endpoint leaves
    /// it for its worker's next outbound packet. With no active session the
    /// record is rejected and nothing changes.
    pub fn push_local_state(&mut self, info: PlayerInfo) -> (r: Result<(), MirrorError>)
        requires
            old(self).wf(),
        ensures
            final(self).wf(),
            final(self).spec_is_hub() == old(self).spec_is_hub(),
            final(self).spec_active() == old(self).spec_active(),
            !old(self).spec_active() ==> r == Result::<(), MirrorError>::Err(
                MirrorError::NotConnected,
            ) && final(self).table() == old(self).table() && final(self).pending() == old(self).pending(),
            old(self).spec_active() && old(self).spec_is_hub() ==> r is Ok && final(self).table()
                == old(self).table().update(15, info) && final(self).pending() is None,
            old(self).spec_active() && !old(self).spec_is_hub() ==> r is Ok && final(self).table()
                == old(self).table() && final(self).pending() == Some(info),
    {
        match &mut self.mirrortype {
            MirroringType::Server(s) => {
                if s.is_listening() {
                    s.push_position_to_streams(info);
                    Ok(())
                } else {
                    Err(MirrorError::NotConnected)
                }
            },
            MirroringType::Client(c) => c.push_position(info),
        }
    }

    /// The driver's per-tick read: the most recently merged table. The hub
    /// blanks its own reserved slot so it never renders itself; the
    /// upstream endpoint's copy already had the hub blank this peer's slot
    /// before sending it.
    pub fn snapshot(&self) -> (r: Vec<PlayerInfo>)
        requires
            self.wf(),
        ensures
            r@.len() == 16,
            self.spec_is_hub() ==> r@ == self.table().update(15, PlayerInfo::spec_default()),
            !self.spec_is_hub() ==> r@ == self.table(),
    {
        match &self.mirrortype {
            MirroringType::Server(s) => s.get_positions_from_streams(),
            MirroringType::Client(c) => c.get_other_positions(),
        }
    }

    /// One hub-side worker iteration on this mirror: see
    /// [`PlayerMirrorServer::hub_iteration`].
    pub fn hub_worker_iteration(&mut self, slot: usize, incoming: &[u8]) -> (r: Result<
        Vec<u8>,
        CodecError,
    >)
        requires
            old(self).wf(),
            old(self).spec_is_hub(),
            slot < 15,
        ensures
            final(self).wf(),
            final(self).spec_is_hub(),
            final(self).spec_active() == old(self).spec_active(),
            match r {
                Ok(reply) => {
                    &&& codec::spec_decode_record_ok(incoming@)
                    &&& final(self).table() == old(self).table().update(
                        slot as int,
                        codec::spec_decode_record(incoming@),
                    )
                    &&& reply@ == codec::spec_encode_array(
                        final(self).table().update(slot as int, PlayerInfo::spec_default()),
                    )
                },
                Err(e) => {
                    &&& !codec::spec_decode_record_ok(incoming@)
                    &&& e == CodecError::Malformed
                    &&& final(self).table() == old(self).table()
                },
            },
    {
        match &mut self.mirrortype {
            MirroringType::Server(s) => s.hub_iteration(slot, incoming),
            MirroringType::Client(_) => {
                proof {
                    assert(false);
                }
                Err(CodecError::Malformed)
            },
        }
    }

    /// The upstream worker's poll for a freshly pushed local record: see
    /// [`PlayerMirrorClient::take_pending`].
    pub fn upstream_take_pending(&mut self) -> (r: Option<PlayerInfo>)
        requires
            old(self).wf(),
            !old(self).spec_is_hub(),
        ensures
            final(self).wf(),
            !final(self).spec_is_hub(),
            final(self).spec_active() == old(self).spec_active(),
            final(self).table() == old(self).table(),
            r == old(self).pending(),
            final(self).pending() is None,
    {
        match &mut self.mirrortype {
            MirroringType::Server(_) => {
                proof {
                    assert(false);
                }
                None
            },
            MirroringType::Client(c) => c.take_pending(),
        }
    }

    /// The upstream worker's application of a hub reply: see
    /// [`PlayerMirrorClient::apply_reply`].
    pub fn upstream_apply_reply(&mut self, incoming: &[u8]) -> (r: Result<(), CodecError>)
        requires
            old(self).wf(),
            !old(self).spec_is_hub(),
        ensures
            final(self).wf(),
            !final(self).spec_is_hub(),
            final(self).spec_active() == old(self).spec_active(),
            final(self).pending() == old(self).pending(),
            match r {
                Ok(_) => codec::spec_decode_array_ok(incoming@) && final(self).table()
                    == codec::spec_decode_array(incoming@),
                Err(e) => {
                    &&& !codec::spec_decode_array_ok(incoming@)
                    &&& e == CodecError::Malformed
                    &&& final(self).table() == old(self).table()
                },
            },
    {
        match &mut self.mirrortype {
            MirroringType::Server(_) => {
                proof {
                    assert(false);
                }
                Err(CodecError::Malformed)
            },
            MirroringType::Client(c) => c.apply_reply(incoming),
        }
    }
}

} // verus!
