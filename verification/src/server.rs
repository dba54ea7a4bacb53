//! The hub endpoint: the listening side. It owns the shared table that up to
//! fifteen connection workers merge remote records into, tracks whether the
//! listener is up, and performs each worker's per-iteration protocol step:
//! decode the peer's record, merge it into the peer's slot, and compose the
//! reply snapshot with that slot blanked. The listener socket, the worker
//! threads and the job channel live in the unverified shell.

use vstd::prelude::*;

use crate::codec::{
    decode_player_info, encode_player_array, lemma_array_round_trip, spec_decode_array,
    spec_decode_array_ok, spec_decode_record, spec_decode_record_ok, spec_encode_array, CodecError,
};
use crate::shared::{PlayerInfo, WorkerMessage};
use crate::table::SlotTable;

verus! {

/// Number of connection workers the hub keeps: one per possible remote
/// peer, the local slot excluded.
pub const WORKER_POOL_SIZE: usize = 15;

/// State of the hub ("server") endpoint.
pub struct PlayerMirrorServer {
    player_positions: SlotTable,
    listening: bool,
}

impl PlayerMirrorServer {
    /// The table contents.
    pub closed spec fn table(&self) -> Seq<PlayerInfo> {
        self.player_positions@
    }

    /// Whether the listener is considered up.
    pub closed spec fn spec_listening(&self) -> bool {
        self.listening
    }

    pub open spec fn wf(&self) -> bool {
        self.table().len() == 16
    }

    /// A fresh, non-listening endpoint with an all-sentinel table.
    pub fn new() -> (s: PlayerMirrorServer)
        ensures
            s.wf(),
            !s.spec_listening(),
            forall|i: int| 0 <= i < 16 ==> s.table()[i] == PlayerInfo::spec_default(),
    {
        PlayerMirrorServer { player_positions: SlotTable::new(), listening: false }
    }

    /// The decision half of `bind`: any previous listener is given up before
    /// the new bind is attempted, so a failed attempt leaves the endpoint
    /// not listening.
    pub fn bind_begin(&mut self)
        requires
            old(self).wf(),
        ensures
            final(self).wf(),
            !final(self).spec_listening(),
            final(self).table() == old(self).table(),
    {
        self.listening = false;
    }

    /// Record the outcome of the transport's bind attempt.
    pub fn bind_complete(&mut self, bound: bool)
        requires
            old(self).wf(),
        ensures
            final(self).wf(),
            final(self).spec_listening() == bound,
            final(self).table() == old(self).table(),
    {
        self.listening = bound;
    }

    pub fn is_listening(&self) -> (r: bool)
        ensures
            r == self.spec_listening(),
    {
        self.listening
    }

    /// Give up the listener; safe when none is up.
    pub fn shutdown(&mut self)
        requires
            old(self).wf(),
        ensures
            final(self).wf(),
            !final(self).spec_listening(),
            final(self).table() == old(self).table(),
    {
        self.listening = false;
    }

    /// The driver-facing read: a snapshot with the local peer's reserved
    /// slot blanked to the sentinel, so the hub never renders itself.
    pub fn get_positions_from_streams(&self) -> (snapshot: Vec<PlayerInfo>)
        requires
            self.wf(),
        ensures
            snapshot@ == self.table().update(15, PlayerInfo::spec_default()),
            snapshot@.len() == 16,
            snapshot@[15] == PlayerInfo::spec_default(),
    {
        self.player_positions.read_excluding_local()
    }

    /// The driver-facing write: replace the local peer's reserved slot.
    pub fn push_position_to_streams(&mut self, info: PlayerInfo)
        requires
            old(self).wf(),
        ensures
            final(self).wf(),
            final(self).table() == old(self).table().update(15, info),
            final(self).spec_listening() == old(self).spec_listening(),
    {
        self.player_positions.replace_local(info);
    }

    /// One protocol iteration of the hub-side worker bound to remote slot
    /// `slot`, on the bytes just read from its socket: decode the peer's
    /// record, merge it into the peer's slot, and compose the encoded reply
    /// snapshot with that slot blanked, so the peer never receives its own
    /// latest state back. A buffer too short for one record changes nothing
    /// and ends the session for the caller; other slots are unaffected
    /// either way.
    pub fn hub_iteration(&mut self, slot: usize, incoming: &[u8]) -> (r: Result<
        Vec<u8>,
        CodecError,
    >)
        requires
            old(self).wf(),
            slot < 15,
        ensures
            final(self).wf(),
            final(self).spec_listening() == old(self).spec_listening(),
            match r {
                Ok(reply) => {
                    &&& spec_decode_record_ok(incoming@)
                    &&& final(self).table() == old(self).table().update(
                        slot as int,
                        spec_decode_record(incoming@),
                    )
                    &&& reply@ == spec_encode_array(
                        final(self).table().update(slot as int, PlayerInfo::spec_default()),
                    )
                    &&& reply@.len() == 456
                },
                Err(e) => {
                    &&& !spec_decode_record_ok(incoming@)
                    &&& e == CodecError::Malformed
                    &&& final(self).table() == old(self).table()
                },
            },
    {
        match decode_player_info(incoming) {
            Ok(record) => {
                self.player_positions.write_slot(slot, record);
                let outbound = self.player_positions.read_excluding(slot);
                Ok(encode_player_array(&outbound))
            },
            Err(e) => Err(e),
        }
    }
}

/// One full hub round, as the peer sees it: after its record `p` is merged
/// into slot `slot`, the reply it receives decodes to the merged table with
/// exactly its own slot blanked to the sentinel — every other peer's state
/// comes through as merged, and its own never echoes back.
pub proof fn lemma_hub_round(t: Seq<PlayerInfo>, slot: int, p: PlayerInfo)
    requires
        t.len() == 16,
        0 <= slot < 15,
    ensures
        ({
            let merged = t.update(slot, p);
            let reply = spec_encode_array(merged.update(slot, PlayerInfo::spec_default()));
            &&& merged[slot] == p
            &&& spec_decode_array_ok(reply)
            &&& spec_decode_array(reply)[slot] == PlayerInfo::spec_default()
            &&& forall|j: int|
                0 <= j < 16 && j != slot ==> spec_decode_array(reply)[j] == merged[j]
        }),
{
    let merged = t.update(slot, p);
    lemma_array_round_trip(merged.update(slot, PlayerInfo::spec_default()));
}

/// The hub's per-tick dispatch: every connection the listener accepted
/// becomes one `Work` job for the worker pool, in order.
pub fn dispatch_accepted<S>(connections: Vec<S>) -> (jobs: Vec<WorkerMessage<S>>)
    ensures
        jobs@.len() == connections@.len(),
        forall|i: int|
            0 <= i < jobs@.len() ==> jobs@[i] == WorkerMessage::Work(connections@[i]),
{
    let ghost original = connections@;
    let mut remaining = connections;
    let mut jobs: Vec<WorkerMessage<S>> = Vec::new();
    while remaining.len() > 0
        invariant
            jobs@.len() + remaining@.len() == original.len(),
            remaining@ == original.subrange(jobs@.len() as int, original.len() as int),
            forall|i: int| 0 <= i < jobs@.len() ==> jobs@[i] == WorkerMessage::Work(original[i]),
        decreases remaining@.len(),
    {
        let conn = remaining.remove(0);
        proof {
            assert(conn == original[jobs@.len() as int]);
        }
        jobs.push(WorkerMessage::Work(conn));
        proof {
            assert(remaining@ =~= original.subrange(jobs@.len() as int, original.len() as int));
        }
    }
    jobs
}

} // verus!
