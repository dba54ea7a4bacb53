//! The upstream endpoint: a single outgoing connection that pushes the local
//! peer's state each tick and replaces its whole table with the hub's reply.
//! The socket, the worker thread and the channel live in the unverified
//! shell; this module holds the endpoint's state and every decision and
//! data transformation the role makes.

use vstd::prelude::*;

use crate::codec::{
    decode_player_array, encode_player_info, spec_decode_array, spec_decode_array_ok,
    spec_encode_record, CodecError,
};
use crate::shared::{MirrorError, PlayerInfo};
use crate::table::SlotTable;

verus! {

/// State of the upstream ("client") endpoint: the shared table the worker
/// fills from hub replies, whether a session is considered active, and the
/// most recently pushed local record not yet taken by the worker.
pub struct PlayerMirrorClient {
    player_positions: SlotTable,
    connected: bool,
    pending_local: Option<PlayerInfo>,
}

impl PlayerMirrorClient {
    /// The table contents.
    pub closed spec fn table(&self) -> Seq<PlayerInfo> {
        self.player_positions@
    }

    /// Whether a session is considered active.
    pub closed spec fn spec_connected(&self) -> bool {
        self.connected
    }

    /// The local record pushed since the worker last took one, if any.
    pub closed spec fn pending(&self) -> Option<PlayerInfo> {
        self.pending_local
    }

    pub open spec fn wf(&self) -> bool {
        self.table().len() == 16
    }

    /// A fresh, disconnected endpoint with an all-sentinel table.
    pub fn new() -> (c: PlayerMirrorClient)
        ensures
            c.wf(),
            !c.spec_connected(),
            c.pending() is None,
            forall|i: int| 0 <= i < 16 ==> c.table()[i] == PlayerInfo::spec_default(),
    {
        PlayerMirrorClient {
            player_positions: SlotTable::new(),
            connected: false,
            pending_local: None,
        }
    }

    /// The decision half of `connect`: if a session is already active its
    /// worker must be told to end its job before the new connection is
    /// handed over. The endpoint then counts as disconnected until the
    /// transport succeeds — a failed attempt leaves no active session, so
    /// pushes keep being rejected with `NotConnected`.
    pub fn connect_begin(&mut self) -> (end_previous: bool)
        requires
            old(self).wf(),
        ensures
            final(self).wf(),
            end_previous == old(self).spec_connected(),
            !final(self).spec_connected(),
            final(self).table() == old(self).table(),
            final(self).pending() == old(self).pending(),
    {
        let was_connected = self.connected;
        self.connected = false;
        was_connected
    }

    /// The commit half of `connect`, applied only once the transport has
    /// the connection up: from here on a session is active.
    pub fn connect_succeeded(&mut self)
        requires
            old(self).wf(),
        ensures
            final(self).wf(),
            final(self).spec_connected(),
            final(self).table() == old(self).table(),
            final(self).pending() == old(self).pending(),
    {
        self.connected = true;
    }

    /// Tear down the active session, if any: reports whether the worker must
    /// be told to end its job, and marks the endpoint disconnected.
    pub fn shutdown(&mut self) -> (end_job: bool)
        requires
            old(self).wf(),
        ensures
            final(self).wf(),
            end_job == old(self).spec_connected(),
            !final(self).spec_connected(),
            final(self).table() == old(self).table(),
            final(self).pending() == old(self).pending(),
    {
        let was_connected = self.connected;
        self.connected = false;
        was_connected
    }

    pub fn is_connected(&self) -> (r: bool)
        ensures
            r == self.spec_connected(),
    {
        self.connected
    }

    /// A copy of the whole table as last replaced by a hub reply.
    pub fn get_other_positions(&self) -> (snapshot: Vec<PlayerInfo>)
        requires
            self.wf(),
        ensures
            snapshot@ == self.table(),
            snapshot@.len() == 16,
    {
        self.player_positions.read()
    }

    /// Record the local peer's state for the worker's next outbound write.
    /// Owed to succeed exactly when a session is active; with none, the
    /// record is rejected and nothing changes.
    pub fn push_position(&mut self, info: PlayerInfo) -> (r: Result<(), MirrorError>)
        requires
            old(self).wf(),
        ensures
            final(self).wf(),
            final(self).table() == old(self).table(),
            final(self).spec_connected() == old(self).spec_connected(),
            old(self).spec_connected() ==> r is Ok && final(self).pending() == Some(info),
            !old(self).spec_connected() ==> r == Result::<(), MirrorError>::Err(
                MirrorError::NotConnected,
            ) && final(self).pending() == old(self).pending(),
    {
        if self.connected {
            self.pending_local = Some(info);
            Ok(())
        } else {
            Err(MirrorError::NotConnected)
        }
    }

    /// The worker's non-blocking poll for a freshly pushed local record:
    /// takes the pending record, leaving none.
    pub fn take_pending(&mut self) -> (r: Option<PlayerInfo>)
        requires
            old(self).wf(),
        ensures
            final(self).wf(),
            r == old(self).pending(),
            final(self).pending() is None,
            final(self).table() == old(self).table(),
            final(self).spec_connected() == old(self).spec_connected(),
    {
        self.pending_local.take()
    }

    /// The receiving half of one upstream protocol iteration: on a
    /// successful decode of the hub's full-snapshot reply the whole table
    /// is replaced with it; a malformed reply changes nothing and ends the
    /// session for the caller.
    pub fn apply_reply(&mut self, incoming: &[u8]) -> (r: Result<(), CodecError>)
        requires
            old(self).wf(),
        ensures
            final(self).wf(),
            final(self).spec_connected() == old(self).spec_connected(),
            final(self).pending() == old(self).pending(),
            match r {
                Ok(_) => spec_decode_array_ok(incoming@) && final(self).table()
                    == spec_decode_array(incoming@),
                Err(e) => {
                    &&& !spec_decode_array_ok(incoming@)
                    &&& e == CodecError::Malformed
                    &&& final(self).table() == old(self).table()
                },
            },
    {
        match decode_player_array(incoming) {
            Ok(records) => {
                self.player_positions.replace_all(records);
                Ok(())
            },
            Err(e) => Err(e),
        }
    }
}

/// The worker-local state of one upstream session: the last local record it
/// knows of, written out every iteration whether or not the driver pushed a
/// fresh one since the last write.
pub struct UpstreamSession {
    last_known: PlayerInfo,
}

impl UpstreamSession {
    /// The record the session would write out if the driver pushes nothing.
    pub closed spec fn last(&self) -> PlayerInfo {
        self.last_known
    }

    /// A fresh session starts from the sentinel record.
    pub fn new() -> (s: UpstreamSession)
        ensures
            s.last() == PlayerInfo::spec_default(),
    {
        UpstreamSession { last_known: PlayerInfo::default() }
    }

    /// The sending half of one upstream protocol iteration: take the
    /// freshly pushed record if there is one, else repeat the last known
    /// one, remember it, and encode it for the socket.
    pub fn outgoing_packet(&mut self, fresh: Option<PlayerInfo>) -> (out: Vec<u8>)
        ensures
            final(self).last() == match fresh {
                Some(info) => info,
                None => old(self).last(),
            },
            out@ == spec_encode_record(final(self).last()),
            out@.len() == 28,
    {
        match fresh {
            Some(info) => {
                self.last_known = info;
            },
            None => {},
        }
        encode_player_info(&self.last_known)
    }
}

} // verus!
