//! The shared state table: a fixed sequence of exactly sixteen peer-state
//! records, one per peer slot, with the last slot reserved for the local
//! peer of this process. Every operation replaces or copies whole slots;
//! the table never grows or shrinks.

use vstd::prelude::*;

use crate::shared::PlayerInfo;

verus! {

/// Fixed-capacity table of one [`PlayerInfo`] per peer slot.
///
/// Slot indices `0..15` belong to remote peers in connection-assignment
/// order; slot [`crate::LOCAL_SLOT`] holds the local peer's record and is
/// blanked in outbound copies so a peer never receives its own state back.
pub struct SlotTable {
    slots: Vec<PlayerInfo>,
}

impl View for SlotTable {
    type V = Seq<PlayerInfo>;

    closed spec fn view(&self) -> Seq<PlayerInfo> {
        self.slots@
    }
}

impl SlotTable {
    /// Well-formedness: the table holds exactly sixteen records. Every
    /// constructor establishes it and every operation preserves it.
    pub open spec fn wf(&self) -> bool {
        self@.len() == 16
    }

    /// True when every slot still holds the sentinel "no data yet" record.
    pub open spec fn all_sentinel(&self) -> bool {
        forall|i: int| 0 <= i < self@.len() ==> self@[i] == PlayerInfo::spec_default()
    }

    /// A fresh table with every slot at the sentinel record.
    pub fn new() -> (t: SlotTable)
        ensures
            t.wf(),
            t.all_sentinel(),
    {
        let mut slots: Vec<PlayerInfo> = Vec::new();
        let mut i: usize = 0;
        while i < 16
            invariant
                i <= 16,
                slots@.len() == i,
                forall|j: int| 0 <= j < i ==> slots@[j] == PlayerInfo::spec_default(),
            decreases 16 - i,
        {
            slots.push(PlayerInfo::default());
            i = i + 1;
        }
        SlotTable { slots }
    }

    /// A snapshot: a copy of all sixteen slots as they stand.
    pub fn read(&self) -> (snapshot: Vec<PlayerInfo>)
        requires
            self.wf(),
        ensures
            snapshot@ == self@,
            snapshot@.len() == 16,
    {
        vstd::slice::slice_to_vec(self.slots.as_slice())
    }

    /// Replace one whole slot with `record`.
    pub fn write_slot(&mut self, index: usize, record: PlayerInfo)
        requires
            old(self).wf(),
            index < 16,
        ensures
            final(self).wf(),
            final(self)@ == old(self)@.update(index as int, record),
    {
        self.slots[index] = record;
    }

    /// Write the record of the local peer into its reserved slot.
    pub fn replace_local(&mut self, record: PlayerInfo)
        requires
            old(self).wf(),
        ensures
            final(self).wf(),
            final(self)@ == old(self)@.update(15, record),
    {
        self.write_slot(15, record);
    }

    /// A snapshot with slot `index` blanked to the sentinel, so the peer
    /// assigned to that slot never sees its own state echoed back.
    pub fn read_excluding(&self, index: usize) -> (snapshot: Vec<PlayerInfo>)
        requires
            self.wf(),
            index < 16,
        ensures
            snapshot@ == self@.update(index as int, PlayerInfo::spec_default()),
            snapshot@.len() == 16,
            snapshot@[index as int] == PlayerInfo::spec_default(),
    {
        let mut snapshot = self.read();
        snapshot[index] = PlayerInfo::default();
        snapshot
    }

    /// A snapshot with the local peer's reserved slot blanked.
    pub fn read_excluding_local(&self) -> (snapshot: Vec<PlayerInfo>)
        requires
            self.wf(),
        ensures
            snapshot@ == self@.update(15, PlayerInfo::spec_default()),
            snapshot@.len() == 16,
            snapshot@[15] == PlayerInfo::spec_default(),
    {
        self.read_excluding(15)
    }

    /// Replace the whole table with `records` (the upstream role applies a
    /// decoded full-snapshot reply this way).
    pub fn replace_all(&mut self, records: Vec<PlayerInfo>)
        requires
            old(self).wf(),
            records@.len() == 16,
        ensures
            final(self).wf(),
            final(self)@ == records@,
    {
        self.slots = records;
    }
}

/// Last write wins: writing slot `index` with `first` and then with
/// `second` leaves a table whose slot `index` reads back as `second`, and
/// leaves every other slot untouched.
pub proof fn lemma_last_write_wins(
    t: Seq<PlayerInfo>,
    index: int,
    first: PlayerInfo,
    second: PlayerInfo,
)
    requires
        0 <= index < t.len(),
    ensures
        t.update(index, first).update(index, second)[index] == second,
        forall|j: int|
            0 <= j < t.len() && j != index ==> t.update(index, first).update(index, second)[j]
                == t[j],
{
}

} // verus!
