//! Slot table tests: the fixed slot count, last-write-wins, and the
//! local-slot exclusion of outbound snapshots.

use player_mirror::shared::{Action, PlayerInfo, SerializableVector3};
use player_mirror::table::SlotTable;

fn rec(x: f32, y: f32, z: f32) -> PlayerInfo {
    PlayerInfo::new(
        SerializableVector3 {
            x: x.to_bits(),
            y: y.to_bits(),
            z: z.to_bits(),
        },
        SerializableVector3 { x: 0, y: 0, z: 0 },
        Action::Stand,
    )
}

#[test]
fn fresh_table_is_all_sentinel() {
    let table = SlotTable::new();
    let snapshot = table.read();
    assert_eq!(snapshot.len(), 16);
    for slot in snapshot {
        assert_eq!(slot, PlayerInfo::default());
    }
}

#[test]
fn slot_count_is_stable_under_any_sequence_of_updates() {
    let mut table = SlotTable::new();
    table.write_slot(0, rec(1.0, 0.0, 0.0));
    table.replace_local(rec(2.0, 0.0, 0.0));
    table.write_slot(14, rec(3.0, 0.0, 0.0));
    let replacement = table.read_excluding(3);
    table.replace_all(replacement);
    table.write_slot(7, rec(4.0, 0.0, 0.0));
    assert_eq!(table.read().len(), 16);
    assert_eq!(table.read_excluding_local().len(), 16);
}

#[test]
fn last_write_wins() {
    let mut table = SlotTable::new();
    let first = rec(1.0, 1.0, 1.0);
    let second = rec(2.0, 2.0, 2.0);
    table.write_slot(5, first);
    table.write_slot(5, second);
    let snapshot = table.read();
    assert_eq!(snapshot[5], second);
    for (i, slot) in snapshot.iter().enumerate() {
        if i != 5 {
            assert_eq!(*slot, PlayerInfo::default());
        }
    }
}

#[test]
fn read_excluding_local_blanks_the_reserved_slot() {
    let mut table = SlotTable::new();
    table.write_slot(0, rec(1.0, 0.0, 0.0));
    table.write_slot(15, rec(9.0, 9.0, 9.0));
    let snapshot = table.read_excluding_local();
    assert_eq!(snapshot[15], PlayerInfo::default());
    assert_eq!(snapshot[0], rec(1.0, 0.0, 0.0));
    // The table itself still holds the local record.
    assert_eq!(table.read()[15], rec(9.0, 9.0, 9.0));
}

#[test]
fn read_excluding_blanks_only_the_asked_slot() {
    let mut table = SlotTable::new();
    table.write_slot(2, rec(1.0, 0.0, 0.0));
    table.write_slot(3, rec(2.0, 0.0, 0.0));
    let snapshot = table.read_excluding(2);
    assert_eq!(snapshot[2], PlayerInfo::default());
    assert_eq!(snapshot[3], rec(2.0, 0.0, 0.0));
}
