use libiguana::traps::{TrapTable, TRAP_SLOTS};
use libiguana::LibiguanaError;

fn used_flags(table: &TrapTable) -> Vec<bool> {
    (0..=255u8).map(|slot| table.is_used(slot)).collect()
}

#[test]
fn a_new_table_is_empty() {
    let table = TrapTable::new();
    assert_eq!(TRAP_SLOTS, 255);
    assert!(table.traps().is_empty());
    assert!(used_flags(&table).iter().all(|used| !used));
    assert_eq!(table.lookup(0x8000), None);
    assert!(matches!(table.lowest_free_slot(), Ok(0)));
}

#[test]
fn traps_get_the_lowest_free_slot() {
    let mut table = TrapTable::new();
    assert!(matches!(table.define(0x8000), Ok(0)));
    assert!(matches!(table.define(0x8004), Ok(1)));
    assert!(matches!(table.define(0x8008), Ok(2)));
    assert_eq!(table.lookup(0x8000), Some(0));
    assert_eq!(table.lookup(0x8004), Some(1));
    assert_eq!(table.lookup(0x8008), Some(2));
    assert!(matches!(table.remove(0x8004), Ok(1)));
    assert_eq!(table.lookup(0x8004), None);
    assert!(!table.is_used(1));
    assert!(matches!(table.define(0x9000), Ok(1)));
    assert!(matches!(table.define(0x9004), Ok(3)));
    let traps = table.traps();
    assert_eq!(traps.len(), 4);
    assert_eq!(traps.get(&0x9000), Some(&1));
    assert_eq!(traps.get(&0x9004), Some(&3));
}

#[test]
fn define_then_remove_restores_the_flags() {
    for address in [0u32, 4, 0x8000, 0xDEAD_BEEF, u32::MAX] {
        let mut table = TrapTable::new();
        table.define(0x100).unwrap();
        table.define(0x104).unwrap();
        table.define(0x108).unwrap();
        table.remove(0x104).unwrap();
        let before = used_flags(&table);
        table.define(address).unwrap();
        assert_ne!(used_flags(&table), before);
        table.remove(address).unwrap();
        assert_eq!(used_flags(&table), before);
    }
}

#[test]
fn define_then_remove_restores_the_flags_of_a_known_address() {
    let mut table = TrapTable::new();
    table.define(0x100).unwrap();
    let before = used_flags(&table);
    assert!(matches!(table.define(0x100), Ok(1)));
    assert_eq!(table.lookup(0x100), Some(1));
    assert!(matches!(table.remove(0x100), Ok(1)));
    assert_eq!(used_flags(&table), before);
}

#[test]
fn the_table_holds_255_traps_and_no_more() {
    let mut table = TrapTable::new();
    for call in 0..255u32 {
        match table.define(0x8000 + 4 * call) {
            Ok(slot) => assert_eq!(u32::from(slot), call),
            Err(error) => panic!("call {call} failed with {error:?}"),
        }
    }
    assert!(matches!(table.define(0x1_0000), Err(LibiguanaError::TooManyTraps)));
    assert!(matches!(table.lowest_free_slot(), Err(LibiguanaError::TooManyTraps)));
    assert_eq!(table.traps().len(), 255);
    assert!(!table.is_used(255));
    assert!((0..255u8).all(|slot| table.is_used(slot)));
}

#[test]
fn the_capacity_does_not_depend_on_the_addresses() {
    let mut same = TrapTable::new();
    for call in 0..255u32 {
        assert!(same.define(0x8000).is_ok(), "call {call} failed");
    }
    assert!(matches!(same.define(0x8000), Err(LibiguanaError::TooManyTraps)));
    assert!(matches!(same.define(0x9000), Err(LibiguanaError::TooManyTraps)));
    assert_eq!(same.lookup(0x8000), Some(254));

    let mut mixed = TrapTable::new();
    for call in 0..255u32 {
        assert!(mixed.define(call % 7).is_ok(), "call {call} failed");
    }
    assert!(matches!(mixed.define(3), Err(LibiguanaError::TooManyTraps)));
}

#[test]
fn a_full_table_has_room_again_after_a_removal() {
    let mut table = TrapTable::new();
    for call in 0..255u32 {
        table.define(call).unwrap();
    }
    assert!(matches!(table.define(999), Err(LibiguanaError::TooManyTraps)));
    assert!(matches!(table.remove(100), Ok(100)));
    assert!(matches!(table.define(999), Ok(100)));
    assert!(matches!(table.define(1000), Err(LibiguanaError::TooManyTraps)));
}

#[test]
fn removing_an_unknown_address_fails_and_changes_nothing() {
    let mut table = TrapTable::new();
    assert!(matches!(
        table.remove(0x8000),
        Err(LibiguanaError::NoTrapForAddress(0x8000))
    ));
    table.define(0x8000).unwrap();
    table.define(0x8004).unwrap();
    let flags = used_flags(&table);
    let traps = table.traps();
    assert!(matches!(
        table.remove(0x8008),
        Err(LibiguanaError::NoTrapForAddress(0x8008))
    ));
    assert_eq!(used_flags(&table), flags);
    assert_eq!(table.traps(), traps);
}

#[test]
fn removing_twice_fails_the_second_time() {
    let mut table = TrapTable::new();
    table.define(42).unwrap();
    assert!(matches!(table.remove(42), Ok(0)));
    let flags = used_flags(&table);
    assert!(matches!(table.remove(42), Err(LibiguanaError::NoTrapForAddress(42))));
    assert_eq!(used_flags(&table), flags);
}

#[test]
fn reset_clears_everything() {
    let mut table = TrapTable::new();
    for address in 0..40u32 {
        table.define(address).unwrap();
    }
    table.reset();
    assert!(table.traps().is_empty());
    assert!(used_flags(&table).iter().all(|used| !used));
    assert!(matches!(table.define(7), Ok(0)));
}

#[test]
fn plan_define_names_the_slot_that_define_takes() {
    let mut table = TrapTable::new();
    table.define(0x10).unwrap();
    let command = table.plan_define(0x0000_8000).unwrap();
    assert_eq!(
        command,
        vec![
            0x30, 1, 0xFF, 0x0F, 0x00, 0x80, 0x00, 0x00, 0xFF, 0xFF, 0xFF, 0xFF, 0, 0, 0, 0, 0,
            0, 0, 0
        ]
    );
    assert_eq!(table.lookup(0x8000), None);
    assert!(table.commit_define(0x8000, Ok(())).is_ok());
    assert_eq!(table.lookup(0x8000), Some(1));
    assert!(table.is_used(1));
}

#[test]
fn a_define_that_was_not_sent_is_not_recorded() {
    let mut table = TrapTable::new();
    let flags = used_flags(&table);
    let result = table.commit_define(0x8000, Err(LibiguanaError::NoStdin));
    assert!(matches!(result, Err(LibiguanaError::NoStdin)));
    assert_eq!(table.lookup(0x8000), None);
    assert_eq!(used_flags(&table), flags);
}

#[test]
fn plan_define_fails_on_a_full_table() {
    let mut table = TrapTable::new();
    for address in 0..255u32 {
        table.define(address).unwrap();
    }
    assert!(matches!(table.plan_define(1000), Err(LibiguanaError::TooManyTraps)));
    assert!(matches!(
        table.commit_define(1000, Ok(())),
        Err(LibiguanaError::TooManyTraps)
    ));
    assert_eq!(table.lookup(1000), None);
}

#[test]
fn plan_remove_names_the_slot_of_the_address() {
    let mut table = TrapTable::new();
    table.define(0x10).unwrap();
    table.define(0x20).unwrap();
    assert_eq!(table.plan_remove(0x20).unwrap(), vec![0, 0, 0, 0, 1, 0, 0, 0]);
    assert_eq!(table.lookup(0x20), Some(1));
    assert!(table.commit_remove(0x20, Ok(())).is_ok());
    assert_eq!(table.lookup(0x20), None);
    assert!(!table.is_used(1));
    assert!(table.is_used(0));
}

#[test]
fn plan_remove_fails_for_an_unknown_address() {
    let mut table = TrapTable::new();
    table.define(0x10).unwrap();
    assert!(matches!(
        table.plan_remove(0x20),
        Err(LibiguanaError::NoTrapForAddress(0x20))
    ));
    assert!(matches!(
        table.commit_remove(0x20, Ok(())),
        Err(LibiguanaError::NoTrapForAddress(0x20))
    ));
    assert_eq!(table.lookup(0x10), Some(0));
}

#[test]
fn a_remove_that_was_not_sent_keeps_the_trap() {
    let mut table = TrapTable::new();
    table.define(0x10).unwrap();
    let result = table.commit_remove(0x10, Err(LibiguanaError::NoStdin));
    assert!(matches!(result, Err(LibiguanaError::NoStdin)));
    assert_eq!(table.lookup(0x10), Some(0));
    assert!(table.is_used(0));
}

#[test]
fn reset_empties_the_table_whether_or_not_it_was_sent() {
    let mut table = TrapTable::new();
    table.define(1).unwrap();
    table.define(2).unwrap();
    assert!(table.commit_reset(Ok(())).is_ok());
    assert!(table.traps().is_empty());
    assert!(!table.is_used(0));

    table.define(1).unwrap();
    table.define(2).unwrap();
    let result = table.commit_reset(Err(LibiguanaError::NoStdin));
    assert!(matches!(result, Err(LibiguanaError::NoStdin)));
    assert!(table.traps().is_empty());
    assert!(used_flags(&table).iter().all(|used| !used));
}
