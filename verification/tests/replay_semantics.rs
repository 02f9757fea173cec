//! Full-state replay on concrete values: dropping every update but the
//! last one for an item leaves the item in the same final state.

use feed_bridge::replay::final_item_state;

#[test]
fn last_update_alone_gives_the_same_final_state() {
    let init = vec![(1u64, "A".to_string()), (2u64, "X".to_string())];
    let all_updates = vec![
        (1u64, "B".to_string()),
        (2u64, "Y".to_string()),
        (1u64, "C".to_string()),
    ];
    // Only the last update per item, as a lagging consumer might see it.
    let last_only = vec![(2u64, "Y".to_string()), (1u64, "C".to_string())];
    for key in [1u64, 2u64] {
        let full = final_item_state(&init, &all_updates, key);
        let thin = final_item_state(&init, &last_only, key);
        assert_eq!(full, thin);
    }
    assert_eq!(final_item_state(&init, &all_updates, 1), Some(&"C".to_string()));
    assert_eq!(final_item_state(&init, &all_updates, 2), Some(&"Y".to_string()));
}

#[test]
fn item_without_updates_keeps_its_snapshot_state() {
    let init = vec![(5u64, "kept".to_string())];
    let updates = vec![(6u64, "other".to_string())];
    assert_eq!(final_item_state(&init, &updates, 5), Some(&"kept".to_string()));
    assert_eq!(final_item_state(&init, &updates, 6), Some(&"other".to_string()));
}

#[test]
fn absent_item_has_no_state() {
    let init: Vec<(u64, String)> = vec![];
    let updates: Vec<(u64, String)> = vec![];
    assert_eq!(final_item_state(&init, &updates, 9), None);
}

#[test]
fn update_overrides_snapshot_entry() {
    let init = vec![(1u64, "old".to_string())];
    let updates = vec![(1u64, "new".to_string())];
    assert_eq!(final_item_state(&init, &updates, 1), Some(&"new".to_string()));
}
