use glbind::table::LocationTable;
use glbind::table::build_table;

#[test]
fn built_table_holds_exactly_the_resolved_names() {
    let names = vec![b"position".to_vec(), b"normal".to_vec(), b"uv".to_vec()];
    let locs = vec![Some(0i32), None, Some(2i32)];
    let t = build_table(&names, locs);
    assert_eq!(t.len(), 2);
    assert_eq!(t.get(&b"position".to_vec()), Some(&0));
    assert!(t.get(&b"normal".to_vec()).is_none());
    assert_eq!(t.get(&b"uv".to_vec()), Some(&2));
}

#[test]
fn built_table_lets_the_last_declaration_win() {
    let names = vec![b"position".to_vec(), b"position".to_vec()];
    let locs = vec![Some(0i32), Some(5i32)];
    let t = build_table(&names, locs);
    assert_eq!(t.len(), 1);
    assert_eq!(t.get(&b"position".to_vec()), Some(&5));
}

#[test]
fn built_table_keeps_an_earlier_resolution_when_the_later_one_is_eliminated() {
    let names = vec![b"position".to_vec(), b"position".to_vec()];
    let locs = vec![Some(1i32), None];
    let t = build_table(&names, locs);
    assert_eq!(t.len(), 1);
    assert_eq!(t.get(&b"position".to_vec()), Some(&1));
}

#[test]
fn empty_table_has_no_entries() {
    let t: LocationTable<i32> = LocationTable::new();
    assert_eq!(t.len(), 0);
    assert!(t.get(&b"position".to_vec()).is_none());
}

#[test]
fn inserted_name_is_found() {
    let mut t: LocationTable<i32> = LocationTable::new();
    t.insert(b"position".to_vec(), 0);
    t.insert(b"normal".to_vec(), 1);
    assert_eq!(t.len(), 2);
    assert_eq!(t.get(&b"position".to_vec()), Some(&0));
    assert_eq!(t.get(&b"normal".to_vec()), Some(&1));
    assert!(t.get(&b"uv".to_vec()).is_none());
}

#[test]
fn reinserting_a_name_overwrites_without_duplicating() {
    let mut t: LocationTable<i32> = LocationTable::new();
    t.insert(b"position".to_vec(), 0);
    t.insert(b"normal".to_vec(), 1);
    t.insert(b"position".to_vec(), 7);
    assert_eq!(t.len(), 2);
    assert_eq!(t.get(&b"position".to_vec()), Some(&7));
    assert_eq!(t.get(&b"normal".to_vec()), Some(&1));
}

#[test]
fn keys_keep_insertion_order() {
    let mut t: LocationTable<i32> = LocationTable::new();
    t.insert(b"position".to_vec(), 0);
    t.insert(b"normal".to_vec(), 1);
    t.insert(b"position".to_vec(), 7);
    assert_eq!(t.key_at(0), &b"position".to_vec());
    assert_eq!(t.key_at(1), &b"normal".to_vec());
    assert_eq!(t.value_at(0), &7);
    assert_eq!(t.value_at(1), &1);
}
