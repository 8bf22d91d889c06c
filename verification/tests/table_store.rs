use casinc::identity::Identity;
use casinc::table::Table;

fn named(n: u8) -> Identity {
    Identity::new([n; 32])
}

#[test]
fn an_empty_table_holds_nothing() {
    let table: Table<u64> = Table::new();
    assert!(!table.contains(&named(1)));
    assert_eq!(table.get(&named(1)), None);
}

#[test]
fn what_is_put_is_found_again() {
    let mut table: Table<u64> = Table::new();
    table.put(named(1), 10);
    table.put(named(2), 20);
    assert!(table.contains(&named(1)));
    assert_eq!(table.get(&named(1)), Some(&10));
    assert_eq!(table.get(&named(2)), Some(&20));
    assert_eq!(table.get(&named(3)), None);
}

#[test]
fn putting_again_replaces() {
    let mut table: Table<u64> = Table::new();
    table.put(named(1), 10);
    table.put(named(2), 20);
    table.put(named(1), 11);
    assert_eq!(table.get(&named(1)), Some(&11));
    assert_eq!(table.get(&named(2)), Some(&20));
    assert_eq!(table.take(&named(1)), Some(11));
    assert_eq!(table.take(&named(1)), None);
}

#[test]
fn taking_removes_one_entry_only() {
    let mut table: Table<u64> = Table::new();
    table.put(named(1), 10);
    table.put(named(2), 20);
    table.put(named(3), 30);
    assert_eq!(table.take(&named(2)), Some(20));
    assert!(!table.contains(&named(2)));
    assert_eq!(table.get(&named(1)), Some(&10));
    assert_eq!(table.get(&named(3)), Some(&30));
    assert_eq!(table.take(&named(4)), None);
    assert_eq!(table.get(&named(1)), Some(&10));
}
