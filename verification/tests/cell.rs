use gimbal_core::cell::BroadcastCell;

#[test]
fn a_new_cell_has_no_value() {
    let cell: BroadcastCell<u32, 1> = BroadcastCell::new();
    assert_eq!(cell.read_latest(), None);
    assert_eq!(cell.read_latest(), None);
    assert_eq!(cell.reader_count(), 0);
}

#[test]
fn a_written_value_stays_until_the_next_write() {
    let mut cell: BroadcastCell<u32, 2> = BroadcastCell::new();
    cell.write(7);
    for _ in 0..5 {
        assert_eq!(cell.read_latest(), Some(7));
    }
    let reader = cell.subscribe().unwrap();
    assert_eq!(cell.read_latest(), Some(7));
    assert_eq!(cell.poll_change(reader), Some(7));
    assert_eq!(cell.poll_change(reader), None);
    assert_eq!(cell.read_latest(), Some(7));
    cell.write(8);
    assert_eq!(cell.read_latest(), Some(8));
}

#[test]
fn a_poll_yields_only_the_newest_write() {
    let mut cell: BroadcastCell<u32, 1> = BroadcastCell::new();
    let reader = cell.subscribe().unwrap();
    cell.write(1);
    cell.write(2);
    cell.write(3);
    assert_eq!(cell.poll_change(reader), Some(3));
    assert_eq!(cell.poll_change(reader), None);
    assert_eq!(cell.read_latest(), Some(3));
}

#[test]
fn a_poll_before_the_first_write_yields_nothing() {
    let mut cell: BroadcastCell<bool, 1> = BroadcastCell::new();
    let reader = cell.subscribe().unwrap();
    assert_eq!(cell.poll_change(reader), None);
    assert_eq!(cell.poll_change(reader), None);
    cell.write(false);
    assert_eq!(cell.poll_change(reader), Some(false));
}

#[test]
fn each_write_is_one_change_even_of_the_same_value() {
    let mut cell: BroadcastCell<u8, 1> = BroadcastCell::new();
    let reader = cell.subscribe().unwrap();
    cell.write(5);
    assert_eq!(cell.poll_change(reader), Some(5));
    cell.write(5);
    assert_eq!(cell.poll_change(reader), Some(5));
    assert_eq!(cell.poll_change(reader), None);
}

#[test]
fn readers_observe_on_their_own() {
    let mut cell: BroadcastCell<u32, 3> = BroadcastCell::new();
    let first = cell.subscribe().unwrap();
    let second = cell.subscribe().unwrap();
    assert_eq!(cell.reader_count(), 2);
    cell.write(10);
    assert_eq!(cell.poll_change(first), Some(10));
    cell.write(11);
    assert_eq!(cell.poll_change(second), Some(11));
    assert_eq!(cell.poll_change(second), None);
    assert_eq!(cell.poll_change(first), Some(11));
    assert_eq!(cell.poll_change(first), None);
}

#[test]
fn a_late_reader_gets_the_value_already_held() {
    let mut cell: BroadcastCell<u32, 2> = BroadcastCell::new();
    cell.write(1);
    cell.write(2);
    let reader = cell.subscribe().unwrap();
    assert_eq!(cell.poll_change(reader), Some(2));
    assert_eq!(cell.poll_change(reader), None);
}

#[test]
fn no_more_readers_than_the_cell_has_room_for() {
    let mut cell: BroadcastCell<u32, 2> = BroadcastCell::new();
    assert!(cell.subscribe().is_some());
    assert!(cell.subscribe().is_some());
    assert!(cell.subscribe().is_none());
    assert_eq!(cell.reader_count(), 2);
    let mut none: BroadcastCell<u32, 0> = BroadcastCell::new();
    assert!(none.subscribe().is_none());
    none.write(4);
    assert_eq!(none.read_latest(), Some(4));
}

#[test]
fn a_reader_of_another_cell_gets_nothing() {
    let mut wide: BroadcastCell<u32, 2> = BroadcastCell::new();
    let _ = wide.subscribe().unwrap();
    let second = wide.subscribe().unwrap();
    let mut narrow: BroadcastCell<u32, 2> = BroadcastCell::new();
    let _ = narrow.subscribe().unwrap();
    narrow.write(9);
    assert_eq!(narrow.poll_change(second), None);
    assert_eq!(narrow.read_latest(), Some(9));
}
