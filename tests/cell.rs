use mutils::cell::{settle_read, settle_write, CellError, SharedCell};

#[test]
fn read_after_create_gives_initial_value() {
    let c = SharedCell::create(42i64);
    assert_eq!(c.read_copy(), Ok(42));
    let s = SharedCell::create("hello".to_string());
    assert_eq!(s.read_clone(), Ok("hello".to_string()));
}

#[test]
fn last_write_wins_under_sequential_access() {
    let c = SharedCell::create(0u32);
    for w in [5, 9, 2] {
        assert_eq!(c.write(w), Ok(()));
    }
    assert_eq!(c.read_copy(), Ok(2));
}

#[test]
fn handles_observe_the_same_slot() {
    let a = SharedCell::create(vec![1, 2]);
    let b = a.clone_handle();
    assert_eq!(b.write(vec![3]), Ok(()));
    assert_eq!(a.read_clone(), Ok(vec![3]));
}

#[test]
fn access_outcomes_map_to_cell_results() {
    assert_eq!(settle_read(Some(3u8)), Ok(3));
    assert_eq!(settle_read::<u8>(None), Err(CellError::PoisonedState));
    assert_eq!(settle_write::<u8>(Ok(())), Ok(()));
    assert_eq!(settle_write(Err(4u8)), Err(CellError::PoisonedState));
}
