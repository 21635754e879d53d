use ice_core::marshal::{
    CallbackTable, Discipline, MultiInvocation, SingleInvocation, WrapCallback,
};

#[test]
fn single_invocation_runs_exactly_once() {
    let mut table: CallbackTable<Box<dyn FnOnce(i32) -> i32>> = CallbackTable::new();
    let handle = match table.register(Discipline::Single, Box::new(|a| a + 1)) {
        Ok(handle) => handle,
        Err(_) => panic!("a fresh table has free handles"),
    };
    assert_eq!(handle, 0);
    let callback = table.claim(handle).expect("the handle is live");
    assert_eq!(callback(41), 42);
    assert!(table.claim(handle).is_none());
    assert!(table.borrow(handle).is_none());
    assert!(table.release(handle).is_none());
}

#[test]
fn multi_invocation_runs_as_often_as_called() {
    let mut table: CallbackTable<Box<dyn Fn(i32) -> i32>> = CallbackTable::new();
    let handle = match table.register(Discipline::Multi, Box::new(|a| a * 2)) {
        Ok(handle) => handle,
        Err(_) => panic!("a fresh table has free handles"),
    };
    let mut total = 0;
    for n in 0..5 {
        let callback = table.borrow(handle).expect("the handle stays live");
        total += callback(n);
    }
    assert_eq!(total, 20);
    assert!(table.claim(handle).is_none());
    assert!(table.borrow(handle).is_some());
    let callback = table.release(handle).expect("released once");
    assert_eq!(callback(4), 8);
    assert!(table.borrow(handle).is_none());
    assert!(table.release(handle).is_none());
}

#[test]
fn disciplines_are_kept_apart() {
    let mut table: CallbackTable<u8> = CallbackTable::new();
    assert_eq!(table.register(Discipline::Single, 10), Ok(0));
    assert_eq!(table.register(Discipline::Multi, 20), Ok(1));
    assert_eq!(table.borrow(0), None);
    assert_eq!(table.release(0), None);
    assert_eq!(table.claim(1), None);
    assert_eq!(table.borrow(1), Some(&20));
    assert_eq!(table.claim(0), Some(10));
    assert_eq!(table.release(1), Some(20));
}

#[test]
fn handles_are_the_least_free_numbers() {
    let mut table: CallbackTable<u8> = CallbackTable::new();
    assert_eq!(table.register(Discipline::Single, 1), Ok(0));
    assert_eq!(table.register(Discipline::Single, 2), Ok(1));
    assert_eq!(table.register(Discipline::Single, 3), Ok(2));
    assert_eq!(table.claim(1), Some(2));
    assert_eq!(table.register(Discipline::Multi, 4), Ok(1));
    assert_eq!(table.register(Discipline::Multi, 5), Ok(3));
    assert_eq!(table.claim(0), Some(1));
    assert_eq!(table.claim(2), Some(3));
    assert_eq!(table.borrow(1), Some(&4));
    assert_eq!(table.borrow(3), Some(&5));
}

#[test]
fn numbers_that_are_not_handles_get_nothing() {
    let mut table: CallbackTable<u8> = CallbackTable::new();
    assert_eq!(table.claim(0), None);
    assert_eq!(table.claim(-1), None);
    assert_eq!(table.claim(i32::MIN), None);
    assert_eq!(table.claim(i32::MAX), None);
    assert_eq!(table.borrow(-7), None);
    assert_eq!(table.release(12), None);
    assert_eq!(table.register(Discipline::Single, 1), Ok(0));
    assert_eq!(table.claim(1), None);
    assert_eq!(table.claim(0), Some(1));
}

#[test]
fn unclaimed_continuation_stays_in_the_table() {
    let mut table: CallbackTable<u8> = CallbackTable::new();
    assert_eq!(table.register(Discipline::Single, 1), Ok(0));
    assert_eq!(table.register(Discipline::Single, 2), Ok(1));
    assert_eq!(table.claim(1), Some(2));
    assert_eq!(table.register(Discipline::Single, 3), Ok(1));
    assert_eq!(table.claim(0), Some(1));
}

#[test]
fn type_of_the_value_picks_the_discipline() {
    let mut table: CallbackTable<u8> = CallbackTable::new();
    assert_eq!(SingleInvocation(7).wrap_callback(&mut table), Ok(0));
    assert_eq!(MultiInvocation(8).wrap_callback(&mut table), Ok(1));
    assert_eq!(table.borrow(0), None);
    assert_eq!(table.borrow(1), Some(&8));
    assert_eq!(table.claim(1), None);
    assert_eq!(table.claim(0), Some(7));
    assert_eq!(table.release(1), Some(8));
}
