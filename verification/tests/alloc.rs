use trybox::{Error, ErrorWith};

fn require_send_sync<T: Send + Sync>(_: &T) {}

#[test]
fn new_moves_value_to_heap() {
    match trybox::new(41i32) {
        Ok(b) => {
            assert_eq!(*b.get(), 41);
            assert_eq!(b.into_inner(), 41);
        }
        Err(_) => panic!("allocation of an i32 failed"),
    }
}

#[test]
fn new_preserves_compound_values() {
    let v = vec![1u64, 2, 3, 4];
    match trybox::new(v.clone()) {
        Ok(b) => assert_eq!(b.into_inner(), v),
        Err(_) => panic!("allocation of a Vec failed"),
    }
}

#[test]
fn zero_sized_values_never_fail() {
    match trybox::new(()) {
        Ok(b) => assert_eq!(b.into_inner(), ()),
        Err(_) => panic!("a zero-sized allocation must succeed"),
    }
}

#[test]
fn or_drop_success_path() {
    match trybox::or_drop([7u8; 2048]) {
        Ok(b) => {
            assert_eq!(b.get()[0], 7);
            assert_eq!(b.get()[2047], 7);
        }
        Err(_) => panic!("allocation of a small array failed"),
    }
}

#[test]
fn error_is_one_word() {
    assert_eq!(std::mem::size_of::<Error>(), std::mem::size_of::<usize>());
}

#[test]
fn error_is_send_and_sync() {
    let e = ErrorWith(3u8).without_payload();
    require_send_sync(&e);
}

#[test]
fn layout_reports_size_and_align() {
    let e = ErrorWith(5i64).without_payload();
    let l = e.layout();
    assert_eq!(l.size, std::mem::size_of::<i64>());
    assert_eq!(l.align, std::mem::align_of::<i64>());
}

#[test]
fn layout_of_zero_sized_type() {
    let e = ErrorWith(()).without_payload();
    let l = e.layout();
    assert_eq!(l.size, 0);
    assert_eq!(l.align, 1);
}

#[test]
fn layout_is_idempotent() {
    let e = ErrorWith(5u128).without_payload();
    assert_eq!(e.layout(), e.layout());
    assert_eq!(e.layout(), e.layout());
}

#[test]
fn error_with_payload_keeps_value_and_layout() {
    let e = ErrorWith(String::from("abc"));
    assert_eq!(e.layout().size, std::mem::size_of::<String>());
    assert_eq!(e.layout().align, std::mem::align_of::<String>());
    assert_eq!(e.0, "abc");
}

#[test]
fn without_payload_runs_the_payload_destructor() {
    let rc = std::rc::Rc::new(0u8);
    let e = ErrorWith(rc.clone());
    assert_eq!(std::rc::Rc::strong_count(&rc), 2);
    let _small: Error = e.without_payload();
    assert_eq!(std::rc::Rc::strong_count(&rc), 1);
}
