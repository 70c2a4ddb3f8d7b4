use owned_drop::{drop_owned, DropOwned, OwnedDroppable};
use std::cell::RefCell;
use std::rc::Rc;

/// A value whose owned teardown appends its element to an external log —
/// an operation that needs the value by full ownership.
struct PushOnDrop {
    elt: i32,
    log: Rc<RefCell<Vec<i32>>>,
}

impl OwnedDroppable for PushOnDrop {
    fn drop_owned(self) {
        self.log.borrow_mut().push(self.elt);
    }
}

/// A value whose owned teardown has no effect.
struct Inert(u8);

impl OwnedDroppable for Inert {
    fn drop_owned(self) {}
}

fn new_log() -> Rc<RefCell<Vec<i32>>> {
    Rc::new(RefCell::new(Vec::new()))
}

#[test]
fn finalize_runs_finalizer_exactly_once() {
    let log = new_log();
    let mut w = DropOwned::new(PushOnDrop {
        elt: 5,
        log: Rc::clone(&log),
    });
    assert!(log.borrow().is_empty());
    let ran = w.finalize();
    assert!(ran);
    assert_eq!(*log.borrow(), vec![5]);
    let ran_again = w.finalize();
    assert!(!ran_again);
    assert_eq!(*log.borrow(), vec![5]);
}

#[test]
fn repeated_teardown_never_double_drops() {
    let log = new_log();
    let mut w = DropOwned::new(PushOnDrop {
        elt: 7,
        log: Rc::clone(&log),
    });
    assert!(w.finalize());
    assert!(!w.finalize());
    assert!(!w.finalize());
    assert_eq!(*log.borrow(), vec![7]);
}

#[test]
fn into_inner_returns_value_and_skips_finalizer() {
    let log = new_log();
    let w = DropOwned::new(PushOnDrop {
        elt: 5,
        log: Rc::clone(&log),
    });
    let inner = DropOwned::into_inner(w);
    assert_eq!(inner.elt, 5);
    assert!(log.borrow().is_empty());
}

#[test]
fn mutation_through_wrapper_reaches_finalizer() {
    let log = new_log();
    let mut w = DropOwned::new(PushOnDrop {
        elt: 5,
        log: Rc::clone(&log),
    });
    w.get_mut().elt = 10;
    assert!(w.finalize());
    assert_eq!(*log.borrow(), vec![10]);
}

#[test]
fn mutation_through_wrapper_visible_to_later_access() {
    let log = new_log();
    let mut w = DropOwned::new(PushOnDrop {
        elt: 5,
        log: Rc::clone(&log),
    });
    assert_eq!(w.get().elt, 5);
    w.get_mut().elt = 10;
    assert_eq!(w.get().elt, 10);
    let inner = DropOwned::into_inner(w);
    assert_eq!(inner.elt, 10);
    assert!(log.borrow().is_empty());
}

#[test]
fn conversion_constructs_occupied_wrapper() {
    let log = new_log();
    let mut w: DropOwned<PushOnDrop> = PushOnDrop {
        elt: 3,
        log: Rc::clone(&log),
    }
    .into();
    assert_eq!(w.get().elt, 3);
    assert!(w.finalize());
    assert_eq!(*log.borrow(), vec![3]);
}

#[test]
fn free_constructor_wraps_the_value() {
    let log = new_log();
    let mut w = drop_owned(PushOnDrop {
        elt: 11,
        log: Rc::clone(&log),
    });
    assert_eq!(w.get().elt, 11);
    assert!(w.finalize());
    assert_eq!(*log.borrow(), vec![11]);
}

#[test]
fn inert_value_round_trip() {
    let w = DropOwned::new(Inert(200));
    let inner = DropOwned::into_inner(w);
    assert_eq!(inner.0, 200);

    let mut w = DropOwned::new(Inert(0));
    w.get_mut().0 = 255;
    assert!(w.finalize());
    assert!(!w.finalize());
}
