use gc_trace::handles::{Object, Value};
use gc_trace::trace::Trace;
use gc_trace::tracer::Tracer;
use indexmap::IndexMap;
use indexmap::IndexSet;
use std::collections::VecDeque;
use std::rc::Rc;

#[test]
fn sequence_of_three_forwarding_elements_reports_three() {
    let mut t = Tracer::from_ffi(1, Some(7));
    let v = vec![Object { ptr: 11 }, Object { ptr: 22 }, Object { ptr: 33 }];
    v.trace(&mut t);
    assert_eq!(*t.reported(), vec![11, 22, 33]);
}

#[test]
fn empty_sequence_reports_nothing() {
    let mut t = Tracer::from_ffi(1, Some(7));
    let v: Vec<Object> = Vec::new();
    v.trace(&mut t);
    assert!(t.reported().is_empty());
}

#[test]
fn vecdeque_reports_in_iteration_order() {
    let mut t = Tracer::from_ffi(1, Some(7));
    let mut d: VecDeque<Object> = VecDeque::new();
    d.push_back(Object { ptr: 2 });
    d.push_back(Object { ptr: 3 });
    d.push_front(Object { ptr: 1 });
    d.trace(&mut t);
    assert_eq!(*t.reported(), vec![1, 2, 3]);
}

#[test]
fn sequence_skips_non_ref_counted_values() {
    let mut t = Tracer::from_ffi(1, Some(7));
    let v = vec![
        Value { ptr: 1, has_ref_count: true },
        Value { ptr: 2, has_ref_count: false },
        Value { ptr: 3, has_ref_count: true },
    ];
    v.trace(&mut t);
    assert_eq!(*t.reported(), vec![1, 3]);
}

#[test]
fn nested_containers_compose() {
    let mut t = Tracer::from_ffi(1, Some(7));
    let v = vec![
        (Box::new(Object { ptr: 1 }), Rc::new(Object { ptr: 2 })),
        (Box::new(Object { ptr: 3 }), Rc::new(Object { ptr: 4 })),
    ];
    v.trace(&mut t);
    assert_eq!(*t.reported(), vec![1, 2, 3, 4]);
}

#[test]
fn index_set_reports_in_insertion_order() {
    let mut t = Tracer::from_ffi(1, Some(7));
    let mut s: IndexSet<Value> = IndexSet::new();
    s.insert(Value { ptr: 30, has_ref_count: true });
    s.insert(Value { ptr: 10, has_ref_count: true });
    s.insert(Value { ptr: 20, has_ref_count: true });
    s.trace(&mut t);
    assert_eq!(*t.reported(), vec![30, 10, 20]);
}

#[test]
fn index_map_reports_each_key_then_its_value() {
    let mut t = Tracer::from_ffi(1, Some(7));
    let mut m: IndexMap<Value, Value> = IndexMap::new();
    m.insert(
        Value { ptr: 101, has_ref_count: true },
        Value { ptr: 102, has_ref_count: true },
    );
    m.insert(
        Value { ptr: 103, has_ref_count: true },
        Value { ptr: 104, has_ref_count: true },
    );
    m.trace(&mut t);
    assert_eq!(*t.reported(), vec![101, 102, 103, 104]);
}

#[test]
fn index_map_skips_non_ref_counted_entries() {
    let mut t = Tracer::from_ffi(1, Some(7));
    let mut m: IndexMap<Value, Value> = IndexMap::new();
    m.insert(
        Value { ptr: 1, has_ref_count: false },
        Value { ptr: 2, has_ref_count: true },
    );
    m.insert(
        Value { ptr: 3, has_ref_count: true },
        Value { ptr: 4, has_ref_count: false },
    );
    m.trace(&mut t);
    assert_eq!(*t.reported(), vec![2, 3]);
}
