use gc_trace::handles::{
    Array, Atom, BigInt, Ctx, Exception, Function, JsString, Module, Object, Symbol, Value,
};
use gc_trace::laws::trace_twice;
use gc_trace::trace::Trace;
use gc_trace::tracer::Tracer;
use std::rc::Rc;
use std::sync::Arc;

#[test]
fn tracer_starts_with_no_reports() {
    let t = Tracer::from_ffi(1, Some(7));
    assert!(t.reported().is_empty());
}

#[test]
fn leaf_kinds_report_nothing() {
    let mut t = Tracer::from_ffi(1, Some(7));
    3u64.trace(&mut t);
    42i32.trace(&mut t);
    true.trace(&mut t);
    'x'.trace(&mut t);
    String::from("text").trace(&mut t);
    Atom { id: 9 }.trace(&mut t);
    Module { ptr: 4 }.trace(&mut t);
    assert!(t.reported().is_empty());
}

#[test]
fn immediate_value_reports_nothing() {
    let mut t = Tracer::from_ffi(1, Some(7));
    let v = Value { ptr: 10, has_ref_count: false };
    v.trace(&mut t);
    assert!(t.reported().is_empty());
}

#[test]
fn ref_counted_value_reports_itself() {
    let mut t = Tracer::from_ffi(1, Some(7));
    let v = Value { ptr: 10, has_ref_count: true };
    v.trace(&mut t);
    assert_eq!(*t.reported(), vec![10]);
}

#[test]
fn context_reports_itself() {
    let mut t = Tracer::from_ffi(1, Some(7));
    let c = Ctx { ptr: 3 };
    c.trace(&mut t);
    assert_eq!(*t.reported(), vec![3]);
}

#[test]
fn forwarding_kinds_report_themselves() {
    let mut t = Tracer::from_ffi(1, Some(7));
    Object { ptr: 1 }.trace(&mut t);
    Array { ptr: 2 }.trace(&mut t);
    Function { ptr: 3 }.trace(&mut t);
    BigInt { ptr: 4 }.trace(&mut t);
    Symbol { ptr: 5 }.trace(&mut t);
    Exception { ptr: 6 }.trace(&mut t);
    JsString { ptr: 7 }.trace(&mut t);
    assert_eq!(*t.reported(), vec![1, 2, 3, 4, 5, 6, 7]);
}

#[test]
fn mark_twice_reports_twice() {
    let mut t = Tracer::from_ffi(1, Some(7));
    let v = Value { ptr: 21, has_ref_count: true };
    t.mark(&v);
    t.mark(&v);
    assert_eq!(*t.reported(), vec![21, 21]);
}

#[test]
fn tracing_the_same_object_twice_is_accepted() {
    let mut t = Tracer::from_ffi(1, Some(7));
    let o = Object { ptr: 5 };
    trace_twice(&o, &mut t);
    assert_eq!(*t.reported(), vec![5, 5]);
}

#[test]
fn empty_tuple_reports_nothing() {
    let mut t = Tracer::from_ffi(1, Some(7));
    ().trace(&mut t);
    assert!(t.reported().is_empty());
}

#[test]
fn tuple_reports_components_left_to_right() {
    let mut t = Tracer::from_ffi(1, Some(7));
    (Object { ptr: 1 }, Ctx { ptr: 2 }, Object { ptr: 3 }).trace(&mut t);
    assert_eq!(*t.reported(), vec![1, 2, 3]);
}

#[test]
fn tuple_of_leaf_and_forwarding_reports_one() {
    let mut t = Tracer::from_ffi(1, Some(7));
    (5u32, Object { ptr: 9 }).trace(&mut t);
    assert_eq!(*t.reported(), vec![9]);
}

#[test]
fn sixteen_tuple_reports_all_components_in_order() {
    let mut t = Tracer::from_ffi(1, Some(7));
    (
        Object { ptr: 1 },
        Object { ptr: 2 },
        Object { ptr: 3 },
        Object { ptr: 4 },
        Object { ptr: 5 },
        Object { ptr: 6 },
        Object { ptr: 7 },
        Object { ptr: 8 },
        Object { ptr: 9 },
        Object { ptr: 10 },
        Object { ptr: 11 },
        Object { ptr: 12 },
        Object { ptr: 13 },
        Object { ptr: 14 },
        Object { ptr: 15 },
        Object { ptr: 16 },
    )
        .trace(&mut t);
    assert_eq!(
        *t.reported(),
        vec![1, 2, 3, 4, 5, 6, 7, 8, 9, 10, 11, 12, 13, 14, 15, 16]
    );
}

#[test]
fn wrappers_are_transparent() {
    let mut plain = Tracer::from_ffi(1, Some(7));
    Object { ptr: 5 }.trace(&mut plain);

    let mut boxed = Tracer::from_ffi(1, Some(7));
    Box::new(Object { ptr: 5 }).trace(&mut boxed);
    assert_eq!(*boxed.reported(), *plain.reported());

    let mut shared = Tracer::from_ffi(1, Some(7));
    Rc::new(Object { ptr: 5 }).trace(&mut shared);
    assert_eq!(*shared.reported(), *plain.reported());

    let mut atomic = Tracer::from_ffi(1, Some(7));
    Arc::new(Object { ptr: 5 }).trace(&mut atomic);
    assert_eq!(*atomic.reported(), *plain.reported());
}
