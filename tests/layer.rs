use std::cell::{Cell, RefCell};

use cacao::layer::Layer;
use cacao::properties::{NativeCall, ObjcProperty};

const LAYER: usize = 0x7f00_1000;

#[test]
fn wrapped_layer_is_released_once() {
    let layer = Layer::wrap(LAYER);
    let releases = Cell::new(0u32);
    let seen = RefCell::new(Vec::new());
    layer.release(|call| {
        if let NativeCall::Release { .. } = call {
            releases.set(releases.get() + 1);
        }
        seen.borrow_mut().push(call);
    });
    assert_eq!(releases.get(), 1);
    assert_eq!(*seen.borrow(), vec![NativeCall::Release { object: LAYER }]);
}

#[test]
fn adopted_handle_makes_no_call_before_release() {
    let calls = RefCell::new(Vec::new());
    let layer = Layer::wrap(LAYER);
    layer.set_corner_radius(2.5f64.to_bits(), |call| calls.borrow_mut().push(call));
    layer.set_contents(0x5000, |call| calls.borrow_mut().push(call));
    let releases_before = calls
        .borrow()
        .iter()
        .filter(|c| matches!(c, NativeCall::Release { .. }))
        .count();
    assert_eq!(releases_before, 0);
    layer.release(|call| calls.borrow_mut().push(call));
    let releases = calls
        .borrow()
        .iter()
        .filter(|c| matches!(c, NativeCall::Release { .. }))
        .count();
    assert_eq!(releases, 1);
    assert_eq!(calls.borrow().len(), 3);
    assert_eq!(calls.borrow()[2], NativeCall::Release { object: LAYER });
}

#[test]
fn corner_radius_forwards_one_call() {
    let layer = Layer::wrap(LAYER);
    let calls = RefCell::new(Vec::new());
    layer.set_corner_radius(4.0f64.to_bits(), |call| calls.borrow_mut().push(call));
    assert_eq!(
        *calls.borrow(),
        vec![NativeCall::SetCornerRadius { object: LAYER, radius_bits: 4.0f64.to_bits() }]
    );
    let first = calls.borrow()[0];
    if let NativeCall::SetCornerRadius { radius_bits, .. } = first {
        assert_eq!(f64::from_bits(radius_bits), 4.0);
    }
}

#[test]
fn contents_forward_one_call_each() {
    let layer = Layer::wrap(LAYER);
    let calls = RefCell::new(Vec::new());
    layer.set_contents(0x5000, |call| calls.borrow_mut().push(call));
    layer.set_image_contents(0x6000, |call| calls.borrow_mut().push(call));
    assert_eq!(
        *calls.borrow(),
        vec![
            NativeCall::SetContents { object: LAYER, contents: 0x5000 },
            NativeCall::SetContents { object: LAYER, contents: 0x6000 },
        ]
    );
}

#[derive(Debug, PartialEq)]
struct Fault {
    name: &'static str,
    code: i32,
}

#[test]
fn fault_surfaces_and_handle_stays_usable() {
    let handle = ObjcProperty::from_retained(LAYER);
    let r: Result<(), Fault> = handle.with_mut(|object| {
        assert_eq!(object, LAYER);
        Err(Fault { name: "NSInvalidArgumentException", code: 7 })
    });
    assert_eq!(r, Err(Fault { name: "NSInvalidArgumentException", code: 7 }));
    let again = handle.with_mut(|object| object);
    assert_eq!(again, LAYER);
    let released = handle.release(|call| call);
    assert_eq!(released, NativeCall::Release { object: LAYER });
}

#[test]
fn operations_never_overlap() {
    let handle = ObjcProperty::from_retained(LAYER);
    let inside = Cell::new(false);
    let entries = Cell::new(0u32);
    for _ in 0..3 {
        handle.with_mut(|_| {
            assert!(!inside.get());
            inside.set(true);
            entries.set(entries.get() + 1);
            inside.set(false);
        });
    }
    assert_eq!(entries.get(), 3);
}
