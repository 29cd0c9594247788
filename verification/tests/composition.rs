use fbox::{Apply, ApplyDrop, FBox};
use std::cell::Cell;
use std::cell::RefCell;
use std::rc::Rc;

fn inc(n: i32) -> i32 {
    n + 1
}

fn square(n: i32) -> i32 {
    n * n
}

fn halve(n: i32) -> i32 {
    n / 2
}

#[test]
fn compose_runs_its_argument_first() {
    assert_eq!(
        10,
        FBox::new(|x| x + 1).compose(|x| x * x).apply(3),
    );
    assert_eq!(FBox::new(inc).compose(square).apply(3), inc(square(3)));
}

#[test]
fn and_then_runs_its_argument_last() {
    assert_eq!(
        16,
        FBox::new(|x| x + 1).and_then(|x| x * x).apply(3),
    );
    assert_eq!(FBox::new(inc).and_then(square).apply(3), square(inc(3)));
}

#[test]
fn compose_b_runs_the_other_box_first() {
    assert_eq!(
        10,
        FBox::new(|x| x + 1).compose_b(FBox::new(|x| x * x)).apply(3)
    );
}

#[test]
fn and_then_b_runs_the_other_box_last() {
    assert_eq!(
        16,
        FBox::new(|x| x + 1).and_then_b(FBox::new(|x| x * x)).apply(3)
    );
}

#[test]
fn compose_b_agrees_with_compose() {
    let via_box = FBox::new(inc).compose_b(FBox::new(square));
    let via_fn = FBox::new(inc).compose(square);

    assert_eq!(via_box.apply(3), via_fn.apply(3));
    assert_eq!(via_box.apply(3), 10);
    for x in -20..20 {
        assert_eq!(via_box.apply(x), via_fn.apply(x));
    }
}

#[test]
fn and_then_b_agrees_with_and_then() {
    let via_box = FBox::new(inc).and_then_b(FBox::new(square));
    let via_fn = FBox::new(inc).and_then(square);

    assert_eq!(via_box.apply(3), via_fn.apply(3));
    assert_eq!(via_box.apply(3), 16);
    for x in -20..20 {
        assert_eq!(via_box.apply(x), via_fn.apply(x));
    }
}

#[test]
fn and_then_chain_runs_from_left_to_right() {
    let chain = FBox::new(inc).and_then(square).and_then(halve);

    assert_eq!(chain.apply(3), 8);
    assert_eq!(chain.apply(4), 12);
    for x in -20..20 {
        assert_eq!(chain.apply(x), halve(square(inc(x))));
    }
}

#[test]
fn compose_chain_runs_from_right_to_left() {
    let chain = FBox::new(inc).compose(square).compose(halve);

    assert_eq!(chain.apply(6), 10);
    assert_eq!(chain.apply(9), 17);
    for x in -20..20 {
        assert_eq!(chain.apply(x), inc(square(halve(x))));
    }
}

#[test]
fn chain_of_boxes_keeps_its_order() {
    let chain = FBox::new(inc)
        .and_then_b(FBox::new(square))
        .compose_b(FBox::new(halve))
        .and_then_b(FBox::new(|x: i32| x - 100));

    assert_eq!(chain.apply(8), -75);
    assert_eq!(chain.apply_drop(0), -99);
}

#[test]
fn grouping_of_steps_makes_no_difference() {
    let left = FBox::new(inc).and_then(square).and_then(halve);
    let right = FBox::new(inc).and_then_b(FBox::new(square).and_then(halve));

    assert_eq!(left.apply(5), 18);
    for x in -20..20 {
        assert_eq!(left.apply(x), right.apply(x));
    }
}

#[test]
fn composition_joins_different_types() {
    let digits = FBox::new(|n: u32| n.to_string())
        .and_then(|s: String| s.len())
        .compose(|b: bool| if b { 12345 } else { 7 });

    assert_eq!(digits.apply(true), 5);
    assert_eq!(digits.apply(false), 1);

    let parsed = FBox::new(|s: String| s.len()).compose_b(FBox::new(|n: u64| format!("<{}>", n)));
    assert_eq!(parsed.apply(1000), 6);
}

#[test]
fn composition_calls_nothing() {
    let calls = Rc::new(Cell::new(0));
    let in_f = Rc::clone(&calls);
    let in_g = Rc::clone(&calls);
    let in_h = Rc::clone(&calls);
    let in_k = Rc::clone(&calls);
    let in_m = Rc::clone(&calls);

    let f = FBox::new(move |x: i32| {
        in_f.set(in_f.get() + 1);
        x + 1
    });
    let h = FBox::new(move |x: i32| {
        in_h.set(in_h.get() + 1);
        x + 3
    });
    let m = FBox::new(move |x: i32| {
        in_m.set(in_m.get() + 1);
        x + 5
    });
    let chain = f
        .compose(move |x: i32| {
            in_g.set(in_g.get() + 1);
            x + 2
        })
        .compose_b(h)
        .and_then(move |x: i32| {
            in_k.set(in_k.get() + 1);
            x + 4
        })
        .and_then_b(m);
    assert_eq!(calls.get(), 0);

    assert_eq!(chain.apply(0), 15);
    assert_eq!(calls.get(), 5);
}

#[test]
fn each_function_runs_once_per_invocation_and_in_order() {
    let trace = Rc::new(RefCell::new(Vec::new()));
    let in_f = Rc::clone(&trace);
    let in_g = Rc::clone(&trace);
    let in_h = Rc::clone(&trace);

    let chain = FBox::new(move |x: i32| {
        in_f.borrow_mut().push('f');
        x + 1
    })
    .and_then(move |x: i32| {
        in_g.borrow_mut().push('g');
        x * 2
    })
    .compose(move |x: i32| {
        in_h.borrow_mut().push('h');
        x - 3
    });

    assert_eq!(chain.apply(10), 16);
    assert_eq!(*trace.borrow(), vec!['h', 'f', 'g']);

    assert_eq!(chain.apply_drop(3), 2);
    assert_eq!(*trace.borrow(), vec!['h', 'f', 'g', 'h', 'f', 'g']);
}

#[test]
fn composed_box_can_be_applied_again() {
    let chain = FBox::new(square).and_then(inc);

    assert_eq!(chain.apply(2), 5);
    assert_eq!(chain.apply(2), 5);
    assert_eq!(chain.apply(-9), 82);
    assert_eq!(chain.apply(0), 1);
}
