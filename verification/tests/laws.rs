use redux_rs::combine_reducers;
use redux_rs::FnMiddleware;
use redux_rs::FnReducer;
use redux_rs::FnSubscription;
use redux_rs::Reducible;
use redux_rs::Store;
use redux_rs::StoreView;
use std::cell::RefCell;
use std::rc::Rc;

#[derive(Clone, Copy, Debug, PartialEq, Eq)]
enum Op {
    Add(i64),
    Scale(i64),
    Reset,
}

fn calculator(state: &i64, action: &Op) -> i64 {
    match action {
        Op::Add(amount) => state + amount,
        Op::Scale(factor) => state * factor,
        Op::Reset => 0,
    }
}

fn negating_calculator(state: &i64, action: &Op) -> i64 {
    -calculator(state, action)
}

fn calculator_store(initial: i64) -> Store<i64, Op> {
    Store::new(Box::new(FnReducer::new(calculator)), initial)
}

fn pass(_store: &StoreView<'_, i64>, action: Op) -> Option<Op> {
    Some(action)
}

fn veto(_store: &StoreView<'_, i64>, _action: Op) -> Option<Op> {
    None
}

fn double_additions(_store: &StoreView<'_, i64>, action: Op) -> Option<Op> {
    match action {
        Op::Add(amount) => Some(Op::Add(2 * amount)),
        other => Some(other),
    }
}

fn additions_become_resets(_store: &StoreView<'_, i64>, action: Op) -> Option<Op> {
    match action {
        Op::Add(_) => Some(Op::Reset),
        other => Some(other),
    }
}

fn veto_resets(_store: &StoreView<'_, i64>, action: Op) -> Option<Op> {
    match action {
        Op::Reset => None,
        other => Some(other),
    }
}

#[test]
fn dispatch_without_middleware_applies_reducer() {
    let states = [-7i64, 0, 1, 12, 1_000_000];
    let actions = [Op::Add(5), Op::Add(-3), Op::Scale(4), Op::Scale(0), Op::Reset];
    for state in states {
        for action in actions {
            let mut store = calculator_store(state);
            store.dispatch(action);
            assert_eq!(*store.state(), calculator(&state, &action));
        }
    }
}

#[test]
fn veto_keeps_state_and_notifies_nobody() {
    for position in 0..4usize {
        let notified = Rc::new(RefCell::new(0u32));
        let counted = notified.clone();
        let mut store = calculator_store(10);
        for index in 0..4usize {
            if index == position {
                store.add_middleware(Box::new(FnMiddleware::new(veto)));
            } else {
                store.add_middleware(Box::new(FnMiddleware::new(pass)));
            }
        }
        store.subscribe(Box::new(FnSubscription::new(move |_state: &i64| {
            *counted.borrow_mut() += 1
        })));

        store.dispatch(Op::Add(1));
        store.dispatch(Op::Reset);

        assert_eq!(*store.state(), 10);
        assert_eq!(*notified.borrow(), 0);
    }
}

#[test]
fn middleware_behind_a_veto_is_not_asked() {
    let asked = Rc::new(RefCell::new(Vec::new()));
    let before = asked.clone();
    let behind = asked.clone();
    let mut store = calculator_store(3);
    store.add_middleware(Box::new(FnMiddleware::new(
        move |_store: &StoreView<'_, i64>, action: Op| {
            before.borrow_mut().push("first");
            Some(action)
        },
    )));
    store.add_middleware(Box::new(FnMiddleware::new(veto)));
    store.add_middleware(Box::new(FnMiddleware::new(
        move |_store: &StoreView<'_, i64>, action: Op| {
            behind.borrow_mut().push("third");
            Some(action)
        },
    )));

    store.dispatch(Op::Add(1));

    assert_eq!(*store.state(), 3);
    assert_eq!(*asked.borrow(), vec!["first"]);
}

#[test]
fn rewritten_action_reaches_later_middleware_and_reducer() {
    let seen = Rc::new(RefCell::new(Vec::new()));
    let witness = seen.clone();
    let mut store = calculator_store(1);
    store.add_middleware(Box::new(FnMiddleware::new(double_additions)));
    store.add_middleware(Box::new(FnMiddleware::new(
        move |_store: &StoreView<'_, i64>, action: Op| {
            witness.borrow_mut().push(action);
            Some(action)
        },
    )));

    store.dispatch(Op::Add(5));

    assert_eq!(*seen.borrow(), vec![Op::Add(10)]);
    assert_eq!(*store.state(), 11);
}

#[test]
fn middleware_runs_in_registration_order() {
    let mut doubled_first = calculator_store(1);
    doubled_first.add_middleware(Box::new(FnMiddleware::new(double_additions)));
    doubled_first.add_middleware(Box::new(FnMiddleware::new(additions_become_resets)));
    doubled_first.add_middleware(Box::new(FnMiddleware::new(veto_resets)));
    doubled_first.dispatch(Op::Add(5));
    assert_eq!(*doubled_first.state(), 1);

    let mut veto_first = calculator_store(1);
    veto_first.add_middleware(Box::new(FnMiddleware::new(veto_resets)));
    veto_first.add_middleware(Box::new(FnMiddleware::new(additions_become_resets)));
    veto_first.add_middleware(Box::new(FnMiddleware::new(double_additions)));
    veto_first.dispatch(Op::Add(5));
    assert_eq!(*veto_first.state(), 0);

    let mut reset_last = calculator_store(1);
    reset_last.add_middleware(Box::new(FnMiddleware::new(double_additions)));
    reset_last.add_middleware(Box::new(FnMiddleware::new(veto_resets)));
    reset_last.dispatch(Op::Add(5));
    assert_eq!(*reset_last.state(), 11);
}

#[test]
fn subscriptions_fire_once_in_registration_order() {
    let calls = Rc::new(RefCell::new(Vec::new()));
    let mut store = calculator_store(2);
    for name in ["first", "second", "third"] {
        let sink = calls.clone();
        store.subscribe(Box::new(FnSubscription::new(move |state: &i64| {
            sink.borrow_mut().push((name, *state))
        })));
    }

    store.dispatch(Op::Scale(5));
    assert_eq!(
        *calls.borrow(),
        vec![("first", 10), ("second", 10), ("third", 10)]
    );

    store.dispatch(Op::Add(-4));
    assert_eq!(
        *calls.borrow(),
        vec![
            ("first", 10),
            ("second", 10),
            ("third", 10),
            ("first", 6),
            ("second", 6),
            ("third", 6)
        ]
    );
}

#[test]
fn subscriptions_fire_even_if_the_state_is_equal() {
    let log = Rc::new(RefCell::new(Vec::new()));
    let sink = log.clone();
    let mut store = calculator_store(4);
    store.subscribe(Box::new(FnSubscription::new(move |state: &i64| {
        sink.borrow_mut().push(*state)
    })));

    store.dispatch(Op::Add(0));
    store.dispatch(Op::Scale(1));

    assert_eq!(*log.borrow(), vec![4, 4]);
}

#[test]
fn replaced_reducer_is_used_from_then_on() {
    let mut store = calculator_store(2);

    store.dispatch(Op::Add(3));
    assert_eq!(*store.state(), 5);

    store.replace_reducer(Box::new(FnReducer::new(negating_calculator)));
    assert_eq!(*store.state(), 5);

    store.dispatch(Op::Add(3));
    assert_eq!(*store.state(), -8);

    store.dispatch(Op::Scale(2));
    assert_eq!(*store.state(), 16);

    store.replace_reducer(Box::new(FnReducer::new(calculator)));
    store.dispatch(Op::Scale(2));
    assert_eq!(*store.state(), 32);
}

#[test]
fn replaced_reducer_keeps_middleware_and_subscriptions() {
    let log = Rc::new(RefCell::new(Vec::new()));
    let sink = log.clone();
    let mut store = calculator_store(2);
    store.add_middleware(Box::new(FnMiddleware::new(double_additions)));
    store.subscribe(Box::new(FnSubscription::new(move |state: &i64| {
        sink.borrow_mut().push(*state)
    })));

    store.dispatch(Op::Add(1));
    store.replace_reducer(Box::new(FnReducer::new(negating_calculator)));
    store.dispatch(Op::Add(1));

    assert_eq!(*store.state(), -6);
    assert_eq!(*log.borrow(), vec![4, -6]);
}

#[test]
fn three_combined_reducers_apply_left_to_right() {
    let r1 = |state: &i64, action: &i64| state + action;
    let r2 = |state: &i64, action: &i64| state * action;
    let r3 = |state: &i64, action: &i64| state - 2 * action;
    for state in [-3i64, 0, 4] {
        for action in [-2i64, 1, 7] {
            let first: Box<dyn Reducible<i64, i64>> = Box::new(FnReducer::new(r1));
            let second: Box<dyn Reducible<i64, i64>> = Box::new(FnReducer::new(r2));
            let third: Box<dyn Reducible<i64, i64>> = Box::new(FnReducer::new(r3));
            let combined = combine_reducers(first, vec![second, third]);
            let expected = r3(&r2(&r1(&state, &action), &action), &action);
            assert_eq!(combined.reduce(&state, &action), expected);
        }
    }
    let first: Box<dyn Reducible<i64, i64>> = Box::new(FnReducer::new(r1));
    let second: Box<dyn Reducible<i64, i64>> = Box::new(FnReducer::new(r2));
    let third: Box<dyn Reducible<i64, i64>> = Box::new(FnReducer::new(r3));
    let combined = combine_reducers(first, vec![second, third]);
    assert_eq!(combined.reduce(&4, &7), 63);
}
