use to_true::{once, skip, InTrue, ToTrue};

#[test]
fn to_true_runs_only_from_false() {
    let mut flag = false;
    assert_eq!(flag.to_true(|| 7), Some(7));
    assert!(flag);

    let mut flag = true;
    assert_eq!(flag.to_true(|| 7), None);
    assert!(flag);
}

#[test]
fn to_false_runs_only_from_true() {
    let mut flag = true;
    assert_eq!(flag.to_false(|| 7), Some(7));
    assert!(!flag);

    let mut flag = false;
    assert_eq!(flag.to_false(|| 7), None);
    assert!(!flag);
}

#[test]
fn in_true_sets_and_runs_on_old_true() {
    let mut flag = false;
    assert_eq!(flag.in_true(|| 7), None);
    assert!(flag);

    let mut flag = true;
    assert_eq!(flag.in_true(|| 7), Some(7));
    assert!(flag);
}

#[test]
fn in_false_sets_and_runs_on_old_false() {
    let mut flag = false;
    assert_eq!(flag.in_false(|| 7), Some(7));
    assert!(!flag);

    let mut flag = true;
    assert_eq!(flag.in_false(|| 7), None);
    assert!(!flag);
}

#[test]
fn to_true_twice_runs_once() {
    let mut flag = false;
    let mut n = 0;
    assert_eq!(flag.to_true(|| { n += 1; n }), Some(1));
    assert!(flag);
    assert_eq!(flag.to_true(|| { n += 1; n }), None);
    assert!(flag);
    assert_eq!(n, 1);
}

#[test]
fn level_gates_alternating_sequence() {
    let mut state = false;
    let mut n = 0;

    assert_eq!(state.in_true(|| n += 1), None);
    assert_eq!((n, state), (0, true));

    assert_eq!(state.in_true(|| n += 1), Some(()));
    assert_eq!((n, state), (1, true));

    assert_eq!(state.in_false(|| n += 1), None);
    assert_eq!((n, state), (1, false));

    assert_eq!(state.in_false(|| n += 1), Some(()));
    assert_eq!((n, state), (2, false));
}

#[test]
fn skip_sits_out_first_invocation() {
    let mut n = 0;
    let mut f = skip(|| {
        n += 1;
        n
    });

    assert_eq!(f.call(), None);
    assert_eq!(f.call(), Some(1));
    assert_eq!(f.call(), Some(2));
    drop(f);
    assert_eq!(n, 2);
}

#[test]
fn once_runs_exactly_once() {
    let mut n = 0;
    let mut f = once(|| {
        n += 1;
        n
    });

    assert_eq!(f.call(), Some(1));
    assert_eq!(f.call(), None);
    assert_eq!(f.call(), None);
    drop(f);
    assert_eq!(n, 1);
}

#[test]
fn once_never_invoked_never_runs() {
    let mut n = 0;
    let f = once(|| {
        n += 1;
        n
    });
    drop(f);
    assert_eq!(n, 0);
}

#[test]
fn once_can_consume_owned_state() {
    let message = String::from("ready");
    let mut f = once(move || message);

    assert_eq!(f.call(), Some(String::from("ready")));
    assert_eq!(f.call(), None);
}
