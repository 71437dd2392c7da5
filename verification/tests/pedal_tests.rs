use footpedal::pedal::{DeferredTask, Pedal, Pedals};

/// Edge detection over a whole input sequence: just-pressed exactly on
/// false-to-true transitions, released exactly on true-to-false.
#[test]
fn edge_detection_over_sequence() {
    let inputs = [false, true, true, false, true, false];
    let mut p = Pedal::new();
    let mut prev = false;
    for &now in inputs.iter() {
        p.start_update(now);
        assert_eq!(p.is_just_pressed(), !prev && now);
        assert_eq!(p.is_released(), prev && !now);
        p.finish_update();
        prev = now;
    }
}

#[test]
fn new_pedal_is_idle() {
    let p = Pedal::new();
    assert!(!p.is_just_pressed());
    assert!(!p.is_released());
    assert!(!p.is_holding());
    assert!(p.future_handle.is_none());
}

#[test]
fn start_update_cancels_outstanding_task_when_up() {
    let mut p = Pedal::new();
    p.set_future(Some(DeferredTask { cancelled: false }));
    let cancel = p.start_update(false);
    assert!(cancel);
    assert_eq!(p.future_handle, Some(DeferredTask { cancelled: true }));
}

#[test]
fn start_update_keeps_task_while_down() {
    let mut p = Pedal::new();
    p.set_future(Some(DeferredTask { cancelled: false }));
    let cancel = p.start_update(true);
    assert!(!cancel);
    assert_eq!(p.future_handle, Some(DeferredTask { cancelled: false }));
}

#[test]
fn start_update_without_task_raises_nothing() {
    let mut p = Pedal::new();
    let cancel = p.start_update(false);
    assert!(!cancel);
    assert!(p.future_handle.is_none());
}

#[test]
fn set_future_transfers_ownership_without_cancelling() {
    let mut p = Pedal::new();
    p.set_future(Some(DeferredTask { cancelled: false }));
    p.set_future(None);
    assert!(p.future_handle.is_none());
}

#[test]
fn holding_accessors_round_trip() {
    let mut p = Pedal::new();
    p.set_holding(true);
    assert!(p.is_holding());
    p.set_holding(false);
    assert!(!p.is_holding());
}

#[test]
fn finish_update_commits_previous_state() {
    let mut p = Pedal::new();
    p.start_update(true);
    assert!(p.is_just_pressed());
    p.finish_update();
    assert!(!p.is_just_pressed());
    p.start_update(false);
    assert!(p.is_released());
}

#[test]
fn group_starts_and_finishes_all_three() {
    let mut g = Pedals::new();
    let (cl, cc, cr) = g.start_update(true, false, true);
    assert!(!cl && !cc && !cr);
    assert!(g.left.is_just_pressed());
    assert!(!g.central.is_just_pressed());
    assert!(g.right.is_just_pressed());
    g.finish_update();
    assert!(g.left.prev_pressed);
    assert!(!g.central.prev_pressed);
    assert!(g.right.prev_pressed);
}

#[test]
fn group_cancel_signals_are_per_pedal() {
    let mut g = Pedals::new();
    g.left.set_future(Some(DeferredTask { cancelled: false }));
    g.right.set_future(Some(DeferredTask { cancelled: false }));
    // left goes up with a task outstanding, right stays down
    let (cl, cc, cr) = g.start_update(false, false, true);
    assert!(cl);
    assert!(!cc);
    assert!(!cr);
}
