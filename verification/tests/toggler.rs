use term_ports::toggler::{simulate, TermStep, Toggler, TogglerAction, HOLD_MILLIS};

#[test]
fn success_trace_is_mirror() {
    let trace = simulate(&vec![true; 9]);
    let expected = vec![
        TogglerAction::Apply(TermStep::RawOn),
        TogglerAction::Apply(TermStep::AltOn),
        TogglerAction::Apply(TermStep::MouseOn),
        TogglerAction::Apply(TermStep::CursorHide),
        TogglerAction::Hold(HOLD_MILLIS),
        TogglerAction::Apply(TermStep::CursorShow),
        TogglerAction::Apply(TermStep::MouseOff),
        TogglerAction::Apply(TermStep::AltOff),
        TogglerAction::Apply(TermStep::RawOff),
    ];
    assert_eq!(trace, expected);
}

#[test]
fn hold_lasts_a_second() {
    assert!(HOLD_MILLIS >= 1000);
    let trace = simulate(&vec![true; 9]);
    assert_eq!(trace[4], TogglerAction::Hold(1000));
}

#[test]
fn entry_failure_short_circuits() {
    let trace = simulate(&vec![true, true, false, true, true, true, true, true, true]);
    let expected = vec![
        TogglerAction::Apply(TermStep::RawOn),
        TogglerAction::Apply(TermStep::AltOn),
        TogglerAction::Apply(TermStep::MouseOn),
    ];
    assert_eq!(trace, expected);
    assert!(trace.iter().all(|a| !matches!(a, TogglerAction::Hold(_))));
    assert!(trace.iter().all(|a| !matches!(
        a,
        TogglerAction::Apply(TermStep::CursorShow)
            | TogglerAction::Apply(TermStep::MouseOff)
            | TogglerAction::Apply(TermStep::AltOff)
            | TogglerAction::Apply(TermStep::RawOff)
    )));
}

#[test]
fn first_step_failure() {
    let trace = simulate(&vec![false]);
    assert_eq!(trace, vec![TogglerAction::Apply(TermStep::RawOn)]);
}

#[test]
fn exit_failure_aborts() {
    let outcomes = vec![true, true, true, true, true, true, false, true, true];
    let trace = simulate(&outcomes);
    assert_eq!(trace.len(), 7);
    assert_eq!(trace[6], TogglerAction::Apply(TermStep::MouseOff));
}

#[test]
fn stepwise_driving() {
    let mut t = Toggler::new();
    assert_eq!(t.next_action(), TogglerAction::Apply(TermStep::RawOn));
    t.advance(true);
    assert_eq!(t.next_action(), TogglerAction::Apply(TermStep::AltOn));
    t.advance(false);
    assert_eq!(t.next_action(), TogglerAction::Abort);
    t.advance(true);
    assert_eq!(t.next_action(), TogglerAction::Abort);
}

#[test]
fn completed_session_finishes() {
    let mut t = Toggler::new();
    for _ in 0..9 {
        t.advance(true);
    }
    assert_eq!(t.next_action(), TogglerAction::Finish);
    t.advance(true);
    assert_eq!(t.next_action(), TogglerAction::Finish);
}
