use term_ports::decimal::decimal_string;
use term_ports::lister::{
    count_line, error_line, exit_code, port_line, render_listing, run_lister, ListerOutcome,
};

#[test]
fn empty_listing() {
    let ports: Vec<Result<String, String>> = vec![];
    let run = render_listing(&ports);
    assert_eq!(run.lines.len(), 1);
    assert_eq!(run.lines[0], "\n0 available output ports");
    assert!(matches!(run.outcome, ListerOutcome::Success));
    assert_eq!(exit_code(&run.outcome), 0);
}

#[test]
fn three_resolved_ports() {
    let ports: Vec<Result<String, String>> = vec![
        Ok("n0".to_string()),
        Ok("n1".to_string()),
        Ok("n2".to_string()),
    ];
    let run = render_listing(&ports);
    let expected: Vec<String> = vec![
        "\n3 available output ports".to_string(),
        "    0: n0".to_string(),
        "    1: n1".to_string(),
        "    2: n2".to_string(),
    ];
    assert_eq!(run.lines, expected);
    assert!(matches!(run.outcome, ListerOutcome::Success));
    assert_eq!(exit_code(&run.outcome), 0);
}

#[test]
fn resolve_failure_stops_listing() {
    let ports: Vec<Result<String, String>> = vec![
        Ok("midi out".to_string()),
        Err("device gone".to_string()),
        Ok("never listed".to_string()),
    ];
    let run = render_listing(&ports);
    assert_eq!(run.lines.len(), 2);
    assert_eq!(run.lines[0], "\n3 available output ports");
    assert_eq!(run.lines[1], "    0: midi out");
    match &run.outcome {
        ListerOutcome::ResolveFailed { message } => assert_eq!(message, "device gone"),
        _ => panic!("expected a resolution failure"),
    }
    assert_eq!(exit_code(&run.outcome), 1);
}

#[test]
fn failure_at_first_port() {
    let ports: Vec<Result<String, String>> = vec![Err("unplugged".to_string())];
    let run = render_listing(&ports);
    assert_eq!(run.lines.len(), 1);
    assert_eq!(run.lines[0], "\n1 available output ports");
    match &run.outcome {
        ListerOutcome::ResolveFailed { message } => assert_eq!(message, "unplugged"),
        _ => panic!("expected a resolution failure"),
    }
}

#[test]
fn init_failure_prints_nothing() {
    let init: Result<Vec<Result<String, String>>, String> =
        Err("no backend available".to_string());
    let run = run_lister(&init);
    assert_eq!(run.lines.len(), 0);
    match &run.outcome {
        ListerOutcome::InitFailed { message } => assert_eq!(message, "no backend available"),
        _ => panic!("expected an initialization failure"),
    }
    assert_eq!(exit_code(&run.outcome), 1);
    assert_eq!(error_line("no backend available"), "Error: no backend available");
}

#[test]
fn successful_run_through_init() {
    let init: Result<Vec<Result<String, String>>, String> = Ok(vec![Ok("Synth A".to_string())]);
    let run = run_lister(&init);
    let expected: Vec<String> = vec![
        "\n1 available output ports".to_string(),
        "    0: Synth A".to_string(),
    ];
    assert_eq!(run.lines, expected);
    assert!(matches!(run.outcome, ListerOutcome::Success));
    assert_eq!(exit_code(&run.outcome), 0);
}

#[test]
fn formatted_lines() {
    assert_eq!(count_line(12), "\n12 available output ports");
    assert_eq!(port_line(7, "Synth"), "    7: Synth");
    assert_eq!(error_line("boom"), "Error: boom");
}

#[test]
fn decimal_rendering() {
    assert_eq!(decimal_string(0), "0");
    assert_eq!(decimal_string(9), "9");
    assert_eq!(decimal_string(10), "10");
    assert_eq!(decimal_string(305), "305");
    assert_eq!(decimal_string(18446744073709551615), "18446744073709551615");
}
