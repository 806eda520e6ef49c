use texworker::protocol::{classify_line, escalation_line, record_line, LineClass};
use texworker::text::{decimal_string, str_eq};
use texworker::{resolve_worker_result, WorkerError, WorkerResultExt};

#[test]
fn classify_escalation_token() {
    assert!(matches!(classify_line("pedia:general-error"), LineClass::Escalation));
}

#[test]
fn classify_record_strips_marker() {
    match classify_line("pedia:asset{\"kind\":\"font\"}") {
        LineClass::Record(p) => assert_eq!(p, "asset{\"kind\":\"font\"}"),
        _ => panic!("expected a record"),
    }
}

#[test]
fn classify_empty_payload_is_record() {
    match classify_line("pedia:") {
        LineClass::Record(p) => assert_eq!(p, ""),
        _ => panic!("expected a record"),
    }
}

#[test]
fn classify_unprefixed_is_chatter() {
    assert!(matches!(classify_line("This is TeX, Version 3.14"), LineClass::Chatter));
    assert!(matches!(classify_line(""), LineClass::Chatter));
    assert!(matches!(classify_line("pedia"), LineClass::Chatter));
    assert!(matches!(classify_line("pedia general-error"), LineClass::Chatter));
}

#[test]
fn classify_near_miss_token_is_record() {
    match classify_line("pedia:general-error!") {
        LineClass::Record(p) => assert_eq!(p, "general-error!"),
        _ => panic!("expected a record"),
    }
}

#[test]
fn escalation_line_round_trip() {
    let line = escalation_line();
    assert_eq!(line, "pedia:general-error");
    assert!(matches!(classify_line(&line), LineClass::Escalation));
}

#[test]
fn record_line_round_trip() {
    let line = record_line("output build/x.html");
    assert_eq!(line, "pedia:output build/x.html");
    match classify_line(&line) {
        LineClass::Record(p) => assert_eq!(p, "output build/x.html"),
        _ => panic!("expected a record"),
    }
}

#[test]
fn record_line_of_token_escalates() {
    let line = record_line("general-error");
    assert!(matches!(classify_line(&line), LineClass::Escalation));
}

#[test]
fn str_eq_compares_characters() {
    assert!(str_eq("", ""));
    assert!(str_eq("pedia:", "pedia:"));
    assert!(!str_eq("pedia:", "pedia"));
    assert!(!str_eq("abc", "abd"));
}

#[test]
fn decimal_rendering_exact() {
    assert_eq!(decimal_string(0), "0");
    assert_eq!(decimal_string(7), "7");
    assert_eq!(decimal_string(10), "10");
    assert_eq!(decimal_string(905), "905");
    assert_eq!(decimal_string(usize::MAX), usize::MAX.to_string());
}

#[test]
fn resolve_ok_passes_through() {
    let r: Result<u32, WorkerError<&str>> = Ok(5);
    assert_eq!(resolve_worker_result(r), Ok(5));
}

#[test]
fn resolve_specific_surfaces_payload() {
    let r: Result<u32, WorkerError<&str>> = Err(WorkerError::Specific("bad input"));
    assert_eq!(resolve_worker_result(r), Err("bad input"));
}

#[test]
fn resolve_general_surfaces_payload() {
    let r: Result<u32, WorkerError<&str>> = Err(WorkerError::General("engine missing"));
    assert_eq!(resolve_worker_result(r), Err("engine missing"));
}

#[test]
fn unwrap_for_worker_matches_resolve() {
    let r: Result<u32, WorkerError<String>> = Err(WorkerError::Specific("oops".to_string()));
    assert_eq!(r.unwrap_for_worker(), Err("oops".to_string()));
    let ok: Result<u32, WorkerError<String>> = Ok(3);
    assert_eq!(ok.unwrap_for_worker(), Ok(3));
}
