use conference_core::recorder::CallRecorder;

#[test]
fn log_grows_with_newline_separators() {
    let mut rec = CallRecorder::new();
    assert_eq!(rec.log(), "");
    let r1 = rec.absorb::<()>(Ok("abc".to_string()));
    assert_eq!(r1, Ok("abc".to_string()));
    assert_eq!(rec.log(), "abc");
    let r2 = rec.absorb::<()>(Ok("def".to_string()));
    assert_eq!(r2, Ok("def".to_string()));
    assert_eq!(rec.log(), "abc\ndef");
}

#[test]
fn failure_passes_through_and_leaves_log() {
    let mut rec = CallRecorder::new();
    rec.absorb::<&str>(Ok("abc".to_string())).unwrap();
    let before = rec.log();
    let r = rec.absorb(Err("boom"));
    assert_eq!(r, Err("boom"));
    assert_eq!(rec.log(), before);
    assert_eq!(rec.log(), "abc");
}

#[test]
fn failure_before_any_success_leaves_log_empty() {
    let mut rec = CallRecorder::new();
    let r = rec.absorb(Err(41));
    assert_eq!(r, Err(41));
    assert_eq!(rec.log(), "");
}

#[test]
fn empty_entry_adds_no_separator() {
    let mut rec = CallRecorder::new();
    rec.absorb::<()>(Ok("".to_string())).unwrap();
    assert_eq!(rec.log(), "");
    rec.absorb::<()>(Ok("x".to_string())).unwrap();
    assert_eq!(rec.log(), "x");
}
