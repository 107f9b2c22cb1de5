use pino::{
    count_lines, decode_frame, endpoint_path, is_running, plan_startup, requested_update, Startup,
};

#[test]
fn endpoint_per_session() {
    assert_eq!(endpoint_path(0), "/tmp/pino-check-0.sock");
    assert_eq!(endpoint_path(7), "/tmp/pino-check-7.sock");
    assert_eq!(endpoint_path(255), "/tmp/pino-check-255.sock");
}

#[test]
fn unanswered_endpoint_means_owning_it() {
    let u = requested_update(Some("t".to_string()), Some("m".to_string()), Some(1), None, false);
    assert!(matches!(plan_startup(false, false, &u), Startup::Own { remove_stale: false }));
    assert!(matches!(plan_startup(false, true, &u), Startup::Own { remove_stale: true }));
}

#[test]
fn answered_endpoint_means_forwarding() {
    let u = requested_update(Some("Build".to_string()), Some("Passed".to_string()), Some(2), None, true);
    match plan_startup(true, true, &u) {
        Startup::Forward(frame) => {
            assert_eq!(frame, "Build|+|Passed|+|2");
            let back = decode_frame(&frame).unwrap();
            assert_eq!(back.message, "Passed");
        }
        Startup::Own { .. } => panic!("a reachable owner must not be replaced"),
    }
}

#[test]
fn invocation_defaults() {
    let shown = requested_update(None, None, None, None, false);
    assert_eq!(shown.title, "Title");
    assert_eq!(shown.message, "you didn't set the title or message");
    assert_eq!(shown.delay, 5);
    let forwarded = requested_update(None, None, None, None, true);
    assert_eq!(forwarded.delay, 3);
    assert_eq!(requested_update(None, None, None, Some(8), true).delay, 8);
    assert_eq!(requested_update(None, None, Some(1), Some(8), false).delay, 1);
}

#[test]
fn lines_are_counted_as_str_lines_does() {
    assert_eq!(count_lines(""), 0);
    assert_eq!(count_lines("1"), 1);
    assert_eq!(count_lines("1\n"), 1);
    assert_eq!(count_lines("1\n2"), 2);
    assert_eq!(count_lines("1\n2\n"), 2);
    assert_eq!(count_lines("\n\n"), 2);
    for s in ["", "a", "a\n", "a\nb", "a\r\nb\r\n", "\n", "x\n\ny"] {
        assert_eq!(count_lines(s), s.lines().count());
    }
}

#[test]
fn running_means_two_processes_listed() {
    assert!(is_running(true, b"123\n456\n"));
    assert!(!is_running(true, b"123\n"));
    assert!(!is_running(false, b"123\n456\n"));
    assert!(!is_running(true, b"1\n2\n3\n"));
}
