use chip8_frontend::pause::PauseArbiter;

#[test]
fn fresh_arbiter_is_not_paused() {
    let arbiter = PauseArbiter::new();
    assert!(!arbiter.is_paused());
    assert_eq!(arbiter.pause_depth(), 0);
}

#[test]
fn one_request_pauses_until_released() {
    let mut arbiter = PauseArbiter::new();
    arbiter.request_pause();
    assert!(arbiter.is_paused());
    assert_eq!(arbiter.pause_depth(), 1);
    arbiter.release_pause();
    assert!(!arbiter.is_paused());
    assert_eq!(arbiter.pause_depth(), 0);
}

#[test]
fn nested_requests_resume_only_after_last_release() {
    let mut arbiter = PauseArbiter::new();
    let n: u64 = 5;
    for i in 0..n {
        arbiter.request_pause();
        assert_eq!(arbiter.pause_depth(), i + 1);
        assert!(arbiter.is_paused());
    }
    for i in 0..n {
        assert!(arbiter.is_paused());
        arbiter.release_pause();
        assert_eq!(arbiter.pause_depth(), n - 1 - i);
    }
    assert!(!arbiter.is_paused());
}

#[test]
fn interleaved_requests_track_outstanding_count() {
    let mut arbiter = PauseArbiter::new();
    // true stands for a request, false for a release
    let calls = [true, true, false, true, false, false, true, false];
    let mut outstanding: u64 = 0;
    for request in calls {
        if request {
            arbiter.request_pause();
            outstanding += 1;
        } else {
            arbiter.release_pause();
            outstanding -= 1;
        }
        assert_eq!(arbiter.pause_depth(), outstanding);
        assert_eq!(arbiter.is_paused(), outstanding > 0);
    }
    assert!(!arbiter.is_paused());
}

#[test]
fn two_requesters_compose_additively() {
    let mut arbiter = PauseArbiter::new();
    arbiter.request_pause(); // the file chooser opens
    arbiter.request_pause(); // a fault occurs meanwhile
    arbiter.release_pause(); // the chooser closes
    assert!(arbiter.is_paused());
    arbiter.release_pause(); // the fault is cleared
    assert!(!arbiter.is_paused());
}
