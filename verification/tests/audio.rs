use chip8_frontend::audio::{AudioGate, StreamCommand};

#[test]
fn new_stream_is_silent() {
    let control = AudioGate::new();
    assert!(!control.is_active());
}

#[test]
fn activate_resumes_and_is_idempotent() {
    let mut control = AudioGate::new();
    assert_eq!(control.activate(), StreamCommand::Resume);
    assert!(control.is_active());
    assert_eq!(control.activate(), StreamCommand::Resume);
    assert!(control.is_active());
}

#[test]
fn silence_pauses_and_is_idempotent() {
    let mut control = AudioGate::new();
    assert_eq!(control.silence(), StreamCommand::Pause);
    assert!(!control.is_active());
    control.activate();
    assert_eq!(control.silence(), StreamCommand::Pause);
    assert_eq!(control.silence(), StreamCommand::Pause);
    assert!(!control.is_active());
}

#[test]
fn stream_follows_the_sound_timer_level() {
    let mut control = AudioGate::new();
    let levels = [true, true, false, true, false, false];
    for level in levels {
        let command = control.follow(level);
        assert_eq!(command, if level { StreamCommand::Resume } else { StreamCommand::Pause });
        assert_eq!(control.is_active(), level);
    }
}
