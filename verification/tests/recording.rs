use whispr::recording::recording_file_name_for;
use whispr::recording::{recording_file_name, RecordingSession};

#[test]
fn recording_names_hold_a_fresh_uuid() {
    let a = recording_file_name();
    let b = recording_file_name();
    assert_ne!(a, b);
    assert!(a.starts_with("whispr-") && a.ends_with(".wav"));
    let id = &a["whispr-".len()..a.len() - ".wav".len()];
    assert_eq!(id.len(), 36);
    let chars: Vec<char> = id.chars().collect();
    for (i, c) in chars.iter().enumerate() {
        if [8, 13, 18, 23].contains(&i) {
            assert_eq!(*c, '-');
        } else {
            assert!(c.is_ascii_hexdigit() && !c.is_ascii_uppercase());
        }
    }
    assert_eq!(chars[14], '4');
    assert!("89ab".contains(chars[19]));
}

#[test]
fn start_then_stop_gives_back_the_file() {
    let mut s: RecordingSession<String> = RecordingSession::new();
    assert!(s.start_needed());
    s.started("/tmp/one.wav".to_string());
    assert!(!s.start_needed());
    assert_eq!(s.stop().as_deref(), Some("/tmp/one.wav"));
    assert_eq!(s.stop(), None);
    assert!(s.start_needed());
}

#[test]
fn stop_without_start_gives_nothing() {
    let mut s: RecordingSession<String> = RecordingSession::new();
    assert_eq!(s.stop(), None);
}

#[test]
fn second_start_keeps_the_running_recording() {
    let mut s: RecordingSession<String> = RecordingSession::new();
    s.started("/tmp/first.wav".to_string());
    s.started("/tmp/second.wav".to_string());
    assert_eq!(s.stop().as_deref(), Some("/tmp/first.wav"));
}

#[test]
fn recording_name_for_an_id() {
    assert_eq!(recording_file_name_for("abc"), "whispr-abc.wav");
}
