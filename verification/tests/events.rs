use raa_tui::events::{check_terminate_sequence, KeyPress, Termination};

#[test]
fn control_c_exits() {
    let key = KeyPress { ctrl: true, ch: Some('c') };
    assert_eq!(check_terminate_sequence(&key), Some(Termination::Exit));
}

#[test]
fn control_slash_aborts() {
    let key = KeyPress { ctrl: true, ch: Some('/') };
    assert_eq!(check_terminate_sequence(&key), Some(Termination::Abort));
}

#[test]
fn other_keys_do_not_end() {
    assert_eq!(check_terminate_sequence(&KeyPress { ctrl: false, ch: Some('c') }), None);
    assert_eq!(check_terminate_sequence(&KeyPress { ctrl: true, ch: Some('x') }), None);
    assert_eq!(check_terminate_sequence(&KeyPress { ctrl: true, ch: None }), None);
}
