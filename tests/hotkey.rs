use autoclicker::hotkey::{capture_hotkey_combo, CaptureError, ComboCapture, ComboKeys, Key};

fn other(name: &str) -> Key {
    Key::Other(name.to_string())
}

#[test]
fn control_a_gesture() {
    let polls = vec![
        vec![],
        vec![Key::Control],
        vec![Key::Control, other("A")],
        vec![Key::Control],
        vec![],
    ];
    assert_eq!(capture_hotkey_combo(&polls), Ok("Control+A".to_string()));
}

#[test]
fn no_keys_is_empty_capture() {
    assert_eq!(capture_hotkey_combo(&vec![]), Err(CaptureError::EmptyCapture));
    assert_eq!(
        capture_hotkey_combo(&vec![vec![], vec![], vec![]]),
        Err(CaptureError::EmptyCapture)
    );
}

#[test]
fn waits_for_release_before_gathering() {
    let polls = vec![vec![other("B")], vec![], vec![Key::Shift, other("C")], vec![]];
    assert_eq!(capture_hotkey_combo(&polls), Ok("Shift+C".to_string()));
}

#[test]
fn modifiers_in_fixed_order() {
    let polls = vec![
        vec![],
        vec![Key::Command, other("F5")],
        vec![Key::Alt, Key::Shift, Key::Command],
        vec![Key::Control],
        vec![],
    ];
    assert_eq!(
        capture_hotkey_combo(&polls),
        Ok("Control+Shift+Alt+Command+F5".to_string())
    );
}

#[test]
fn released_keys_stay_in_the_combo() {
    let polls = vec![vec![], vec![Key::Alt], vec![other("X")], vec![]];
    assert_eq!(capture_hotkey_combo(&polls), Ok("Alt+X".to_string()));
}

#[test]
fn later_polls_are_ignored_after_the_gesture() {
    let polls = vec![vec![], vec![other("Q")], vec![], vec![Key::Control], vec![]];
    assert_eq!(capture_hotkey_combo(&polls), Ok("Q".to_string()));
}

#[test]
fn capture_step_by_step() {
    let mut cap = ComboCapture::new();
    assert!(!cap.observe(&vec![]));
    assert!(!cap.observe(&vec![Key::Control, other("A")]));
    assert!(!cap.observe(&vec![other("A")]));
    assert!(cap.observe(&vec![]));
    assert_eq!(cap.finish(), Ok("Control+A".to_string()));
}

#[test]
fn combo_keys_keep_first_other_key() {
    let mut k = ComboKeys::new();
    assert_eq!(k.combo_string(), Err(CaptureError::EmptyCapture));
    k.add(&other("Z"));
    k.add(&other("Y"));
    k.add(&Key::Shift);
    assert_eq!(k.combo_string(), Ok("Shift+Z".to_string()));
}

#[test]
fn empty_key_name_is_ignored() {
    let polls = vec![vec![], vec![other("")], vec![]];
    assert_eq!(capture_hotkey_combo(&polls), Err(CaptureError::EmptyCapture));
    let polls = vec![vec![], vec![other(""), other("B")], vec![]];
    assert_eq!(capture_hotkey_combo(&polls), Ok("B".to_string()));
}

#[test]
fn modifier_named_key_counts_as_modifier() {
    let polls = vec![vec![], vec![Key::Control, other("Control")], vec![other("Alt"), other("K")], vec![]];
    assert_eq!(capture_hotkey_combo(&polls), Ok("Control+Alt+K".to_string()));
}
