use pretender::keys::{as_alphanumeric, is_confirmation, KeyCode};

#[test]
fn letters_map_to_lowercase_characters() {
    assert_eq!(as_alphanumeric(KeyCode::A), Some('a'));
    assert_eq!(as_alphanumeric(KeyCode::L), Some('l'));
    assert_eq!(as_alphanumeric(KeyCode::Z), Some('z'));
}

#[test]
fn digit_rows_and_numpad_agree() {
    assert_eq!(as_alphanumeric(KeyCode::Key0), Some('0'));
    assert_eq!(as_alphanumeric(KeyCode::Key9), Some('9'));
    assert_eq!(as_alphanumeric(KeyCode::Numpad0), Some('0'));
    assert_eq!(as_alphanumeric(KeyCode::Numpad9), Some('9'));
    assert_eq!(as_alphanumeric(KeyCode::Key5), as_alphanumeric(KeyCode::Numpad5));
}

#[test]
fn control_keys_are_not_alphanumeric() {
    assert_eq!(as_alphanumeric(KeyCode::Escape), None);
    assert_eq!(as_alphanumeric(KeyCode::Return), None);
    assert_eq!(as_alphanumeric(KeyCode::Space), None);
    assert_eq!(as_alphanumeric(KeyCode::F1), None);
    assert_eq!(as_alphanumeric(KeyCode::LShift), None);
}

#[test]
fn confirmation_classification() {
    assert_eq!(is_confirmation(KeyCode::Return), Some(true));
    assert_eq!(is_confirmation(KeyCode::Space), Some(true));
    assert_eq!(is_confirmation(KeyCode::NumpadEnter), Some(true));
    assert_eq!(is_confirmation(KeyCode::Tab), Some(true));
    assert_eq!(is_confirmation(KeyCode::Escape), Some(false));
    assert_eq!(is_confirmation(KeyCode::A), None);
    assert_eq!(is_confirmation(KeyCode::Left), None);
}
