use pretender::components::{Color, FullColor};
use pretender::resources::{LinePattern, LineType};
use pretender::root_state::{initial_layers, initial_line_types, root_key_action, RootAction};
use pretender::keys::KeyCode;

#[test]
fn root_escape_quits() {
    assert_eq!(root_key_action(KeyCode::Escape), RootAction::Quit);
}

#[test]
fn root_letter_begins_entry_with_that_character() {
    assert_eq!(root_key_action(KeyCode::L), RootAction::BeginEntry('l'));
    assert_eq!(root_key_action(KeyCode::Key7), RootAction::BeginEntry('7'));
}

#[test]
fn root_other_keys_do_nothing() {
    assert_eq!(root_key_action(KeyCode::F12), RootAction::Keep);
    assert_eq!(root_key_action(KeyCode::Left), RootAction::Keep);
}

#[test]
fn fresh_session_line_types() {
    let (types, default_style) = initial_line_types();
    assert_eq!(default_style.id, 0);
    assert_eq!(
        types.get(default_style),
        Some(&LineType { pattern: LinePattern::Continuous })
    );
    assert_eq!(types.inner.len(), 2);
    assert_eq!(types.inner[1].1, Some(LineType { pattern: LinePattern::Hidden }));
}

#[test]
fn fresh_session_has_layer_zero() {
    let (types, default_style) = initial_line_types();
    let (layers, first) = initial_layers(default_style);
    let layer = layers.get(first).expect("the first layer is valid");
    assert_eq!(layer.name, "Zero");
    assert_eq!(layer.color, Color::Full(FullColor { r: 0, g: 0, b: 0 }));
    assert!(!layer.hidden && !layer.frozen && !layer.locked);
    assert_eq!(
        types.get(layer.line_type),
        Some(&LineType { pattern: LinePattern::Continuous })
    );
}
