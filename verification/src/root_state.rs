//! The root interaction context: what it decides on a raw key press, and
//! the domain objects a fresh editing session starts with.

use vstd::prelude::*;

verus! {

use crate::common::GenerationID;
use crate::components::{Color, FullColor};
use crate::keys::{as_alphanumeric, spec_alphanumeric, KeyCode};
use crate::resources::{Layer, Layers, LinePattern, LineType, LineTypes};

/// What the root context does with a key press: nothing, open a
/// command-line entry session whose buffer starts with the typed
/// character, or close the application.
#[derive(Clone, Copy, Debug, PartialEq, Eq, Structural)]
pub enum RootAction {
    Keep,
    BeginEntry(char),
    Quit,
}

/// Decides a key press in the root context: the escape key closes the
/// application; an alphanumeric key opens command entry, seeded with its
/// character; every other key does nothing here.
pub fn root_key_action(key: KeyCode) -> (r: RootAction)
    ensures
        key is Escape ==> r is Quit,
        !(key is Escape) ==> (spec_alphanumeric(key) matches Some(c) ==> r
            == RootAction::BeginEntry(c)),
        !(key is Escape) && spec_alphanumeric(key) is None ==> r is Keep,
{
    if matches!(key, KeyCode::Escape) {
        return RootAction::Quit;
    }
    match as_alphanumeric(key) {
        Some(letter) => RootAction::BeginEntry(letter),
        None => RootAction::Keep,
    }
}

/// The line styles a fresh session starts with: the continuous style
/// first — its handle is the one layers refer to by default — then the
/// hidden (dashed) style.
pub fn initial_line_types() -> (r: (LineTypes, GenerationID<LineType>))
    ensures
        r.0.inner@.len() == 2,
        r.0.inner@[0].1 == Some(LineType { pattern: LinePattern::Continuous }),
        r.0.inner@[1].1 == Some(LineType { pattern: LinePattern::Hidden }),
        r.0.valid(r.1),
        r.1.id == 0,
{
    let mut line_types = LineTypes::new();
    let continuous = LineType { pattern: LinePattern::Continuous };
    let hidden = LineType { pattern: LinePattern::Hidden };
    let linetype_id = line_types.push(continuous);
    line_types.push(hidden);
    (line_types, linetype_id)
}

/// The layers a fresh session starts with: the single layer `Zero`, black,
/// drawn with the given default line style, with every flag clear.
pub fn initial_layers(line_type: GenerationID<LineType>) -> (r: (Layers, GenerationID<Layer>))
    ensures
        r.0.inner@.len() == 1,
        r.0.inner@[0].1 matches Some(layer) && layer.name@ == "Zero"@ && layer.color == Color::Full(
            FullColor { r: 0, g: 0, b: 0 },
        ) && layer.line_type == line_type && !layer.hidden && !layer.frozen && !layer.locked,
        r.0.valid(r.1),
        r.1.id == 0,
{
    let first_layer = Layer {
        name: "Zero".to_owned(),
        color: Color::Full(FullColor { r: 0, g: 0, b: 0 }),
        line_type,
        hidden: false,
        frozen: false,
        locked: false,
    };
    let mut layers = Layers::new();
    let layer_id = layers.push(first_layer);
    (layers, layer_id)
}

} // verus!
