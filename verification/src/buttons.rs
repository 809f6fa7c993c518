//! The look of menu buttons: how pointer interaction and the selected
//! mark pick one of the four button colours.

use vstd::prelude::*;

verus! {

/// What the pointer is doing to a button this frame. `Idle` means the
/// pointer is neither over the button nor pressing it.
#[derive(Clone, Copy, Debug, PartialEq, Eq, Structural)]
pub enum Interaction {
    Pressed,
    Hovered,
    Idle,
}

/// The colour a button shows, from darkest to brightest green.
#[derive(Clone, Copy, Debug, PartialEq, Eq, Structural)]
pub enum ButtonVisual {
    Normal,
    Hovered,
    HoveredSelected,
    Pressed,
}

/// Picks a button's colour: a pressed button and a selected button at
/// rest both show the pressed green; hovering brightens an unselected
/// button one step and a selected one a different step.
pub fn button_visual(interaction: Interaction, selected: bool) -> (v: ButtonVisual)
    ensures
        v == match interaction {
            Interaction::Pressed => ButtonVisual::Pressed,
            Interaction::Hovered => if selected {
                ButtonVisual::HoveredSelected
            } else {
                ButtonVisual::Hovered
            },
            Interaction::Idle => if selected {
                ButtonVisual::Pressed
            } else {
                ButtonVisual::Normal
            },
        },
{
    match (interaction, selected) {
        (Interaction::Pressed, _) => ButtonVisual::Pressed,
        (Interaction::Idle, true) => ButtonVisual::Pressed,
        (Interaction::Hovered, true) => ButtonVisual::HoveredSelected,
        (Interaction::Hovered, false) => ButtonVisual::Hovered,
        (Interaction::Idle, false) => ButtonVisual::Normal,
    }
}

/// The red, green and blue of each button colour, in hundredths of full
/// brightness.
pub fn visual_rgb_centi(v: ButtonVisual) -> (rgb: (u8, u8, u8))
    ensures
        rgb == match v {
            ButtonVisual::Normal => (15u8, 15u8, 15u8),
            ButtonVisual::Hovered => (25u8, 25u8, 25u8),
            ButtonVisual::HoveredSelected => (25u8, 65u8, 25u8),
            ButtonVisual::Pressed => (35u8, 75u8, 35u8),
        },
{
    match v {
        ButtonVisual::Normal => (15, 15, 15),
        ButtonVisual::Hovered => (25, 25, 25),
        ButtonVisual::HoveredSelected => (25, 65, 25),
        ButtonVisual::Pressed => (35, 75, 35),
    }
}

/// The grey used for all menu text, in hundredths of full brightness.
pub fn text_rgb_centi() -> (rgb: (u8, u8, u8))
    ensures
        rgb == (90u8, 90u8, 90u8),
{
    (90, 90, 90)
}

} // verus!
