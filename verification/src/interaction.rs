use vstd::prelude::*;

verus! {

/// The interaction state that a UI node is in, as tracked across frames.
#[derive(Clone, Copy, Debug, PartialEq, Eq, Structural)]
pub enum FluxInteraction {
    /// No interaction is under way.
    NoInteraction,
    PointerEnter,
    PointerLeave,
    Pressed,
    Released,
    PressCanceled,
    Disabled,
}

/// The interaction style that an animation reads its value for.
#[derive(Clone, Copy, Debug, PartialEq, Eq, Structural)]
pub enum InteractionStyle {
    Idle,
    Hover,
    Press,
    Cancel,
    IdleAlt,
    HoverAlt,
    PressAlt,
    Enter,
}

} // verus!
