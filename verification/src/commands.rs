use vstd::prelude::*;

use crate::interaction::FluxInteraction;

verus! {

/// The interaction state a node is left in by enabling (`enabled`) or
/// disabling its interaction tracking while it is in `current`.
pub open spec fn flux_interaction_after(enabled: bool, current: FluxInteraction) -> FluxInteraction {
    if enabled {
        if current == FluxInteraction::Disabled {
            FluxInteraction::NoInteraction
        } else {
            current
        }
    } else {
        FluxInteraction::Disabled
    }
}

/// What enabling (`enabled`) or disabling the interaction tracking of a node in
/// the state `current` writes to it: the new state, or nothing where the state
/// stays as it is. A disabled node that is enabled starts with no interaction.
pub fn flux_interaction_update(enabled: bool, current: FluxInteraction) -> (r: Option<
    FluxInteraction,
>)
    ensures
        match r {
            Some(next) => next != current && next == flux_interaction_after(enabled, current),
            None => flux_interaction_after(enabled, current) == current,
        },
{
    if enabled {
        if current == FluxInteraction::Disabled {
            Some(FluxInteraction::NoInteraction)
        } else {
            None
        }
    } else {
        if current != FluxInteraction::Disabled {
            Some(FluxInteraction::Disabled)
        } else {
            None
        }
    }
}

/// Enabling or disabling twice in a row leaves a node as doing it once does,
/// and the second time writes nothing; disabling always leaves it disabled,
/// enabling never does.
pub proof fn lemma_flux_interaction_settles(enabled: bool, current: FluxInteraction)
    ensures
        flux_interaction_after(enabled, flux_interaction_after(enabled, current))
            == flux_interaction_after(enabled, current),
        flux_interaction_after(false, current) == FluxInteraction::Disabled,
        flux_interaction_after(true, current) != FluxInteraction::Disabled,
        current != FluxInteraction::Disabled ==> flux_interaction_after(true, current) == current,
{
}

/// The stacking order of a node: within its parent (`Local`) or across the
/// whole UI (`Global`).
#[derive(Clone, Copy, Debug, PartialEq, Eq, Structural)]
pub enum ZIndexValue {
    Local(i32),
    Global(i32),
}

/// What setting the stacking order `target` on a node whose stacking order is
/// `current` writes to it: `target`, or nothing where it is already set, so
/// that an unchanged value does not count as a change.
pub fn z_index_update(current: ZIndexValue, target: ZIndexValue) -> (r: Option<ZIndexValue>)
    ensures
        r == (if current == target {
            None
        } else {
            Some(target)
        }),
{
    match (current, target) {
        (ZIndexValue::Local(level), ZIndexValue::Local(goal)) => {
            if level != goal {
                Some(target)
            } else {
                None
            }
        },
        (ZIndexValue::Global(level), ZIndexValue::Global(goal)) => {
            if level != goal {
                Some(target)
            } else {
                None
            }
        },
        _ => Some(target),
    }
}

/// What setting an image scale mode does to a node.
#[derive(Clone, Copy, Debug, PartialEq, Eq, Structural)]
pub enum ScaleModeAction {
    /// Overwrite the node's scale mode with the new one.
    Replace,
    /// Give the node the new scale mode, which it has none of.
    Insert,
    /// Take the node's scale mode away.
    Remove,
    /// Leave the node as it is.
    Keep,
}

/// What setting an image scale mode does to a node: with a mode to set
/// (`target_given`), it replaces the node's mode where the node has one
/// (`current_present`) and gives it one otherwise; with none, it removes the
/// node's mode where there is one.
pub fn image_scale_mode_action(target_given: bool, current_present: bool) -> (r: ScaleModeAction)
    ensures
        r == (if target_given {
            if current_present {
                ScaleModeAction::Replace
            } else {
                ScaleModeAction::Insert
            }
        } else if current_present {
            ScaleModeAction::Remove
        } else {
            ScaleModeAction::Keep
        }),
{
    if target_given {
        if current_present {
            ScaleModeAction::Replace
        } else {
            ScaleModeAction::Insert
        }
    } else if current_present {
        ScaleModeAction::Remove
    } else {
        ScaleModeAction::Keep
    }
}

/// Whether setting the image at `path` loads an asset from `path`: it does
/// unless `path` is empty, which sets the default image.
pub fn image_path_loads(path: &str) -> (r: bool)
    ensures
        r == (path@.len() > 0),
{
    !path.is_empty()
}

/// Whether a node is drawn.
#[derive(Clone, Copy, Debug, PartialEq, Eq, Structural)]
pub enum NodeVisibility {
    Inherited,
    Hidden,
    Visible,
}

/// How a node takes part in layout.
#[derive(Clone, Copy, Debug, PartialEq, Eq, Structural)]
pub enum NodeDisplay {
    Flex,
    Grid,
    Block,
    /// The node takes no space and is not laid out (named `None` by bevy).
    NoDisplay,
}

/// The visibility and display that showing (`render`) or hiding a node sets:
/// shown nodes inherit visibility and lay out as flex; hidden nodes are hidden
/// and take no space.
pub fn node_render_state(render: bool) -> (r: (NodeVisibility, NodeDisplay))
    ensures
        r == (if render {
            (NodeVisibility::Inherited, NodeDisplay::Flex)
        } else {
            (NodeVisibility::Hidden, NodeDisplay::NoDisplay)
        }),
{
    if render {
        (NodeVisibility::Inherited, NodeDisplay::Flex)
    } else {
        (NodeVisibility::Hidden, NodeDisplay::NoDisplay)
    }
}

} // verus!
