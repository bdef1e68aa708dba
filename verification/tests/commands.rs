use ui_style::commands::{
    flux_interaction_update, image_path_loads, image_scale_mode_action, node_render_state,
    z_index_update, NodeDisplay, NodeVisibility, ScaleModeAction, ZIndexValue,
};
use ui_style::interaction::FluxInteraction;

#[test]
fn enabling_a_disabled_node_resets_it() {
    assert_eq!(
        flux_interaction_update(true, FluxInteraction::Disabled),
        Some(FluxInteraction::NoInteraction)
    );
}

#[test]
fn enabling_an_enabled_node_writes_nothing() {
    assert_eq!(flux_interaction_update(true, FluxInteraction::Pressed), None);
    assert_eq!(flux_interaction_update(true, FluxInteraction::NoInteraction), None);
}

#[test]
fn disabling_writes_disabled_once() {
    assert_eq!(
        flux_interaction_update(false, FluxInteraction::PointerEnter),
        Some(FluxInteraction::Disabled)
    );
    assert_eq!(flux_interaction_update(false, FluxInteraction::Disabled), None);
}

#[test]
fn z_index_written_only_on_change() {
    assert_eq!(z_index_update(ZIndexValue::Local(1), ZIndexValue::Local(1)), None);
    assert_eq!(
        z_index_update(ZIndexValue::Local(1), ZIndexValue::Local(2)),
        Some(ZIndexValue::Local(2))
    );
    assert_eq!(z_index_update(ZIndexValue::Global(-3), ZIndexValue::Global(-3)), None);
    assert_eq!(
        z_index_update(ZIndexValue::Local(4), ZIndexValue::Global(4)),
        Some(ZIndexValue::Global(4))
    );
    assert_eq!(
        z_index_update(ZIndexValue::Global(4), ZIndexValue::Local(4)),
        Some(ZIndexValue::Local(4))
    );
}

#[test]
fn image_scale_mode_actions() {
    assert_eq!(image_scale_mode_action(true, true), ScaleModeAction::Replace);
    assert_eq!(image_scale_mode_action(true, false), ScaleModeAction::Insert);
    assert_eq!(image_scale_mode_action(false, true), ScaleModeAction::Remove);
    assert_eq!(image_scale_mode_action(false, false), ScaleModeAction::Keep);
}

#[test]
fn empty_image_path_loads_nothing() {
    assert!(!image_path_loads(""));
    assert!(image_path_loads("icons/close.png"));
}

#[test]
fn render_states() {
    assert_eq!(node_render_state(true), (NodeVisibility::Inherited, NodeDisplay::Flex));
    assert_eq!(node_render_state(false), (NodeVisibility::Hidden, NodeDisplay::NoDisplay));
}

#[test]
fn enabling_or_disabling_twice_settles() {
    let all = [
        FluxInteraction::NoInteraction,
        FluxInteraction::PointerEnter,
        FluxInteraction::PointerLeave,
        FluxInteraction::Pressed,
        FluxInteraction::Released,
        FluxInteraction::PressCanceled,
        FluxInteraction::Disabled,
    ];
    for enabled in [true, false] {
        for current in all {
            let once = flux_interaction_update(enabled, current).unwrap_or(current);
            assert_eq!(flux_interaction_update(enabled, once), None);
            assert_eq!(once == FluxInteraction::Disabled, !enabled);
        }
    }
}
