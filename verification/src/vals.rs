use vstd::prelude::*;

use crate::interaction::{FluxInteraction, InteractionStyle};
use vstd::std_specs::convert::FromSpecImpl;

verus! {

/// A style value per interaction state: `idle` always, the others where given.
#[derive(Clone, Copy, Debug)]
pub struct StaticVals<T: Clone + Default> {
    pub idle: T,
    pub hover: Option<T>,
    pub press: Option<T>,
    pub cancel: Option<T>,
}

/// `value` where it is given, `fallback` otherwise.
pub open spec fn or_else<T>(value: Option<T>, fallback: T) -> T {
    match value {
        Some(v) => v,
        None => fallback,
    }
}

impl<T: Clone + Default> StaticVals<T> {
    /// The value that a node shows in the interaction state `flux_interaction`:
    /// the most specific value given for that state, falling back to `hover`
    /// and then to `idle`.
    pub open spec fn value_for(self, flux_interaction: FluxInteraction) -> T {
        match flux_interaction {
            FluxInteraction::NoInteraction => self.idle,
            FluxInteraction::PointerEnter => or_else(self.hover, self.idle),
            FluxInteraction::PointerLeave => self.idle,
            FluxInteraction::Pressed => or_else(self.press, or_else(self.hover, self.idle)),
            FluxInteraction::Released => or_else(self.hover, self.idle),
            FluxInteraction::PressCanceled => or_else(self.cancel, self.idle),
            FluxInteraction::Disabled => self.idle,
        }
    }

    /// Values that show `value` in every state.
    pub fn new(value: T) -> (r: Self)
        ensures
            r.idle == value,
            r.hover is None,
            r.press is None,
            r.cancel is None,
    {
        StaticVals { idle: value, hover: None, press: None, cancel: None }
    }

    /// The same values, with `value` shown on hover.
    pub fn hover(self, value: T) -> (r: Self)
        ensures
            r == (StaticVals { hover: Some(value), ..self }),
    {
        StaticVals { hover: Some(value), ..self }
    }

    /// The same values, with `value` shown while pressed.
    pub fn press(self, value: T) -> (r: Self)
        ensures
            r == (StaticVals { press: Some(value), ..self }),
    {
        StaticVals { press: Some(value), ..self }
    }

    /// The same values, with `value` shown after a canceled press.
    pub fn cancel(self, value: T) -> (r: Self)
        ensures
            r == (StaticVals { cancel: Some(value), ..self }),
    {
        StaticVals { cancel: Some(value), ..self }
    }

    /// A clone of the value shown in the state `flux_interaction`.
    pub fn to_value(&self, flux_interaction: FluxInteraction) -> (r: T)
        ensures
            cloned(self.value_for(flux_interaction), r),
    {
        match flux_interaction {
            FluxInteraction::NoInteraction => self.idle.clone(),
            FluxInteraction::PointerEnter => self.hover_or_idle(),
            FluxInteraction::PointerLeave => self.idle.clone(),
            FluxInteraction::Pressed => match &self.press {
                Some(v) => v.clone(),
                None => self.hover_or_idle(),
            },
            FluxInteraction::Released => self.hover_or_idle(),
            FluxInteraction::PressCanceled => match &self.cancel {
                Some(v) => v.clone(),
                None => self.idle.clone(),
            },
            FluxInteraction::Disabled => self.idle.clone(),
        }
    }

    fn hover_or_idle(&self) -> (r: T)
        ensures
            cloned(or_else(self.hover, self.idle), r),
    {
        match &self.hover {
            Some(v) => v.clone(),
            None => self.idle.clone(),
        }
    }
}

impl<T: Clone + Default> Default for StaticVals<T> {
    /// The default value of `T` when idle, and nothing else given.
    fn default() -> (r: Self)
        ensures
            call_ensures(T::default, (), r.idle),
            r.hover is None,
            r.press is None,
            r.cancel is None,
    {
        StaticVals { idle: T::default(), hover: None, press: None, cancel: None }
    }
}

impl<T: Clone + Default> From<T> for StaticVals<T> {
    fn from(value: T) -> (r: Self) {
        StaticVals::new(value)
    }
}

impl<T: Clone + Default> FromSpecImpl<T> for StaticVals<T> {
    open spec fn obeys_from_spec() -> bool {
        true
    }

    open spec fn from_spec(v: T) -> Self {
        StaticVals { idle: v, hover: None, press: None, cancel: None }
    }
}

/// A style value per interaction style of an animation: `idle` always, the
/// others where given.
#[derive(Clone, Debug, PartialEq)]
pub struct AnimatedVals<T: Default + Clone + PartialEq> {
    pub idle: T,
    pub hover: Option<T>,
    pub press: Option<T>,
    pub cancel: Option<T>,
    pub idle_alt: Option<T>,
    pub hover_alt: Option<T>,
    pub press_alt: Option<T>,
    pub enter_from: Option<T>,
}

impl<T: Default + Clone + PartialEq> AnimatedVals<T> {
    /// The value that an animation reads for the interaction style `interaction`:
    /// the value given for that style, with `hover` and then `idle` standing in
    /// for `press`, `idle_alt` and `press_alt`, and `idle` standing in for the rest.
    pub open spec fn value_for(self, interaction: InteractionStyle) -> T {
        match interaction {
            InteractionStyle::Idle => self.idle,
            InteractionStyle::Hover => or_else(self.hover, self.idle),
            InteractionStyle::Press => or_else(self.press, or_else(self.hover, self.idle)),
            InteractionStyle::Cancel => or_else(self.cancel, self.idle),
            InteractionStyle::IdleAlt => or_else(self.idle_alt, or_else(self.hover, self.idle)),
            InteractionStyle::HoverAlt => or_else(self.hover_alt, self.idle),
            InteractionStyle::PressAlt => or_else(self.press_alt, or_else(self.hover, self.idle)),
            InteractionStyle::Enter => or_else(self.enter_from, self.idle),
        }
    }

    /// Animated values that give `idle` and nothing else.
    pub open spec fn only_idle(idle: T) -> Self {
        AnimatedVals {
            idle,
            hover: None,
            press: None,
            cancel: None,
            idle_alt: None,
            hover_alt: None,
            press_alt: None,
            enter_from: None,
        }
    }

    /// Animated values that give what `value` gives, and no alternative or
    /// entry value.
    pub open spec fn from_static(value: StaticVals<T>) -> Self {
        AnimatedVals {
            idle: value.idle,
            hover: value.hover,
            press: value.press,
            cancel: value.cancel,
            idle_alt: None,
            hover_alt: None,
            press_alt: None,
            enter_from: None,
        }
    }

    /// A clone of the value read for the interaction style `interaction`.
    pub fn interaction_style(&self, interaction: InteractionStyle) -> (r: T)
        ensures
            cloned(self.value_for(interaction), r),
    {
        match interaction {
            InteractionStyle::Idle => self.idle.clone(),
            InteractionStyle::Hover => self.hover_or_idle(),
            InteractionStyle::Press => match &self.press {
                Some(v) => v.clone(),
                None => self.hover_or_idle(),
            },
            InteractionStyle::Cancel => match &self.cancel {
                Some(v) => v.clone(),
                None => self.idle.clone(),
            },
            InteractionStyle::IdleAlt => match &self.idle_alt {
                Some(v) => v.clone(),
                None => self.hover_or_idle(),
            },
            InteractionStyle::HoverAlt => match &self.hover_alt {
                Some(v) => v.clone(),
                None => self.idle.clone(),
            },
            InteractionStyle::PressAlt => match &self.press_alt {
                Some(v) => v.clone(),
                None => self.hover_or_idle(),
            },
            InteractionStyle::Enter => match &self.enter_from {
                Some(v) => v.clone(),
                None => self.idle.clone(),
            },
        }
    }

    fn hover_or_idle(&self) -> (r: T)
        ensures
            cloned(or_else(self.hover, self.idle), r),
    {
        match &self.hover {
            Some(v) => v.clone(),
            None => self.idle.clone(),
        }
    }
}

impl<T: Default + Clone + PartialEq> Default for AnimatedVals<T> {
    /// The default value of `T` when idle, and nothing else given.
    fn default() -> (r: Self)
        ensures
            call_ensures(T::default, (), r.idle),
            r == AnimatedVals::<T>::only_idle(r.idle),
    {
        AnimatedVals {
            idle: T::default(),
            hover: None,
            press: None,
            cancel: None,
            idle_alt: None,
            hover_alt: None,
            press_alt: None,
            enter_from: None,
        }
    }
}

impl<T: Default + Clone + PartialEq> From<T> for AnimatedVals<T> {
    fn from(value: T) -> (r: Self) {
        AnimatedVals {
            idle: value,
            hover: None,
            press: None,
            cancel: None,
            idle_alt: None,
            hover_alt: None,
            press_alt: None,
            enter_from: None,
        }
    }
}

impl<T: Default + Clone + PartialEq> FromSpecImpl<T> for AnimatedVals<T> {
    open spec fn obeys_from_spec() -> bool {
        true
    }

    open spec fn from_spec(v: T) -> Self {
        AnimatedVals::<T>::only_idle(v)
    }
}

impl<T: Default + Clone + PartialEq> From<StaticVals<T>> for AnimatedVals<T> {
    fn from(value: StaticVals<T>) -> (r: Self) {
        AnimatedVals {
            idle: value.idle,
            hover: value.hover,
            press: value.press,
            cancel: value.cancel,
            idle_alt: None,
            hover_alt: None,
            press_alt: None,
            enter_from: None,
        }
    }
}

impl<T: Default + Clone + PartialEq> FromSpecImpl<StaticVals<T>> for AnimatedVals<T> {
    open spec fn obeys_from_spec() -> bool {
        true
    }

    open spec fn from_spec(v: StaticVals<T>) -> Self {
        AnimatedVals::<T>::from_static(v)
    }
}

/// Values that give nothing but `idle` show `idle` in every interaction state.
pub proof fn lemma_idle_only_everywhere<T: Clone + Default>(
    vals: StaticVals<T>,
    flux_interaction: FluxInteraction,
)
    requires
        vals.hover is None,
        vals.press is None,
        vals.cancel is None,
    ensures
        vals.value_for(flux_interaction) == vals.idle,
{
}

/// With no interaction, after the pointer leaves, and while disabled, a node
/// shows its idle value, whatever else is given.
pub proof fn lemma_resting_states_show_idle<T: Clone + Default>(vals: StaticVals<T>)
    ensures
        vals.value_for(FluxInteraction::NoInteraction) == vals.idle,
        vals.value_for(FluxInteraction::PointerLeave) == vals.idle,
        vals.value_for(FluxInteraction::Disabled) == vals.idle,
{
}

/// A value given for hover is shown on pointer enter and on release, and
/// while pressed unless a press value is given; a value given for press is
/// shown while pressed; a value given for cancel is shown after a canceled
/// press. Setting one of them leaves the resting states showing `idle`.
pub proof fn lemma_given_values_are_shown<T: Clone + Default>(vals: StaticVals<T>, value: T)
    ensures
        (StaticVals { hover: Some(value), ..vals }).value_for(FluxInteraction::PointerEnter)
            == value,
        (StaticVals { hover: Some(value), ..vals }).value_for(FluxInteraction::Released) == value,
        vals.press is None ==> (StaticVals { hover: Some(value), ..vals }).value_for(
            FluxInteraction::Pressed,
        ) == value,
        (StaticVals { press: Some(value), ..vals }).value_for(FluxInteraction::Pressed) == value,
        (StaticVals { cancel: Some(value), ..vals }).value_for(FluxInteraction::PressCanceled)
            == value,
        (StaticVals { hover: Some(value), ..vals }).value_for(FluxInteraction::NoInteraction)
            == vals.idle,
        (StaticVals { press: Some(value), ..vals }).value_for(FluxInteraction::NoInteraction)
            == vals.idle,
        (StaticVals { cancel: Some(value), ..vals }).value_for(FluxInteraction::NoInteraction)
            == vals.idle,
{
}

/// Animated values made from static values read, for the idle, hover, press
/// and cancel styles, what the static values show with no interaction, on
/// pointer enter, while pressed and after a canceled press; the alternative
/// styles fall back as the hover or idle value, and entry reads `idle`.
pub proof fn lemma_from_static_agrees<T: Default + Clone + PartialEq>(vals: StaticVals<T>)
    ensures
        ({
            let anim = AnimatedVals::<T>::from_static(vals);
            &&& anim.value_for(InteractionStyle::Idle) == vals.value_for(
                FluxInteraction::NoInteraction,
            )
            &&& anim.value_for(InteractionStyle::Hover) == vals.value_for(
                FluxInteraction::PointerEnter,
            )
            &&& anim.value_for(InteractionStyle::Press) == vals.value_for(
                FluxInteraction::Pressed,
            )
            &&& anim.value_for(InteractionStyle::Cancel) == vals.value_for(
                FluxInteraction::PressCanceled,
            )
            &&& anim.value_for(InteractionStyle::IdleAlt) == vals.value_for(
                FluxInteraction::PointerEnter,
            )
            &&& anim.value_for(InteractionStyle::HoverAlt) == vals.idle
            &&& anim.value_for(InteractionStyle::PressAlt) == vals.value_for(
                FluxInteraction::Released,
            )
            &&& anim.value_for(InteractionStyle::Enter) == vals.idle
        }),
{
}

/// Animated values that give nothing but `idle` read `idle` for every style.
pub proof fn lemma_animated_idle_only_everywhere<T: Default + Clone + PartialEq>(
    idle: T,
    interaction: InteractionStyle,
)
    ensures
        AnimatedVals::<T>::only_idle(idle).value_for(interaction) == idle,
{
}

/// What a node shows in each interaction state, in terms of the values given:
/// on pointer enter and on release, the hover value where one is given and the
/// idle value otherwise; while pressed, the press value where one is given,
/// else the hover value where one is given, else the idle value; after a
/// canceled press, the cancel value where one is given and the idle value
/// otherwise. The press value shows only while pressed, the cancel value only
/// after a canceled press.
pub proof fn lemma_static_values_by_state<T: Clone + Default>(vals: StaticVals<T>)
    ensures
        vals.hover matches Some(h) ==> vals.value_for(FluxInteraction::PointerEnter) == h
            && vals.value_for(FluxInteraction::Released) == h,
        vals.hover is None ==> vals.value_for(FluxInteraction::PointerEnter) == vals.idle
            && vals.value_for(FluxInteraction::Released) == vals.idle,
        vals.press matches Some(p) ==> vals.value_for(FluxInteraction::Pressed) == p,
        vals.press is None ==> (vals.hover matches Some(h) ==> vals.value_for(
            FluxInteraction::Pressed,
        ) == h),
        vals.press is None && vals.hover is None ==> vals.value_for(FluxInteraction::Pressed)
            == vals.idle,
        vals.cancel matches Some(c) ==> vals.value_for(FluxInteraction::PressCanceled) == c,
        vals.cancel is None ==> vals.value_for(FluxInteraction::PressCanceled) == vals.idle,
        vals.value_for(FluxInteraction::NoInteraction) == vals.idle,
        vals.value_for(FluxInteraction::PointerLeave) == vals.idle,
        vals.value_for(FluxInteraction::Disabled) == vals.idle,
{
}

/// What an animation reads for each interaction style, in terms of the values
/// given: a value given for a style is the value read for it; where none is
/// given, press, idle-alt and press-alt read the hover value where one is given
/// and the idle value otherwise, and hover, cancel, hover-alt and enter read
/// the idle value. No other given value is ever read in place of a missing one.
pub proof fn lemma_animated_values_by_style<T: Default + Clone + PartialEq>(vals: AnimatedVals<T>)
    ensures
        vals.value_for(InteractionStyle::Idle) == vals.idle,
        vals.hover matches Some(v) ==> vals.value_for(InteractionStyle::Hover) == v,
        vals.press matches Some(v) ==> vals.value_for(InteractionStyle::Press) == v,
        vals.cancel matches Some(v) ==> vals.value_for(InteractionStyle::Cancel) == v,
        vals.idle_alt matches Some(v) ==> vals.value_for(InteractionStyle::IdleAlt) == v,
        vals.hover_alt matches Some(v) ==> vals.value_for(InteractionStyle::HoverAlt) == v,
        vals.press_alt matches Some(v) ==> vals.value_for(InteractionStyle::PressAlt) == v,
        vals.enter_from matches Some(v) ==> vals.value_for(InteractionStyle::Enter) == v,
        vals.hover is None ==> vals.value_for(InteractionStyle::Hover) == vals.idle,
        vals.cancel is None ==> vals.value_for(InteractionStyle::Cancel) == vals.idle,
        vals.hover_alt is None ==> vals.value_for(InteractionStyle::HoverAlt) == vals.idle,
        vals.enter_from is None ==> vals.value_for(InteractionStyle::Enter) == vals.idle,
        vals.press is None ==> (vals.hover matches Some(h) ==> vals.value_for(
            InteractionStyle::Press,
        ) == h),
        vals.idle_alt is None ==> (vals.hover matches Some(h) ==> vals.value_for(
            InteractionStyle::IdleAlt,
        ) == h),
        vals.press_alt is None ==> (vals.hover matches Some(h) ==> vals.value_for(
            InteractionStyle::PressAlt,
        ) == h),
        vals.press is None && vals.hover is None ==> vals.value_for(InteractionStyle::Press)
            == vals.idle,
        vals.idle_alt is None && vals.hover is None ==> vals.value_for(InteractionStyle::IdleAlt)
            == vals.idle,
        vals.press_alt is None && vals.hover is None ==> vals.value_for(
            InteractionStyle::PressAlt,
        ) == vals.idle,
{
}

} // verus!
