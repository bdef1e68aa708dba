use vstd::prelude::*;

verus! {

/// A style attribute that can be locked against change on a node.
#[derive(Clone, Copy, Debug, PartialEq, Eq, Structural, Hash)]
pub enum LockableStyleAttribute {
    Display,
    PositionType,
    Overflow,
    Direction,
    Left,
    Right,
    Top,
    Bottom,
    Width,
    Height,
    MinWidth,
    MinHeight,
    MaxWidth,
    MaxHeight,
    AspectRatio,
    AlignItems,
    JustifyItems,
    AlignSelf,
    JustifySelf,
    AlignContent,
    JustifyContents,
    Margin,
    Padding,
    Border,
    FlexDirection,
    FlexWrap,
    FlexGrow,
    FlexShrink,
    FlexBasis,
    RowGap,
    ColumnGap,
    GridAutoFlow,
    GridTemplateRows,
    GridTemplateColumns,
    GridAutoRows,
    GridAutoColumns,
    GridRow,
    GridColumn,
    BackgroundColor,
    BorderColor,
    FocusPolicy,
    Visibility,
    ZIndex,
    Image,
    ImageScaleMode,
    FluxInteraction,
}

/// The style attributes that are locked on a node, held in bevy's hash set.
#[verifier::external_body]
#[derive(Debug)]
pub struct LockedStyleAttributes(bevy::utils::HashSet<LockableStyleAttribute>);

/// The attributes that a `LockedStyleAttributes` holds.
pub uninterp spec fn locked_attributes(locked: LockedStyleAttributes) -> Set<LockableStyleAttribute>;

impl View for LockedStyleAttributes {
    type V = Set<LockableStyleAttribute>;

    open spec fn view(&self) -> Set<LockableStyleAttribute> {
        locked_attributes(*self)
    }
}

impl Default for LockedStyleAttributes {
    /// No attribute locked. Trusted: `bevy::utils::HashSet::default` (hashbrown's
    /// `HashSet::default`) makes an empty set.
    #[verifier::external_body]
    fn default() -> (r: Self)
        ensures
            locked_attributes(r) == Set::<LockableStyleAttribute>::empty(),
    {
        LockedStyleAttributes(bevy::utils::HashSet::default())
    }
}

impl LockedStyleAttributes {
    /// Whether `attr` is locked. Trusted: hashbrown's `HashSet::contains` tells
    /// whether the set holds a value equal to `attr`; the derived `Eq` and `Hash`
    /// of `LockableStyleAttribute` compare and hash the variant alone.
    #[verifier::external_body]
    pub fn contains(&self, attr: LockableStyleAttribute) -> (r: bool)
        ensures
            r == locked_attributes(*self).contains(attr),
    {
        self.0.contains(&attr)
    }

    /// Locks `attr`, and says whether it was unlocked before. Trusted:
    /// hashbrown's `HashSet::insert` adds the value and returns whether the set
    /// did not hold it yet.
    #[verifier::external_body]
    pub fn lock(&mut self, attr: LockableStyleAttribute) -> (r: bool)
        ensures
            locked_attributes(*final(self)) == locked_attributes(*old(self)).insert(attr),
            r == !locked_attributes(*old(self)).contains(attr),
    {
        self.0.insert(attr)
    }
}

/// Whether a lock-checking (`check_lock`) style command must leave `attr` of a
/// node with the locked attributes `locked` alone.
pub open spec fn style_locked_spec(
    check_lock: bool,
    locked: Option<&LockedStyleAttributes>,
    attr: LockableStyleAttribute,
) -> bool {
    check_lock && match locked {
        Some(l) => l@.contains(attr),
        None => false,
    }
}

/// Whether a style command must leave the attribute `attr` of a node alone: it
/// checks locks (`check_lock`), the node has locked attributes (`locked`), and
/// `attr` is among them.
pub fn style_locked(
    check_lock: bool,
    locked: Option<&LockedStyleAttributes>,
    attr: LockableStyleAttribute,
) -> (r: bool)
    ensures
        r == style_locked_spec(check_lock, locked, attr),
        !check_lock ==> !r,
        locked is None ==> !r,
        r ==> (locked matches Some(l) && l@.contains(attr)),
{
    if check_lock {
        match locked {
            Some(l) => l.contains(attr),
            None => false,
        }
    } else {
        false
    }
}

/// The attribute that stops an absolute-position command on a node, checked
/// in the order position type, top, left: the first of them that is locked,
/// or none where the command may go ahead.
pub fn absolute_position_lock(check_lock: bool, locked: Option<&LockedStyleAttributes>) -> (r:
    Option<LockableStyleAttribute>)
    ensures
        r == (if style_locked_spec(check_lock, locked, LockableStyleAttribute::PositionType) {
            Some(LockableStyleAttribute::PositionType)
        } else if style_locked_spec(check_lock, locked, LockableStyleAttribute::Top) {
            Some(LockableStyleAttribute::Top)
        } else if style_locked_spec(check_lock, locked, LockableStyleAttribute::Left) {
            Some(LockableStyleAttribute::Left)
        } else {
            None
        }),
        !check_lock ==> r is None,
        locked is None ==> r is None,
        r matches Some(a) ==> (check_lock && (locked matches Some(l) && l@.contains(a))),
        r matches Some(a) ==> (a == LockableStyleAttribute::PositionType || a
            == LockableStyleAttribute::Top || a == LockableStyleAttribute::Left),
        (check_lock && (locked matches Some(l) && l@.contains(LockableStyleAttribute::PositionType)))
            ==> r == Some(LockableStyleAttribute::PositionType),
        ((locked matches Some(l) && !l@.contains(LockableStyleAttribute::PositionType)
            && !l@.contains(LockableStyleAttribute::Top) && !l@.contains(
            LockableStyleAttribute::Left,
        ))) ==> r is None,
{
    if style_locked(check_lock, locked, LockableStyleAttribute::PositionType) {
        Some(LockableStyleAttribute::PositionType)
    } else if style_locked(check_lock, locked, LockableStyleAttribute::Top) {
        Some(LockableStyleAttribute::Top)
    } else if style_locked(check_lock, locked, LockableStyleAttribute::Left) {
        Some(LockableStyleAttribute::Left)
    } else {
        None
    }
}

/// Locking `attr` makes every lock-checking style command leave `attr` alone,
/// and leaves whether any other attribute is locked unchanged.
pub proof fn lemma_lock_blocks_only_its_attribute(
    before: Set<LockableStyleAttribute>,
    attr: LockableStyleAttribute,
    other: LockableStyleAttribute,
)
    ensures
        before.insert(attr).contains(attr),
        other != attr ==> before.insert(attr).contains(other) == before.contains(other),
{
}

/// A command that does not check locks is never stopped, and a checking
/// command is stopped exactly when the node has locked attributes among which
/// is the attribute it sets: a node with no locked attributes is never
/// blocked.
pub proof fn lemma_lock_check(
    check_lock: bool,
    locked: Option<&LockedStyleAttributes>,
    attr: LockableStyleAttribute,
)
    ensures
        !check_lock ==> !style_locked_spec(check_lock, locked, attr),
        locked is None ==> !style_locked_spec(check_lock, locked, attr),
        check_lock ==> (style_locked_spec(check_lock, locked, attr) <==> (locked matches Some(l)
            && l@.contains(attr))),
{
}

} // verus!
