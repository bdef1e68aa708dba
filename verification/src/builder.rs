use vstd::prelude::*;

verus! {

/// Equality of what two values style, as opposed to equality of the values:
/// two style attributes are logically equal when they set the same property.
pub trait LogicalEq<Rhs: ?Sized = Self> {
    /// Whether `self` and `other` style the same property.
    spec fn logically_eq(&self, other: &Rhs) -> bool;

    fn logical_eq(&self, other: &Rhs) -> (r: bool)
        ensures
            r == self.logically_eq(other),
    ;

    fn logical_ne(&self, other: &Rhs) -> (r: bool)
        ensures
            r == !self.logically_eq(other),
    {
        !self.logical_eq(other)
    }
}

/// Entry `i` of `attributes` is logically equal to `attribute`.
pub open spec fn matches_at<A: LogicalEq>(attributes: Seq<A>, attribute: A, i: int) -> bool {
    0 <= i < attributes.len() && attributes[i].logically_eq(&attribute)
}

/// Some entry of `attributes` is logically equal to `attribute`.
pub open spec fn has_match<A: LogicalEq>(attributes: Seq<A>, attribute: A) -> bool {
    exists|i: int| matches_at(attributes, attribute, i)
}

/// Entry `i` is the first entry of `attributes` that is logically equal to `attribute`.
pub open spec fn is_first_match<A: LogicalEq>(attributes: Seq<A>, attribute: A, i: int) -> bool {
    &&& matches_at(attributes, attribute, i)
    &&& forall|j: int| 0 <= j < i ==> !(#[trigger] attributes[j]).logically_eq(&attribute)
}

/// Where adding `attribute` puts it: over the first logically equal entry, or
/// after the last entry where there is none.
pub open spec fn placed_at<A: LogicalEq>(attributes: Seq<A>, attribute: A) -> int {
    if has_match(attributes, attribute) {
        choose|i: int| is_first_match(attributes, attribute, i)
    } else {
        attributes.len() as int
    }
}

/// The entries after adding `attribute`: it replaces the first logically equal
/// entry, or is appended where there is none.
pub open spec fn added<A: LogicalEq>(attributes: Seq<A>, attribute: A) -> Seq<A> {
    if has_match(attributes, attribute) {
        attributes.update(placed_at(attributes, attribute), attribute)
    } else {
        attributes.push(attribute)
    }
}

/// No two entries of `attributes` are logically equal.
pub open spec fn logically_distinct<A: LogicalEq>(attributes: Seq<A>) -> bool {
    forall|i: int, j: int|
        #![trigger attributes[i], attributes[j]]
        0 <= i < attributes.len() && 0 <= j < attributes.len() && i != j
            ==> !attributes[i].logically_eq(&attributes[j])
}

/// A first match is the only first match.
pub proof fn lemma_first_match_unique<A: LogicalEq>(attributes: Seq<A>, attribute: A, i: int, k: int)
    requires
        is_first_match(attributes, attribute, i),
        is_first_match(attributes, attribute, k),
    ensures
        i == k,
{
    if i < k {
        assert(!attributes[i].logically_eq(&attribute));
    } else if k < i {
        assert(!attributes[k].logically_eq(&attribute));
    }
}

/// Where some entry is logically equal to `attribute`, a first such entry exists.
pub proof fn lemma_first_match_exists<A: LogicalEq>(attributes: Seq<A>, attribute: A, w: int)
    requires
        matches_at(attributes, attribute, w),
    ensures
        exists|i: int| is_first_match(attributes, attribute, i),
    decreases w,
{
    if exists|j: int| 0 <= j < w && (#[trigger] attributes[j]).logically_eq(&attribute) {
        let j = choose|j: int| 0 <= j < w && (#[trigger] attributes[j]).logically_eq(&attribute);
        lemma_first_match_exists(attributes, attribute, j);
    } else {
        assert(is_first_match(attributes, attribute, w));
    }
}

/// Where some entry is logically equal to `attribute`, adding it puts it over
/// the first such entry.
pub proof fn lemma_placed_at_first_match<A: LogicalEq>(attributes: Seq<A>, attribute: A)
    requires
        has_match(attributes, attribute),
    ensures
        is_first_match(attributes, attribute, placed_at(attributes, attribute)),
{
    let w = choose|w: int| matches_at(attributes, attribute, w);
    lemma_first_match_exists(attributes, attribute, w);
}

/// A view of a style builder for adding interactive attributes.
pub struct InteractiveStyleBuilder<'a, A: LogicalEq> {
    pub style_builder: &'a mut StyleBuilder<A>,
}

/// A view of a style builder for adding animated attributes.
pub struct AnimatedStyleBuilder<'a, A: LogicalEq> {
    pub style_builder: &'a mut StyleBuilder<A>,
}

impl<'a, A: LogicalEq + Clone> AnimatedStyleBuilder<'a, A> {
    /// Adds a clone of `attribute` and returns the index of the first entry
    /// that is logically equal to `attribute` afterwards, which exists because
    /// `attribute` and its clones are logically equal to it.
    pub fn add_and_locate(&mut self, attribute: A) -> (r: usize)
        requires
            forall|c: A| #[trigger] cloned(attribute, c) ==> c.logically_eq(&attribute),
        ensures
            exists|c: A|
                cloned(attribute, c) && (*final(self).style_builder)@ == added(
                    (*old(self).style_builder)@,
                    c,
                ),
            is_first_match((*final(self).style_builder)@, attribute, r as int),
            *final(final(self).style_builder) == *final(old(self).style_builder),
    {
        let key = attribute.clone();
        let ghost before = (*self.style_builder)@;
        assert(cloned(attribute, key));
        self.style_builder.add(key);
        proof {
            lemma_add_places_attribute(before, key);
            assert(key.logically_eq(&attribute));
            assert(matches_at((*self.style_builder)@, attribute, placed_at(before, key)));
        }
        match self.style_builder.position(&attribute) {
            Some(index) => index,
            None => {
                proof {
                    assert(has_match((*self.style_builder)@, attribute));
                }
                0
            },
        }
    }
}

/// A builder of a style: a list of style attributes that holds one entry per
/// property set through `add`.
pub struct StyleBuilder<A: LogicalEq> {
    attributes: Vec<A>,
}

impl<A: LogicalEq> View for StyleBuilder<A> {
    type V = Seq<A>;

    closed spec fn view(&self) -> Seq<A> {
        self.attributes@
    }
}

impl<A: LogicalEq> StyleBuilder<A> {
    /// A builder with no attribute.
    pub fn new() -> (r: Self)
        ensures
            r@ == Seq::<A>::empty(),
    {
        StyleBuilder { attributes: Vec::new() }
    }

    /// The index of the first attribute that is logically equal to `attribute`.
    pub fn position(&self, attribute: &A) -> (r: Option<usize>)
        ensures
            match r {
                Some(i) => is_first_match(self@, *attribute, i as int),
                None => !has_match(self@, *attribute),
            },
    {
        let n = self.attributes.len();
        let mut i: usize = 0;
        while i < n
            invariant
                n == self@.len(),
                0 <= i <= n,
                forall|j: int| 0 <= j < i ==> !(#[trigger] self@[j]).logically_eq(attribute),
            decreases n - i,
        {
            if self.attributes[i].logical_eq(attribute) {
                return Some(i);
            }
            i = i + 1;
        }
        assert forall|j: int| !matches_at(self@, *attribute, j) by {
            if 0 <= j < n {
                assert(!self@[j].logically_eq(attribute));
            }
        }
        None
    }

    /// Adds `attribute`: it replaces the first attribute that is logically
    /// equal to it, or is appended where there is none.
    pub fn add(&mut self, attribute: A)
        ensures
            final(self)@ == added(old(self)@, attribute),
    {
        match self.position(&attribute) {
            None => {
                self.attributes.push(attribute);
            },
            Some(index) => {
                proof {
                    lemma_placed_at_first_match(old(self)@, attribute);
                    lemma_first_match_unique(
                        old(self)@,
                        attribute,
                        index as int,
                        placed_at(old(self)@, attribute),
                    );
                }
                self.attributes.set(index, attribute);
            },
        }
    }

    /// A view of this builder for adding interactive attributes.
    pub fn interactive<'a>(&'a mut self) -> (r: InteractiveStyleBuilder<'a, A>)
        ensures
            *r.style_builder == *old(self),
            *final(self) == *final(r.style_builder),
    {
        InteractiveStyleBuilder { style_builder: self }
    }

    /// A view of this builder for adding animated attributes.
    pub fn animated<'a>(&'a mut self) -> (r: AnimatedStyleBuilder<'a, A>)
        ensures
            *r.style_builder == *old(self),
            *final(self) == *final(r.style_builder),
    {
        AnimatedStyleBuilder { style_builder: self }
    }

    /// The attributes, in the order they were first added.
    pub fn into_attributes(self) -> (r: Vec<A>)
        ensures
            r@ == self@,
    {
        self.attributes
    }
}

/// Adding `attribute` puts it at `placed_at`, leaves every other entry where
/// it was, and grows the list by one entry only when no entry was logically
/// equal to it. Where `attribute` is logically equal to itself, the first entry
/// logically equal to it afterwards is the one just added, so looking it up
/// again finds it.
pub proof fn lemma_add_places_attribute<A: LogicalEq>(attributes: Seq<A>, attribute: A)
    ensures
        0 <= placed_at(attributes, attribute) < added(attributes, attribute).len(),
        added(attributes, attribute)[placed_at(attributes, attribute)] == attribute,
        added(attributes, attribute).len() == attributes.len() + (if has_match(
            attributes,
            attribute,
        ) {
            0int
        } else {
            1int
        }),
        forall|j: int|
            0 <= j < attributes.len() && j != placed_at(attributes, attribute) ==> #[trigger] added(
                attributes,
                attribute,
            )[j] == attributes[j],
        attribute.logically_eq(&attribute) ==> is_first_match(
            added(attributes, attribute),
            attribute,
            placed_at(attributes, attribute),
        ),
{
    let p = placed_at(attributes, attribute);
    let after = added(attributes, attribute);
    if has_match(attributes, attribute) {
        lemma_placed_at_first_match(attributes, attribute);
    } else {
        assert forall|j: int| 0 <= j < attributes.len() implies !(
        #[trigger] attributes[j]).logically_eq(&attribute) by {
            assert(!matches_at(attributes, attribute, j));
        }
    }
    if attribute.logically_eq(&attribute) {
        assert forall|j: int| 0 <= j < p implies !(#[trigger] after[j]).logically_eq(&attribute) by {
            assert(after[j] == attributes[j]);
        }
    }
}

/// Adding an attribute that is logically equal to itself a second time
/// changes nothing.
pub proof fn lemma_add_idempotent<A: LogicalEq>(attributes: Seq<A>, attribute: A)
    requires
        attribute.logically_eq(&attribute),
    ensures
        added(added(attributes, attribute), attribute) == added(attributes, attribute),
{
    let after = added(attributes, attribute);
    let p = placed_at(attributes, attribute);
    lemma_add_places_attribute(attributes, attribute);
    assert(matches_at(after, attribute, p));
    assert(has_match(after, attribute));
    lemma_placed_at_first_match(after, attribute);
    lemma_first_match_unique(after, attribute, p, placed_at(after, attribute));
    assert(added(after, attribute) =~= after);
}

/// Where logical equality is symmetric and transitive, adding an attribute to
/// a list with no two logically equal entries keeps it so: a builder holds one
/// entry per property.
pub proof fn lemma_add_keeps_distinct<A: LogicalEq>(attributes: Seq<A>, attribute: A)
    requires
        logically_distinct(attributes),
        forall|x: A, y: A| #[trigger] x.logically_eq(&y) ==> y.logically_eq(&x),
        forall|x: A, y: A, z: A|
            #[trigger] x.logically_eq(&y) && #[trigger] y.logically_eq(&z) ==> x.logically_eq(&z),
    ensures
        logically_distinct(added(attributes, attribute)),
{
    let after = added(attributes, attribute);
    let p = placed_at(attributes, attribute);
    lemma_add_places_attribute(attributes, attribute);
    if has_match(attributes, attribute) {
        lemma_placed_at_first_match(attributes, attribute);
    } else {
        assert forall|j: int| 0 <= j < attributes.len() implies !(
        #[trigger] attributes[j]).logically_eq(&attribute) by {
            assert(!matches_at(attributes, attribute, j));
        }
    }
    assert forall|i: int, j: int|
        0 <= i < after.len() && 0 <= j < after.len() && i != j implies !after[i].logically_eq(
        &after[j],
    ) by {
        if i == p {
            if after[i].logically_eq(&after[j]) {
                assert(after[j] == attributes[j]);
                assert(attributes[j].logically_eq(&attribute));
                if has_match(attributes, attribute) {
                    assert(attributes[p].logically_eq(&attribute));
                    assert(attribute.logically_eq(&attributes[p]));
                    assert(attributes[j].logically_eq(&attributes[p]));
                }
            }
        } else if j == p {
            if after[i].logically_eq(&after[j]) {
                assert(after[i] == attributes[i]);
                if has_match(attributes, attribute) {
                    assert(attributes[p].logically_eq(&attribute));
                    assert(attribute.logically_eq(&attributes[p]));
                    assert(attributes[i].logically_eq(&attributes[p]));
                }
            }
        } else {
            assert(after[i] == attributes[i]);
            assert(after[j] == attributes[j]);
        }
    }
}

} // verus!
