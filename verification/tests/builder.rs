use ui_style::builder::{LogicalEq, StyleBuilder};

#[derive(Clone, Copy, Debug, PartialEq)]
struct Attr {
    kind: u8,
    value: u32,
}

impl LogicalEq for Attr {
    fn logically_eq(&self, other: &Attr) -> bool {
        self.kind == other.kind
    }

    fn logical_eq(&self, other: &Attr) -> bool {
        self.kind == other.kind
    }
}

fn attr(kind: u8, value: u32) -> Attr {
    Attr { kind, value }
}

#[test]
fn add_appends_new_properties_in_order() {
    let mut builder = StyleBuilder::new();
    builder.add(attr(1, 10));
    builder.add(attr(2, 20));
    builder.add(attr(3, 30));
    assert_eq!(builder.into_attributes(), vec![attr(1, 10), attr(2, 20), attr(3, 30)]);
}

#[test]
fn add_overwrites_logically_equal_attribute_in_place() {
    let mut builder = StyleBuilder::new();
    builder.add(attr(1, 10));
    builder.add(attr(2, 20));
    builder.add(attr(1, 11));
    assert_eq!(builder.into_attributes(), vec![attr(1, 11), attr(2, 20)]);
}

#[test]
fn add_twice_is_add_once() {
    let mut once = StyleBuilder::new();
    once.add(attr(4, 1));
    once.add(attr(5, 2));
    let mut twice = StyleBuilder::new();
    twice.add(attr(4, 1));
    twice.add(attr(5, 2));
    twice.add(attr(5, 2));
    assert_eq!(once.into_attributes(), twice.into_attributes());
}

#[test]
fn position_finds_first_logical_match() {
    let mut builder = StyleBuilder::new();
    builder.add(attr(7, 1));
    builder.add(attr(8, 2));
    assert_eq!(builder.position(&attr(8, 99)), Some(1));
    assert_eq!(builder.position(&attr(7, 0)), Some(0));
    assert_eq!(builder.position(&attr(9, 0)), None);
}

#[test]
fn logical_ne_is_negation() {
    assert!(attr(1, 1).logical_ne(&attr(2, 1)));
    assert!(!attr(1, 1).logical_ne(&attr(1, 2)));
}

#[test]
fn builder_keeps_one_entry_per_property() {
    let mut builder = StyleBuilder::new();
    let adds = [(1, 1), (2, 2), (1, 3), (3, 4), (2, 5), (1, 6), (4, 7)];
    for (kind, value) in adds {
        builder.add(attr(kind, value));
    }
    let attributes = builder.into_attributes();
    assert_eq!(attributes, vec![attr(1, 6), attr(2, 5), attr(3, 4), attr(4, 7)]);
    for i in 0..attributes.len() {
        for j in 0..attributes.len() {
            if i != j {
                assert!(!attributes[i].logical_eq(&attributes[j]));
            }
        }
    }
}

#[test]
fn added_attribute_is_found_where_it_was_put() {
    let mut builder = StyleBuilder::new();
    builder.add(attr(1, 1));
    builder.add(attr(2, 2));
    builder.add(attr(2, 9));
    let index = builder.position(&attr(2, 9)).unwrap();
    assert_eq!(index, 1);
    assert_eq!(builder.into_attributes()[index], attr(2, 9));
}

#[test]
fn new_builder_is_empty() {
    let builder: StyleBuilder<Attr> = StyleBuilder::new();
    assert_eq!(builder.position(&attr(0, 0)), None);
    assert!(builder.into_attributes().is_empty());
}

#[test]
fn animated_add_and_locate_returns_the_entry() {
    let mut builder = StyleBuilder::new();
    builder.add(attr(1, 1));
    builder.add(attr(2, 2));
    {
        let mut animated = builder.animated();
        assert_eq!(animated.add_and_locate(attr(3, 3)), 2);
        assert_eq!(animated.add_and_locate(attr(1, 7)), 0);
    }
    assert_eq!(builder.into_attributes(), vec![attr(1, 7), attr(2, 2), attr(3, 3)]);
}

#[test]
fn interactive_view_adds_to_the_builder() {
    let mut builder = StyleBuilder::new();
    {
        let interactive = builder.interactive();
        interactive.style_builder.add(attr(5, 5));
    }
    assert_eq!(builder.into_attributes(), vec![attr(5, 5)]);
}
