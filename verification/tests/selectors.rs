use ofws_core::selector::Selector;
use std::collections::HashMap;

#[test]
fn const_selector_returns_its_element() {
    assert_eq!(Selector::Const(99).get(128), 99);
}

#[test]
fn interpolate_pair_blends_across_the_byte_range() {
    let selector = Selector::new_interpolate_pair(100, 200);
    assert_eq!(selector.get(0), 100);
    assert_eq!(selector.get(128), 150);
    assert_eq!(selector.get(255), 200);
}

#[test]
fn interpolate_vector_blends_between_control_points() {
    let selector = Selector::new_interpolate_vector(vec![(100, 150), (150, 200), (200, 100)])
        .unwrap();
    assert_eq!(selector.get(125), 175);
    assert_eq!(selector.get(100), 150);
    assert_eq!(selector.get(150), 200);
    assert_eq!(selector.get(200), 100);
    assert_eq!(selector.get(175), 150);
}

#[test]
fn interpolate_vector_clamps_outside_the_key_range() {
    let selector = Selector::new_interpolate_vector(vec![(100, 150), (150, 200), (200, 100)])
        .unwrap();
    assert_eq!(selector.get(0), 150);
    assert_eq!(selector.get(99), 150);
    assert_eq!(selector.get(201), 100);
    assert_eq!(selector.get(255), 100);
}

fn error_of(result: Result<Selector<u8>, &'static str>) -> &'static str {
    match result {
        Ok(_) => panic!("expected the construction to fail"),
        Err(message) => message,
    }
}

#[test]
fn interpolate_vector_needs_at_least_two_points() {
    let result = Selector::new_interpolate_vector(vec![(0, 1)]);
    assert_eq!(error_of(result), "requires at least 2 points");
}

#[test]
fn interpolate_vector_needs_strictly_ascending_keys() {
    let result = Selector::new_interpolate_vector(vec![(10, 1), (10, 2)]);
    assert_eq!(error_of(result), "the keys must be strictly ascending");
    let result = Selector::new_interpolate_vector(vec![(10, 1), (5, 2)]);
    assert_eq!(error_of(result), "the keys must be strictly ascending");
}

#[test]
fn lookup_selector_returns_the_mapped_or_default_value() {
    let lookup: HashMap<u8, u8> = vec![(1u8, 25u8), (3, 100)].into_iter().collect();
    let selector = Selector::new_lookup(lookup, 1);
    assert_eq!(selector.get(0), 1);
    assert_eq!(selector.get(1), 25);
    assert_eq!(selector.get(2), 1);
    assert_eq!(selector.get(3), 100);
    assert_eq!(selector.get(4), 1);
}

#[test]
fn every_selector_variant_is_total_over_all_byte_inputs() {
    let lookup: HashMap<u8, u8> = vec![(1u8, 25u8), (3, 100)].into_iter().collect();
    let selectors: Vec<Selector<u8>> = vec![
        Selector::Const(99),
        Selector::new_interpolate_pair(100, 200),
        Selector::new_interpolate_vector(vec![(100, 150), (150, 200), (200, 100)]).unwrap(),
        Selector::new_lookup(lookup, 1),
    ];
    for selector in &selectors {
        for input in 0u16..=255 {
            selector.get(input as u8);
        }
    }
}
