use layout_backend::geometry::{Layout, Num, Pattern, Wall};
use layout_backend::store::LayoutStore;

fn store_layout(tag: f64) -> Layout {
    Layout {
        walls: vec![Wall {
            points: vec![Num::from_bits(tag.to_bits()), Num::from_bits(0f64.to_bits())],
            stroke: format!("#{}", tag),
            stroke_width: Num::from_bits(1f64.to_bits()),
        }],
        patterns: vec![Pattern {
            x: Num::from_bits(tag.to_bits()),
            y: Num::from_bits(tag.to_bits()),
            width: Num::from_bits(4f64.to_bits()),
            height: Num::from_bits(3f64.to_bits()),
            fill: "#abc".to_string(),
        }],
    }
}

#[test]
fn new_store_is_empty() {
    let store = LayoutStore::new();
    assert_eq!(store.len(), 0);
    assert_eq!(store.latest(), None);
}

#[test]
fn default_store_is_empty() {
    let store = LayoutStore::default();
    assert_eq!(store.len(), 0);
    assert_eq!(store.latest(), None);
}

#[test]
fn latest_is_the_layout_appended() {
    let mut store = LayoutStore::new();
    store.append(store_layout(1.0));
    assert_eq!(store.len(), 1);
    assert_eq!(store.latest(), Some(store_layout(1.0)));
}

#[test]
fn latest_is_the_layout_appended_last() {
    let mut store = LayoutStore::new();
    store.append(store_layout(1.0));
    store.append(store_layout(2.0));
    store.append(store_layout(3.0));
    assert_eq!(store.latest(), Some(store_layout(3.0)));
    assert_ne!(store.latest(), Some(store_layout(1.0)));
}

#[test]
fn history_keeps_every_layout() {
    let mut store = LayoutStore::new();
    for i in 0..25 {
        store.append(store_layout(i as f64));
        assert_eq!(store.len(), i + 1);
    }
    assert_eq!(store.latest(), Some(store_layout(24.0)));
}

#[test]
fn latest_does_not_change_the_store() {
    let mut store = LayoutStore::new();
    store.append(store_layout(5.0));
    let first = store.latest();
    let second = store.latest();
    assert_eq!(first, second);
    assert_eq!(store.len(), 1);
}

#[test]
fn latest_hands_out_a_copy() {
    let mut store = LayoutStore::new();
    store.append(store_layout(5.0));
    let mut copy = store.latest().unwrap();
    copy.walls.clear();
    assert_eq!(store.latest(), Some(store_layout(5.0)));
}

#[test]
fn the_same_layout_can_be_appended_twice() {
    let mut store = LayoutStore::new();
    store.append(store_layout(5.0));
    store.append(store_layout(5.0));
    assert_eq!(store.len(), 2);
    assert_eq!(store.latest(), Some(store_layout(5.0)));
}
