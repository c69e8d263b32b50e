use std::collections::HashMap;

use poclib::sum::sum_values;

fn entries(pairs: &[(&str, i32)]) -> Vec<(String, i32)> {
    pairs.iter().map(|(k, v)| (k.to_string(), *v)).collect()
}

#[test]
fn empty_mapping_sums_to_zero() {
    assert_eq!(sum_values(&Vec::new()), Ok(0));
}

#[test]
fn two_entries_sum() {
    assert_eq!(sum_values(&entries(&[("a", 1), ("b", 2)])), Ok(3));
}

#[test]
fn sum_of_a_hash_map() {
    let mut m: HashMap<String, i32> = HashMap::new();
    m.insert("hoge".to_string(), 42);
    m.insert("fuga".to_string(), 24);
    let listed: Vec<(String, i32)> = m.into_iter().collect();
    assert_eq!(sum_values(&listed), Ok(66));
}

#[test]
fn order_does_not_matter() {
    let a = entries(&[("a", 1), ("b", -7), ("c", 30), ("d", 2)]);
    let b = entries(&[("d", 2), ("b", -7), ("a", 1), ("c", 30)]);
    let c = entries(&[("c", 30), ("d", 2), ("a", 1), ("b", -7)]);
    assert_eq!(sum_values(&a), Ok(26));
    assert_eq!(sum_values(&b), Ok(26));
    assert_eq!(sum_values(&c), Ok(26));
}

#[test]
fn insertion_order_does_not_matter() {
    let mut m: HashMap<String, i32> = HashMap::new();
    m.insert("a".to_string(), 1);
    m.insert("b".to_string(), 2);
    let mut n: HashMap<String, i32> = HashMap::new();
    n.insert("b".to_string(), 2);
    n.insert("a".to_string(), 1);
    let x: Vec<(String, i32)> = m.into_iter().collect();
    let y: Vec<(String, i32)> = n.into_iter().collect();
    assert_eq!(sum_values(&x), Ok(3));
    assert_eq!(sum_values(&y), Ok(3));
}

#[test]
fn negative_values_sum() {
    assert_eq!(sum_values(&entries(&[("x", -5), ("y", -6)])), Ok(-11));
}

#[test]
fn single_entry_is_its_value() {
    assert_eq!(sum_values(&entries(&[("only", i32::MIN)])), Ok(i32::MIN));
    assert_eq!(sum_values(&entries(&[("only", i32::MAX)])), Ok(i32::MAX));
}

#[test]
fn total_beyond_the_range_wraps() {
    assert_eq!(sum_values(&entries(&[("a", i32::MAX), ("b", 1)])), Ok(i32::MIN));
    assert_eq!(sum_values(&entries(&[("a", i32::MIN), ("b", -1)])), Ok(i32::MAX));
}

#[test]
fn partial_overflow_does_not_disturb_a_total_in_range() {
    assert_eq!(
        sum_values(&entries(&[("a", i32::MAX), ("b", 1), ("c", -1)])),
        Ok(i32::MAX)
    );
    assert_eq!(
        sum_values(&entries(&[("c", -1), ("a", i32::MAX), ("b", 1)])),
        Ok(i32::MAX)
    );
}

#[test]
fn summing_is_repeatable() {
    let a = entries(&[("a", 11), ("b", 22)]);
    assert_eq!(sum_values(&a), sum_values(&a));
}
