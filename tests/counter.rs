use collectors::counter::Counter;

#[test]
fn new_counter_is_empty() {
    let counter: Counter<char> = Counter::new();
    assert_eq!(counter.len(), 0);
    assert_eq!(counter.iter().count(), 0);
}

#[test]
fn update_from_value_counts_one_more() {
    let mut counter: Counter<char> = Counter::new();
    counter.update_from_value('a');
    assert_eq!(counter.len(), 1);
    counter.update_from_value('a');
    counter.update_from_value('b');
    assert_eq!(counter.len(), 2);
    let pairs: Vec<(char, u128)> = counter.iter().map(|(k, v)| (*k, *v)).collect();
    assert_eq!(pairs, vec![('a', 2), ('b', 1)]);
}

#[test]
fn update_from_iter_counts_each_item() {
    let mut counter: Counter<char> = Counter::new();
    counter.update_from_iter("a string".chars());
    assert_eq!(counter.len(), 8);
    for (_, count) in counter.iter() {
        assert_eq!(*count, 1);
    }
}

#[test]
fn iteration_is_ordered_by_key() {
    let some_int_vec: Vec<u8> = vec![
        1, 2, 3, 4, 5, 2, 5, 2, 1, 5, 6, 3, 7, 8, 9, 7, 5, 4, 9, 8, 9, 6, 6, 6, 3, 1, 5, 4, 7, 5,
        5, 2, 4, 5, 6, 2, 3, 6, 8, 5,
    ];
    let mut counter: Counter<u8> = Counter::new();
    counter.update_from_iter(some_int_vec.into_iter());
    let pairs: Vec<(u8, u128)> = counter.iter().map(|(k, v)| (*k, *v)).collect();
    assert_eq!(
        pairs,
        vec![(1, 3), (2, 5), (3, 4), (4, 4), (5, 9), (6, 6), (7, 3), (8, 3), (9, 3)]
    );
    assert_eq!(counter.len(), 9);
}

#[test]
fn count_of_a_key_never_seen_is_zero() {
    let mut counter: Counter<char> = Counter::new();
    assert_eq!(counter.count(&'a'), 0);
    assert_eq!(counter['a'], 0);
    counter.update_from_value('a');
    assert_eq!(counter.count(&'a'), 1);
    assert_eq!(counter['a'], 1);
    assert_eq!(counter['z'], 0);
}

#[test]
fn counts_of_a_string() {
    let mut counter: Counter<char> = Counter::new();
    counter.update_from_iter("a string".chars());
    assert_eq!(counter['a'], 1);
    assert_eq!(counter[' '], 1);
    assert_eq!(counter['s'], 1);
    assert_eq!(counter['t'], 1);
    assert_eq!(counter['r'], 1);
    assert_eq!(counter['i'], 1);
    assert_eq!(counter['n'], 1);
    assert_eq!(counter['g'], 1);
    counter.update_from_iter("banana".chars());
    assert_eq!(counter.count(&'a'), 4);
    assert_eq!(counter.count(&'n'), 3);
    assert_eq!(counter.count(&'b'), 1);
    assert_eq!(counter.len(), 9);
}

#[test]
fn counts_of_references() {
    let values: Vec<u8> = vec![5, 5, 7];
    let mut counter: Counter<&u8> = Counter::new();
    counter.update_from_iter(values.iter());
    assert_eq!(counter[&5], 2);
    assert_eq!(counter[&7], 1);
    assert_eq!(counter[&9], 0);
}
