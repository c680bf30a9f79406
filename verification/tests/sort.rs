use nullscan::sort::stable_sort;

#[test]
fn sorting_is_stable() {
    let items = vec![(3, 0), (1, 1), (3, 2), (2, 3), (1, 4), (3, 5)];
    assert_eq!(stable_sort(items), vec![(1, 1), (1, 4), (2, 3), (3, 0), (3, 2), (3, 5)]);
    assert_eq!(stable_sort(Vec::<(u64, u64)>::new()), vec![]);
    assert_eq!(stable_sort(vec![(9, 9)]), vec![(9, 9)]);
    assert_eq!(stable_sort(vec![(2, 0), (1, 1)]), vec![(1, 1), (2, 0)]);
}

#[test]
fn sorting_agrees_with_the_standard_sort() {
    let mut seed: u64 = 12345;
    for len in [0usize, 1, 2, 3, 7, 64, 1000, 4097] {
        let mut items: Vec<(u64, u64)> = Vec::new();
        for i in 0..len {
            seed = seed.wrapping_mul(6364136223846793005).wrapping_add(1442695040888963407);
            items.push(((seed >> 33) % 50, i as u64));
        }
        let mut expected = items.clone();
        expected.sort_by_key(|t| t.0);
        assert_eq!(stable_sort(items), expected);
    }
}
