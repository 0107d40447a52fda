use brew_usage::inventory::{is_later, sort_by_usage};
use brew_usage::package::{Package, PackageType, Timestamp};

fn inv_used(name: &str, secs: i64, nanos: u32) -> Package {
    Package::new(
        name.to_string(),
        PackageType::Formula,
        Some(Timestamp::new(secs, nanos).expect("nanoseconds within a second")),
        Some(format!("/cellar/{}", name)),
    )
}

fn inv_never(name: &str) -> Package {
    Package::new(name.to_string(), PackageType::Cask, None, None)
}

fn inv_names(items: &[Package]) -> Vec<String> {
    items.iter().map(|p| p.name().to_string()).collect()
}

#[test]
fn later_means_used_at_a_later_time() {
    assert!(is_later(&inv_used("a", 2, 0), &inv_used("b", 1, 0)));
    assert!(!is_later(&inv_used("a", 1, 0), &inv_used("b", 1, 0)));
    assert!(!is_later(&inv_used("a", 1, 0), &inv_used("b", 2, 0)));
    assert!(is_later(&inv_used("a", 1, 0), &inv_never("b")));
    assert!(!is_later(&inv_never("a"), &inv_used("b", 1, 0)));
    assert!(!is_later(&inv_never("a"), &inv_never("b")));
}

#[test]
fn sorting_puts_never_used_first_and_oldest_next() {
    let mut items = vec![
        inv_used("t2", 200, 0),
        inv_never("none"),
        inv_used("t1", 100, 0),
    ];
    sort_by_usage(&mut items);
    assert_eq!(inv_names(&items), vec!["none", "t1", "t2"]);
}

#[test]
fn sorting_keeps_the_order_of_the_never_used() {
    let mut items = vec![
        inv_never("n1"),
        inv_used("u", 5, 0),
        inv_never("n2"),
        inv_never("n3"),
    ];
    sort_by_usage(&mut items);
    assert_eq!(inv_names(&items), vec!["n1", "n2", "n3", "u"]);
}

#[test]
fn sorting_keeps_the_order_of_packages_used_at_the_same_time() {
    let mut items = vec![
        inv_used("c", 9, 1),
        inv_used("first", 7, 0),
        inv_used("a", 3, 0),
        inv_used("second", 7, 0),
        inv_used("third", 7, 0),
    ];
    sort_by_usage(&mut items);
    assert_eq!(inv_names(&items), vec!["a", "first", "second", "third", "c"]);
}

#[test]
fn sorting_tells_nanoseconds_apart() {
    let mut items = vec![inv_used("b", 7, 2), inv_used("a", 7, 1)];
    sort_by_usage(&mut items);
    assert_eq!(inv_names(&items), vec!["a", "b"]);
}

#[test]
fn sorting_a_sorted_inventory_changes_nothing() {
    let mut items = vec![
        inv_used("d", 4, 0),
        inv_never("x"),
        inv_used("b", 2, 0),
        inv_never("y"),
        inv_used("c", 2, 0),
    ];
    sort_by_usage(&mut items);
    let once = inv_names(&items);
    assert_eq!(once, vec!["x", "y", "b", "c", "d"]);
    sort_by_usage(&mut items);
    assert_eq!(inv_names(&items), once);
}

#[test]
fn no_never_used_package_follows_a_used_one() {
    let mut items = vec![
        inv_used("a", 50, 0),
        inv_never("b"),
        inv_used("c", -3, 0),
        inv_never("d"),
        inv_used("e", 0, 0),
    ];
    sort_by_usage(&mut items);
    for pair in items.windows(2) {
        assert!(!(pair[0].has_been_accessed() && !pair[1].has_been_accessed()));
        assert!(!is_later(&pair[0], &pair[1]));
    }
    assert_eq!(inv_names(&items), vec!["b", "d", "c", "e", "a"]);
}

#[test]
fn sorting_the_empty_and_the_single_inventory() {
    let mut none: Vec<Package> = Vec::new();
    sort_by_usage(&mut none);
    assert!(none.is_empty());
    let mut one = vec![inv_used("a", 1, 0)];
    sort_by_usage(&mut one);
    assert_eq!(inv_names(&one), vec!["a"]);
}

#[test]
fn sorting_a_reversed_inventory() {
    let mut items: Vec<Package> = (0..50).rev().map(|i| inv_used(&format!("p{}", i), i, 0)).collect();
    sort_by_usage(&mut items);
    let expected: Vec<String> = (0..50).map(|i| format!("p{}", i)).collect();
    assert_eq!(inv_names(&items), expected);
}
