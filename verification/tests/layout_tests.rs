use brew_usage::layout::{constraint_len_calculator, lens_of_widths};
use brew_usage::package::{Package, PackageType, Timestamp};

fn lay_package(name: &str, kind: PackageType, path: Option<&str>) -> Package {
    match path {
        Some(p) => Package::new(
            name.to_string(),
            kind,
            Some(Timestamp::new(1_700_000_000, 5).expect("nanoseconds within a second")),
            Some(p.to_string()),
        ),
        None => Package::new(name.to_string(), kind, None, None),
    }
}

#[test]
fn an_empty_inventory_takes_the_default_lengths() {
    assert_eq!(constraint_len_calculator(&[]), (20, 10, 15, 20));
    assert_eq!(lens_of_widths(&Vec::new()), (20, 10, 15, 20));
}

#[test]
fn each_column_is_as_long_as_its_widest_text() {
    let items = vec![
        lay_package("wget", PackageType::Formula, Some("/opt/homebrew/Cellar/wget/1.24")),
        lay_package("ripgrep", PackageType::Cask, None),
    ];
    let time = "SystemTime { tv_sec: 1700000000, tv_nsec: 5 }".len() as u16;
    assert_eq!(constraint_len_calculator(&items), (7, 7, 30, time));
    let only_never = vec![lay_package("a", PackageType::Cask, None)];
    assert_eq!(constraint_len_calculator(&only_never), (1, 4, 0, 7));
}

#[test]
fn wide_characters_take_two_columns() {
    let items = vec![lay_package("日本語", PackageType::Formula, None)];
    assert_eq!(constraint_len_calculator(&items).0, 6);
    let items = vec![lay_package("e\u{301}", PackageType::Formula, None)];
    assert_eq!(constraint_len_calculator(&items).0, 1);
}

#[test]
fn the_largest_width_of_each_column_counts() {
    let rows = vec![(1, 9, 3, 0), (5, 2, 3, 0), (4, 8, 7, 0)];
    assert_eq!(lens_of_widths(&rows), (5, 9, 7, 0));
    assert_eq!(lens_of_widths(&vec![(0, 0, 0, 0)]), (0, 0, 0, 0));
}

#[test]
fn a_width_beyond_sixteen_bits_is_cut_to_them() {
    let rows = vec![(65_535, 65_536, 65_537, 131_075), (1, 2, 3, 4)];
    assert_eq!(lens_of_widths(&rows), (65_535, 0, 1, 3));
    assert_eq!(lens_of_widths(&vec![(usize::MAX, 0, 0, 0)]).0, 65_535);
}
