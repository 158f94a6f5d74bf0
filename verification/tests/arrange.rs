use vrc_log_renamer::arrange::{arrange, comes_first, find_place, sort_packages};
use vrc_log_renamer::license::PackageLicenseInfo;

fn package(id: &str) -> PackageLicenseInfo {
    PackageLicenseInfo {
        id: id.to_string(),
        name: format!("name of {}", id),
        repository: String::new(),
        license_id: String::new(),
        license_files: vec![],
    }
}

fn ids(packages: &[PackageLicenseInfo]) -> Vec<&str> {
    packages.iter().map(|p| p.id.as_str()).collect()
}

fn chars(text: &str) -> Vec<char> {
    text.chars().collect()
}

#[test]
fn texts_are_ordered_as_strings_are() {
    let samples = ["", "a", "ab", "b", "B", "aa", "é", "日本", "z", "a b", "ab 1.0", "ab 1.0.1", "😀"];
    for a in samples {
        for b in samples {
            assert_eq!(comes_first(&chars(a), &chars(b)), a <= b, "{:?} {:?}", a, b);
        }
    }
}

#[test]
fn packages_are_sorted_by_their_identifiers() {
    let packages = vec![package("c 1"), package("a 2"), package("b"), package("a 10"), package("a")];
    let sorted = sort_packages(packages);
    assert_eq!(ids(&sorted), vec!["a", "a 10", "a 2", "b", "c 1"]);
    assert!(sort_packages(vec![]).is_empty());
}

#[test]
fn packages_with_one_identifier_keep_their_order() {
    let mut first = package("x");
    first.name = "first".to_string();
    let mut second = package("x");
    second.name = "second".to_string();
    let sorted = sort_packages(vec![package("y"), first, package("a"), second]);
    let names: Vec<&str> = sorted.iter().map(|p| p.name.as_str()).collect();
    assert_eq!(names, vec!["name of a", "first", "second", "name of y"]);
}

#[test]
fn a_package_goes_behind_those_that_do_not_come_after_it() {
    let sorted = vec![package("a"), package("c"), package("c"), package("e")];
    assert_eq!(find_place(&sorted, ""), 0);
    assert_eq!(find_place(&sorted, "a"), 1);
    assert_eq!(find_place(&sorted, "b"), 1);
    assert_eq!(find_place(&sorted, "c"), 3);
    assert_eq!(find_place(&sorted, "z"), 4);
}

#[test]
fn the_root_is_taken_out_and_the_rest_is_sorted() {
    let packages = vec![package("d"), package("root"), package("b"), package("c")];
    let (root, others) = arrange(packages, "root").unwrap();
    assert_eq!(root.id, "root");
    assert_eq!(ids(&others), vec!["b", "c", "d"]);
    let packages = vec![package("d"), package("b")];
    assert_eq!(arrange(packages, "root"), None);
    let (root, others) = arrange(vec![package("only")], "only").unwrap();
    assert_eq!((root.id.as_str(), others.len()), ("only", 0));
}
