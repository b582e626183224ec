use k_releaser::project::{release_order, str_lt};

fn names(v: &[&str]) -> Vec<String> {
    v.iter().map(|s| s.to_string()).collect()
}

#[test]
fn dependencies_come_first() {
    // c depends on a, a depends on b
    let n = names(&["c", "a", "b"]);
    let deps = vec![vec![1], vec![2], vec![]];
    assert_eq!(release_order(&n, &deps).unwrap(), vec![2, 1, 0]);
}

#[test]
fn ties_are_broken_by_name() {
    let n = names(&["zeta", "alpha", "mid"]);
    let deps = vec![vec![], vec![], vec![]];
    assert_eq!(release_order(&n, &deps).unwrap(), vec![1, 2, 0]);
    // core is needed by both; after it, names decide
    let n = names(&["web", "core", "api"]);
    let deps = vec![vec![1], vec![], vec![1]];
    assert_eq!(release_order(&n, &deps).unwrap(), vec![1, 2, 0]);
}

#[test]
fn cycles_are_reported() {
    let n = names(&["a", "b", "c"]);
    let deps = vec![vec![1], vec![0], vec![]];
    let err = release_order(&n, &deps).unwrap_err();
    assert_eq!(err.remaining, vec![0, 1]);
    let selfdep = release_order(&names(&["x"]), &[vec![0]]);
    assert!(selfdep.is_err());
}

#[test]
fn empty_workspace_has_empty_order() {
    assert_eq!(release_order(&[], &[]).unwrap(), Vec::<usize>::new());
}

#[test]
fn names_compare_by_code_point() {
    assert!(str_lt("a", "b"));
    assert!(str_lt("ab", "abc"));
    assert!(!str_lt("abc", "ab"));
    assert!(!str_lt("same", "same"));
    assert!(str_lt("B", "a"));
}

use k_releaser::project::{is_publishable, publishable_packages};

#[test]
fn publishable_packages_keep_the_release_order() {
    assert!(is_publishable(None));
    assert!(!is_publishable(Some(&vec![])));
    assert!(is_publishable(Some(&vec!["crates-io".to_string()])));
    assert_eq!(publishable_packages(&[2, 0, 1], &[true, false, true]), vec![2, 0]);
}
