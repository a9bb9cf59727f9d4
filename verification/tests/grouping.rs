use test_optimization::grouping::contains_name;
use test_optimization::grouping::distinct_names;
use test_optimization::grouping::distinct_outer_names;
use test_optimization::grouping::fold_last_wins;
use test_optimization::grouping::group;
use test_optimization::grouping::members_under;
use test_optimization::grouping::names_under_name;
use test_optimization::grouping::Duplicate;
use test_optimization::grouping::Entry;
use test_optimization::grouping::Group;

fn names(list: &[&str]) -> Vec<String> {
    list.iter().map(|name| name.to_string()).collect()
}

fn entries(list: &[(&str, &str, u64)]) -> Vec<Entry<u64>> {
    list.iter()
        .map(|(outer, inner, item)| Entry {
            outer: outer.to_string(),
            inner: inner.to_string(),
            item: *item,
        })
        .collect()
}

fn pairs<V: Clone>(list: &[(&str, V)]) -> Vec<(String, V)> {
    list.iter().map(|(name, value)| (name.to_string(), value.clone())).collect()
}

#[test]
fn duplicate_is_equal_to_what_it_copies() {
    assert_eq!("name".to_string().duplicate(), "name");
    assert_eq!(7u64.duplicate(), 7);
}

#[test]
fn a_name_is_found_where_it_occurs() {
    let all = names(&["a", "b", ""]);
    assert!(contains_name(&all, &"b".to_string()));
    assert!(contains_name(&all, &"".to_string()));
    assert!(!contains_name(&all, &"c".to_string()));
    assert!(!contains_name(&names(&[]), &"a".to_string()));
}

#[test]
fn distinct_names_keep_their_first_place() {
    assert_eq!(distinct_names(&names(&["b", "a", "b", "c", "a"])), names(&["b", "a", "c"]));
    assert_eq!(distinct_names(&names(&[])), names(&[]));
    assert_eq!(distinct_names(&names(&["x", "x", "x"])), names(&["x"]));
}

#[test]
fn outer_names_keep_their_first_place() {
    let all = entries(&[("m2", "s", 1), ("m1", "s", 2), ("m2", "t", 3), ("m3", "s", 4)]);
    assert_eq!(distinct_outer_names(&all), names(&["m2", "m1", "m3"]));
    assert_eq!(distinct_outer_names(&entries(&[])), names(&[]));
}

#[test]
fn inner_names_are_those_of_one_outer_name() {
    let all = entries(&[
        ("m1", "s2", 0),
        ("m2", "s1", 0),
        ("m1", "s1", 0),
        ("m1", "s2", 0),
        ("m2", "s1", 0),
    ]);
    assert_eq!(names_under_name(&all, &"m1".to_string()), names(&["s2", "s1"]));
    assert_eq!(names_under_name(&all, &"m2".to_string()), names(&["s1"]));
    assert_eq!(names_under_name(&all, &"m3".to_string()), names(&[]));
}

#[test]
fn members_are_the_items_under_both_names_in_order() {
    let all = entries(&[("m1", "s1", 10), ("m2", "s1", 20), ("m1", "s2", 30), ("m1", "s1", 40)]);
    let m1 = "m1".to_string();
    let s1 = "s1".to_string();
    let s2 = "s2".to_string();
    assert_eq!(members_under(&all, &m1, &s1), vec![10, 40]);
    assert_eq!(members_under(&all, &m1, &s2), vec![30]);
    assert_eq!(members_under(&all, &s1, &m1), Vec::<u64>::new());
}

#[test]
fn grouping_keeps_first_occurrences_first() {
    let all = entries(&[
        ("m2", "s1", 1),
        ("m1", "s9", 2),
        ("m2", "s0", 3),
        ("m1", "s9", 4),
        ("m2", "s1", 5),
    ]);
    assert_eq!(
        group(&all),
        vec![
            Group {
                name: "m2".to_string(),
                members: vec![
                    Group { name: "s1".to_string(), members: vec![1, 5] },
                    Group { name: "s0".to_string(), members: vec![3] },
                ],
            },
            Group {
                name: "m1".to_string(),
                members: vec![Group { name: "s9".to_string(), members: vec![2, 4] }],
            },
        ]
    );
}

#[test]
fn grouping_of_nothing_is_empty() {
    assert_eq!(group(&entries(&[])), vec![]);
}

#[test]
fn every_item_lands_in_exactly_one_group() {
    let all = entries(&[
        ("a", "x", 0),
        ("b", "x", 1),
        ("a", "y", 2),
        ("c", "x", 3),
        ("b", "x", 4),
        ("a", "x", 5),
    ]);
    let groups = group(&all);
    let mut seen: Vec<u64> = vec![];
    for outer_group in &groups {
        assert!(!outer_group.members.is_empty());
        for inner_group in &outer_group.members {
            assert!(!inner_group.members.is_empty());
            for item in &inner_group.members {
                assert_eq!(all[*item as usize].outer, outer_group.name);
                assert_eq!(all[*item as usize].inner, inner_group.name);
                seen.push(*item);
            }
        }
    }
    seen.sort();
    assert_eq!(seen, vec![0, 1, 2, 3, 4, 5]);
}

#[test]
fn the_last_write_wins() {
    let written = pairs(&[
        ("k1", "a".to_string()),
        ("k2", "b".to_string()),
        ("k1", "c".to_string()),
        ("k3", "d".to_string()),
        ("k1", "e".to_string()),
    ]);
    assert_eq!(
        fold_last_wins(&written),
        pairs(&[("k1", "e".to_string()), ("k2", "b".to_string()), ("k3", "d".to_string())])
    );
}

#[test]
fn one_more_write_replaces_the_value_of_its_key_alone() {
    let mut written = pairs(&[("k1", 1u64), ("k2", 2)]);
    assert_eq!(fold_last_wins(&written), pairs(&[("k1", 1u64), ("k2", 2)]));
    written.push(("k1".to_string(), 3));
    assert_eq!(fold_last_wins(&written), pairs(&[("k1", 3u64), ("k2", 2)]));
}

#[test]
fn folding_nothing_gives_nothing() {
    let written: Vec<(String, u64)> = vec![];
    assert_eq!(fold_last_wins(&written), vec![]);
}
