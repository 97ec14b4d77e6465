use string_compare::calculate_all;
use string_compare::calculate_normalized;
use string_compare::calculate_unnormalized;
use string_compare::Distance;
use string_compare::Method;
use string_compare::Score;

fn expected_names() -> Vec<&'static str> {
    vec![
        "Damerau Levenshtein",
        "Hamming",
        "Jaro",
        "Jaro Winkler",
        "Levenshtein",
        "Sift4 Common",
        "Sift4 Simple",
        "Smith Waterman",
        "Bag",
        "Cosine",
        "Entropy NCD",
        "Jaccard",
        "Overlap",
        "Roberts",
        "Sorensen Dice",
        "Tversky",
        "Common Subsequence",
        "Common Substring",
        "Ratcliff Obershelp",
        "Prefix",
        "Suffix",
        "Length",
    ]
}

#[test]
fn catalogue_has_every_metric_once_in_order() {
    let all = Method::all();
    assert_eq!(all.len(), 22);
    let names: Vec<&str> = all.iter().map(|m| m.name()).collect();
    assert_eq!(names, expected_names());
}

#[test]
fn calculate_all_returns_full_catalogue_in_order() {
    let results = calculate_all("kitten", "sitting");
    assert_eq!(results.len(), 22);
    for (r, expected) in results.iter().zip(expected_names()) {
        assert_eq!(r.name, expected);
    }
}

#[test]
fn filtered_views_partition_the_catalogue() {
    let unnorm = Method::unnormalized();
    let norm = Method::normalized();
    assert_eq!(unnorm.len(), 12);
    assert_eq!(norm.len(), 10);
    assert_eq!(unnorm.len() + norm.len(), Method::all().len());
    for m in &unnorm {
        assert!(!m.is_normalized());
    }
    for m in &norm {
        assert!(m.is_normalized());
    }
    // No metric appears in both views, and each catalogue entry is in one.
    for m in Method::all() {
        let in_unnorm = unnorm.iter().any(|x| x.description() == m.description());
        let in_norm = norm.iter().any(|x| x.description() == m.description());
        assert!(in_unnorm != in_norm);
    }
}

#[test]
fn filtered_views_keep_catalogue_order() {
    let all_names: Vec<&str> = Method::all().iter().map(|m| m.name()).collect();
    for view in [Method::unnormalized(), Method::normalized()] {
        let mut last_pos = 0;
        for m in &view {
            let pos = all_names.iter().position(|n| *n == m.name()).unwrap();
            assert!(pos >= last_pos);
            last_pos = pos;
        }
    }
}

#[test]
fn batch_entry_points_cover_their_views() {
    let unnorm = calculate_unnormalized("night", "nacht");
    let norm = calculate_normalized("night", "nacht");
    assert_eq!(unnorm.len(), 12);
    assert_eq!(norm.len(), 10);
    let unnorm_names: Vec<&str> = unnorm.iter().map(|r| r.name.as_str()).collect();
    assert_eq!(
        unnorm_names,
        vec![
            "Damerau Levenshtein",
            "Hamming",
            "Levenshtein",
            "Sift4 Common",
            "Sift4 Simple",
            "Smith Waterman",
            "Bag",
            "Common Subsequence",
            "Common Substring",
            "Prefix",
            "Suffix",
            "Length",
        ]
    );
    let norm_names: Vec<&str> = norm.iter().map(|r| r.name.as_str()).collect();
    assert_eq!(
        norm_names,
        vec![
            "Jaro",
            "Jaro Winkler",
            "Cosine",
            "Entropy NCD",
            "Jaccard",
            "Overlap",
            "Roberts",
            "Sorensen Dice",
            "Tversky",
            "Ratcliff Obershelp",
        ]
    );
    for r in &unnorm {
        assert!(matches!(r.distance, Score::Scaled(_, 1)));
    }
    for r in &norm {
        assert!(matches!(r.distance, Score::Native(_)));
    }
}

#[test]
fn stable_key_round_trips_for_every_metric() {
    for m in Method::all() {
        let found = Method::from_key(m.description());
        assert_eq!(found, Some(m));
    }
}

#[test]
fn unknown_key_is_rejected_not_a_crash() {
    assert_eq!(Method::from_key(""), None);
    assert_eq!(Method::from_key("no_such_metric"), None);
    assert_eq!(Method::from_key("Levenshtein"), None);
}

#[test]
fn outcome_class_always_matches_the_catalogue_flag() {
    for m in Method::all() {
        let d = m.calculate("night", "nacht");
        match d {
            Distance::Normalized(_) => assert!(m.is_normalized()),
            Distance::Unnormalized(_) => assert!(!m.is_normalized()),
        }
    }
}
