use string_compare::calculate_all;
use string_compare::Distance;
use string_compare::Method;
use string_compare::NamedDistance;
use string_compare::Score;

fn assert_close(a: f64, b: f64) {
    assert!(a.is_nan() == b.is_nan());
    if !a.is_nan() {
        assert!((a - b).abs() < 1e-9, "{a} differs from {b}");
    }
}

fn score_as_f64(s: &Score) -> f64 {
    match s {
        Score::Native(bits) => f64::from_bits(*bits),
        Score::Scaled(num, den) => *num as f64 / *den as f64,
    }
}

fn raw_count(m: Method, s1: &str, s2: &str) -> usize {
    match m.calculate(s1, s2) {
        Distance::Unnormalized(x) => x,
        Distance::Normalized(_) => panic!("expected an unnormalized outcome"),
    }
}

fn native_value(m: Method, s1: &str, s2: &str) -> f64 {
    match m.calculate(s1, s2) {
        Distance::Normalized(bits) => f64::from_bits(bits),
        Distance::Unnormalized(_) => panic!("expected a normalized outcome"),
    }
}

#[test]
fn empty_inputs_never_crash_any_metric() {
    let results = calculate_all("", "");
    assert_eq!(results.len(), 22);
    for m in Method::all() {
        let _ = m.calculate("", "");
    }
}

#[test]
fn identical_strings_give_each_metric_its_identical_value() {
    // Distance-style integer metrics: zero.
    for m in [
        Method::DamerauLevenshtein,
        Method::Hamming,
        Method::Levenshtein,
        Method::Sift4Common,
        Method::Sift4Simple,
        Method::Bag,
        Method::Length,
    ] {
        assert_eq!(raw_count(m, "abc", "abc"), 0);
    }
    // Length-style integer metrics: the full length.
    for m in [
        Method::SmithWaterman,
        Method::LCSSeq,
        Method::LCSStr,
        Method::Prefix,
        Method::Suffix,
    ] {
        assert_eq!(raw_count(m, "abc", "abc"), 3);
    }
    // Real-valued similarities: exactly one.
    for m in [
        Method::Jaro,
        Method::JaroWinkler,
        Method::Cosine,
        Method::Jaccard,
        Method::Overlap,
        Method::Roberts,
        Method::SorensenDice,
        Method::Tversky,
        Method::RatcliffObershelp,
    ] {
        assert_eq!(native_value(m, "abc", "abc"), 1.0);
    }
    // The one real-valued distance: zero.
    assert!(native_value(Method::EntropyNCD, "abc", "abc").abs() < 1e-12);
}

#[test]
fn symmetric_metrics_ignore_argument_order() {
    let pairs = [("kitten", "sitting"), ("night", "nacht"), ("", "abc"), ("abcd", "badc")];
    for m in [
        Method::Hamming,
        Method::Levenshtein,
        Method::Bag,
        Method::LCSSeq,
        Method::LCSStr,
        Method::Prefix,
        Method::Suffix,
        Method::Length,
        Method::Jaccard,
        Method::SorensenDice,
        Method::Cosine,
        Method::Jaro,
    ] {
        for (s1, s2) in pairs {
            assert_eq!(m.calculate(s1, s2), m.calculate(s2, s1));
        }
    }
}

#[test]
fn normalizing_a_normalized_outcome_is_a_no_op() {
    let d = Distance::Normalized(0.25f64.to_bits());
    assert_eq!(d.normalize(0), Score::Native(0.25f64.to_bits()));
    assert_eq!(d.normalize(7), Score::Native(0.25f64.to_bits()));
    assert_eq!(d.normalize(usize::MAX), d.as_score());
}

#[test]
fn zero_scale_normalization_is_zero_not_a_crash() {
    let d = Distance::Unnormalized(5);
    assert_eq!(d.normalize(0), Score::Scaled(0, 1));
    assert_eq!(score_as_f64(&d.normalize(0)), 0.0);
    // The zero-scale case arises when the reference string is empty.
    let results = calculate_all("abc", "");
    for r in &results {
        if let Score::Scaled(num, den) = r.distance {
            assert_eq!((num, den), (0, 1));
        }
    }
}

#[test]
fn kitten_sitting_levenshtein_is_three() {
    assert_eq!(raw_count(Method::Levenshtein, "kitten", "sitting"), 3);
    let results = calculate_all("kitten", "sitting");
    let lev: &NamedDistance = results.iter().find(|r| r.name == "Levenshtein").unwrap();
    assert_eq!(lev.distance, Score::Scaled(3, 7));
    assert!((score_as_f64(&lev.distance) - 0.4286).abs() < 1e-3);
}

#[test]
fn empty_against_abc_naive_metrics() {
    assert_eq!(raw_count(Method::Prefix, "", "abc"), 0);
    assert_eq!(raw_count(Method::Suffix, "", "abc"), 0);
    assert_eq!(raw_count(Method::Length, "", "abc"), 3);
}

#[test]
fn night_nacht_hamming_is_two() {
    assert_eq!(raw_count(Method::Hamming, "night", "nacht"), 2);
}

#[test]
fn naive_metrics_on_mixed_inputs() {
    assert_eq!(raw_count(Method::Prefix, "apple pie", "apple cake"), 6);
    assert_eq!(raw_count(Method::Suffix, "abcd", "axcd"), 2);
    assert_eq!(raw_count(Method::Length, "abcd", "ab"), 2);
    assert_eq!(raw_count(Method::Prefix, "abc", "abc"), 3);
}

#[test]
fn library_agrees_with_the_algorithm_crate() {
    let pairs = [("kitten", "sitting"), ("night", "nacht"), ("", "abc"), ("abc", ""), ("", "")];
    for (s1, s2) in pairs {
        assert_eq!(raw_count(Method::DamerauLevenshtein, s1, s2), textdistance::str::damerau_levenshtein(s1, s2));
        assert_eq!(raw_count(Method::Hamming, s1, s2), textdistance::str::hamming(s1, s2));
        assert_eq!(raw_count(Method::Levenshtein, s1, s2), textdistance::str::levenshtein(s1, s2));
        assert_eq!(raw_count(Method::Sift4Common, s1, s2), textdistance::str::sift4_common(s1, s2));
        assert_eq!(raw_count(Method::Sift4Simple, s1, s2), textdistance::str::sift4_simple(s1, s2));
        assert_eq!(raw_count(Method::SmithWaterman, s1, s2), textdistance::str::smith_waterman(s1, s2));
        assert_eq!(raw_count(Method::Bag, s1, s2), textdistance::str::bag(s1, s2));
        assert_eq!(raw_count(Method::LCSSeq, s1, s2), textdistance::str::lcsseq(s1, s2));
        assert_eq!(raw_count(Method::LCSStr, s1, s2), textdistance::str::lcsstr(s1, s2));
        assert_eq!(raw_count(Method::Prefix, s1, s2), textdistance::str::prefix(s1, s2));
        assert_eq!(raw_count(Method::Suffix, s1, s2), textdistance::str::suffix(s1, s2));
        assert_eq!(raw_count(Method::Length, s1, s2), textdistance::str::length(s1, s2));
        assert_eq!(native_value(Method::Jaro, s1, s2).to_bits(), textdistance::str::jaro(s1, s2).to_bits());
        assert_eq!(native_value(Method::JaroWinkler, s1, s2).to_bits(), textdistance::str::jaro_winkler(s1, s2).to_bits());
        assert_eq!(native_value(Method::Cosine, s1, s2).to_bits(), textdistance::str::cosine(s1, s2).to_bits());
        // Entropy NCD and Roberts accumulate floats over hash iteration
        // order, so two calls may differ in the last bits: compare loosely.
        assert_close(native_value(Method::EntropyNCD, s1, s2), textdistance::str::entropy_ncd(s1, s2));
        assert_eq!(native_value(Method::Jaccard, s1, s2).to_bits(), textdistance::str::jaccard(s1, s2).to_bits());
        assert_eq!(native_value(Method::Overlap, s1, s2).to_bits(), textdistance::str::overlap(s1, s2).to_bits());
        assert_close(native_value(Method::Roberts, s1, s2), textdistance::str::roberts(s1, s2));
        assert_eq!(native_value(Method::SorensenDice, s1, s2).to_bits(), textdistance::str::sorensen_dice(s1, s2).to_bits());
        assert_eq!(native_value(Method::Tversky, s1, s2).to_bits(), textdistance::str::tversky(s1, s2).to_bits());
        assert_eq!(
            native_value(Method::RatcliffObershelp, s1, s2).to_bits(),
            textdistance::str::ratcliff_obershelp(s1, s2).to_bits()
        );
    }
}

#[test]
fn counts_convert_into_unnormalized_distances() {
    assert_eq!(Distance::from(4usize), Distance::Unnormalized(4));
    assert_eq!(Distance::from(0usize), Distance::Unnormalized(0));
}

#[test]
fn raw_and_normalized_scores_are_consistent() {
    let m = Method::Levenshtein;
    let raw = m.calculate("kitten", "sitting").as_score();
    let normalized = m.calculate("kitten", "sitting").normalize(7);
    assert_eq!(raw, Score::Scaled(3, 1));
    assert_eq!(normalized, Score::Scaled(3, 7));
}
