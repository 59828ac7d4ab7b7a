use yeet::version::{parse_u64, trim_version_tag, version_gt, version_parts};

fn chars(s: &str) -> Vec<char> {
    s.chars().collect()
}

#[test]
fn newer_versions_compare_part_by_part() {
    assert!(version_gt("1.2.0", "1.1.9"));
    assert!(version_gt("1.10.0", "1.9.0"));
    assert!(version_gt("2", "1.99.99"));
    assert!(!version_gt("1.1.9", "1.2.0"));
    assert!(version_gt("1.0.1", "1.0"));
}

#[test]
fn missing_parts_count_as_zero() {
    assert!(!version_gt("1.0", "1"));
    assert!(!version_gt("1", "1.0.0"));
    assert!(!version_gt("", "0.0.0"));
}

#[test]
fn version_order_is_irreflexive_and_asymmetric() {
    for v in ["0.0.0", "1.2.3", "10", "1.x.2"] {
        assert!(!version_gt(v, v));
    }
    assert!(version_gt("3.0", "2.5"));
    assert!(!version_gt("2.5", "3.0"));
}

#[test]
fn version_order_is_transitive_on_examples() {
    assert!(version_gt("1.3", "1.2.5"));
    assert!(version_gt("1.2.5", "1.2"));
    assert!(version_gt("1.3", "1.2"));
}

#[test]
fn unparsable_parts_are_dropped() {
    assert_eq!(version_parts("1.beta.3"), vec![1, 3]);
    assert_eq!(version_parts("1..2"), vec![1, 2]);
    assert_eq!(version_parts(""), Vec::<u64>::new());
    assert!(version_gt("1.beta.3", "1.2"));
}

#[test]
fn numbers_parse_as_u64_from_str() {
    assert_eq!(parse_u64(&chars("42")), Some(42));
    assert_eq!(parse_u64(&chars("+7")), Some(7));
    assert_eq!(parse_u64(&chars("007")), Some(7));
    assert_eq!(parse_u64(&chars("")), None);
    assert_eq!(parse_u64(&chars("+")), None);
    assert_eq!(parse_u64(&chars("-1")), None);
    assert_eq!(parse_u64(&chars("1a")), None);
    assert_eq!(parse_u64(&chars("18446744073709551615")), Some(u64::MAX));
    assert_eq!(parse_u64(&chars("18446744073709551616")), None);
    for s in ["0", "+12", "99999999999999999999", "x", " 1"] {
        assert_eq!(parse_u64(&chars(s)), s.parse::<u64>().ok());
    }
}

#[test]
fn release_tags_lose_leading_vs() {
    assert_eq!(trim_version_tag("v1.2.3"), "1.2.3");
    assert_eq!(trim_version_tag("vv2"), "2");
    assert_eq!(trim_version_tag("1.0v"), "1.0v");
    assert_eq!(trim_version_tag(""), "");
}

#[test]
fn trailing_zero_component_never_matters() {
    assert!(version_gt("1.2.0", "1.1"));
    assert!(version_gt("1.2", "1.1.0"));
    assert!(!version_gt("1.1.0", "1.1"));
    assert!(!version_gt("1.1", "1.1.0"));
    assert!(!version_gt("1.1.0", "1.2"));
    assert!(version_gt("2.0.0", "1.9.9"));
}
