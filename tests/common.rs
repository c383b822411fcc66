use pmppt::common::{parse_numeral, smallest_unused_number};

fn strings(v: &[&str]) -> Vec<String> {
    v.iter().map(|s| s.to_string()).collect()
}

#[test]
fn numerals() {
    assert_eq!(parse_numeral("0"), Some(0));
    assert_eq!(parse_numeral("0042"), Some(42));
    assert_eq!(parse_numeral("4294967295"), Some(u32::MAX));
    assert_eq!(parse_numeral("4294967296"), None);
    assert_eq!(parse_numeral(""), None);
    assert_eq!(parse_numeral("+1"), None);
    assert_eq!(parse_numeral("1a"), None);
}

#[test]
fn session_numbers() {
    assert_eq!(smallest_unused_number(&vec![]), Some(0));
    assert_eq!(smallest_unused_number(&strings(&["0", "1", "x", "3"])), Some(2));
    assert_eq!(smallest_unused_number(&strings(&["1", "2"])), Some(0));
    assert_eq!(smallest_unused_number(&strings(&["00", "1", "tmp"])), Some(2));
}

#[test]
fn session_number_always_found() {
    let names: Vec<String> = (0..50).map(|n| n.to_string()).collect();
    assert_eq!(smallest_unused_number(&names), Some(50));
}
