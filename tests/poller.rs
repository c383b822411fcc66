use pmppt::poller::{create_header, poll, poll_record, DEFAULT_PERIOD_MS};

fn strings(v: &[&str]) -> Vec<String> {
    v.iter().map(|s| s.to_string()).collect()
}

#[test]
fn header_lists_files_and_period() {
    let h = create_header(&strings(&["/proc/stat"]), DEFAULT_PERIOD_MS);
    assert_eq!(h, "{\"files\":[\"/proc/stat\"],\"period\":250000000}\n");
    let h = create_header(&strings(&["a\"b"]), 1);
    assert_eq!(h, "{\"files\":[\"a\\\"b\"],\"period\":1000000}\n");
}

#[test]
fn record_layout() {
    let r = poll_record("2025-01-01T00:00:00.000000+00:00", &strings(&["a 1\n", "b 2\n"]));
    assert_eq!(r, "2025-01-01T00:00:00.000000+00:00\na 1\nb 2\n\n");
}

#[test]
fn stamped_record_ends_with_delimiter() {
    let r = poll(&strings(&["x\n"]));
    assert!(r.ends_with("\nx\n\n"));
    assert!(r.len() > "\nx\n\n".len());
}
