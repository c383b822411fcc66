use pmppt::records::{split_header, trim_text};

#[test]
fn dont_parse_empty_content() {
    let content = "";
    assert!(split_header(content).is_err());
}

#[test]
fn dont_parse_no_newline() {
    let content = "some string";
    assert!(split_header(content).is_err());
}

#[test]
fn parse_ok() {
    let content = "header\n\n\nrest";
    let (hdr, rest) = split_header(content).unwrap();
    assert_eq!(hdr, "header");
    assert_eq!(rest, "rest");
}

#[test]
fn split_header_trims_both_parts() {
    let (hdr, rest) = split_header("  Linux 6.17 \t\n\n a b \n").unwrap();
    assert_eq!(hdr, "Linux 6.17");
    assert_eq!(rest, "a b");
}

#[test]
fn trim_matches_std() {
    for s in ["", "   ", " a ", "\u{3000}x\u{2002}", "\ta b\r\n", "no-space"] {
        assert_eq!(trim_text(s), s.trim());
    }
}
