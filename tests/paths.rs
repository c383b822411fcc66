use pmppt::paths::{check_braces, combine_matches, lookup_paths};

fn strings(v: &[&str]) -> Vec<String> {
    v.iter().map(|s| s.to_string()).collect()
}

#[test]
fn brace_balance() {
    assert!(check_braces("/a/{x,y}*"));
    assert!(check_braces("plain"));
    assert!(check_braces("\\{"));
    assert!(!check_braces("{a,b"));
    assert!(!check_braces("}{"));
}

#[test]
fn matches_are_joined_in_expansion_order() {
    let found = vec![
        ("/a/x*".to_string(), strings(&["/a/x1", "/a/x2"])),
        ("/a/y*".to_string(), strings(&["/a/y1"])),
    ];
    assert_eq!(combine_matches(&found).unwrap(), strings(&["/a/x1", "/a/x2", "/a/y1"]));
}

#[test]
fn one_empty_expansion_fails_all() {
    let found = vec![
        ("/a/x*".to_string(), strings(&["/a/x1"])),
        ("/a/y*".to_string(), vec![]),
    ];
    let e = combine_matches(&found).unwrap_err();
    assert!(e.contains("/a/y*"));
}

#[test]
fn lookup_on_the_file_system() {
    assert_eq!(lookup_paths("/proc/{stat,meminfo}").unwrap(), strings(&["/proc/stat", "/proc/meminfo"]));
    assert!(lookup_paths("/proc/{stat,no_such_file_here}").is_err());
    assert!(lookup_paths("/proc/{stat").is_err());
}

#[test]
fn empty_expansion_error_names_it() {
    let found = vec![("/a/x*".to_string(), vec![]), ("/a/y*".to_string(), strings(&["/a/y1"]))];
    assert_eq!(combine_matches(&found).unwrap_err(), "got empty search result on expanding '/a/x*'");
}

#[test]
fn unbalanced_error_is_its_own() {
    assert_eq!(lookup_paths("/proc/{stat").unwrap_err(), "unbalanced braces in '/proc/{stat'");
    assert_ne!(lookup_paths("/proc/no_such_entry_here*").unwrap_err(), "unbalanced braces in '/proc/no_such_entry_here*'");
}
