use pmppt::protocol::{Id, Request};

#[test]
fn ids_convert() {
    let id = Id::from(5u32);
    assert_eq!(id, Id::new(5));
    assert_eq!(id.value(), 5);
}

#[test]
fn terminal_requests() {
    assert!(Request::End.is_terminal());
    assert!(Request::Abort.is_terminal());
    assert!(!Request::StopAll.is_terminal());
    assert!(!Request::Poll { pattern: "/proc/stat".to_string() }.is_terminal());
}
