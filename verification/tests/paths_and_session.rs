use susscope::decimal::{u64_to_decimal, usize_to_decimal};
use susscope::pathname::{base_name, join_under};
use susscope::session::Session;

#[test]
fn base_name_strips_extension() {
    assert_eq!(base_name("clip1.avi"), "clip1");
    assert_eq!(base_name("a.b.c"), "a.b");
}

#[test]
fn base_name_strips_directories() {
    assert_eq!(base_name("dir/clip.avi"), "clip");
    assert_eq!(base_name("a/b/c.mov"), "c");
}

#[test]
fn base_name_without_extension_is_whole_name() {
    assert_eq!(base_name("noext"), "noext");
    assert_eq!(base_name(""), "");
}

#[test]
fn base_name_keeps_leading_dot() {
    assert_eq!(base_name(".hidden"), ".hidden");
    assert_eq!(base_name("dir/.hidden"), ".hidden");
    assert_eq!(base_name(".a.b"), ".a");
}

#[test]
fn base_name_handles_multibyte_names() {
    assert_eq!(base_name("vid\u{e9}os/caf\u{e9}.avi"), "caf\u{e9}");
    assert_eq!(base_name("\u{65e5}\u{672c}.mp4"), "\u{65e5}\u{672c}");
}

#[test]
fn join_under_concatenates() {
    assert_eq!(join_under("/cache", "clip1", ".mp4"), "/cache/clip1.mp4");
    assert_eq!(join_under("", "x", ""), "/x");
}

#[test]
fn decimal_renders_exactly() {
    assert_eq!(usize_to_decimal(0), "0");
    assert_eq!(usize_to_decimal(7), "7");
    assert_eq!(usize_to_decimal(42), "42");
    assert_eq!(usize_to_decimal(1234567890), "1234567890");
    assert_eq!(u64_to_decimal(u64::MAX), "18446744073709551615");
}

#[test]
fn session_starts_empty() {
    let s = Session::new();
    assert_eq!(s.get_active_archive(), "");
    assert!(!s.has_active_archive());
    assert_eq!(s.active_archive(), None);
}

#[test]
fn session_set_and_get() {
    let mut s = Session::new();
    s.set_active_archive(String::from("/home/u/session.zip"));
    assert_eq!(s.get_active_archive(), "/home/u/session.zip");
    assert!(s.has_active_archive());
    assert_eq!(s.active_archive(), Some(String::from("/home/u/session.zip")));
}

#[test]
fn session_selection_cancelled_keeps_state() {
    let mut s = Session::new();
    s.set_active_archive(String::from("old.zip"));
    let echoed = s.apply_selection(None);
    assert_eq!(echoed, "");
    assert_eq!(s.get_active_archive(), "old.zip");
}

#[test]
fn session_selection_replaces_state() {
    let mut s = Session::new();
    s.set_active_archive(String::from("old.zip"));
    let echoed = s.apply_selection(Some(String::from("new.zip")));
    assert_eq!(echoed, "new.zip");
    assert_eq!(s.get_active_archive(), "new.zip");
}
