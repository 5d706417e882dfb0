use nueces::unzip::entry_destination;
use nueces::unzip::is_safe_entry_name;

#[test]
fn plain_entries_are_placed_under_the_destination() {
    let p = entry_destination("/srv/deploy", "bin/tool").expect("safe name");
    assert_eq!(p, "/srv/deploy/bin/tool");
    assert!(p.starts_with("/srv/deploy"));

    let p = entry_destination("/srv/deploy", "README.md").expect("safe name");
    assert_eq!(p, "/srv/deploy/README.md");
    assert!(p.starts_with("/srv/deploy"));
}

#[test]
fn traversal_entries_are_never_written() {
    assert_eq!(entry_destination("/srv/deploy", "../escape"), None);
    assert_eq!(entry_destination("/srv/deploy", "a/../escape"), None);
    assert_eq!(entry_destination("/srv/deploy", "a/b/.."), None);
    assert_eq!(entry_destination("/srv/deploy", ".."), None);
}

#[test]
fn absolute_entries_are_never_written() {
    assert_eq!(entry_destination("/srv/deploy", "/etc/passwd"), None);
    assert_eq!(entry_destination("/srv/deploy", "/"), None);
}

#[test]
fn odd_bytes_are_never_written() {
    assert_eq!(entry_destination("/srv/deploy", "a\\b"), None);
    assert_eq!(entry_destination("/srv/deploy", "a\u{0}b"), None);
    assert_eq!(entry_destination("/srv/deploy", ""), None);
}

#[test]
fn dots_inside_segments_are_harmless() {
    assert!(is_safe_entry_name(b"a..b"));
    assert!(is_safe_entry_name(b"..a/b"));
    assert!(is_safe_entry_name(b"a/b.."));
    assert!(is_safe_entry_name(b"a.b/c.d"));
    assert!(!is_safe_entry_name(b"a/../b"));
    assert!(!is_safe_entry_name(b"../a"));
    assert!(!is_safe_entry_name(b"a/.."));
}
