use filegen::batch::{format_file_name, join_path, Batch, GeneratedFile};

fn is_name_char(c: char) -> bool {
    c.is_ascii_uppercase() || c.is_ascii_lowercase() || c.is_ascii_digit()
}

fn check_request(g: &GeneratedFile, dir: &str, extension: &str) {
    assert_eq!(g.name.chars().count(), 6);
    assert!(g.name.chars().all(is_name_char));
    assert_eq!(g.path, format!("{}/{}.{}", dir, g.name, extension));
    assert_eq!(g.content.chars().count(), 4096);
    assert_eq!(g.content.len(), 4096, "content is 4096 bytes");
}

#[test]
fn format_file_name_appends_dot_and_extension() {
    assert_eq!(format_file_name("abc123", "txt"), "abc123.txt");
    assert_eq!(format_file_name("", ""), ".");
}

#[test]
fn join_path_inserts_single_separator() {
    assert_eq!(join_path("out", "a.txt"), "out/a.txt");
    assert_eq!(join_path("out/", "a.txt"), "out/a.txt");
    assert_eq!(join_path("", "a.txt"), "a.txt");
    assert_eq!(join_path(".", "a.txt"), "./a.txt");
}

#[test]
fn zero_amount_batch_is_complete_and_empty() {
    let b = Batch::new(0, String::from("/tmp/out"), String::from("dat"), true);
    assert!(b.next_file().is_none());
    assert!(b.is_complete());
    assert_eq!(b.created_count(), 0);
}

#[test]
fn batch_of_three_yields_three_well_formed_requests() {
    let mut b = Batch::new(3, String::from("/tmp/out"), String::from("dat"), true);
    let mut seen = 0u32;
    while let Some(g) = b.next_file() {
        check_request(&g, "/tmp/out", "dat");
        b.record_created();
        seen += 1;
        assert!(seen <= 3, "batch handed out more requests than asked");
    }
    assert_eq!(seen, 3);
    assert!(b.is_complete());
    assert_eq!(b.created_count(), 3);
}

#[test]
fn batch_requests_use_given_extension_exactly() {
    let b = Batch::new(1, String::from("dir"), String::from("long.extension"), false);
    let g = b.next_file().expect("one file is owed");
    assert!(g.path.starts_with("dir/"));
    assert!(g.path.ends_with(".long.extension"));
    check_request(&g, "dir", "long.extension");
}

#[test]
fn failure_aborts_the_batch() {
    let mut b = Batch::new(3, String::from("/nonexistent"), String::from("dat"), false);
    let first = b.next_file();
    assert!(first.is_some());
    b.record_created();
    b.record_failure();
    assert!(b.next_file().is_none(), "a failed batch hands out nothing further");
    assert!(!b.is_complete());
    assert_eq!(b.created_count(), 1, "files created before the failure stay counted");
}

#[test]
fn should_print_reports_the_flag() {
    let on = Batch::new(0, String::new(), String::from("a"), true);
    let off = Batch::new(0, String::new(), String::from("a"), false);
    assert!(on.should_print());
    assert!(!off.should_print());
}
