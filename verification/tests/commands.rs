use reveal_bridge::commands::read_file;
use reveal_bridge::commands::write_file;

#[test]
fn write_accepts_non_empty_path_and_data() {
    assert_eq!(write_file("a", "b"), true);
}

#[test]
fn write_refuses_empty_path() {
    assert_eq!(write_file("", "b"), false);
}

#[test]
fn write_refuses_empty_data() {
    assert_eq!(write_file("a", ""), false);
}

#[test]
fn write_refuses_both_empty() {
    assert_eq!(write_file("", ""), false);
}

#[test]
fn read_reply_embeds_path() {
    assert_eq!(read_file("/tmp/x"), "file data /tmp/x");
}

#[test]
fn read_reply_of_empty_path_is_bare_prefix() {
    assert_eq!(read_file(""), "file data ");
}

#[test]
fn read_reply_keeps_non_ascii_path() {
    assert_eq!(read_file("/tmp/ファイル.txt"), "file data /tmp/ファイル.txt");
}
