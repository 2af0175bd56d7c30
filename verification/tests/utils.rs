use easy_cli::utils::strip_file_suffix;

fn stripped(name: &str) -> String {
    strip_file_suffix(name).unwrap()
}

#[test]
fn strips_the_last_suffix() {
    assert_eq!(stripped("foo.sh"), "foo");
    assert_eq!(stripped("script1.sh"), "script1");
    assert_eq!(stripped("archive.tar.gz"), "archive.tar");
    assert_eq!(stripped("foo."), "foo");
}

#[test]
fn a_name_without_a_dot_is_all_suffix() {
    assert_eq!(stripped("script1"), "");
    assert_eq!(stripped(".bashrc"), "");
    assert_eq!(stripped(""), "");
}

#[test]
fn a_leading_line_feed_is_kept() {
    assert_eq!(stripped("\nabc"), "\n");
    assert_eq!(stripped("\n"), "\n");
}
