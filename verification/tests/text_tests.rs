use uwais::sys::{
    dirname, file_stem, filename, is_dir_empty, join_path, ls, parent_dir, path_exists,
    path_is_dir, path_is_file, path_to_str, trim_extension,
};
use uwais::text::{join_text, split_text, to_pascal_case, trim_end_matches, trim_newline};

#[test]
fn split_on_comma() {
    let pieces = split_text("a,b,c", ",");
    assert_eq!(pieces, vec!["a".to_string(), "b".to_string(), "c".to_string()]);
}

#[test]
fn split_keeps_empty_pieces() {
    let pieces = split_text(",x,", ",");
    assert_eq!(pieces, vec!["".to_string(), "x".to_string(), "".to_string()]);
}

#[test]
fn split_with_empty_separator_is_whole_text() {
    let pieces = split_text("abc", "");
    assert_eq!(pieces, vec!["abc".to_string()]);
}

#[test]
fn split_of_empty_text_is_one_empty_piece() {
    let pieces = split_text("", ",");
    assert_eq!(pieces, vec!["".to_string()]);
}

#[test]
fn join_with_separator() {
    assert_eq!(join_text(&["a", "b", "c"], ", "), "a, b, c");
    assert_eq!(join_text(&[], "-"), "");
    assert_eq!(join_text(&["one"], "-"), "one");
}

#[test]
fn join_undoes_split() {
    let pieces = split_text("x-y-z", "-");
    let refs: Vec<&str> = pieces.iter().map(|p| p.as_str()).collect();
    assert_eq!(join_text(&refs, "-"), "x-y-z");
}

#[test]
fn trim_end_matches_strips_all_trailing() {
    assert_eq!(trim_end_matches("name---", &['-']), "name");
    assert_eq!(trim_end_matches("name", &['-']), "name");
}

#[test]
fn trim_newline_strips_crlf() {
    assert_eq!(trim_newline("line\r\n"), "line");
    assert_eq!(trim_newline("line\n\n"), "line");
    assert_eq!(trim_newline("line"), "line");
}

#[test]
fn pascal_case_capitalises_words() {
    assert_eq!(to_pascal_case("hello_world"), "HelloWorld");
    assert_eq!(to_pascal_case("my-new feature"), "MyNewFeature");
    assert_eq!(to_pascal_case(""), "");
    assert_eq!(to_pascal_case("already"), "Already");
}

#[test]
fn filename_takes_last_component() {
    assert_eq!(filename("/usr/bin/tool"), "tool");
    assert_eq!(filename("tool"), "tool");
    assert_eq!(filename("a\\b\\c.exe"), "c.exe");
    assert_eq!(filename("/usr/bin/"), "bin");
    assert_eq!(filename("/"), "");
    assert_eq!(filename(""), "");
}

#[test]
fn dirname_is_the_name_of_the_path_itself() {
    assert_eq!(dirname("/tmp/project"), "project");
}

#[test]
fn parent_dir_drops_last_component() {
    assert_eq!(parent_dir("/usr/bin/tool"), "/usr/bin");
    assert_eq!(parent_dir("tool"), "");
    assert_eq!(parent_dir("/a/b/"), "/a");
    assert_eq!(parent_dir("a/"), "");
}

#[test]
fn file_stem_cuts_last_extension() {
    assert_eq!(file_stem("archive.tar.gz"), "archive.tar");
    assert_eq!(file_stem("/a/b/tool.exe"), "tool");
    assert_eq!(file_stem("plain"), "plain");
    assert_eq!(file_stem(".hidden"), ".hidden");
}

#[test]
fn trim_extension_strips_one_suffix() {
    assert_eq!(trim_extension("main.rs.txt", ".txt"), "main.rs");
    assert_eq!(trim_extension("main.rs", ".txt"), "main.rs");
}

#[test]
fn join_path_inserts_one_separator() {
    assert_eq!(join_path("/tmp", "file"), "/tmp/file");
}

#[test]
fn path_to_str_is_the_path_text() {
    assert_eq!(path_to_str("/a/b"), "/a/b");
}

#[test]
fn probes_see_the_working_directory() {
    assert!(path_exists("."));
    assert!(path_is_dir("."));
    assert!(!path_is_file("."));
    assert!(!path_exists("/no-such-dir-for-uwais-tests"));
    assert!(!path_is_dir("/no-such-dir-for-uwais-tests"));
    assert!(!path_is_file("/no-such-dir-for-uwais-tests"));
}

#[test]
fn a_missing_directory_lists_as_empty() {
    assert!(is_dir_empty("/no-such-dir-for-uwais-tests"));
    assert!(ls("/no-such-dir-for-uwais-tests").is_empty());
    assert!(!is_dir_empty("/"));
    assert!(!ls("/").is_empty());
}
