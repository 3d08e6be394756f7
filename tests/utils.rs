use htop::utils::{file_name, file_url, has_html_extension, join, replace_ext};

#[test]
fn replace_ext_swaps_the_extension() {
    assert_eq!(replace_ext("foo.html"), "foo.pdf");
    assert_eq!(replace_ext("dir/report.html"), "dir/report.pdf");
    assert_eq!(replace_ext("/a/b.c/d.tar.gz"), "/a/b.c/d.tar.pdf");
}

#[test]
fn replace_ext_adds_a_missing_extension() {
    assert_eq!(replace_ext("README"), "README.pdf");
    assert_eq!(replace_ext(".bashrc"), ".bashrc.pdf");
    assert_eq!(replace_ext("foo."), "foo.pdf");
    assert_eq!(replace_ext("dir.d/file"), "dir.d/file.pdf");
}

#[test]
fn replace_ext_drops_trailing_separators() {
    assert_eq!(replace_ext("a/b.html/"), "a/b.pdf");
}

#[test]
fn trailing_dot_segments_are_dropped() {
    assert_eq!(replace_ext("a/."), "a.pdf");
    assert_eq!(replace_ext("a/./"), "a.pdf");
    assert_eq!(replace_ext("foo.txt/."), "foo.pdf");
    assert_eq!(replace_ext("d/x.html//./."), "d/x.pdf");
    assert_eq!(replace_ext("a/./b.html"), "a/./b.pdf");
    assert_eq!(file_name("a/.").unwrap(), "a.pdf");
    assert_eq!(file_name("d/x.html/./").unwrap(), "x.pdf");
    assert!(has_html_extension("a.html/."));
    assert!(has_html_extension("a.html/./"));
    assert!(!has_html_extension("a.htm/."));
}

#[test]
fn leading_dot_names_no_file() {
    assert_eq!(replace_ext("."), ".");
    assert_eq!(replace_ext("./"), "./");
    assert_eq!(replace_ext("/."), "/.");
    assert!(file_name(".").is_err());
    assert!(file_name("./.").is_err());
    assert!(!has_html_extension("./"));
}

#[test]
fn replace_ext_leaves_paths_without_file_name() {
    assert_eq!(replace_ext(""), "");
    assert_eq!(replace_ext("/"), "/");
    assert_eq!(replace_ext(".."), "..");
    assert_eq!(replace_ext("a/.."), "a/..");
}

#[test]
fn replace_ext_is_idempotent() {
    for p in ["foo.html", "foo", "a/b.html/", ".x", "...", "", "/", "x.y.z", "a/.", "./"] {
        let once = replace_ext(p);
        assert_eq!(replace_ext(&once), once);
    }
    assert_eq!(replace_ext("foo.pdf"), "foo.pdf");
}

#[test]
fn file_name_returns_the_last_segment() {
    assert_eq!(file_name("in/a.html").unwrap(), "a.pdf");
    assert_eq!(file_name("/x/y/report.htm").unwrap(), "report.pdf");
    assert_eq!(file_name("noext").unwrap(), "noext.pdf");
}

#[test]
fn file_name_fails_without_file_name() {
    assert_eq!(
        file_name("/").unwrap_err().message(),
        "retrieving file name for path / failed"
    );
    assert_eq!(
        file_name("").unwrap_err().message(),
        "retrieving file name for path  failed"
    );
    assert!(file_name("..").is_err());
}

#[test]
fn html_extension_is_matched_exactly() {
    assert!(has_html_extension("a.html"));
    assert!(has_html_extension("dir/a.b.html"));
    assert!(!has_html_extension("a.htm"));
    assert!(!has_html_extension("a.HTML"));
    assert!(!has_html_extension("a.Html"));
    assert!(!has_html_extension("html"));
    assert!(!has_html_extension(".html"));
    assert!(!has_html_extension("a.html.bak"));
    assert!(!has_html_extension(""));
}

#[test]
fn file_url_prefixes_the_absolute_path() {
    let ok: Result<String, String> = Ok("/home/u/report.html".to_string());
    assert_eq!(file_url("report.html", &ok).unwrap(), "file:///home/u/report.html");
}

#[test]
fn file_url_reports_canonicalize_failure() {
    let err: Result<String, String> = Err("No such file or directory (os error 2)".to_string());
    assert_eq!(
        file_url("missing.html", &err).unwrap_err().message(),
        "canonicalizing failed for path missing.html with reason: No such file or directory (os error 2)"
    );
}

#[test]
fn join_puts_one_separator() {
    assert_eq!(join("./out", "a.pdf"), "./out/a.pdf");
    assert_eq!(join("./out/", "a.pdf"), "./out/a.pdf");
    assert_eq!(join("", "a.pdf"), "a.pdf");
}
