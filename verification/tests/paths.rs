use servo_bridge::paths::{join_path, trim_start_slashes};

#[test]
fn trims_every_leading_slash() {
    assert_eq!(trim_start_slashes("///index.html"), "index.html");
    assert_eq!(trim_start_slashes("/a/b/"), "a/b/");
    assert_eq!(trim_start_slashes("a/b"), "a/b");
    assert_eq!(trim_start_slashes("///"), "");
    assert_eq!(trim_start_slashes(""), "");
}

#[test]
fn trim_is_idempotent() {
    let once = trim_start_slashes("//x");
    assert_eq!(trim_start_slashes(once), once);
}

#[test]
fn join_inserts_one_separator() {
    assert_eq!(join_path("/root", "index.html"), "/root/index.html");
    assert_eq!(join_path("/root/", "index.html"), "/root/index.html");
    assert_eq!(join_path("", "index.html"), "index.html");
    assert_eq!(join_path("/root", ""), "/root/");
}

#[test]
fn join_absolute_replaces() {
    assert_eq!(join_path("/root", "/etc/hosts"), "/etc/hosts");
}

#[test]
fn join_agrees_with_pathbuf_on_unix() {
    for (base, rel) in [("/a", "b"), ("/a/", "b"), ("", "b"), ("/a", ""), ("/a", "/b"), ("a/b", "../c.py")] {
        let expected = std::path::Path::new(base).join(rel).to_string_lossy().into_owned();
        assert_eq!(join_path(base, rel), expected, "{base:?} + {rel:?}");
    }
}
