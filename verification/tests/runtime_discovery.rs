use launcher_core::java::{java_on_path, sort_newest_first, Discovery, JavaInstallation};
use launcher_core::text::trim_bounds;

fn runtime(version: u32, path: &str) -> JavaInstallation {
    JavaInstallation {
        version,
        path: path.to_string(),
        vendor: "OpenJDK".to_string(),
        full_version: format!("{}.0.0", version),
    }
}

#[test]
fn a_place_is_recorded_once() {
    let mut found = Discovery::new();
    assert!(!found.has_seen("/a"));
    assert!(found.record("/a".to_string(), runtime(17, "/a/bin/java")));
    assert!(found.has_seen("/a"));
    assert!(!found.record("/a".to_string(), runtime(21, "/link/bin/java")));
    assert!(found.record("/b".to_string(), runtime(21, "/b/bin/java")));
    assert_eq!(found.seen_paths, vec!["/a".to_string(), "/b".to_string()]);
    assert_eq!(found.installations, vec![runtime(17, "/a/bin/java"), runtime(21, "/b/bin/java")]);
}

#[test]
fn runtimes_are_ordered_newest_first_and_stably() {
    let found = vec![
        runtime(17, "a"),
        runtime(21, "b"),
        runtime(8, "c"),
        runtime(17, "d"),
        runtime(21, "e"),
        runtime(11, "f"),
    ];
    assert_eq!(
        sort_newest_first(&found),
        vec![
            runtime(21, "b"),
            runtime(21, "e"),
            runtime(17, "a"),
            runtime(17, "d"),
            runtime(11, "f"),
            runtime(8, "c"),
        ]
    );
    let mut expected = found.clone();
    expected.sort_by(|a, b| b.version.cmp(&a.version));
    assert_eq!(sort_newest_first(&found), expected);
    assert_eq!(sort_newest_first(&Vec::new()), Vec::<JavaInstallation>::new());
    assert_eq!(sort_newest_first(&vec![runtime(1, "x")]), vec![runtime(1, "x")]);
}

fn std_first_line(stdout: &str) -> Option<String> {
    let first = stdout.lines().next()?.trim().to_string();
    if first.is_empty() {
        None
    } else {
        Some(first)
    }
}

#[test]
fn path_lookup_gives_the_first_line_trimmed() {
    assert_eq!(java_on_path("/usr/bin/java\n"), Some("/usr/bin/java".to_string()));
    assert_eq!(java_on_path("  /usr/bin/java \t\r\n/opt/java\n"), Some("/usr/bin/java".to_string()));
    assert_eq!(java_on_path("C:\\Program Files\\Java\\bin\\java.exe\r\nC:\\other"), Some("C:\\Program Files\\Java\\bin\\java.exe".to_string()));
    assert_eq!(java_on_path("\u{a0}\u{2003}/j a v a\u{3000}"), Some("/j a v a".to_string()));
    assert_eq!(java_on_path(""), None);
    assert_eq!(java_on_path("\n/usr/bin/java"), None);
    assert_eq!(java_on_path("   \t \n/usr/bin/java"), None);
    assert_eq!(java_on_path("\r\n"), None);
    assert_eq!(java_on_path("x"), Some("x".to_string()));
    assert_eq!(java_on_path("_\u{200b}_"), Some("_\u{200b}_".to_string()));
}

#[test]
fn path_lookup_agrees_with_the_standard_library() {
    let cases = [
        "", " ", "\n", "a", " a", "a ", " a b ", "a\r", "a\r\n", "\ra\n", "a\n b", "\t\u{85}a\u{1680}\n",
        "\u{feff}a", "\u{2028}a\u{2029}", " \r\n", "a\r\r\n",
    ];
    for case in cases {
        assert_eq!(java_on_path(case), std_first_line(case), "{:?}", case);
    }
}

#[test]
fn trim_bounds_mark_what_is_left() {
    let chars = |s: &str| s.chars().collect::<Vec<char>>();
    assert_eq!(trim_bounds(&chars("  ab c ")), (2, 6));
    assert_eq!(trim_bounds(&chars("abc")), (0, 3));
    assert_eq!(trim_bounds(&chars("   ")), (3, 0));
    assert_eq!(trim_bounds(&chars("")), (0, 0));
}
