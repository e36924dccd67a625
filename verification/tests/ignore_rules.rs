use kit_ilias_downloader::iliasignore::{IgnoreLevel, IliasIgnore};

fn level(name: &str, lines: Option<&[&str]>) -> IgnoreLevel {
    IgnoreLevel {
        name: name.to_string(),
        lines: lines.map(|ls| ls.iter().map(|l| l.to_string()).collect()),
    }
}

#[test]
fn deepest_level_wins_over_parent_reinclude() {
    // The sync root ignores foo/, the parent re-includes
    // foo/bar; the most specific level decides first, so the path stays
    // ignored.
    let levels = vec![
        level("target", Some(&["foo/"])),
        level("parent", Some(&["!foo/bar"])),
    ];
    let (matcher, warnings) = IliasIgnore::load(&levels);
    assert!(warnings.is_empty());
    assert!(matcher.should_ignore("foo/bar", false));
}

#[test]
fn later_pattern_in_one_file_overrides_earlier() {
    let levels = vec![level("target", Some(&["foo/", "!foo/bar"]))];
    let (matcher, _) = IliasIgnore::load(&levels);
    assert!(!matcher.should_ignore("foo/bar", false));
    assert!(matcher.should_ignore("foo/baz", false));
    assert!(matcher.should_ignore("foo", true));
}

#[test]
fn directory_pattern_covers_contents() {
    let levels = vec![level("target", Some(&["videos/"]))];
    let (matcher, _) = IliasIgnore::load(&levels);
    assert!(matcher.should_ignore("videos", true));
    assert!(matcher.should_ignore("videos/lecture one.mp4", false));
    assert!(!matcher.should_ignore("videos", false));
    assert!(!matcher.should_ignore("other/lecture.mp4", false));
}

#[test]
fn sync_target_itself_is_never_matched() {
    let levels = vec![level("target", Some(&["*"]))];
    let (matcher, _) = IliasIgnore::load(&levels);
    assert!(!matcher.should_ignore("", true));
    assert!(matcher.should_ignore("anything", false));
}

#[test]
fn parent_level_patterns_see_the_prefixed_path() {
    let levels = vec![
        level("NGI", None),
        level("SS 23", Some(&["NGI/secret"])),
    ];
    let (matcher, _) = IliasIgnore::load(&levels);
    assert!(matcher.should_ignore("secret", false));
    assert!(!matcher.should_ignore("public", false));
}

#[test]
fn malformed_file_contributes_nothing_and_is_reported() {
    let levels = vec![
        level("target", Some(&["ok-pattern", "bad{glob"])),
        level("parent", Some(&["covered"])),
    ];
    let (matcher, warnings) = IliasIgnore::load(&levels);
    assert_eq!(warnings, vec![0]);
    // The malformed level is treated as absent, so even its valid line
    // does not match; the parent's file still applies.
    assert!(!matcher.should_ignore("ok-pattern", false));
    assert!(matcher.should_ignore("covered", false));
}

#[test]
fn comment_only_file_records_no_level() {
    let levels = vec![level("target", Some(&["# nothing here", ""]))];
    let (matcher, warnings) = IliasIgnore::load(&levels);
    assert!(warnings.is_empty());
    assert_eq!(matcher.len(), 0);
    assert!(!matcher.should_ignore("anything", false));
}

#[test]
fn boundary_level_patterns_still_count() {
    // The walk's last level is the boundary directory (a filesystem root,
    // say): it has no usable component name, but its ignore file applies,
    // with the full prefix accumulated below it.
    let levels = vec![
        level("sync", Some(&["local/"])),
        IgnoreLevel { name: String::new(), lines: Some(vec!["sync/foo".to_string()]) },
    ];
    let (matcher, warnings) = IliasIgnore::load(&levels);
    assert!(warnings.is_empty());
    assert_eq!(matcher.len(), 2);
    assert!(matcher.should_ignore("foo", false));
    assert!(matcher.should_ignore("local", true));
    assert!(!matcher.should_ignore("bar", false));
}

#[test]
fn levels_without_files_are_skipped() {
    let levels = vec![
        level("a", None),
        level("b", Some(&["*.tmp"])),
        level("c", None),
    ];
    let (matcher, warnings) = IliasIgnore::load(&levels);
    assert!(warnings.is_empty());
    assert_eq!(matcher.len(), 1);
    assert!(matcher.should_ignore("notes.tmp", false));
    assert!(!matcher.should_ignore("notes.txt", false));
}
