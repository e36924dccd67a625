use kit_ilias_downloader::cli::{parse_login_file, session_usable, Opt};
use kit_ilias_downloader::ilias::{
    complete_url, course_content_tree_url, session_expired, Object, URL,
};
use kit_ilias_downloader::iliasignore::{IgnoreLevel, IliasIgnore};
use kit_ilias_downloader::util::{file_escape, to_decimal, trim};
use kit_ilias_downloader::{base_url, plan_unit, UnitPlan};

#[test]
fn base_address() {
    assert_eq!(base_url(), "https://ilias.studium.kit.edu/");
}

#[test]
fn url_completion() {
    assert_eq!(complete_url("https://example.org/x"), "https://example.org/x");
    assert_eq!(complete_url("http://example.org/x"), "http://example.org/x");
    assert_eq!(
        complete_url("ilias.studium.kit.edu/goto.php"),
        "https://ilias.studium.kit.edu/goto.php"
    );
    assert_eq!(
        complete_url("ilias.php?cmd=view"),
        "https://ilias.studium.kit.edu/ilias.php?cmd=view"
    );
}

#[test]
fn expired_sessions_are_recognized_by_the_bounce_query() {
    assert!(session_expired("reloadpublic=1&lang=de"));
    assert!(session_expired("cmdClass=x&cmd=force_login"));
    assert!(!session_expired("cmd=view&ref_id=1"));
}

#[test]
fn content_tree_address() {
    let url = course_content_tree_url("42", "uf:ab");
    assert_eq!(
        url,
        "https://ilias.studium.kit.edu/ilias.php?ref_id=42&cmdClass=ilobjcoursegui\
         &cmd=showRepTree&cmdNode=uf:ab&baseClass=ilRepositoryGUI&cmdMode=asynch\
         &exp_cmd=getNodeAsync&node_id=exp_node_rep_exp_42\
         &exp_cont=il_expl2_jstree_cont_rep_exp&searchterm="
    );
}

#[test]
fn file_escape_replaces_separators() {
    assert_eq!(file_escape("a/b\\c"), "a-b-c");
    assert_eq!(file_escape("plain name"), "plain name");
    assert_eq!(file_escape(""), "");
    assert_eq!(file_escape("//"), "--");
}

#[test]
fn decimal_rendering() {
    assert_eq!(to_decimal(0), "0");
    assert_eq!(to_decimal(7), "7");
    assert_eq!(to_decimal(10), "10");
    assert_eq!(to_decimal(51234), "51234");
}

#[test]
fn trimming() {
    assert_eq!(trim("  user \r\n"), "user");
    assert_eq!(trim("x"), "x");
    assert_eq!(trim("   "), "");
    assert_eq!(trim(""), "");
}

#[test]
fn login_file_parsing() {
    assert_eq!(
        parse_login_file("alice\nsecret\n"),
        Some(("alice".to_string(), "secret".to_string()))
    );
    assert_eq!(
        parse_login_file(" alice \n secret"),
        Some(("alice".to_string(), "secret".to_string()))
    );
    // A file without a second line has no password.
    assert_eq!(parse_login_file("alice"), None);
    // An empty second line is an empty password, as stored.
    assert_eq!(parse_login_file("alice\n"), Some(("alice".to_string(), "".to_string())));
}

#[test]
fn session_age_rule() {
    assert!(session_usable(0));
    assert!(session_usable(3600));
    assert!(!session_usable(3601));
}

#[test]
fn unit_gate_skips_ignored_destinations() {
    let levels = vec![IgnoreLevel {
        name: "target".to_string(),
        lines: Some(vec!["skipme/".to_string()]),
    }];
    let (matcher, _) = IliasIgnore::load(&levels);
    let folder = Object::from_url(
        URL::from_href("ilias.php?baseClass=ilrepositorygui&cmd=view").unwrap(),
        "skipme".to_string(),
        None,
    )
    .unwrap();
    assert_eq!(plan_unit(&matcher, "skipme", &folder), UnitPlan::Skip);
    assert_eq!(
        plan_unit(&matcher, "keepme", &folder),
        UnitPlan::Run { create_dir: true }
    );
    let leaf = Object::from_url(
        URL::raw("notes.pdf".to_string()),
        "notes.pdf".to_string(),
        None,
    )
    .unwrap();
    assert!(!leaf.is_dir());
    assert_eq!(
        plan_unit(&matcher, "keepme/notes.pdf", &leaf),
        UnitPlan::Run { create_dir: false }
    );
    // The sync target itself (empty relative path) is never ignored.
    assert_eq!(plan_unit(&matcher, "", &folder), UnitPlan::Run { create_dir: true });
}

#[test]
fn options_carry_the_run_configuration() {
    let opt = Opt {
        skip_files: false,
        no_videos: true,
        forum: false,
        force: false,
        content_tree: false,
        check_videos: false,
        combine_videos: false,
        save_ilias_pages: false,
        verbose: 1,
        output: "out".to_string(),
        jobs: 2,
        proxy: None,
        keyring: false,
        username: Some("alice".to_string()),
        password: None,
        sync_url: None,
        rate: 8,
        keep_session: true,
    };
    let copy = opt.clone();
    assert_eq!(copy.jobs, 2);
    assert!(copy.no_videos);
    assert_eq!(copy.username.as_deref(), Some("alice"));
}
