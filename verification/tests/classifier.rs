use kit_ilias_downloader::errors::Error;
use kit_ilias_downloader::ilias::{FileHint, Object, URL};

fn redirector(target: &str) -> URL {
    URL::from_href(&format!("goto.php?target={}", target)).unwrap()
}

fn classify(url: URL, name: &str) -> Object {
    Object::from_url(url, name.to_string(), None).unwrap()
}

#[test]
fn thread_priority_over_everything() {
    // thr_pk wins over the redirector and baseClass rules.
    let url = URL::from_href("goto.php?thr_pk=123&target=crs_55_x&baseClass=ilRepositoryGUI")
        .unwrap();
    let obj = Object::from_url(url, "ignored".to_string(), None).unwrap();
    assert!(matches!(obj, Object::Thread { .. }));
    assert_eq!(obj.name(), "123");
    assert_eq!(obj.kind(), "thread");
    assert!(obj.is_dir());
}

#[test]
fn course_redirector_extracts_ref_id() {
    let obj = classify(redirector("crs_55_oldstuff"), "Old Stuff");
    assert!(matches!(obj, Object::Course { .. }));
    assert_eq!(obj.url().ref_id, "55");
    assert_eq!(obj.name(), "Old Stuff");
    assert_eq!(obj.kind(), "course");
}

#[test]
fn course_redirector_ref_id_without_second_underscore() {
    let obj = classify(redirector("crs_77"), "c");
    assert!(matches!(obj, Object::Course { .. }));
    assert_eq!(obj.url().ref_id, "77");
}

#[test]
fn percent_encoded_target_is_decoded() {
    let obj = classify(redirector("crs%5F55%5Fx"), "c");
    assert!(matches!(obj, Object::Course { .. }));
    assert_eq!(obj.url().ref_id, "55");
}

#[test]
fn file_metadata_page_is_generic() {
    // A target prefixed file_ but not ending in download is a metadata page.
    let hint = FileHint { extension: "pdf".to_string(), version: "Version: 3".to_string() };
    let obj = Object::from_url(redirector("file_55_x"), "n".to_string(), Some(hint)).unwrap();
    assert!(matches!(obj, Object::Generic { .. }));
}

#[test]
fn file_download_composes_name_with_version() {
    let hint = FileHint { extension: " pdf ".to_string(), version: " Version: 3 ".to_string() };
    let obj = Object::from_url(redirector("file_55_download"), "Sheet".to_string(), Some(hint))
        .unwrap();
    assert!(matches!(obj, Object::File { .. }));
    assert_eq!(obj.name(), "Sheet_v3.pdf");
}

#[test]
fn file_download_without_version_prefix() {
    let hint = FileHint { extension: "zip".to_string(), version: "3 changes".to_string() };
    let obj = Object::from_url(redirector("file_55_download"), "Data".to_string(), Some(hint))
        .unwrap();
    assert_eq!(obj.name(), "Data.zip");
}

#[test]
fn file_download_without_hint_is_an_error() {
    let err = Object::from_url(redirector("file_55_download"), "n".to_string(), None)
        .unwrap_err();
    assert_eq!(err, Error::MissingFileMetadata);
}

#[test]
fn redirector_target_table() {
    assert!(matches!(classify(redirector("wiki_9"), "w"), Object::Wiki { .. }));
    assert!(matches!(classify(redirector("root_1"), "r"), Object::Generic { .. }));
    assert!(matches!(classify(redirector("lm_4"), "p"), Object::Presentation { .. }));
    let frm = classify(redirector("frm_8_y"), "f");
    assert!(matches!(frm, Object::Forum { .. }));
    assert_eq!(frm.url().ref_id, "8");
    let fold = classify(redirector("fold_21_z"), "d");
    assert!(matches!(fold, Object::Folder { .. }));
    assert_eq!(fold.url().ref_id, "21");
    assert!(matches!(classify(redirector("xyz_3"), "g"), Object::Generic { .. }));
}

#[test]
fn redirector_without_target_is_generic() {
    let url = URL::from_href("goto.php?client_id=produktiv").unwrap();
    let obj = classify(url, "g");
    assert!(matches!(obj, Object::Generic { .. }));
}

#[test]
fn show_threads_is_forum() {
    let url = URL::from_href("ilias.php?cmd=showThreads&ref_id=9").unwrap();
    assert!(matches!(classify(url, "f"), Object::Forum { .. }));
}

#[test]
fn repository_gui_case_insensitive() {
    // Mixed-case baseClass, with the three cmd shapes.
    let no_cmd = URL::from_href("ilias.php?baseClass=ilRepositoryGUI").unwrap();
    assert!(matches!(classify(no_cmd, "c"), Object::Course { .. }));
    let view = URL::from_href("ilias.php?baseClass=ilRepositoryGUI&cmd=view").unwrap();
    assert!(matches!(classify(view, "f"), Object::Folder { .. }));
    let render = URL::from_href("ilias.php?baseClass=ilrepositorygui&cmd=render").unwrap();
    assert!(matches!(classify(render, "f"), Object::Folder { .. }));
    let other = URL::from_href("ilias.php?baseClass=ILREPOSITORYGUI&cmd=other").unwrap();
    assert!(matches!(classify(other, "g"), Object::Generic { .. }));
}

#[test]
fn base_class_table() {
    let cases: Vec<(&str, &str)> = vec![
        ("ilExerciseHandlerGUI", "exercise handler"),
        ("ilLMPresentationGUI", "presentation"),
        ("ilIlWikiHandlerGUI", "wiki"),
        ("ilLinkResourceHandlerGUI", "weblink"),
        ("ilObjSurveyGUI", "survey"),
        ("ilObjPluginDispatchGUI", "plugin dispatch"),
        ("ilSomethingElseGUI", "generic"),
    ];
    for (base, kind) in cases {
        let url = URL::from_href(&format!("ilias.php?baseClass={}", base)).unwrap();
        let obj = classify(url, "n");
        assert_eq!(obj.kind(), kind, "baseClass {}", base);
    }
    let desk = URL::from_href("ilias.php?baseClass=ilPersonalDesktopGUI").unwrap();
    let desk = classify(desk, "");
    assert!(matches!(desk, Object::PersonalDesktop { .. }));
    assert!(desk.is_dir());
    assert_eq!(desk.kind(), "personal desktop");
}

#[test]
fn classifier_is_idempotent() {
    // The same locator and hint classify to structurally
    // identical resources.
    let hint = FileHint { extension: "pdf".to_string(), version: "Version: 2".to_string() };
    let url = redirector("file_5_download");
    let a = Object::from_url(url.clone(), "N".to_string(), Some(hint.clone())).unwrap();
    let b = Object::from_url(url, "N".to_string(), Some(hint)).unwrap();
    assert_eq!(a, b);
}

#[test]
fn video_and_thread_names_are_derived() {
    let video = Object::Video { url: URL::raw("media/stream.mp4".to_string()) };
    assert_eq!(video.name(), "media/stream.mp4");
    assert_eq!(video.kind(), "video");
    assert!(!video.is_dir());
}

#[test]
fn is_dir_matches_container_kinds() {
    let dirs = ["crs_1_a", "frm_2_b", "fold_3_c"];
    for t in dirs {
        assert!(classify(redirector(t), "x").is_dir(), "target {}", t);
    }
    let hint = FileHint { extension: "pdf".to_string(), version: "v".to_string() };
    let file = Object::from_url(redirector("file_4_download"), "x".to_string(), Some(hint))
        .unwrap();
    assert!(!file.is_dir());
    // A wiki is never traversed, so it is no container.
    assert!(!classify(redirector("wiki_5"), "x").is_dir());
    assert!(!classify(redirector("lm_6"), "x").is_dir());
    assert!(!classify(redirector("root_7"), "x").is_dir());
}
