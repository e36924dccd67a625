use kit_ilias_downloader::ilias::course::is_join_only_page;
use kit_ilias_downloader::ilias::exercise::{is_exercise_download_cmd, unique_filename};
use kit_ilias_downloader::ilias::file::should_download;
use kit_ilias_downloader::ilias::folder::has_expand_link;
use kit_ilias_downloader::ilias::forum::{thread_dir_name, thread_up_to_date};
use kit_ilias_downloader::ilias::plugin_dispatch::{rewrite_video_query, video_list_url};
use kit_ilias_downloader::ilias::thread::pick_author_index;
use kit_ilias_downloader::ilias::video::{
    should_visit_video, stream_action, stream_file_name, StreamAction,
};
use kit_ilias_downloader::ilias::weblink::{is_call_link_cmd, is_link_list};

#[test]
fn file_download_decision() {
    assert!(should_download(false, false, false));
    assert!(should_download(false, true, true));
    assert!(!should_download(false, false, true));
    assert!(!should_download(true, false, false));
    assert!(!should_download(true, true, false));
}

#[test]
fn video_visit_decision() {
    assert!(should_visit_video(false, false, false, false));
    assert!(!should_visit_video(true, true, true, false));
    assert!(!should_visit_video(false, false, false, true));
    assert!(should_visit_video(false, true, false, true));
    assert!(should_visit_video(false, false, true, true));
}

#[test]
fn video_stream_decision() {
    assert_eq!(stream_action(false, true, true), StreamAction::CompareSize);
    assert_eq!(stream_action(true, true, true), StreamAction::Download);
    assert_eq!(stream_action(false, true, false), StreamAction::Download);
    assert_eq!(stream_action(false, false, true), StreamAction::Download);
}

#[test]
fn stream_names_count_from_the_given_index() {
    assert_eq!(stream_file_name(1), "Stream1.mp4");
    assert_eq!(stream_file_name(12), "Stream12.mp4");
}

#[test]
fn weblink_decisions() {
    assert!(is_link_list("https://ilias.studium.kit.edu/goto.php?target=webr_1"));
    assert!(!is_link_list("https://example.org/page"));
    assert!(is_call_link_cmd(&Some("callLink".to_string())));
    assert!(!is_call_link_cmd(&Some("calllink".to_string())));
    assert!(!is_call_link_cmd(&None));
}

#[test]
fn forum_thread_naming_and_skip() {
    assert_eq!(thread_dir_name("123", "Organisatorisches"), "123_Organisatorisches");
    assert!(thread_up_to_date(3, 3, false));
    assert!(thread_up_to_date(2, 3, false));
    assert!(!thread_up_to_date(4, 3, false));
    assert!(!thread_up_to_date(3, 3, true));
}

#[test]
fn post_author_selection() {
    let two = vec!["pseudonym ".to_string(), " date".to_string()];
    assert_eq!(pick_author_index(&two), Some(0));
    let three = vec!["login".to_string(), "Real Name".to_string(), "date".to_string()];
    assert_eq!(pick_author_index(&three), Some(1));
    let pseudo = vec!["shown".to_string(), "Pseudonym".to_string(), "date".to_string()];
    assert_eq!(pick_author_index(&pseudo), Some(0));
    let odd = vec!["only".to_string()];
    assert_eq!(pick_author_index(&odd), None);
}

#[test]
fn exercise_download_commands() {
    assert!(is_exercise_download_cmd("downloadFile"));
    assert!(is_exercise_download_cmd("downloadGlobalFeedbackFile"));
    assert!(is_exercise_download_cmd("downloadFeedbackFile"));
    assert!(!is_exercise_download_cmd("view"));
    assert!(!is_exercise_download_cmd(""));
}

#[test]
fn colliding_file_names_are_numbered() {
    let taken: Vec<String> = vec!["sheet.pdf".to_string(), "sheet2.pdf".to_string()];
    assert_eq!(unique_filename(&taken, "other.pdf").as_deref(), Some("other.pdf"));
    assert_eq!(unique_filename(&taken, "sheet.pdf").as_deref(), Some("sheet3.pdf"));
    let none: Vec<String> = Vec::new();
    assert_eq!(unique_filename(&none, "a.b.c").as_deref(), Some("a.b.c"));
    let dotless: Vec<String> = vec!["readme".to_string()];
    assert_eq!(unique_filename(&dotless, "readme").as_deref(), Some("readme2"));
    let multi: Vec<String> = vec!["a.b.c".to_string()];
    assert_eq!(unique_filename(&multi, "a.b.c").as_deref(), Some("a.b2.c"));
}

#[test]
fn join_only_group_pages_are_recognized() {
    assert!(is_join_only_page(
        "<form><input[name=\"cmd[join]\" value=\"Beitreten\"></form>"
    ));
    assert!(!is_join_only_page("<div>course content</div>"));
}

#[test]
fn expand_links_are_recognized() {
    assert!(has_expand_link(
        "ilias.php?ref_id=1943526&expand=2602906&cmd=view&cmdClass=ilobjfoldergui"
    ));
    assert!(!has_expand_link("ilias.php?ref_id=1943526&cmd=view"));
    assert!(!has_expand_link("ilias.php?expand=&cmd=view"));
    assert!(!has_expand_link("expand="));
}

#[test]
fn video_list_address_embeds_the_ref_id() {
    let url = video_list_url("4711");
    assert_eq!(
        url,
        "https://ilias.studium.kit.edu/ilias.php?ref_id=4711&cmdClass=xocteventgui\
         &cmdNode=nc:n4:14u&baseClass=ilObjPluginDispatchGUI&lang=de&limit=20\
         &cmd=asyncGetTableGUI&cmdMode=asynch"
    );
}

#[test]
fn video_query_rewrite() {
    let pairs = vec![
        ("ref_id".to_string(), "9".to_string()),
        ("cmd".to_string(), "post".to_string()),
        ("cmdClass".to_string(), "xoctplayergui".to_string()),
        ("trows".to_string(), "800".to_string()),
    ];
    let rewritten = rewrite_video_query(&pairs);
    assert_eq!(
        rewritten,
        vec![
            ("ref_id".to_string(), "9".to_string()),
            ("cmd".to_string(), "asyncGetTableGUI".to_string()),
            ("cmdClass".to_string(), "xocteventgui".to_string()),
            ("trows".to_string(), "800".to_string()),
            ("cmdMode".to_string(), "asynch".to_string()),
        ]
    );
}
