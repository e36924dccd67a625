//! Run configuration and the credential-file format. Interactive credential
//! prompts and the keyring live outside the library; only the plain data and
//! the parsing of the stored login file belong here.

use vstd::prelude::*;

use crate::util::{find_spec, trim_spec, find_char, trim};

verus! {

/// The run configuration, as the command line hands it over.
#[derive(Clone, Debug)]
pub struct Opt {
    /// Do not download files.
    pub skip_files: bool,
    /// Do not download videos.
    pub no_videos: bool,
    /// Download forum content.
    pub forum: bool,
    /// Re-download already present files.
    pub force: bool,
    /// Use the content tree to list courses.
    pub content_tree: bool,
    /// Re-check video lectures against their advertised size.
    pub check_videos: bool,
    /// Combine videos if there is more than one stream.
    pub combine_videos: bool,
    /// Save overview pages of courses and folders.
    pub save_ilias_pages: bool,
    /// Verbose logging level.
    pub verbose: usize,
    /// Output directory.
    pub output: String,
    /// Parallel download jobs.
    pub jobs: usize,
    /// Proxy address, if any.
    pub proxy: Option<String>,
    /// Use the system keyring for credentials.
    pub keyring: bool,
    /// Account username.
    pub username: Option<String>,
    /// Account password.
    pub password: Option<String>,
    /// Page to synchronize instead of the personal desktop.
    pub sync_url: Option<String>,
    /// Requests per minute.
    pub rate: usize,
    /// Attempt to re-use session cookies.
    pub keep_session: bool,
}

/// View of [`parse_login_file`]: the first line is the username, the second
/// the password, both trimmed; a file without a second line has no password
/// and is rejected.
pub open spec fn login_file_spec(s: Seq<char>) -> Option<(Seq<char>, Seq<char>)> {
    match find_spec(s, '\n', 0) {
        None => None,
        Some(i) => {
            let user = trim_spec(s.subrange(0, i));
            let pass = match find_spec(s, '\n', i + 1) {
                None => trim_spec(s.subrange(i + 1, s.len() as int)),
                Some(j) => trim_spec(s.subrange(i + 1, j)),
            };
            Some((user, pass))
        },
    }
}

/// Splits a stored login file into username and password.
pub fn parse_login_file(content: &str) -> (r: Option<(String, String)>)
    ensures
        r is Some <==> login_file_spec(content@) is Some,
        r is Some ==> ({
            let got = r->0;
            (got.0@, got.1@) == login_file_spec(content@)->0
        }),
{
    let len: usize = content.unicode_len();
    match find_char(content, '\n', 0) {
        None => None,
        Some(i) => {
            let user = trim(content.substring_char(0, i)).to_owned();
            let pass_part: &str = match find_char(content, '\n', i + 1) {
                None => content.substring_char(i + 1, len),
                Some(j) => content.substring_char(i + 1, j),
            };
            let pass = trim(pass_part).to_owned();
            Some((user, pass))
        },
    }
}

/// Whether stored session cookies of the given age are still worth trying:
/// a previous session is only useful if it is at most an hour old.
pub fn session_usable(age_secs: u64) -> (r: bool)
    ensures
        r == (age_secs <= 3600),
{
    age_secs <= 3600
}

} // verus!
