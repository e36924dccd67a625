//! The decision core of the video handler: whether a video page is visited
//! at all, what happens to each stream target, and how the streams of one
//! lecture are named. Parsing the player metadata and running the encoder
//! live outside the library.

use vstd::prelude::*;

use crate::util::{dec_spec, to_decimal};

verus! {

/// What to do for one stream target.
#[derive(Clone, Copy, Debug, PartialEq, Eq, Structural)]
pub enum StreamAction {
    /// Fetch the stream and write it.
    Download,
    /// Only compare the local size against the advertised one and warn on a
    /// mismatch.
    CompareSize,
}

/// Whether a video page is visited: never when videos are switched off, and
/// not when the target already exists unless a re-download or a re-check is
/// asked for.
pub fn should_visit_video(no_videos: bool, force: bool, check_videos: bool, present: bool) -> (r:
    bool)
    ensures
        r == (!no_videos && (!present || force || check_videos)),
{
    if no_videos {
        false
    } else {
        !present || force || check_videos
    }
}

/// The action for one stream target: an existing file is only re-checked
/// when a re-check is asked for and no re-download is forced; everything
/// else downloads.
pub fn stream_action(force: bool, check_videos: bool, present: bool) -> (r: StreamAction)
    ensures
        r == (if !force && present && check_videos {
            StreamAction::CompareSize
        } else {
            StreamAction::Download
        }),
{
    if !force && present && check_videos {
        StreamAction::CompareSize
    } else {
        StreamAction::Download
    }
}

/// View of [`stream_file_name`].
pub open spec fn stream_file_name_spec(i: nat) -> Seq<char> {
    "Stream"@ + dec_spec(i) + ".mp4"@
}

/// The file name of the `i`-th stream of a lecture (counted from one).
pub fn stream_file_name(i: usize) -> (r: String)
    ensures
        r@ == stream_file_name_spec(i as nat),
{
    let mut s = String::from_str("Stream");
    let num = to_decimal(i);
    s.append(num.as_str());
    s.append(".mp4");
    s
}

} // verus!
