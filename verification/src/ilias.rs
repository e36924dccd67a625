//! Locators and resources: the parsed form of a discovered hyperlink, and
//! the classifier that turns a locator (plus an optional file-metadata hint)
//! into a typed, addressable resource.

pub mod course;
pub mod exercise;
pub mod file;
pub mod folder;
pub mod forum;
pub mod plugin_dispatch;
pub mod thread;
pub mod video;
pub mod weblink;

use vstd::prelude::*;

use crate::base_url_spec;
use crate::base_url;
use crate::errors::Error;
use crate::util::{find_spec, lower, lower_char, trim_spec, find_char, starts_with, ends_with,
    str_eq, eq_lower, trim, contains_seq, contains_str};

verus! {

broadcast use vstd::string::group_string_axioms;

/// The parsed form of a discovered hyperlink: the full address and the
/// recognized query parameters. `ref_id` defaults to the empty string, the
/// optional parameters to absent; unrecognized parameters are dropped.
#[allow(non_snake_case)]
#[derive(Clone, Debug, PartialEq)]
pub struct URL {
    pub url: String,
    baseClass: String,
    cmdClass: Option<String>,
    cmdNode: Option<String>,
    pub cmd: Option<String>,
    forwardCmd: Option<String>,
    pub thr_pk: Option<String>,
    pos_pk: Option<String>,
    pub ref_id: String,
    target: Option<String>,
    file: Option<String>,
}

/// Mathematical view of a [`URL`].
pub struct LocV {
    pub url: Seq<char>,
    pub base_class: Seq<char>,
    pub cmd_class: Option<Seq<char>>,
    pub cmd_node: Option<Seq<char>>,
    pub cmd: Option<Seq<char>>,
    pub forward_cmd: Option<Seq<char>>,
    pub thr_pk: Option<Seq<char>>,
    pub pos_pk: Option<Seq<char>>,
    pub ref_id: Seq<char>,
    pub target: Option<Seq<char>>,
    pub file: Option<Seq<char>>,
}

impl View for URL {
    type V = LocV;

    closed spec fn view(&self) -> LocV {
        LocV {
            url: self.url@,
            base_class: self.baseClass@,
            cmd_class: self.cmdClass.deep_view(),
            cmd_node: self.cmdNode.deep_view(),
            cmd: self.cmd.deep_view(),
            forward_cmd: self.forwardCmd.deep_view(),
            thr_pk: self.thr_pk.deep_view(),
            pos_pk: self.pos_pk.deep_view(),
            ref_id: self.ref_id@,
            target: self.target.deep_view(),
            file: self.file.deep_view(),
        }
    }
}

/// A locator whose address is `raw` and whose parameters are all absent.
pub open spec fn empty_locator(raw: Seq<char>) -> LocV {
    LocV {
        url: raw,
        base_class: Seq::empty(),
        cmd_class: None,
        cmd_node: None,
        cmd: None,
        forward_cmd: None,
        thr_pk: None,
        pos_pk: None,
        ref_id: Seq::empty(),
        target: None,
        file: None,
    }
}

/// One query parameter applied to a locator: a recognized key overwrites
/// the corresponding field, every other key is dropped.
pub open spec fn apply_param(l: LocV, k: Seq<char>, v: Seq<char>) -> LocV {
    if k == "baseClass"@ {
        LocV { base_class: v, ..l }
    } else if k == "cmdClass"@ {
        LocV { cmd_class: Some(v), ..l }
    } else if k == "cmdNode"@ {
        LocV { cmd_node: Some(v), ..l }
    } else if k == "cmd"@ {
        LocV { cmd: Some(v), ..l }
    } else if k == "forwardCmd"@ {
        LocV { forward_cmd: Some(v), ..l }
    } else if k == "thr_pk"@ {
        LocV { thr_pk: Some(v), ..l }
    } else if k == "pos_pk"@ {
        LocV { pos_pk: Some(v), ..l }
    } else if k == "ref_id"@ {
        LocV { ref_id: v, ..l }
    } else if k == "target"@ {
        LocV { target: Some(v), ..l }
    } else if k == "file"@ {
        LocV { file: Some(v), ..l }
    } else {
        l
    }
}

/// The first `n` query parameters applied in order, so that the last
/// occurrence of a key wins.
pub open spec fn scan_params(l: LocV, pairs: Seq<(Seq<char>, Seq<char>)>, n: int) -> LocV
    decreases n,
{
    if n <= 0 {
        l
    } else {
        let prev = scan_params(l, pairs, n - 1);
        apply_param(prev, pairs[n - 1].0, pairs[n - 1].1)
    }
}

/// What `url::Url::parse` yields on the given input: `None` where parsing
/// fails, otherwise the serialized absolute address together with the
/// decoded query pairs in order.
pub uninterp spec fn url_parse(href: Seq<char>) -> Option<(Seq<char>, Seq<(Seq<char>, Seq<char>)>)>;

/// Relies on `url::Url::parse` and `url::Url::query_pairs` (url crate):
/// the outcome is a function of the input string alone; on success the
/// URL's serialization and its decoded query pairs come back as plain
/// values, in order.
#[verifier::external_body]
fn parse_absolute_url(href: &str) -> (r: Option<(String, Vec<(String, String)>)>)
    ensures
        (r is Some) == (url_parse(href@) is Some),
        r is Some ==> ({
            let got = r->0;
            let parsed = url_parse(href@)->0;
            got.0@ == parsed.0 && got.1.deep_view() == parsed.1
        }),
{
    match url::Url::parse(href) {
        Ok(u) => {
            let pairs: Vec<(String, String)> = u
                .query_pairs()
                .map(|(k, v)| (k.into_owned(), v.into_owned()))
                .collect();
            Some((String::from(u), pairs))
        },
        Err(_) => None,
    }
}

/// A hyperlink that does not already start with the site base address is
/// resolved as relative to it.
pub open spec fn resolved_href(href: Seq<char>) -> Seq<char> {
    if base_url_spec().is_prefix_of(href) {
        href
    } else {
        base_url_spec() + href
    }
}

/// View of [`URL::from_href`]: the resolved address must parse as an
/// absolute URL, whose recognized query parameters populate the locator.
pub open spec fn from_href_spec(href: Seq<char>) -> Result<LocV, Error> {
    match url_parse(resolved_href(href)) {
        None => Err(Error::InvalidLocator),
        Some(parsed) => Ok(scan_params(empty_locator(parsed.0), parsed.1, parsed.1.len() as int)),
    }
}

impl URL {
    /// A locator addressed directly by a raw string, with no query parsing:
    /// all optional fields are absent.
    pub fn raw(url: String) -> (r: Self)
        ensures
            r@ == empty_locator(url@),
    {
        URL {
            url,
            baseClass: String::new(),
            cmdClass: None,
            cmdNode: None,
            cmd: None,
            forwardCmd: None,
            thr_pk: None,
            pos_pk: None,
            ref_id: String::new(),
            target: None,
            file: None,
        }
    }

    /// Parses a discovered hyperlink, absolute or site-relative, into a
    /// locator. Fails with [`Error::InvalidLocator`] exactly where the
    /// resolved address is not a syntactically valid absolute URL.
    pub fn from_href(href: &str) -> (r: Result<Self, Error>)
        ensures
            (r is Ok) == (from_href_spec(href@) is Ok),
            r is Ok ==> r->Ok_0@ == from_href_spec(href@)->Ok_0,
            r is Err ==> r->Err_0 == from_href_spec(href@)->Err_0,
    {
        let resolved: String = if !starts_with(href, base_url()) {
            let mut s = String::from_str(base_url());
            s.append(href);
            s
        } else {
            href.to_owned()
        };
        match parse_absolute_url(resolved.as_str()) {
            None => Err(Error::InvalidLocator),
            Some((raw, pairs)) => {
                let ghost init = empty_locator(raw@);
                let ghost pairsv = pairs.deep_view();
                let mut u = URL::raw(raw);
                let n: usize = pairs.len();
                let mut i: usize = 0;
                while i < n
                    invariant
                        n == pairs.len(),
                        pairsv == pairs.deep_view(),
                        i <= n,
                        u@ == scan_params(init, pairsv, i as int),
                    decreases n - i,
                {
                    let pair: &(String, String) = &pairs[i];
                    proof {
                        assert(pairsv[i as int] == (pair.0@, pair.1@));
                    }
                    let k: &str = pair.0.as_str();
                    if str_eq(k, "baseClass") {
                        u.baseClass = pair.1.clone();
                    } else if str_eq(k, "cmdClass") {
                        u.cmdClass = Some(pair.1.clone());
                    } else if str_eq(k, "cmdNode") {
                        u.cmdNode = Some(pair.1.clone());
                    } else if str_eq(k, "cmd") {
                        u.cmd = Some(pair.1.clone());
                    } else if str_eq(k, "forwardCmd") {
                        u.forwardCmd = Some(pair.1.clone());
                    } else if str_eq(k, "thr_pk") {
                        u.thr_pk = Some(pair.1.clone());
                    } else if str_eq(k, "pos_pk") {
                        u.pos_pk = Some(pair.1.clone());
                    } else if str_eq(k, "ref_id") {
                        u.ref_id = pair.1.clone();
                    } else if str_eq(k, "target") {
                        u.target = Some(pair.1.clone());
                    } else if str_eq(k, "file") {
                        u.file = Some(pair.1.clone());
                    }
                    i = i + 1;
                }
                Ok(u)
            },
        }
    }
}

/// The file metadata a caller extracts from the markup around a link: the
/// extension text and the version label text. It is required exactly where
/// a direct file download is classified.
#[derive(Clone, Debug, PartialEq)]
pub struct FileHint {
    pub extension: String,
    pub version: String,
}

/// Mathematical view of a [`FileHint`].
pub struct HintV {
    pub extension: Seq<char>,
    pub version: Seq<char>,
}

impl View for FileHint {
    type V = HintV;

    open spec fn view(&self) -> HintV {
        HintV { extension: self.extension@, version: self.version@ }
    }
}

/// View of an optional hint.
pub open spec fn hint_view(h: Option<FileHint>) -> Option<HintV> {
    match h {
        Some(x) => Some(x@),
        None => None,
    }
}

/// A typed, classified handle to one crawlable or downloadable entity in
/// the remote tree. The variant set is closed; every consumer matches
/// exhaustively.
#[derive(Clone, Debug, PartialEq)]
pub enum Object {
    Course { name: String, url: URL },
    Folder { name: String, url: URL },
    PersonalDesktop { url: URL },
    File { name: String, url: URL },
    Forum { name: String, url: URL },
    Thread { url: URL },
    Wiki { name: String, url: URL },
    ExerciseHandler { name: String, url: URL },
    Weblink { name: String, url: URL },
    Survey { name: String, url: URL },
    Presentation { name: String, url: URL },
    PluginDispatch { name: String, url: URL },
    Video { url: URL },
    Generic { name: String, url: URL },
}

/// Mathematical view of an [`Object`].
pub enum ObjV {
    Course { name: Seq<char>, url: LocV },
    Folder { name: Seq<char>, url: LocV },
    PersonalDesktop { url: LocV },
    File { name: Seq<char>, url: LocV },
    Forum { name: Seq<char>, url: LocV },
    Thread { url: LocV },
    Wiki { name: Seq<char>, url: LocV },
    ExerciseHandler { name: Seq<char>, url: LocV },
    Weblink { name: Seq<char>, url: LocV },
    Survey { name: Seq<char>, url: LocV },
    Presentation { name: Seq<char>, url: LocV },
    PluginDispatch { name: Seq<char>, url: LocV },
    Video { url: LocV },
    Generic { name: Seq<char>, url: LocV },
}

impl View for Object {
    type V = ObjV;

    open spec fn view(&self) -> ObjV {
        match self {
            Object::Course { name, url } => ObjV::Course { name: name@, url: url@ },
            Object::Folder { name, url } => ObjV::Folder { name: name@, url: url@ },
            Object::PersonalDesktop { url } => ObjV::PersonalDesktop { url: url@ },
            Object::File { name, url } => ObjV::File { name: name@, url: url@ },
            Object::Forum { name, url } => ObjV::Forum { name: name@, url: url@ },
            Object::Thread { url } => ObjV::Thread { url: url@ },
            Object::Wiki { name, url } => ObjV::Wiki { name: name@, url: url@ },
            Object::ExerciseHandler { name, url } => ObjV::ExerciseHandler {
                name: name@,
                url: url@,
            },
            Object::Weblink { name, url } => ObjV::Weblink { name: name@, url: url@ },
            Object::Survey { name, url } => ObjV::Survey { name: name@, url: url@ },
            Object::Presentation { name, url } => ObjV::Presentation { name: name@, url: url@ },
            Object::PluginDispatch { name, url } => ObjV::PluginDispatch {
                name: name@,
                url: url@,
            },
            Object::Video { url } => ObjV::Video { url: url@ },
            Object::Generic { name, url } => ObjV::Generic { name: name@, url: url@ },
        }
    }
}

impl ObjV {
    /// The locator the resource carries.
    pub open spec fn url_spec(self) -> LocV {
        match self {
            ObjV::Course { url, .. } => url,
            ObjV::Folder { url, .. } => url,
            ObjV::PersonalDesktop { url } => url,
            ObjV::File { url, .. } => url,
            ObjV::Forum { url, .. } => url,
            ObjV::Thread { url } => url,
            ObjV::Wiki { url, .. } => url,
            ObjV::ExerciseHandler { url, .. } => url,
            ObjV::Weblink { url, .. } => url,
            ObjV::Survey { url, .. } => url,
            ObjV::Presentation { url, .. } => url,
            ObjV::PluginDispatch { url, .. } => url,
            ObjV::Video { url } => url,
            ObjV::Generic { url, .. } => url,
        }
    }

    /// Whether the resource has a display name: the personal desktop has
    /// none, and a thread's is derived from its `thr_pk` parameter.
    pub open spec fn has_name(self) -> bool {
        match self {
            ObjV::PersonalDesktop { .. } => false,
            ObjV::Thread { url } => url.thr_pk is Some,
            _ => true,
        }
    }

    /// The display name. A thread derives its name from `thr_pk`, a video
    /// from its raw address.
    pub open spec fn name_spec(self) -> Seq<char> {
        match self {
            ObjV::Course { name, .. } => name,
            ObjV::Folder { name, .. } => name,
            ObjV::PersonalDesktop { .. } => Seq::empty(),
            ObjV::File { name, .. } => name,
            ObjV::Forum { name, .. } => name,
            ObjV::Thread { url } => url.thr_pk->0,
            ObjV::Wiki { name, .. } => name,
            ObjV::ExerciseHandler { name, .. } => name,
            ObjV::Weblink { name, .. } => name,
            ObjV::Survey { name, .. } => name,
            ObjV::Presentation { name, .. } => name,
            ObjV::PluginDispatch { name, .. } => name,
            ObjV::Video { url } => url.url,
            ObjV::Generic { name, .. } => name,
        }
    }

    /// The string tag of the resource kind, used for logging.
    pub open spec fn kind_spec(self) -> Seq<char> {
        match self {
            ObjV::Course { .. } => "course"@,
            ObjV::Folder { .. } => "folder"@,
            ObjV::PersonalDesktop { .. } => "personal desktop"@,
            ObjV::File { .. } => "file"@,
            ObjV::Forum { .. } => "forum"@,
            ObjV::Thread { .. } => "thread"@,
            ObjV::Wiki { .. } => "wiki"@,
            ObjV::ExerciseHandler { .. } => "exercise handler"@,
            ObjV::Weblink { .. } => "weblink"@,
            ObjV::Survey { .. } => "survey"@,
            ObjV::Presentation { .. } => "presentation"@,
            ObjV::PluginDispatch { .. } => "plugin dispatch"@,
            ObjV::Video { .. } => "video"@,
            ObjV::Generic { .. } => "generic"@,
        }
    }

    /// Whether the resource is a container that may spawn child resources.
    pub open spec fn is_dir_spec(self) -> bool {
        match self {
            ObjV::Course { .. } => true,
            ObjV::Folder { .. } => true,
            ObjV::PersonalDesktop { .. } => true,
            ObjV::Forum { .. } => true,
            ObjV::Thread { .. } => true,
            ObjV::ExerciseHandler { .. } => true,
            ObjV::PluginDispatch { .. } => true,
            _ => false,
        }
    }
}

/// The site's generic redirector endpoint.
pub open spec fn goto_prefix() -> Seq<char> {
    "https://ilias.studium.kit.edu/goto.php"@
}

/// The token of `target` between the first underscore and the next one (or
/// the end): the repository reference id carried by redirector targets.
pub open spec fn ref_id_of_target(t: Seq<char>) -> Seq<char> {
    match find_spec(t, '_', 0) {
        None => Seq::empty(),
        Some(i) => match find_spec(t, '_', i + 1) {
            None => t.subrange(i + 1, t.len() as int),
            Some(j) => t.subrange(i + 1, j),
        },
    }
}

/// How a downloaded file is named: `{name}[_v{version}].{extension}`, where
/// the version suffix is appended only if the hint's version text starts
/// with `Version: `.
pub open spec fn file_name_spec(name: Seq<char>, ext: Seq<char>, version: Seq<char>) -> Seq<char> {
    let base = if "Version: "@.is_prefix_of(version) {
        name + "_v"@ + version.skip("Version: "@.len() as int)
    } else {
        name
    };
    base + "."@ + ext
}

/// The classification table: a pure function of the locator, the display
/// name, and the optional file-metadata hint. Evaluated top to bottom,
/// first match wins; unrecognized shapes fall through to `Generic`.
pub open spec fn classify_spec(url: LocV, name: Seq<char>, hint: Option<HintV>) -> Result<
    ObjV,
    Error,
> {
    if url.thr_pk is Some {
        Ok(ObjV::Thread { url })
    } else if goto_prefix().is_prefix_of(url.url) {
        let target = if url.target is Some {
            url.target->0
        } else {
            "NONE"@
        };
        if "wiki_"@.is_prefix_of(target) {
            Ok(ObjV::Wiki { name, url })
        } else if "root_"@.is_prefix_of(target) {
            Ok(ObjV::Generic { name, url })
        } else if "crs_"@.is_prefix_of(target) {
            Ok(ObjV::Course { name, url: (LocV { ref_id: ref_id_of_target(target), ..url }) })
        } else if "frm_"@.is_prefix_of(target) {
            Ok(ObjV::Forum { name, url: (LocV { ref_id: ref_id_of_target(target), ..url }) })
        } else if "lm_"@.is_prefix_of(target) {
            Ok(ObjV::Presentation { name, url })
        } else if "fold_"@.is_prefix_of(target) {
            Ok(ObjV::Folder { name, url: (LocV { ref_id: ref_id_of_target(target), ..url }) })
        } else if "file_"@.is_prefix_of(target) {
            if !"download"@.is_suffix_of(target) {
                Ok(ObjV::Generic { name, url })
            } else {
                match hint {
                    None => Err(Error::MissingFileMetadata),
                    Some(h) => Ok(
                        ObjV::File {
                            name: file_name_spec(name, trim_spec(h.extension), trim_spec(h.version)),
                            url,
                        },
                    ),
                }
            }
        } else {
            Ok(ObjV::Generic { name, url })
        }
    } else if url.cmd == Some("showThreads"@) {
        Ok(ObjV::Forum { name, url })
    } else {
        let base = lower(url.base_class);
        if base == "ilexercisehandlergui"@ {
            Ok(ObjV::ExerciseHandler { name, url })
        } else if base == "ililwikihandlergui"@ {
            Ok(ObjV::Wiki { name, url })
        } else if base == "illinkresourcehandlergui"@ {
            Ok(ObjV::Weblink { name, url })
        } else if base == "ilobjsurveygui"@ {
            Ok(ObjV::Survey { name, url })
        } else if base == "illmpresentationgui"@ {
            Ok(ObjV::Presentation { name, url })
        } else if base == "ilrepositorygui"@ {
            if url.cmd == Some("view"@) || url.cmd == Some("render"@) {
                Ok(ObjV::Folder { name, url })
            } else if url.cmd is Some {
                Ok(ObjV::Generic { name, url })
            } else {
                Ok(ObjV::Course { name, url })
            }
        } else if base == "ilobjplugindispatchgui"@ {
            Ok(ObjV::PluginDispatch { name, url })
        } else if base == "ilpersonaldesktopgui"@ {
            Ok(ObjV::PersonalDesktop { url })
        } else {
            Ok(ObjV::Generic { name, url })
        }
    }
}

/// Extracts the repository reference id from a redirector target.
fn extract_ref_id(target: &str) -> (r: String)
    ensures
        r@ == ref_id_of_target(target@),
{
    match find_char(target, '_', 0) {
        None => String::new(),
        Some(i) => {
            let len: usize = target.unicode_len();
            match find_char(target, '_', i + 1) {
                None => target.substring_char(i + 1, len).to_owned(),
                Some(j) => target.substring_char(i + 1, j).to_owned(),
            }
        },
    }
}

impl Object {
    /// The display name of the resource.
    pub fn name(&self) -> (r: &str)
        requires
            self@.has_name(),
        ensures
            r@ == self@.name_spec(),
    {
        match self {
            Object::Course { name, .. } => name.as_str(),
            Object::Folder { name, .. } => name.as_str(),
            Object::File { name, .. } => name.as_str(),
            Object::Forum { name, .. } => name.as_str(),
            Object::Wiki { name, .. } => name.as_str(),
            Object::ExerciseHandler { name, .. } => name.as_str(),
            Object::Weblink { name, .. } => name.as_str(),
            Object::Survey { name, .. } => name.as_str(),
            Object::Presentation { name, .. } => name.as_str(),
            Object::PluginDispatch { name, .. } => name.as_str(),
            Object::Generic { name, .. } => name.as_str(),
            Object::Thread { url } => url.thr_pk.as_ref().unwrap().as_str(),
            Object::Video { url } => url.url.as_str(),
            Object::PersonalDesktop { .. } => vstd::pervasive::unreached(),
        }
    }

    /// The locator the resource carries.
    pub fn url(&self) -> (r: &URL)
        ensures
            r@ == self@.url_spec(),
    {
        match self {
            Object::Course { url, .. } => url,
            Object::Folder { url, .. } => url,
            Object::PersonalDesktop { url } => url,
            Object::File { url, .. } => url,
            Object::Forum { url, .. } => url,
            Object::Thread { url } => url,
            Object::Wiki { url, .. } => url,
            Object::ExerciseHandler { url, .. } => url,
            Object::Weblink { url, .. } => url,
            Object::Survey { url, .. } => url,
            Object::Presentation { url, .. } => url,
            Object::PluginDispatch { url, .. } => url,
            Object::Video { url } => url,
            Object::Generic { url, .. } => url,
        }
    }

    /// The string tag of the resource kind, used for logging.
    pub fn kind(&self) -> (r: &'static str)
        ensures
            r@ == self@.kind_spec(),
    {
        match self {
            Object::Course { .. } => "course",
            Object::Folder { .. } => "folder",
            Object::PersonalDesktop { .. } => "personal desktop",
            Object::File { .. } => "file",
            Object::Forum { .. } => "forum",
            Object::Thread { .. } => "thread",
            Object::Wiki { .. } => "wiki",
            Object::ExerciseHandler { .. } => "exercise handler",
            Object::Weblink { .. } => "weblink",
            Object::Survey { .. } => "survey",
            Object::Presentation { .. } => "presentation",
            Object::PluginDispatch { .. } => "plugin dispatch",
            Object::Video { .. } => "video",
            Object::Generic { .. } => "generic",
        }
    }

    /// Whether the resource is a container that may spawn child resources.
    pub fn is_dir(&self) -> (r: bool)
        ensures
            r == self@.is_dir_spec(),
    {
        matches!(
            self,
            Object::Course { .. }
            | Object::Folder { .. }
            | Object::PersonalDesktop { .. }
            | Object::Forum { .. }
            | Object::Thread { .. }
            | Object::ExerciseHandler { .. }
            | Object::PluginDispatch { .. }
        )
    }

    /// Classifies a locator (with its display name, and the file-metadata
    /// hint where the surrounding markup offered one) into a typed
    /// resource, following the classification table exactly.
    pub fn from_url(url: URL, name: String, item: Option<FileHint>) -> (r: Result<Object, Error>)
        ensures
            (r is Ok) == (classify_spec(url@, name@, hint_view(item)) is Ok),
            r is Ok ==> r->Ok_0@ == classify_spec(url@, name@, hint_view(item))->Ok_0,
            r is Err ==> r->Err_0 == classify_spec(url@, name@, hint_view(item))->Err_0,
    {
        let mut url = url;
        if url.thr_pk.is_some() {
            return Ok(Object::Thread { url });
        }
        if starts_with(url.url.as_str(), "https://ilias.studium.kit.edu/goto.php") {
            let target: &str = match &url.target {
                Some(t) => t.as_str(),
                None => "NONE",
            };
            if starts_with(target, "wiki_") {
                return Ok(Object::Wiki { name, url });
            }
            if starts_with(target, "root_") {
                return Ok(Object::Generic { name, url });
            }
            if starts_with(target, "crs_") {
                let rid = extract_ref_id(target);
                url.ref_id = rid;
                return Ok(Object::Course { name, url });
            }
            if starts_with(target, "frm_") {
                let rid = extract_ref_id(target);
                url.ref_id = rid;
                return Ok(Object::Forum { name, url });
            }
            if starts_with(target, "lm_") {
                return Ok(Object::Presentation { name, url });
            }
            if starts_with(target, "fold_") {
                let rid = extract_ref_id(target);
                url.ref_id = rid;
                return Ok(Object::Folder { name, url });
            }
            if starts_with(target, "file_") {
                if !ends_with(target, "download") {
                    return Ok(Object::Generic { name, url });
                }
                match item {
                    None => {
                        return Err(Error::MissingFileMetadata);
                    },
                    Some(h) => {
                        let ext: &str = trim(h.extension.as_str());
                        let vers: &str = trim(h.version.as_str());
                        let mut fname = name;
                        if starts_with(vers, "Version: ") {
                            fname.append("_v");
                            let plen: usize = "Version: ".unicode_len();
                            let vlen: usize = vers.unicode_len();
                            fname.append(vers.substring_char(plen, vlen));
                        }
                        fname.append(".");
                        fname.append(ext);
                        return Ok(Object::File { name: fname, url });
                    },
                }
            }
            return Ok(Object::Generic { name, url });
        }
        let is_show_threads: bool = match &url.cmd {
            Some(c) => str_eq(c.as_str(), "showThreads"),
            None => false,
        };
        if is_show_threads {
            return Ok(Object::Forum { name, url });
        }
        let bc: &str = url.baseClass.as_str();
        if eq_lower(bc, "ilexercisehandlergui") {
            return Ok(Object::ExerciseHandler { name, url });
        }
        if eq_lower(bc, "ililwikihandlergui") {
            return Ok(Object::Wiki { name, url });
        }
        if eq_lower(bc, "illinkresourcehandlergui") {
            return Ok(Object::Weblink { name, url });
        }
        if eq_lower(bc, "ilobjsurveygui") {
            return Ok(Object::Survey { name, url });
        }
        if eq_lower(bc, "illmpresentationgui") {
            return Ok(Object::Presentation { name, url });
        }
        if eq_lower(bc, "ilrepositorygui") {
            let is_folder_cmd: bool = match &url.cmd {
                Some(c) => str_eq(c.as_str(), "view") || str_eq(c.as_str(), "render"),
                None => false,
            };
            if is_folder_cmd {
                return Ok(Object::Folder { name, url });
            }
            if url.cmd.is_some() {
                return Ok(Object::Generic { name, url });
            }
            return Ok(Object::Course { name, url });
        }
        if eq_lower(bc, "ilobjplugindispatchgui") {
            return Ok(Object::PluginDispatch { name, url });
        }
        if eq_lower(bc, "ilpersonaldesktopgui") {
            return Ok(Object::PersonalDesktop { url });
        }
        Ok(Object::Generic { name, url })
    }
}

/// View of [`complete_url`]: an already absolute address is kept; a bare
/// site host gets the scheme; anything else is resolved against the site
/// base address.
pub open spec fn complete_url_spec(u: Seq<char>) -> Seq<char> {
    if "http://"@.is_prefix_of(u) || "https://"@.is_prefix_of(u) {
        u
    } else if "ilias.studium.kit.edu"@.is_prefix_of(u) {
        "https://"@ + u
    } else {
        base_url_spec() + u
    }
}

/// Completes a possibly relative address into the absolute one a fetch
/// is issued against.
pub fn complete_url(url: &str) -> (r: String)
    ensures
        r@ == complete_url_spec(url@),
{
    if starts_with(url, "http://") || starts_with(url, "https://") {
        url.to_owned()
    } else if starts_with(url, "ilias.studium.kit.edu") {
        let mut s = String::from_str("https://");
        s.append(url);
        s
    } else {
        let mut s = String::from_str(base_url());
        s.append(url);
        s
    }
}

/// View of [`session_expired`]: the query of a response that bounced back
/// to the login flow marks the session as expired.
pub open spec fn session_expired_spec(query: Seq<char>) -> bool {
    contains_seq(query, "reloadpublic=1"@) || contains_seq(query, "cmd=force_login"@)
}

/// Whether a response's query string shows that the session has expired
/// and the fetched page is a login redirect, not content.
pub fn session_expired(query: &str) -> (r: bool)
    ensures
        r == session_expired_spec(query@),
{
    contains_str(query, "reloadpublic=1") || contains_str(query, "cmd=force_login")
}

/// View of [`course_content_tree_url`].
pub open spec fn course_content_tree_url_spec(ref_id: Seq<char>, cmd_node: Seq<char>) -> Seq<
    char,
> {
    base_url_spec() + "ilias.php?ref_id="@ + ref_id
        + "&cmdClass=ilobjcoursegui&cmd=showRepTree&cmdNode="@ + cmd_node
        + "&baseClass=ilRepositoryGUI&cmdMode=asynch&exp_cmd=getNodeAsync&node_id=exp_node_rep_exp_"@
        + ref_id + "&exp_cont=il_expl2_jstree_cont_rep_exp&searchterm="@
}

/// The address under which the site serves the content tree of a course.
pub fn course_content_tree_url(ref_id: &str, cmd_node: &str) -> (r: String)
    ensures
        r@ == course_content_tree_url_spec(ref_id@, cmd_node@),
{
    let mut s = String::from_str(base_url());
    s.append("ilias.php?ref_id=");
    s.append(ref_id);
    s.append("&cmdClass=ilobjcoursegui&cmd=showRepTree&cmdNode=");
    s.append(cmd_node);
    s.append("&baseClass=ilRepositoryGUI&cmdMode=asynch&exp_cmd=getNodeAsync&node_id=exp_node_rep_exp_");
    s.append(ref_id);
    s.append("&exp_cont=il_expl2_jstree_cont_rep_exp&searchterm=");
    s
}

/// Law: a locator with `thr_pk` set classifies as a thread, whatever its
/// other fields say and whatever hint is supplied.
pub proof fn lemma_thread_priority(url: LocV, name: Seq<char>, hint: Option<HintV>)
    requires
        url.thr_pk is Some,
    ensures
        classify_spec(url, name, hint) == Ok::<ObjV, Error>(ObjV::Thread { url }),
{
}

/// Law: a redirector locator whose target is prefixed `file_` but does not
/// end in `download` is a metadata page and classifies as `Generic`, never
/// as `File`.
pub proof fn lemma_file_page_is_generic(url: LocV, name: Seq<char>, hint: Option<HintV>)
    requires
        url.thr_pk is None,
        goto_prefix().is_prefix_of(url.url),
        url.target is Some,
        "file_"@.is_prefix_of(url.target->0),
        !"download"@.is_suffix_of(url.target->0),
    ensures
        classify_spec(url, name, hint) == Ok::<ObjV, Error>(ObjV::Generic { name, url }),
{
    let t = url.target->0;
    reveal_strlit("file_");
    reveal_strlit("wiki_");
    reveal_strlit("root_");
    reveal_strlit("crs_");
    reveal_strlit("frm_");
    reveal_strlit("lm_");
    reveal_strlit("fold_");
    lemma_prefix_char("file_"@, t, 0);
    lemma_prefix_char("file_"@, t, 1);
    assert(t[0] == 'f' && t[1] == 'i');
    if "wiki_"@.is_prefix_of(t) {
        lemma_prefix_char("wiki_"@, t, 0);
    }
    if "root_"@.is_prefix_of(t) {
        lemma_prefix_char("root_"@, t, 0);
    }
    if "crs_"@.is_prefix_of(t) {
        lemma_prefix_char("crs_"@, t, 0);
    }
    if "frm_"@.is_prefix_of(t) {
        lemma_prefix_char("frm_"@, t, 1);
    }
    if "lm_"@.is_prefix_of(t) {
        lemma_prefix_char("lm_"@, t, 0);
    }
    if "fold_"@.is_prefix_of(t) {
        lemma_prefix_char("fold_"@, t, 1);
    }
}

/// A prefix pins down the characters at its positions.
proof fn lemma_prefix_char(p: Seq<char>, t: Seq<char>, i: int)
    requires
        p.is_prefix_of(t),
        0 <= i < p.len(),
    ensures
        t[i] == p[i],
{
    assert(p =~= t.subrange(0, p.len() as int));
    assert(t.subrange(0, p.len() as int)[i] == t[i]);
}

proof fn lemma_lower_idempotent(s: Seq<char>)
    ensures
        lower(lower(s)) == lower(s),
{
    assert forall|i: int| 0 <= i < s.len() implies lower(lower(s))[i] == lower(s)[i] by {
        let c = s[i];
        if 'A' <= c && c <= 'Z' {
            assert(lower_char(c) == ((c as u32) + 32) as char);
            assert(!('A' <= lower_char(c) && lower_char(c) <= 'Z'));
        }
    }
    assert(lower(lower(s)) =~= lower(s));
}

/// Law: classification is insensitive to the case of `baseClass` — a
/// locator whose `baseClass` is lower-cased classifies to the same kind of
/// resource, with the same name, as the unchanged locator does.
pub proof fn lemma_base_class_case_insensitive(url: LocV, name: Seq<char>, hint: Option<HintV>)
    ensures
        ({
            let a = classify_spec((LocV { base_class: lower(url.base_class), ..url }), name, hint);
            let b = classify_spec(url, name, hint);
            &&& (a is Ok) == (b is Ok)
            &&& (a is Err) ==> a == b
            &&& (a is Ok) ==> a->Ok_0.kind_spec() == b->Ok_0.kind_spec()
            &&& (a is Ok) ==> a->Ok_0.name_spec() == b->Ok_0.name_spec()
            &&& (a is Ok) ==> a->Ok_0.is_dir_spec() == b->Ok_0.is_dir_spec()
        }),
{
    lemma_lower_idempotent(url.base_class);
    let lowered = LocV { base_class: lower(url.base_class), ..url };
    if url.thr_pk is Some {
    } else if goto_prefix().is_prefix_of(url.url) {
    } else if url.cmd == Some("showThreads"@) {
    } else {
        assert(lower(lowered.base_class) == lower(url.base_class));
    }
}

/// Law: the classifier has no hidden state — running it twice on the same
/// locator, name and hint produces structurally identical resources.
pub proof fn lemma_classify_deterministic(
    u1: LocV,
    u2: LocV,
    n1: Seq<char>,
    n2: Seq<char>,
    h1: Option<HintV>,
    h2: Option<HintV>,
)
    requires
        u1 == u2,
        n1 == n2,
        h1 == h2,
    ensures
        classify_spec(u1, n1, h1) == classify_spec(u2, n2, h2),
{
}

} // verus!
