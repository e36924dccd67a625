//! The hierarchical ignore matcher: one ignore file per directory level,
//! from the sync target upwards, each holding gitignore-style glob lines.
//! A query walks the recorded levels from the most specific down and the
//! first level that draws a verdict — ignore, or `!` re-include — decides.

use vstd::prelude::*;

use ignore::gitignore::Gitignore;
use ignore::gitignore::GitignoreBuilder;

verus! {

#[verifier::external_type_specification]
#[verifier::external_body]
pub struct ExGitignore(Gitignore);

#[verifier::external_type_specification]
#[verifier::external_body]
pub struct ExGitignoreBuilder(GitignoreBuilder);

/// The glob lines a built matcher holds, in order.
pub uninterp spec fn gitignore_globs(g: Gitignore) -> Seq<Seq<char>>;

/// The glob lines added to a builder so far, in order.
pub uninterp spec fn builder_globs(b: GitignoreBuilder) -> Seq<Seq<char>>;

/// What `GitignoreBuilder::add_line` does to the builder's globs: `None`
/// where the line is rejected as an invalid glob, otherwise the new glob
/// sequence (a comment or blank line adds nothing).
pub uninterp spec fn add_line_globs(globs: Seq<Seq<char>>, line: Seq<char>) -> Option<
    Seq<Seq<char>>,
>;

/// Whether `GitignoreBuilder::build` succeeds on a builder holding these
/// globs.
pub uninterp spec fn build_ok(globs: Seq<Seq<char>>) -> bool;

/// The verdict of a matcher built from these globs on the given relative
/// path (or the nearest of its parent directories that draws one):
/// `Some(true)` to ignore, `Some(false)` to re-include, `None` where no
/// glob decides.
pub uninterp spec fn gitignore_verdict(
    globs: Seq<Seq<char>>,
    path: Seq<char>,
    is_dir: bool,
) -> Option<bool>;

/// Relies on `ignore::gitignore::GitignoreBuilder::new`: a fresh builder
/// holds no globs. The empty root makes every later match purely relative.
#[verifier::external_body]
fn gitignore_builder_new() -> (b: GitignoreBuilder)
    ensures
        builder_globs(b) == Seq::<Seq<char>>::empty(),
{
    GitignoreBuilder::new("")
}

/// Relies on `ignore::gitignore::GitignoreBuilder::add_line`: an invalid
/// glob line is rejected and leaves the builder unchanged; any other line
/// extends the builder's globs; the outcome is a function of the globs
/// held so far and the line alone.
#[verifier::external_body]
fn gitignore_add_line(b: &mut GitignoreBuilder, line: &str) -> (ok: bool)
    ensures
        ok == (add_line_globs(builder_globs(*old(b)), line@) is Some),
        ok ==> builder_globs(*final(b)) == add_line_globs(builder_globs(*old(b)), line@)->0,
        !ok ==> builder_globs(*final(b)) == builder_globs(*old(b)),
{
    b.add_line(None, line).is_ok()
}

/// Relies on `ignore::gitignore::GitignoreBuilder::build`: on success the
/// matcher holds exactly the builder's globs; success is a function of
/// those globs alone.
#[verifier::external_body]
fn gitignore_build(b: &GitignoreBuilder) -> (r: Option<Gitignore>)
    ensures
        (r is Some) == build_ok(builder_globs(*b)),
        r is Some ==> gitignore_globs(r->0) == builder_globs(*b),
{
    b.build().ok()
}

/// Relies on `ignore::gitignore::Gitignore::len`: the number of globs the
/// matcher holds.
#[verifier::external_body]
fn gitignore_len(g: &Gitignore) -> (r: usize)
    ensures
        r == gitignore_globs(*g).len(),
{
    g.len()
}

/// Relies on `ignore::gitignore::Gitignore::matched_path_or_any_parents`:
/// the standard ignore-file verdict on a relative path, where a directory
/// pattern also covers everything beneath that directory; within one file
/// a later glob overrides an earlier one. The call panics on an absolute
/// path, so one is excluded here.
#[verifier::external_body]
fn gitignore_match(g: &Gitignore, path: &str, is_dir: bool) -> (v: Option<bool>)
    requires
        path@.len() > 0 ==> path@[0] != '/',
    ensures
        v == gitignore_verdict(gitignore_globs(*g), path@, is_dir),
{
    match g.matched_path_or_any_parents(path, is_dir) {
        ignore::Match::None => None,
        ignore::Match::Ignore(_) => Some(true),
        ignore::Match::Whitelist(_) => Some(false),
    }
}

/// One recorded level: the matcher built from one ignore file, and the
/// path prefix leading from the directory that held the file down to the
/// sync target (with a trailing separator; empty for the sync target
/// itself).
pub struct IgnoreFile {
    ignore: Gitignore,
    prefix: String,
}

impl View for IgnoreFile {
    type V = (Seq<Seq<char>>, Seq<char>);

    closed spec fn view(&self) -> (Seq<Seq<char>>, Seq<char>) {
        (gitignore_globs(self.ignore), self.prefix@)
    }
}

/// The layered rule set, ordered from most specific (the sync target, empty
/// prefix) to least specific (the outermost ancestor). Loaded once and
/// read-only thereafter.
pub struct IliasIgnore {
    ignores: Vec<IgnoreFile>,
}

/// What the caller hands over for one directory level of the upward walk:
/// the directory's name, and the lines of its ignore file where one was
/// found and readable.
pub struct IgnoreLevel {
    pub name: String,
    pub lines: Option<Vec<String>>,
}

/// Mathematical view of an [`IgnoreLevel`].
pub struct LevelV {
    pub name: Seq<char>,
    pub lines: Option<Seq<Seq<char>>>,
}

impl View for IgnoreLevel {
    type V = LevelV;

    open spec fn view(&self) -> LevelV {
        LevelV {
            name: self.name@,
            lines: match self.lines {
                Some(ref v) => Some(v.deep_view()),
                None => None,
            },
        }
    }
}

/// The views of a level sequence.
pub open spec fn levels_view(levels: Seq<IgnoreLevel>) -> Seq<LevelV> {
    Seq::new(levels.len(), |i: int| levels[i]@)
}

/// A usable directory name: nonempty, holding no separator.
pub open spec fn component_ok(name: Seq<char>) -> bool {
    name.len() > 0 && forall|j: int| 0 <= j < name.len() ==> name[j] != '/'
}

/// A prefix that keeps a joined path relative.
pub open spec fn prefix_ok(p: Seq<char>) -> bool {
    p.len() > 0 ==> p[0] != '/'
}

/// The globs that feeding the first `n` lines to a fresh builder leaves it
/// with; `None` as soon as one line is rejected.
pub open spec fn added_globs(lines: Seq<Seq<char>>, n: int) -> Option<Seq<Seq<char>>>
    decreases n,
{
    if n <= 0 {
        Some(Seq::empty())
    } else {
        match added_globs(lines, n - 1) {
            None => None,
            Some(g) => add_line_globs(g, lines[n - 1]),
        }
    }
}

/// The globs of the matcher built from one ignore file's lines; `None`
/// where the file is malformed (a rejected line, or a failing build) and
/// the level therefore contributes no patterns.
pub open spec fn level_globs(lines: Seq<Seq<char>>) -> Option<Seq<Seq<char>>> {
    match added_globs(lines, lines.len() as int) {
        None => None,
        Some(g) => if build_ok(g) {
            Some(g)
        } else {
            None
        },
    }
}

/// The prefix recorded for level `k`: the names of the levels below it,
/// outermost first, each with a trailing separator.
pub open spec fn prefix_at(levels: Seq<LevelV>, k: int) -> Seq<char>
    decreases k,
{
    if k <= 0 {
        Seq::empty()
    } else {
        levels[k - 1].name + "/"@ + prefix_at(levels, k - 1)
    }
}

/// The `(globs, prefix)` pairs recorded after walking the first `k`
/// levels: a level contributes exactly when it has a file, the file is
/// well-formed, and it holds at least one glob.
pub open spec fn files_spec(levels: Seq<LevelV>, k: int) -> Seq<(Seq<Seq<char>>, Seq<char>)>
    decreases k,
{
    if k <= 0 {
        Seq::empty()
    } else {
        let pre = files_spec(levels, k - 1);
        match levels[k - 1].lines {
            None => pre,
            Some(ls) => match level_globs(ls) {
                None => pre,
                Some(g) => if g.len() > 0 {
                    pre.push((g, prefix_at(levels, k - 1)))
                } else {
                    pre
                },
            },
        }
    }
}

/// The indices of the levels whose ignore file turned out malformed within
/// the first `k` levels; each is reported as a warning and contributes no
/// patterns.
pub open spec fn malformed_spec(levels: Seq<LevelV>, k: int) -> Seq<usize>
    decreases k,
{
    if k <= 0 {
        Seq::empty()
    } else {
        let pre = malformed_spec(levels, k - 1);
        match levels[k - 1].lines {
            None => pre,
            Some(ls) => if level_globs(ls) is None {
                pre.push((k - 1) as usize)
            } else {
                pre
            },
        }
    }
}

/// The verdict of the layered rule set: the first recorded level whose
/// matcher decides the full path (prefix plus relative path) wins; where
/// none decides, the path is not ignored.
pub open spec fn layered_verdict(
    files: Seq<(Seq<Seq<char>>, Seq<char>)>,
    path: Seq<char>,
    is_dir: bool,
) -> bool
    decreases files.len(),
{
    if files.len() == 0 {
        false
    } else {
        match gitignore_verdict(files[0].0, files[0].1 + path, is_dir) {
            Some(v) => v,
            None => layered_verdict(files.drop_first(), path, is_dir),
        }
    }
}

/// View of [`IliasIgnore::should_ignore`]: the sync target itself (the
/// empty relative path) is never matched; any other path gets the layered
/// verdict.
pub open spec fn should_ignore_spec(
    files: Seq<(Seq<Seq<char>>, Seq<char>)>,
    path: Seq<char>,
    is_dir: bool,
) -> bool {
    path.len() > 0 && layered_verdict(files, path, is_dir)
}

/// Law: the most specific level that draws a verdict decides, whatever the
/// less specific levels would say — the layered walk short-circuits on the
/// first explicit ignore or re-include.
pub proof fn lemma_first_verdict_wins(
    files: Seq<(Seq<Seq<char>>, Seq<char>)>,
    path: Seq<char>,
    is_dir: bool,
)
    requires
        files.len() > 0,
        path.len() > 0,
        gitignore_verdict(files[0].0, files[0].1 + path, is_dir) is Some,
    ensures
        should_ignore_spec(files, path, is_dir) == gitignore_verdict(
            files[0].0,
            files[0].1 + path,
            is_dir,
        )->0,
{
}

proof fn lemma_added_none_persists(lines: Seq<Seq<char>>, j: int, m: int)
    requires
        0 <= j <= m,
        added_globs(lines, j) is None,
    ensures
        added_globs(lines, m) is None,
    decreases m - j,
{
    if m > j {
        lemma_added_none_persists(lines, j, m - 1);
    }
}

impl View for IliasIgnore {
    type V = Seq<(Seq<Seq<char>>, Seq<char>)>;

    closed spec fn view(&self) -> Seq<(Seq<Seq<char>>, Seq<char>)> {
        Seq::new(self.ignores@.len(), |i: int| self.ignores@[i]@)
    }
}

impl IliasIgnore {
    /// Well-formedness: every recorded prefix keeps a joined path relative.
    pub open spec fn wf(&self) -> bool {
        forall|i: int| 0 <= i < self@.len() ==> prefix_ok(#[trigger] self@[i].1)
    }

    /// Builds the layered rule set from the levels of the upward walk,
    /// most specific (the sync target itself) first. A level whose file is
    /// malformed contributes no patterns; its index comes back alongside so
    /// the caller can warn about it. The last level is the walk's boundary
    /// (a filesystem root, say): its file still counts, but its name goes
    /// into no prefix and need not be a path component.
    pub fn load(levels: &Vec<IgnoreLevel>) -> (r: (IliasIgnore, Vec<usize>))
        requires
            forall|i: int|
                0 <= i < levels@.len() - 1 ==> component_ok(#[trigger] levels@[i]@.name),
        ensures
            r.0.wf(),
            r.0@ == files_spec(levels_view(levels@), levels@.len() as int),
            r.1@ == malformed_spec(levels_view(levels@), levels@.len() as int),
    {
        let ghost lv = levels_view(levels@);
        let mut ignores: Vec<IgnoreFile> = Vec::new();
        let mut malformed: Vec<usize> = Vec::new();
        let mut prefix: String = String::new();
        let mut k: usize = 0;
        let n: usize = levels.len();
        while k < n
            invariant
                n == levels@.len(),
                lv == levels_view(levels@),
                k <= n,
                forall|i: int|
                    0 <= i < levels@.len() - 1 ==> component_ok(#[trigger] levels@[i]@.name),
                k < n ==> prefix@ == prefix_at(lv, k as int),
                prefix_ok(prefix@),
                Seq::new(ignores@.len(), |i: int| ignores@[i]@) == files_spec(lv, k as int),
                forall|i: int|
                    0 <= i < ignores@.len() ==> prefix_ok(#[trigger] ignores@[i]@.1),
                malformed@ == malformed_spec(lv, k as int),
            decreases n - k,
        {
            let level: &IgnoreLevel = &levels[k];
            proof {
                assert(lv[k as int] == level@);
            }
            match &level.lines {
                None => {},
                Some(lines) => {
                    let ghost linesv = lines.deep_view();
                    let mut b = gitignore_builder_new();
                    let mut ok: bool = true;
                    let mut j: usize = 0;
                    let m: usize = lines.len();
                    while ok && j < m
                        invariant
                            m == lines@.len(),
                            linesv == lines.deep_view(),
                            j <= m,
                            ok ==> added_globs(linesv, j as int) == Some(builder_globs(b)),
                            !ok ==> added_globs(linesv, m as int) is None,
                        decreases m - j,
                    {
                        let line: &String = &lines[j];
                        proof {
                            assert(linesv[j as int] == line@);
                        }
                        let added = gitignore_add_line(&mut b, line.as_str());
                        if !added {
                            proof {
                                lemma_added_none_persists(linesv, j + 1, m as int);
                            }
                            ok = false;
                        }
                        j = j + 1;
                    }
                    if ok {
                        match gitignore_build(&b) {
                            Some(g) => {
                                if gitignore_len(&g) > 0 {
                                    let file = IgnoreFile { ignore: g, prefix: prefix.clone() };
                                    ignores.push(file);
                                    proof {
                                        assert(Seq::new(ignores@.len(), |i: int| ignores@[i]@)
                                            =~= files_spec(lv, k as int).push(
                                            (builder_globs(b), prefix@),
                                        ));
                                    }
                                }
                            },
                            None => {
                                malformed.push(k);
                            },
                        }
                    } else {
                        malformed.push(k);
                    }
                },
            }
            if k + 1 < n {
                let mut np: String = level.name.clone();
                np.append("/");
                np.append(prefix.as_str());
                proof {
                    assert(level@.name.len() > 0 && level@.name[0] != '/');
                }
                prefix = np;
            }
            k = k + 1;
            proof {
                assert(Seq::new(ignores@.len(), |i: int| ignores@[i]@) =~= files_spec(
                    lv,
                    k as int,
                ));
                assert(malformed@ =~= malformed_spec(lv, k as int));
            }
        }
        (IliasIgnore { ignores }, malformed)
    }

    /// Whether the path, relative to the sync target, is out of scope. The
    /// recorded levels are consulted in order, most specific first, and the
    /// first verdict — ignore, or `!` re-include — short-circuits; the sync
    /// target itself is never matched.
    pub fn should_ignore(&self, path: &str, is_dir: bool) -> (r: bool)
        requires
            self.wf(),
            path@.len() > 0 ==> path@[0] != '/',
        ensures
            r == should_ignore_spec(self@, path@, is_dir),
    {
        if path.is_empty() {
            return false;
        }
        let n: usize = self.ignores.len();
        let mut i: usize = 0;
        proof {
            assert(self@.skip(0) =~= self@);
        }
        while i < n
            invariant
                self.wf(),
                path@.len() > 0,
                path@[0] != '/',
                n == self.ignores@.len(),
                n == self@.len(),
                i <= n,
                layered_verdict(self@, path@, is_dir) == layered_verdict(
                    self@.skip(i as int),
                    path@,
                    is_dir,
                ),
            decreases n - i,
        {
            let file: &IgnoreFile = &self.ignores[i];
            proof {
                assert(self@[i as int] == file@);
                assert(self@.skip(i as int)[0] == self@[i as int]);
            }
            let mut full: String = file.prefix.clone();
            full.append(path);
            proof {
                assert(prefix_ok(self@[i as int].1));
            }
            match gitignore_match(&file.ignore, full.as_str(), is_dir) {
                Some(v) => {
                    return v;
                },
                None => {},
            }
            proof {
                assert(self@.skip(i as int).drop_first() =~= self@.skip(i + 1));
            }
            i = i + 1;
        }
        false
    }

    /// How many levels were recorded.
    pub fn len(&self) -> (r: usize)
        ensures
            r == self@.len(),
    {
        self.ignores.len()
    }
}

} // verus!
