//! Finding the external tools: on `PATH` first, then in the extra directories
//! the settings name.
//!
//! There is one resolver, so that where the settings screen says a tool was
//! found and where it is actually run from cannot drift apart.

use vstd::prelude::*;

use crate::paths::{self, joined};
use crate::text;

verus! {

/// The external programs that escrow calls, or that the programs it calls
/// need.
#[derive(Debug, Clone, Copy, PartialEq, Eq, Structural, Hash, PartialOrd, Ord)]
pub enum Tool {
    YtDlp,
    GalleryDl,
    Ffmpeg,
    WhisperCli,
}

/// Where a tool was found, if it was.
#[derive(Debug, Clone, PartialEq, Eq)]
pub enum Resolution {
    Found(String),
    NotFound,
}

/// A resolver that searches a fixed list of directories, in order.
#[derive(Debug, Clone, PartialEq, Eq)]
pub struct Resolver {
    directories: Vec<String>,
}

/// `which::which` on an absolute path: whether this process may run the file
/// there.
///
/// Nothing is claimed of the answer: it depends on the disk and on who runs
/// the process.
#[verifier::external_body]
fn is_executable(path: &str) -> bool {
    which::which(path).is_ok()
}

/// `std::path::Path::is_file`: whether a regular file is there.
///
/// Nothing is claimed of the answer: it depends on the disk.
#[verifier::external_body]
fn is_file(path: &str) -> bool {
    std::path::Path::new(path).is_file()
}

impl Tool {
    /// The name searched for.
    pub open spec fn program_of(self) -> Seq<char> {
        match self {
            Tool::YtDlp => "yt-dlp"@,
            Tool::GalleryDl => "gallery-dl"@,
            Tool::Ffmpeg => "ffmpeg"@,
            Tool::WhisperCli => "whisper-cli"@,
        }
    }

    /// The tool's place in [`Tool::every`].
    pub open spec fn rank(self) -> int {
        match self {
            Tool::YtDlp => 0,
            Tool::GalleryDl => 1,
            Tool::Ffmpeg => 2,
            Tool::WhisperCli => 3,
        }
    }

    pub open spec fn all() -> Seq<Tool> {
        seq![Tool::YtDlp, Tool::GalleryDl, Tool::Ffmpeg, Tool::WhisperCli]
    }

    /// Every tool, in the order the settings screen lists them.
    pub fn every() -> (r: [Tool; 4])
        ensures
            r@ == Self::all(),
    {
        [Tool::YtDlp, Tool::GalleryDl, Tool::Ffmpeg, Tool::WhisperCli]
    }

    /// The name searched for on `PATH`.
    pub fn program(self) -> (r: &'static str)
        ensures
            r@ == self.program_of(),
    {
        match self {
            Tool::YtDlp => "yt-dlp",
            Tool::GalleryDl => "gallery-dl",
            Tool::Ffmpeg => "ffmpeg",
            Tool::WhisperCli => "whisper-cli",
        }
    }
}

impl Resolution {
    /// A file at a fixed place, such as the transcription model: found when a
    /// regular file is there.
    ///
    /// Whether a file is there is the disk's answer; given it,
    /// [`Resolution::of_answer`] says what comes back.
    pub fn of_file(path: &str) -> (r: Resolution)
        ensures
            r matches Resolution::Found(p) ==> p@ == path@,
    {
        Resolution::of_answer(path, is_file(path))
    }

    /// A file at a fixed place, given whether a regular file is there: found
    /// at that very path when one is, not found otherwise.
    pub fn of_answer(path: &str, present: bool) -> (r: Resolution)
        ensures
            present ==> (r matches Resolution::Found(p) && p@ == path@),
            !present ==> r is NotFound,
    {
        if present {
            Resolution::Found(path.to_owned())
        } else {
            Resolution::NotFound
        }
    }

    pub fn path(&self) -> (r: Option<&str>)
        ensures
            match self {
                Resolution::Found(p) => r matches Some(q) && q@ == p@,
                Resolution::NotFound => r is None,
            },
    {
        match self {
            Resolution::Found(p) => Some(p.as_str()),
            Resolution::NotFound => None,
        }
    }

    pub fn is_found(&self) -> (r: bool)
        ensures
            r <==> self is Found,
    {
        match self {
            Resolution::Found(_) => true,
            Resolution::NotFound => false,
        }
    }
}

/// The pieces of a text between the occurrences of `c`, as `split` gives
/// them: an empty text is one empty piece.
pub open spec fn split_on(s: Seq<char>, c: char) -> Seq<Seq<char>>
    decreases s.len(),
{
    if s.len() == 0 {
        seq![Seq::<char>::empty()]
    } else if s.last() == c {
        split_on(s.drop_last(), c).push(Seq::<char>::empty())
    } else {
        let p = split_on(s.drop_last(), c);
        p.update(p.len() - 1, p.last().push(s.last()))
    }
}

proof fn lemma_split_on_len(s: Seq<char>, c: char)
    ensures
        split_on(s, c).len() >= 1,
    decreases s.len(),
{
    if s.len() > 0 {
        lemma_split_on_len(s.drop_last(), c);
    }
}

/// The views of a run of strings.
pub open spec fn texts(v: Seq<String>) -> Seq<Seq<char>> {
    Seq::new(v.len(), |i: int| v[i]@)
}

/// The directories a `PATH` value names, split at `:` as `split_paths` does
/// on Unix.
fn split_path_var(value: &str) -> (r: Vec<String>)
    ensures
        texts(r@) == split_on(value@, ':'),
{
    let s = text::chars_of(value);
    let s = s.as_slice();
    let mut done: Vec<String> = Vec::new();
    let mut current: Vec<char> = Vec::new();
    let mut i: usize = 0;
    assert(s@.take(0) =~= Seq::<char>::empty());
    while i < s.len()
        invariant
            i <= s.len(),
            texts(done@).push(current@) == split_on(s@.take(i as int), ':'),
        decreases s.len() - i,
    {
        let ghost prefix = s@.take(i as int);
        assert(s@.take(i + 1).drop_last() =~= prefix);
        proof {
            lemma_split_on_len(prefix, ':');
        }
        let ghost before = done@;
        let ghost cur = current@;
        if s[i] == ':' {
            done.push(text::string_of(current.as_slice()));
            current = Vec::new();
            assert(texts(done@) =~= texts(before).push(cur));
            assert(texts(done@).push(current@) =~= texts(before).push(cur).push(Seq::<char>::empty()));
        } else {
            current.push(s[i]);
            assert(texts(done@).push(current@) =~= texts(before).push(cur).update(
                texts(before).push(cur).len() - 1,
                cur.push(s@[i as int]),
            ));
        }
        i = i + 1;
    }
    assert(s@.take(s.len() as int) =~= s@);
    let ghost before = done@;
    done.push(text::string_of(current.as_slice()));
    assert(texts(done@) =~= texts(before).push(current@));
    done
}

impl Resolver {
    /// The directories, in the order they are searched.
    pub closed spec fn dirs(self) -> Seq<Seq<char>> {
        texts(self.directories@)
    }

    /// The directories named by a `PATH` value, then the extra ones; no
    /// `PATH` at all adds nothing.
    pub fn new(path_var: Option<&str>, extra_paths: &[String]) -> (r: Resolver)
        ensures
            r.dirs() == (match path_var {
                Some(v) => split_on(v@, ':'),
                None => Seq::<Seq<char>>::empty(),
            }) + texts(extra_paths@),
    {
        let mut directories: Vec<String> = match path_var {
            Some(v) => split_path_var(v),
            None => Vec::new(),
        };
        let ghost start = texts(directories@);
        assert(start.len() == directories@.len());
        assert(start == match path_var {
            Some(v) => split_on(v@, ':'),
            None => Seq::<Seq<char>>::empty(),
        }) by {
            if path_var is None {
                assert(texts(directories@) =~= Seq::<Seq<char>>::empty());
            }
        }
        let mut i: usize = 0;
        while i < extra_paths.len()
            invariant
                i <= extra_paths@.len(),
                directories@.len() == start.len() + i,
                texts(directories@) == start + texts(extra_paths@.take(i as int)),
            decreases extra_paths@.len() - i,
        {
            let ghost before = directories@;
            let d = extra_paths[i].clone();
            assert(d@ == extra_paths@[i as int]@);
            directories.push(d);
            i = i + 1;
            assert(texts(directories@) =~= texts(before).push(d@));
            assert(texts(directories@) =~= start + texts(extra_paths@.take(i as int)));
        }
        assert(extra_paths@.take(extra_paths@.len() as int) =~= extra_paths@);
        Resolver { directories }
    }

    /// The directories searched, for the settings screen to show what
    /// `extra_paths` could add.
    pub fn directories(&self) -> (r: &[String])
        ensures
            texts(r@) == self.dirs(),
    {
        self.directories.as_slice()
    }

    /// Where `tool` would be looked for in the `i`-th directory.
    pub open spec fn candidate(self, tool: Tool, i: int) -> Seq<char> {
        joined(self.dirs()[i], tool.program_of())
    }

    /// Whether a resolution of `tool` is one of its candidates, if found.
    pub open spec fn among_candidates(self, tool: Tool, res: Resolution) -> bool {
        res matches Resolution::Found(p) ==> exists|i: int|
            0 <= i < self.dirs().len() && p@ == #[trigger] self.candidate(tool, i)
    }

    /// Where `tool` is looked for, one candidate per directory, in order.
    pub open spec fn candidates(self, tool: Tool) -> Seq<Seq<char>> {
        Seq::new(self.dirs().len(), |i: int| self.candidate(tool, i))
    }

    /// Whether a resolution of `tool` is the first of its candidates that
    /// runs, for some answer per candidate of whether this process may run
    /// it; not found when none runs.
    pub open spec fn resolves(self, tool: Tool, res: Resolution) -> bool {
        exists|runs: Seq<bool>| runs.len() == self.dirs().len() && #[trigger] picks(
            self.candidates(tool),
            runs,
            res,
        )
    }

    /// The first directory, in search order, in which this process may run
    /// `tool`: a `PATH` entry wins over the extra directories that follow.
    /// Whether a file may be run is the disk's answer; given those answers,
    /// the first candidate that runs is found, and nothing when none does.
    pub fn resolve(&self, tool: Tool) -> (r: Resolution)
        ensures
            self.resolves(tool, r),
            self.among_candidates(tool, r),
            self.dirs().len() == 0 ==> r is NotFound,
    {
        let program = tool.program();
        let mut candidates: Vec<String> = Vec::new();
        let mut runs: Vec<bool> = Vec::new();
        let mut i: usize = 0;
        while i < self.directories.len()
            invariant
                i <= self.directories@.len(),
                program@ == tool.program_of(),
                candidates@.len() == i,
                runs@.len() == i,
                forall|j: int| 0 <= j < i ==> (#[trigger] candidates@[j])@ == self.candidate(tool, j),
            decreases self.directories@.len() - i,
        {
            let candidate = paths::join(self.directories[i].as_str(), program);
            assert(candidate@ == self.candidate(tool, i as int));
            let answer = is_executable(candidate.as_str());
            candidates.push(candidate);
            runs.push(answer);
            i = i + 1;
        }
        assert(texts(candidates@) =~= self.candidates(tool));
        let r = first_runnable(&candidates, &runs);
        proof {
            assert(picks(self.candidates(tool), runs@, r));
            if let Resolution::Found(p) = &r {
                let k = choose|k: int|
                    0 <= k < runs@.len() && runs@[k] && (forall|j: int| 0 <= j < k ==> !runs@[j])
                        && p@ == self.candidates(tool)[k];
                assert(p@ == self.candidate(tool, k));
            }
        }
        r
    }

    /// Every tool with where it was found, in [`Tool::every`]'s order.
    pub fn resolve_all(&self) -> (r: Vec<(Tool, Resolution)>)
        ensures
            r@.len() == 4,
            forall|k: int| 0 <= k < 4 ==> (#[trigger] r@[k]).0 == Tool::all()[k],
            forall|k: int| 0 <= k < 4 ==> self.resolves(r@[k].0, #[trigger] r@[k].1),
            forall|k: int| 0 <= k < 4 ==> self.among_candidates(r@[k].0, #[trigger] r@[k].1),
            self.dirs().len() == 0 ==> forall|k: int| 0 <= k < 4 ==> (#[trigger] r@[k]).1 is NotFound,
    {
        let all = Tool::every();
        let mut r: Vec<(Tool, Resolution)> = Vec::new();
        let mut k: usize = 0;
        while k < 4
            invariant
                k <= 4,
                all@ == Tool::all(),
                r@.len() == k,
                forall|j: int| 0 <= j < k ==> (#[trigger] r@[j]).0 == Tool::all()[j],
                forall|j: int| 0 <= j < k ==> self.resolves(r@[j].0, #[trigger] r@[j].1),
                forall|j: int| 0 <= j < k ==> self.among_candidates(r@[j].0, #[trigger] r@[j].1),
                self.dirs().len() == 0 ==> forall|j: int| 0 <= j < k ==> (#[trigger] r@[j]).1 is NotFound,
            decreases 4 - k,
        {
            let tool = all[k];
            let found = self.resolve(tool);
            let ghost before = r@;
            r.push((tool, found));
            assert(forall|j: int| 0 <= j < k ==> r@[j] == before[j]);
            k = k + 1;
        }
        r
    }

    /// The tools that were not found, in [`Tool::every`]'s order: what must
    /// be installed before acquisition starts. With no directories, every tool.
    pub fn missing(&self) -> (r: Vec<Tool>)
        ensures
            exists|res: Seq<Resolution>|
                {
                    &&& res.len() == 4
                    &&& forall|k: int| 0 <= k < 4 ==> self.resolves(Tool::all()[k], #[trigger] res[k])
                    &&& r@ == not_found(res, 4)
                },
            r@.len() <= 4,
            forall|a: int, b: int| 0 <= a < b < r@.len() ==> (#[trigger] r@[a]).rank() < (
            #[trigger] r@[b]).rank(),
            self.dirs().len() == 0 ==> r@ == Tool::all(),
    {
        let all = Tool::every();
        let mut r: Vec<Tool> = Vec::new();
        let ghost mut res: Seq<Resolution> = Seq::empty();
        let mut k: usize = 0;
        while k < 4
            invariant
                k <= 4,
                all@ == Tool::all(),
                res.len() == k,
                forall|j: int| 0 <= j < k ==> self.resolves(Tool::all()[j], #[trigger] res[j]),
                self.dirs().len() == 0 ==> forall|j: int| 0 <= j < k ==> (#[trigger] res[j]) is NotFound,
                r@ == not_found(res, k as int),
                r@.len() <= k,
                forall|j: int| 0 <= j < r@.len() ==> (#[trigger] r@[j]).rank() < k,
                forall|a: int, b: int| 0 <= a < b < r@.len() ==> (#[trigger] r@[a]).rank() < (
                #[trigger] r@[b]).rank(),
                self.dirs().len() == 0 ==> r@ == Tool::all().take(k as int),
            decreases 4 - k,
        {
            let tool = all[k];
            assert(tool.rank() == k);
            let found = self.resolve(tool);
            let ghost before = r@;
            let ghost res_before = res;
            proof {
                res = res.push(found);
                assert(forall|j: int| 0 <= j < k ==> res[j] == res_before[j]);
                assert(not_found(res, k as int) == not_found(res_before, k as int)) by {
                    lemma_not_found_prefix(res, res_before, k as int);
                }
            }
            if !found.is_found() {
                r.push(tool);
                assert(forall|j: int| 0 <= j < before.len() ==> r@[j] == before[j]);
            }
            k = k + 1;
            proof {
                assert(r@ =~= not_found(res, k as int));
                if self.dirs().len() == 0 {
                    assert(r@ =~= Tool::all().take(k as int));
                }
            }
        }
        assert(Tool::all().take(4) =~= Tool::all());
        r
    }
}

/// Whether `res` is the first candidate that runs, by the answers `runs`:
/// found at the least index whose answer is yes, or not found when every
/// answer is no.
pub open spec fn picks(candidates: Seq<Seq<char>>, runs: Seq<bool>, res: Resolution) -> bool {
    match res {
        Resolution::Found(p) => exists|i: int|
            0 <= i < runs.len() && #[trigger] runs[i] && (forall|j: int| 0 <= j < i ==> !runs[j])
                && p@ == candidates[i],
        Resolution::NotFound => forall|i: int| 0 <= i < runs.len() ==> !#[trigger] runs[i],
    }
}

/// The first candidate that runs, given one answer per candidate of
/// whether it runs; not found when none does.
pub fn first_runnable(candidates: &Vec<String>, runs: &Vec<bool>) -> (r: Resolution)
    requires
        runs@.len() == candidates@.len(),
    ensures
        picks(texts(candidates@), runs@, r),
{
    let mut i: usize = 0;
    while i < runs.len()
        invariant
            i <= runs@.len(),
            runs@.len() == candidates@.len(),
            forall|j: int| 0 <= j < i ==> !runs@[j],
        decreases runs@.len() - i,
    {
        if runs[i] {
            let found = candidates[i].clone();
            assert(texts(candidates@)[i as int] == candidates@[i as int]@);
            return Resolution::Found(found);
        }
        i = i + 1;
    }
    Resolution::NotFound
}

/// The tools among the first `k` whose resolution is not found, in order.
pub open spec fn not_found(res: Seq<Resolution>, k: int) -> Seq<Tool>
    decreases k,
{
    if k <= 0 {
        Seq::empty()
    } else {
        let before = not_found(res, k - 1);
        if res[k - 1] is NotFound {
            before.push(Tool::all()[k - 1])
        } else {
            before
        }
    }
}

proof fn lemma_not_found_prefix(a: Seq<Resolution>, b: Seq<Resolution>, k: int)
    requires
        0 <= k <= a.len(),
        k <= b.len(),
        forall|j: int| 0 <= j < k ==> a[j] == b[j],
    ensures
        not_found(a, k) == not_found(b, k),
    decreases k,
{
    if k > 0 {
        lemma_not_found_prefix(a, b, k - 1);
    }
}

} // verus!
