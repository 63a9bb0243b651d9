use vstd::prelude::*;
use vstd::string::StringExecFns;

use crate::text::{chars_of, push_str, string_from, trim, trim_bounds};

verus! {

/// The text after the last `/` of `s` (all of `s` when it has none): what
/// `s.split('/').last()` gives.
pub open spec fn last_segment(s: Seq<char>) -> Seq<char>
    decreases s.len(),
{
    if s.len() == 0 {
        s
    } else if s.last() == '/' {
        Seq::empty()
    } else {
        last_segment(s.drop_last()).push(s.last())
    }
}

/// The file name at the end of a URL.
pub fn archive_name(url: &str) -> (out: String)
    ensures
        out@ == last_segment(url@),
{
    let v = chars_of(url);
    let mut i = v.len();
    assert(v@.take(i as int) == v@);
    assert(v@.subrange(i as int, v@.len() as int) == Seq::<char>::empty());
    assert(last_segment(v@) + Seq::<char>::empty() == last_segment(v@));
    while i > 0 && v[i - 1] != '/'
        invariant
            i <= v.len(),
            v@ == url@,
            last_segment(v@) == last_segment(v@.take(i as int)) + v@.subrange(i as int, v@.len() as int),
        decreases i,
    {
        proof {
            let t = v@.take(i as int);
            assert(t.drop_last() == v@.take(i - 1));
            assert(t.last() == v@[i - 1]);
            assert(v@.subrange(i - 1, v@.len() as int) == seq![v@[i - 1]] + v@.subrange(
                i as int,
                v@.len() as int,
            ));
            assert(last_segment(v@.take(i - 1)).push(v@[i - 1]) + v@.subrange(i as int, v@.len() as int)
                == last_segment(v@.take(i - 1)) + v@.subrange(i - 1, v@.len() as int));
        }
        i -= 1;
    }
    proof {
        assert(v@.take(v@.len() as int) == v@);
        if i > 0 {
            assert(v@.take(i as int).last() == v@[i - 1]);
        }
        assert(last_segment(v@.take(i as int)) == Seq::<char>::empty());
    }
    string_from(&v, i, v.len())
}

/// The model archives, in the order they are fetched.
pub open spec fn archive_count() -> nat {
    3
}

/// The URL of model archive `i`.
pub open spec fn archive_url(i: int) -> Seq<char> {
    if i == 0 {
        "https://github.com/the-database/MangaJaNai/releases/download/1.0.0/MangaJaNai_V1_ModelsOnly.zip"@
    } else if i == 1 {
        "https://github.com/the-database/MangaJaNai/releases/download/3.0.0/IllustrationJaNai_V3denoise.zip"@
    } else {
        "https://github.com/the-database/MangaJaNai/releases/download/3.0.0/IllustrationJaNai_V3detail.zip"@
    }
}

fn archive_url_exec(i: usize) -> (out: String)
    ensures
        out@ == archive_url(i as int),
{
    if i == 0 {
        String::from_str("https://github.com/the-database/MangaJaNai/releases/download/1.0.0/MangaJaNai_V1_ModelsOnly.zip")
    } else if i == 1 {
        String::from_str("https://github.com/the-database/MangaJaNai/releases/download/3.0.0/IllustrationJaNai_V3denoise.zip")
    } else {
        String::from_str("https://github.com/the-database/MangaJaNai/releases/download/3.0.0/IllustrationJaNai_V3detail.zip")
    }
}

/// What the application does next while fetching the model archives.
#[derive(Debug)]
pub enum FetchAction {
    /// Report this line as download progress.
    Emit(String),
    /// Download `url` into the temporary archive, reporting `wget`'s progress under `name`;
    /// reply whether `wget` succeeded.
    Wget { url: String, name: String },
    /// Unpack the temporary archive into the models folder; reply whether `unzip` succeeded.
    Unzip,
    /// Delete the temporary archive.
    RemoveArchive,
    /// All archives are in place.
    Succeed,
    /// Fetching failed with this error.
    Fail(String),
}

pub enum FetchActionModel {
    Emit(Seq<char>),
    Wget { url: Seq<char>, name: Seq<char> },
    Unzip,
    RemoveArchive,
    Succeed,
    Fail(Seq<char>),
}

impl View for FetchAction {
    type V = FetchActionModel;

    open spec fn view(&self) -> FetchActionModel {
        match self {
            FetchAction::Emit(s) => FetchActionModel::Emit(s@),
            FetchAction::Wget { url, name } => FetchActionModel::Wget { url: url@, name: name@ },
            FetchAction::Unzip => FetchActionModel::Unzip,
            FetchAction::RemoveArchive => FetchActionModel::RemoveArchive,
            FetchAction::Succeed => FetchActionModel::Succeed,
            FetchAction::Fail(s) => FetchActionModel::Fail(s@),
        }
    }
}

/// Which action was issued last.
#[derive(PartialEq, Eq, Structural, Clone, Copy, Debug)]
pub enum FetchPhase {
    Start,
    Announced(usize),
    Fetched(usize),
    ExtractAnnounced(usize),
    Unzipped(usize),
    Removed(usize),
    AllDone,
    Succeeded,
    Failed,
}

/// Fetching the model archives one after the other, as a state machine: the application
/// performs each action and answers whether it succeeded.
pub struct ModelFetch {
    phase: FetchPhase,
    error: String,
}

pub struct FetchModel {
    pub phase: FetchPhase,
    pub error: Seq<char>,
}

impl View for ModelFetch {
    type V = FetchModel;

    closed spec fn view(&self) -> FetchModel {
        FetchModel { phase: self.phase, error: self.error@ }
    }
}

/// The indices the phase holds are those of archives.
pub open spec fn fetch_phase_ok(p: FetchPhase) -> bool {
    match p {
        FetchPhase::Announced(i) => i < archive_count(),
        FetchPhase::Fetched(i) => i < archive_count(),
        FetchPhase::ExtractAnnounced(i) => i < archive_count(),
        FetchPhase::Unzipped(i) => i < archive_count(),
        FetchPhase::Removed(i) => i < archive_count(),
        _ => true,
    }
}

/// One step of fetching: given whether the last action succeeded, the next state and action.
pub open spec fn fetch_step(m: FetchModel, ok: bool) -> (FetchModel, FetchActionModel) {
    let to = |p: FetchPhase| FetchModel { phase: p, ..m };
    match m.phase {
        FetchPhase::Start => (
            to(FetchPhase::Announced(0)),
            FetchActionModel::Emit("Downloading "@ + last_segment(archive_url(0)) + "..."@),
        ),
        FetchPhase::Announced(i) => (
            to(FetchPhase::Fetched(i)),
            FetchActionModel::Wget { url: archive_url(i as int), name: last_segment(archive_url(i as int)) },
        ),
        FetchPhase::Fetched(i) => if ok {
            (
                to(FetchPhase::ExtractAnnounced(i)),
                FetchActionModel::Emit("Extracting "@ + last_segment(archive_url(i as int)) + "..."@),
            )
        } else {
            let e = "wget failed to download "@ + archive_url(i as int);
            (FetchModel { phase: FetchPhase::Failed, error: e }, FetchActionModel::Fail(e))
        },
        FetchPhase::ExtractAnnounced(i) => (to(FetchPhase::Unzipped(i)), FetchActionModel::Unzip),
        FetchPhase::Unzipped(i) => if ok {
            (to(FetchPhase::Removed(i)), FetchActionModel::RemoveArchive)
        } else {
            let e = "unzip failed to extract models"@;
            (FetchModel { phase: FetchPhase::Failed, error: e }, FetchActionModel::Fail(e))
        },
        FetchPhase::Removed(i) => if i + 1 < archive_count() {
            (
                to(FetchPhase::Announced((i + 1) as usize)),
                FetchActionModel::Emit("Downloading "@ + last_segment(archive_url(i + 1)) + "..."@),
            )
        } else {
            (to(FetchPhase::AllDone), FetchActionModel::Emit("Download complete!"@))
        },
        FetchPhase::AllDone => (to(FetchPhase::Succeeded), FetchActionModel::Succeed),
        FetchPhase::Succeeded => (m, FetchActionModel::Succeed),
        FetchPhase::Failed => (m, FetchActionModel::Fail(m.error)),
    }
}

impl ModelFetch {
    /// Nothing fetched yet.
    pub fn new() -> (f: ModelFetch)
        ensures
            f@.phase == FetchPhase::Start,
            f@.error.len() == 0,
            f.well_formed(),
    {
        ModelFetch { phase: FetchPhase::Start, error: String::new() }
    }

    pub open spec fn well_formed(&self) -> bool {
        fetch_phase_ok(self@.phase)
    }

    fn announce(i: usize) -> (a: FetchAction)
        requires
            i < archive_count(),
        ensures
            a@ == FetchActionModel::Emit("Downloading "@ + last_segment(archive_url(i as int)) + "..."@),
    {
        let url = archive_url_exec(i);
        let mut line = String::from_str("Downloading ");
        let name = archive_name(url.as_str());
        push_str(&mut line, name.as_str());
        push_str(&mut line, "...");
        FetchAction::Emit(line)
    }

    /// Takes whether the last action succeeded (anything, for the first call) and returns
    /// the next action.
    pub fn advance(&mut self, ok: bool) -> (a: FetchAction)
        requires
            old(self).well_formed(),
        ensures
            final(self).well_formed(),
            (final(self)@, a@) == fetch_step(old(self)@, ok),
    {
        match self.phase {
            FetchPhase::Start => {
                self.phase = FetchPhase::Announced(0);
                Self::announce(0)
            },
            FetchPhase::Announced(i) => {
                self.phase = FetchPhase::Fetched(i);
                let url = archive_url_exec(i);
                let name = archive_name(url.as_str());
                FetchAction::Wget { url, name }
            },
            FetchPhase::Fetched(i) => {
                if ok {
                    self.phase = FetchPhase::ExtractAnnounced(i);
                    let url = archive_url_exec(i);
                    let name = archive_name(url.as_str());
                    let mut line = String::from_str("Extracting ");
                    push_str(&mut line, name.as_str());
                    push_str(&mut line, "...");
                    FetchAction::Emit(line)
                } else {
                    self.phase = FetchPhase::Failed;
                    let url = archive_url_exec(i);
                    let mut e = String::from_str("wget failed to download ");
                    push_str(&mut e, url.as_str());
                    self.error = e.clone();
                    FetchAction::Fail(e)
                }
            },
            FetchPhase::ExtractAnnounced(i) => {
                self.phase = FetchPhase::Unzipped(i);
                FetchAction::Unzip
            },
            FetchPhase::Unzipped(i) => {
                if ok {
                    self.phase = FetchPhase::Removed(i);
                    FetchAction::RemoveArchive
                } else {
                    self.phase = FetchPhase::Failed;
                    let e = String::from_str("unzip failed to extract models");
                    self.error = e.clone();
                    FetchAction::Fail(e)
                }
            },
            FetchPhase::Removed(i) => {
                if i + 1 < 3 {
                    self.phase = FetchPhase::Announced(i + 1);
                    Self::announce(i + 1)
                } else {
                    self.phase = FetchPhase::AllDone;
                    FetchAction::Emit(String::from_str("Download complete!"))
                }
            },
            FetchPhase::AllDone => {
                self.phase = FetchPhase::Succeeded;
                FetchAction::Succeed
            },
            FetchPhase::Succeeded => FetchAction::Succeed,
            FetchPhase::Failed => FetchAction::Fail(self.error.clone()),
        }
    }
}

/// The progress line for a line that `wget` wrote while fetching `name`; blank lines are
/// not reported.
pub fn wget_progress_line(name: &str, line: &str) -> (out: Option<String>)
    ensures
        trim(line@).len() == 0 ==> out is None,
        trim(line@).len() > 0 ==> (out matches Some(s) && s@ == "["@ + name@ + "] "@ + trim(line@)),
{
    let v = chars_of(line);
    let (a, b) = trim_bounds(&v, 0, v.len());
    assert(v@.subrange(0, v@.len() as int) == v@);
    if a == b {
        None
    } else {
        let mut out = String::from_str("[");
        push_str(&mut out, name);
        push_str(&mut out, "] ");
        let t = string_from(&v, a, b);
        push_str(&mut out, t.as_str());
        Some(out)
    }
}

/// The progress line for a line that `unzip` printed.
pub fn unzip_progress_line(line: &str) -> (out: String)
    ensures
        out@ == "unzip: "@ + line@,
{
    let mut out = String::from_str("unzip: ");
    push_str(&mut out, line);
    out
}

// ---------------------------------------------------------------------------
// Runs of the fetch, and what they guarantee
// ---------------------------------------------------------------------------

/// The state after answering with `replies`, in order.
pub open spec fn fetch_state_after(m: FetchModel, replies: Seq<bool>) -> FetchModel
    decreases replies.len(),
{
    if replies.len() == 0 {
        m
    } else {
        fetch_step(fetch_state_after(m, replies.drop_last()), replies.last()).0
    }
}

/// The actions issued when answered with `replies`: action `k` is the one returned for
/// `replies[k]`, and `replies[k + 1]` is its outcome.
pub open spec fn fetch_run(m: FetchModel, replies: Seq<bool>) -> Seq<FetchActionModel>
    decreases replies.len(),
{
    if replies.len() == 0 {
        Seq::empty()
    } else {
        fetch_run(m, replies.drop_last()).push(
            fetch_step(fetch_state_after(m, replies.drop_last()), replies.last()).1,
        )
    }
}

proof fn lemma_fetch_run_len(m: FetchModel, r: Seq<bool>)
    ensures
        fetch_run(m, r).len() == r.len(),
    decreases r.len(),
{
    if r.len() > 0 {
        lemma_fetch_run_len(m, r.drop_last());
    }
}

proof fn lemma_fetch_run_index(m: FetchModel, r: Seq<bool>, k: int)
    requires
        0 <= k < r.len(),
    ensures
        fetch_run(m, r)[k] == fetch_step(fetch_state_after(m, r.take(k)), r[k]).1,
    decreases r.len(),
{
    lemma_fetch_run_len(m, r.drop_last());
    if k == r.len() - 1 {
        assert(r.drop_last() == r.take(k));
    } else {
        lemma_fetch_run_index(m, r.drop_last(), k);
        assert(r.drop_last().take(k) == r.take(k));
    }
}

/// Failing steps are `wget` and `unzip`.
pub open spec fn fallible(a: FetchActionModel) -> bool {
    a is Wget || a is Unzip
}

proof fn lemma_fallible_then_waiting(m: FetchModel, ok: bool)
    requires
        fallible(fetch_step(m, ok).1),
    ensures
        fetch_step(m, ok).0.phase is Fetched || fetch_step(m, ok).0.phase is Unzipped,
{
}

proof fn lemma_fetch_failure(m: FetchModel)
    requires
        m.phase is Fetched || m.phase is Unzipped,
    ensures
        fetch_step(m, false).0.phase is Failed,
        !(fetch_step(m, false).1 is Succeed),
{
}

proof fn lemma_failed_stays(m: FetchModel, ok: bool)
    requires
        m.phase is Failed,
    ensures
        fetch_step(m, ok).0.phase is Failed,
        !(fetch_step(m, ok).1 is Succeed),
{
}

proof fn lemma_failed_after(m: FetchModel, r: Seq<bool>, k: int)
    requires
        0 <= k,
        k + 2 <= r.len(),
        fallible(fetch_step(fetch_state_after(m, r.take(k)), r[k]).1),
        !r[k + 1],
    ensures
        fetch_state_after(m, r).phase is Failed,
    decreases r.len(),
{
    if r.len() == k + 2 {
        let before = fetch_state_after(m, r.take(k));
        assert(r.take(k + 1).drop_last() == r.take(k));
        lemma_fallible_then_waiting(before, r[k]);
        assert(r.drop_last() == r.take(k + 1));
        lemma_fetch_failure(fetch_state_after(m, r.take(k + 1)));
    } else {
        let r2 = r.drop_last();
        assert(r2.take(k) == r.take(k));
        lemma_failed_after(m, r2, k);
        lemma_failed_stays(fetch_state_after(m, r2), r.last());
    }
}

/// Law: fetching reports success only if every download and every unpacking succeeded:
/// once `wget` or `unzip` fails, no later action is `Succeed`.
pub proof fn lemma_success_only_without_failure(m: FetchModel, replies: Seq<bool>, k: int, j: int)
    requires
        0 <= k < j < replies.len(),
        fallible(fetch_run(m, replies)[k]),
        !replies[k + 1],
    ensures
        !(fetch_run(m, replies)[j] is Succeed),
    decreases replies.len(),
{
    lemma_fetch_run_len(m, replies);
    lemma_fetch_run_index(m, replies, k);
    let r2 = replies.drop_last();
    lemma_fetch_run_len(m, r2);
    if j < replies.len() - 1 {
        lemma_fetch_run_index(m, r2, k);
        assert(r2.take(k) == replies.take(k));
        lemma_success_only_without_failure(m, r2, k, j);
    } else if k + 2 <= r2.len() {
        assert(r2.take(k) == replies.take(k));
        lemma_failed_after(m, r2, k);
        lemma_failed_stays(fetch_state_after(m, r2), replies.last());
    } else {
        let before = fetch_state_after(m, replies.take(k));
        assert(r2.drop_last() == replies.take(k));
        lemma_fallible_then_waiting(before, replies[k]);
        lemma_fetch_failure(fetch_state_after(m, r2));
    }
}


/// The three model archives, in the order they must be fetched.
pub open spec fn model_archive_urls() -> Seq<Seq<char>> {
    seq![
        "https://github.com/the-database/MangaJaNai/releases/download/1.0.0/MangaJaNai_V1_ModelsOnly.zip"@,
        "https://github.com/the-database/MangaJaNai/releases/download/3.0.0/IllustrationJaNai_V3denoise.zip"@,
        "https://github.com/the-database/MangaJaNai/releases/download/3.0.0/IllustrationJaNai_V3detail.zip"@,
    ]
}

/// The URLs that the `Wget` actions of `acts` download, in order.
pub open spec fn wget_urls(acts: Seq<FetchActionModel>) -> Seq<Seq<char>>
    decreases acts.len(),
{
    if acts.len() == 0 {
        Seq::empty()
    } else {
        let p = wget_urls(acts.drop_last());
        match acts.last() {
            FetchActionModel::Wget { url, .. } => p.push(url),
            _ => p,
        }
    }
}

/// How many archives have been handed to `wget` in each phase.
spec fn wget_count_ok(p: FetchPhase, w: Seq<Seq<char>>) -> bool {
    &&& w.len() <= 3
    &&& w == model_archive_urls().take(w.len() as int)
    &&& match p {
        FetchPhase::Start => w.len() == 0,
        FetchPhase::Announced(i) => w.len() == i,
        FetchPhase::Fetched(i) => w.len() == i + 1,
        FetchPhase::ExtractAnnounced(i) => w.len() == i + 1,
        FetchPhase::Unzipped(i) => w.len() == i + 1,
        FetchPhase::Removed(i) => w.len() == i + 1,
        FetchPhase::AllDone => w.len() == 3,
        FetchPhase::Succeeded => w.len() == 3,
        FetchPhase::Failed => true,
    }
}

proof fn lemma_fetch_prefix_inv(m: FetchModel, r: Seq<bool>)
    requires
        m.phase == FetchPhase::Start,
    ensures
        fetch_phase_ok(fetch_state_after(m, r).phase),
        wget_count_ok(fetch_state_after(m, r).phase, wget_urls(fetch_run(m, r))),
    decreases r.len(),
{
    if r.len() == 0 {
        assert(model_archive_urls().take(0) == Seq::<Seq<char>>::empty());
    } else {
        let r2 = r.drop_last();
        lemma_fetch_prefix_inv(m, r2);
        let st = fetch_state_after(m, r2);
        let w = wget_urls(fetch_run(m, r2));
        let a = fetch_step(st, r.last()).1;
        assert(fetch_run(m, r).drop_last() == fetch_run(m, r2));
        assert(fetch_run(m, r).last() == a);
        match st.phase {
            FetchPhase::Announced(i) => {
                assert(a == FetchActionModel::Wget {
                    url: archive_url(i as int),
                    name: last_segment(archive_url(i as int)),
                });
                assert(archive_url(i as int) == model_archive_urls()[i as int]);
                assert(model_archive_urls().take(i + 1) == model_archive_urls().take(i as int).push(
                    model_archive_urls()[i as int],
                ));
            },
            _ => {},
        }
    }
}

/// Law: whatever `wget` and `unzip` answer, the archives handed to `wget` are the three model
/// archives in order, each at most once: the URLs of the `Wget` actions of any run form a
/// prefix of the list of archives.
pub proof fn lemma_wget_archives_in_order(m: FetchModel, replies: Seq<bool>)
    requires
        m.phase == FetchPhase::Start,
    ensures
        wget_urls(fetch_run(m, replies)).len() <= 3,
        wget_urls(fetch_run(m, replies)) == model_archive_urls().take(
            wget_urls(fetch_run(m, replies)).len() as int,
        ),
{
    lemma_fetch_prefix_inv(m, replies);
}

/// Law: a fetch that ends in success has handed every one of the three archives to `wget`,
/// in order.
pub proof fn lemma_success_fetched_all(m: FetchModel, replies: Seq<bool>)
    requires
        m.phase == FetchPhase::Start,
        replies.len() > 0,
        fetch_run(m, replies).last() is Succeed,
    ensures
        wget_urls(fetch_run(m, replies)) == model_archive_urls(),
{
    let r2 = replies.drop_last();
    lemma_fetch_prefix_inv(m, r2);
    lemma_fetch_prefix_inv(m, replies);
    assert(fetch_run(m, replies).drop_last() == fetch_run(m, r2));
    assert(model_archive_urls().take(3) == model_archive_urls());
}

} // verus!
