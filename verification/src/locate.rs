//! Where to look for the ffmpeg binary: the bundled copy next to the
//! executable first, then well-known install locations, then `PATH`.

use vstd::prelude::*;
use crate::text::{chars_of, lines_of, owned, split_lines, string_from_chars, string_views, trim, trim_chars, views};
use crate::types::TargetOs;

verus! {

broadcast use vstd::string::group_string_axioms;

/// The file name of the ffmpeg bundled next to the executable.
pub open spec fn sidecar_name_spec(os: TargetOs) -> Seq<char> {
    if os == TargetOs::Windows {
        "ffmpeg.exe"@
    } else {
        "ffmpeg"@
    }
}

pub fn ffmpeg_sidecar_name(os: TargetOs) -> (r: String)
    ensures
        r@ == sidecar_name_spec(os),
{
    if os == TargetOs::Windows {
        owned("ffmpeg.exe")
    } else {
        owned("ffmpeg")
    }
}

/// Install locations tried, in order, when there is no bundled ffmpeg:
/// Homebrew's on macOS, none elsewhere.
pub open spec fn fallback_locations_spec(os: TargetOs) -> Seq<Seq<char>> {
    if os == TargetOs::MacOs {
        seq!["/opt/homebrew/bin/ffmpeg"@, "/usr/local/bin/ffmpeg"@]
    } else {
        Seq::<Seq<char>>::empty()
    }
}

pub fn ffmpeg_fallback_locations(os: TargetOs) -> (r: Vec<String>)
    ensures
        string_views(r@) == fallback_locations_spec(os),
{
    let mut r: Vec<String> = Vec::new();
    if os == TargetOs::MacOs {
        r.push(owned("/opt/homebrew/bin/ffmpeg"));
        r.push(owned("/usr/local/bin/ffmpeg"));
    }
    assert(string_views(r@) =~= fallback_locations_spec(os));
    r
}

/// The candidate paths in the output of `where ffmpeg` (Windows): each
/// line, trimmed, in order.
pub open spec fn where_candidates_spec(stdout: Seq<char>) -> Seq<Seq<char>> {
    lines_of(stdout).map_values(|l: Seq<char>| trim(l))
}

pub fn where_output_candidates(stdout: &str) -> (r: Vec<String>)
    ensures
        string_views(r@) == where_candidates_spec(stdout@),
{
    let cs = chars_of(stdout);
    let ls = split_lines(&cs);
    let ghost all = views(ls@);
    let mut r: Vec<String> = Vec::new();
    let mut i: usize = 0;
    while i < ls.len()
        invariant
            i <= ls.len(),
            all == views(ls@),
            string_views(r@) == all.take(i as int).map_values(|l: Seq<char>| trim(l)),
        decreases ls.len() - i,
    {
        let ghost before = r@;
        let t = trim_chars(&ls[i]);
        r.push(string_from_chars(t.as_slice()));
        proof {
            assert(all[i as int] == ls@[i as int]@);
            assert(string_views(r@) =~= string_views(before).push(trim(all[i as int])));
            assert(all.take(i + 1).map_values(|l: Seq<char>| trim(l)) =~= all.take(i as int).map_values(
                |l: Seq<char>| trim(l),
            ).push(trim(all[i as int])));
        }
        i = i + 1;
    }
    assert(all.take(ls.len() as int) =~= all);
    r
}

} // verus!

verus! {

// ---------------------------------------------------------------------------
// The search
// ---------------------------------------------------------------------------

/// What the search asks of the file system next, or its result.
pub enum FfmpegProbe {
    /// Is there a file at `path` with at least one byte?
    NonEmptyFile { path: String },
    /// Does anything exist at `path`?
    Exists { path: String },
    /// Run `where ffmpeg` and report its output when it succeeds.
    RunWhere,
    /// The search is over: run ffmpeg as `path`.
    Use { path: String },
}

/// The file system's answer to the last probe.
pub enum ProbeAnswer {
    Yes,
    No,
    /// What `where ffmpeg` printed, if it ran and succeeded.
    WhereOutput(Option<String>),
}

pub enum ProbeModel {
    NonEmptyFile(Seq<char>),
    Exists(Seq<char>),
    RunWhere,
    Use(Seq<char>),
}

pub enum AnswerModel {
    Yes,
    No,
    WhereOutput(Option<Seq<char>>),
}

pub open spec fn probe_view(p: FfmpegProbe) -> ProbeModel {
    match p {
        FfmpegProbe::NonEmptyFile { path } => ProbeModel::NonEmptyFile(path@),
        FfmpegProbe::Exists { path } => ProbeModel::Exists(path@),
        FfmpegProbe::RunWhere => ProbeModel::RunWhere,
        FfmpegProbe::Use { path } => ProbeModel::Use(path@),
    }
}

pub open spec fn answer_view(a: ProbeAnswer) -> AnswerModel {
    match a {
        ProbeAnswer::Yes => AnswerModel::Yes,
        ProbeAnswer::No => AnswerModel::No,
        ProbeAnswer::WhereOutput(o) => AnswerModel::WhereOutput(
            match o {
                Some(s) => Some(s@),
                None => None,
            },
        ),
    }
}

/// Where the search stands: which candidate the last probe was about.
pub enum SearchStage {
    /// The bundled copy at `path`.
    Sidecar { path: Seq<char> },
    /// The `k`-th install location.
    Fallback { k: nat },
    /// Waiting for the output of `where ffmpeg`.
    AwaitWhere,
    /// The `k`-th path that `where ffmpeg` printed.
    Candidate { cands: Seq<Seq<char>>, k: nat },
    /// Decided on `path`.
    Done { path: Seq<char> },
}

pub struct SearchModel {
    pub os: TargetOs,
    pub stage: SearchStage,
}

/// Plain `ffmpeg`, found through `PATH` when nothing else is.
pub open spec fn path_default() -> Seq<char> {
    "ffmpeg"@
}

pub open spec fn done(os: TargetOs, path: Seq<char>) -> (SearchModel, ProbeModel) {
    (SearchModel { os, stage: SearchStage::Done { path } }, ProbeModel::Use(path))
}

/// From the `k`-th install location on: probe it, else run `where` on
/// Windows, else settle on `ffmpeg`.
pub open spec fn fallback_next(os: TargetOs, k: nat) -> (SearchModel, ProbeModel) {
    let f = fallback_locations_spec(os);
    if k < f.len() {
        (SearchModel { os, stage: SearchStage::Fallback { k } }, ProbeModel::Exists(f[k as int]))
    } else if os == TargetOs::Windows {
        (SearchModel { os, stage: SearchStage::AwaitWhere }, ProbeModel::RunWhere)
    } else {
        done(os, path_default())
    }
}

/// From the `k`-th `where` result on: probe it, else settle on `ffmpeg`.
pub open spec fn candidate_next(os: TargetOs, cands: Seq<Seq<char>>, k: nat) -> (SearchModel, ProbeModel) {
    if k < cands.len() {
        (
            SearchModel { os, stage: SearchStage::Candidate { cands, k } },
            ProbeModel::NonEmptyFile(cands[k as int]),
        )
    } else {
        done(os, path_default())
    }
}

/// The search's first question: the bundled copy when the executable's
/// directory is known, else the install locations.
pub open spec fn search_start_spec(os: TargetOs, exe_dir: Option<Seq<char>>) -> (SearchModel, ProbeModel) {
    match exe_dir {
        Some(d) => {
            let p = crate::paths::joined_path(d, sidecar_name_spec(os));
            (SearchModel { os, stage: SearchStage::Sidecar { path: p } }, ProbeModel::NonEmptyFile(p))
        },
        None => fallback_next(os, 0),
    }
}

/// The next question, or the decision, given the answer to the last one.
pub open spec fn search_step_spec(m: SearchModel, a: AnswerModel) -> (SearchModel, ProbeModel) {
    match m.stage {
        SearchStage::Sidecar { path } => if a is Yes {
            done(m.os, path)
        } else {
            fallback_next(m.os, 0)
        },
        SearchStage::Fallback { k } => if a is Yes && k < fallback_locations_spec(m.os).len() {
            done(m.os, fallback_locations_spec(m.os)[k as int])
        } else {
            fallback_next(m.os, k + 1)
        },
        SearchStage::AwaitWhere => match a {
            AnswerModel::WhereOutput(Some(out)) => candidate_next(m.os, where_candidates_spec(out), 0),
            _ => done(m.os, path_default()),
        },
        SearchStage::Candidate { cands, k } => if a is Yes && k < cands.len() {
            done(m.os, cands[k as int])
        } else {
            candidate_next(m.os, cands, k + 1)
        },
        SearchStage::Done { path } => (m, ProbeModel::Use(path)),
    }
}

enum Stage {
    Sidecar(String),
    Fallback(usize),
    AwaitWhere,
    Candidate(Vec<String>, usize),
    Done(String),
}

/// The search for the ffmpeg binary: the bundled copy next to the
/// executable if it is a non-empty file, then the install locations that
/// exist (macOS), then the first path printed by `where ffmpeg` that is a
/// non-empty file (Windows), then plain `ffmpeg` from `PATH`. The caller
/// answers each probe by looking at the file system.
pub struct FfmpegSearch {
    os: TargetOs,
    stage: Stage,
}

impl FfmpegSearch {
    pub closed spec fn model(&self) -> SearchModel {
        SearchModel {
            os: self.os,
            stage: match self.stage {
                Stage::Sidecar(p) => SearchStage::Sidecar { path: p@ },
                Stage::Fallback(k) => SearchStage::Fallback { k: k as nat },
                Stage::AwaitWhere => SearchStage::AwaitWhere,
                Stage::Candidate(c, k) => SearchStage::Candidate {
                    cands: string_views(c@),
                    k: k as nat,
                },
                Stage::Done(p) => SearchStage::Done { path: p@ },
            },
        }
    }

    fn fallback_from(os: TargetOs, k: usize) -> (r: (Self, FfmpegProbe))
        ensures
            r.0.model() == fallback_next(os, k as nat).0,
            probe_view(r.1) == fallback_next(os, k as nat).1,
    {
        let f = ffmpeg_fallback_locations(os);
        if k < f.len() {
            let p = f[k].clone();
            assert(p@ == fallback_locations_spec(os)[k as int]);
            (FfmpegSearch { os, stage: Stage::Fallback(k) }, FfmpegProbe::Exists { path: p })
        } else if os == TargetOs::Windows {
            (FfmpegSearch { os, stage: Stage::AwaitWhere }, FfmpegProbe::RunWhere)
        } else {
            (
                FfmpegSearch { os, stage: Stage::Done(owned("ffmpeg")) },
                FfmpegProbe::Use { path: owned("ffmpeg") },
            )
        }
    }

    fn candidate_from(os: TargetOs, cands: Vec<String>, k: usize) -> (r: (Self, FfmpegProbe))
        ensures
            r.0.model() == candidate_next(os, string_views(cands@), k as nat).0,
            probe_view(r.1) == candidate_next(os, string_views(cands@), k as nat).1,
    {
        if k < cands.len() {
            let p = cands[k].clone();
            (
                FfmpegSearch { os, stage: Stage::Candidate(cands, k) },
                FfmpegProbe::NonEmptyFile { path: p },
            )
        } else {
            (
                FfmpegSearch { os, stage: Stage::Done(owned("ffmpeg")) },
                FfmpegProbe::Use { path: owned("ffmpeg") },
            )
        }
    }

    /// Starts the search; `exe_dir` is the directory of the running
    /// executable, when it is known.
    pub fn start(os: TargetOs, exe_dir: Option<&str>) -> (r: (Self, FfmpegProbe))
        ensures
            r.0.model() == search_start_spec(os, crate::gif::opt_view(exe_dir)).0,
            probe_view(r.1) == search_start_spec(os, crate::gif::opt_view(exe_dir)).1,
    {
        match exe_dir {
            Some(d) => {
                let name = ffmpeg_sidecar_name(os);
                let p = crate::paths::path_join(d, name.as_str());
                let q = p.clone();
                (FfmpegSearch { os, stage: Stage::Sidecar(p) }, FfmpegProbe::NonEmptyFile { path: q })
            },
            None => Self::fallback_from(os, 0),
        }
    }

    /// Takes the answer to the last probe and gives the next one.
    pub fn step(&mut self, answer: ProbeAnswer) -> (p: FfmpegProbe)
        ensures
            (final(self).model(), probe_view(p)) == search_step_spec(old(self).model(), answer_view(answer)),
    {
        let os = self.os;
        let yes = match answer {
            ProbeAnswer::Yes => true,
            _ => false,
        };
        let mut cur = Stage::AwaitWhere;
        std::mem::swap(&mut cur, &mut self.stage);
        let (next, probe) = match cur {
            Stage::Sidecar(path) => {
                if yes {
                    let q = path.clone();
                    (FfmpegSearch { os, stage: Stage::Done(path) }, FfmpegProbe::Use { path: q })
                } else {
                    Self::fallback_from(os, 0)
                }
            },
            Stage::Fallback(k) => {
                let f = ffmpeg_fallback_locations(os);
                if yes && k < f.len() {
                    let p = f[k].clone();
                    let q = f[k].clone();
                    (FfmpegSearch { os, stage: Stage::Done(p) }, FfmpegProbe::Use { path: q })
                } else if k < f.len() {
                    Self::fallback_from(os, k + 1)
                } else {
                    // Past the end: the next index is past the end as well.
                    Self::fallback_from(os, k)
                }
            },
            Stage::AwaitWhere => {
                match answer {
                    ProbeAnswer::WhereOutput(Some(out)) => {
                        let cands = where_output_candidates(out.as_str());
                        Self::candidate_from(os, cands, 0)
                    },
                    _ => (
                        FfmpegSearch { os, stage: Stage::Done(owned("ffmpeg")) },
                        FfmpegProbe::Use { path: owned("ffmpeg") },
                    ),
                }
            },
            Stage::Candidate(cands, k) => {
                if yes && k < cands.len() {
                    let p = cands[k].clone();
                    let q = cands[k].clone();
                    (FfmpegSearch { os, stage: Stage::Done(p) }, FfmpegProbe::Use { path: q })
                } else if k < cands.len() {
                    Self::candidate_from(os, cands, k + 1)
                } else {
                    Self::candidate_from(os, cands, k)
                }
            },
            Stage::Done(path) => {
                let q = path.clone();
                (FfmpegSearch { os, stage: Stage::Done(path) }, FfmpegProbe::Use { path: q })
            },
        };
        *self = next;
        probe
    }
}

} // verus!

verus! {

// ---------------------------------------------------------------------------
// The resolved path, kept for later commands
// ---------------------------------------------------------------------------

/// The ffmpeg path found by the first search, reused afterwards.
pub struct FfmpegCache {
    path: Option<String>,
}

impl FfmpegCache {
    pub closed spec fn cached_view(&self) -> Option<Seq<char>> {
        match self.path {
            Some(p) => Some(p@),
            None => None,
        }
    }

    /// Nothing found yet.
    pub fn new() -> (c: Self)
        ensures
            c.cached_view() is None,
    {
        FfmpegCache { path: None }
    }

    /// The path found earlier, if any.
    pub fn cached_ffmpeg(&self) -> (r: Option<String>)
        ensures
            match r {
                Some(p) => self.cached_view() == Some(p@),
                None => self.cached_view() is None,
            },
    {
        match &self.path {
            Some(p) => Some(p.clone()),
            None => None,
        }
    }

    /// Keeps `path` for later lookups.
    pub fn remember_ffmpeg(&mut self, path: String)
        ensures
            final(self).cached_view() == Some(path@),
    {
        self.path = Some(path);
    }
}

// ---------------------------------------------------------------------------
// Laws of the search
// ---------------------------------------------------------------------------

/// The probe a search state is waiting to have answered.
pub open spec fn pending_probe(m: SearchModel) -> ProbeModel {
    match m.stage {
        SearchStage::Sidecar { path } => ProbeModel::NonEmptyFile(path),
        SearchStage::Fallback { k } => ProbeModel::Exists(fallback_locations_spec(m.os)[k as int]),
        SearchStage::AwaitWhere => ProbeModel::RunWhere,
        SearchStage::Candidate { cands, k } => ProbeModel::NonEmptyFile(cands[k as int]),
        SearchStage::Done { path } => ProbeModel::Use(path),
    }
}

/// A state the search can be in: its index names an existing candidate.
pub open spec fn search_wf(m: SearchModel) -> bool {
    match m.stage {
        SearchStage::Fallback { k } => k < fallback_locations_spec(m.os).len(),
        SearchStage::Candidate { cands, k } => k < cands.len(),
        _ => true,
    }
}

/// Starting and stepping always reach a state that is waiting on exactly
/// the probe just handed out.
pub proof fn law_search_asks_what_it_waits_on(
    os: TargetOs,
    exe_dir: Option<Seq<char>>,
    m: SearchModel,
    a: AnswerModel,
)
    ensures
        search_wf(search_start_spec(os, exe_dir).0),
        search_start_spec(os, exe_dir).1 == pending_probe(search_start_spec(os, exe_dir).0),
        search_wf(search_step_spec(m, a).0),
        search_step_spec(m, a).1 == pending_probe(search_step_spec(m, a).0),
{
}

/// A bundled copy that is a non-empty file is always the one used.
pub proof fn law_nonempty_sidecar_used(os: TargetOs, exe_dir: Seq<char>)
    ensures
        search_step_spec(search_start_spec(os, Some(exe_dir)).0, AnswerModel::Yes).1
            == ProbeModel::Use(crate::paths::joined_path(exe_dir, sidecar_name_spec(os))),
{
}

/// A path other than plain `ffmpeg` is settled on only when the file
/// system said yes to the probe about that very path; the bundled copy and
/// the `where` results are probed as non-empty files, and only the macOS
/// install locations by mere existence.
pub proof fn law_used_only_after_yes(m: SearchModel, a: AnswerModel, p: Seq<char>)
    requires
        search_wf(m),
        !(m.stage is Done),
        search_step_spec(m, a).1 == ProbeModel::Use(p),
        p != path_default(),
    ensures
        a is Yes,
        pending_probe(m) == ProbeModel::NonEmptyFile(p) || pending_probe(m) == ProbeModel::Exists(p),
        (m.stage is Sidecar || m.stage is Candidate) ==> pending_probe(m) == ProbeModel::NonEmptyFile(p),
        pending_probe(m) is Exists ==> m.os == TargetOs::MacOs,
{
}

/// On macOS the order is: the bundled copy, `/opt/homebrew/bin/ffmpeg`,
/// `/usr/local/bin/ffmpeg`, then plain `ffmpeg`.
pub proof fn law_order_macos(exe_dir: Seq<char>)
    ensures ({
        let (m0, p0) = search_start_spec(TargetOs::MacOs, Some(exe_dir));
        let (m1, p1) = search_step_spec(m0, AnswerModel::No);
        let (m2, p2) = search_step_spec(m1, AnswerModel::No);
        let (m3, p3) = search_step_spec(m2, AnswerModel::No);
        &&& p0 == ProbeModel::NonEmptyFile(crate::paths::joined_path(exe_dir, "ffmpeg"@))
        &&& p1 == ProbeModel::Exists("/opt/homebrew/bin/ffmpeg"@)
        &&& p2 == ProbeModel::Exists("/usr/local/bin/ffmpeg"@)
        &&& p3 == ProbeModel::Use(path_default())
    }),
{
}

/// On Windows the order is: the bundled `ffmpeg.exe`, then `where ffmpeg`
/// and each path it printed, in order, then plain `ffmpeg`.
pub proof fn law_order_windows(exe_dir: Seq<char>, out: Seq<char>)
    ensures ({
        let (m0, p0) = search_start_spec(TargetOs::Windows, Some(exe_dir));
        let (m1, p1) = search_step_spec(m0, AnswerModel::No);
        let (m2, p2) = search_step_spec(m1, AnswerModel::WhereOutput(Some(out)));
        let cands = where_candidates_spec(out);
        &&& p0 == ProbeModel::NonEmptyFile(crate::paths::joined_path(exe_dir, "ffmpeg.exe"@))
        &&& p1 == ProbeModel::RunWhere
        &&& cands.len() > 0 ==> p2 == ProbeModel::NonEmptyFile(cands[0])
        &&& cands.len() == 0 ==> p2 == ProbeModel::Use(path_default())
        &&& forall|k: nat|
            k + 1 < cands.len() ==> #[trigger] search_step_spec(
                SearchModel { os: TargetOs::Windows, stage: SearchStage::Candidate { cands, k } },
                AnswerModel::No,
            ).1 == ProbeModel::NonEmptyFile(cands[(k + 1) as int])
    }),
{
}

/// Elsewhere the order is: the bundled copy, then plain `ffmpeg`.
pub proof fn law_order_other(exe_dir: Seq<char>)
    ensures ({
        let (m0, p0) = search_start_spec(TargetOs::Other, Some(exe_dir));
        let (m1, p1) = search_step_spec(m0, AnswerModel::No);
        &&& p0 == ProbeModel::NonEmptyFile(crate::paths::joined_path(exe_dir, "ffmpeg"@))
        &&& p1 == ProbeModel::Use(path_default())
    }),
{
}

/// The answer that accepts nothing: "no" to every probe, and `out` as
/// the output of `where`.
pub open spec fn refusal(m: SearchModel, out: Option<Seq<char>>) -> AnswerModel {
    if m.stage is AwaitWhere {
        AnswerModel::WhereOutput(out)
    } else {
        AnswerModel::No
    }
}

pub open spec fn stage_rank(m: SearchModel) -> nat {
    match m.stage {
        SearchStage::Sidecar { .. } => 4,
        SearchStage::Fallback { .. } => 3,
        SearchStage::AwaitWhere => 2,
        SearchStage::Candidate { .. } => 1,
        SearchStage::Done { .. } => 0,
    }
}

pub open spec fn stage_left(m: SearchModel) -> nat {
    match m.stage {
        SearchStage::Fallback { k } => (fallback_locations_spec(m.os).len() - k) as nat,
        SearchStage::Candidate { cands, k } => (cands.len() - k) as nat,
        _ => 0,
    }
}

/// Where a search ends when every probe is refused.
pub open spec fn settle(m: SearchModel, out: Option<Seq<char>>) -> ProbeModel
    decreases stage_rank(m), stage_left(m),
    when search_wf(m)
{
    if m.stage is Done {
        pending_probe(m)
    } else {
        settle(search_step_spec(m, refusal(m, out)).0, out)
    }
}

proof fn lemma_settle_default(m: SearchModel, out: Option<Seq<char>>)
    requires
        search_wf(m),
        !(m.stage is Done),
    ensures
        settle(m, out) == ProbeModel::Use(path_default()),
    decreases stage_rank(m), stage_left(m),
{
    let next = search_step_spec(m, refusal(m, out)).0;
    law_search_asks_what_it_waits_on(m.os, None, m, refusal(m, out));
    assert(settle(m, out) == settle(next, out));
    if !(next.stage is Done) {
        lemma_settle_default(next, out);
    } else {
        assert(next.stage == SearchStage::Done { path: path_default() });
        assert(settle(next, out) == pending_probe(next));
    }
}

/// When the file system accepts nothing, the search settles on plain
/// `ffmpeg`.
pub proof fn law_nothing_accepted(os: TargetOs, exe_dir: Option<Seq<char>>, out: Option<Seq<char>>)
    ensures
        settle(search_start_spec(os, exe_dir).0, out) == ProbeModel::Use(path_default()),
{
    let m = search_start_spec(os, exe_dir).0;
    if !(m.stage is Done) {
        lemma_settle_default(m, out);
    }
}

/// An install location that exists is the one used: answering yes to the
/// probe of the `k`-th location settles the search on that location, so
/// the first location that exists wins.
pub proof fn law_existing_location_used(os: TargetOs, k: nat)
    requires
        k < fallback_locations_spec(os).len(),
    ensures
        search_step_spec(SearchModel { os, stage: SearchStage::Fallback { k } }, AnswerModel::Yes)
            == (
            SearchModel { os, stage: SearchStage::Done { path: fallback_locations_spec(os)[k as int] } },
            ProbeModel::Use(fallback_locations_spec(os)[k as int]),
        ),
{
}

/// On macOS without a usable bundled copy, Homebrew's ffmpeg is used when
/// `/opt/homebrew/bin/ffmpeg` exists, and `/usr/local/bin/ffmpeg` when
/// only that one does.
pub proof fn law_macos_install_used(exe_dir: Seq<char>)
    ensures ({
        let (m0, p0) = search_start_spec(TargetOs::MacOs, Some(exe_dir));
        let (m1, p1) = search_step_spec(m0, AnswerModel::No);
        let (m2, p2) = search_step_spec(m1, AnswerModel::No);
        &&& search_step_spec(m1, AnswerModel::Yes).1 == ProbeModel::Use("/opt/homebrew/bin/ffmpeg"@)
        &&& search_step_spec(m2, AnswerModel::Yes).1 == ProbeModel::Use("/usr/local/bin/ffmpeg"@)
    }),
{
}

} // verus!
