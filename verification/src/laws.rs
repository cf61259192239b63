use vstd::prelude::*;
use crate::dir_path::{PathModel, path_is_empty};
use crate::ensure::{DirEnsurer, FsEvent, ensurer_wf, spec_start, spec_step, spec_next_attempt, spec_measure};

verus! {

/// Fold a whole sequence of reports into a run, first report first.
/// Reports beyond a terminal state leave it unchanged.
pub open spec fn spec_run(m: DirEnsurer, evs: Seq<FsEvent>) -> DirEnsurer
    decreases evs.len(),
{
    if evs.len() == 0 {
        m
    } else {
        spec_run(spec_step(m, evs[0]), evs.drop_first())
    }
}

/// What a quiescent filesystem reports when the ancestor with `d`
/// segments is attempted, given that exactly the ancestors with fewer
/// than `have` segments exist (`have >= 1`: the root, or the current
/// directory a relative path hangs from, is always there).
pub open spec fn fs_reply(have: int, d: int) -> FsEvent {
    if d < have {
        FsEvent::AlreadyExists
    } else if d == have {
        FsEvent::Created
    } else {
        FsEvent::NotFound
    }
}

/// How far the same filesystem reaches after that attempt.
pub open spec fn fs_after(have: int, d: int) -> int {
    if d == have {
        have + 1
    } else {
        have
    }
}

/// Drive a run to completion against a quiescent filesystem that reaches
/// `have` levels, with nobody else touching it: the final state and the
/// levels the filesystem reaches afterwards.
pub open spec fn spec_run_on_fs(m: DirEnsurer, have: int) -> (DirEnsurer, int)
    decreases spec_measure(m),
        when ensurer_wf(m)
{
    match spec_next_attempt(m) {
        Some(d) => spec_run_on_fs(
            spec_step(m, fs_reply(have, d as int)),
            fs_after(have, d as int),
        ),
        None => (m, have),
    }
}

/// Every report makes progress: a step of a run that still has an
/// attempt pending strictly decreases the measure, so a run makes at
/// most `spec_measure` many attempts in all, whatever is reported.
pub proof fn lemma_step_progress(m: DirEnsurer, ev: FsEvent)
    requires
        ensurer_wf(m),
        spec_next_attempt(m) is Some,
    ensures
        spec_measure(spec_step(m, ev)) < spec_measure(m),
{
}

/// The empty path is a no-op: the run is finished as soon as it starts,
/// nothing was created, and no attempt is ever asked of the caller.
pub proof fn theorem_empty_path_no_op(p: PathModel)
    requires
        path_is_empty(p),
    ensures
        spec_start(p) == (DirEnsurer::Done { created: None::<usize> }),
        spec_next_attempt(spec_start(p)) is None,
{
}

/// A directory found already in place is never an error, at any level of
/// the run: whether another actor created it a moment earlier or it was
/// there all along, the run moves on (or finishes) rather than failing.
pub proof fn theorem_already_exists_tolerated(m: DirEnsurer)
    requires
        ensurer_wf(m),
        spec_next_attempt(m) is Some,
    ensures
        !(spec_step(m, FsEvent::AlreadyExists) is Failed),
        !(spec_step(m, FsEvent::AlreadyExists) is RootFailure),
{
}

/// Any failure other than "missing parent" or "already exists" stops the
/// run at once in `Failed`, so the caller's underlying error is passed
/// through unchanged and never silently swallowed.
pub proof fn theorem_error_passthrough(m: DirEnsurer)
    requires
        spec_next_attempt(m) is Some,
    ensures
        spec_step(m, FsEvent::OtherError) == DirEnsurer::Failed,
{
}

proof fn lemma_run_ascending(target: usize, next: usize, created: Option<usize>, have: int)
    requires
        1 <= next <= target,
        created matches Some(c) ==> c < next,
        next <= have,
    ensures
        spec_run_on_fs(DirEnsurer::Ascending { target, next, created }, have) == (
            DirEnsurer::Done { created },
            if have >= target + 1 {
                have
            } else {
                target + 1
            },
        ),
    decreases target - next,
{
    let m = DirEnsurer::Ascending { target, next, created };
    assert(ensurer_wf(m));
    let reply = fs_reply(have, next as int);
    let have2 = fs_after(have, next as int);
    if next >= target {
        let m2 = DirEnsurer::Done { created };
        assert(spec_step(m, reply) == m2);
        assert(spec_run_on_fs(m, have) == spec_run_on_fs(m2, have2));
        assert(spec_run_on_fs(m2, have2) == (m2, have2));
    } else {
        let m2 = DirEnsurer::Ascending { target, next: (next + 1) as usize, created };
        assert(spec_step(m, reply) == m2);
        assert(spec_run_on_fs(m, have) == spec_run_on_fs(m2, have2));
        lemma_run_ascending(target, (next + 1) as usize, created, have2);
    }
}

proof fn lemma_run_descending(target: usize, absolute: bool, depth: usize, have: int)
    requires
        depth <= target,
        !absolute ==> 1 <= depth,
        1 <= have <= depth,
    ensures
        spec_run_on_fs(DirEnsurer::Descending { target, absolute, depth }, have) == (
            DirEnsurer::Done { created: Some(have as usize) },
            target + 1,
        ),
    decreases depth,
{
    let m = DirEnsurer::Descending { target, absolute, depth };
    assert(ensurer_wf(m));
    let reply = fs_reply(have, depth as int);
    let have2 = fs_after(have, depth as int);
    if have == depth {
        // The attempt succeeds: this is the topmost directory created.
        if depth >= target {
            let m2 = DirEnsurer::Done { created: Some(depth) };
            assert(spec_step(m, reply) == m2);
            assert(spec_run_on_fs(m, have) == spec_run_on_fs(m2, have2));
            assert(spec_run_on_fs(m2, have2) == (m2, have2));
        } else {
            let m2 = DirEnsurer::Ascending {
                target,
                next: (depth + 1) as usize,
                created: Some(depth),
            };
            assert(spec_step(m, reply) == m2);
            assert(spec_run_on_fs(m, have) == spec_run_on_fs(m2, have2));
            lemma_run_ascending(target, (depth + 1) as usize, Some(depth), have2);
        }
    } else {
        // The parent is still missing: descend one level.
        let m2 = DirEnsurer::Descending { target, absolute, depth: (depth - 1) as usize };
        assert(spec_step(m, reply) == m2);
        assert(spec_run_on_fs(m, have) == spec_run_on_fs(m2, have2));
        lemma_run_descending(target, absolute, (depth - 1) as usize, have2);
    }
}

/// A full run against a quiescent filesystem on which exactly the
/// ancestors with fewer than `have` segments exist (`have >= 1`):
///
/// - if the whole path already existed, the run finishes with nothing
///   created and the filesystem untouched;
/// - otherwise it finishes having created exactly the missing ancestors,
///   reports the shallowest of them — the directory one level below the
///   deepest ancestor that already existed — and afterwards the target
///   and every one of its ancestors exist.
pub proof fn theorem_quiescent_run(p: PathModel, have: int)
    requires
        !path_is_empty(p),
        p.segments.len() <= usize::MAX,
        1 <= have,
    ensures
        have > p.segments.len() ==> spec_run_on_fs(spec_start(p), have) == (
            DirEnsurer::Done { created: None::<usize> },
            have,
        ),
        have <= p.segments.len() ==> spec_run_on_fs(spec_start(p), have) == (
            DirEnsurer::Done { created: Some(have as usize) },
            p.segments.len() + 1 as int,
        ),
{
    let n = p.segments.len() as usize;
    let m = spec_start(p);
    assert(m == (DirEnsurer::Descending { target: n, absolute: p.absolute, depth: n }));
    assert(ensurer_wf(m));
    if have > n {
        let reply = fs_reply(have, n as int);
        assert(reply == FsEvent::AlreadyExists);
        let m2 = DirEnsurer::Done { created: None::<usize> };
        assert(spec_step(m, reply) == m2);
        assert(fs_after(have, n as int) == have);
        assert(spec_run_on_fs(m, have) == spec_run_on_fs(m2, have));
        assert(spec_run_on_fs(m2, have) == (m2, have));
    } else {
        lemma_run_descending(n, p.absolute, n, have);
    }
}

/// Running the operation twice in a row over a quiescent filesystem
/// never errors on the second run, and the second run creates nothing:
/// the first run left the full path in place.
pub proof fn theorem_idempotent(p: PathModel, have: int)
    requires
        !path_is_empty(p),
        p.segments.len() <= usize::MAX,
        1 <= have,
    ensures
        ({
            let first = spec_run_on_fs(spec_start(p), have);
            spec_run_on_fs(spec_start(p), first.1) == (
                DirEnsurer::Done { created: None::<usize> },
                first.1,
            )
        }),
{
    theorem_quiescent_run(p, have);
    let first = spec_run_on_fs(spec_start(p), have);
    theorem_quiescent_run(p, first.1);
}

proof fn lemma_not_found_exhausts(target: usize, depth: usize)
    requires
        depth <= target,
    ensures
        spec_run(
            DirEnsurer::Descending { target, absolute: true, depth },
            Seq::new((depth + 1) as nat, |i: int| FsEvent::NotFound),
        ) == DirEnsurer::RootFailure,
    decreases depth,
{
    let m = DirEnsurer::Descending { target, absolute: true, depth };
    let evs = Seq::new((depth + 1) as nat, |i: int| FsEvent::NotFound);
    assert(spec_run(m, evs) == spec_run(spec_step(m, evs[0]), evs.drop_first()));
    if depth == 0 {
        assert(spec_step(m, evs[0]) == DirEnsurer::RootFailure);
        assert(evs.drop_first() =~= Seq::<FsEvent>::empty());
        assert(spec_run(DirEnsurer::RootFailure, Seq::<FsEvent>::empty())
            == DirEnsurer::RootFailure);
    } else {
        let m2 = DirEnsurer::Descending { target, absolute: true, depth: (depth - 1) as usize };
        assert(spec_step(m, evs[0]) == m2);
        lemma_not_found_exhausts(target, (depth - 1) as usize);
        assert(evs.drop_first() =~= Seq::new(depth as nat, |i: int| FsEvent::NotFound));
    }
}

/// If every attempt keeps failing with a missing parent, an absolute
/// path runs out of parents: after the attempt on the rootmost ancestor
/// also reports a missing parent, the run ends in `RootFailure` — the
/// distinct whole-tree failure, not a passed-through error.
pub proof fn theorem_root_exhaustion(p: PathModel)
    requires
        p.absolute,
        p.segments.len() <= usize::MAX,
    ensures
        spec_run(
            spec_start(p),
            Seq::new(p.segments.len() + 1, |i: int| FsEvent::NotFound),
        ) == DirEnsurer::RootFailure,
{
    let n = p.segments.len() as usize;
    lemma_not_found_exhausts(n, n);
    assert(Seq::new(p.segments.len() + 1, |i: int| FsEvent::NotFound) =~= Seq::new(
        (n + 1) as nat,
        |i: int| FsEvent::NotFound,
    ));
}

} // verus!
