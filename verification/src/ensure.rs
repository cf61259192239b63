use vstd::prelude::*;
use crate::dir_path::{DirPath, PathModel, path_is_empty};

verus! {

/// What one single-level create attempt reported back.
#[derive(Clone, Copy, Debug)]
pub enum FsEvent {
    /// The attempt created the directory.
    Created,
    /// The attempt failed because the immediate parent is missing.
    NotFound,
    /// The directory was already there: either the create failed with an
    /// "already exists" error, or it failed otherwise while the path is
    /// now a directory (someone else created it in the meantime).
    AlreadyExists,
    /// The attempt failed for any other reason; the caller keeps the
    /// underlying error and passes it through unchanged.
    OtherError,
}

/// The state of one directory-ensuring run.
///
/// The run never touches the filesystem itself.  It names the next
/// ancestor to attempt as a segment count (`next_attempt`), the caller
/// performs the single-level create on that ancestor and reports an
/// [`FsEvent`], and [`DirEnsurer::step`] moves to the next state.
#[derive(Clone, Copy, Debug)]
pub enum DirEnsurer {
    /// Walking toward the root: the next attempt is the ancestor with
    /// `depth` segments; every deeper ancestor, up to the target, failed
    /// with a missing parent and waits for a retry on the way back.
    Descending { target: usize, absolute: bool, depth: usize },
    /// Walking back toward the target: the next attempt is the ancestor
    /// with `next` segments; `created` holds the depth of the topmost
    /// directory created so far, if any.
    Ascending { target: usize, next: usize, created: Option<usize> },
    /// Finished: `created` is the depth of the topmost directory this
    /// run created, or `None` if nothing needed to be created.
    Done { created: Option<usize> },
    /// Creation failed at a path with no parent segment left: the whole
    /// tree could not be created.  Distinct from `Failed`.
    RootFailure,
    /// An attempt failed with an error that is passed through unchanged.
    Failed,
}

/// States that keep their shape under every step.
pub open spec fn ensurer_wf(m: DirEnsurer) -> bool {
    match m {
        DirEnsurer::Descending { target, absolute, depth } => {
            &&& depth <= target
            &&& (!absolute ==> 1 <= depth)
        },
        DirEnsurer::Ascending { target, next, created } => {
            &&& 1 <= next <= target
            &&& (created matches Some(c) ==> c < next)
        },
        _ => true,
    }
}

/// The state a run for path `p` starts in: finished at once for the
/// empty path, otherwise about to attempt the full path itself.
pub open spec fn spec_start(p: PathModel) -> DirEnsurer {
    if path_is_empty(p) {
        DirEnsurer::Done { created: None }
    } else {
        DirEnsurer::Descending {
            target: p.segments.len() as usize,
            absolute: p.absolute,
            depth: p.segments.len() as usize,
        }
    }
}

/// The ancestor (as a segment count) the run wants attempted next, or
/// `None` once the run is over.
pub open spec fn spec_next_attempt(m: DirEnsurer) -> Option<usize> {
    match m {
        DirEnsurer::Descending { depth, .. } => Some(depth),
        DirEnsurer::Ascending { next, .. } => Some(next),
        _ => None,
    }
}

/// How the run reacts to the report on its pending attempt.
///
/// Descending at `depth`: a created directory fixes the topmost created
/// depth and turns back; a directory already there turns back with
/// nothing recorded; a missing parent descends one level further, except
/// that below depth one a relative path has the empty path as parent
/// (nothing to create, turn back) and an absolute path at depth zero has
/// no parent at all (the whole tree cannot be created).  Ascending at
/// `next`: a retry that created the directory, or found it already
/// there, moves on to the next deeper ancestor, keeping the recorded
/// depth; anything else is an error, passed through.  Terminal states
/// never change.
pub open spec fn spec_step(m: DirEnsurer, ev: FsEvent) -> DirEnsurer {
    match m {
        DirEnsurer::Descending { target, absolute, depth } => match ev {
            FsEvent::Created => if depth >= target {
                DirEnsurer::Done { created: Some(depth) }
            } else {
                DirEnsurer::Ascending {
                    target,
                    next: (depth + 1) as usize,
                    created: Some(depth),
                }
            },
            FsEvent::AlreadyExists => if depth >= target {
                DirEnsurer::Done { created: None }
            } else {
                DirEnsurer::Ascending { target, next: (depth + 1) as usize, created: None }
            },
            FsEvent::NotFound => if depth == 0 {
                DirEnsurer::RootFailure
            } else if depth == 1 && !absolute {
                DirEnsurer::Ascending { target, next: 1, created: None }
            } else {
                DirEnsurer::Descending { target, absolute, depth: (depth - 1) as usize }
            },
            FsEvent::OtherError => DirEnsurer::Failed,
        },
        DirEnsurer::Ascending { target, next, created } => match ev {
            FsEvent::Created | FsEvent::AlreadyExists => if next >= target {
                DirEnsurer::Done { created }
            } else {
                DirEnsurer::Ascending { target, next: (next + 1) as usize, created }
            },
            FsEvent::NotFound | FsEvent::OtherError => DirEnsurer::Failed,
        },
        _ => m,
    }
}

/// Upper bound on the attempts a run still makes: each step of an active
/// run strictly decreases it.
pub open spec fn spec_measure(m: DirEnsurer) -> nat {
    match m {
        DirEnsurer::Descending { target, depth, .. } => (target + depth + 2) as nat,
        DirEnsurer::Ascending { target, next, .. } => (target + 1 - next) as nat,
        _ => 0,
    }
}

impl DirEnsurer {
    /// Start a run for `path`.  An empty path is finished at once with
    /// nothing created and asks for no filesystem work at all; any other
    /// path starts by attempting the path itself.
    pub fn start(path: &DirPath) -> (m: DirEnsurer)
        ensures
            m == spec_start(path@),
            ensurer_wf(m),
            path_is_empty(path@) ==> m == (DirEnsurer::Done { created: None::<usize> }),
    {
        if path.is_empty() {
            DirEnsurer::Done { created: None }
        } else {
            let n = path.depth();
            DirEnsurer::Descending { target: n, absolute: path.absolute, depth: n }
        }
    }

    /// The ancestor (as a segment count) to attempt next, or `None` once
    /// the run is over.
    pub fn next_attempt(&self) -> (r: Option<usize>)
        ensures
            r == spec_next_attempt(*self),
    {
        match *self {
            DirEnsurer::Descending { depth, .. } => Some(depth),
            DirEnsurer::Ascending { next, .. } => Some(next),
            _ => None,
        }
    }

    /// Advance by one reported outcome, exactly as [`spec_step`] says.
    pub fn step(self, ev: FsEvent) -> (m: DirEnsurer)
        ensures
            m == spec_step(self, ev),
            ensurer_wf(self) ==> ensurer_wf(m),
    {
        match self {
            DirEnsurer::Descending { target, absolute, depth } => match ev {
                FsEvent::Created => if depth >= target {
                    DirEnsurer::Done { created: Some(depth) }
                } else {
                    DirEnsurer::Ascending { target, next: depth + 1, created: Some(depth) }
                },
                FsEvent::AlreadyExists => if depth >= target {
                    DirEnsurer::Done { created: None }
                } else {
                    DirEnsurer::Ascending { target, next: depth + 1, created: None }
                },
                FsEvent::NotFound => if depth == 0 {
                    DirEnsurer::RootFailure
                } else if depth == 1 && !absolute {
                    DirEnsurer::Ascending { target, next: 1, created: None }
                } else {
                    DirEnsurer::Descending { target, absolute, depth: depth - 1 }
                },
                FsEvent::OtherError => DirEnsurer::Failed,
            },
            DirEnsurer::Ascending { target, next, created } => match ev {
                FsEvent::Created | FsEvent::AlreadyExists => if next >= target {
                    DirEnsurer::Done { created }
                } else {
                    DirEnsurer::Ascending { target, next: next + 1, created }
                },
                FsEvent::NotFound | FsEvent::OtherError => DirEnsurer::Failed,
            },
            _ => self,
        }
    }
}

} // verus!
