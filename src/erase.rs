//! Batch deletion as a state machine. The caller performs each action on the
//! filesystem and reports what happened; the batch decides what comes next.
//! Paths are handled in order and the batch stops at the first failure.
//! Removals made before a failure stay made.

use vstd::prelude::*;

verus! {

/// What is found at a path before it is removed.
#[derive(PartialEq, Eq, Structural, Clone, Copy)]
pub enum PathKind {
    Missing,
    Directory,
    /// Anything else that exists.
    File,
}

/// Why a batch stopped at its current path.
#[derive(PartialEq, Eq, Structural, Clone, Copy)]
pub enum DeleteFailure {
    NotFound,
    DirectoryNotRemoved,
    FileNotRemoved,
}

/// Where a batch stands at its current path.
#[derive(PartialEq, Eq, Structural, Clone, Copy)]
pub enum Phase {
    /// Waiting to learn what is at the current path.
    Probing,
    /// Waiting for the removal of the current path; `true` for a directory.
    Removing(bool),
    /// Every path was removed.
    Done,
    /// Stopped at the current path.
    Failed(DeleteFailure),
}

/// What the caller reports after an action.
#[derive(PartialEq, Eq, Structural, Clone, Copy)]
pub enum DeleteEvent {
    Probed(PathKind),
    /// The removal succeeded (`true`) or failed.
    Removed(bool),
}

/// What the caller is to do next.
pub enum DeleteAction {
    /// Find out what is at this path.
    Probe(String),
    /// Remove this directory with everything in it.
    RemoveDirectory(String),
    /// Remove this single file.
    RemoveFile(String),
    /// The batch is over, with this result.
    Finish(Result<(), String>),
}

pub struct DeleteBatch {
    pub paths: Vec<String>,
    /// The current path; every path before it was removed.
    pub index: usize,
    pub phase: Phase,
}

pub open spec fn failure_message(f: DeleteFailure, path: Seq<char>) -> Seq<char> {
    match f {
        DeleteFailure::NotFound => "Path does not exist: "@ + path,
        DeleteFailure::DirectoryNotRemoved => "Failed to delete directory: "@ + path,
        DeleteFailure::FileNotRemoved => "Failed to delete file: "@ + path,
    }
}

impl DeleteBatch {
    pub open spec fn wf(&self) -> bool {
        &&& self.index <= self.paths@.len() <= usize::MAX
        &&& (self.phase is Done <==> self.index == self.paths@.len())
    }

    /// Whether the batch is over.
    pub open spec fn finished(&self) -> bool {
        self.phase is Done || self.phase is Failed
    }

    /// The state after `e`. A report that does not answer the pending action
    /// changes nothing.
    pub open spec fn stepped(self, e: DeleteEvent) -> DeleteBatch {
        match (self.phase, e) {
            (Phase::Probing, DeleteEvent::Probed(PathKind::Missing)) => DeleteBatch {
                phase: Phase::Failed(DeleteFailure::NotFound),
                ..self
            },
            (Phase::Probing, DeleteEvent::Probed(PathKind::Directory)) => DeleteBatch {
                phase: Phase::Removing(true),
                ..self
            },
            (Phase::Probing, DeleteEvent::Probed(PathKind::File)) => DeleteBatch {
                phase: Phase::Removing(false),
                ..self
            },
            (Phase::Removing(_), DeleteEvent::Removed(true)) => DeleteBatch {
                index: (self.index + 1) as usize,
                phase: if self.index + 1 == self.paths@.len() {
                    Phase::Done
                } else {
                    Phase::Probing
                },
                ..self
            },
            (Phase::Removing(dir), DeleteEvent::Removed(false)) => DeleteBatch {
                phase: Phase::Failed(
                    if dir {
                        DeleteFailure::DirectoryNotRemoved
                    } else {
                        DeleteFailure::FileNotRemoved
                    },
                ),
                ..self
            },
            _ => self,
        }
    }

    /// A batch over `paths`, in their order.
    pub fn new(paths: Vec<String>) -> (r: DeleteBatch)
        ensures
            r.wf(),
            r.paths == paths,
            r.index == 0,
            r.phase == (if paths@.len() == 0 { Phase::Done } else { Phase::Probing }),
    {
        let phase = if paths.len() == 0 {
            Phase::Done
        } else {
            Phase::Probing
        };
        DeleteBatch { paths, index: 0, phase }
    }

    /// The action that the current state asks for.
    pub fn action(&self) -> (r: DeleteAction)
        requires
            self.wf(),
        ensures
            match self.phase {
                Phase::Probing => r == DeleteAction::Probe(self.paths@[self.index as int]),
                Phase::Removing(true) => r == DeleteAction::RemoveDirectory(
                    self.paths@[self.index as int],
                ),
                Phase::Removing(false) => r == DeleteAction::RemoveFile(
                    self.paths@[self.index as int],
                ),
                Phase::Done => r == DeleteAction::Finish(Ok(())),
                Phase::Failed(f) => r is Finish && r->Finish_0 is Err && r->Finish_0->Err_0@
                    == failure_message(f, self.paths@[self.index as int]@),
            },
    {
        match self.phase {
            Phase::Probing => DeleteAction::Probe(self.paths[self.index].clone()),
            Phase::Removing(true) => DeleteAction::RemoveDirectory(self.paths[self.index].clone()),
            Phase::Removing(false) => DeleteAction::RemoveFile(self.paths[self.index].clone()),
            Phase::Done => DeleteAction::Finish(Ok(())),
            Phase::Failed(f) => {
                let prefix = match f {
                    DeleteFailure::NotFound => "Path does not exist: ",
                    DeleteFailure::DirectoryNotRemoved => "Failed to delete directory: ",
                    DeleteFailure::FileNotRemoved => "Failed to delete file: ",
                };
                DeleteAction::Finish(
                    Err(String::from_str(prefix).concat(self.paths[self.index].as_str())),
                )
            },
        }
    }

    /// Takes in what the caller reports after the current action.
    pub fn step(&mut self, e: DeleteEvent)
        requires
            old(self).wf(),
        ensures
            *final(self) == old(self).stepped(e),
            final(self).wf(),
    {
        match (self.phase, e) {
            (Phase::Probing, DeleteEvent::Probed(PathKind::Missing)) => {
                self.phase = Phase::Failed(DeleteFailure::NotFound);
            },
            (Phase::Probing, DeleteEvent::Probed(PathKind::Directory)) => {
                self.phase = Phase::Removing(true);
            },
            (Phase::Probing, DeleteEvent::Probed(PathKind::File)) => {
                self.phase = Phase::Removing(false);
            },
            (Phase::Removing(_), DeleteEvent::Removed(true)) => {
                let len = self.paths.len();
                assert(self.index < len);
                self.index = self.index + 1;
                self.phase = if self.index == len {
                    Phase::Done
                } else {
                    Phase::Probing
                };
            },
            (Phase::Removing(dir), DeleteEvent::Removed(false)) => {
                self.phase = Phase::Failed(
                    if dir {
                        DeleteFailure::DirectoryNotRemoved
                    } else {
                        DeleteFailure::FileNotRemoved
                    },
                );
            },
            _ => {},
        }
    }
}

/// The state after a sequence of reports, in order.
pub open spec fn run(b: DeleteBatch, events: Seq<DeleteEvent>) -> DeleteBatch
    decreases events.len(),
{
    if events.len() == 0 {
        b
    } else {
        run(b.stepped(events[0]), events.drop_first())
    }
}

/// Each report keeps the batch well formed and its paths as they were, and
/// moves it past its current path only when that path was removed.
pub proof fn law_index_counts_removals(b: DeleteBatch, e: DeleteEvent)
    requires
        b.wf(),
    ensures
        b.stepped(e).wf(),
        b.stepped(e).paths == b.paths,
        b.stepped(e).index == if b.phase is Removing && e == DeleteEvent::Removed(true) {
            b.index + 1
        } else {
            b.index as int
        },
{
}

/// A path found missing stops the batch there, with that path named in the
/// error.
pub proof fn law_missing_path_stops(b: DeleteBatch)
    requires
        b.wf(),
        b.phase is Probing,
    ensures
        b.stepped(DeleteEvent::Probed(PathKind::Missing)) == (DeleteBatch {
            phase: Phase::Failed(DeleteFailure::NotFound),
            ..b
        }),
        b.stepped(DeleteEvent::Probed(PathKind::Missing)).finished(),
{
}

/// Once a batch is over, no report changes it: no further path is probed or
/// removed.
pub proof fn law_finished_is_final(b: DeleteBatch, events: Seq<DeleteEvent>)
    requires
        b.wf(),
        b.finished(),
    ensures
        run(b, events) == b,
    decreases events.len(),
{
    if events.len() > 0 {
        law_finished_is_final(b.stepped(events[0]), events.drop_first());
    }
}

/// A directory is removed with everything in it, anything else that exists
/// as a single file.
pub proof fn law_removal_follows_kind(b: DeleteBatch)
    requires
        b.wf(),
        b.phase is Probing,
    ensures
        b.stepped(DeleteEvent::Probed(PathKind::Directory)).phase == Phase::Removing(true),
        b.stepped(DeleteEvent::Probed(PathKind::File)).phase == Phase::Removing(false),
{
}

} // verus!
