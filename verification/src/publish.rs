//! The publish mover: relocates the finished bundle from the temporary
//! workspace to its destination.  An existing destination is deleted first;
//! the move is an atomic rename, with a non-atomic copy-then-delete
//! fallback for cross-filesystem destinations.

use vstd::prelude::*;
use crate::event::{Event, opt_view, is_op_event, event_diag};
use crate::text::concat2;

verus! {

/// What the destination path holds, as far as the mover knows.
pub enum DestState {
    /// Nothing is at the destination.
    Absent,
    /// A previous bundle of the same name is still at the destination.
    OldBundle,
    /// The destination holds the complete published bundle, identical in
    /// structure to what the workspace held.
    NewBundle,
    /// A failed fallback copy may have left a partially written, possibly
    /// corrupt destination.
    Partial,
}

/// Where the mover stands.
pub enum PublishStage {
    /// The pre-existing destination is being deleted.
    RemovingDest,
    /// The atomic rename is being attempted.
    Renaming,
    /// The non-atomic fallback copy is running.
    CopyingFallback,
    /// The fallback copy succeeded; the source is being deleted.
    RemovingSource,
    /// The bundle is published.
    Done,
    /// Publishing failed; the failure message is set.
    Failed,
}

/// The operation the mover asks for next.
pub enum PublishWork {
    RemoveDestination,
    Rename,
    CopyRecursive,
    RemoveSource,
    Finished,
}

/// The publish mover state machine.  `temp_holds` and `dest` model what is
/// on disk under the two paths.
pub struct PublishMover {
    pub stage: PublishStage,
    /// The temporary workspace still holds the bundle.
    pub temp_holds: bool,
    /// What the destination path holds.
    pub dest: DestState,
    /// The fallback deletion of the source failed and was swallowed.
    pub removal_swallowed: bool,
    /// The terminal failure message.
    pub failure: Option<String>,
}

impl PublishMover {
    /// The mover's internal invariant.
    pub open spec fn wf(self) -> bool {
        match self.stage {
            PublishStage::RemovingDest => self.temp_holds && self.dest is OldBundle
                && !self.removal_swallowed && self.failure is None,
            PublishStage::Renaming => self.temp_holds && self.dest is Absent
                && !self.removal_swallowed && self.failure is None,
            PublishStage::CopyingFallback => self.temp_holds && self.dest is Absent
                && !self.removal_swallowed && self.failure is None,
            PublishStage::RemovingSource => self.temp_holds && self.dest is NewBundle
                && !self.removal_swallowed && self.failure is None,
            PublishStage::Done => self.dest is NewBundle && self.failure is None
                && (!self.removal_swallowed ==> !self.temp_holds),
            PublishStage::Failed => self.temp_holds && !(self.dest is NewBundle)
                && self.failure is Some,
        }
    }

    /// A fresh mover; `dest_exists` says whether the destination path
    /// already holds something.
    pub fn new(dest_exists: bool) -> (m: PublishMover)
        ensures
            m.wf(),
            m.temp_holds,
            dest_exists ==> m.stage is RemovingDest && m.dest is OldBundle,
            !dest_exists ==> m.stage is Renaming && m.dest is Absent,
    {
        PublishMover {
            stage: if dest_exists {
                PublishStage::RemovingDest
            } else {
                PublishStage::Renaming
            },
            temp_holds: true,
            dest: if dest_exists {
                DestState::OldBundle
            } else {
                DestState::Absent
            },
            removal_swallowed: false,
            failure: None,
        }
    }

    /// The operation the mover asks for in its current state.
    pub open spec fn work_spec(self) -> PublishWork {
        match self.stage {
            PublishStage::RemovingDest => PublishWork::RemoveDestination,
            PublishStage::Renaming => PublishWork::Rename,
            PublishStage::CopyingFallback => PublishWork::CopyRecursive,
            PublishStage::RemovingSource => PublishWork::RemoveSource,
            PublishStage::Done => PublishWork::Finished,
            PublishStage::Failed => PublishWork::Finished,
        }
    }

    /// What the mover asks the surrounding program to do next.
    pub fn work(&self) -> (w: PublishWork)
        ensures
            w == self.work_spec(),
    {
        match self.stage {
            PublishStage::RemovingDest => PublishWork::RemoveDestination,
            PublishStage::Renaming => PublishWork::Rename,
            PublishStage::CopyingFallback => PublishWork::CopyRecursive,
            PublishStage::RemovingSource => PublishWork::RemoveSource,
            PublishStage::Done => PublishWork::Finished,
            PublishStage::Failed => PublishWork::Finished,
        }
    }

    /// Feeds the outcome of the requested operation back into the mover.
    /// A probe answer meant for another machine is ignored.
    pub fn step(&mut self, ev: &Event)
        requires
            old(self).wf(),
            !(old(self).stage is Done),
            !(old(self).stage is Failed),
        ensures
            final(self).wf(),
            !is_op_event(*ev) ==> final(self).stage == old(self).stage && final(self).temp_holds == old(
                self,
            ).temp_holds && final(self).dest == old(self).dest && final(self).removal_swallowed == old(
                self,
            ).removal_swallowed && opt_view(final(self).failure) == opt_view(old(self).failure),
            is_op_event(*ev) ==> publish_next(*old(self), *ev, *final(self)),
    {
        match ev {
            Event::PathsChecked(..) => {
                return ;
            },
            Event::DestinationChecked(..) => {
                return ;
            },
            _ => {},
        }
        match self.stage {
            PublishStage::RemovingDest => {
                match ev {
                    Event::Completed => {
                        self.dest = DestState::Absent;
                        self.stage = PublishStage::Renaming;
                    },
                    Event::IoFailed(e) => {
                        self.failure = Some(
                            concat2("Failed to remove existing app: ", e.as_str()),
                        );
                        self.stage = PublishStage::Failed;
                    },
                    _ => {
                        proof {
                            reveal_strlit("");
                            assert(""@ =~= Seq::<char>::empty());
                        }
                        self.failure = Some(concat2("Failed to remove existing app: ", ""));
                        self.stage = PublishStage::Failed;
                    },
                }
            },
            PublishStage::Renaming => {
                match ev {
                    Event::Completed => {
                        self.temp_holds = false;
                        self.dest = DestState::NewBundle;
                        self.stage = PublishStage::Done;
                    },
                    _ => {
                        self.stage = PublishStage::CopyingFallback;
                    },
                }
            },
            PublishStage::CopyingFallback => {
                match ev {
                    Event::Completed => {
                        self.dest = DestState::NewBundle;
                        self.stage = PublishStage::RemovingSource;
                    },
                    _ => {
                        self.dest = DestState::Partial;
                        self.failure = Some(
                            "Failed to move app to destination: Copy failed".to_owned(),
                        );
                        self.stage = PublishStage::Failed;
                    },
                }
            },
            PublishStage::RemovingSource => {
                match ev {
                    Event::Completed => {
                        self.temp_holds = false;
                        self.stage = PublishStage::Done;
                    },
                    _ => {
                        self.removal_swallowed = true;
                        self.stage = PublishStage::Done;
                    },
                }
            },
            PublishStage::Done => {},
            PublishStage::Failed => {},
        }
    }
}

/// The mover's transition relation for an operation event.
pub open spec fn publish_next(pre: PublishMover, ev: Event, post: PublishMover) -> bool {
    match pre.stage {
                PublishStage::RemovingDest => match ev {
                    Event::Completed => post.stage is Renaming && post.temp_holds && post.dest
                        is Absent,
                    _ => post.stage is Failed && post.temp_holds && post.dest is OldBundle
                        && opt_view(post.failure) == Some(
                        "Failed to remove existing app: "@ + event_diag(ev),
                    ),
                },
                PublishStage::Renaming => match ev {
                    Event::Completed => post.stage is Done && !post.temp_holds && post.dest
                        is NewBundle && !post.removal_swallowed,
                    // a failed rename changes nothing on disk
                    _ => post.stage is CopyingFallback && post.temp_holds && post.dest
                        is Absent,
                },
                PublishStage::CopyingFallback => match ev {
                    Event::Completed => post.stage is RemovingSource && post.temp_holds
                        && post.dest is NewBundle,
                    // a failed copy may leave a partial destination; the
                    // source is intact
                    _ => post.stage is Failed && post.temp_holds && post.dest is Partial
                        && opt_view(post.failure) == Some(
                        "Failed to move app to destination: Copy failed"@,
                    ),
                },
                PublishStage::RemovingSource => match ev {
                    Event::Completed => post.stage is Done && !post.temp_holds && post.dest
                        is NewBundle && !post.removal_swallowed,
                    // a failed source deletion is swallowed; both copies stay
                    _ => post.stage is Done && post.temp_holds && post.dest is NewBundle
                        && post.removal_swallowed,
                },
                PublishStage::Done => false,
                PublishStage::Failed => false,
            }
}

/// After a successful publish the destination holds the complete bundle
/// and, unless a fallback source deletion was swallowed, the workspace no
/// longer does: exactly one location holds it.
pub proof fn lemma_publish_success(m: PublishMover)
    requires
        m.wf(),
        m.stage is Done,
    ensures
        m.dest is NewBundle,
        !m.removal_swallowed ==> !m.temp_holds,
{
}

/// A failed publish never loses the source: the workspace still holds the
/// bundle, and the destination never holds a complete copy of it — at most
/// the flagged partially-written remains of a failed fallback copy.
pub proof fn lemma_publish_failure(m: PublishMover)
    requires
        m.wf(),
        m.stage is Failed,
    ensures
        m.temp_holds,
        !(m.dest is NewBundle),
{
}

} // verus!
