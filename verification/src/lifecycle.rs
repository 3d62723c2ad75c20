//! Lifecycle coordination after the handshake: whether, and where, the
//! indexing worker may be handed new work.
//!
//! The external main loop reports events — a file recognized as belonging
//! to a configured project was opened — and performs the action decided
//! here: hand a batch to the background worker, run it synchronously on the
//! main context, or do nothing.  Whether an opened file belongs to a
//! recognized project is an external predicate, injected as a boolean.

use vstd::prelude::*;

use crate::config::IndexingMode;

verus! {

/// What the main loop is to do with a triggered batch of files.
#[derive(Clone, Copy, Debug, PartialEq, Eq, Structural)]
pub enum IndexingAction {
    /// Nothing is indexed: the mode forbids it, the trigger did not fire,
    /// or the workspace indexing limit admits no further file.
    NoAction,
    /// Hand this many files to the background worker; request handling
    /// goes on concurrently.
    ScheduleOnWorker { files: usize },
    /// Index this many files on the main execution context, blocking
    /// request handling until the batch completes.
    RunBlocking { files: usize },
}

/// How many of `requested` files the limit still admits: the rest of the
/// allowance, at most the request itself.
pub open spec fn admitted_files(scheduled: int, limit: int, requested: int) -> int {
    if requested <= limit - scheduled {
        requested
    } else {
        limit - scheduled
    }
}

/// Owns the indexing-admission state of one session.
pub struct ServerLifecycleManager {
    /// The indexing mode chosen at startup.
    indexing_mode: IndexingMode,
    /// The workspace indexing limit: a soft cap on files scheduled.
    limit: usize,
    /// How many files have been scheduled for indexing so far.
    scheduled: usize,
}

impl ServerLifecycleManager {
    /// The indexing mode chosen at startup.
    pub closed spec fn mode(self) -> IndexingMode {
        self.indexing_mode
    }

    /// The workspace indexing limit.
    pub closed spec fn spec_limit(self) -> int {
        self.limit as int
    }

    /// How many files have been scheduled for indexing so far.
    pub closed spec fn spec_scheduled(self) -> int {
        self.scheduled as int
    }

    /// The admission invariant: scheduling never passes the limit.
    pub open spec fn wf(self) -> bool {
        0 <= self.spec_scheduled() <= self.spec_limit()
    }

    /// A fresh manager: nothing scheduled yet.
    pub fn new(indexing_mode: IndexingMode, limit: usize) -> (m: Self)
        ensures
            m.wf(),
            m.mode() == indexing_mode,
            m.spec_limit() == limit,
            m.spec_scheduled() == 0,
    {
        ServerLifecycleManager { indexing_mode, limit, scheduled: 0 }
    }

    /// How many files have been scheduled so far, for callers outside
    /// ghost code.
    pub fn scheduled_files(&self) -> (n: usize)
        ensures
            n == self.spec_scheduled(),
    {
        self.scheduled
    }

    /// Decide what to do when a file is opened.
    ///
    /// `belongs_to_project` is the external trigger predicate: whether the
    /// file belongs to a recognized project.  `files_in_batch` is the size
    /// of the indexing batch that file would trigger.  Indexing happens
    /// only if the trigger fired, the mode indexes at all and the limit
    /// still admits something; the limit is a soft cap — it stops new
    /// scheduling, never work already admitted.  In the background mode
    /// the batch goes to the worker, in the blocking mode it runs on the
    /// main context, and the admitted count is added to the total either
    /// way.
    pub fn on_file_opened(&mut self, belongs_to_project: bool, files_in_batch: usize) -> (action:
        IndexingAction)
        requires
            old(self).wf(),
        ensures
            final(self).wf(),
            final(self).mode() == old(self).mode(),
            final(self).spec_limit() == old(self).spec_limit(),
            !belongs_to_project || old(self).mode() is NoIndexing ==> {
                &&& action is NoAction
                &&& final(self).spec_scheduled() == old(self).spec_scheduled()
            },
            belongs_to_project && !(old(self).mode() is NoIndexing) ==> {
                let admitted = admitted_files(
                    old(self).spec_scheduled(),
                    old(self).spec_limit(),
                    files_in_batch as int,
                );
                &&& final(self).spec_scheduled() == old(self).spec_scheduled() + admitted
                &&& (admitted == 0 ==> action is NoAction)
                &&& (admitted > 0 && old(self).mode() is LazyNonBlockingBackground ==> action
                    == (IndexingAction::ScheduleOnWorker { files: admitted as usize }))
                &&& (admitted > 0 && old(self).mode() is LazyBlocking ==> action
                    == (IndexingAction::RunBlocking { files: admitted as usize }))
            },
    {
        if !belongs_to_project {
            return IndexingAction::NoAction;
        }
        match self.indexing_mode {
            IndexingMode::NoIndexing => IndexingAction::NoAction,
            IndexingMode::LazyNonBlockingBackground => {
                let admitted = self.reserve_quota(files_in_batch);
                if admitted == 0 {
                    IndexingAction::NoAction
                } else {
                    IndexingAction::ScheduleOnWorker { files: admitted }
                }
            },
            IndexingMode::LazyBlocking => {
                let admitted = self.reserve_quota(files_in_batch);
                if admitted == 0 {
                    IndexingAction::NoAction
                } else {
                    IndexingAction::RunBlocking { files: admitted }
                }
            },
        }
    }

    /// Admit as much of a requested batch as the limit still allows and
    /// count it as scheduled.
    fn reserve_quota(&mut self, requested: usize) -> (admitted: usize)
        requires
            old(self).wf(),
        ensures
            final(self).wf(),
            final(self).mode() == old(self).mode(),
            final(self).spec_limit() == old(self).spec_limit(),
            admitted == admitted_files(
                old(self).spec_scheduled(),
                old(self).spec_limit(),
                requested as int,
            ),
            final(self).spec_scheduled() == old(self).spec_scheduled() + admitted,
    {
        let allowance = self.limit - self.scheduled;
        let admitted = if requested <= allowance {
            requested
        } else {
            allowance
        };
        self.scheduled = self.scheduled + admitted;
        admitted
    }
}

/// Law: the workspace indexing limit is a soft cap.  Whatever batch is
/// requested, what is admitted never carries the scheduled total past the
/// limit, and once the total has reached the limit nothing further is
/// admitted at all.
pub proof fn lemma_limit_is_soft_cap(scheduled: int, limit: int, requested: int)
    requires
        0 <= scheduled <= limit,
        0 <= requested,
    ensures
        scheduled + admitted_files(scheduled, limit, requested) <= limit,
        scheduled == limit ==> admitted_files(scheduled, limit, requested) == 0,
{
}

} // verus!
