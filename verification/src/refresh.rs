//! The catalog-refresh orchestrator: the fixed remote endpoints, the local
//! file names, and the state machine that sequences the two fetches — the
//! database snapshot first, then the manifest file, with no parallelism and
//! fail-fast error propagation.

use vstd::prelude::*;
use vstd::string::*;

use crate::fetch::FetchError;

verus! {

/// Failures of one catalog refresh.
#[derive(Debug, PartialEq, Eq, Clone, Copy, Structural)]
pub enum RefreshError {
    /// The destination directory does not exist; nothing is auto-created.
    TargetDirMissing,
    /// One of the two fetches failed; the error is surfaced unchanged.
    Fetch(FetchError),
}

/// The two remote resources a refresh brings.
#[derive(Debug, PartialEq, Eq, Clone, Copy, Structural)]
pub enum FetchTarget {
    /// The catalog database snapshot.
    Database,
    /// The image-directory manifest file.
    FileList,
}

/// The fixed remote URL of the catalog database snapshot.
pub fn db_url() -> (url: &'static str)
    ensures
        url@ == "http://www.davidfaure.fr/kvideomanager/kvideomanager.sqlite"@,
{
    "http://www.davidfaure.fr/kvideomanager/kvideomanager.sqlite"
}

/// The fixed remote URL of the image-directory manifest file.
pub fn filelist_url() -> (url: &'static str)
    ensures
        url@ == "http://www.davidfaure.fr/kvideomanager/kvideomanager.filelist.txt"@,
{
    "http://www.davidfaure.fr/kvideomanager/kvideomanager.filelist.txt"
}

/// The file name the database snapshot is stored under.
pub fn db_fname() -> (name: &'static str)
    ensures
        name@ == "kvideomanager.sqlite"@,
{
    "kvideomanager.sqlite"
}

/// A file name under a directory: joined with a slash unless the
/// directory already ends in one.
pub open spec fn joined_path(dir: Seq<char>, name: Seq<char>) -> Seq<char> {
    if dir.len() > 0 && dir.last() == '/' {
        dir + name
    } else {
        dir + seq!['/'] + name
    }
}

fn path_join(dir: &str, name: &str) -> (p: String)
    ensures
        p@ == joined_path(dir@, name@),
{
    let len = dir.unicode_len();
    let mut p = dir.to_owned();
    if len == 0 || dir.get_char(len - 1) != '/' {
        proof {
            reveal_strlit("/");
            assert("/"@ =~= seq!['/']);
        }
        p.append("/");
    }
    p.append(name);
    proof {
        assert(p@ =~= joined_path(dir@, name@));
    }
    p
}

/// The full local path of the database snapshot under the data directory.
pub fn db_full_path(data_dir: &str) -> (p: String)
    ensures
        p@ == joined_path(data_dir@, "kvideomanager.sqlite"@),
{
    path_join(data_dir, "kvideomanager.sqlite")
}

/// The full local path of the manifest file under the data directory.
pub fn filelist_full_path(data_dir: &str) -> (p: String)
    ensures
        p@ == joined_path(data_dir@, "filelist.txt"@),
{
    path_join(data_dir, "filelist.txt")
}

/// Where one refresh stands.
#[derive(Debug, PartialEq, Eq, Clone, Copy, Structural)]
pub enum RefreshState {
    /// Nothing started yet.
    Idle,
    /// The database snapshot fetch is outstanding.
    FetchingDatabase,
    /// The manifest file fetch is outstanding.
    FetchingFileList,
    /// The refresh has finished, well or badly.
    Done,
}

/// What the driving loop tells the orchestrator.
#[derive(Debug, PartialEq, Eq, Clone, Copy)]
pub enum RefreshEvent {
    /// A refresh was requested; says whether the destination directory
    /// exists.
    Start { target_dir_exists: bool },
    /// The outstanding fetch finished.
    FetchFinished(Result<(), FetchError>),
}

/// What the driving loop must do next.
#[derive(Debug, PartialEq, Eq, Clone, Copy)]
pub enum RefreshCommand {
    /// Begin fetching `target`, reporting progress only when asked to.
    StartFetch { target: FetchTarget, report_progress: bool },
    /// The refresh is over with this outcome.
    Finish(Result<(), RefreshError>),
    /// The event does not apply in the current state; do nothing.  In
    /// particular a second refresh cannot start while one is outstanding.
    Ignore,
}

/// The transition table of one refresh: check the destination directory,
/// fetch the database with progress reporting, then — only after the
/// database fetch fully succeeded — fetch the manifest with progress
/// reporting suppressed.  Any fetch failure finishes the refresh at once
/// with the error unchanged.
pub open spec fn refresh_transition(s: RefreshState, event: RefreshEvent) -> (
    RefreshState,
    RefreshCommand,
) {
    match (s, event) {
        (RefreshState::Idle, RefreshEvent::Start { target_dir_exists }) => {
            if target_dir_exists {
                (
                    RefreshState::FetchingDatabase,
                    RefreshCommand::StartFetch { target: FetchTarget::Database, report_progress: true },
                )
            } else {
                (
                    RefreshState::Done,
                    RefreshCommand::Finish(Err(RefreshError::TargetDirMissing)),
                )
            }
        },
        (RefreshState::FetchingDatabase, RefreshEvent::FetchFinished(outcome)) => {
            match outcome {
                Ok(()) => (
                    RefreshState::FetchingFileList,
                    RefreshCommand::StartFetch { target: FetchTarget::FileList, report_progress: false },
                ),
                Err(e) => (RefreshState::Done, RefreshCommand::Finish(Err(RefreshError::Fetch(e)))),
            }
        },
        (RefreshState::FetchingFileList, RefreshEvent::FetchFinished(outcome)) => {
            match outcome {
                Ok(()) => (RefreshState::Done, RefreshCommand::Finish(Ok(()))),
                Err(e) => (RefreshState::Done, RefreshCommand::Finish(Err(RefreshError::Fetch(e)))),
            }
        },
        _ => (s, RefreshCommand::Ignore),
    }
}

/// One refresh operation being driven from outside.
pub struct RefreshTask {
    pub state: RefreshState,
}

impl RefreshTask {
    /// A refresh that has not started.
    pub fn new() -> (t: RefreshTask)
        ensures
            t.state == RefreshState::Idle,
    {
        RefreshTask { state: RefreshState::Idle }
    }

    /// Feeds one event into the refresh.
    pub fn step(&mut self, event: RefreshEvent) -> (c: RefreshCommand)
        ensures
            final(self).state == refresh_transition(old(self).state, event).0,
            c == refresh_transition(old(self).state, event).1,
    {
        match (self.state, event) {
            (RefreshState::Idle, RefreshEvent::Start { target_dir_exists }) => {
                if target_dir_exists {
                    self.state = RefreshState::FetchingDatabase;
                    RefreshCommand::StartFetch {
                        target: FetchTarget::Database,
                        report_progress: true,
                    }
                } else {
                    self.state = RefreshState::Done;
                    RefreshCommand::Finish(Err(RefreshError::TargetDirMissing))
                }
            },
            (RefreshState::FetchingDatabase, RefreshEvent::FetchFinished(outcome)) => {
                match outcome {
                    Ok(()) => {
                        self.state = RefreshState::FetchingFileList;
                        RefreshCommand::StartFetch {
                            target: FetchTarget::FileList,
                            report_progress: false,
                        }
                    },
                    Err(e) => {
                        self.state = RefreshState::Done;
                        RefreshCommand::Finish(Err(RefreshError::Fetch(e)))
                    },
                }
            },
            (RefreshState::FetchingFileList, RefreshEvent::FetchFinished(outcome)) => {
                match outcome {
                    Ok(()) => {
                        self.state = RefreshState::Done;
                        RefreshCommand::Finish(Ok(()))
                    },
                    Err(e) => {
                        self.state = RefreshState::Done;
                        RefreshCommand::Finish(Err(RefreshError::Fetch(e)))
                    },
                }
            },
            _ => RefreshCommand::Ignore,
        }
    }
}

/// A failed database fetch finishes the refresh at once with that error
/// unchanged; in particular the manifest fetch is never started.
pub proof fn lemma_failed_database_fetch_stops_refresh(e: FetchError)
    ensures
        refresh_transition(
            RefreshState::FetchingDatabase,
            RefreshEvent::FetchFinished(Err(e)),
        ) == (RefreshState::Done, RefreshCommand::Finish(Err(RefreshError::Fetch(e)))),
{
}

/// The manifest fetch is commanded only right after the database fetch
/// fully succeeded, and always with progress reporting suppressed; the
/// database fetch always reports progress.
pub proof fn lemma_filelist_strictly_follows_database(s: RefreshState, event: RefreshEvent)
    ensures
        (refresh_transition(s, event).1 matches RefreshCommand::StartFetch {
            target: FetchTarget::FileList,
            ..
        }) ==> s == RefreshState::FetchingDatabase && event == RefreshEvent::FetchFinished(
            Ok(()),
        ),
        (match refresh_transition(s, event).1 {
            RefreshCommand::StartFetch { target, report_progress } => report_progress == (
            target == FetchTarget::Database),
            _ => true,
        }),
{
    match (s, event) {
        (RefreshState::FetchingDatabase, RefreshEvent::FetchFinished(outcome)) => {
            match outcome {
                Ok(unit) => {
                    assert(event == RefreshEvent::FetchFinished(Ok::<(), FetchError>(())));
                },
                Err(e) => {},
            }
        },
        _ => {},
    }
}

/// A refresh cannot be started over: while one is outstanding, or once it
/// is done, a further start request is ignored.
pub proof fn lemma_no_reentrant_refresh(s: RefreshState, exists_flag: bool)
    requires
        s != RefreshState::Idle,
    ensures
        refresh_transition(s, RefreshEvent::Start { target_dir_exists: exists_flag }) == (
            s,
            RefreshCommand::Ignore,
        ),
{
}

} // verus!
