//! The extension instance: what it remembers between runs, how a run is
//! started and driven, and how the outcome becomes a launch command.

use vstd::prelude::*;
use vstd::string::StringExecFns;
use crate::cleanup::{entries_view, next_foreign, DirEntry};
use crate::error::{FilesystemOperation, NetworkRequest, ProvisionError};
use crate::exchange::{optional_text, Fetched, Reply};
use crate::provision::{
    leftovers_view, result_view, sweep, transition, working_directory_text, Completion,
    CompletionView, Leftover, LeftoverView, Provisioning, ProvisioningView, Release, Step,
    StepView,
};
use crate::release::metadata_url;

verus! {

/// The extension instance. It remembers the executable that the last cold
/// resolution settled on, and nothing else.
#[derive(Debug)]
pub struct SnykExtension {
    cached_binary_path: Option<String>,
}

impl View for SnykExtension {
    type V = Option<Seq<char>>;

    /// The remembered path, if there is one.
    closed spec fn view(&self) -> Option<Seq<char>> {
        optional_text(self.cached_binary_path)
    }
}

/// The command that launches the language server.
#[derive(Clone, Debug, PartialEq, Eq)]
pub struct LaunchCommand {
    pub command: String,
    pub args: Vec<String>,
    pub env: Vec<(String, String)>,
}

fn working_directory() -> (path: String)
    ensures
        path@ == working_directory_text(),
{
    String::from_str(".")
}

/// The end of a run that removed nothing.
fn finished(result: Result<String, ProvisionError>) -> (step: Step)
    ensures
        step@ == StepView::Finished(
            CompletionView { result: result_view(result), leftovers: Seq::empty() },
        ),
{
    let leftovers: Vec<Leftover> = Vec::new();
    assert(leftovers_view(leftovers@) =~= Seq::empty());
    Step::Finished(Completion { result, leftovers })
}

impl SnykExtension {
    /// A fresh instance, with nothing remembered.
    pub fn new() -> (extension: SnykExtension)
        ensures
            extension@ is None,
    {
        SnykExtension { cached_binary_path: None }
    }

    /// The remembered path, if there is one.
    pub fn cached_binary_path(&self) -> (path: Option<String>)
        ensures
            optional_text(path) == self@,
    {
        match &self.cached_binary_path {
            Some(path) => Some(path.clone()),
            None => None,
        }
    }

    /// Starts a run that resolves the path of the language server
    /// executable. The run begins by asking the search path.
    pub fn language_server_binary_path(&self) -> (run: Provisioning)
        ensures
            run@ == ProvisioningView::SearchPath,
    {
        Provisioning::SearchPath
    }

    fn sweep_from(
        &mut self,
        release: Release,
        entries: Vec<DirEntry>,
        from: usize,
        leftovers: Vec<Leftover>,
    ) -> (step: Step)
        ensures
            (final(self)@, step@) == sweep(
                old(self)@,
                release@,
                entries_view(entries@),
                from as int,
                leftovers_view(leftovers@),
            ),
    {
        let keep = release.version_dir();
        let position = next_foreign(&entries, &keep, from);
        if position >= entries.len() {
            let path = release.binary_path();
            self.cached_binary_path = Some(path.clone());
            Step::Finished(Completion { result: Ok(path), leftovers })
        } else {
            let unreadable: Option<String> = match &entries[position] {
                DirEntry::Unreadable(detail) => Some(detail.clone()),
                _ => None,
            };
            match unreadable {
                Some(detail) => Step::Finished(
                    Completion {
                        result: Err(
                            ProvisionError::Filesystem {
                                operation: FilesystemOperation::ReadDirectoryEntry,
                                path: working_directory(),
                                detail,
                            },
                        ),
                        leftovers,
                    },
                ),
                None => Step::Continue(
                    Provisioning::Removal { release, entries, index: position, leftovers },
                ),
            }
        }
    }

    /// Takes the host's reply to the pending request of `run` and says where
    /// the run goes from there. The remembered path changes only when a cold
    /// resolution succeeds. A reply that does not answer the pending request
    /// is ignored: the run stays where it is.
    pub fn advance(&mut self, run: Provisioning, reply: Reply) -> (step: Step)
        ensures
            (final(self)@, step@) == transition(old(self)@, run@, reply@),
    {
        match run {
            Provisioning::SearchPath => match reply {
                Reply::Which(Some(path)) => finished(Ok(path)),
                Reply::Which(None) => match &self.cached_binary_path {
                    Some(path) => Step::Continue(Provisioning::CachedBinary { path: path.clone() }),
                    None => Step::Continue(Provisioning::CheckingNotice),
                },
                _ => Step::Continue(Provisioning::SearchPath),
            },
            Provisioning::CachedBinary { path } => match reply {
                Reply::IsFile(present) => if present {
                    finished(Ok(path))
                } else {
                    Step::Continue(Provisioning::CheckingNotice)
                },
                _ => Step::Continue(Provisioning::CachedBinary { path }),
            },
            Provisioning::CheckingNotice => match reply {
                Reply::Notified => Step::Continue(Provisioning::Metadata),
                _ => Step::Continue(Provisioning::CheckingNotice),
            },
            Provisioning::Metadata => match reply {
                Reply::Metadata(Fetched::Release(metadata)) => Step::Continue(
                    Provisioning::Platform { version: metadata.version },
                ),
                Reply::Metadata(Fetched::Unreachable(detail)) => finished(
                    Err(
                        ProvisionError::Network {
                            request: NetworkRequest::Metadata,
                            url: metadata_url(),
                            detail,
                        },
                    ),
                ),
                Reply::Metadata(Fetched::Malformed(detail)) => finished(
                    Err(ProvisionError::Parse { detail }),
                ),
                _ => Step::Continue(Provisioning::Metadata),
            },
            Provisioning::Platform { version } => match reply {
                Reply::Platform { os: Some(os), arch: Some(arch) } => Step::Continue(
                    Provisioning::InstalledBinary { release: Release { version, os, arch } },
                ),
                Reply::Platform { .. } => finished(Err(ProvisionError::UnsupportedPlatform)),
                _ => Step::Continue(Provisioning::Platform { version }),
            },
            Provisioning::InstalledBinary { release } => match reply {
                Reply::IsFile(present) => if present {
                    let path = release.binary_path();
                    self.cached_binary_path = Some(path.clone());
                    finished(Ok(path))
                } else {
                    Step::Continue(Provisioning::DownloadNotice { release })
                },
                _ => Step::Continue(Provisioning::InstalledBinary { release }),
            },
            Provisioning::DownloadNotice { release } => match reply {
                Reply::Notified => Step::Continue(Provisioning::Directory { release }),
                _ => Step::Continue(Provisioning::DownloadNotice { release }),
            },
            Provisioning::Directory { release } => match reply {
                Reply::DirectoryCreated(Ok(_)) => Step::Continue(
                    Provisioning::Download { release },
                ),
                Reply::DirectoryCreated(Err(detail)) => finished(
                    Err(
                        ProvisionError::Filesystem {
                            operation: FilesystemOperation::CreateDirectory,
                            path: release.version_dir(),
                            detail,
                        },
                    ),
                ),
                _ => Step::Continue(Provisioning::Directory { release }),
            },
            Provisioning::Download { release } => match reply {
                Reply::Downloaded(Ok(_)) => Step::Continue(Provisioning::Executable { release }),
                Reply::Downloaded(Err(detail)) => finished(
                    Err(
                        ProvisionError::Network {
                            request: NetworkRequest::Binary,
                            url: release.download_url(),
                            detail,
                        },
                    ),
                ),
                _ => Step::Continue(Provisioning::Download { release }),
            },
            Provisioning::Executable { release } => match reply {
                Reply::MadeExecutable(Ok(_)) => Step::Continue(Provisioning::Listing { release }),
                Reply::MadeExecutable(Err(detail)) => finished(
                    Err(
                        ProvisionError::Filesystem {
                            operation: FilesystemOperation::MakeExecutable,
                            path: release.binary_path(),
                            detail,
                        },
                    ),
                ),
                _ => Step::Continue(Provisioning::Executable { release }),
            },
            Provisioning::Listing { release } => match reply {
                Reply::Listing(Ok(entries)) => {
                    let leftovers: Vec<Leftover> = Vec::new();
                    assert(leftovers_view(leftovers@) =~= Seq::empty());
                    self.sweep_from(release, entries, 0, leftovers)
                },
                Reply::Listing(Err(detail)) => finished(
                    Err(
                        ProvisionError::Filesystem {
                            operation: FilesystemOperation::ListWorkingDirectory,
                            path: working_directory(),
                            detail,
                        },
                    ),
                ),
                _ => Step::Continue(Provisioning::Listing { release }),
            },
            Provisioning::Removal { release, entries, index, leftovers } => match reply {
                Reply::Removed(outcome) => {
                    let mut leftovers = leftovers;
                    let ghost before = leftovers_view(leftovers@);
                    match outcome {
                        Ok(_) => {},
                        Err(detail) => {
                            leftovers.push(Leftover { index, detail });
                            assert(leftovers_view(leftovers@) =~= before.push(
                                LeftoverView { index: index as int, detail: detail@ },
                            ));
                        },
                    }
                    // Past the end of the listing nothing is left to look at.
                    let from: usize = if index < entries.len() {
                        index + 1
                    } else {
                        entries.len()
                    };
                    self.sweep_from(release, entries, from, leftovers)
                },
                _ => Step::Continue(Provisioning::Removal { release, entries, index, leftovers }),
            },
        }
    }

    /// Turns the outcome of a run into the command that launches the language
    /// server: the executable, no arguments, and the environment it is handed.
    /// A failed run yields the line of text that describes the failure.
    pub fn language_server_command(
        result: Result<String, ProvisionError>,
        env: Vec<(String, String)>,
    ) -> (command: Result<LaunchCommand, String>)
        ensures
            match result {
                Ok(path) => command matches Ok(launch) && launch.command@ == path@
                    && launch.args@.len() == 0 && launch.env == env,
                Err(error) => command matches Err(text) && text@ == error@.message(),
            },
    {
        match result {
            Ok(path) => Ok(LaunchCommand { command: path, args: Vec::new(), env }),
            Err(error) => Err(error.message()),
        }
    }
}

} // verus!
