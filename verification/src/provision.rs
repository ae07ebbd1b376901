//! A provisioning run: the states it passes through, the request that is
//! pending in each, and where each reply of the host leads.
//!
//! The order is fixed. The search path is asked first and wins whenever it
//! has the executable. A path remembered from an earlier run is used if it
//! still names a file. Only then is the remote side asked for the latest
//! release; the release is downloaded unless it is already installed, and
//! after a download every other entry of the working directory is removed.

use vstd::prelude::*;
use crate::cleanup::{entries_view, first_foreign, DirEntry, DirEntryView};
use crate::error::{FilesystemOperation, NetworkRequest, ProvisionError, ProvisionErrorView};
use crate::exchange::{FetchedView, InstallationStatus, ReplyView, Request, RequestView};
use crate::platform::{Architecture, Os};
use crate::release::{
    binary_name, binary_name_text, binary_path, binary_path_text, download_url,
    download_url_text, metadata_headers, metadata_headers_text, metadata_url, metadata_url_text,
    version_dir, version_dir_text,
};

verus! {

/// A release for the platform of the host.
#[derive(Clone, Debug, PartialEq, Eq)]
pub struct Release {
    pub version: String,
    pub os: Os,
    pub arch: Architecture,
}

/// The mathematical content of a [`Release`].
pub struct ReleaseView {
    pub version: Seq<char>,
    pub os: Os,
    pub arch: Architecture,
}

impl View for Release {
    type V = ReleaseView;

    open spec fn view(&self) -> ReleaseView {
        ReleaseView { version: self.version@, os: self.os, arch: self.arch }
    }
}

impl ReleaseView {
    /// The URL the executable is downloaded from.
    pub open spec fn download_url(self) -> Seq<char> {
        download_url_text(self.version, self.os, self.arch)
    }

    /// The name of the directory the release is installed in.
    pub open spec fn version_dir(self) -> Seq<char> {
        version_dir_text(self.version)
    }

    /// The path of the installed executable.
    pub open spec fn binary_path(self) -> Seq<char> {
        binary_path_text(self.version)
    }
}

impl Release {
    /// The URL the executable is downloaded from.
    pub fn download_url(&self) -> (url: String)
        ensures
            url@ == self@.download_url(),
    {
        download_url(self.version.as_str(), self.os, self.arch)
    }

    /// The name of the directory the release is installed in.
    pub fn version_dir(&self) -> (dir: String)
        ensures
            dir@ == self@.version_dir(),
    {
        version_dir(self.version.as_str())
    }

    /// The path of the installed executable.
    pub fn binary_path(&self) -> (path: String)
        ensures
            path@ == self@.binary_path(),
    {
        binary_path(self.version.as_str())
    }
}

/// An entry of the working directory that should have gone and is still
/// there, with the reason the host gave.
#[derive(Clone, Debug, PartialEq, Eq)]
pub struct Leftover {
    pub index: usize,
    pub detail: String,
}

/// The mathematical content of a [`Leftover`].
pub struct LeftoverView {
    pub index: int,
    pub detail: Seq<char>,
}

impl View for Leftover {
    type V = LeftoverView;

    open spec fn view(&self) -> LeftoverView {
        LeftoverView { index: self.index as int, detail: self.detail@ }
    }
}

/// The contents of a list of leftovers.
pub open spec fn leftovers_view(leftovers: Seq<Leftover>) -> Seq<LeftoverView> {
    Seq::new(leftovers.len(), |i: int| leftovers[i]@)
}

/// How a provisioning run ended.
#[derive(Debug)]
pub struct Completion {
    /// The path of the executable to launch, or why there is none.
    pub result: Result<String, ProvisionError>,
    /// The entries whose removal the host refused. They cost disk space and
    /// nothing else, so they never turn a success into a failure.
    pub leftovers: Vec<Leftover>,
}

/// The mathematical content of a [`Completion`].
pub struct CompletionView {
    pub result: Result<Seq<char>, ProvisionErrorView>,
    pub leftovers: Seq<LeftoverView>,
}

/// The content of the result of a run.
pub open spec fn result_view(result: Result<String, ProvisionError>) -> Result<
    Seq<char>,
    ProvisionErrorView,
> {
    match result {
        Ok(path) => Ok(path@),
        Err(error) => Err(error@),
    }
}

impl View for Completion {
    type V = CompletionView;

    open spec fn view(&self) -> CompletionView {
        CompletionView {
            result: result_view(self.result),
            leftovers: leftovers_view(self.leftovers@),
        }
    }
}

/// A provisioning run, between two requests. Each state is named after what
/// the run is waiting for.
#[derive(Debug)]
pub enum Provisioning {
    /// The answer of the search path.
    SearchPath,
    /// Whether the remembered path still names a file.
    CachedBinary { path: String },
    /// The host showing that an update check is under way.
    CheckingNotice,
    /// The metadata document.
    Metadata,
    /// The platform of the host.
    Platform { version: String },
    /// Whether the release is already installed.
    InstalledBinary { release: Release },
    /// The host showing that a download is under way.
    DownloadNotice { release: Release },
    /// The version directory being created.
    Directory { release: Release },
    /// The download.
    Download { release: Release },
    /// The downloaded file being marked executable.
    Executable { release: Release },
    /// The listing of the working directory.
    Listing { release: Release },
    /// The removal of the entry at `index` of the listing.
    Removal { release: Release, entries: Vec<DirEntry>, index: usize, leftovers: Vec<Leftover> },
}

/// The mathematical content of a [`Provisioning`].
pub enum ProvisioningView {
    SearchPath,
    CachedBinary { path: Seq<char> },
    CheckingNotice,
    Metadata,
    Platform { version: Seq<char> },
    InstalledBinary { release: ReleaseView },
    DownloadNotice { release: ReleaseView },
    Directory { release: ReleaseView },
    Download { release: ReleaseView },
    Executable { release: ReleaseView },
    Listing { release: ReleaseView },
    Removal {
        release: ReleaseView,
        entries: Seq<DirEntryView>,
        index: int,
        leftovers: Seq<LeftoverView>,
    },
}

impl View for Provisioning {
    type V = ProvisioningView;

    open spec fn view(&self) -> ProvisioningView {
        match *self {
            Provisioning::SearchPath => ProvisioningView::SearchPath,
            Provisioning::CachedBinary { path } => ProvisioningView::CachedBinary { path: path@ },
            Provisioning::CheckingNotice => ProvisioningView::CheckingNotice,
            Provisioning::Metadata => ProvisioningView::Metadata,
            Provisioning::Platform { version } => ProvisioningView::Platform { version: version@ },
            Provisioning::InstalledBinary { release } => ProvisioningView::InstalledBinary {
                release: release@,
            },
            Provisioning::DownloadNotice { release } => ProvisioningView::DownloadNotice {
                release: release@,
            },
            Provisioning::Directory { release } => ProvisioningView::Directory {
                release: release@,
            },
            Provisioning::Download { release } => ProvisioningView::Download { release: release@ },
            Provisioning::Executable { release } => ProvisioningView::Executable {
                release: release@,
            },
            Provisioning::Listing { release } => ProvisioningView::Listing { release: release@ },
            Provisioning::Removal { release, entries, index, leftovers } => {
                ProvisioningView::Removal {
                    release: release@,
                    entries: entries_view(entries@),
                    index: index as int,
                    leftovers: leftovers_view(leftovers@),
                }
            },
        }
    }
}

/// The path under which the working directory is listed.
pub open spec fn working_directory_text() -> Seq<char> {
    "."@
}

impl ProvisioningView {
    /// The request that is pending in this state.
    pub open spec fn request(self) -> RequestView {
        match self {
            ProvisioningView::SearchPath => RequestView::Which { name: binary_name_text() },
            ProvisioningView::CachedBinary { path } => RequestView::IsFile { path },
            ProvisioningView::CheckingNotice => RequestView::Notify {
                status: InstallationStatus::CheckingForUpdate,
            },
            ProvisioningView::Metadata => RequestView::FetchMetadata {
                url: metadata_url_text(),
                headers: metadata_headers_text(),
            },
            ProvisioningView::Platform { .. } => RequestView::CurrentPlatform,
            ProvisioningView::InstalledBinary { release } => RequestView::IsFile {
                path: release.binary_path(),
            },
            ProvisioningView::DownloadNotice { .. } => RequestView::Notify {
                status: InstallationStatus::Downloading,
            },
            ProvisioningView::Directory { release } => RequestView::CreateDirectory {
                path: release.version_dir(),
            },
            ProvisioningView::Download { release } => RequestView::Download {
                url: release.download_url(),
                path: release.binary_path(),
            },
            ProvisioningView::Executable { release } => RequestView::MakeExecutable {
                path: release.binary_path(),
            },
            ProvisioningView::Listing { .. } => RequestView::ListWorkingDirectory,
            ProvisioningView::Removal { index, .. } => RequestView::Remove { index },
        }
    }
}

impl Provisioning {
    /// The request that is pending in this state.
    pub fn request(&self) -> (request: Request)
        ensures
            request@ == self@.request(),
    {
        match self {
            Provisioning::SearchPath => Request::Which { name: binary_name() },
            Provisioning::CachedBinary { path } => Request::IsFile { path: path.clone() },
            Provisioning::CheckingNotice => Request::Notify {
                status: InstallationStatus::CheckingForUpdate,
            },
            Provisioning::Metadata => Request::FetchMetadata {
                url: metadata_url(),
                headers: metadata_headers(),
            },
            Provisioning::Platform { .. } => Request::CurrentPlatform,
            Provisioning::InstalledBinary { release } => Request::IsFile {
                path: release.binary_path(),
            },
            Provisioning::DownloadNotice { .. } => Request::Notify {
                status: InstallationStatus::Downloading,
            },
            Provisioning::Directory { release } => Request::CreateDirectory {
                path: release.version_dir(),
            },
            Provisioning::Download { release } => Request::Download {
                url: release.download_url(),
                path: release.binary_path(),
            },
            Provisioning::Executable { release } => Request::MakeExecutable {
                path: release.binary_path(),
            },
            Provisioning::Listing { .. } => Request::ListWorkingDirectory,
            Provisioning::Removal { index, .. } => Request::Remove { index: *index },
        }
    }
}

/// What a reply leads to: the next state of the run, or its end.
#[derive(Debug)]
pub enum Step {
    Continue(Provisioning),
    Finished(Completion),
}

/// The mathematical content of a [`Step`].
pub enum StepView {
    Continue(ProvisioningView),
    Finished(CompletionView),
}

impl View for Step {
    type V = StepView;

    open spec fn view(&self) -> StepView {
        match *self {
            Step::Continue(run) => StepView::Continue(run@),
            Step::Finished(completion) => StepView::Finished(completion@),
        }
    }
}

/// A run that ends with the executable at `path`.
pub open spec fn succeeded(path: Seq<char>, leftovers: Seq<LeftoverView>) -> StepView {
    StepView::Finished(CompletionView { result: Ok(path), leftovers })
}

/// A run that ends without an executable.
pub open spec fn failed(error: ProvisionErrorView, leftovers: Seq<LeftoverView>) -> StepView {
    StepView::Finished(CompletionView { result: Err(error), leftovers })
}

/// The sweep over the listing from position `from` on: the first entry that
/// is not the version directory is removed if it could be read, and ends the
/// run if it could not; when no such entry is left the installed release is
/// remembered and the run succeeds.
pub open spec fn sweep(
    remembered: Option<Seq<char>>,
    release: ReleaseView,
    entries: Seq<DirEntryView>,
    from: int,
    leftovers: Seq<LeftoverView>,
) -> (Option<Seq<char>>, StepView) {
    let position = first_foreign(entries, release.version_dir(), from);
    if position >= entries.len() {
        (Some(release.binary_path()), succeeded(release.binary_path(), leftovers))
    } else {
        match entries[position] {
            DirEntryView::Unreadable(detail) => (
                remembered,
                failed(
                    ProvisionErrorView::Filesystem {
                        operation: FilesystemOperation::ReadDirectoryEntry,
                        path: working_directory_text(),
                        detail,
                    },
                    leftovers,
                ),
            ),
            _ => (
                remembered,
                StepView::Continue(
                    ProvisioningView::Removal { release, entries, index: position, leftovers },
                ),
            ),
        }
    }
}

/// Where `reply` leads from the state `run`, and what is remembered
/// afterwards, given the path `remembered` before. A reply that does not
/// answer the pending request changes nothing: the run stays where it is and
/// the request stays pending.
pub open spec fn transition(
    remembered: Option<Seq<char>>,
    run: ProvisioningView,
    reply: ReplyView,
) -> (Option<Seq<char>>, StepView) {
    let none = Seq::<LeftoverView>::empty();
    match (run, reply) {
        (ProvisioningView::SearchPath, ReplyView::Which(Some(path))) => (
            remembered,
            succeeded(path, none),
        ),
        (ProvisioningView::SearchPath, ReplyView::Which(None)) => match remembered {
            Some(path) => (remembered, StepView::Continue(ProvisioningView::CachedBinary { path })),
            None => (remembered, StepView::Continue(ProvisioningView::CheckingNotice)),
        },
        (ProvisioningView::CachedBinary { path }, ReplyView::IsFile(present)) => if present {
            (remembered, succeeded(path, none))
        } else {
            (remembered, StepView::Continue(ProvisioningView::CheckingNotice))
        },
        (ProvisioningView::CheckingNotice, ReplyView::Notified) => (
            remembered,
            StepView::Continue(ProvisioningView::Metadata),
        ),
        (ProvisioningView::Metadata, ReplyView::Metadata(fetched)) => match fetched {
            FetchedView::Release { version } => (
                remembered,
                StepView::Continue(ProvisioningView::Platform { version }),
            ),
            FetchedView::Unreachable(detail) => (
                remembered,
                failed(
                    ProvisionErrorView::Network {
                        request: NetworkRequest::Metadata,
                        url: metadata_url_text(),
                        detail,
                    },
                    none,
                ),
            ),
            FetchedView::Malformed(detail) => (
                remembered,
                failed(ProvisionErrorView::Parse { detail }, none),
            ),
        },
        (ProvisioningView::Platform { version }, ReplyView::Platform { os, arch }) => match (
            os,
            arch,
        ) {
            (Some(os), Some(arch)) => (
                remembered,
                StepView::Continue(
                    ProvisioningView::InstalledBinary {
                        release: ReleaseView { version, os, arch },
                    },
                ),
            ),
            _ => (remembered, failed(ProvisionErrorView::UnsupportedPlatform, none)),
        },
        (ProvisioningView::InstalledBinary { release }, ReplyView::IsFile(present)) => if present {
            (Some(release.binary_path()), succeeded(release.binary_path(), none))
        } else {
            (remembered, StepView::Continue(ProvisioningView::DownloadNotice { release }))
        },
        (ProvisioningView::DownloadNotice { release }, ReplyView::Notified) => (
            remembered,
            StepView::Continue(ProvisioningView::Directory { release }),
        ),
        (ProvisioningView::Directory { release }, ReplyView::DirectoryCreated(outcome)) => {
            match outcome {
                Ok(_) => (remembered, StepView::Continue(ProvisioningView::Download { release })),
                Err(detail) => (
                    remembered,
                    failed(
                        ProvisionErrorView::Filesystem {
                            operation: FilesystemOperation::CreateDirectory,
                            path: release.version_dir(),
                            detail,
                        },
                        none,
                    ),
                ),
            }
        },
        (ProvisioningView::Download { release }, ReplyView::Downloaded(outcome)) => match outcome {
            Ok(_) => (remembered, StepView::Continue(ProvisioningView::Executable { release })),
            Err(detail) => (
                remembered,
                failed(
                    ProvisionErrorView::Network {
                        request: NetworkRequest::Binary,
                        url: release.download_url(),
                        detail,
                    },
                    none,
                ),
            ),
        },
        (ProvisioningView::Executable { release }, ReplyView::MadeExecutable(outcome)) => {
            match outcome {
                Ok(_) => (remembered, StepView::Continue(ProvisioningView::Listing { release })),
                Err(detail) => (
                    remembered,
                    failed(
                        ProvisionErrorView::Filesystem {
                            operation: FilesystemOperation::MakeExecutable,
                            path: release.binary_path(),
                            detail,
                        },
                        none,
                    ),
                ),
            }
        },
        (ProvisioningView::Listing { release }, ReplyView::Listing(outcome)) => match outcome {
            Ok(entries) => sweep(remembered, release, entries, 0, none),
            Err(detail) => (
                remembered,
                failed(
                    ProvisionErrorView::Filesystem {
                        operation: FilesystemOperation::ListWorkingDirectory,
                        path: working_directory_text(),
                        detail,
                    },
                    none,
                ),
            ),
        },
        (
            ProvisioningView::Removal { release, entries, index, leftovers },
            ReplyView::Removed(outcome),
        ) => match outcome {
            Ok(_) => sweep(remembered, release, entries, index + 1, leftovers),
            Err(detail) => sweep(
                remembered,
                release,
                entries,
                index + 1,
                leftovers.push(LeftoverView { index, detail }),
            ),
        },
        _ => (remembered, StepView::Continue(run)),
    }
}

} // verus!
