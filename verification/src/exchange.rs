//! The vocabulary between a provisioning run and its host: what the run asks
//! for, and what the host may answer.

use vstd::prelude::*;
use crate::cleanup::{entries_view, DirEntry, DirEntryView};
use crate::platform::{Architecture, Os};

verus! {

/// The progress the host is told about.
#[derive(Clone, Copy, Debug, PartialEq, Eq, Structural)]
pub enum InstallationStatus {
    CheckingForUpdate,
    Downloading,
}

/// The latest release, as the remote metadata document names it.
#[derive(Clone, Debug, PartialEq, Eq)]
pub struct ReleaseMetadata {
    pub version: String,
}

/// How the request for the metadata document ended.
#[derive(Clone, Debug, PartialEq, Eq)]
pub enum Fetched {
    /// The document arrived and names a release.
    Release(ReleaseMetadata),
    /// The document could not be fetched.
    Unreachable(String),
    /// The document arrived but does not name a release.
    Malformed(String),
}

/// The mathematical content of a [`Fetched`].
pub enum FetchedView {
    Release { version: Seq<char> },
    Unreachable(Seq<char>),
    Malformed(Seq<char>),
}

impl View for Fetched {
    type V = FetchedView;

    open spec fn view(&self) -> FetchedView {
        match *self {
            Fetched::Release(metadata) => FetchedView::Release { version: metadata.version@ },
            Fetched::Unreachable(detail) => FetchedView::Unreachable(detail@),
            Fetched::Malformed(detail) => FetchedView::Malformed(detail@),
        }
    }
}

/// The contents of a list of headers: names and values, in order.
pub open spec fn headers_view(headers: Seq<(String, String)>) -> Seq<(Seq<char>, Seq<char>)> {
    Seq::new(headers.len(), |i: int| (headers[i].0@, headers[i].1@))
}

/// One thing the host is asked to do on behalf of a provisioning run.
#[derive(Clone, Debug, PartialEq, Eq)]
pub enum Request {
    /// Look the executable up on the user's search path.
    Which { name: String },
    /// Tell whether `path` is an existing regular file.
    IsFile { path: String },
    /// Show the given progress to the user.
    Notify { status: InstallationStatus },
    /// Fetch the metadata document with one GET request to `url`, sent with
    /// the given headers, and decode it.
    FetchMetadata { url: String, headers: Vec<(String, String)> },
    /// Tell which platform the host runs on.
    CurrentPlatform,
    /// Create the directory `path`, and its parents where they are missing.
    CreateDirectory { path: String },
    /// Download `url`, as it is served, to the file `path`.
    Download { url: String, path: String },
    /// Mark the file `path` executable.
    MakeExecutable { path: String },
    /// List the entries of the working directory.
    ListWorkingDirectory,
    /// Remove the entry at `index` of the listing, with all it holds.
    Remove { index: usize },
}

/// The mathematical content of a [`Request`].
pub enum RequestView {
    Which { name: Seq<char> },
    IsFile { path: Seq<char> },
    Notify { status: InstallationStatus },
    FetchMetadata { url: Seq<char>, headers: Seq<(Seq<char>, Seq<char>)> },
    CurrentPlatform,
    CreateDirectory { path: Seq<char> },
    Download { url: Seq<char>, path: Seq<char> },
    MakeExecutable { path: Seq<char> },
    ListWorkingDirectory,
    Remove { index: int },
}

impl View for Request {
    type V = RequestView;

    open spec fn view(&self) -> RequestView {
        match *self {
            Request::Which { name } => RequestView::Which { name: name@ },
            Request::IsFile { path } => RequestView::IsFile { path: path@ },
            Request::Notify { status } => RequestView::Notify { status },
            Request::FetchMetadata { url, headers } => RequestView::FetchMetadata {
                url: url@,
                headers: headers_view(headers@),
            },
            Request::CurrentPlatform => RequestView::CurrentPlatform,
            Request::CreateDirectory { path } => RequestView::CreateDirectory { path: path@ },
            Request::Download { url, path } => RequestView::Download { url: url@, path: path@ },
            Request::MakeExecutable { path } => RequestView::MakeExecutable { path: path@ },
            Request::ListWorkingDirectory => RequestView::ListWorkingDirectory,
            Request::Remove { index } => RequestView::Remove { index: index as int },
        }
    }
}

impl RequestView {
    /// Whether carrying out the request takes a round trip to the remote
    /// side.
    pub open spec fn is_network(self) -> bool {
        self is FetchMetadata || self is Download
    }
}

/// What the host answers to a [`Request`].
#[derive(Debug)]
pub enum Reply {
    /// The path found on the search path, if any.
    Which(Option<String>),
    /// Whether the path is an existing regular file.
    IsFile(bool),
    /// The progress was shown.
    Notified,
    /// How fetching and decoding the metadata document ended.
    Metadata(Fetched),
    /// The platform of the host; `None` for a value this library has no
    /// token for.
    Platform { os: Option<Os>, arch: Option<Architecture> },
    /// How creating the directory ended.
    DirectoryCreated(Result<(), String>),
    /// How the download ended.
    Downloaded(Result<(), String>),
    /// How marking the file executable ended.
    MadeExecutable(Result<(), String>),
    /// The entries of the working directory, or why it could not be listed.
    Listing(Result<Vec<DirEntry>, String>),
    /// How removing the entry ended.
    Removed(Result<(), String>),
}

/// The mathematical content of a [`Reply`].
pub enum ReplyView {
    Which(Option<Seq<char>>),
    IsFile(bool),
    Notified,
    Metadata(FetchedView),
    Platform { os: Option<Os>, arch: Option<Architecture> },
    DirectoryCreated(Result<(), Seq<char>>),
    Downloaded(Result<(), Seq<char>>),
    MadeExecutable(Result<(), Seq<char>>),
    Listing(Result<Seq<DirEntryView>, Seq<char>>),
    Removed(Result<(), Seq<char>>),
}

/// The text of an optional string.
pub open spec fn optional_text(text: Option<String>) -> Option<Seq<char>> {
    match text {
        Some(text) => Some(text@),
        None => None,
    }
}

/// The content of the outcome of an operation that yields nothing.
pub open spec fn outcome_view(outcome: Result<(), String>) -> Result<(), Seq<char>> {
    match outcome {
        Ok(_) => Ok(()),
        Err(detail) => Err(detail@),
    }
}

/// The content of the outcome of a listing.
pub open spec fn listing_view(outcome: Result<Vec<DirEntry>, String>) -> Result<
    Seq<DirEntryView>,
    Seq<char>,
> {
    match outcome {
        Ok(entries) => Ok(entries_view(entries@)),
        Err(detail) => Err(detail@),
    }
}

impl View for Reply {
    type V = ReplyView;

    open spec fn view(&self) -> ReplyView {
        match *self {
            Reply::Which(found) => ReplyView::Which(optional_text(found)),
            Reply::IsFile(present) => ReplyView::IsFile(present),
            Reply::Notified => ReplyView::Notified,
            Reply::Metadata(fetched) => ReplyView::Metadata(fetched@),
            Reply::Platform { os, arch } => ReplyView::Platform { os, arch },
            Reply::DirectoryCreated(outcome) => ReplyView::DirectoryCreated(outcome_view(outcome)),
            Reply::Downloaded(outcome) => ReplyView::Downloaded(outcome_view(outcome)),
            Reply::MadeExecutable(outcome) => ReplyView::MadeExecutable(outcome_view(outcome)),
            Reply::Listing(outcome) => ReplyView::Listing(listing_view(outcome)),
            Reply::Removed(outcome) => ReplyView::Removed(outcome_view(outcome)),
        }
    }
}

} // verus!
