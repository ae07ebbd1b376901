//! A model of the host, and of a whole provisioning run against it.
//!
//! The step function of a run says what one reply leads to. What a run does
//! as a whole depends on what the host answers, so the laws of this library
//! are stated over a model of the host: a search path, a set of regular
//! files, a working directory, and the outcome the host has in store for
//! each operation that can fail. The model answers every request as a host
//! of that description would, and changes as the request demands: a download
//! that succeeds leaves a file, a directory that is created shows in the
//! working directory under its first component, a removal that succeeds
//! takes an entry away together with the files below it.

use vstd::prelude::*;
use crate::cleanup::DirEntryView;
use crate::exchange::{FetchedView, ReplyView, RequestView};
use crate::platform::{Architecture, Os};
use crate::provision::{transition, CompletionView, ProvisioningView, StepView};
use crate::release::{binary_path_text, lemma_version_dir_plain, version_dir_text};

verus! {

/// Whether `path` names the entry `name` of the working directory or
/// something below it.
pub open spec fn is_within(path: Seq<char>, name: Seq<char>) -> bool {
    path == name || (name + "/"@).is_prefix_of(path)
}

/// The first component of `path`: what precedes its first separator.
pub open spec fn first_component(path: Seq<char>) -> Seq<char>
    decreases path.len(),
{
    if path.len() == 0 || path[0] == '/' {
        Seq::empty()
    } else {
        seq![path[0]] + first_component(path.drop_first())
    }
}

/// The entries among the first `count` that have not been removed, in order.
pub open spec fn kept_entries(entries: Seq<DirEntryView>, removed: Set<int>, count: int) -> Seq<
    DirEntryView,
>
    decreases count,
{
    if count <= 0 {
        Seq::empty()
    } else if removed.contains(count - 1) {
        kept_entries(entries, removed, count - 1)
    } else {
        kept_entries(entries, removed, count - 1).push(entries[count - 1])
    }
}

/// The host, as far as a provisioning run can tell.
pub struct Host {
    /// What the search path answers for the executable.
    pub search_path: Option<Seq<char>>,
    /// The paths that name a regular file.
    pub files: Set<Seq<char>>,
    /// The entries of the working directory, in the order a listing reads
    /// them. An unreadable entry stands for a failure to read at that place.
    pub entries: Seq<DirEntryView>,
    /// The positions in `entries` that have been removed since.
    pub removed: Set<int>,
    /// How fetching the metadata document ends.
    pub metadata: FetchedView,
    /// The operating system the host reports, if this library knows it.
    pub os: Option<Os>,
    /// The architecture the host reports, if this library knows it.
    pub arch: Option<Architecture>,
    /// How creating a directory ends.
    pub create_directory: Result<(), Seq<char>>,
    /// How a download ends.
    pub download: Result<(), Seq<char>>,
    /// How marking a file executable ends.
    pub make_executable: Result<(), Seq<char>>,
    /// Why the working directory cannot be listed, if it cannot.
    pub listing_failure: Option<Seq<char>>,
    /// The positions whose removal the host refuses, each with the reason.
    pub refused: Map<int, Seq<char>>,
}

impl Host {
    /// The entries the working directory holds now.
    pub open spec fn directory(self) -> Seq<DirEntryView> {
        kept_entries(self.entries, self.removed, self.entries.len() as int)
    }

    /// A host in a state that a real one can be in: nothing is half removed,
    /// no two entries of the working directory share a name, and no name
    /// holds a path separator.
    pub open spec fn well_formed(self) -> bool {
        &&& self.removed == Set::<int>::empty()
        &&& forall|i: int, j: int|
            0 <= i < j < self.entries.len() && self.entries[i] is Named ==> self.entries[i]
                != self.entries[j]
        &&& forall|i: int|
            0 <= i < self.entries.len() ==> (#[trigger] self.entries[i] matches DirEntryView::Named(
                name,
            ) ==> !name.contains('/'))
    }

    /// The host after `request` has been carried out, and what it replies.
    pub open spec fn answer(self, request: RequestView) -> (Host, ReplyView) {
        match request {
            RequestView::Which { .. } => (self, ReplyView::Which(self.search_path)),
            RequestView::IsFile { path } => (self, ReplyView::IsFile(self.files.contains(path))),
            RequestView::Notify { .. } => (self, ReplyView::Notified),
            RequestView::FetchMetadata { .. } => (self, ReplyView::Metadata(self.metadata)),
            RequestView::CurrentPlatform => (
                self,
                ReplyView::Platform { os: self.os, arch: self.arch },
            ),
            RequestView::CreateDirectory { path } => match self.create_directory {
                Ok(_) => {
                    let entry = DirEntryView::Named(first_component(path));
                    (
                        if first_component(path).len() == 0 || self.directory().contains(entry) {
                            self
                        } else {
                            Host { entries: self.entries.push(entry), ..self }
                        },
                        ReplyView::DirectoryCreated(Ok(())),
                    )
                },
                Err(detail) => (self, ReplyView::DirectoryCreated(Err(detail))),
            },
            RequestView::Download { path, .. } => match self.download {
                Ok(_) => (
                    Host { files: self.files.insert(path), ..self },
                    ReplyView::Downloaded(Ok(())),
                ),
                Err(detail) => (self, ReplyView::Downloaded(Err(detail))),
            },
            RequestView::MakeExecutable { .. } => (
                self,
                ReplyView::MadeExecutable(self.make_executable),
            ),
            RequestView::ListWorkingDirectory => match self.listing_failure {
                Some(detail) => (self, ReplyView::Listing(Err(detail))),
                None => (
                    Host { entries: self.directory(), removed: Set::empty(), ..self },
                    ReplyView::Listing(Ok(self.directory())),
                ),
            },
            RequestView::Remove { index } => if self.refused.dom().contains(index) {
                (self, ReplyView::Removed(Err(self.refused[index])))
            } else {
                (
                    Host {
                        removed: self.removed.insert(index),
                        files: if 0 <= index < self.entries.len() {
                            match self.entries[index] {
                                DirEntryView::Named(name) => self.files.filter(
                                    |path: Seq<char>| !is_within(path, name),
                                ),
                                _ => self.files,
                            }
                        } else {
                            self.files
                        },
                        ..self
                    },
                    ReplyView::Removed(Ok(())),
                )
            },
        }
    }
}

/// What a run came to: what the extension remembers afterwards, the state
/// the host is left in, how the run ended if it did, and the requests it
/// made, in order.
pub struct Course {
    pub remembered: Option<Seq<char>>,
    pub host: Host,
    pub completion: Option<CompletionView>,
    pub requests: Seq<RequestView>,
}

/// The run from the state `run` on, for at most `limit` requests.
pub open spec fn drive(
    remembered: Option<Seq<char>>,
    host: Host,
    run: ProvisioningView,
    limit: nat,
) -> Course
    decreases limit,
{
    if limit == 0 {
        Course { remembered, host, completion: None, requests: Seq::empty() }
    } else {
        let request = run.request();
        let (host_after, reply) = host.answer(request);
        let (remembered_after, step) = transition(remembered, run, reply);
        match step {
            StepView::Finished(completion) => Course {
                remembered: remembered_after,
                host: host_after,
                completion: Some(completion),
                requests: seq![request],
            },
            StepView::Continue(next) => {
                let rest = drive(remembered_after, host_after, next, (limit - 1) as nat);
                Course { requests: seq![request] + rest.requests, ..rest }
            },
        }
    }
}

/// The number of requests no run against `host` exceeds.
pub open spec fn request_limit(host: Host) -> nat {
    host.entries.len() + 13
}

/// A whole run against `host`, by an extension that remembers `remembered`.
pub open spec fn provision(remembered: Option<Seq<char>>, host: Host) -> Course {
    drive(remembered, host, ProvisioningView::SearchPath, request_limit(host))
}

/// No more entries are kept than were looked at.
pub proof fn lemma_kept_entries_len(entries: Seq<DirEntryView>, removed: Set<int>, count: int)
    requires
        0 <= count,
    ensures
        kept_entries(entries, removed, count).len() <= count,
    decreases count,
{
    if count > 0 {
        lemma_kept_entries_len(entries, removed, count - 1);
    }
}

/// While nothing has been removed, the working directory holds all its
/// entries.
pub proof fn lemma_kept_entries_all(entries: Seq<DirEntryView>, count: int)
    requires
        0 <= count <= entries.len(),
    ensures
        kept_entries(entries, Set::empty(), count) == entries.take(count),
    decreases count,
{
    if count > 0 {
        lemma_kept_entries_all(entries, count - 1);
    }
    assert(kept_entries(entries, Set::empty(), count) =~= entries.take(count));
}

/// When all entries but the one at `position` have been removed, that one
/// is what the working directory holds.
pub proof fn lemma_kept_entries_single(
    entries: Seq<DirEntryView>,
    removed: Set<int>,
    position: int,
    count: int,
)
    requires
        0 <= position < entries.len(),
        0 <= count <= entries.len(),
        forall|i: int|
            0 <= i < entries.len() ==> (#[trigger] removed.contains(i) <==> i != position),
    ensures
        kept_entries(entries, removed, count) == if count > position {
            seq![entries[position]]
        } else {
            Seq::<DirEntryView>::empty()
        },
    decreases count,
{
    if count > 0 {
        lemma_kept_entries_single(entries, removed, position, count - 1);
        assert(removed.contains(count - 1) <==> count - 1 != position);
    }
    assert(kept_entries(entries, removed, count) =~= if count > position {
        seq![entries[position]]
    } else {
        Seq::<DirEntryView>::empty()
    });
}

/// A path without a separator is its own first component.
pub proof fn lemma_first_component_plain(path: Seq<char>)
    requires
        !path.contains('/'),
    ensures
        first_component(path) == path,
    decreases path.len(),
{
    if path.len() > 0 {
        assert(path[0] != '/') by {
            assert(path.contains(path[0]));
        }
        let rest = path.drop_first();
        assert forall|i: int| 0 <= i < rest.len() implies rest[i] != '/' by {
            assert(rest[i] == path[i + 1]);
            assert(path.contains(path[i + 1]));
        }
        lemma_first_component_plain(rest);
        assert(seq![path[0]] + rest =~= path);
    } else {
        assert(first_component(path) =~= path);
    }
}

/// The executable of a release lies in its version directory and nowhere
/// else: below no other entry of the working directory.
pub proof fn lemma_binary_path_outside(version: Seq<char>, name: Seq<char>)
    requires
        !version.contains('/'),
        !name.contains('/'),
        name != version_dir_text(version),
    ensures
        !is_within(binary_path_text(version), name),
{
    reveal_strlit("/snyk-ls");
    reveal_strlit("/");
    lemma_version_dir_plain(version);
    let dir = version_dir_text(version);
    let path = binary_path_text(version);
    assert(path[dir.len() as int] == '/');
    if path == name {
        assert(name[dir.len() as int] == '/');
    } else if (name + "/"@).is_prefix_of(path) {
        let prefix = name + "/"@;
        assert(prefix[name.len() as int] == '/');
        assert(path[name.len() as int] == '/');
        assert forall|i: int| 0 <= i < name.len() implies name[i] == path[i] by {
            assert(prefix[i] == name[i]);
        }
        if name.len() < dir.len() {
            assert(dir[name.len() as int] == '/');
        } else if name.len() == dir.len() {
            assert(name =~= dir);
        } else {
            assert(name[dir.len() as int] == '/');
        }
    }
}

} // verus!
