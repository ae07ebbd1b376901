//! What holds of every provisioning run, proved over the model of the host.

use vstd::prelude::*;
use crate::cleanup::{lemma_first_foreign, DirEntryView};
use crate::error::ProvisionErrorView;
use crate::exchange::{FetchedView, ReplyView, RequestView};
use crate::model::{
    drive, lemma_binary_path_outside, lemma_first_component_plain, lemma_kept_entries_all,
    lemma_kept_entries_len, lemma_kept_entries_single, provision, request_limit, Course, Host,
};
use crate::platform::{Architecture, Os};
use crate::provision::{failed, transition, CompletionView, ProvisioningView, StepView};
use crate::release::{
    binary_name_text, binary_path_text, lemma_version_dir_plain, version_dir_text,
};

verus! {

/// Whether one of the requests is a download.
pub open spec fn downloads(requests: Seq<RequestView>) -> bool {
    exists|i: int| 0 <= i < requests.len() && (#[trigger] requests[i]) is Download
}

/// Whether the remote side is asked as seldom as can be: once for the
/// metadata document at most, and once for the executable at most, after
/// the metadata.
pub open spec fn without_retry(requests: Seq<RequestView>) -> bool {
    forall|i: int, j: int|
        0 <= i < j < requests.len() && (#[trigger] requests[i]).is_network() && (
        #[trigger] requests[j]).is_network() ==> requests[i] is FetchMetadata && requests[j]
            is Download
}

/// Whether a run in the state `run` has its download behind it.
pub open spec fn past_download(run: ProvisioningView) -> bool {
    run is Executable || run is Listing || run is Removal
}

/// What holds of a run for as long as the platform has not been told.
pub open spec fn before_platform(run: ProvisioningView) -> bool {
    run is SearchPath || run is CachedBinary || run is CheckingNotice || run is Metadata
        || run is Platform
}

/// The number of requests a run in the state `run` can still make.
pub open spec fn requests_left(run: ProvisioningView, host: Host) -> nat {
    match run {
        ProvisioningView::SearchPath => host.entries.len() + 13,
        ProvisioningView::CachedBinary { .. } => host.entries.len() + 12,
        ProvisioningView::CheckingNotice => host.entries.len() + 11,
        ProvisioningView::Metadata => host.entries.len() + 10,
        ProvisioningView::Platform { .. } => host.entries.len() + 9,
        ProvisioningView::InstalledBinary { .. } => host.entries.len() + 8,
        ProvisioningView::DownloadNotice { .. } => host.entries.len() + 7,
        ProvisioningView::Directory { .. } => host.entries.len() + 6,
        ProvisioningView::Download { .. } => host.entries.len() + 4,
        ProvisioningView::Executable { .. } => host.entries.len() + 3,
        ProvisioningView::Listing { .. } => host.entries.len() + 2,
        ProvisioningView::Removal { entries, index, .. } => if index < 0 {
            entries.len() + 2
        } else if index < entries.len() {
            (entries.len() - index + 1) as nat
        } else {
            1
        },
    }
}

/// A run that is allowed as many requests as it can still make comes to an
/// end.
pub proof fn lemma_drive_ends(
    remembered: Option<Seq<char>>,
    host: Host,
    run: ProvisioningView,
    limit: nat,
)
    requires
        limit >= requests_left(run, host),
    ensures
        drive(remembered, host, run, limit).completion is Some,
    decreases limit,
{
    let request = run.request();
    let (host_after, reply) = host.answer(request);
    let (remembered_after, step) = transition(remembered, run, reply);
    lemma_kept_entries_len(host.entries, host.removed, host.entries.len() as int);
    match run {
        ProvisioningView::Listing { release } => {
            lemma_first_foreign(host.directory(), release.version_dir(), 0);
        },
        ProvisioningView::Removal { release, entries, index, .. } => {
            if 0 <= index + 1 {
                lemma_first_foreign(entries, release.version_dir(), index + 1);
            }
        },
        _ => {},
    }
    match step {
        StepView::Continue(next) => {
            assert(requests_left(next, host_after) < requests_left(run, host));
            lemma_drive_ends(remembered_after, host_after, next, (limit - 1) as nat);
        },
        StepView::Finished(_) => {},
    }
}

/// A run makes no more requests than it is allowed.
pub proof fn lemma_drive_requests(
    remembered: Option<Seq<char>>,
    host: Host,
    run: ProvisioningView,
    limit: nat,
)
    ensures
        drive(remembered, host, run, limit).requests.len() <= limit,
    decreases limit,
{
    if limit > 0 {
        let request = run.request();
        let (host_after, reply) = host.answer(request);
        let (remembered_after, step) = transition(remembered, run, reply);
        match step {
            StepView::Continue(next) => {
                lemma_drive_requests(remembered_after, host_after, next, (limit - 1) as nat);
            },
            StepView::Finished(_) => {},
        }
    }
}

/// Every run comes to an end: it yields a path or an error after a number of
/// requests that the size of the working directory bounds.
pub proof fn lemma_provision_ends(remembered: Option<Seq<char>>, host: Host)
    ensures
        provision(remembered, host).completion is Some,
        provision(remembered, host).requests.len() <= request_limit(host),
{
    lemma_drive_ends(remembered, host, ProvisioningView::SearchPath, request_limit(host));
    lemma_drive_requests(remembered, host, ProvisioningView::SearchPath, request_limit(host));
}

/// An executable on the search path always wins. Whatever the extension
/// remembers and whatever is installed, the run ends after the one request
/// to the search path, with the path found there, and changes nothing.
pub proof fn lemma_search_path_wins(remembered: Option<Seq<char>>, host: Host, path: Seq<char>)
    requires
        host.search_path == Some(path),
    ensures
        provision(remembered, host) == (Course {
            remembered,
            host,
            completion: Some(CompletionView { result: Ok(path), leftovers: Seq::empty() }),
            requests: seq![RequestView::Which { name: binary_name_text() }],
        }),
{
}

/// A run remembers a path only when it succeeds. From whatever state it
/// goes on, a run that fails leaves what was remembered as it was: nothing
/// half done is ever taken for an installation.
pub proof fn lemma_drive_failure_remembers_nothing(
    remembered: Option<Seq<char>>,
    host: Host,
    run: ProvisioningView,
    limit: nat,
)
    ensures
        drive(remembered, host, run, limit).completion matches Some(completion)
            ==> completion.result is Err ==> drive(remembered, host, run, limit).remembered
            == remembered,
        drive(remembered, host, run, limit).completion is None ==> drive(
            remembered,
            host,
            run,
            limit,
        ).remembered == remembered,
    decreases limit,
{
    if limit > 0 {
        let request = run.request();
        let (host_after, reply) = host.answer(request);
        let (remembered_after, step) = transition(remembered, run, reply);
        match step {
            StepView::Continue(next) => {
                lemma_drive_failure_remembers_nothing(
                    remembered_after,
                    host_after,
                    next,
                    (limit - 1) as nat,
                );
            },
            StepView::Finished(_) => {},
        }
    }
}

/// A failed run changes nothing of what the extension remembers.
pub proof fn lemma_failure_remembers_nothing(remembered: Option<Seq<char>>, host: Host)
    requires
        provision(remembered, host).completion matches Some(completion) && completion.result
            is Err,
    ensures
        provision(remembered, host).remembered == remembered,
{
    lemma_drive_failure_remembers_nothing(
        remembered,
        host,
        ProvisioningView::SearchPath,
        request_limit(host),
    );
}

/// Whether a run in the state `run` has the metadata document.
pub open spec fn past_metadata(run: ProvisioningView) -> bool {
    !(run is SearchPath || run is CachedBinary || run is CheckingNotice || run is Metadata)
}

/// Once it has the metadata document, a run does not fetch it again; once
/// the download is behind it, a run does not ask the remote side at all.
pub proof fn lemma_drive_past_remote(
    remembered: Option<Seq<char>>,
    host: Host,
    run: ProvisioningView,
    limit: nat,
)
    requires
        past_metadata(run),
    ensures
        forall|i: int|
            0 <= i < drive(remembered, host, run, limit).requests.len() ==> {
                let request = #[trigger] drive(remembered, host, run, limit).requests[i];
                &&& !(request is FetchMetadata)
                &&& past_download(run) ==> !request.is_network()
            },
    decreases limit,
{
    let course = drive(remembered, host, run, limit);
    if limit > 0 {
        let request = run.request();
        let (host_after, reply) = host.answer(request);
        let (remembered_after, step) = transition(remembered, run, reply);
        match step {
            StepView::Continue(next) => {
                let rest = drive(remembered_after, host_after, next, (limit - 1) as nat);
                lemma_drive_past_remote(remembered_after, host_after, next, (limit - 1) as nat);
                assert(course.requests =~= seq![request] + rest.requests);
                assert forall|i: int| 0 <= i < course.requests.len() implies {
                    let asked = #[trigger] course.requests[i];
                    &&& !(asked is FetchMetadata)
                    &&& past_download(run) ==> !asked.is_network()
                } by {
                    if i > 0 {
                        assert(course.requests[i] == rest.requests[i - 1]);
                    }
                }
            },
            StepView::Finished(_) => {},
        }
    }
}

/// From whatever state it goes on, a run asks the remote side without
/// retry.
pub proof fn lemma_drive_without_retry(
    remembered: Option<Seq<char>>,
    host: Host,
    run: ProvisioningView,
    limit: nat,
)
    ensures
        without_retry(drive(remembered, host, run, limit).requests),
    decreases limit,
{
    let course = drive(remembered, host, run, limit);
    if limit > 0 {
        let request = run.request();
        let (host_after, reply) = host.answer(request);
        let (remembered_after, step) = transition(remembered, run, reply);
        match step {
            StepView::Continue(next) => {
                let rest = drive(remembered_after, host_after, next, (limit - 1) as nat);
                lemma_drive_without_retry(remembered_after, host_after, next, (limit - 1) as nat);
                assert(course.requests =~= seq![request] + rest.requests);
                if request.is_network() {
                    lemma_drive_past_remote(
                        remembered_after,
                        host_after,
                        next,
                        (limit - 1) as nat,
                    );
                }
                assert forall|i: int, j: int|
                    0 <= i < j < course.requests.len()
                        && (#[trigger] course.requests[i]).is_network()
                        && (#[trigger] course.requests[j]).is_network()
                    implies course.requests[i] is FetchMetadata
                        && course.requests[j] is Download
                by {
                    assert(course.requests[j] == rest.requests[j - 1]);
                    if i > 0 {
                        assert(course.requests[i] == rest.requests[i - 1]);
                    }
                }
            },
            StepView::Finished(_) => {},
        }
    }
}

/// Nothing is asked of the remote side twice. A run fetches the metadata
/// document once at most and downloads once at most, the download after the
/// metadata; whatever fails, nothing is tried again.
pub proof fn lemma_without_retry(remembered: Option<Seq<char>>, host: Host)
    ensures
        without_retry(provision(remembered, host).requests),
{
    lemma_drive_without_retry(
        remembered,
        host,
        ProvisioningView::SearchPath,
        request_limit(host),
    );
}

/// Up to its download a run only looks: as long as it has not asked for a
/// download, it has left the host as it found it.
pub proof fn lemma_drive_looks_before_download(
    remembered: Option<Seq<char>>,
    host: Host,
    run: ProvisioningView,
    limit: nat,
)
    requires
        !past_download(run),
    ensures
        drive(remembered, host, run, limit).completion is Some && !downloads(
            drive(remembered, host, run, limit).requests,
        ) ==> drive(remembered, host, run, limit).host == host,
    decreases limit,
{
    let course = drive(remembered, host, run, limit);
    if limit > 0 {
        let request = run.request();
        let (host_after, reply) = host.answer(request);
        let (remembered_after, step) = transition(remembered, run, reply);
        assert(course.requests[0] == request);
        match step {
            StepView::Continue(next) => {
                let rest = drive(remembered_after, host_after, next, (limit - 1) as nat);
                if !past_download(next) {
                    lemma_drive_looks_before_download(
                        remembered_after,
                        host_after,
                        next,
                        (limit - 1) as nat,
                    );
                }
                if rest.requests.len() > 0 {
                    assert(course.requests[1] == rest.requests[0]);
                }
                if downloads(rest.requests) {
                    let i = choose|i: int|
                        0 <= i < rest.requests.len() && (#[trigger] rest.requests[i]) is Download;
                    assert(course.requests[i + 1] is Download);
                }
            },
            StepView::Finished(_) => {},
        }
    }
}

/// A run that downloads nothing changes nothing: no directory is created,
/// no entry is removed, no file appears or goes.
pub proof fn lemma_no_download_no_change(remembered: Option<Seq<char>>, host: Host)
    requires
        !downloads(provision(remembered, host).requests),
    ensures
        provision(remembered, host).host == host,
{
    lemma_drive_ends(remembered, host, ProvisioningView::SearchPath, request_limit(host));
    lemma_drive_looks_before_download(
        remembered,
        host,
        ProvisioningView::SearchPath,
        request_limit(host),
    );
}

/// Whether a run in the state `run` is still short of being told whether
/// the release `version` is installed.
pub open spec fn resolving(host: Host, run: ProvisioningView, version: Seq<char>) -> bool {
    match run {
        ProvisioningView::SearchPath
        | ProvisioningView::CachedBinary { .. }
        | ProvisioningView::CheckingNotice
        | ProvisioningView::Metadata => host.metadata == (FetchedView::Release { version }),
        ProvisioningView::Platform { version: named } => named == version,
        ProvisioningView::InstalledBinary { release } => release.version == version,
        _ => false,
    }
}

/// A run towards a release that is installed ends without a download.
pub proof fn lemma_drive_skips_installed(
    remembered: Option<Seq<char>>,
    host: Host,
    run: ProvisioningView,
    version: Seq<char>,
    limit: nat,
)
    requires
        resolving(host, run, version),
        host.files.contains(binary_path_text(version)),
    ensures
        !downloads(drive(remembered, host, run, limit).requests),
    decreases limit,
{
    let course = drive(remembered, host, run, limit);
    if limit > 0 {
        let request = run.request();
        let (host_after, reply) = host.answer(request);
        let (remembered_after, step) = transition(remembered, run, reply);
        match step {
            StepView::Continue(next) => {
                let rest = drive(remembered_after, host_after, next, (limit - 1) as nat);
                lemma_drive_skips_installed(
                    remembered_after,
                    host_after,
                    next,
                    version,
                    (limit - 1) as nat,
                );
                assert(course.requests =~= seq![request] + rest.requests);
                if downloads(course.requests) {
                    let i = choose|i: int|
                        0 <= i < course.requests.len() && (#[trigger] course.requests[i])
                            is Download;
                    assert(rest.requests[i - 1] is Download);
                }
            },
            StepView::Finished(_) => {},
        }
    }
}

/// A release that is installed is not downloaded again. When the file of the
/// release that the remote side names exists, the run asks for no download
/// and leaves the host as it found it: the working directory is swept only
/// after a download.
pub proof fn lemma_installed_release_is_kept(
    remembered: Option<Seq<char>>,
    host: Host,
    version: Seq<char>,
)
    requires
        host.metadata == (FetchedView::Release { version }),
        host.files.contains(binary_path_text(version)),
    ensures
        !downloads(provision(remembered, host).requests),
        provision(remembered, host).host == host,
{
    lemma_drive_skips_installed(
        remembered,
        host,
        ProvisioningView::SearchPath,
        version,
        request_limit(host),
    );
    lemma_no_download_no_change(remembered, host);
}

/// What the run for a usable executable can rely on in each of its states,
/// once the search path has come up empty.
pub open spec fn settled(remembered: Option<Seq<char>>, host: Host, run: ProvisioningView) -> bool {
    &&& host.search_path is None
    &&& forall|i: int|
        0 <= i < host.entries.len() ==> (#[trigger] host.entries[i] matches DirEntryView::Named(
            name,
        ) ==> !name.contains('/'))
    &&& match run {
        ProvisioningView::SearchPath
        | ProvisioningView::CheckingNotice
        | ProvisioningView::Metadata => {
            &&& host.removed == Set::<int>::empty()
            &&& host.metadata matches FetchedView::Release { version } ==> !version.contains(
                '/',
            )
        },
        ProvisioningView::CachedBinary { path } => {
            &&& host.removed == Set::<int>::empty()
            &&& remembered == Some(path)
            &&& host.metadata matches FetchedView::Release { version } ==> !version.contains(
                '/',
            )
        },
        ProvisioningView::Platform { version } => {
            &&& host.removed == Set::<int>::empty()
            &&& !version.contains('/')
        },
        ProvisioningView::InstalledBinary { release }
        | ProvisioningView::DownloadNotice { release }
        | ProvisioningView::Directory { release }
        | ProvisioningView::Download { release } => {
            &&& host.removed == Set::<int>::empty()
            &&& !release.version.contains('/')
        },
        ProvisioningView::Executable { release } | ProvisioningView::Listing { release } => {
            &&& host.removed == Set::<int>::empty()
            &&& !release.version.contains('/')
            &&& host.files.contains(release.binary_path())
        },
        ProvisioningView::Removal { release, entries, index, .. } => {
            &&& !release.version.contains('/')
            &&& host.files.contains(release.binary_path())
            &&& entries == host.entries
            &&& 0 <= index < entries.len()
            &&& entries[index] != DirEntryView::Named(release.version_dir())
        },
    }
}

/// A run that succeeds after the search path has come up empty leaves the
/// path it yields remembered, and a file at that path.
pub proof fn lemma_drive_settles(
    remembered: Option<Seq<char>>,
    host: Host,
    run: ProvisioningView,
    limit: nat,
)
    requires
        settled(remembered, host, run),
    ensures
        drive(remembered, host, run, limit).host.search_path is None,
        drive(remembered, host, run, limit).completion matches Some(completion)
            ==> (completion.result matches Ok(path) ==> {
            &&& drive(remembered, host, run, limit).remembered == Some(path)
            &&& drive(remembered, host, run, limit).host.files.contains(path)
        }),
    decreases limit,
{
    if limit > 0 {
        let request = run.request();
        let (host_after, reply) = host.answer(request);
        let (remembered_after, step) = transition(remembered, run, reply);
        if host.removed == Set::<int>::empty() {
            lemma_kept_entries_all(host.entries, host.entries.len() as int);
            assert(host.directory() == host.entries);
        }
        match run {
            ProvisioningView::Directory { release } => {
                lemma_version_dir_plain(release.version);
                lemma_first_component_plain(release.version_dir());
            },
            ProvisioningView::Listing { release } => {
                lemma_first_foreign(host.directory(), release.version_dir(), 0);
            },
            ProvisioningView::Removal { release, entries, index, .. } => {
                lemma_first_foreign(entries, release.version_dir(), index + 1);
                match entries[index] {
                    DirEntryView::Named(name) => {
                        lemma_binary_path_outside(release.version, name);
                    },
                    _ => {},
                }
            },
            _ => {},
        }
        match step {
            StepView::Continue(next) => {
                assert(settled(remembered_after, host_after, next));
                lemma_drive_settles(remembered_after, host_after, next, (limit - 1) as nat);
            },
            StepView::Finished(_) => {},
        }
    }
}

/// Provisioning is idempotent. When a run has yielded a path, the next run,
/// against the host as the first left it, yields the same path, asks only
/// the search path and whether a file exists, and changes nothing: it makes
/// no request to the remote side.
///
/// The version the remote side names must be free of path separators, as
/// every version number is; the sweep after a download would otherwise take
/// the fresh installation for a stranger.
pub proof fn lemma_second_run_repeats(remembered: Option<Seq<char>>, host: Host, path: Seq<char>)
    requires
        host.well_formed(),
        host.metadata matches FetchedView::Release { version } ==> !version.contains('/'),
        provision(remembered, host).completion matches Some(completion) && completion.result
            == Ok::<Seq<char>, ProvisionErrorView>(path),
    ensures
        ({
            let first = provision(remembered, host);
            let second = provision(first.remembered, first.host);
            &&& second.completion matches Some(completion) && completion.result == Ok::<
                Seq<char>,
                ProvisionErrorView,
            >(path)
            &&& second.remembered == first.remembered
            &&& second.host == first.host
            &&& forall|i: int|
                0 <= i < second.requests.len() ==> !(#[trigger] second.requests[i]).is_network()
        }),
{
    let first = provision(remembered, host);
    match host.search_path {
        Some(found) => {
            lemma_search_path_wins(remembered, host, found);
            lemma_search_path_wins(first.remembered, first.host, found);
        },
        None => {
            lemma_drive_settles(
                remembered,
                host,
                ProvisioningView::SearchPath,
                request_limit(host),
            );
            let second = provision(first.remembered, first.host);
            let limit = request_limit(first.host);
            let waiting = ProvisioningView::CachedBinary { path };
            assert(drive(first.remembered, first.host, waiting, (limit - 1) as nat) == (Course {
                remembered: first.remembered,
                host: first.host,
                completion: Some(CompletionView { result: Ok(path), leftovers: Seq::empty() }),
                requests: seq![RequestView::IsFile { path }],
            }));
            assert(second.requests =~= seq![
                RequestView::Which { name: binary_name_text() },
                RequestView::IsFile { path },
            ]);
        },
    }
}

/// A run that has recorded a leftover reports one when it ends.
pub proof fn lemma_leftovers_stay(
    remembered: Option<Seq<char>>,
    host: Host,
    run: ProvisioningView,
    limit: nat,
)
    requires
        run matches ProvisioningView::Removal { leftovers, .. } && leftovers.len() > 0,
    ensures
        drive(remembered, host, run, limit).completion matches Some(completion)
            ==> completion.leftovers.len() > 0,
    decreases limit,
{
    if limit > 0 {
        let request = run.request();
        let (host_after, reply) = host.answer(request);
        let (remembered_after, step) = transition(remembered, run, reply);
        match step {
            StepView::Continue(next) => {
                lemma_leftovers_stay(remembered_after, host_after, next, (limit - 1) as nat);
            },
            StepView::Finished(_) => {},
        }
    }
}

/// What the run that installs `version` can rely on in each of its states.
pub open spec fn installing(host: Host, run: ProvisioningView, version: Seq<char>) -> bool {
    let keep = DirEntryView::Named(version_dir_text(version));
    &&& !version.contains('/')
    &&& forall|i: int, j: int|
        0 <= i < j < host.entries.len() && host.entries[i] is Named ==> host.entries[i]
            != host.entries[j]
    &&& match run {
        ProvisioningView::SearchPath
        | ProvisioningView::CachedBinary { .. }
        | ProvisioningView::CheckingNotice
        | ProvisioningView::Metadata => {
            &&& host.removed == Set::<int>::empty()
            &&& host.metadata == FetchedView::Release { version }
        },
        ProvisioningView::Platform { version: named } => {
            &&& host.removed == Set::<int>::empty()
            &&& named == version
        },
        ProvisioningView::InstalledBinary { release }
        | ProvisioningView::DownloadNotice { release }
        | ProvisioningView::Directory { release } => {
            &&& host.removed == Set::<int>::empty()
            &&& release.version == version
        },
        ProvisioningView::Download { release }
        | ProvisioningView::Executable { release }
        | ProvisioningView::Listing { release } => {
            &&& host.removed == Set::<int>::empty()
            &&& release.version == version
            &&& host.entries.contains(keep)
        },
        ProvisioningView::Removal { release, entries, index, leftovers } => {
            &&& release.version == version
            &&& entries == host.entries
            &&& 0 <= index < entries.len()
            &&& entries[index] != keep
            &&& entries.contains(keep)
            &&& leftovers.len() == 0
            &&& forall|i: int| #[trigger]
                host.removed.contains(i) <==> 0 <= i < index && entries[i] != keep
        },
    }
}

/// A run that downloads `version`, succeeds and reports no leftover leaves
/// the directory of that version as the only entry of the working
/// directory.
pub proof fn lemma_drive_sweeps(
    remembered: Option<Seq<char>>,
    host: Host,
    run: ProvisioningView,
    version: Seq<char>,
    limit: nat,
)
    requires
        installing(host, run, version),
    ensures
        ({
            let course = drive(remembered, host, run, limit);
            course.completion matches Some(completion) ==> (completion.result is Ok
                && completion.leftovers.len() == 0 && (past_download(run) || downloads(
                course.requests,
            )) ==> course.host.directory() == seq![
                DirEntryView::Named(version_dir_text(version)),
            ])
        }),
    decreases limit,
{
    if limit > 0 {
        let keep = DirEntryView::Named(version_dir_text(version));
        let course = drive(remembered, host, run, limit);
        let request = run.request();
        let (host_after, reply) = host.answer(request);
        let (remembered_after, step) = transition(remembered, run, reply);
        if host.removed == Set::<int>::empty() {
            lemma_kept_entries_all(host.entries, host.entries.len() as int);
            assert(host.directory() == host.entries);
        }
        lemma_version_dir_plain(version);
        lemma_first_component_plain(version_dir_text(version));
        let from = match run {
            ProvisioningView::Removal { index, .. } => index + 1,
            _ => 0,
        };
        if past_download(run) {
            lemma_first_foreign(host_after.entries, version_dir_text(version), from);
        }
        match step {
            StepView::Continue(next) => {
                let rest = drive(remembered_after, host_after, next, (limit - 1) as nat);
                if next matches ProvisioningView::Removal { leftovers, .. } && leftovers.len() > 0 {
                    lemma_leftovers_stay(remembered_after, host_after, next, (limit - 1) as nat);
                } else {
                    if run is Directory {
                        if !host.entries.contains(keep) {
                            assert(host_after.entries[host.entries.len() as int] == keep);
                            assert forall|i: int, j: int|
                                0 <= i < j < host_after.entries.len()
                                    && host_after.entries[i] is Named implies host_after.entries[i]
                                != host_after.entries[j] by {
                                if j == host.entries.len() {
                                    assert(host.entries[i] != keep);
                                }
                            }
                        }
                        assert(host_after.entries.contains(keep));
                    }
                    assert(installing(host_after, next, version));
                    lemma_drive_sweeps(
                        remembered_after,
                        host_after,
                        next,
                        version,
                        (limit - 1) as nat,
                    );
                    if downloads(course.requests) && !past_download(next) {
                        let i = choose|i: int|
                            0 <= i < course.requests.len() && (#[trigger] course.requests[i])
                                is Download;
                        assert(course.requests =~= seq![request] + rest.requests);
                        assert(i > 0);
                        assert(rest.requests[i - 1] is Download);
                    }
                }
            },
            StepView::Finished(completion) => {
                if completion.result is Ok && completion.leftovers.len() == 0 && past_download(
                    run,
                ) {
                    let entries = host_after.entries;
                    let position = choose|i: int| 0 <= i < entries.len() && entries[i] == keep;
                    assert forall|i: int| 0 <= i < entries.len() implies (
                    #[trigger] host_after.removed.contains(i) <==> i != position) by {
                        if i < position {
                            assert(entries[i] is Named ==> entries[i] != entries[position]);
                        } else if position < i {
                            assert(entries[position] != entries[i]);
                        }
                    }
                    lemma_kept_entries_single(
                        entries,
                        host_after.removed,
                        position,
                        entries.len() as int,
                    );
                }
            },
        }
    }
}

/// After a fresh installation the working directory holds one version.
/// When a run has downloaded the release that the remote side names, has
/// succeeded and has reported no leftover, the directory of that release is
/// the one entry of the working directory, however many entries there were
/// before.
///
/// The version must be free of path separators, as every version number is:
/// the directory of a version such as `1/x` would show in the working
/// directory as `snyk-ls-1` and go with the strangers.
pub proof fn lemma_single_version_remains(
    remembered: Option<Seq<char>>,
    host: Host,
    version: Seq<char>,
)
    requires
        host.well_formed(),
        host.metadata == (FetchedView::Release { version }),
        !version.contains('/'),
        provision(remembered, host).completion matches Some(completion) && completion.result
            is Ok && completion.leftovers.len() == 0,
        downloads(provision(remembered, host).requests),
    ensures
        provision(remembered, host).host.directory() == seq![
            DirEntryView::Named(version_dir_text(version)),
        ],
{
    lemma_drive_sweeps(
        remembered,
        host,
        ProvisioningView::SearchPath,
        version,
        request_limit(host),
    );
}

/// On a platform that this library has no token for, a run never gets as
/// far as a download.
pub proof fn lemma_drive_stops_at_platform(
    remembered: Option<Seq<char>>,
    host: Host,
    run: ProvisioningView,
    limit: nat,
)
    requires
        host.os is None || host.arch is None,
        before_platform(run),
    ensures
        !downloads(drive(remembered, host, run, limit).requests),
    decreases limit,
{
    let course = drive(remembered, host, run, limit);
    if limit > 0 {
        let request = run.request();
        let (host_after, reply) = host.answer(request);
        let (remembered_after, step) = transition(remembered, run, reply);
        match step {
            StepView::Continue(next) => {
                let rest = drive(remembered_after, host_after, next, (limit - 1) as nat);
                lemma_drive_stops_at_platform(
                    remembered_after,
                    host_after,
                    next,
                    (limit - 1) as nat,
                );
                assert(course.requests =~= seq![request] + rest.requests);
                if downloads(course.requests) {
                    let i = choose|i: int|
                        0 <= i < course.requests.len() && (#[trigger] course.requests[i])
                            is Download;
                    assert(rest.requests[i - 1] is Download);
                }
            },
            StepView::Finished(_) => {},
        }
    }
}

/// An unsupported platform is a failure, not a guess. When the host reports
/// an operating system or an architecture that this library has no token
/// for, the run ends there, with the error of that kind, and remembers
/// nothing new.
pub proof fn lemma_unsupported_platform_fails(
    remembered: Option<Seq<char>>,
    version: Seq<char>,
    os: Option<Os>,
    arch: Option<Architecture>,
)
    requires
        os is None || arch is None,
    ensures
        transition(
            remembered,
            ProvisioningView::Platform { version },
            ReplyView::Platform { os, arch },
        ) == (remembered, failed(ProvisionErrorView::UnsupportedPlatform, Seq::empty())),
{
}

/// On an unsupported platform no download is ever requested: no URL is made
/// up for a platform that has no artifact.
pub proof fn lemma_unsupported_platform_never_downloads(
    remembered: Option<Seq<char>>,
    host: Host,
)
    requires
        host.os is None || host.arch is None,
    ensures
        !downloads(provision(remembered, host).requests),
{
    lemma_drive_stops_at_platform(
        remembered,
        host,
        ProvisioningView::SearchPath,
        request_limit(host),
    );
}

} // verus!
