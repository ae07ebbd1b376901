use zed_snyk::cleanup::{is_kept, next_foreign, DirEntry};
use zed_snyk::error::{ErrorKind, FilesystemOperation, NetworkRequest, ProvisionError};
use zed_snyk::exchange::{Fetched, InstallationStatus, ReleaseMetadata, Reply, Request};
use zed_snyk::extension::LaunchCommand;
use zed_snyk::platform::{Architecture, Os};
use zed_snyk::provision::{Completion, Leftover, Provisioning, Release, Step};
use zed_snyk::SnykExtension;

/// A host that lives in memory and keeps a record of what it was asked.
struct Host {
    on_path: Option<String>,
    files: Vec<String>,
    directory: Vec<DirEntry>,
    listed: Vec<DirEntry>,
    metadata: Fetched,
    os: Option<Os>,
    arch: Option<Architecture>,
    create_directory: Result<(), String>,
    download: Result<(), String>,
    make_executable: Result<(), String>,
    listing_failure: Option<String>,
    refused: Vec<String>,
    asked: Vec<Request>,
}

fn release(version: &str) -> Fetched {
    Fetched::Release(ReleaseMetadata { version: String::from(version) })
}

fn named(name: &str) -> DirEntry {
    DirEntry::Named(String::from(name))
}

fn host_with(version: &str) -> Host {
    Host {
        on_path: None,
        files: Vec::new(),
        directory: Vec::new(),
        listed: Vec::new(),
        metadata: release(version),
        os: Some(Os::Linux),
        arch: Some(Architecture::X8664),
        create_directory: Ok(()),
        download: Ok(()),
        make_executable: Ok(()),
        listing_failure: None,
        refused: Vec::new(),
        asked: Vec::new(),
    }
}

fn first_component(path: &str) -> String {
    match path.find('/') {
        Some(at) => String::from(&path[..at]),
        None => String::from(path),
    }
}

impl Host {
    fn answer(&mut self, request: &Request) -> Reply {
        match request {
            Request::Which { .. } => Reply::Which(self.on_path.clone()),
            Request::IsFile { path } => Reply::IsFile(self.files.contains(path)),
            Request::Notify { .. } => Reply::Notified,
            Request::FetchMetadata { .. } => Reply::Metadata(self.metadata.clone()),
            Request::CurrentPlatform => Reply::Platform { os: self.os, arch: self.arch },
            Request::CreateDirectory { path } => {
                if self.create_directory.is_ok() {
                    let entry = DirEntry::Named(first_component(path));
                    if !self.directory.contains(&entry) {
                        self.directory.push(entry);
                    }
                }
                Reply::DirectoryCreated(self.create_directory.clone())
            }
            Request::Download { path, .. } => {
                if self.download.is_ok() {
                    self.files.push(path.clone());
                }
                Reply::Downloaded(self.download.clone())
            }
            Request::MakeExecutable { .. } => Reply::MadeExecutable(self.make_executable.clone()),
            Request::ListWorkingDirectory => match &self.listing_failure {
                Some(detail) => Reply::Listing(Err(detail.clone())),
                None => {
                    self.listed = self.directory.clone();
                    Reply::Listing(Ok(self.directory.clone()))
                }
            },
            Request::Remove { index } => {
                let entry = self.listed[*index].clone();
                if let DirEntry::Named(name) = &entry {
                    if self.refused.contains(name) {
                        return Reply::Removed(Err(format!("cannot remove {name}")));
                    }
                    let below = format!("{name}/");
                    self.files.retain(|file| file != name && !file.starts_with(&below));
                }
                let at = self.directory.iter().position(|other| *other == entry).unwrap();
                self.directory.remove(at);
                Reply::Removed(Ok(()))
            }
        }
    }

    fn network_requests(&self) -> usize {
        self.asked
            .iter()
            .filter(|request| {
                matches!(request, Request::FetchMetadata { .. } | Request::Download { .. })
            })
            .count()
    }

    fn downloads(&self) -> usize {
        self.asked.iter().filter(|request| matches!(request, Request::Download { .. })).count()
    }
}

fn provision(extension: &mut SnykExtension, host: &mut Host) -> Completion {
    let mut run = extension.language_server_binary_path();
    loop {
        let request = run.request();
        let reply = host.answer(&request);
        host.asked.push(request);
        match extension.advance(run, reply) {
            Step::Continue(next) => run = next,
            Step::Finished(completion) => return completion,
        }
    }
}

fn sample() -> Release {
    Release { version: String::from("1.2.3"), os: Os::Linux, arch: Architecture::X8664 }
}

#[test]
fn a_new_extension_remembers_nothing() {
    let extension = SnykExtension::new();
    assert_eq!(extension.cached_binary_path(), None);
}

#[test]
fn a_run_starts_at_the_search_path() {
    let extension = SnykExtension::new();
    let run = extension.language_server_binary_path();
    assert!(matches!(run, Provisioning::SearchPath));
    assert_eq!(run.request(), Request::Which { name: String::from("snyk-ls") });
}

#[test]
fn search_path_wins_over_remembered_and_installed() {
    let mut extension = SnykExtension::new();
    let mut host = host_with("1.2.3");
    let installed = provision(&mut extension, &mut host);
    assert_eq!(installed.result, Ok(String::from("snyk-ls-1.2.3/snyk-ls")));
    assert_eq!(extension.cached_binary_path(), Some(String::from("snyk-ls-1.2.3/snyk-ls")));

    host.on_path = Some(String::from("/usr/local/bin/snyk-ls"));
    host.asked.clear();
    let completion = provision(&mut extension, &mut host);
    assert_eq!(completion.result, Ok(String::from("/usr/local/bin/snyk-ls")));
    assert!(completion.leftovers.is_empty());
    assert_eq!(host.asked, vec![Request::Which { name: String::from("snyk-ls") }]);
    assert_eq!(extension.cached_binary_path(), Some(String::from("snyk-ls-1.2.3/snyk-ls")));
}

#[test]
fn search_path_wins_with_nothing_remembered() {
    let mut extension = SnykExtension::new();
    let mut host = host_with("1.2.3");
    host.on_path = Some(String::from("/opt/snyk/snyk-ls"));
    let completion = provision(&mut extension, &mut host);
    assert_eq!(completion.result, Ok(String::from("/opt/snyk/snyk-ls")));
    assert_eq!(host.asked.len(), 1);
    assert_eq!(extension.cached_binary_path(), None);
}

#[test]
fn second_run_repeats_the_first_without_network() {
    let mut extension = SnykExtension::new();
    let mut host = host_with("4.5.6");
    host.directory = vec![named("snyk-ls-4.5.5")];
    let first = provision(&mut extension, &mut host);
    assert_eq!(first.result, Ok(String::from("snyk-ls-4.5.6/snyk-ls")));
    assert_eq!(host.downloads(), 1);

    let files = host.files.clone();
    let directory = host.directory.clone();
    host.asked.clear();
    let second = provision(&mut extension, &mut host);
    assert_eq!(second.result, first.result);
    assert_eq!(host.network_requests(), 0);
    assert_eq!(
        host.asked,
        vec![
            Request::Which { name: String::from("snyk-ls") },
            Request::IsFile { path: String::from("snyk-ls-4.5.6/snyk-ls") },
        ]
    );
    assert_eq!(host.files, files);
    assert_eq!(host.directory, directory);
}

#[test]
fn existing_target_is_returned_without_http() {
    let mut extension = SnykExtension::new();
    let mut host = host_with("1.2.3");
    provision(&mut extension, &mut host);

    host.asked.clear();
    let completion = provision(&mut extension, &mut host);
    assert_eq!(completion.result, Ok(String::from("snyk-ls-1.2.3/snyk-ls")));
    assert_eq!(host.network_requests(), 0);
}

#[test]
fn installed_release_is_not_downloaded_again() {
    let mut extension = SnykExtension::new();
    let mut host = host_with("1.2.3");
    host.files = vec![String::from("snyk-ls-1.2.3/snyk-ls")];
    host.directory = vec![named("snyk-ls-1.2.3"), named("snyk-ls-1.0.0")];
    let completion = provision(&mut extension, &mut host);
    assert_eq!(completion.result, Ok(String::from("snyk-ls-1.2.3/snyk-ls")));
    assert_eq!(host.downloads(), 0);
    assert_eq!(
        host.asked,
        vec![
            Request::Which { name: String::from("snyk-ls") },
            Request::Notify { status: InstallationStatus::CheckingForUpdate },
            Request::FetchMetadata {
                url: String::from("https://static.snyk.io/snyk-ls/3/metadata.json"),
                headers: vec![(String::from("Content-Type"), String::from("application/json"))],
            },
            Request::CurrentPlatform,
            Request::IsFile { path: String::from("snyk-ls-1.2.3/snyk-ls") },
        ]
    );
    assert_eq!(host.directory, vec![named("snyk-ls-1.2.3"), named("snyk-ls-1.0.0")]);
    assert_eq!(extension.cached_binary_path(), Some(String::from("snyk-ls-1.2.3/snyk-ls")));
}

#[test]
fn fresh_install_of_9_9_9_leaves_one_version() {
    let mut extension = SnykExtension::new();
    let mut host = host_with("9.9.9");
    host.directory = vec![named("snyk-ls-1.0.0"), named("snyk-ls-2.0.0")];
    host.files =
        vec![String::from("snyk-ls-1.0.0/snyk-ls"), String::from("snyk-ls-2.0.0/snyk-ls")];
    let completion = provision(&mut extension, &mut host);
    assert_eq!(completion.result, Ok(String::from("snyk-ls-9.9.9/snyk-ls")));
    assert!(completion.leftovers.is_empty());
    assert_eq!(host.directory, vec![named("snyk-ls-9.9.9")]);
    assert_eq!(host.files, vec![String::from("snyk-ls-9.9.9/snyk-ls")]);
    assert_eq!(extension.cached_binary_path(), Some(String::from("snyk-ls-9.9.9/snyk-ls")));
}

#[test]
fn fresh_install_into_an_empty_directory() {
    let mut extension = SnykExtension::new();
    let mut host = host_with("0.1.0");
    let completion = provision(&mut extension, &mut host);
    assert_eq!(completion.result, Ok(String::from("snyk-ls-0.1.0/snyk-ls")));
    assert_eq!(host.directory, vec![named("snyk-ls-0.1.0")]);
}

#[test]
fn fresh_install_asks_in_order() {
    let mut extension = SnykExtension::new();
    let mut host = host_with("2.3.1");
    host.os = Some(Os::Mac);
    host.arch = Some(Architecture::Aarch64);
    host.directory = vec![named("notes.txt")];
    let completion = provision(&mut extension, &mut host);
    assert_eq!(completion.result, Ok(String::from("snyk-ls-2.3.1/snyk-ls")));
    assert_eq!(
        host.asked,
        vec![
            Request::Which { name: String::from("snyk-ls") },
            Request::Notify { status: InstallationStatus::CheckingForUpdate },
            Request::FetchMetadata {
                url: String::from("https://static.snyk.io/snyk-ls/3/metadata.json"),
                headers: vec![(String::from("Content-Type"), String::from("application/json"))],
            },
            Request::CurrentPlatform,
            Request::IsFile { path: String::from("snyk-ls-2.3.1/snyk-ls") },
            Request::Notify { status: InstallationStatus::Downloading },
            Request::CreateDirectory { path: String::from("snyk-ls-2.3.1") },
            Request::Download {
                url: String::from(
                    "https://static.snyk.io/snyk-ls/3/snyk-ls_2.3.1_darwin_arm64"
                ),
                path: String::from("snyk-ls-2.3.1/snyk-ls"),
            },
            Request::MakeExecutable { path: String::from("snyk-ls-2.3.1/snyk-ls") },
            Request::ListWorkingDirectory,
            Request::Remove { index: 0 },
        ]
    );
}

#[test]
fn remembered_path_that_is_gone_leads_to_a_cold_resolution() {
    let mut extension = SnykExtension::new();
    let mut host = host_with("1.0.0");
    provision(&mut extension, &mut host);
    assert_eq!(extension.cached_binary_path(), Some(String::from("snyk-ls-1.0.0/snyk-ls")));

    host.files.clear();
    host.directory.clear();
    host.metadata = release("1.1.0");
    host.asked.clear();
    let completion = provision(&mut extension, &mut host);
    assert_eq!(completion.result, Ok(String::from("snyk-ls-1.1.0/snyk-ls")));
    assert_eq!(host.asked[1], Request::IsFile { path: String::from("snyk-ls-1.0.0/snyk-ls") });
    assert_eq!(
        host.asked[2],
        Request::Notify { status: InstallationStatus::CheckingForUpdate }
    );
    assert_eq!(host.downloads(), 1);
    assert_eq!(extension.cached_binary_path(), Some(String::from("snyk-ls-1.1.0/snyk-ls")));
}

#[test]
fn unreachable_metadata_is_a_network_failure() {
    let mut extension = SnykExtension::new();
    let mut host = host_with("1.0.0");
    host.metadata = Fetched::Unreachable(String::from("dns lookup failed"));
    let completion = provision(&mut extension, &mut host);
    let error = completion.result.unwrap_err();
    assert_eq!(
        error,
        ProvisionError::Network {
            request: NetworkRequest::Metadata,
            url: String::from("https://static.snyk.io/snyk-ls/3/metadata.json"),
            detail: String::from("dns lookup failed"),
        }
    );
    assert_eq!(error.kind(), ErrorKind::Network);
    assert_eq!(error.message(), "dns lookup failed");
    assert_eq!(host.asked.len(), 3);
    assert_eq!(extension.cached_binary_path(), None);
}

#[test]
fn malformed_metadata_is_a_parse_failure() {
    let mut extension = SnykExtension::new();
    let mut host = host_with("1.0.0");
    host.metadata = Fetched::Malformed(String::from("missing field `version` at line 1"));
    let completion = provision(&mut extension, &mut host);
    let error = completion.result.unwrap_err();
    assert_eq!(
        error,
        ProvisionError::Parse { detail: String::from("missing field `version` at line 1") }
    );
    assert_eq!(error.kind(), ErrorKind::Parse);
    assert_eq!(host.downloads(), 0);
    assert_eq!(extension.cached_binary_path(), None);
}

#[test]
fn unknown_operating_system_is_a_failure() {
    let mut extension = SnykExtension::new();
    let mut host = host_with("1.0.0");
    host.os = None;
    let completion = provision(&mut extension, &mut host);
    assert_eq!(completion.result, Err(ProvisionError::UnsupportedPlatform));
    assert_eq!(host.downloads(), 0);
    assert_eq!(host.asked.len(), 4);
    assert_eq!(extension.cached_binary_path(), None);
}

#[test]
fn unknown_architecture_is_a_failure() {
    let mut extension = SnykExtension::new();
    let mut host = host_with("1.0.0");
    host.arch = None;
    let completion = provision(&mut extension, &mut host);
    let error = completion.result.unwrap_err();
    assert_eq!(error.kind(), ErrorKind::UnsupportedPlatform);
    assert_eq!(error.message(), "unsupported platform");
    assert_eq!(host.downloads(), 0);
}

#[test]
fn directory_that_cannot_be_created_is_a_filesystem_failure() {
    let mut extension = SnykExtension::new();
    let mut host = host_with("1.0.0");
    host.create_directory = Err(String::from("read-only file system"));
    let completion = provision(&mut extension, &mut host);
    let error = completion.result.unwrap_err();
    assert_eq!(
        error,
        ProvisionError::Filesystem {
            operation: FilesystemOperation::CreateDirectory,
            path: String::from("snyk-ls-1.0.0"),
            detail: String::from("read-only file system"),
        }
    );
    assert_eq!(error.message(), "failed to create directory: read-only file system");
    assert_eq!(host.downloads(), 0);
    assert_eq!(extension.cached_binary_path(), None);
}

#[test]
fn failed_download_is_a_network_failure() {
    let mut extension = SnykExtension::new();
    let mut host = host_with("1.0.0");
    host.download = Err(String::from("status 503"));
    let completion = provision(&mut extension, &mut host);
    let error = completion.result.unwrap_err();
    assert_eq!(
        error,
        ProvisionError::Network {
            request: NetworkRequest::Binary,
            url: String::from("https://static.snyk.io/snyk-ls/3/snyk-ls_1.0.0_linux_amd64"),
            detail: String::from("status 503"),
        }
    );
    assert_eq!(error.message(), "failed to download file: status 503");
    assert!(matches!(host.asked.last(), Some(Request::Download { .. })));
    assert_eq!(extension.cached_binary_path(), None);
}

#[test]
fn file_that_cannot_be_marked_executable_is_a_filesystem_failure() {
    let mut extension = SnykExtension::new();
    let mut host = host_with("1.0.0");
    host.directory = vec![named("snyk-ls-0.9.0")];
    host.make_executable = Err(String::from("operation not permitted"));
    let completion = provision(&mut extension, &mut host);
    let error = completion.result.unwrap_err();
    assert_eq!(
        error,
        ProvisionError::Filesystem {
            operation: FilesystemOperation::MakeExecutable,
            path: String::from("snyk-ls-1.0.0/snyk-ls"),
            detail: String::from("operation not permitted"),
        }
    );
    assert_eq!(error.message(), "operation not permitted");
    assert_eq!(host.directory, vec![named("snyk-ls-0.9.0"), named("snyk-ls-1.0.0")]);
    assert_eq!(extension.cached_binary_path(), None);
}

#[test]
fn working_directory_that_cannot_be_listed_is_a_filesystem_failure() {
    let mut extension = SnykExtension::new();
    let mut host = host_with("1.0.0");
    host.listing_failure = Some(String::from("permission denied"));
    let completion = provision(&mut extension, &mut host);
    let error = completion.result.unwrap_err();
    assert_eq!(
        error,
        ProvisionError::Filesystem {
            operation: FilesystemOperation::ListWorkingDirectory,
            path: String::from("."),
            detail: String::from("permission denied"),
        }
    );
    assert_eq!(error.message(), "failed to list working directory permission denied");
    assert_eq!(extension.cached_binary_path(), None);
}

#[test]
fn unreadable_entry_stops_the_sweep_where_it_stands() {
    let mut extension = SnykExtension::new();
    let mut host = host_with("3.0.0");
    host.directory = vec![
        named("snyk-ls-1.0.0"),
        DirEntry::Unreadable(String::from("input/output error")),
        named("snyk-ls-2.0.0"),
    ];
    let completion = provision(&mut extension, &mut host);
    let error = completion.result.unwrap_err();
    assert_eq!(
        error,
        ProvisionError::Filesystem {
            operation: FilesystemOperation::ReadDirectoryEntry,
            path: String::from("."),
            detail: String::from("input/output error"),
        }
    );
    assert_eq!(error.message(), "failed to load directory entry input/output error");
    assert_eq!(
        host.directory,
        vec![
            DirEntry::Unreadable(String::from("input/output error")),
            named("snyk-ls-2.0.0"),
            named("snyk-ls-3.0.0"),
        ]
    );
    assert_eq!(extension.cached_binary_path(), None);
}

#[test]
fn refused_removal_is_recorded_and_forgiven() {
    let mut extension = SnykExtension::new();
    let mut host = host_with("3.0.0");
    host.directory = vec![named("snyk-ls-1.0.0"), named("snyk-ls-2.0.0"), named("cache")];
    host.refused = vec![String::from("snyk-ls-2.0.0")];
    let completion = provision(&mut extension, &mut host);
    assert_eq!(completion.result, Ok(String::from("snyk-ls-3.0.0/snyk-ls")));
    assert_eq!(
        completion.leftovers,
        vec![Leftover { index: 1, detail: String::from("cannot remove snyk-ls-2.0.0") }]
    );
    assert_eq!(host.directory, vec![named("snyk-ls-2.0.0"), named("snyk-ls-3.0.0")]);
    assert_eq!(extension.cached_binary_path(), Some(String::from("snyk-ls-3.0.0/snyk-ls")));
}

#[test]
fn entry_without_a_unicode_name_is_removed() {
    let mut extension = SnykExtension::new();
    let mut host = host_with("3.0.0");
    host.directory = vec![DirEntry::Unnamed, named("snyk-ls-2.0.0")];
    let completion = provision(&mut extension, &mut host);
    assert_eq!(completion.result, Ok(String::from("snyk-ls-3.0.0/snyk-ls")));
    assert_eq!(host.directory, vec![named("snyk-ls-3.0.0")]);
    assert!(host.asked.contains(&Request::Remove { index: 0 }));
    assert!(host.asked.contains(&Request::Remove { index: 1 }));
}

#[test]
fn version_with_a_separator_loses_its_installation() {
    let mut extension = SnykExtension::new();
    let mut host = host_with("1/x");
    let completion = provision(&mut extension, &mut host);
    assert_eq!(completion.result, Ok(String::from("snyk-ls-1/x/snyk-ls")));
    assert!(host.directory.is_empty());
    assert!(host.files.is_empty());
}

#[test]
fn reply_to_another_request_changes_nothing() {
    let mut extension = SnykExtension::new();
    let run = extension.language_server_binary_path();
    let step = extension.advance(run, Reply::IsFile(true));
    let run = match step {
        Step::Continue(run) => run,
        Step::Finished(completion) => panic!("ended with {completion:?}"),
    };
    assert!(matches!(run, Provisioning::SearchPath));
    assert_eq!(run.request(), Request::Which { name: String::from("snyk-ls") });

    let waiting = Provisioning::Download { release: sample() };
    let step = extension.advance(waiting, Reply::Notified);
    match step {
        Step::Continue(Provisioning::Download { release }) => assert_eq!(release, sample()),
        other => panic!("moved to {other:?}"),
    }
    assert_eq!(extension.cached_binary_path(), None);
}

#[test]
fn pending_request_of_every_state() {
    let path = String::from("snyk-ls-1.2.3/snyk-ls");
    assert_eq!(
        Provisioning::CachedBinary { path: String::from("old/snyk-ls") }.request(),
        Request::IsFile { path: String::from("old/snyk-ls") }
    );
    assert_eq!(
        Provisioning::CheckingNotice.request(),
        Request::Notify { status: InstallationStatus::CheckingForUpdate }
    );
    assert_eq!(
        Provisioning::Platform { version: String::from("1.2.3") }.request(),
        Request::CurrentPlatform
    );
    assert_eq!(
        Provisioning::InstalledBinary { release: sample() }.request(),
        Request::IsFile { path: path.clone() }
    );
    assert_eq!(
        Provisioning::DownloadNotice { release: sample() }.request(),
        Request::Notify { status: InstallationStatus::Downloading }
    );
    assert_eq!(
        Provisioning::Directory { release: sample() }.request(),
        Request::CreateDirectory { path: String::from("snyk-ls-1.2.3") }
    );
    assert_eq!(
        Provisioning::Executable { release: sample() }.request(),
        Request::MakeExecutable { path }
    );
    assert_eq!(
        Provisioning::Listing { release: sample() }.request(),
        Request::ListWorkingDirectory
    );
    assert_eq!(
        Provisioning::Removal {
            release: sample(),
            entries: vec![named("a"), named("b")],
            index: 1,
            leftovers: Vec::new(),
        }
        .request(),
        Request::Remove { index: 1 }
    );
}

#[test]
fn removal_past_the_listing_ends_the_run() {
    let mut extension = SnykExtension::new();
    let waiting = Provisioning::Removal {
        release: sample(),
        entries: vec![named("a")],
        index: usize::MAX,
        leftovers: Vec::new(),
    };
    match extension.advance(waiting, Reply::Removed(Ok(()))) {
        Step::Finished(completion) => {
            assert_eq!(completion.result, Ok(String::from("snyk-ls-1.2.3/snyk-ls")));
        }
        other => panic!("moved to {other:?}"),
    }
    assert_eq!(extension.cached_binary_path(), Some(String::from("snyk-ls-1.2.3/snyk-ls")));
}

#[test]
fn release_paths() {
    let release = sample();
    assert_eq!(
        release.download_url(),
        "https://static.snyk.io/snyk-ls/3/snyk-ls_1.2.3_linux_amd64"
    );
    assert_eq!(release.version_dir(), "snyk-ls-1.2.3");
    assert_eq!(release.binary_path(), "snyk-ls-1.2.3/snyk-ls");
}

#[test]
fn next_foreign_skips_the_kept_directory() {
    let keep = String::from("snyk-ls-1.0.0");
    let entries = vec![
        named("snyk-ls-1.0.0"),
        named("snyk-ls-0.9.0"),
        named("snyk-ls-1.0.0"),
        DirEntry::Unnamed,
        DirEntry::Unreadable(String::from("gone")),
    ];
    assert_eq!(next_foreign(&entries, &keep, 0), 1);
    assert_eq!(next_foreign(&entries, &keep, 1), 1);
    assert_eq!(next_foreign(&entries, &keep, 2), 3);
    assert_eq!(next_foreign(&entries, &keep, 4), 4);
    assert_eq!(next_foreign(&entries, &keep, 5), 5);
    assert_eq!(next_foreign(&entries, &keep, 9), 5);
    assert_eq!(next_foreign(&Vec::new(), &keep, 0), 0);
    assert_eq!(next_foreign(&vec![named("snyk-ls-1.0.0")], &keep, 0), 1);
}

#[test]
fn only_the_named_directory_is_kept() {
    let keep = String::from("snyk-ls-1.0.0");
    assert!(is_kept(&named("snyk-ls-1.0.0"), &keep));
    assert!(!is_kept(&named("snyk-ls-1.0.1"), &keep));
    assert!(!is_kept(&named("snyk-ls-1.0.0 "), &keep));
    assert!(!is_kept(&DirEntry::Unnamed, &keep));
    assert!(!is_kept(&DirEntry::Unreadable(String::from("snyk-ls-1.0.0")), &keep));
}

#[test]
fn launch_command_of_a_resolved_path() {
    let env = vec![
        (String::from("PATH"), String::from("/usr/bin")),
        (String::from("HOME"), String::from("/home/dev")),
    ];
    let command = SnykExtension::language_server_command(
        Ok(String::from("snyk-ls-1.2.3/snyk-ls")),
        env.clone(),
    );
    assert_eq!(
        command,
        Ok(LaunchCommand {
            command: String::from("snyk-ls-1.2.3/snyk-ls"),
            args: Vec::new(),
            env,
        })
    );
}

#[test]
fn launch_command_of_a_failed_run() {
    let command = SnykExtension::language_server_command(
        Err(ProvisionError::Network {
            request: NetworkRequest::Binary,
            url: String::from("https://static.snyk.io/snyk-ls/3/snyk-ls_1.0.0_linux_amd64"),
            detail: String::from("timed out"),
        }),
        Vec::new(),
    );
    assert_eq!(command, Err(String::from("failed to download file: timed out")));
}
