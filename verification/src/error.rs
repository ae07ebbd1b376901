//! What can stop a provisioning run, kept as structured values. The text the
//! host shows to the user is derived from them only when it is asked for.

use vstd::prelude::*;
use vstd::string::StringExecFns;

verus! {

/// The four ways a provisioning run can fail.
#[derive(Clone, Copy, Debug, PartialEq, Eq, Structural)]
pub enum ErrorKind {
    /// The remote side could not be reached or refused.
    Network,
    /// The metadata document did not have the expected shape.
    Parse,
    /// The host runs on a platform no artifact is published for.
    UnsupportedPlatform,
    /// The local file system refused an operation.
    Filesystem,
}

/// What was asked of the remote side when it failed.
#[derive(Clone, Copy, Debug, PartialEq, Eq, Structural)]
pub enum NetworkRequest {
    /// The metadata document.
    Metadata,
    /// The executable of a release.
    Binary,
}

/// The local operation that failed.
#[derive(Clone, Copy, Debug, PartialEq, Eq, Structural)]
pub enum FilesystemOperation {
    CreateDirectory,
    MakeExecutable,
    ListWorkingDirectory,
    ReadDirectoryEntry,
}

/// Why a provisioning run stopped, with the context of the failed operation.
#[derive(Clone, Debug, PartialEq, Eq)]
pub enum ProvisionError {
    Network { request: NetworkRequest, url: String, detail: String },
    Parse { detail: String },
    UnsupportedPlatform,
    Filesystem { operation: FilesystemOperation, path: String, detail: String },
}

/// The mathematical content of a [`ProvisionError`].
pub enum ProvisionErrorView {
    Network { request: NetworkRequest, url: Seq<char>, detail: Seq<char> },
    Parse { detail: Seq<char> },
    UnsupportedPlatform,
    Filesystem { operation: FilesystemOperation, path: Seq<char>, detail: Seq<char> },
}

impl View for ProvisionError {
    type V = ProvisionErrorView;

    open spec fn view(&self) -> ProvisionErrorView {
        match *self {
            ProvisionError::Network { request, url, detail } => ProvisionErrorView::Network {
                request,
                url: url@,
                detail: detail@,
            },
            ProvisionError::Parse { detail } => ProvisionErrorView::Parse { detail: detail@ },
            ProvisionError::UnsupportedPlatform => ProvisionErrorView::UnsupportedPlatform,
            ProvisionError::Filesystem { operation, path, detail } => {
                ProvisionErrorView::Filesystem { operation, path: path@, detail: detail@ }
            },
        }
    }
}

impl ProvisionErrorView {
    /// The kind this error falls under.
    pub open spec fn kind(self) -> ErrorKind {
        match self {
            ProvisionErrorView::Network { .. } => ErrorKind::Network,
            ProvisionErrorView::Parse { .. } => ErrorKind::Parse,
            ProvisionErrorView::UnsupportedPlatform => ErrorKind::UnsupportedPlatform,
            ProvisionErrorView::Filesystem { .. } => ErrorKind::Filesystem,
        }
    }

    /// The single line of text under which the error is reported to the host.
    pub open spec fn message(self) -> Seq<char> {
        match self {
            ProvisionErrorView::Network { request, detail, .. } => match request {
                NetworkRequest::Metadata => detail,
                NetworkRequest::Binary => "failed to download file: "@ + detail,
            },
            ProvisionErrorView::Parse { detail } => detail,
            ProvisionErrorView::UnsupportedPlatform => "unsupported platform"@,
            ProvisionErrorView::Filesystem { operation, detail, .. } => match operation {
                FilesystemOperation::CreateDirectory => "failed to create directory: "@ + detail,
                FilesystemOperation::MakeExecutable => detail,
                FilesystemOperation::ListWorkingDirectory => "failed to list working directory "@
                    + detail,
                FilesystemOperation::ReadDirectoryEntry => "failed to load directory entry "@
                    + detail,
            },
        }
    }
}

fn prefixed(prefix: &str, detail: &String) -> (text: String)
    ensures
        text@ == prefix@ + detail@,
{
    let mut text = String::from_str(prefix);
    text.append(detail.as_str());
    text
}

impl ProvisionError {
    /// The kind this error falls under.
    pub fn kind(&self) -> (kind: ErrorKind)
        ensures
            kind == self@.kind(),
    {
        match self {
            ProvisionError::Network { .. } => ErrorKind::Network,
            ProvisionError::Parse { .. } => ErrorKind::Parse,
            ProvisionError::UnsupportedPlatform => ErrorKind::UnsupportedPlatform,
            ProvisionError::Filesystem { .. } => ErrorKind::Filesystem,
        }
    }

    /// The single line of text under which the error is reported to the host.
    pub fn message(&self) -> (text: String)
        ensures
            text@ == self@.message(),
    {
        match self {
            ProvisionError::Network { request, detail, .. } => match request {
                NetworkRequest::Metadata => detail.clone(),
                NetworkRequest::Binary => prefixed("failed to download file: ", detail),
            },
            ProvisionError::Parse { detail } => detail.clone(),
            ProvisionError::UnsupportedPlatform => String::from_str("unsupported platform"),
            ProvisionError::Filesystem { operation, detail, .. } => match operation {
                FilesystemOperation::CreateDirectory => prefixed(
                    "failed to create directory: ",
                    detail,
                ),
                FilesystemOperation::MakeExecutable => detail.clone(),
                FilesystemOperation::ListWorkingDirectory => prefixed(
                    "failed to list working directory ",
                    detail,
                ),
                FilesystemOperation::ReadDirectoryEntry => prefixed(
                    "failed to load directory entry ",
                    detail,
                ),
            },
        }
    }
}

} // verus!
