use vstd::prelude::*;

verus! {

/// The kinds of failure the control API can report.
#[derive(Clone, Copy, Debug, PartialEq, Eq, Structural)]
pub enum ErrorKind {
    AlreadyRunning,
    ConfigFetchFailed,
    ConfigWriteFailed,
    DescriptorFetchFailed,
    DownloadFailed,
    ExtractFailed,
    SpawnFailed,
    StopSignalFailed,
    BadRequest,
    TunnelConfigFailed,
    InvalidHostAddress,
    ArchiveFailed,
}

/// A failure of a control operation: its kind and a human-readable reason.
#[derive(Debug)]
pub enum AppError {
    AlreadyRunning(String),
    ConfigFetchFailed(String),
    ConfigWriteFailed(String),
    DescriptorFetchFailed(String),
    DownloadFailed(String),
    ExtractFailed(String),
    SpawnFailed(String),
    StopSignalFailed(String),
    BadRequest(String),
    TunnelConfigFailed(String),
    InvalidHostAddress(String),
    ArchiveFailed(String),
}

impl AppError {
    pub open spec fn spec_kind(&self) -> ErrorKind {
        match self {
            AppError::AlreadyRunning(_) => ErrorKind::AlreadyRunning,
            AppError::ConfigFetchFailed(_) => ErrorKind::ConfigFetchFailed,
            AppError::ConfigWriteFailed(_) => ErrorKind::ConfigWriteFailed,
            AppError::DescriptorFetchFailed(_) => ErrorKind::DescriptorFetchFailed,
            AppError::DownloadFailed(_) => ErrorKind::DownloadFailed,
            AppError::ExtractFailed(_) => ErrorKind::ExtractFailed,
            AppError::SpawnFailed(_) => ErrorKind::SpawnFailed,
            AppError::StopSignalFailed(_) => ErrorKind::StopSignalFailed,
            AppError::BadRequest(_) => ErrorKind::BadRequest,
            AppError::TunnelConfigFailed(_) => ErrorKind::TunnelConfigFailed,
            AppError::InvalidHostAddress(_) => ErrorKind::InvalidHostAddress,
            AppError::ArchiveFailed(_) => ErrorKind::ArchiveFailed,
        }
    }

    pub open spec fn spec_message(&self) -> Seq<char> {
        match self {
            AppError::AlreadyRunning(m) => m@,
            AppError::ConfigFetchFailed(m) => m@,
            AppError::ConfigWriteFailed(m) => m@,
            AppError::DescriptorFetchFailed(m) => m@,
            AppError::DownloadFailed(m) => m@,
            AppError::ExtractFailed(m) => m@,
            AppError::SpawnFailed(m) => m@,
            AppError::StopSignalFailed(m) => m@,
            AppError::BadRequest(m) => m@,
            AppError::TunnelConfigFailed(m) => m@,
            AppError::InvalidHostAddress(m) => m@,
            AppError::ArchiveFailed(m) => m@,
        }
    }

    /// Builds the error of the given kind carrying `message`.
    pub fn new(kind: ErrorKind, message: String) -> (r: AppError)
        ensures
            r.spec_kind() == kind,
            r.spec_message() == message@,
    {
        match kind {
            ErrorKind::AlreadyRunning => AppError::AlreadyRunning(message),
            ErrorKind::ConfigFetchFailed => AppError::ConfigFetchFailed(message),
            ErrorKind::ConfigWriteFailed => AppError::ConfigWriteFailed(message),
            ErrorKind::DescriptorFetchFailed => AppError::DescriptorFetchFailed(message),
            ErrorKind::DownloadFailed => AppError::DownloadFailed(message),
            ErrorKind::ExtractFailed => AppError::ExtractFailed(message),
            ErrorKind::SpawnFailed => AppError::SpawnFailed(message),
            ErrorKind::StopSignalFailed => AppError::StopSignalFailed(message),
            ErrorKind::BadRequest => AppError::BadRequest(message),
            ErrorKind::TunnelConfigFailed => AppError::TunnelConfigFailed(message),
            ErrorKind::InvalidHostAddress => AppError::InvalidHostAddress(message),
            ErrorKind::ArchiveFailed => AppError::ArchiveFailed(message),
        }
    }

    #[verifier::when_used_as_spec(spec_kind)]
    pub fn kind(&self) -> (r: ErrorKind)
        ensures
            r == self.spec_kind(),
    {
        match self {
            AppError::AlreadyRunning(_) => ErrorKind::AlreadyRunning,
            AppError::ConfigFetchFailed(_) => ErrorKind::ConfigFetchFailed,
            AppError::ConfigWriteFailed(_) => ErrorKind::ConfigWriteFailed,
            AppError::DescriptorFetchFailed(_) => ErrorKind::DescriptorFetchFailed,
            AppError::DownloadFailed(_) => ErrorKind::DownloadFailed,
            AppError::ExtractFailed(_) => ErrorKind::ExtractFailed,
            AppError::SpawnFailed(_) => ErrorKind::SpawnFailed,
            AppError::StopSignalFailed(_) => ErrorKind::StopSignalFailed,
            AppError::BadRequest(_) => ErrorKind::BadRequest,
            AppError::TunnelConfigFailed(_) => ErrorKind::TunnelConfigFailed,
            AppError::InvalidHostAddress(_) => ErrorKind::InvalidHostAddress,
            AppError::ArchiveFailed(_) => ErrorKind::ArchiveFailed,
        }
    }

    /// The reason carried by the error.
    pub fn message(&self) -> (r: &String)
        ensures
            r@ == self.spec_message(),
    {
        match self {
            AppError::AlreadyRunning(m) => m,
            AppError::ConfigFetchFailed(m) => m,
            AppError::ConfigWriteFailed(m) => m,
            AppError::DescriptorFetchFailed(m) => m,
            AppError::DownloadFailed(m) => m,
            AppError::ExtractFailed(m) => m,
            AppError::SpawnFailed(m) => m,
            AppError::StopSignalFailed(m) => m,
            AppError::BadRequest(m) => m,
            AppError::TunnelConfigFailed(m) => m,
            AppError::InvalidHostAddress(m) => m,
            AppError::ArchiveFailed(m) => m,
        }
    }

    /// The text the control API sends back for this error: the kind's
    /// heading, a colon, and the reason.
    pub fn describe(&self) -> (r: String)
        ensures
            r@ == kind_heading(self.spec_kind()) + ": "@ + self.spec_message(),
    {
        let mut text = String::from_str(heading_of(self.kind()));
        text.append(": ");
        text.append(self.message().as_str());
        text
    }
}

/// The heading that introduces an error of each kind.
pub open spec fn kind_heading(kind: ErrorKind) -> Seq<char> {
    match kind {
        ErrorKind::AlreadyRunning => "game server is already running"@,
        ErrorKind::ConfigFetchFailed => "fetching server settings failed"@,
        ErrorKind::ConfigWriteFailed => "writing server configuration failed"@,
        ErrorKind::DescriptorFetchFailed => "fetching save file descriptor failed"@,
        ErrorKind::DownloadFailed => "downloading save archive failed"@,
        ErrorKind::ExtractFailed => "extracting save archive failed"@,
        ErrorKind::SpawnFailed => "starting game server failed"@,
        ErrorKind::StopSignalFailed => "sending stop signal failed"@,
        ErrorKind::BadRequest => "bad request"@,
        ErrorKind::TunnelConfigFailed => "tunnel configuration failed"@,
        ErrorKind::InvalidHostAddress => "invalid host address"@,
        ErrorKind::ArchiveFailed => "creating archive failed"@,
    }
}

fn heading_of(kind: ErrorKind) -> (r: &'static str)
    ensures
        r@ == kind_heading(kind),
{
    match kind {
        ErrorKind::AlreadyRunning => "game server is already running",
        ErrorKind::ConfigFetchFailed => "fetching server settings failed",
        ErrorKind::ConfigWriteFailed => "writing server configuration failed",
        ErrorKind::DescriptorFetchFailed => "fetching save file descriptor failed",
        ErrorKind::DownloadFailed => "downloading save archive failed",
        ErrorKind::ExtractFailed => "extracting save archive failed",
        ErrorKind::SpawnFailed => "starting game server failed",
        ErrorKind::StopSignalFailed => "sending stop signal failed",
        ErrorKind::BadRequest => "bad request",
        ErrorKind::TunnelConfigFailed => "tunnel configuration failed",
        ErrorKind::InvalidHostAddress => "invalid host address",
        ErrorKind::ArchiveFailed => "creating archive failed",
    }
}

} // verus!
