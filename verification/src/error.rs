use vstd::prelude::*;
use crate::version::{PythonVersion, PythonVersionRequest, RequestModel, VersionModel};

verus! {

/// The filesystem operations that provisioning can fail on.
#[derive(Clone, Copy, Debug, PartialEq, Eq, Structural)]
pub enum IoOp {
    /// Removing the outdated private environment.
    RemoveVenv,
    /// Listing the interpreters that are installed.
    ListInstalled,
    /// Creating the directory an interpreter is unpacked into.
    CreateInterpreterDir,
    /// Running the dynamic-linker inspection tool.
    InspectLibraries,
    /// Writing the marker that names the environment's interpreter.
    WriteVenvMarker,
    /// Writing the pinned requirements to a temporary file.
    WriteRequirements,
    /// Creating the shim directory.
    CreateShimDir,
    /// Writing the tool-version marker.
    StampToolVersion,
}

/// The invocations of the helper that provisioning can fail on.
#[derive(Clone, Copy, Debug, PartialEq, Eq, Structural)]
pub enum HelperStep {
    CreateVenv,
    UpgradeInstaller,
    InstallRequirements,
}

/// Why an operation of this library gave up.
#[derive(Debug, PartialEq, Eq)]
pub enum ErrorKind {
    /// The URL does not begin with `https://`; nothing was sent.
    InsecureScheme,
    /// The transfer did not complete.
    Network,
    /// The server answered with a status outside 2xx, other than 404.
    HttpStatus(u32),
    /// The server answered 404.
    NotFound,
    /// The downloaded bytes do not hash to the declared digest.
    ChecksumMismatch { expected: String, actual: String },
    /// The archive could not be unpacked; what was written stays.
    Unpack,
    /// The catalog has nothing for this request.
    UnknownVersion { request: PythonVersionRequest },
    /// No helper is published for this platform.
    HelperUnavailable,
    /// The interpreter needs shared libraries that this machine lacks.
    MissingSharedLibraries { libs: Vec<String> },
    /// This interpreter, the latest that answers what was asked for, is
    /// outside the supported window.
    UnsupportedToolchain { version: PythonVersion },
    /// The helper is still absent after it was unpacked.
    HelperInstallFailed,
    /// The helper could not be started, or exited with a failure.
    HelperFailed(HelperStep),
    /// Every strategy for installing the shim with this file name failed.
    ShimInstallFailed { shim: String },
    /// A filesystem operation failed.
    Io(IoOp),
    /// The environment holds no `site-packages` directory.
    NoSitePackages,
    /// The driver answered an action with an event of another kind.
    UnexpectedEvent,
}

/// What an [`ErrorKind`] stands for.
pub enum ErrorModel {
    InsecureScheme,
    Network,
    HttpStatus(u32),
    NotFound,
    ChecksumMismatch { expected: Seq<char>, actual: Seq<char> },
    Unpack,
    UnknownVersion { request: RequestModel },
    HelperUnavailable,
    MissingSharedLibraries { libs: Seq<Seq<char>> },
    UnsupportedToolchain { version: VersionModel },
    HelperInstallFailed,
    HelperFailed(HelperStep),
    ShimInstallFailed { shim: Seq<char> },
    Io(IoOp),
    NoSitePackages,
    UnexpectedEvent,
}

impl View for ErrorKind {
    type V = ErrorModel;

    open spec fn view(&self) -> ErrorModel {
        match self {
            ErrorKind::InsecureScheme => ErrorModel::InsecureScheme,
            ErrorKind::Network => ErrorModel::Network,
            ErrorKind::HttpStatus(code) => ErrorModel::HttpStatus(*code),
            ErrorKind::NotFound => ErrorModel::NotFound,
            ErrorKind::ChecksumMismatch { expected, actual } => ErrorModel::ChecksumMismatch {
                expected: expected@,
                actual: actual@,
            },
            ErrorKind::Unpack => ErrorModel::Unpack,
            ErrorKind::UnknownVersion { request } => ErrorModel::UnknownVersion {
                request: request@,
            },
            ErrorKind::HelperUnavailable => ErrorModel::HelperUnavailable,
            ErrorKind::MissingSharedLibraries { libs } => ErrorModel::MissingSharedLibraries {
                libs: libs.deep_view(),
            },
            ErrorKind::UnsupportedToolchain { version } => ErrorModel::UnsupportedToolchain {
                version: version@,
            },
            ErrorKind::HelperInstallFailed => ErrorModel::HelperInstallFailed,
            ErrorKind::HelperFailed(step) => ErrorModel::HelperFailed(*step),
            ErrorKind::ShimInstallFailed { shim } => ErrorModel::ShimInstallFailed { shim: shim@ },
            ErrorKind::Io(op) => ErrorModel::Io(*op),
            ErrorKind::NoSitePackages => ErrorModel::NoSitePackages,
            ErrorKind::UnexpectedEvent => ErrorModel::UnexpectedEvent,
        }
    }
}

/// The outcome of an operation that gives nothing but success.
pub open spec fn outcome_model(r: Result<(), ErrorKind>) -> Result<(), ErrorModel> {
    match r {
        Ok(_) => Ok(()),
        Err(e) => Err(e@),
    }
}

/// The outcome of an operation that gives bytes.
pub open spec fn bytes_model(r: Result<Vec<u8>, ErrorKind>) -> Result<Seq<u8>, ErrorModel> {
    match r {
        Ok(bytes) => Ok(bytes@),
        Err(e) => Err(e@),
    }
}

/// Where the user reads on about missing shared libraries.
pub const MISSING_LIBRARIES_HELP: &'static str =
    "https://rye-up.com/guide/faq/#missing-shared-libraries-on-linux";

/// Where the user reads on about interpreter builds that do not run on
/// their machine.
pub const INSTALLATION_HELP: &'static str = "https://rye-up.com/guide/installation/";

impl ErrorModel {
    /// The documentation that the message of an error points to: for
    /// missing shared libraries the page on them, and for an environment
    /// that could not be created the page on installation, since the
    /// interpreter build may not suit the machine.
    pub open spec fn help(self) -> Option<Seq<char>> {
        match self {
            ErrorModel::MissingSharedLibraries { .. } => Some(MISSING_LIBRARIES_HELP@),
            ErrorModel::HelperFailed(HelperStep::CreateVenv) => Some(INSTALLATION_HELP@),
            _ => None,
        }
    }
}

impl ErrorKind {
    /// The documentation that the message of this error points to.
    pub fn help(&self) -> (r: Option<&'static str>)
        ensures
            match self@.help() {
                Some(page) => r matches Some(text) && text@ == page,
                None => r is None,
            },
    {
        match self {
            ErrorKind::MissingSharedLibraries { .. } => Some(MISSING_LIBRARIES_HELP),
            ErrorKind::HelperFailed(HelperStep::CreateVenv) => Some(INSTALLATION_HELP),
            _ => None,
        }
    }
}

} // verus!
