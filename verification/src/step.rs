use vstd::prelude::*;
use crate::download::{TransferOutcome, TransferOutcomeModel, TransferRequest, TransferRequestModel};
use crate::error::{ErrorKind, ErrorModel};
use crate::helper::{CommandModel, HelperCommand};
use crate::shims::{LinkStrategy, ShimTarget};
use crate::text::opt_chars;
use crate::version::{PythonVersion, VersionModel};

verus! {

/// One thing that provisioning asks its driver to do. The driver does it
/// and answers with an [`Event`].
#[derive(Debug, PartialEq, Eq)]
pub enum Action {
    /// Is the private environment's directory there? Answered by
    /// [`Event::Probed`].
    ProbeVenv,
    /// Read the tool-version marker of the private environment. Answered by
    /// [`Event::ToolVersion`].
    ReadToolVersion,
    /// Remove the private environment, directory and all. Answered by
    /// [`Event::Completed`].
    RemoveVenv,
    /// Are the directory of this version of the helper and the helper's
    /// binary in it both there? Answered by [`Event::Probed`].
    ProbeHelper { version: String },
    /// Are the directory of this interpreter and the interpreter's binary
    /// both there? Answered by [`Event::Probed`].
    ProbeInterpreter { version: PythonVersion },
    /// Create the directory of this interpreter. Answered by
    /// [`Event::Completed`].
    CreateInterpreterDir { version: PythonVersion },
    /// Make this transfer, keeping the body in memory. Answered by
    /// [`Event::Transferred`].
    Download { request: TransferRequest },
    /// Unpack this archive into the directory of this version of the
    /// helper, without the top `strip_components` segments of each path.
    /// Answered by [`Event::Completed`].
    UnpackHelper { archive: Vec<u8>, version: String, strip_components: usize },
    /// Unpack this archive into the directory of this interpreter, without
    /// the top `strip_components` segments of each path. Answered by
    /// [`Event::Completed`].
    UnpackInterpreter { archive: Vec<u8>, version: PythonVersion, strip_components: usize },
    /// List the interpreters that are installed. Answered by
    /// [`Event::Installed`].
    ListInstalled,
    /// Run the dynamic-linker inspection on the binary of this interpreter.
    /// Answered by [`Event::Inspected`].
    InspectLibraries { version: PythonVersion },
    /// Run the helper of this version in this way, and wait for it.
    /// Answered by [`Event::Completed`]: whether it ran and exited with
    /// success.
    RunHelper { helper: String, command: HelperCommand },
    /// Write the marker that names the interpreter of the private
    /// environment. Answered by [`Event::Completed`].
    WriteVenvMarker { version: PythonVersion },
    /// Write this content to a new temporary file, and keep the file.
    /// Answered by [`Event::Completed`].
    WriteRequirements { content: String },
    /// Delete the temporary file. Answered by [`Event::Completed`].
    DiscardRequirements,
    /// Is the shim directory there? Answered by [`Event::Probed`].
    ProbeShimDir,
    /// Create the shim directory. Answered by [`Event::Completed`].
    CreateShimDir,
    /// Is the tool itself installed in the shim directory, as a file?
    /// Answered by [`Event::Probed`].
    ProbeInstalledTool,
    /// Remove the file of this name from the shim directory, if there is
    /// one. Answered by [`Event::Completed`].
    RemoveShim { name: String },
    /// Make the shim of this name stand for the target, in this way.
    /// Answered by [`Event::Completed`].
    LinkShim { name: String, strategy: LinkStrategy, target: ShimTarget },
    /// Replace the tool-version marker of the private environment by this
    /// content, atomically. Answered by [`Event::Completed`].
    StampToolVersion { content: String },
}

/// What an [`Action`] stands for.
pub enum ActionModel {
    ProbeVenv,
    ReadToolVersion,
    RemoveVenv,
    ProbeHelper { version: Seq<char> },
    ProbeInterpreter { version: VersionModel },
    CreateInterpreterDir { version: VersionModel },
    Download { request: TransferRequestModel },
    UnpackHelper { archive: Seq<u8>, version: Seq<char>, strip_components: usize },
    UnpackInterpreter { archive: Seq<u8>, version: VersionModel, strip_components: usize },
    ListInstalled,
    InspectLibraries { version: VersionModel },
    RunHelper { helper: Seq<char>, command: CommandModel },
    WriteVenvMarker { version: VersionModel },
    WriteRequirements { content: Seq<char> },
    DiscardRequirements,
    ProbeShimDir,
    CreateShimDir,
    ProbeInstalledTool,
    RemoveShim { name: Seq<char> },
    LinkShim { name: Seq<char>, strategy: LinkStrategy, target: ShimTarget },
    StampToolVersion { content: Seq<char> },
}

impl View for Action {
    type V = ActionModel;

    open spec fn view(&self) -> ActionModel {
        match self {
            Action::ProbeVenv => ActionModel::ProbeVenv,
            Action::ReadToolVersion => ActionModel::ReadToolVersion,
            Action::RemoveVenv => ActionModel::RemoveVenv,
            Action::ProbeHelper { version } => ActionModel::ProbeHelper { version: version@ },
            Action::ProbeInterpreter { version } => ActionModel::ProbeInterpreter {
                version: version@,
            },
            Action::CreateInterpreterDir { version } => ActionModel::CreateInterpreterDir {
                version: version@,
            },
            Action::Download { request } => ActionModel::Download { request: request@ },
            Action::UnpackHelper { archive, version, strip_components } => {
                ActionModel::UnpackHelper {
                    archive: archive@,
                    version: version@,
                    strip_components: *strip_components,
                }
            },
            Action::UnpackInterpreter { archive, version, strip_components } => {
                ActionModel::UnpackInterpreter {
                    archive: archive@,
                    version: version@,
                    strip_components: *strip_components,
                }
            },
            Action::ListInstalled => ActionModel::ListInstalled,
            Action::InspectLibraries { version } => ActionModel::InspectLibraries {
                version: version@,
            },
            Action::RunHelper { helper, command } => ActionModel::RunHelper {
                helper: helper@,
                command: command@,
            },
            Action::WriteVenvMarker { version } => ActionModel::WriteVenvMarker {
                version: version@,
            },
            Action::WriteRequirements { content } => ActionModel::WriteRequirements {
                content: content@,
            },
            Action::DiscardRequirements => ActionModel::DiscardRequirements,
            Action::ProbeShimDir => ActionModel::ProbeShimDir,
            Action::CreateShimDir => ActionModel::CreateShimDir,
            Action::ProbeInstalledTool => ActionModel::ProbeInstalledTool,
            Action::RemoveShim { name } => ActionModel::RemoveShim { name: name@ },
            Action::LinkShim { name, strategy, target } => ActionModel::LinkShim {
                name: name@,
                strategy: *strategy,
                target: *target,
            },
            Action::StampToolVersion { content } => ActionModel::StampToolVersion {
                content: content@,
            },
        }
    }
}

impl ActionModel {
    /// Whether the action leaves the disk as it is.
    pub open spec fn only_looks(self) -> bool {
        match self {
            ActionModel::ProbeVenv => true,
            ActionModel::ReadToolVersion => true,
            ActionModel::ProbeHelper { .. } => true,
            ActionModel::ProbeInterpreter { .. } => true,
            ActionModel::ListInstalled => true,
            ActionModel::InspectLibraries { .. } => true,
            ActionModel::ProbeShimDir => true,
            ActionModel::ProbeInstalledTool => true,
            _ => false,
        }
    }
}

/// What the driver answers an [`Action`] with.
#[derive(Debug, PartialEq, Eq)]
pub enum Event {
    /// Whether what was probed for is there.
    Probed(bool),
    /// The content of the marker file, or nothing where it could not be
    /// read.
    ToolVersion(Option<String>),
    /// Whether what was to be done was done.
    Completed(bool),
    /// How the transfer ended.
    Transferred(TransferOutcome),
    /// The interpreters that are installed, in the order in which they
    /// were found, or nothing where they could not be listed.
    Installed(Option<Vec<PythonVersion>>),
    /// What the inspection tool printed, or nothing where it could not be
    /// run.
    Inspected(Option<String>),
}

/// What an [`Event`] stands for.
pub enum EventModel {
    Probed(bool),
    ToolVersion(Option<Seq<char>>),
    Completed(bool),
    Transferred(TransferOutcomeModel),
    Installed(Option<Seq<VersionModel>>),
    Inspected(Option<Seq<char>>),
}

impl View for Event {
    type V = EventModel;

    open spec fn view(&self) -> EventModel {
        match self {
            Event::Probed(found) => EventModel::Probed(*found),
            Event::ToolVersion(content) => EventModel::ToolVersion(opt_chars(*content)),
            Event::Completed(ok) => EventModel::Completed(*ok),
            Event::Transferred(outcome) => EventModel::Transferred(outcome@),
            Event::Installed(versions) => EventModel::Installed(versions.deep_view()),
            Event::Inspected(report) => EventModel::Inspected(opt_chars(*report)),
        }
    }
}

/// One line for the user. The driver words it.
#[derive(Debug, PartialEq, Eq)]
pub enum Notice {
    /// The private environment is outdated and is refreshed.
    OutdatedInternals,
    /// The private environment is bootstrapped.
    Bootstrapping,
    /// This installed interpreter is compatible and is used.
    FoundCompatible(PythonVersion),
    /// This interpreter was asked for and is fetched.
    FetchingRequested(PythonVersion),
    /// The interpreter is there already; the download is skipped.
    AlreadyDownloaded,
    /// The directory of this interpreter is the target of the download.
    TargetDir(PythonVersion),
    /// The download comes from this URL.
    DownloadUrl(String),
    /// This interpreter is being downloaded.
    Downloading(PythonVersion),
    /// The checksum of the download is being checked.
    CheckingChecksum,
    /// The checksum is not checked, for want of a declared digest.
    ChecksumSkipped,
    /// The download is being unpacked.
    Unpacking,
    /// This interpreter has been downloaded.
    Downloaded(PythonVersion),
    /// These shared libraries are missing.
    MissingLibraries(Vec<String>),
}

/// What a [`Notice`] stands for.
pub enum NoticeModel {
    OutdatedInternals,
    Bootstrapping,
    FoundCompatible(VersionModel),
    FetchingRequested(VersionModel),
    AlreadyDownloaded,
    TargetDir(VersionModel),
    DownloadUrl(Seq<char>),
    Downloading(VersionModel),
    CheckingChecksum,
    ChecksumSkipped,
    Unpacking,
    Downloaded(VersionModel),
    MissingLibraries(Seq<Seq<char>>),
}

impl View for Notice {
    type V = NoticeModel;

    open spec fn view(&self) -> NoticeModel {
        match self {
            Notice::OutdatedInternals => NoticeModel::OutdatedInternals,
            Notice::Bootstrapping => NoticeModel::Bootstrapping,
            Notice::FoundCompatible(v) => NoticeModel::FoundCompatible(v@),
            Notice::FetchingRequested(v) => NoticeModel::FetchingRequested(v@),
            Notice::AlreadyDownloaded => NoticeModel::AlreadyDownloaded,
            Notice::TargetDir(v) => NoticeModel::TargetDir(v@),
            Notice::DownloadUrl(url) => NoticeModel::DownloadUrl(url@),
            Notice::Downloading(v) => NoticeModel::Downloading(v@),
            Notice::CheckingChecksum => NoticeModel::CheckingChecksum,
            Notice::ChecksumSkipped => NoticeModel::ChecksumSkipped,
            Notice::Unpacking => NoticeModel::Unpacking,
            Notice::Downloaded(v) => NoticeModel::Downloaded(v@),
            Notice::MissingLibraries(libs) => NoticeModel::MissingLibraries(libs.deep_view()),
        }
    }
}

impl DeepView for Notice {
    type V = NoticeModel;

    open spec fn deep_view(&self) -> NoticeModel {
        self@
    }
}

impl NoticeModel {
    /// Whether the notice reports a hard error, which is shown in every
    /// output mode.
    pub open spec fn is_error(self) -> bool {
        self is MissingLibraries
    }

    /// Whether the notice is a diagnostic, shown in verbose mode only.
    pub open spec fn is_diagnostic(self) -> bool {
        self is AlreadyDownloaded || self is TargetDir || self is DownloadUrl
    }
}

/// The part of provisioning that a failure belongs to.
#[derive(Clone, Copy, Debug, PartialEq, Eq, Structural)]
pub enum Stage {
    /// Judging the private environment that is there, and removing it.
    Refresh,
    /// Making the helper available.
    Helper,
    /// Choosing the interpreter and making it available.
    Interpreter,
    /// Creating and populating the private environment.
    Environment,
    /// Installing the shims.
    Shims,
    /// Writing the tool-version marker.
    Stamp,
}

/// A failure of provisioning: what went wrong, in which part, and with
/// which download, where it was one.
#[derive(Debug, PartialEq, Eq)]
pub struct Failure {
    pub stage: Stage,
    pub kind: ErrorKind,
    /// The URL of the download that failed, was refused, did not hash to
    /// its digest or could not be unpacked.
    pub url: Option<String>,
}

/// What a [`Failure`] stands for.
pub struct FailureModel {
    pub stage: Stage,
    pub kind: ErrorModel,
    pub url: Option<Seq<char>>,
}

impl View for Failure {
    type V = FailureModel;

    open spec fn view(&self) -> FailureModel {
        FailureModel { stage: self.stage, kind: self.kind@, url: opt_chars(self.url) }
    }
}

/// What provisioning has made available.
#[derive(Debug, PartialEq, Eq)]
pub enum Provisioned {
    /// The private environment, current.
    SelfVenv,
    /// This interpreter.
    Interpreter(PythonVersion),
}

/// What a [`Provisioned`] stands for.
pub enum ProvisionedModel {
    SelfVenv,
    Interpreter(VersionModel),
}

impl View for Provisioned {
    type V = ProvisionedModel;

    open spec fn view(&self) -> ProvisionedModel {
        match self {
            Provisioned::SelfVenv => ProvisionedModel::SelfVenv,
            Provisioned::Interpreter(v) => ProvisionedModel::Interpreter(v@),
        }
    }
}

/// What comes next: something for the driver to do, or the end.
#[derive(Debug, PartialEq, Eq)]
pub enum Next {
    Perform(Action),
    Finish(Result<Provisioned, Failure>),
}

/// What a [`Next`] stands for.
pub enum NextModel {
    Perform(ActionModel),
    Finish(Result<ProvisionedModel, FailureModel>),
}

impl View for Next {
    type V = NextModel;

    open spec fn view(&self) -> NextModel {
        match self {
            Next::Perform(action) => NextModel::Perform(action@),
            Next::Finish(Ok(done)) => NextModel::Finish(Ok(done@)),
            Next::Finish(Err(failure)) => NextModel::Finish(Err(failure@)),
        }
    }
}

/// One step of provisioning: the lines to show, in order, and then what
/// comes next.
#[derive(Debug, PartialEq, Eq)]
pub struct Step {
    pub notices: Vec<Notice>,
    pub next: Next,
}

/// What a [`Step`] stands for.
pub struct StepModel {
    pub notices: Seq<NoticeModel>,
    pub next: NextModel,
}

impl View for Step {
    type V = StepModel;

    open spec fn view(&self) -> StepModel {
        StepModel { notices: self.notices.deep_view(), next: self.next@ }
    }
}

impl StepModel {
    /// Whether the step ends provisioning with success.
    pub open spec fn succeeds(self) -> bool {
        self.next matches NextModel::Finish(Ok(_))
    }

    /// Whether the step ends provisioning.
    pub open spec fn ends(self) -> bool {
        self.next is Finish
    }

    /// Whether the step asks for nothing that changes the disk.
    pub open spec fn only_looks(self) -> bool {
        self.next matches NextModel::Perform(action) ==> action.only_looks()
    }
}

/// The notice `n` where `shown` holds, and nothing elsewhere.
pub open spec fn say(shown: bool, n: NoticeModel) -> Seq<NoticeModel> {
    if shown {
        seq![n]
    } else {
        Seq::empty()
    }
}

/// Appends `notice` to `notices` where `shown` holds.
pub fn note(notices: &mut Vec<Notice>, shown: bool, notice: Notice)
    ensures
        final(notices).deep_view() == old(notices).deep_view() + say(shown, notice@),
{
    if shown {
        notices.push(notice);
        assert(notices.deep_view() =~= old(notices).deep_view() + say(shown, notice@));
    } else {
        assert(notices.deep_view() =~= old(notices).deep_view() + say(shown, notice@));
    }
}

/// No notices.
pub fn silence() -> (notices: Vec<Notice>)
    ensures
        notices.deep_view() == Seq::<NoticeModel>::empty(),
{
    let notices: Vec<Notice> = Vec::new();
    assert(notices.deep_view() =~= Seq::<NoticeModel>::empty());
    notices
}

} // verus!
