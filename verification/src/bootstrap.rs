use vstd::prelude::*;
use crate::catalog::{
    get_download_url, latest, latest_available_python_version, latest_compatible_installed,
    preferred, resolve, CatalogEntry, EntryModel,
};
use crate::checksum::{check_checksum, digest_verdict, sha256};
use crate::download::{download_result, download_url, planned_transfer, transfer_request};
use crate::error::{ErrorKind, ErrorModel, HelperStep, IoOp};
use crate::helper::{
    requirements_command, upgrade_command, venv_command, HelperDownload, HelperDownloadModel, Uv,
    UvWithVenv, SELF_REQUIREMENTS,
};
use crate::libraries::{lemma_nothing_missing, missing, missing_shared_libraries, runs_here};
use crate::marker::{decimal_of, format_tool_version, marker_is_current, Staleness, SELF_VERSION};
use crate::output::CommandOutput;
use crate::platform::OsFamily;
use crate::shims::{target_for, ShimInstall, ShimStep, ShimStepModel, ShimTarget};
use crate::step::{
    note, say, silence, Action, ActionModel, Event, EventModel, Failure, FailureModel, Next,
    NextModel, Notice, NoticeModel, Provisioned, ProvisionedModel, Stage, Step, StepModel,
};
use crate::text::{copy_opt, copy_strings, opt_chars};
use crate::version::{
    is_self_compatible_toolchain, self_python_target_version, self_target, Host, HostModel,
    PythonVersion, PythonVersionRequest, RequestModel, VersionModel,
};

verus! {

/// What the caller knows of the machine and of what can be downloaded.
#[derive(Debug, PartialEq, Eq)]
pub struct Context {
    pub os: OsFamily,
    pub host: Host,
    /// The configured HTTPS proxy.
    pub proxy: Option<String>,
    /// The requirement that pins the installer inside the environment.
    pub installer: String,
    /// The helper release for this platform, where one is published.
    pub helper: Option<HelperDownload>,
    /// The interpreter distributions that can be downloaded.
    pub catalog: Vec<CatalogEntry>,
}

/// What a [`Context`] stands for.
pub struct ContextModel {
    pub os: OsFamily,
    pub host: HostModel,
    pub proxy: Option<Seq<char>>,
    pub installer: Seq<char>,
    pub helper: Option<HelperDownloadModel>,
    pub catalog: Seq<EntryModel>,
}

impl View for Context {
    type V = ContextModel;

    open spec fn view(&self) -> ContextModel {
        ContextModel {
            os: self.os,
            host: self.host@,
            proxy: opt_chars(self.proxy),
            installer: self.installer@,
            helper: self.helper.deep_view(),
            catalog: self.catalog.deep_view(),
        }
    }
}

/// What a run is to make available.
#[derive(Clone, Copy, Debug, PartialEq, Eq, Structural)]
pub enum Goal {
    /// The private environment, current.
    SelfVenv,
    /// One interpreter.
    Interpreter,
}

/// Why an interpreter is probed for.
#[derive(Clone, Copy, Debug, PartialEq, Eq, Structural)]
pub enum Origin {
    /// It is the latest match of the toolchain that was asked for.
    Requested,
    /// A concrete request names it.
    Named,
    /// The catalog resolved a request to it.
    Resolved,
}

/// What the run is waiting for.
#[derive(Clone, Copy, Debug, PartialEq, Eq, Structural)]
pub enum State {
    VenvProbe,
    MarkerRead,
    VenvRemoval,
    HelperProbe { unpacked: bool },
    HelperTransfer,
    HelperUnpack,
    InstalledListing,
    InterpreterProbe { origin: Origin },
    InterpreterDir,
    InterpreterTransfer,
    InterpreterUnpack,
    Inspection,
    VenvCreation,
    VenvMarker,
    InstallerUpgrade,
    RequirementsFile,
    RequirementsInstall,
    RequirementsDiscard { installed: bool },
    ShimDirProbe,
    ShimDirCreation,
    ToolProbe,
    Shims(ShimInstall),
    Stamp,
    /// The run is over.
    Finished,
}

/// One run of provisioning: what it is for, and how far it has come.
///
/// A run asks its driver for one [`Action`] at a time, and goes on when
/// the driver answers with the [`Event`] that came of it.
#[derive(Debug, PartialEq, Eq)]
pub struct Bootstrap {
    pub goal: Goal,
    pub output: CommandOutput,
    /// The toolchain that was asked for, if one was.
    pub request: Option<PythonVersionRequest>,
    pub context: Context,
    /// What the process knows of the environment's freshness. To be kept
    /// by the driver from one run to the next.
    pub staleness: Staleness,
    pub state: State,
    /// The interpreter at hand.
    pub target: Option<PythonVersion>,
    /// What is downloaded for the interpreter at hand.
    pub entry: Option<CatalogEntry>,
    /// The concrete request that names the interpreter at hand, as it was
    /// given, where a request names it.
    pub fetching: Option<PythonVersionRequest>,
}

/// What a [`Bootstrap`] stands for.
pub struct BootstrapModel {
    pub goal: Goal,
    pub output: CommandOutput,
    pub request: Option<RequestModel>,
    pub context: ContextModel,
    pub staleness: Staleness,
    pub state: State,
    pub target: Option<VersionModel>,
    pub entry: Option<EntryModel>,
    pub fetching: Option<RequestModel>,
}

impl View for Bootstrap {
    type V = BootstrapModel;

    open spec fn view(&self) -> BootstrapModel {
        BootstrapModel {
            goal: self.goal,
            output: self.output,
            request: self.request.deep_view(),
            context: self.context@,
            staleness: self.staleness,
            state: self.state,
            target: self.target.deep_view(),
            entry: self.entry.deep_view(),
            fetching: self.fetching.deep_view(),
        }
    }
}

/// A run after a step, and the step.
pub struct Turn {
    pub run: BootstrapModel,
    pub step: StepModel,
}

impl BootstrapModel {
    /// A run that has not begun.
    pub open spec fn initial(
        goal: Goal,
        output: CommandOutput,
        request: Option<RequestModel>,
        context: ContextModel,
        staleness: Staleness,
    ) -> BootstrapModel {
        BootstrapModel {
            goal,
            output,
            request,
            context,
            staleness,
            state: State::Finished,
            target: None,
            entry: None,
            fetching: None,
        }
    }

    /// The run asks for `action` and waits in `state`.
    pub open spec fn perform(self, state: State, notices: Seq<NoticeModel>, action: ActionModel)
        -> Turn {
        Turn {
            run: BootstrapModel { state, ..self },
            step: StepModel { notices, next: NextModel::Perform(action) },
        }
    }

    /// The run ends with success.
    pub open spec fn succeed(self, notices: Seq<NoticeModel>, done: ProvisionedModel) -> Turn {
        Turn {
            run: BootstrapModel { state: State::Finished, ..self },
            step: StepModel { notices, next: NextModel::Finish(Ok(done)) },
        }
    }

    /// The run ends with a failure in `stage`.
    pub open spec fn fail(self, stage: Stage, notices: Seq<NoticeModel>, kind: ErrorModel)
        -> Turn {
        Turn {
            run: BootstrapModel { state: State::Finished, ..self },
            step: StepModel {
                notices,
                next: NextModel::Finish(Err(FailureModel { stage, kind, url: None })),
            },
        }
    }

    /// The run ends with the failure of the download from `url`.
    pub open spec fn fail_download(
        self,
        stage: Stage,
        notices: Seq<NoticeModel>,
        kind: ErrorModel,
        url: Seq<char>,
    ) -> Turn {
        Turn {
            run: BootstrapModel { state: State::Finished, ..self },
            step: StepModel {
                notices,
                next: NextModel::Finish(Err(FailureModel { stage, kind, url: Some(url) })),
            },
        }
    }

    /// The part of provisioning that a state belongs to.
    pub open spec fn stage(self) -> Stage {
        match self.state {
            State::VenvProbe | State::MarkerRead | State::VenvRemoval => Stage::Refresh,
            State::HelperProbe { .. } | State::HelperTransfer | State::HelperUnpack => {
                Stage::Helper
            },
            State::InstalledListing | State::InterpreterProbe { .. } | State::InterpreterDir
            | State::InterpreterTransfer | State::InterpreterUnpack | State::Inspection => {
                Stage::Interpreter
            },
            State::VenvCreation | State::VenvMarker | State::InstallerUpgrade
            | State::RequirementsFile | State::RequirementsInstall
            | State::RequirementsDiscard { .. } => Stage::Environment,
            State::ShimDirProbe | State::ShimDirCreation | State::ToolProbe | State::Shims(_) => {
                Stage::Shims
            },
            State::Stamp | State::Finished => Stage::Stamp,
        }
    }

    /// The run ends because the driver answered with an event that does
    /// not belong to what was asked.
    pub open spec fn unexpected(self) -> Turn {
        self.fail(self.stage(), Seq::empty(), ErrorModel::UnexpectedEvent)
    }

    /// The first step of a run.
    pub open spec fn start(self) -> Turn {
        match self.goal {
            Goal::SelfVenv => self.perform(State::VenvProbe, Seq::empty(), ActionModel::ProbeVenv),
            Goal::Interpreter => match self.request {
                Some(request) => self.begin_fetch(Seq::empty(), request),
                None => self.unexpected(),
            },
        }
    }

    /// The verdict on an environment that is there: it is left alone
    /// where it is current, and removed for a refresh where it is not.
    pub open spec fn judge(self) -> Turn {
        if self.staleness.is_current() {
            self.succeed(Seq::empty(), ProvisionedModel::SelfVenv)
        } else {
            self.perform(
                State::VenvRemoval,
                say(self.output.speaks(), NoticeModel::OutdatedInternals),
                ActionModel::RemoveVenv,
            )
        }
    }

    /// Whether the environment's directory is there decides: one that is
    /// there is judged, by the marker file unless the process has read it
    /// before; one that is not is provisioned.
    pub open spec fn on_venv_probe(self, event: EventModel) -> Turn {
        match event {
            EventModel::Probed(true) => match self.staleness.verdict {
                Some(_) => self.judge(),
                None => self.perform(
                    State::MarkerRead,
                    Seq::empty(),
                    ActionModel::ReadToolVersion,
                ),
            },
            EventModel::Probed(false) => self.provision(),
            _ => self.unexpected(),
        }
    }

    /// The first reading of the marker file gives the verdict that the
    /// process keeps.
    pub open spec fn on_marker_read(self, event: EventModel) -> Turn {
        match event {
            EventModel::ToolVersion(content) => BootstrapModel {
                staleness: Staleness {
                    verdict: Some(
                        match self.staleness.verdict {
                            Some(earlier) => earlier,
                            None => marker_is_current(content),
                        },
                    ),
                    ..self.staleness
                },
                ..self
            }.judge(),
            _ => self.unexpected(),
        }
    }

    /// With the outdated environment removed, provisioning begins; if it
    /// could not be removed, the run fails.
    pub open spec fn on_venv_removal(self, event: EventModel) -> Turn {
        match event {
            EventModel::Completed(true) => self.provision(),
            EventModel::Completed(false) => self.fail(
                Stage::Refresh,
                Seq::empty(),
                ErrorModel::Io(IoOp::RemoveVenv),
            ),
            _ => self.unexpected(),
        }
    }

    /// Provisioning begins with the helper.
    pub open spec fn provision(self) -> Turn {
        let notices = say(self.output.speaks(), NoticeModel::Bootstrapping);
        match self.context.helper {
            Some(helper) => self.perform(
                State::HelperProbe { unpacked: false },
                notices,
                ActionModel::ProbeHelper { version: helper.version },
            ),
            None => self.fail(Stage::Helper, notices, ErrorModel::HelperUnavailable),
        }
    }

    /// A helper that is there is used. One that is not is downloaded, but
    /// only once: if it is still not there after it was unpacked, the run
    /// fails.
    pub open spec fn on_helper_probe(self, unpacked: bool, event: EventModel) -> Turn {
        match (self.context.helper, event) {
            (Some(_), EventModel::Probed(true)) => self.select(),
            (Some(helper), EventModel::Probed(false)) => if unpacked {
                self.fail(Stage::Helper, Seq::empty(), ErrorModel::HelperInstallFailed)
            } else {
                match planned_transfer(
                    helper.url,
                    self.output,
                    self.context.proxy,
                    self.context.os,
                ) {
                    Ok(request) => self.perform(
                        State::HelperTransfer,
                        Seq::empty(),
                        ActionModel::Download { request },
                    ),
                    Err(refusal) => self.fail_download(
                        Stage::Helper,
                        Seq::empty(),
                        refusal,
                        helper.url,
                    ),
                }
            },
            _ => self.unexpected(),
        }
    }

    /// The helper's archive is unpacked only if it hashes to the digest
    /// that was declared for it.
    pub open spec fn on_helper_transfer(self, event: EventModel) -> Turn {
        match (self.context.helper, event) {
            (Some(helper), EventModel::Transferred(outcome)) => match download_result(
                helper.url,
                outcome,
            ) {
                Ok(archive) => match digest_verdict(sha256(archive), helper.sha256) {
                    Ok(_) => self.perform(
                        State::HelperUnpack,
                        Seq::empty(),
                        ActionModel::UnpackHelper {
                            archive,
                            version: helper.version,
                            strip_components: 1,
                        },
                    ),
                    Err(mismatch) => self.fail_download(
                        Stage::Helper,
                        Seq::empty(),
                        mismatch,
                        helper.url,
                    ),
                },
                Err(error) => self.fail_download(Stage::Helper, Seq::empty(), error, helper.url),
            },
            _ => self.unexpected(),
        }
    }

    /// After the helper was unpacked, the run looks for it once more.
    pub open spec fn on_helper_unpack(self, event: EventModel) -> Turn {
        match (self.context.helper, event) {
            (Some(helper), EventModel::Completed(true)) => self.perform(
                State::HelperProbe { unpacked: true },
                Seq::empty(),
                ActionModel::ProbeHelper { version: helper.version },
            ),
            (Some(helper), EventModel::Completed(false)) => self.fail_download(
                Stage::Helper,
                Seq::empty(),
                ErrorModel::Unpack,
                helper.url,
            ),
            _ => self.unexpected(),
        }
    }

    /// The choice of the interpreter. Without a request, the installed
    /// interpreters are looked at first. With one, it is the latest match
    /// in the catalog, which must be self-compatible.
    pub open spec fn select(self) -> Turn {
        match self.request {
            None => self.perform(State::InstalledListing, Seq::empty(), ActionModel::ListInstalled),
            Some(request) => match latest(self.context.catalog, request, self.context.host) {
                None => self.fail(
                    Stage::Interpreter,
                    Seq::empty(),
                    ErrorModel::UnknownVersion { request },
                ),
                Some(version) => if version.is_self_compatible() {
                    BootstrapModel { target: Some(version), entry: None, ..self }.perform(
                        State::InterpreterProbe { origin: Origin::Requested },
                        Seq::empty(),
                        ActionModel::ProbeInterpreter { version },
                    )
                } else {
                    self.fail(
                        Stage::Interpreter,
                        Seq::empty(),
                        ErrorModel::UnsupportedToolchain { version },
                    )
                },
            },
        }
    }

    /// Of the installed interpreters the preferred one is used; where none
    /// is self-compatible, the default target is fetched.
    pub open spec fn on_installed(self, event: EventModel) -> Turn {
        match event {
            EventModel::Installed(Some(installed)) => match preferred(installed) {
                Some(version) => BootstrapModel { target: Some(version), entry: None, ..self }.chosen(
                    say(self.output.speaks(), NoticeModel::FoundCompatible(version)),
                    false,
                ),
                None => self.begin_fetch(Seq::empty(), self_target()),
            },
            EventModel::Installed(None) => self.fail(
                Stage::Interpreter,
                Seq::empty(),
                ErrorModel::Io(IoOp::ListInstalled),
            ),
            _ => self.unexpected(),
        }
    }

    /// Fetching begins with a look at the disk: for the version that a
    /// concrete request names, or else for the version that the catalog
    /// resolves the request to.
    pub open spec fn begin_fetch(self, notices: Seq<NoticeModel>, request: RequestModel) -> Turn {
        match request.concretize(self.context.host) {
            Some(version) => BootstrapModel {
                target: Some(version),
                entry: None,
                fetching: Some(request),
                ..self
            }.perform(
                State::InterpreterProbe { origin: Origin::Named },
                notices,
                ActionModel::ProbeInterpreter { version },
            ),
            None => match resolve(self.context.catalog, request, self.context.host) {
                Some(entry) => BootstrapModel {
                    target: Some(entry.version),
                    entry: Some(entry),
                    ..self
                }.perform(
                    State::InterpreterProbe { origin: Origin::Resolved },
                    notices + say(self.output.details(), NoticeModel::TargetDir(entry.version)),
                    ActionModel::ProbeInterpreter { version: entry.version },
                ),
                None => self.fail(
                    Stage::Interpreter,
                    notices,
                    ErrorModel::UnknownVersion { request },
                ),
            },
        }
    }

    /// The download of an interpreter that `request` names and that is not
    /// installed begins with its directory, provided that the catalog has
    /// something for the request. If it has nothing, the failure reports
    /// the request as it was given.
    pub open spec fn fetch_named(
        self,
        notices: Seq<NoticeModel>,
        version: VersionModel,
        request: RequestModel,
    ) -> Turn {
        match resolve(self.context.catalog, request, self.context.host) {
            Some(entry) => BootstrapModel { entry: Some(entry), ..self }.perform(
                State::InterpreterDir,
                notices + say(self.output.details(), NoticeModel::TargetDir(version)),
                ActionModel::CreateInterpreterDir { version },
            ),
            None => self.fail(Stage::Interpreter, notices, ErrorModel::UnknownVersion { request }),
        }
    }

    /// An interpreter that is installed is used as it is, and one that is
    /// not is downloaded.
    pub open spec fn on_interpreter_probe(self, origin: Origin, event: EventModel) -> Turn {
        match (self.target, event) {
            (Some(version), EventModel::Probed(true)) => match origin {
                Origin::Requested => self.chosen(
                    say(self.output.speaks(), NoticeModel::FoundCompatible(version)),
                    false,
                ),
                _ => self.chosen(
                    say(self.output.details(), NoticeModel::AlreadyDownloaded),
                    false,
                ),
            },
            (Some(version), EventModel::Probed(false)) => match origin {
                Origin::Requested => self.fetch_named(
                    say(self.output.speaks(), NoticeModel::FetchingRequested(version)),
                    version,
                    version.as_request(),
                ),
                Origin::Named => match self.fetching {
                    Some(request) => self.fetch_named(Seq::empty(), version, request),
                    None => self.unexpected(),
                },
                Origin::Resolved => match self.entry {
                    Some(_) => self.perform(
                        State::InterpreterDir,
                        Seq::empty(),
                        ActionModel::CreateInterpreterDir { version },
                    ),
                    None => self.unexpected(),
                },
            },
            _ => self.unexpected(),
        }
    }

    /// With the interpreter's directory created, its archive is
    /// downloaded, unless the URL is insecure.
    pub open spec fn on_interpreter_dir(self, event: EventModel) -> Turn {
        match (self.target, self.entry, event) {
            (Some(version), Some(entry), EventModel::Completed(true)) => {
                let notices = say(self.output.details(), NoticeModel::DownloadUrl(entry.url)) + say(
                    self.output.speaks(),
                    NoticeModel::Downloading(version),
                );
                match planned_transfer(
                    entry.url,
                    self.output,
                    self.context.proxy,
                    self.context.os,
                ) {
                    Ok(request) => self.perform(
                        State::InterpreterTransfer,
                        notices,
                        ActionModel::Download { request },
                    ),
                    Err(refusal) => self.fail_download(
                        Stage::Interpreter,
                        notices,
                        refusal,
                        entry.url,
                    ),
                }
            },
            (Some(_), Some(_), EventModel::Completed(false)) => self.fail(
                Stage::Interpreter,
                Seq::empty(),
                ErrorModel::Io(IoOp::CreateInterpreterDir),
            ),
            _ => self.unexpected(),
        }
    }

    /// An interpreter's archive is unpacked only if it hashes to the
    /// digest that was declared for it, where one was declared.
    pub open spec fn on_interpreter_transfer(self, event: EventModel) -> Turn {
        match (self.target, self.entry, event) {
            (Some(version), Some(entry), EventModel::Transferred(outcome)) => match download_result(
                entry.url,
                outcome,
            ) {
                Ok(archive) => {
                    let unpack = ActionModel::UnpackInterpreter {
                        archive,
                        version,
                        strip_components: 1,
                    };
                    let unpacking = say(self.output.speaks(), NoticeModel::Unpacking);
                    match entry.sha256 {
                        Some(declared) => {
                            let checking = say(
                                self.output.speaks(),
                                NoticeModel::CheckingChecksum,
                            );
                            match digest_verdict(sha256(archive), declared) {
                                Ok(_) => self.perform(
                                    State::InterpreterUnpack,
                                    checking + unpacking,
                                    unpack,
                                ),
                                Err(mismatch) => self.fail_download(
                                    Stage::Interpreter,
                                    checking,
                                    mismatch,
                                    entry.url,
                                ),
                            }
                        },
                        None => self.perform(
                            State::InterpreterUnpack,
                            say(self.output.speaks(), NoticeModel::ChecksumSkipped) + unpacking,
                            unpack,
                        ),
                    }
                },
                Err(error) => self.fail_download(
                    Stage::Interpreter,
                    Seq::empty(),
                    error,
                    entry.url,
                ),
            },
            _ => self.unexpected(),
        }
    }

    /// An interpreter that was unpacked is the one to use.
    pub open spec fn on_interpreter_unpack(self, event: EventModel) -> Turn {
        match (self.target, self.entry, event) {
            (Some(version), Some(_), EventModel::Completed(true)) => self.chosen(
                say(self.output.speaks(), NoticeModel::Downloaded(version)),
                true,
            ),
            (Some(_), Some(entry), EventModel::Completed(false)) => self.fail_download(
                Stage::Interpreter,
                Seq::empty(),
                ErrorModel::Unpack,
                entry.url,
            ),
            _ => self.unexpected(),
        }
    }

    /// Whether the interpreter at hand is inspected for missing shared
    /// libraries before it is used: where the platform calls for it, a
    /// downloaded interpreter always is, and the interpreter of the
    /// private environment is even if it was installed before.
    pub open spec fn inspects(self, fetched: bool) -> bool {
        self.context.os.inspects_libraries() && (self.goal == Goal::SelfVenv || fetched)
    }

    /// The interpreter at hand is the one to use.
    pub open spec fn chosen(self, notices: Seq<NoticeModel>, fetched: bool) -> Turn {
        match self.target {
            Some(version) => if self.inspects(fetched) {
                self.perform(
                    State::Inspection,
                    notices,
                    ActionModel::InspectLibraries { version },
                )
            } else {
                self.interpreter_ready(notices)
            },
            None => self.unexpected(),
        }
    }

    /// An interpreter that misses a shared library cannot be used.
    pub open spec fn on_inspection(self, event: EventModel) -> Turn {
        match event {
            EventModel::Inspected(Some(report)) => if runs_here(report) {
                self.interpreter_ready(Seq::empty())
            } else {
                self.fail(
                    Stage::Interpreter,
                    seq![NoticeModel::MissingLibraries(missing(report))],
                    ErrorModel::MissingSharedLibraries { libs: missing(report) },
                )
            },
            EventModel::Inspected(None) => self.fail(
                Stage::Interpreter,
                Seq::empty(),
                ErrorModel::Io(IoOp::InspectLibraries),
            ),
            _ => self.unexpected(),
        }
    }

    /// With the interpreter ready, a run for an interpreter is over, and a
    /// run for the private environment goes on to create it.
    pub open spec fn interpreter_ready(self, notices: Seq<NoticeModel>) -> Turn {
        match (self.goal, self.target, self.context.helper) {
            (Goal::Interpreter, Some(version), _) => self.succeed(
                notices,
                ProvisionedModel::Interpreter(version),
            ),
            (Goal::SelfVenv, Some(version), Some(helper)) => self.perform(
                State::VenvCreation,
                notices,
                ActionModel::RunHelper {
                    helper: helper.version,
                    command: venv_command(self.output, self.context.proxy, version),
                },
            ),
            _ => self.unexpected(),
        }
    }

    /// Once the helper has created the environment, the marker that names
    /// its interpreter is written.
    pub open spec fn on_venv_creation(self, event: EventModel) -> Turn {
        match (self.target, event) {
            (Some(version), EventModel::Completed(true)) => self.perform(
                State::VenvMarker,
                Seq::empty(),
                ActionModel::WriteVenvMarker { version },
            ),
            (Some(_), EventModel::Completed(false)) => self.fail(
                Stage::Environment,
                Seq::empty(),
                ErrorModel::HelperFailed(HelperStep::CreateVenv),
            ),
            _ => self.unexpected(),
        }
    }

    /// With the interpreter named, the installer inside the environment is
    /// brought to the pinned version.
    pub open spec fn on_venv_marker(self, event: EventModel) -> Turn {
        match (self.target, self.context.helper, event) {
            (Some(_), Some(helper), EventModel::Completed(true)) => self.perform(
                State::InstallerUpgrade,
                Seq::empty(),
                ActionModel::RunHelper {
                    helper: helper.version,
                    command: upgrade_command(
                        self.output,
                        self.context.proxy,
                        self.context.installer,
                    ),
                },
            ),
            (Some(_), Some(_), EventModel::Completed(false)) => self.fail(
                Stage::Environment,
                Seq::empty(),
                ErrorModel::Io(IoOp::WriteVenvMarker),
            ),
            _ => self.unexpected(),
        }
    }

    /// With the installer upgraded, the pinned requirements are written to
    /// a temporary file.
    pub open spec fn on_installer_upgrade(self, event: EventModel) -> Turn {
        match event {
            EventModel::Completed(true) => self.perform(
                State::RequirementsFile,
                Seq::empty(),
                ActionModel::WriteRequirements { content: SELF_REQUIREMENTS@ },
            ),
            EventModel::Completed(false) => self.fail(
                Stage::Environment,
                Seq::empty(),
                ErrorModel::HelperFailed(HelperStep::UpgradeInstaller),
            ),
            _ => self.unexpected(),
        }
    }

    /// With the requirements written, the helper installs them.
    pub open spec fn on_requirements_file(self, event: EventModel) -> Turn {
        match (self.target, self.context.helper, event) {
            (Some(_), Some(helper), EventModel::Completed(true)) => self.perform(
                State::RequirementsInstall,
                Seq::empty(),
                ActionModel::RunHelper {
                    helper: helper.version,
                    command: requirements_command(self.output, self.context.proxy),
                },
            ),
            (Some(_), Some(_), EventModel::Completed(false)) => self.fail(
                Stage::Environment,
                Seq::empty(),
                ErrorModel::Io(IoOp::WriteRequirements),
            ),
            _ => self.unexpected(),
        }
    }

    /// However the installation of the requirements ended, the temporary
    /// file is deleted next.
    pub open spec fn on_requirements_install(self, event: EventModel) -> Turn {
        match event {
            EventModel::Completed(installed) => self.perform(
                State::RequirementsDiscard { installed },
                Seq::empty(),
                ActionModel::DiscardRequirements,
            ),
            _ => self.unexpected(),
        }
    }

    /// Whatever came of deleting the temporary file, the run goes on as
    /// the installation of the requirements ended.
    pub open spec fn on_requirements_discard(self, installed: bool, event: EventModel) -> Turn {
        match event {
            EventModel::Completed(_) => if installed {
                self.perform(State::ShimDirProbe, Seq::empty(), ActionModel::ProbeShimDir)
            } else {
                self.fail(
                    Stage::Environment,
                    Seq::empty(),
                    ErrorModel::HelperFailed(HelperStep::InstallRequirements),
                )
            },
            _ => self.unexpected(),
        }
    }

    /// The shim directory is created where it is not there.
    pub open spec fn on_shim_dir_probe(self, event: EventModel) -> Turn {
        match event {
            EventModel::Probed(true) => self.perform(
                State::ToolProbe,
                Seq::empty(),
                ActionModel::ProbeInstalledTool,
            ),
            EventModel::Probed(false) => self.perform(
                State::ShimDirCreation,
                Seq::empty(),
                ActionModel::CreateShimDir,
            ),
            _ => self.unexpected(),
        }
    }

    /// With the shim directory there, the run looks for the tool in it.
    pub open spec fn on_shim_dir_creation(self, event: EventModel) -> Turn {
        match event {
            EventModel::Completed(true) => self.perform(
                State::ToolProbe,
                Seq::empty(),
                ActionModel::ProbeInstalledTool,
            ),
            EventModel::Completed(false) => self.fail(
                Stage::Shims,
                Seq::empty(),
                ErrorModel::Io(IoOp::CreateShimDir),
            ),
            _ => self.unexpected(),
        }
    }

    /// The shims stand for the tool as it is installed in the shim
    /// directory, where it is, and else for the running executable.
    pub open spec fn on_tool_probe(self, event: EventModel) -> Turn {
        match event {
            EventModel::Probed(installed) => self.shims(
                ShimInstall::fresh(self.context.os, target_for(installed)),
            ),
            _ => self.unexpected(),
        }
    }

    /// What the installation of the shims asks for is passed on; when the
    /// shims are installed, the marker is written, last of all.
    pub open spec fn shims(self, install: ShimInstall) -> Turn {
        match install.request() {
            ShimStepModel::Remove { name } => self.perform(
                State::Shims(install),
                Seq::empty(),
                ActionModel::RemoveShim { name },
            ),
            ShimStepModel::Link { name, strategy, target } => self.perform(
                State::Shims(install),
                Seq::empty(),
                ActionModel::LinkShim { name, strategy, target },
            ),
            ShimStepModel::Installed => self.perform(
                State::Stamp,
                Seq::empty(),
                ActionModel::StampToolVersion { content: decimal_of(SELF_VERSION as nat) },
            ),
            ShimStepModel::Failed { name } => self.fail(
                Stage::Shims,
                Seq::empty(),
                ErrorModel::ShimInstallFailed { shim: name },
            ),
        }
    }

    /// The installation of the shims goes on with the driver's answer.
    pub open spec fn on_shims(self, install: ShimInstall, event: EventModel) -> Turn {
        match event {
            EventModel::Completed(ok) => self.shims(install.after(ok)),
            _ => self.unexpected(),
        }
    }

    /// With the marker written, the environment is provisioned, and the
    /// process remembers it.
    pub open spec fn on_stamp(self, event: EventModel) -> Turn {
        match event {
            EventModel::Completed(true) => BootstrapModel {
                staleness: Staleness { provisioned: true, ..self.staleness },
                ..self
            }.succeed(Seq::empty(), ProvisionedModel::SelfVenv),
            EventModel::Completed(false) => self.fail(
                Stage::Stamp,
                Seq::empty(),
                ErrorModel::Io(IoOp::StampToolVersion),
            ),
            _ => self.unexpected(),
        }
    }

    /// The step that the run takes when the driver answers with `event`.
    #[verifier::opaque]
    pub open spec fn next(self, event: EventModel) -> Turn {
        match self.state {
            State::VenvProbe => self.on_venv_probe(event),
            State::MarkerRead => self.on_marker_read(event),
            State::VenvRemoval => self.on_venv_removal(event),
            State::HelperProbe { unpacked } => self.on_helper_probe(unpacked, event),
            State::HelperTransfer => self.on_helper_transfer(event),
            State::HelperUnpack => self.on_helper_unpack(event),
            State::InstalledListing => self.on_installed(event),
            State::InterpreterProbe { origin } => self.on_interpreter_probe(origin, event),
            State::InterpreterDir => self.on_interpreter_dir(event),
            State::InterpreterTransfer => self.on_interpreter_transfer(event),
            State::InterpreterUnpack => self.on_interpreter_unpack(event),
            State::Inspection => self.on_inspection(event),
            State::VenvCreation => self.on_venv_creation(event),
            State::VenvMarker => self.on_venv_marker(event),
            State::InstallerUpgrade => self.on_installer_upgrade(event),
            State::RequirementsFile => self.on_requirements_file(event),
            State::RequirementsInstall => self.on_requirements_install(event),
            State::RequirementsDiscard { installed } => self.on_requirements_discard(
                installed,
                event,
            ),
            State::ShimDirProbe => self.on_shim_dir_probe(event),
            State::ShimDirCreation => self.on_shim_dir_creation(event),
            State::ToolProbe => self.on_tool_probe(event),
            State::Shims(install) => self.on_shims(install, event),
            State::Stamp => self.on_stamp(event),
            State::Finished => self.unexpected(),
        }
    }
}

impl Bootstrap {
    /// The run as it is after `step`, and the step.
    pub open spec fn turn(&self, step: Step) -> Turn {
        Turn { run: self@, step: step@ }
    }

    fn perform(&mut self, state: State, notices: Vec<Notice>, action: Action) -> (step: Step)
        ensures
            final(self).turn(step) == old(self)@.perform(state, notices.deep_view(), action@),
    {
        self.state = state;
        Step { notices, next: Next::Perform(action) }
    }

    fn succeed(&mut self, notices: Vec<Notice>, done: Provisioned) -> (step: Step)
        ensures
            final(self).turn(step) == old(self)@.succeed(notices.deep_view(), done@),
    {
        self.state = State::Finished;
        Step { notices, next: Next::Finish(Ok(done)) }
    }

    fn fail(&mut self, stage: Stage, notices: Vec<Notice>, kind: ErrorKind) -> (step: Step)
        ensures
            final(self).turn(step) == old(self)@.fail(stage, notices.deep_view(), kind@),
    {
        self.state = State::Finished;
        Step { notices, next: Next::Finish(Err(Failure { stage, kind, url: None })) }
    }

    fn fail_download(
        &mut self,
        stage: Stage,
        notices: Vec<Notice>,
        kind: ErrorKind,
        url: String,
    ) -> (step: Step)
        ensures
            final(self).turn(step) == old(self)@.fail_download(
                stage,
                notices.deep_view(),
                kind@,
                url@,
            ),
    {
        self.state = State::Finished;
        Step { notices, next: Next::Finish(Err(Failure { stage, kind, url: Some(url) })) }
    }

    /// The part of provisioning that the run is in.
    pub fn stage(&self) -> (stage: Stage)
        ensures
            stage == self@.stage(),
    {
        match self.state {
            State::VenvProbe | State::MarkerRead | State::VenvRemoval => Stage::Refresh,
            State::HelperProbe { .. } | State::HelperTransfer | State::HelperUnpack => {
                Stage::Helper
            },
            State::InstalledListing | State::InterpreterProbe { .. } | State::InterpreterDir
            | State::InterpreterTransfer | State::InterpreterUnpack | State::Inspection => {
                Stage::Interpreter
            },
            State::VenvCreation | State::VenvMarker | State::InstallerUpgrade
            | State::RequirementsFile | State::RequirementsInstall
            | State::RequirementsDiscard { .. } => Stage::Environment,
            State::ShimDirProbe | State::ShimDirCreation | State::ToolProbe | State::Shims(_) => {
                Stage::Shims
            },
            State::Stamp | State::Finished => Stage::Stamp,
        }
    }

    fn unexpected(&mut self) -> (step: Step)
        ensures
            final(self).turn(step) == old(self)@.unexpected(),
    {
        let stage = self.stage();
        self.fail(stage, silence(), ErrorKind::UnexpectedEvent)
    }

    fn uv(&self) -> (uv: Uv)
        ensures
            uv.output == self.output,
            opt_chars(uv.proxy) == self@.context.proxy,
    {
        Uv { output: self.output, proxy: copy_opt(&self.context.proxy) }
    }

    fn start(&mut self) -> (step: Step)
        ensures
            final(self).turn(step) == old(self)@.start(),
    {
        match self.goal {
            Goal::SelfVenv => self.perform(State::VenvProbe, silence(), Action::ProbeVenv),
            Goal::Interpreter => {
                let request = match &self.request {
                    Some(request) => request.clone(),
                    None => {
                        return self.unexpected();
                    },
                };
                self.begin_fetch(silence(), &request)
            },
        }
    }

    fn judge(&mut self) -> (step: Step)
        ensures
            final(self).turn(step) == old(self)@.judge(),
    {
        if self.staleness.verdict == Some(true) || self.staleness.provisioned {
            self.succeed(silence(), Provisioned::SelfVenv)
        } else {
            let mut notices = silence();
            note(&mut notices, !self.output.is_quiet(), Notice::OutdatedInternals);
            assert(notices.deep_view() =~= say(
                self.output.speaks(),
                NoticeModel::OutdatedInternals,
            ));
            self.perform(State::VenvRemoval, notices, Action::RemoveVenv)
        }
    }

    fn on_venv_probe(&mut self, event: Event) -> (step: Step)
        ensures
            final(self).turn(step) == old(self)@.on_venv_probe(event@),
    {
        match event {
            Event::Probed(true) => match self.staleness.verdict {
                Some(_) => self.judge(),
                None => self.perform(State::MarkerRead, silence(), Action::ReadToolVersion),
            },
            Event::Probed(false) => self.provision(),
            _ => self.unexpected(),
        }
    }

    fn on_marker_read(&mut self, event: Event) -> (step: Step)
        ensures
            final(self).turn(step) == old(self)@.on_marker_read(event@),
    {
        match event {
            Event::ToolVersion(content) => {
                match &content {
                    Some(text) => self.staleness.observe(Some(text.as_str())),
                    None => self.staleness.observe(None),
                }
                self.judge()
            },
            _ => self.unexpected(),
        }
    }

    fn on_venv_removal(&mut self, event: Event) -> (step: Step)
        ensures
            final(self).turn(step) == old(self)@.on_venv_removal(event@),
    {
        match event {
            Event::Completed(true) => self.provision(),
            Event::Completed(false) => self.fail(
                Stage::Refresh,
                silence(),
                ErrorKind::Io(IoOp::RemoveVenv),
            ),
            _ => self.unexpected(),
        }
    }

    fn provision(&mut self) -> (step: Step)
        ensures
            final(self).turn(step) == old(self)@.provision(),
    {
        let mut notices = silence();
        note(&mut notices, !self.output.is_quiet(), Notice::Bootstrapping);
        assert(notices.deep_view() =~= say(self.output.speaks(), NoticeModel::Bootstrapping));
        let version = match &self.context.helper {
            Some(helper) => helper.version.clone(),
            None => {
                return self.fail(Stage::Helper, notices, ErrorKind::HelperUnavailable);
            },
        };
        self.perform(State::HelperProbe { unpacked: false }, notices, Action::ProbeHelper { version })
    }

    fn on_helper_probe(&mut self, unpacked: bool, event: Event) -> (step: Step)
        ensures
            final(self).turn(step) == old(self)@.on_helper_probe(unpacked, event@),
    {
        let url = match &self.context.helper {
            Some(helper) => helper.url.clone(),
            None => {
                return self.unexpected();
            },
        };
        match event {
            Event::Probed(true) => self.select(),
            Event::Probed(false) => {
                if unpacked {
                    self.fail(Stage::Helper, silence(), ErrorKind::HelperInstallFailed)
                } else {
                    let proxy = copy_opt(&self.context.proxy);
                    match transfer_request(url.as_str(), self.output, proxy, self.context.os) {
                        Ok(request) => self.perform(
                            State::HelperTransfer,
                            silence(),
                            Action::Download { request },
                        ),
                        Err(refusal) => self.fail_download(Stage::Helper, silence(), refusal, url),
                    }
                }
            },
            _ => self.unexpected(),
        }
    }

    fn on_helper_transfer(&mut self, event: Event) -> (step: Step)
        ensures
            final(self).turn(step) == old(self)@.on_helper_transfer(event@),
    {
        let helper = match &self.context.helper {
            Some(helper) => helper.clone(),
            None => {
                return self.unexpected();
            },
        };
        match event {
            Event::Transferred(outcome) => match download_url(helper.url.as_str(), outcome) {
                Ok(archive) => match check_checksum(archive.as_slice(), helper.sha256.as_str()) {
                    Ok(_) => self.perform(
                        State::HelperUnpack,
                        silence(),
                        Action::UnpackHelper {
                            archive,
                            version: helper.version,
                            strip_components: 1,
                        },
                    ),
                    Err(mismatch) => self.fail_download(
                        Stage::Helper,
                        silence(),
                        mismatch,
                        helper.url,
                    ),
                },
                Err(error) => self.fail_download(Stage::Helper, silence(), error, helper.url),
            },
            _ => self.unexpected(),
        }
    }

    fn on_helper_unpack(&mut self, event: Event) -> (step: Step)
        ensures
            final(self).turn(step) == old(self)@.on_helper_unpack(event@),
    {
        let helper = match &self.context.helper {
            Some(helper) => helper.clone(),
            None => {
                return self.unexpected();
            },
        };
        match event {
            Event::Completed(true) => self.perform(
                State::HelperProbe { unpacked: true },
                silence(),
                Action::ProbeHelper { version: helper.version },
            ),
            Event::Completed(false) => self.fail_download(
                Stage::Helper,
                silence(),
                ErrorKind::Unpack,
                helper.url,
            ),
            _ => self.unexpected(),
        }
    }

    fn select(&mut self) -> (step: Step)
        ensures
            final(self).turn(step) == old(self)@.select(),
    {
        let request = match &self.request {
            None => {
                return self.perform(State::InstalledListing, silence(), Action::ListInstalled);
            },
            Some(request) => request.clone(),
        };
        match latest_available_python_version(&self.context.catalog, &request, &self.context.host) {
            None => self.fail(
                Stage::Interpreter,
                silence(),
                ErrorKind::UnknownVersion { request },
            ),
            Some(version) => {
                if is_self_compatible_toolchain(&version) {
                    self.target = Some(version.clone());
                    self.entry = None;
                    self.perform(
                        State::InterpreterProbe { origin: Origin::Requested },
                        silence(),
                        Action::ProbeInterpreter { version },
                    )
                } else {
                    self.fail(
                        Stage::Interpreter,
                        silence(),
                        ErrorKind::UnsupportedToolchain { version },
                    )
                }
            },
        }
    }

    fn on_installed(&mut self, event: Event) -> (step: Step)
        ensures
            final(self).turn(step) == old(self)@.on_installed(event@),
    {
        match event {
            Event::Installed(None) => self.fail(
                Stage::Interpreter,
                silence(),
                ErrorKind::Io(IoOp::ListInstalled),
            ),
            Event::Installed(Some(installed)) => match latest_compatible_installed(&installed) {
                Some(version) => {
                    let mut notices = silence();
                    note(
                        &mut notices,
                        !self.output.is_quiet(),
                        Notice::FoundCompatible(version.clone()),
                    );
                    assert(notices.deep_view() =~= say(
                        self.output.speaks(),
                        NoticeModel::FoundCompatible(version@),
                    ));
                    self.target = Some(version);
                    self.entry = None;
                    self.chosen(notices, false)
                },
                None => {
                    let request = self_python_target_version();
                    self.begin_fetch(silence(), &request)
                },
            },
            _ => self.unexpected(),
        }
    }

    fn begin_fetch(&mut self, notices: Vec<Notice>, request: &PythonVersionRequest) -> (step: Step)
        ensures
            final(self).turn(step) == old(self)@.begin_fetch(notices.deep_view(), request@),
    {
        match request.concretize(&self.context.host) {
            Some(version) => {
                self.target = Some(version.clone());
                self.entry = None;
                self.fetching = Some(request.clone());
                self.perform(
                    State::InterpreterProbe { origin: Origin::Named },
                    notices,
                    Action::ProbeInterpreter { version },
                )
            },
            None => {
                let found = match get_download_url(
                    &self.context.catalog,
                    request,
                    &self.context.host,
                ) {
                    Some(entry) => Some(entry.clone()),
                    None => None,
                };
                match found {
                    Some(entry) => {
                        let mut notices = notices;
                        note(
                            &mut notices,
                            self.output.is_verbose(),
                            Notice::TargetDir(entry.version.clone()),
                        );
                        let version = entry.version.clone();
                        self.target = Some(entry.version.clone());
                        self.entry = Some(entry);
                        self.perform(
                            State::InterpreterProbe { origin: Origin::Resolved },
                            notices,
                            Action::ProbeInterpreter { version },
                        )
                    },
                    None => self.fail(
                        Stage::Interpreter,
                        notices,
                        ErrorKind::UnknownVersion { request: request.clone() },
                    ),
                }
            },
        }
    }

    fn fetch_named(
        &mut self,
        notices: Vec<Notice>,
        version: PythonVersion,
        request: PythonVersionRequest,
    ) -> (step: Step)
        ensures
            final(self).turn(step) == old(self)@.fetch_named(
                notices.deep_view(),
                version@,
                request@,
            ),
    {
        let found = match get_download_url(&self.context.catalog, &request, &self.context.host) {
            Some(entry) => Some(entry.clone()),
            None => None,
        };
        match found {
            Some(entry) => {
                let mut notices = notices;
                note(&mut notices, self.output.is_verbose(), Notice::TargetDir(version.clone()));
                self.entry = Some(entry);
                self.perform(
                    State::InterpreterDir,
                    notices,
                    Action::CreateInterpreterDir { version },
                )
            },
            None => self.fail(Stage::Interpreter, notices, ErrorKind::UnknownVersion { request }),
        }
    }

    fn on_interpreter_probe(&mut self, origin: Origin, event: Event) -> (step: Step)
        ensures
            final(self).turn(step) == old(self)@.on_interpreter_probe(origin, event@),
    {
        let version = match &self.target {
            Some(version) => version.clone(),
            None => {
                return self.unexpected();
            },
        };
        match event {
            Event::Probed(true) => {
                let mut notices = silence();
                match origin {
                    Origin::Requested => {
                        note(
                            &mut notices,
                            !self.output.is_quiet(),
                            Notice::FoundCompatible(version),
                        );
                        assert(notices.deep_view() =~= say(
                            self.output.speaks(),
                            NoticeModel::FoundCompatible(version@),
                        ));
                    },
                    _ => {
                        note(&mut notices, self.output.is_verbose(), Notice::AlreadyDownloaded);
                        assert(notices.deep_view() =~= say(
                            self.output.details(),
                            NoticeModel::AlreadyDownloaded,
                        ));
                    },
                }
                self.chosen(notices, false)
            },
            Event::Probed(false) => match origin {
                Origin::Requested => {
                    let mut notices = silence();
                    note(
                        &mut notices,
                        !self.output.is_quiet(),
                        Notice::FetchingRequested(version.clone()),
                    );
                    assert(notices.deep_view() =~= say(
                        self.output.speaks(),
                        NoticeModel::FetchingRequested(version@),
                    ));
                    let request = version.to_request();
                    self.fetch_named(notices, version, request)
                },
                Origin::Named => {
                    let request = match &self.fetching {
                        Some(request) => request.clone(),
                        None => {
                            return self.unexpected();
                        },
                    };
                    self.fetch_named(silence(), version, request)
                },
                Origin::Resolved => {
                    if self.entry.is_some() {
                        self.perform(
                            State::InterpreterDir,
                            silence(),
                            Action::CreateInterpreterDir { version },
                        )
                    } else {
                        self.unexpected()
                    }
                },
            },
            _ => self.unexpected(),
        }
    }

    fn on_interpreter_dir(&mut self, event: Event) -> (step: Step)
        ensures
            final(self).turn(step) == old(self)@.on_interpreter_dir(event@),
    {
        let version = match &self.target {
            Some(version) => version.clone(),
            None => {
                return self.unexpected();
            },
        };
        let url = match &self.entry {
            Some(entry) => entry.url.clone(),
            None => {
                return self.unexpected();
            },
        };
        match event {
            Event::Completed(true) => {
                let mut notices = silence();
                note(&mut notices, self.output.is_verbose(), Notice::DownloadUrl(url.clone()));
                note(&mut notices, !self.output.is_quiet(), Notice::Downloading(version));
                assert(notices.deep_view() =~= say(
                    self.output.details(),
                    NoticeModel::DownloadUrl(url@),
                ) + say(self.output.speaks(), NoticeModel::Downloading(version@)));
                let proxy = copy_opt(&self.context.proxy);
                match transfer_request(url.as_str(), self.output, proxy, self.context.os) {
                    Ok(request) => self.perform(
                        State::InterpreterTransfer,
                        notices,
                        Action::Download { request },
                    ),
                    Err(refusal) => self.fail_download(Stage::Interpreter, notices, refusal, url),
                }
            },
            Event::Completed(false) => self.fail(
                Stage::Interpreter,
                silence(),
                ErrorKind::Io(IoOp::CreateInterpreterDir),
            ),
            _ => self.unexpected(),
        }
    }

    fn on_interpreter_transfer(&mut self, event: Event) -> (step: Step)
        ensures
            final(self).turn(step) == old(self)@.on_interpreter_transfer(event@),
    {
        let version = match &self.target {
            Some(version) => version.clone(),
            None => {
                return self.unexpected();
            },
        };
        let entry = match &self.entry {
            Some(entry) => entry.clone(),
            None => {
                return self.unexpected();
            },
        };
        match event {
            Event::Transferred(outcome) => match download_url(entry.url.as_str(), outcome) {
                Ok(archive) => {
                    let mut notices = silence();
                    match &entry.sha256 {
                        Some(declared) => {
                            note(&mut notices, !self.output.is_quiet(), Notice::CheckingChecksum);
                            assert(notices.deep_view() =~= say(
                                self.output.speaks(),
                                NoticeModel::CheckingChecksum,
                            ));
                            match check_checksum(archive.as_slice(), declared.as_str()) {
                                Ok(_) => {},
                                Err(mismatch) => {
                                    return self.fail_download(
                                        Stage::Interpreter,
                                        notices,
                                        mismatch,
                                        entry.url,
                                    );
                                },
                            }
                        },
                        None => {
                            note(&mut notices, !self.output.is_quiet(), Notice::ChecksumSkipped);
                            assert(notices.deep_view() =~= say(
                                self.output.speaks(),
                                NoticeModel::ChecksumSkipped,
                            ));
                        },
                    }
                    note(&mut notices, !self.output.is_quiet(), Notice::Unpacking);
                    self.perform(
                        State::InterpreterUnpack,
                        notices,
                        Action::UnpackInterpreter { archive, version, strip_components: 1 },
                    )
                },
                Err(error) => self.fail_download(Stage::Interpreter, silence(), error, entry.url),
            },
            _ => self.unexpected(),
        }
    }

    fn on_interpreter_unpack(&mut self, event: Event) -> (step: Step)
        ensures
            final(self).turn(step) == old(self)@.on_interpreter_unpack(event@),
    {
        let version = match &self.target {
            Some(version) => version.clone(),
            None => {
                return self.unexpected();
            },
        };
        let url = match &self.entry {
            Some(entry) => entry.url.clone(),
            None => {
                return self.unexpected();
            },
        };
        match event {
            Event::Completed(true) => {
                let mut notices = silence();
                note(&mut notices, !self.output.is_quiet(), Notice::Downloaded(version));
                assert(notices.deep_view() =~= say(
                    self.output.speaks(),
                    NoticeModel::Downloaded(version@),
                ));
                self.chosen(notices, true)
            },
            Event::Completed(false) => self.fail_download(
                Stage::Interpreter,
                silence(),
                ErrorKind::Unpack,
                url,
            ),
            _ => self.unexpected(),
        }
    }

    fn chosen(&mut self, notices: Vec<Notice>, fetched: bool) -> (step: Step)
        ensures
            final(self).turn(step) == old(self)@.chosen(notices.deep_view(), fetched),
    {
        let version = match &self.target {
            Some(version) => version.clone(),
            None => {
                return self.unexpected();
            },
        };
        if self.context.os.is_linux() && (self.goal == Goal::SelfVenv || fetched) {
            self.perform(State::Inspection, notices, Action::InspectLibraries { version })
        } else {
            self.interpreter_ready(notices)
        }
    }

    fn on_inspection(&mut self, event: Event) -> (step: Step)
        ensures
            final(self).turn(step) == old(self)@.on_inspection(event@),
    {
        match event {
            Event::Inspected(Some(report)) => {
                let libs = missing_shared_libraries(report.as_str());
                proof {
                    lemma_nothing_missing(report@);
                }
                if libs.len() == 0 {
                    self.interpreter_ready(silence())
                } else {
                    let mut notices = silence();
                    note(&mut notices, true, Notice::MissingLibraries(copy_strings(&libs)));
                    assert(notices.deep_view() =~= seq![
                        NoticeModel::MissingLibraries(missing(report@)),
                    ]);
                    self.fail(
                        Stage::Interpreter,
                        notices,
                        ErrorKind::MissingSharedLibraries { libs },
                    )
                }
            },
            Event::Inspected(None) => self.fail(
                Stage::Interpreter,
                silence(),
                ErrorKind::Io(IoOp::InspectLibraries),
            ),
            _ => self.unexpected(),
        }
    }

    fn interpreter_ready(&mut self, notices: Vec<Notice>) -> (step: Step)
        ensures
            final(self).turn(step) == old(self)@.interpreter_ready(notices.deep_view()),
    {
        let version = match &self.target {
            Some(version) => version.clone(),
            None => {
                return self.unexpected();
            },
        };
        match self.goal {
            Goal::Interpreter => self.succeed(notices, Provisioned::Interpreter(version)),
            Goal::SelfVenv => {
                let helper = match &self.context.helper {
                    Some(helper) => helper.version.clone(),
                    None => {
                        return self.unexpected();
                    },
                };
                let command = self.uv().venv(&version);
                self.perform(State::VenvCreation, notices, Action::RunHelper { helper, command })
            },
        }
    }

    fn on_venv_creation(&mut self, event: Event) -> (step: Step)
        ensures
            final(self).turn(step) == old(self)@.on_venv_creation(event@),
    {
        let version = match &self.target {
            Some(version) => version.clone(),
            None => {
                return self.unexpected();
            },
        };
        match event {
            Event::Completed(true) => self.perform(
                State::VenvMarker,
                silence(),
                Action::WriteVenvMarker { version },
            ),
            Event::Completed(false) => self.fail(
                Stage::Environment,
                silence(),
                ErrorKind::HelperFailed(HelperStep::CreateVenv),
            ),
            _ => self.unexpected(),
        }
    }

    fn venv(&self) -> (r: Option<(String, UvWithVenv)>)
        ensures
            match (self@.target, self@.context.helper) {
                (Some(_), Some(helper)) => r matches Some(pair) && pair.0@ == helper.version
                    && pair.1.uv.output == self.output && opt_chars(pair.1.uv.proxy)
                    == self@.context.proxy,
                _ => r is None,
            },
    {
        match (&self.target, &self.context.helper) {
            (Some(version), Some(helper)) => Some(
                (helper.version.clone(), UvWithVenv::new(self.uv(), version)),
            ),
            _ => None,
        }
    }

    fn on_venv_marker(&mut self, event: Event) -> (step: Step)
        ensures
            final(self).turn(step) == old(self)@.on_venv_marker(event@),
    {
        let (helper, venv) = match self.venv() {
            Some(pair) => pair,
            None => {
                return self.unexpected();
            },
        };
        match event {
            Event::Completed(true) => {
                let command = venv.update_pip(self.context.installer.as_str());
                self.perform(
                    State::InstallerUpgrade,
                    silence(),
                    Action::RunHelper { helper, command },
                )
            },
            Event::Completed(false) => self.fail(
                Stage::Environment,
                silence(),
                ErrorKind::Io(IoOp::WriteVenvMarker),
            ),
            _ => self.unexpected(),
        }
    }

    fn on_installer_upgrade(&mut self, event: Event) -> (step: Step)
        ensures
            final(self).turn(step) == old(self)@.on_installer_upgrade(event@),
    {
        match event {
            Event::Completed(true) => self.perform(
                State::RequirementsFile,
                silence(),
                Action::WriteRequirements { content: SELF_REQUIREMENTS.to_owned() },
            ),
            Event::Completed(false) => self.fail(
                Stage::Environment,
                silence(),
                ErrorKind::HelperFailed(HelperStep::UpgradeInstaller),
            ),
            _ => self.unexpected(),
        }
    }

    fn on_requirements_file(&mut self, event: Event) -> (step: Step)
        ensures
            final(self).turn(step) == old(self)@.on_requirements_file(event@),
    {
        let (helper, venv) = match self.venv() {
            Some(pair) => pair,
            None => {
                return self.unexpected();
            },
        };
        match event {
            Event::Completed(true) => {
                let command = venv.update_requirements();
                self.perform(
                    State::RequirementsInstall,
                    silence(),
                    Action::RunHelper { helper, command },
                )
            },
            Event::Completed(false) => self.fail(
                Stage::Environment,
                silence(),
                ErrorKind::Io(IoOp::WriteRequirements),
            ),
            _ => self.unexpected(),
        }
    }

    fn on_requirements_install(&mut self, event: Event) -> (step: Step)
        ensures
            final(self).turn(step) == old(self)@.on_requirements_install(event@),
    {
        match event {
            Event::Completed(installed) => self.perform(
                State::RequirementsDiscard { installed },
                silence(),
                Action::DiscardRequirements,
            ),
            _ => self.unexpected(),
        }
    }

    fn on_requirements_discard(&mut self, installed: bool, event: Event) -> (step: Step)
        ensures
            final(self).turn(step) == old(self)@.on_requirements_discard(installed, event@),
    {
        match event {
            Event::Completed(_) => {
                if installed {
                    self.perform(State::ShimDirProbe, silence(), Action::ProbeShimDir)
                } else {
                    self.fail(
                        Stage::Environment,
                        silence(),
                        ErrorKind::HelperFailed(HelperStep::InstallRequirements),
                    )
                }
            },
            _ => self.unexpected(),
        }
    }

    fn on_shim_dir_probe(&mut self, event: Event) -> (step: Step)
        ensures
            final(self).turn(step) == old(self)@.on_shim_dir_probe(event@),
    {
        match event {
            Event::Probed(true) => self.perform(
                State::ToolProbe,
                silence(),
                Action::ProbeInstalledTool,
            ),
            Event::Probed(false) => self.perform(
                State::ShimDirCreation,
                silence(),
                Action::CreateShimDir,
            ),
            _ => self.unexpected(),
        }
    }

    fn on_shim_dir_creation(&mut self, event: Event) -> (step: Step)
        ensures
            final(self).turn(step) == old(self)@.on_shim_dir_creation(event@),
    {
        match event {
            Event::Completed(true) => self.perform(
                State::ToolProbe,
                silence(),
                Action::ProbeInstalledTool,
            ),
            Event::Completed(false) => self.fail(
                Stage::Shims,
                silence(),
                ErrorKind::Io(IoOp::CreateShimDir),
            ),
            _ => self.unexpected(),
        }
    }

    fn on_tool_probe(&mut self, event: Event) -> (step: Step)
        ensures
            final(self).turn(step) == old(self)@.on_tool_probe(event@),
    {
        match event {
            Event::Probed(installed) => {
                let target = if installed {
                    ShimTarget::InstalledTool
                } else {
                    ShimTarget::CurrentExe
                };
                let (install, request) = crate::shims::update_core_shims(self.context.os, target);
                self.shims(install, request)
            },
            _ => self.unexpected(),
        }
    }

    fn shims(&mut self, install: ShimInstall, request: ShimStep) -> (step: Step)
        requires
            request@ == install.request(),
        ensures
            final(self).turn(step) == old(self)@.shims(install),
    {
        match request {
            ShimStep::Remove { name } => self.perform(
                State::Shims(install),
                silence(),
                Action::RemoveShim { name },
            ),
            ShimStep::Link { name, strategy, target } => self.perform(
                State::Shims(install),
                silence(),
                Action::LinkShim { name, strategy, target },
            ),
            ShimStep::Installed => self.perform(
                State::Stamp,
                silence(),
                Action::StampToolVersion { content: format_tool_version(SELF_VERSION) },
            ),
            ShimStep::Failed { name } => self.fail(
                Stage::Shims,
                silence(),
                ErrorKind::ShimInstallFailed { shim: name },
            ),
        }
    }

    fn on_shims(&mut self, install: ShimInstall, event: Event) -> (step: Step)
        ensures
            final(self).turn(step) == old(self)@.on_shims(install, event@),
    {
        match event {
            Event::Completed(ok) => {
                let mut install = install;
                let request = install.advance(ok);
                self.shims(install, request)
            },
            _ => self.unexpected(),
        }
    }

    fn on_stamp(&mut self, event: Event) -> (step: Step)
        ensures
            final(self).turn(step) == old(self)@.on_stamp(event@),
    {
        match event {
            Event::Completed(true) => {
                self.staleness.mark_provisioned();
                self.succeed(silence(), Provisioned::SelfVenv)
            },
            Event::Completed(false) => self.fail(
                Stage::Stamp,
                silence(),
                ErrorKind::Io(IoOp::StampToolVersion),
            ),
            _ => self.unexpected(),
        }
    }

    /// Takes the driver's answer to the action that was asked for, and
    /// says what comes next.
    pub fn advance(&mut self, event: Event) -> (step: Step)
        ensures
            final(self).turn(step) == old(self)@.next(event@),
    {
        proof {
            reveal(BootstrapModel::next);
        }
        match self.state {
            State::VenvProbe => self.on_venv_probe(event),
            State::MarkerRead => self.on_marker_read(event),
            State::VenvRemoval => self.on_venv_removal(event),
            State::HelperProbe { unpacked } => self.on_helper_probe(unpacked, event),
            State::HelperTransfer => self.on_helper_transfer(event),
            State::HelperUnpack => self.on_helper_unpack(event),
            State::InstalledListing => self.on_installed(event),
            State::InterpreterProbe { origin } => self.on_interpreter_probe(origin, event),
            State::InterpreterDir => self.on_interpreter_dir(event),
            State::InterpreterTransfer => self.on_interpreter_transfer(event),
            State::InterpreterUnpack => self.on_interpreter_unpack(event),
            State::Inspection => self.on_inspection(event),
            State::VenvCreation => self.on_venv_creation(event),
            State::VenvMarker => self.on_venv_marker(event),
            State::InstallerUpgrade => self.on_installer_upgrade(event),
            State::RequirementsFile => self.on_requirements_file(event),
            State::RequirementsInstall => self.on_requirements_install(event),
            State::RequirementsDiscard { installed } => self.on_requirements_discard(
                installed,
                event,
            ),
            State::ShimDirProbe => self.on_shim_dir_probe(event),
            State::ShimDirCreation => self.on_shim_dir_creation(event),
            State::ToolProbe => self.on_tool_probe(event),
            State::Shims(install) => self.on_shims(install, event),
            State::Stamp => self.on_stamp(event),
            State::Finished => self.unexpected(),
        }
    }
}

/// Begins a run that makes the private environment available and current,
/// built on the toolchain that is asked for, if one is.
pub fn ensure_self_venv_with_toolchain(
    output: CommandOutput,
    toolchain_version_request: Option<PythonVersionRequest>,
    context: Context,
    staleness: Staleness,
) -> (r: (Bootstrap, Step))
    ensures
        r.0.turn(r.1) == BootstrapModel::initial(
            Goal::SelfVenv,
            output,
            toolchain_version_request.deep_view(),
            context@,
            staleness,
        ).start(),
{
    let mut run = Bootstrap {
        goal: Goal::SelfVenv,
        output,
        request: toolchain_version_request,
        context,
        staleness,
        state: State::Finished,
        target: None,
        entry: None,
        fetching: None,
    };
    let step = run.start();
    (run, step)
}

/// Begins a run that makes the private environment available and current.
pub fn ensure_self_venv(output: CommandOutput, context: Context, staleness: Staleness) -> (r: (
    Bootstrap,
    Step,
))
    ensures
        r.0.turn(r.1) == BootstrapModel::initial(
            Goal::SelfVenv,
            output,
            None,
            context@,
            staleness,
        ).start(),
{
    ensure_self_venv_with_toolchain(output, None, context, staleness)
}

/// Begins a run that fetches a version if it is missing.
pub fn fetch(version: &PythonVersionRequest, output: CommandOutput, context: Context) -> (r: (
    Bootstrap,
    Step,
))
    ensures
        r.0.turn(r.1) == BootstrapModel::initial(
            Goal::Interpreter,
            output,
            Some(version@),
            context@,
            Staleness { verdict: None, provisioned: false },
        ).start(),
{
    let mut run = Bootstrap {
        goal: Goal::Interpreter,
        output,
        request: Some(version.clone()),
        context,
        staleness: Staleness::new(),
        state: State::Finished,
        target: None,
        entry: None,
        fetching: None,
    };
    let step = run.start();
    (run, step)
}

} // verus!
