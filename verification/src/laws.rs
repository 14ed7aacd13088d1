use vstd::prelude::*;
use crate::bootstrap::{BootstrapModel, Goal, State};
use crate::catalog::latest;
use crate::checksum::{digest_matches, sha256};
use crate::download::is_secure;
use crate::helper::{requirements_command, upgrade_command, venv_command};
use crate::error::ErrorModel;
use crate::libraries::runs_here;
use crate::marker::{
    lemma_written_version_parses, marker_is_current, parsed_version, Staleness, SELF_VERSION,
};
use crate::output::CommandOutput;
use crate::shims::{shim_names, strategies, ShimInstall};
use crate::step::{
    ActionModel, EventModel, FailureModel, NextModel, ProvisionedModel, Stage, StepModel,
};

verus! {

/// How much a shim installation has left to do at most: for every shim
/// that is not installed, the removal and every strategy, of which there
/// are never more than two.
pub open spec fn shim_work_left(install: ShimInstall) -> nat {
    let shims = shim_names(install.os).len() as int;
    let ways = strategies(install.os).len() as int;
    let at_hand: int = if install.clearing {
        ways + 1
    } else if install.tried <= ways {
        ways - install.tried
    } else {
        0
    };
    if install.installed >= shims {
        0
    } else {
        (4 * (shims - install.installed) + at_hand) as nat
    }
}

/// How many steps a run has left at most.
pub open spec fn steps_left(state: State) -> nat {
    match state {
        State::Finished => 0,
        State::Stamp => 1,
        State::Shims(install) => 2 + shim_work_left(install),
        State::ToolProbe => 30,
        State::ShimDirCreation => 31,
        State::ShimDirProbe => 32,
        State::RequirementsDiscard { .. } => 33,
        State::RequirementsInstall => 34,
        State::RequirementsFile => 35,
        State::InstallerUpgrade => 36,
        State::VenvMarker => 37,
        State::VenvCreation => 38,
        State::Inspection => 39,
        State::InterpreterUnpack => 40,
        State::InterpreterTransfer => 41,
        State::InterpreterDir => 42,
        State::InterpreterProbe { .. } => 43,
        State::InstalledListing => 44,
        State::HelperProbe { unpacked: true } => 45,
        State::HelperUnpack => 46,
        State::HelperTransfer => 47,
        State::HelperProbe { unpacked: false } => 48,
        State::VenvRemoval => 49,
        State::MarkerRead => 50,
        State::VenvProbe => 51,
    }
}

/// Every run ends: each step leaves fewer steps to take. The steps come
/// in one order, which is the order of what they leave on disk: the
/// helper, then the interpreter, then the environment, then the shims,
/// and the marker last.
pub proof fn lemma_every_step_progresses(run: BootstrapModel, event: EventModel)
    requires
        run.state != State::Finished,
    ensures
        steps_left(run.next(event).run.state) < steps_left(run.state),
        run.next(event).step.ends() <==> run.next(event).run.state == State::Finished,
{
    // one state at a time, so that each step is unfolded where it is known
    match run.state {
        State::Shims(install) => {
            let ways = strategies(install.os).len();
            let shims = shim_names(install.os).len();
            assert(ways == 1 || ways == 2);
            assert(shims == 2 || shims == 3);
            assert(progresses(run, event)) by {
                reveal(BootstrapModel::next);
            }
        },
        State::VenvProbe => {
            assert(progresses(run, event)) by {
                reveal(BootstrapModel::next);
            }
        },
        State::MarkerRead => {
            assert(progresses(run, event)) by {
                reveal(BootstrapModel::next);
            }
        },
        State::VenvRemoval => {
            assert(progresses(run, event)) by {
                reveal(BootstrapModel::next);
            }
        },
        State::HelperProbe { .. } => {
            assert(progresses(run, event)) by {
                reveal(BootstrapModel::next);
            }
        },
        State::HelperTransfer => {
            assert(progresses(run, event)) by {
                reveal(BootstrapModel::next);
            }
        },
        State::HelperUnpack => {
            assert(progresses(run, event)) by {
                reveal(BootstrapModel::next);
            }
        },
        State::InstalledListing => {
            assert(progresses(run, event)) by {
                reveal(BootstrapModel::next);
            }
        },
        State::InterpreterProbe { .. } => {
            assert(progresses(run, event)) by {
                reveal(BootstrapModel::next);
            }
        },
        State::InterpreterDir => {
            assert(progresses(run, event)) by {
                reveal(BootstrapModel::next);
            }
        },
        State::InterpreterTransfer => {
            assert(progresses(run, event)) by {
                reveal(BootstrapModel::next);
            }
        },
        State::InterpreterUnpack => {
            assert(progresses(run, event)) by {
                reveal(BootstrapModel::next);
            }
        },
        State::Inspection => {
            assert(progresses(run, event)) by {
                reveal(BootstrapModel::next);
            }
        },
        State::VenvCreation => {
            assert(progresses(run, event)) by {
                reveal(BootstrapModel::next);
            }
        },
        State::VenvMarker => {
            assert(progresses(run, event)) by {
                reveal(BootstrapModel::next);
            }
        },
        State::InstallerUpgrade => {
            assert(progresses(run, event)) by {
                reveal(BootstrapModel::next);
            }
        },
        State::RequirementsFile => {
            assert(progresses(run, event)) by {
                reveal(BootstrapModel::next);
            }
        },
        State::RequirementsInstall => {
            assert(progresses(run, event)) by {
                reveal(BootstrapModel::next);
            }
        },
        State::RequirementsDiscard { .. } => {
            assert(progresses(run, event)) by {
                reveal(BootstrapModel::next);
            }
        },
        State::ShimDirProbe => {
            assert(progresses(run, event)) by {
                reveal(BootstrapModel::next);
            }
        },
        State::ShimDirCreation => {
            assert(progresses(run, event)) by {
                reveal(BootstrapModel::next);
            }
        },
        State::ToolProbe => {
            assert(strategies(run.context.os).len() <= 2 && shim_names(run.context.os).len()
                <= 3);
            assert(progresses(run, event)) by {
                reveal(BootstrapModel::next);
            }
        },
        State::Stamp => {
            assert(progresses(run, event)) by {
                reveal(BootstrapModel::next);
            }
        },
        State::Finished => {
            assert(progresses(run, event)) by {
                reveal(BootstrapModel::next);
            }
        },
    }
}

/// Whether the step that a run takes on `event` leaves it fewer steps to
/// take, and ends it exactly where no step is left.
spec fn progresses(run: BootstrapModel, event: EventModel) -> bool {
    &&& steps_left(run.next(event).run.state) < steps_left(run.state)
    &&& run.next(event).step.ends() <==> run.next(event).run.state == State::Finished
}

/// A run that is over stays over.
pub proof fn lemma_finished_stays_finished(run: BootstrapModel, event: EventModel)
    requires
        run.state == State::Finished,
    ensures
        run.next(event).run.state == State::Finished,
        run.next(event).step.ends(),
        !run.next(event).step.succeeds(),
{
    reveal(BootstrapModel::next);
}

/// A run begins with steps to take, unless it ends at once.
pub proof fn lemma_start_progresses(run: BootstrapModel)
    ensures
        run.start().step.ends() <==> run.start().run.state == State::Finished,
        run.goal == Goal::SelfVenv ==> run.start().step.next == NextModel::Perform(
            ActionModel::ProbeVenv,
        ) && run.start().run.state == State::VenvProbe,
{
}

/// A run for the private environment that ends with success leaves the
/// environment known to be current.
pub proof fn lemma_success_means_current(run: BootstrapModel, event: EventModel)
    requires
        run.goal == Goal::SelfVenv,
    ensures
        run.next(event).step.succeeds() ==> run.next(event).step.next == NextModel::Finish(
            Ok(ProvisionedModel::SelfVenv),
        ) && run.next(event).run.staleness.is_current(),
{
    reveal(BootstrapModel::next);
}

/// The environment comes to be known as current in two ways only: the
/// marker file was read and parses to the compiled-in version, or the run
/// has just written the marker. And once it is known to be current, it
/// stays so.
pub proof fn lemma_current_means_marker(run: BootstrapModel, event: EventModel)
    ensures
        run.staleness.is_current() ==> run.next(event).run.staleness.is_current(),
        !run.staleness.is_current() && run.next(event).run.staleness.is_current() ==> {
            ||| (run.state == State::Stamp && event == EventModel::Completed(true))
            ||| (run.state == State::MarkerRead && (event matches EventModel::ToolVersion(
                Some(content),
            ) && parsed_version(content) == Some(SELF_VERSION)))
        },
{
    reveal(BootstrapModel::next);
}

/// The marker that a run writes parses to the compiled-in version, and a
/// run waits for the marker to be written only after it has asked for
/// exactly that.
pub proof fn lemma_stamp_writes_self_version(run: BootstrapModel, event: EventModel)
    ensures
        run.next(event).step.next matches NextModel::Perform(
            ActionModel::StampToolVersion { content },
        ) ==> parsed_version(content) == Some(SELF_VERSION),
        run.next(event).run.state == State::Stamp <==> run.next(event).step.next
            is Perform && run.next(event).step.next->Perform_0 is StampToolVersion,
        run.next(event).run.state == State::Stamp ==> run.state is Shims || run.state
            == State::ToolProbe,
{
    reveal(BootstrapModel::next);
    lemma_written_version_parses(SELF_VERSION);
}

/// The marker is written last: once a run has asked for the marker to be
/// written, it ends with the answer, whatever the answer is. So a run that
/// fails earlier has not touched the marker.
pub proof fn lemma_marker_is_written_last(run: BootstrapModel, event: EventModel)
    requires
        run.state == State::Stamp,
    ensures
        run.next(event).step.ends(),
        run.next(event).step.succeeds() <==> event == EventModel::Completed(true),
{
    reveal(BootstrapModel::next);
}

/// An archive is unpacked only after its bytes were found to hash to the
/// declared digest: always for the helper, and for an interpreter
/// wherever the catalog declares a digest.
pub proof fn lemma_unpack_follows_checksum(run: BootstrapModel, event: EventModel)
    ensures
        run.next(event).step.next matches NextModel::Perform(
            ActionModel::UnpackHelper { archive, version, strip_components },
        ) ==> (run.context.helper matches Some(helper) && helper.version == version
            && strip_components == 1 && digest_matches(sha256(archive), helper.sha256)),
        run.next(event).step.next matches NextModel::Perform(
            ActionModel::UnpackInterpreter { archive, version, strip_components },
        ) ==> (run.entry matches Some(entry) && run.target == Some(version) && strip_components
            == 1 && (entry.sha256 matches Some(declared) ==> digest_matches(
            sha256(archive),
            declared,
        ))),
        run.next(event).step.next matches NextModel::Perform(action) && (
        action is UnpackHelper || action is UnpackInterpreter) ==> event is Transferred,
{
    reveal(BootstrapModel::next);
}

/// Nothing is written into the directory of a helper or of an interpreter
/// that is there: what is unpacked goes where a probe in the same run has
/// found nothing, and directories are created the same way. The only
/// thing that a run removes is the private environment, and only when it
/// is there and not current.
pub proof fn lemma_writes_follow_absence(run: BootstrapModel, event: EventModel)
    ensures
        run.next(event).step.next->Perform_0 is UnpackHelper && run.next(event).step.next
            is Perform ==> run.state == State::HelperTransfer,
        run.next(event).run.state == State::HelperTransfer ==> run.state == (State::HelperProbe {
            unpacked: false,
        }) && event == EventModel::Probed(false),
        run.next(event).step.next->Perform_0 is UnpackInterpreter && run.next(event).step.next
            is Perform ==> run.state == State::InterpreterTransfer,
        run.next(event).run.state == State::InterpreterTransfer ==> run.state
            == State::InterpreterDir && event == EventModel::Completed(true) && run.next(
            event,
        ).run.target == run.target,
        run.next(event).run.state == State::InterpreterDir ==> run.state is InterpreterProbe
            && event == EventModel::Probed(false) && run.next(event).run.target == run.target
            && run.next(event).step.next == NextModel::Perform(
            ActionModel::CreateInterpreterDir { version: run.target->0 },
        ),
        run.next(event).step.next->Perform_0 is CreateInterpreterDir && run.next(event).step.next
            is Perform ==> run.next(event).run.state == State::InterpreterDir,
        run.next(event).step.next == NextModel::Perform(ActionModel::RemoveVenv) ==> (
        !run.next(event).run.staleness.is_current() && ((run.state == State::VenvProbe && event
            == EventModel::Probed(true)) || run.state == State::MarkerRead)),
{
    reveal(BootstrapModel::next);
}

/// Where the platform calls for the inspection, the private environment
/// is created only on an interpreter that the inspection has just shown to
/// miss no shared library.
pub proof fn lemma_environment_follows_inspection(run: BootstrapModel, event: EventModel)
    requires
        run.context.os.inspects_libraries(),
    ensures
        run.next(event).run.state == State::VenvCreation ==> run.state == State::Inspection && (
        event matches EventModel::Inspected(Some(report)) && runs_here(report)),
        run.goal == Goal::SelfVenv && run.next(event).run.state == State::Inspection
            ==> run.next(event).step.next == NextModel::Perform(
            ActionModel::InspectLibraries { version: run.next(event).run.target->0 },
        ),
{
    reveal(BootstrapModel::next);
}

/// Only HTTPS URLs are fetched.
pub proof fn lemma_only_https_is_fetched(run: BootstrapModel, event: EventModel)
    ensures
        run.next(event).step.next matches NextModel::Perform(ActionModel::Download { request })
            ==> is_secure(request.url) && request.follow_redirects,
{
    reveal(BootstrapModel::next);
}

/// In quiet mode nothing is said but hard errors, and diagnostics are
/// given in verbose mode only.
pub proof fn lemma_quiet_is_quiet(run: BootstrapModel, event: EventModel, i: int)
    requires
        0 <= i < run.next(event).step.notices.len(),
    ensures
        run.output == CommandOutput::Quiet ==> run.next(event).step.notices[i].is_error(),
        run.output != CommandOutput::Verbose ==> !run.next(event).step.notices[i].is_diagnostic(),
{
    reveal(BootstrapModel::next);
}

/// The temporary file of the requirements is deleted on every path: once
/// it is written, whatever comes of the installation, the next thing that
/// the run asks for is its deletion.
pub proof fn lemma_requirements_are_discarded(run: BootstrapModel, event: EventModel)
    requires
        run.state == State::RequirementsInstall,
        event is Completed,
    ensures
        run.next(event).step.next == NextModel::Perform(ActionModel::DiscardRequirements),
{
    reveal(BootstrapModel::next);
}

/// A run for an environment that is known to be current ends with
/// success without asking for anything that changes the disk, and without
/// a word: it looks whether the directory is there, reads the marker file
/// if the process has not read it before, and that is all. So a second
/// run in a process that has provisioned the environment changes nothing
/// and gives what the first run gave.
pub proof fn lemma_current_environment_is_left_alone(
    run: BootstrapModel,
    content: Option<Seq<char>>,
)
    requires
        run.goal == Goal::SelfVenv,
        run.staleness.is_current(),
    ensures
        run.start().step.next == NextModel::Perform(ActionModel::ProbeVenv),
        run.start().step.notices.len() == 0,
        ({
            let looked = run.start().run.next(EventModel::Probed(true));
            let read = looked.run.next(EventModel::ToolVersion(content));
            &&& looked.step.notices.len() == 0
            &&& if run.staleness.verdict is Some {
                looked.step.next == NextModel::Finish(Ok(ProvisionedModel::SelfVenv))
            } else {
                &&& looked.step.next == NextModel::Perform(ActionModel::ReadToolVersion)
                &&& read.step.next == NextModel::Finish(Ok(ProvisionedModel::SelfVenv))
                &&& read.step.notices.len() == 0
            }
        }),
{
    reveal(BootstrapModel::next);
}

/// A process that has just started rebuilds an environment whose marker
/// file is gone, and one that is gone altogether: it does not end before
/// it has removed what is left and has begun to provision.
pub proof fn lemma_fresh_process_rebuilds(run: BootstrapModel)
    requires
        run.goal == Goal::SelfVenv,
        run.staleness == (Staleness { verdict: None, provisioned: false }),
        run.context.helper is Some,
    ensures
        ({
            let probing = run.start().run;
            let gone = probing.next(EventModel::Probed(false));
            let looked = probing.next(EventModel::Probed(true));
            let read = looked.run.next(EventModel::ToolVersion(None));
            let removed = read.run.next(EventModel::Completed(true));
            let helper = run.context.helper->0.version;
            &&& gone.step.next == NextModel::Perform(ActionModel::ProbeHelper { version: helper })
            &&& looked.step.next == NextModel::Perform(ActionModel::ReadToolVersion)
            &&& read.step.next == NextModel::Perform(ActionModel::RemoveVenv)
            &&& removed.step.next == NextModel::Perform(
                ActionModel::ProbeHelper { version: helper },
            )
            &&& !gone.run.staleness.is_current()
            &&& !removed.run.staleness.is_current()
        }),
{
    reveal(BootstrapModel::next);
}

/// A toolchain that is asked for and is outside the supported window is
/// refused before anything is downloaded for it, and before the
/// environment is touched any further.
pub proof fn lemma_unsupported_toolchain_is_refused(run: BootstrapModel)
    requires
        run.request matches Some(request) && (latest(
            run.context.catalog,
            request,
            run.context.host,
        ) matches Some(version) && !version.is_self_compatible()),
    ensures
        run.select().step.next == NextModel::Finish(
            Err(
                FailureModel {
                    stage: Stage::Interpreter,
                    kind: ErrorModel::UnsupportedToolchain {
                        version: latest(run.context.catalog, run.request->0, run.context.host)->0,
                    },
                    url: None,
                },
            ),
        ),
        run.state is HelperProbe && run.context.helper is Some ==> run.next(
            EventModel::Probed(true),
        ) == run.select(),
{
    reveal(BootstrapModel::next);
}

impl BootstrapModel {
    /// The run after the driver has answered with `events`, one after the
    /// other.
    pub open spec fn after(self, events: Seq<EventModel>) -> BootstrapModel
        decreases events.len(),
    {
        if events.len() == 0 {
            self
        } else {
            self.after(events.drop_last()).next(events.last()).run
        }
    }

    /// The step that the run takes on the last of `events`, after it has
    /// taken the others.
    pub open spec fn step_on(self, events: Seq<EventModel>) -> StepModel
        recommends
            events.len() > 0,
    {
        self.after(events.drop_last()).next(events.last()).step
    }

    /// Whether the `k`-th of `events` tells the run that the marker file
    /// holds the compiled-in version: it is the content of the marker,
    /// which parses to that version, or it is the success of writing the
    /// marker, which the run had asked for with that version.
    pub open spec fn marker_is_witnessed(self, events: Seq<EventModel>, k: int) -> bool {
        let at = self.after(events.take(k));
        &&& 0 <= k < events.len()
        &&& {
            ||| (at.state == State::MarkerRead && (events[k] matches EventModel::ToolVersion(
                Some(content),
            ) && parsed_version(content) == Some(SELF_VERSION)))
            ||| (at.state == State::Stamp && events[k] == EventModel::Completed(true) && k > 0 && (
            self.step_on(events.take(k)).next matches NextModel::Perform(
                ActionModel::StampToolVersion { content },
            ) && parsed_version(content) == Some(SELF_VERSION)))
        }
    }
}

/// A step changes neither what the run is for nor what it was given to
/// work with.
pub proof fn lemma_step_keeps_purpose(run: BootstrapModel, event: EventModel)
    ensures
        run.next(event).run.goal == run.goal,
        run.next(event).run.output == run.output,
        run.next(event).run.request == run.request,
        run.next(event).run.context == run.context,
{
    reveal(BootstrapModel::next);
}

/// What a run is for does not change, nor what it was given to work with.
pub proof fn lemma_run_keeps_its_purpose(begun: BootstrapModel, events: Seq<EventModel>)
    ensures
        begun.after(events).goal == begun.goal,
        begun.after(events).output == begun.output,
        begun.after(events).request == begun.request,
        begun.after(events).context == begun.context,
    decreases events.len(),
{
    if events.len() > 0 {
        lemma_run_keeps_its_purpose(begun, events.drop_last());
        lemma_step_keeps_purpose(begun.after(events.drop_last()), events.last());
    }
}

/// Every run ends: however the driver answers, no run takes more steps
/// than it had left when it began.
pub proof fn lemma_every_run_ends(begun: BootstrapModel, events: Seq<EventModel>)
    ensures
        steps_left(begun.after(events).state) + events.len() <= steps_left(begun.state)
            || begun.after(events).state == State::Finished,
        events.len() >= 51 ==> begun.after(events).state == State::Finished,
    decreases events.len(),
{
    if let State::Shims(install) = begun.state {
        assert(strategies(install.os).len() <= 2 && shim_names(install.os).len() <= 3);
    }
    assert(steps_left(begun.state) <= 51);
    if events.len() > 0 {
        let before = begun.after(events.drop_last());
        lemma_every_run_ends(begun, events.drop_last());
        if before.state != State::Finished {
            lemma_every_step_progresses(before, events.last());
        } else {
            lemma_finished_stays_finished(before, events.last());
        }
    }
}

/// Once the environment is known to be current, something has told the
/// run so, unless the process knew it before the run began.
pub proof fn lemma_current_was_witnessed(begun: BootstrapModel, events: Seq<EventModel>)
    requires
        begun.state == State::VenvProbe,
        !begun.staleness.is_current(),
        begun.after(events).staleness.is_current(),
    ensures
        exists|k: int| begun.marker_is_witnessed(events, k),
    decreases events.len(),
{
    if events.len() > 0 {
        let earlier = events.drop_last();
        let before = begun.after(earlier);
        if before.staleness.is_current() {
            lemma_current_was_witnessed(begun, earlier);
            let k = choose|k: int| begun.marker_is_witnessed(earlier, k);
            assert(earlier.take(k) =~= events.take(k));
            assert(begun.marker_is_witnessed(events, k));
        } else {
            let k = events.len() - 1;
            assert(events.take(k) =~= earlier);
            lemma_current_means_marker(before, events.last());
            if before.state == State::Stamp {
                assert(earlier.len() > 0);
                lemma_stamp_writes_self_version(
                    begun.after(earlier.drop_last()),
                    earlier.last(),
                );
            }
            assert(begun.marker_is_witnessed(events, k));
        }
    }
}

/// Of every run for the private environment that ends with success: the
/// marker file holds the compiled-in version, as far as the run can tell.
/// The process knew so before, or the run has read the marker and found
/// that version in it, or the run has written the marker with that
/// version, and the writing succeeded.
pub proof fn lemma_successful_run_leaves_marker(begun: BootstrapModel, events: Seq<EventModel>)
    requires
        begun.goal == Goal::SelfVenv,
        begun.state == State::VenvProbe,
        events.len() > 0,
        begun.step_on(events).succeeds(),
    ensures
        begun.after(events).staleness.is_current(),
        begun.staleness.is_current() || exists|k: int| begun.marker_is_witnessed(events, k),
{
    lemma_run_keeps_its_purpose(begun, events.drop_last());
    lemma_success_means_current(begun.after(events.drop_last()), events.last());
    if !begun.staleness.is_current() {
        lemma_current_was_witnessed(begun, events);
    }
}

/// Of every run: when it asks for an interpreter's archive to be unpacked,
/// the three answers before were that the interpreter is not installed,
/// that its directory was created, and the transfer of the archive. The
/// same holds of the helper, with two answers: that it is not installed,
/// and the transfer.
pub proof fn lemma_unpack_follows_probe(begun: BootstrapModel, events: Seq<EventModel>)
    requires
        begun.state == State::VenvProbe || begun.state is InterpreterProbe,
        events.len() > 0,
    ensures
        begun.step_on(events).next matches NextModel::Perform(
            ActionModel::UnpackInterpreter { version, .. },
        ) ==> events.len() >= 3 && ({
            let n = events.len() - 3;
            let probing = begun.after(events.take(n));
            &&& probing.state is InterpreterProbe
            &&& probing.target == Some(version)
            &&& events[n] == EventModel::Probed(false)
            &&& events[n + 1] == EventModel::Completed(true)
            &&& events[n + 2] is Transferred
        }),
        begun.step_on(events).next matches NextModel::Perform(
            ActionModel::UnpackHelper { version, .. },
        ) ==> events.len() >= 2 && ({
            let n = events.len() - 2;
            let probing = begun.after(events.take(n));
            &&& probing.state == State::HelperProbe { unpacked: false }
            &&& probing.context.helper matches Some(helper) && helper.version == version
            &&& events[n] == EventModel::Probed(false)
            &&& events[n + 1] is Transferred
        }),
{
    let last = events.len() - 1;
    let e1 = events.take(last);
    assert(e1 =~= events.drop_last());
    let at1 = begun.after(e1);
    lemma_writes_follow_absence(at1, events[last]);
    lemma_unpack_follows_checksum(at1, events[last]);
    if at1.state == State::InterpreterTransfer {
        assert(e1.len() > 0);
        let e2 = events.take(last - 1);
        assert(e2 =~= e1.drop_last());
        let at2 = begun.after(e2);
        assert(e1.last() == events[last - 1]);
        lemma_writes_follow_absence(at2, events[last - 1]);
        assert(e2.len() > 0);
        let e3 = events.take(last - 2);
        assert(e3 =~= e2.drop_last());
        let at3 = begun.after(e3);
        assert(e2.last() == events[last - 2]);
        lemma_writes_follow_absence(at3, events[last - 2]);
    }
    if at1.state == State::HelperTransfer {
        assert(e1.len() > 0);
        let e2 = events.take(last - 1);
        assert(e2 =~= e1.drop_last());
        let at2 = begun.after(e2);
        assert(e1.last() == events[last - 1]);
        lemma_writes_follow_absence(at2, events[last - 1]);
        lemma_run_keeps_its_purpose(begun, e2);
        lemma_run_keeps_its_purpose(begun, e1);
    }
}

/// Whether a run is past the judging of the environment that is there: it
/// provisions, or is over.
pub open spec fn is_provisioning(state: State) -> bool {
    state != State::VenvProbe && state != State::MarkerRead
}

/// The environment is built in one order: a run waits for the marker of
/// the interpreter only after the helper has created the environment, for
/// the upgrade of the installer only after that marker was written, and so
/// on to the shims, which come only after the requirements were installed
/// and their temporary file was deleted, and to the marker file, which
/// comes only after the shims.
pub proof fn lemma_states_follow_each_other(run: BootstrapModel, event: EventModel)
    ensures
        follows(run.state, event, run.next(event).run.state),
{
    // one state at a time, so that each step is unfolded where it is known
    match run.state {
        State::VenvProbe => {
            assert(follows(run.state, event, run.next(event).run.state)) by {
                reveal(BootstrapModel::next);
            }
        },
        State::MarkerRead => {
            assert(follows(run.state, event, run.next(event).run.state)) by {
                reveal(BootstrapModel::next);
            }
        },
        State::VenvRemoval => {
            assert(follows(run.state, event, run.next(event).run.state)) by {
                reveal(BootstrapModel::next);
            }
        },
        State::HelperProbe { .. } => {
            assert(follows(run.state, event, run.next(event).run.state)) by {
                reveal(BootstrapModel::next);
            }
        },
        State::HelperTransfer => {
            assert(follows(run.state, event, run.next(event).run.state)) by {
                reveal(BootstrapModel::next);
            }
        },
        State::HelperUnpack => {
            assert(follows(run.state, event, run.next(event).run.state)) by {
                reveal(BootstrapModel::next);
            }
        },
        State::InstalledListing => {
            assert(follows(run.state, event, run.next(event).run.state)) by {
                reveal(BootstrapModel::next);
            }
        },
        State::InterpreterProbe { .. } => {
            assert(follows(run.state, event, run.next(event).run.state)) by {
                reveal(BootstrapModel::next);
            }
        },
        State::InterpreterDir => {
            assert(follows(run.state, event, run.next(event).run.state)) by {
                reveal(BootstrapModel::next);
            }
        },
        State::InterpreterTransfer => {
            assert(follows(run.state, event, run.next(event).run.state)) by {
                reveal(BootstrapModel::next);
            }
        },
        State::InterpreterUnpack => {
            assert(follows(run.state, event, run.next(event).run.state)) by {
                reveal(BootstrapModel::next);
            }
        },
        State::Inspection => {
            assert(follows(run.state, event, run.next(event).run.state)) by {
                reveal(BootstrapModel::next);
            }
        },
        State::VenvCreation => {
            assert(follows(run.state, event, run.next(event).run.state)) by {
                reveal(BootstrapModel::next);
            }
        },
        State::VenvMarker => {
            assert(follows(run.state, event, run.next(event).run.state)) by {
                reveal(BootstrapModel::next);
            }
        },
        State::InstallerUpgrade => {
            assert(follows(run.state, event, run.next(event).run.state)) by {
                reveal(BootstrapModel::next);
            }
        },
        State::RequirementsFile => {
            assert(follows(run.state, event, run.next(event).run.state)) by {
                reveal(BootstrapModel::next);
            }
        },
        State::RequirementsInstall => {
            assert(follows(run.state, event, run.next(event).run.state)) by {
                reveal(BootstrapModel::next);
            }
        },
        State::RequirementsDiscard { .. } => {
            assert(follows(run.state, event, run.next(event).run.state)) by {
                reveal(BootstrapModel::next);
            }
        },
        State::ShimDirProbe => {
            assert(follows(run.state, event, run.next(event).run.state)) by {
                reveal(BootstrapModel::next);
            }
        },
        State::ShimDirCreation => {
            assert(follows(run.state, event, run.next(event).run.state)) by {
                reveal(BootstrapModel::next);
            }
        },
        State::ToolProbe => {
            assert(follows(run.state, event, run.next(event).run.state)) by {
                reveal(BootstrapModel::next);
            }
        },
        State::Shims(_) => {
            assert(follows(run.state, event, run.next(event).run.state)) by {
                reveal(BootstrapModel::next);
            }
        },
        State::Stamp => {
            assert(follows(run.state, event, run.next(event).run.state)) by {
                reveal(BootstrapModel::next);
            }
        },
        State::Finished => {
            assert(follows(run.state, event, run.next(event).run.state)) by {
                reveal(BootstrapModel::next);
            }
        },
    }
}

/// Whether a run that waits in `state` may wait in `next` after `event`,
/// as far as the building of the environment goes.
pub open spec fn follows(state: State, event: EventModel, next: State) -> bool {
    let done = event == EventModel::Completed(true);
    &&& next != State::Finished ==> state != State::Finished
    &&& next == State::VenvMarker ==> state == State::VenvCreation && done
    &&& next == State::InstallerUpgrade ==> state == State::VenvMarker && done
    &&& next == State::RequirementsFile ==> state == State::InstallerUpgrade && done
    &&& next == State::RequirementsInstall ==> state == State::RequirementsFile && done
    &&& next == (State::RequirementsDiscard { installed: true }) ==> state
        == State::RequirementsInstall && done
    &&& next == (State::RequirementsDiscard { installed: false }) ==> state
        == State::RequirementsInstall
    &&& next == State::ShimDirProbe ==> state == (State::RequirementsDiscard { installed: true })
    &&& next == State::ShimDirCreation ==> state == State::ShimDirProbe
    &&& next == State::ToolProbe ==> state == State::ShimDirProbe || state
        == State::ShimDirCreation
    &&& next is Shims ==> state == State::ToolProbe || state is Shims
    &&& next == State::Stamp ==> state == State::ToolProbe || state is Shims
}

/// The same in terms of the steps that are left: a run that has fewer
/// steps left than one of the steps that build the environment had as
/// few before, or has just passed that step with success.
proof fn lemma_environment_is_built_in_order(run: BootstrapModel, event: EventModel)
    ensures
        ({
            let next = run.next(event).run.state;
            let done = event == EventModel::Completed(true);
            &&& next != State::Finished ==> run.state != State::Finished
            &&& next != State::Finished && steps_left(next) <= 37 ==> steps_left(run.state) <= 37
                || (run.state == State::VenvCreation && done)
            &&& next != State::Finished && steps_left(next) <= 36 ==> steps_left(run.state) <= 36
                || (run.state == State::VenvMarker && done)
            &&& next != State::Finished && steps_left(next) <= 35 ==> steps_left(run.state) <= 35
                || (run.state == State::InstallerUpgrade && done)
            &&& next != State::Finished && steps_left(next) <= 34 ==> steps_left(run.state) <= 34
                || (run.state == State::RequirementsFile && done)
            &&& next != State::Finished && steps_left(next) <= 32 ==> steps_left(run.state) <= 32
                || run.state == (State::RequirementsDiscard { installed: true })
            &&& next == (State::RequirementsDiscard { installed: true }) ==> run.state
                == State::RequirementsInstall && done
        }),
{
    lemma_states_follow_each_other(run, event);
    if let State::Shims(install) = run.state {
        assert(strategies(install.os).len() <= 2 && shim_names(install.os).len() <= 3);
    }
    if let State::Shims(install) = run.next(event).run.state {
        assert(strategies(install.os).len() <= 2 && shim_names(install.os).len() <= 3);
    }
}

/// What the helper is asked for when the environment is built: the
/// creation of the environment on the interpreter at hand, the upgrade of
/// the installer to its pin, and the installation of the requirements from
/// the temporary file, each in the output mode of the run and with the
/// proxy passed on.
pub proof fn lemma_helper_is_asked(run: BootstrapModel, event: EventModel)
    ensures
        ({
            let to = run.next(event);
            let output = run.output;
            let proxy = run.context.proxy;
            &&& to.run.state == State::VenvCreation ==> (run.context.helper matches Some(helper)
                && to.run.target matches Some(version) && to.step.next == NextModel::Perform(
                ActionModel::RunHelper {
                    helper: helper.version,
                    command: venv_command(output, proxy, version),
                },
            ))
            &&& to.run.state == State::InstallerUpgrade ==> (run.context.helper matches Some(
                helper,
            ) && to.step.next == NextModel::Perform(
                ActionModel::RunHelper {
                    helper: helper.version,
                    command: upgrade_command(output, proxy, run.context.installer),
                },
            ))
            &&& to.run.state == State::RequirementsInstall ==> (run.context.helper matches Some(
                helper,
            ) && to.step.next == NextModel::Perform(
                ActionModel::RunHelper {
                    helper: helper.version,
                    command: requirements_command(output, proxy),
                },
            ))
        }),
{
    reveal(BootstrapModel::next);
}

impl BootstrapModel {
    /// Whether the run, on its way through `events`, has waited in `state`
    /// and was answered that what it had asked for was done.
    pub open spec fn has_passed(self, events: Seq<EventModel>, state: State) -> bool {
        exists|k: int|
            0 <= k < events.len() && self.after(#[trigger] events.take(k)).state == state
                && events[k] == EventModel::Completed(true)
    }
}

proof fn lemma_passed_goes_on(
    start: BootstrapModel,
    events: Seq<EventModel>,
    state: State,
)
    requires
        events.len() > 0,
        start.has_passed(events.drop_last(), state) || (start.after(events.drop_last()).state
            == state && events.last() == EventModel::Completed(true)),
    ensures
        start.has_passed(events, state),
{
    let earlier = events.drop_last();
    if start.has_passed(earlier, state) {
        let k = choose|k: int|
            0 <= k < earlier.len() && start.after(#[trigger] earlier.take(k)).state == state
                && earlier[k] == EventModel::Completed(true);
        assert(earlier.take(k) =~= events.take(k));
        assert(start.after(events.take(k)).state == state);
    } else {
        let k = events.len() - 1;
        assert(events.take(k) =~= earlier);
        assert(start.after(events.take(k)).state == state);
    }
}

/// A run that has come further than one of the steps that build the
/// environment has passed that step with success.
proof fn lemma_late_states_were_passed(
    start: BootstrapModel,
    events: Seq<EventModel>,
    bound: nat,
    gate: State,
)
    requires
        (bound == 37 && gate == State::VenvCreation) || (bound == 36 && gate
            == State::VenvMarker) || (bound == 35 && gate == State::InstallerUpgrade) || (bound
            == 34 && gate == State::RequirementsFile) || (bound == 32 && gate
            == State::RequirementsDiscard { installed: true }),
        steps_left(start.state) > bound,
        bound == 32 ==> steps_left(start.state) > 33,
        start.after(events).state != State::Finished,
        steps_left(start.after(events).state) <= bound,
    ensures
        gate != (State::RequirementsDiscard { installed: true }) ==> start.has_passed(
            events,
            gate,
        ),
        gate == (State::RequirementsDiscard { installed: true }) ==> start.has_passed(
            events,
            State::RequirementsInstall,
        ),
    decreases events.len(),
{
    if events.len() > 0 {
        let earlier = events.drop_last();
        let before = start.after(earlier);
        lemma_environment_is_built_in_order(before, events.last());
        if steps_left(before.state) <= bound {
            lemma_late_states_were_passed(start, earlier, bound, gate);
            if gate == (State::RequirementsDiscard { installed: true }) {
                lemma_passed_goes_on(start, events, State::RequirementsInstall);
            } else {
                lemma_passed_goes_on(start, events, gate);
            }
        } else if gate == (State::RequirementsDiscard { installed: true }) {
            assert(before.state == gate);
            assert(earlier.len() > 0);
            lemma_environment_is_built_in_order(start.after(earlier.drop_last()), earlier.last());
            lemma_passed_goes_on(start, earlier, State::RequirementsInstall);
            lemma_passed_goes_on(start, events, State::RequirementsInstall);
        } else {
            lemma_passed_goes_on(start, events, gate);
        }
    }
}

/// Of every run that provisions the private environment and ends with
/// success: the helper has created the environment, the marker that names
/// the interpreter was written, the installer was upgraded, the
/// requirements were written and installed, the marker file was written
/// last, and the process remembers that it has provisioned.
pub proof fn lemma_successful_provisioning_has_built(
    start: BootstrapModel,
    events: Seq<EventModel>,
)
    requires
        start.goal == Goal::SelfVenv,
        is_provisioning(start.state),
        steps_left(start.state) > 37 || start.state == State::Finished,
        events.len() > 0,
        start.step_on(events).succeeds(),
    ensures
        start.has_passed(events, State::VenvCreation),
        start.has_passed(events, State::VenvMarker),
        start.has_passed(events, State::InstallerUpgrade),
        start.has_passed(events, State::RequirementsFile),
        start.has_passed(events, State::RequirementsInstall),
        start.has_passed(events, State::Stamp),
        start.after(events).staleness.provisioned,
{
    let earlier = events.drop_last();
    let before = start.after(earlier);
    lemma_run_keeps_its_purpose(start, earlier);
    lemma_every_run_ends(start, earlier);
    if let State::Shims(install) = start.state {
        assert(strategies(install.os).len() <= 2 && shim_names(install.os).len() <= 3);
    }
    if before.state == State::Finished {
        lemma_finished_stays_finished(before, events.last());
    }
    lemma_success_comes_from_judging_or_stamping(before, events.last());
    assert(before.state == State::Stamp);
    lemma_late_states_were_passed(start, earlier, 37, State::VenvCreation);
    lemma_late_states_were_passed(start, earlier, 36, State::VenvMarker);
    lemma_late_states_were_passed(start, earlier, 35, State::InstallerUpgrade);
    lemma_late_states_were_passed(start, earlier, 34, State::RequirementsFile);
    lemma_late_states_were_passed(start, earlier, 32, State::RequirementsDiscard { installed: true });
    lemma_passed_goes_on(start, events, State::VenvCreation);
    lemma_passed_goes_on(start, events, State::VenvMarker);
    lemma_passed_goes_on(start, events, State::InstallerUpgrade);
    lemma_passed_goes_on(start, events, State::RequirementsFile);
    lemma_passed_goes_on(start, events, State::RequirementsInstall);
    lemma_passed_goes_on(start, events, State::Stamp);
}

/// A run for the private environment ends with success in two places
/// only: where it judges the environment that is there to be current, and
/// where the marker file was written.
pub proof fn lemma_success_comes_from_judging_or_stamping(run: BootstrapModel, event: EventModel)
    requires
        run.goal == Goal::SelfVenv,
        run.next(event).step.succeeds(),
    ensures
        run.state == State::VenvProbe || run.state == State::MarkerRead || (run.state
            == State::Stamp && event == EventModel::Completed(true) && run.next(
            event,
        ).run.staleness.provisioned),
{
    reveal(BootstrapModel::next);
}

/// A process that has just started and finds an environment without a
/// current marker file removes it, and is then where it is when it finds
/// no environment at all: about to provision, and not before.
pub proof fn lemma_refresh_begins_like_a_first_run(
    begun: BootstrapModel,
    content: Option<Seq<char>>,
)
    requires
        begun.goal == Goal::SelfVenv,
        begun.state == State::VenvProbe,
        begun.staleness == (Staleness { verdict: None, provisioned: false }),
        !marker_is_current(content),
    ensures
        ({
            let gone = begun.next(EventModel::Probed(false));
            let read = begun.next(EventModel::Probed(true)).run.next(
                EventModel::ToolVersion(content),
            );
            let removed = read.run.next(EventModel::Completed(true));
            &&& read.step.next == NextModel::Perform(ActionModel::RemoveVenv)
            &&& removed.step == gone.step
            &&& removed.run.state == gone.run.state
            &&& gone.run.state == (State::HelperProbe { unpacked: false }) || gone.run.state
                == State::Finished
            &&& gone.run.goal == Goal::SelfVenv
            &&& removed.run.goal == Goal::SelfVenv
        }),
{
    reveal(BootstrapModel::next);
}

/// A process that has just started and finds the environment without a
/// current marker file, because the file is gone or holds another
/// version, removes the environment and then begins as it does where the
/// environment is gone altogether. Either way, where the run ends with
/// success, the environment was built again by the helper, and the marker
/// file was written last.
pub proof fn lemma_restart_rebuilds(
    begun: BootstrapModel,
    content: Option<Seq<char>>,
    events: Seq<EventModel>,
)
    requires
        begun.goal == Goal::SelfVenv,
        begun.state == State::VenvProbe,
        begun.staleness == (Staleness { verdict: None, provisioned: false }),
        !marker_is_current(content),
        events.len() > 0,
    ensures
        ({
            let gone = begun.next(EventModel::Probed(false));
            let read = begun.next(EventModel::Probed(true)).run.next(
                EventModel::ToolVersion(content),
            );
            let removed = read.run.next(EventModel::Completed(true));
            &&& read.step.next == NextModel::Perform(ActionModel::RemoveVenv)
            &&& removed.step == gone.step
            &&& removed.run.state == gone.run.state
            &&& gone.run.step_on(events).succeeds() ==> {
                &&& gone.run.has_passed(events, State::VenvCreation)
                &&& gone.run.has_passed(events, State::InstallerUpgrade)
                &&& gone.run.has_passed(events, State::RequirementsInstall)
                &&& gone.run.has_passed(events, State::Stamp)
                &&& gone.run.after(events).staleness.provisioned
            }
            &&& removed.run.step_on(events).succeeds() ==> {
                &&& removed.run.has_passed(events, State::VenvCreation)
                &&& removed.run.has_passed(events, State::InstallerUpgrade)
                &&& removed.run.has_passed(events, State::RequirementsInstall)
                &&& removed.run.has_passed(events, State::Stamp)
                &&& removed.run.after(events).staleness.provisioned
            }
        }),
{
    let gone = begun.next(EventModel::Probed(false));
    let read = begun.next(EventModel::Probed(true)).run.next(EventModel::ToolVersion(content));
    let removed = read.run.next(EventModel::Completed(true));
    lemma_refresh_begins_like_a_first_run(begun, content);
    if gone.run.step_on(events).succeeds() {
        lemma_successful_provisioning_has_built(gone.run, events);
    }
    if removed.run.step_on(events).succeeds() {
        lemma_successful_provisioning_has_built(removed.run, events);
    }
}

} // verus!
