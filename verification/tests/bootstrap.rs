use rye_bootstrap::bootstrap::{
    ensure_self_venv, ensure_self_venv_with_toolchain, fetch, Bootstrap, Context, State,
};
use rye_bootstrap::catalog::CatalogEntry;
use rye_bootstrap::download::TransferOutcome;
use rye_bootstrap::error::{ErrorKind, HelperStep, IoOp};
use rye_bootstrap::helper::{Arg, EnvValue, HelperDownload, SELF_REQUIREMENTS};
use rye_bootstrap::marker::{parse_tool_version, Staleness, SELF_VERSION};
use rye_bootstrap::output::CommandOutput;
use rye_bootstrap::platform::OsFamily;
use rye_bootstrap::shims::{LinkStrategy, ShimTarget};
use rye_bootstrap::step::{Action, Event, Failure, Next, Notice, Provisioned, Stage, Step};
use rye_bootstrap::version::{Host, PythonVersion, PythonVersionRequest};

/// SHA-256 of the bytes `hello world`.
const HELLO_DIGEST: &str = "b94d27b9934d3e08a52e52d7da7dabfac484efe37a5380ee9088f7ace2efcde9";

const HELPER_URL: &str = "https://example.com/uv-0.1.9.tar.gz";

fn archive() -> Vec<u8> {
    b"hello world".to_vec()
}

fn version(arch: &str, os: &str, minor: u8, patch: u8) -> PythonVersion {
    PythonVersion {
        name: "cpython".to_string(),
        arch: arch.to_string(),
        os: os.to_string(),
        major: 3,
        minor,
        patch,
        suffix: None,
    }
}

fn url_of(v: &PythonVersion) -> String {
    format!("https://example.com/{}-{}-{}-{}.{}.{}.tar.gz", v.name, v.arch, v.os, v.major, v.minor, v.patch)
}

fn entry(arch: &str, os: &str, minor: u8, patch: u8) -> CatalogEntry {
    let v = version(arch, os, minor, patch);
    let url = url_of(&v);
    CatalogEntry { version: v, url, sha256: Some(HELLO_DIGEST.to_string()) }
}

fn context_for(os: OsFamily, arch: &str, os_name: &str) -> Context {
    Context {
        os,
        host: Host { arch: arch.to_string(), os: os_name.to_string() },
        proxy: None,
        installer: "pip==23.3.2".to_string(),
        helper: Some(HelperDownload {
            version: "0.1.9".to_string(),
            url: HELPER_URL.to_string(),
            sha256: HELLO_DIGEST.to_uppercase(),
        }),
        catalog: vec![
            entry(arch, os_name, 13, 0),
            entry(arch, os_name, 12, 1),
            entry(arch, os_name, 12, 0),
            entry("aarch64", "macos", 12, 1),
            entry(arch, os_name, 11, 7),
            entry(arch, os_name, 8, 18),
        ],
    }
}

fn linux() -> Context {
    context_for(OsFamily::Linux, "x86_64", "linux")
}

/// The disk and the network as the driver of a run sees them.
struct World {
    venv: bool,
    marker: Option<String>,
    venv_marker: Option<PythonVersion>,
    helper: bool,
    installed: Vec<PythonVersion>,
    created_dirs: Vec<PythonVersion>,
    shim_dir: bool,
    tool_installed: bool,
    shims: Vec<(String, LinkStrategy, ShimTarget)>,
    requirements_file: Option<String>,
    inspection: Option<String>,
    status: u32,
    body: Vec<u8>,
    transport_fails: bool,
    failing_links: Vec<LinkStrategy>,
    failing_helper_runs: Vec<String>,
    unpack_fails: bool,
    listing_fails: bool,
    log: Vec<String>,
    printed: Vec<String>,
    commands: Vec<(Vec<String>, Vec<(String, String)>)>,
}

impl World {
    fn empty() -> World {
        World {
            venv: false,
            marker: None,
            venv_marker: None,
            helper: false,
            installed: vec![],
            created_dirs: vec![],
            shim_dir: false,
            tool_installed: false,
            shims: vec![],
            requirements_file: None,
            inspection: Some("\tlinux-vdso.so.1 (0x00007ffd)\n\tlibc.so.6 => /lib/libc.so.6 (0x00007f00)\n".to_string()),
            status: 200,
            body: archive(),
            transport_fails: false,
            failing_links: vec![],
            failing_helper_runs: vec![],
            unpack_fails: false,
            listing_fails: false,
            log: vec![],
            printed: vec![],
            commands: vec![],
        }
    }

    fn writes(&self) -> Vec<&String> {
        self.log
            .iter()
            .filter(|name| {
                !(name.starts_with("Probe")
                    || name.starts_with("Read")
                    || name.starts_with("List")
                    || name.starts_with("Inspect"))
            })
            .collect()
    }

    fn render_arg(arg: &Arg) -> String {
        match arg {
            Arg::Text(text) => text.clone(),
            Arg::InterpreterBin(v) => format!("<py {}.{}.{}>", v.major, v.minor, v.patch),
            Arg::VenvDir => "<self>".to_string(),
            Arg::RequirementsFile => "<requirements>".to_string(),
        }
    }

    fn perform(&mut self, action: Action) -> Event {
        match action {
            Action::ProbeVenv => {
                self.log.push("ProbeVenv".into());
                Event::Probed(self.venv)
            }
            Action::ReadToolVersion => {
                self.log.push("ReadToolVersion".into());
                Event::ToolVersion(self.marker.clone())
            }
            Action::RemoveVenv => {
                self.log.push("RemoveVenv".into());
                self.venv = false;
                self.marker = None;
                self.venv_marker = None;
                Event::Completed(true)
            }
            Action::ProbeHelper { version } => {
                assert_eq!(version, "0.1.9");
                self.log.push("ProbeHelper".into());
                Event::Probed(self.helper)
            }
            Action::ProbeInterpreter { version } => {
                self.log.push("ProbeInterpreter".into());
                Event::Probed(self.installed.contains(&version))
            }
            Action::CreateInterpreterDir { version } => {
                assert!(!self.installed.contains(&version));
                self.log.push("CreateInterpreterDir".into());
                self.created_dirs.push(version);
                Event::Completed(true)
            }
            Action::Download { request } => {
                assert!(request.url.starts_with("https://"));
                assert!(request.follow_redirects);
                self.log.push(format!("Download {}", request.url));
                if self.transport_fails {
                    Event::Transferred(TransferOutcome::Failed)
                } else {
                    Event::Transferred(TransferOutcome::Completed {
                        status: self.status,
                        body: self.body.clone(),
                    })
                }
            }
            Action::UnpackHelper { archive: bytes, version, strip_components } => {
                assert!(!self.helper);
                assert_eq!(bytes, archive());
                assert_eq!(version, "0.1.9");
                assert_eq!(strip_components, 1);
                self.log.push("UnpackHelper".into());
                if self.unpack_fails {
                    Event::Completed(false)
                } else {
                    self.helper = true;
                    Event::Completed(true)
                }
            }
            Action::UnpackInterpreter { archive: bytes, version, strip_components } => {
                assert!(!self.installed.contains(&version));
                assert!(self.created_dirs.contains(&version));
                assert_eq!(bytes, archive());
                assert_eq!(strip_components, 1);
                self.log.push("UnpackInterpreter".into());
                if self.unpack_fails {
                    Event::Completed(false)
                } else {
                    self.installed.push(version);
                    Event::Completed(true)
                }
            }
            Action::ListInstalled => {
                self.log.push("ListInstalled".into());
                Event::Installed(if self.listing_fails { None } else { Some(self.installed.clone()) })
            }
            Action::InspectLibraries { version } => {
                assert!(self.installed.contains(&version));
                self.log.push("InspectLibraries".into());
                Event::Inspected(self.inspection.clone())
            }
            Action::RunHelper { helper, command } => {
                assert_eq!(helper, "0.1.9");
                let args: Vec<String> = command.args.iter().map(World::render_arg).collect();
                let env: Vec<(String, String)> = command
                    .env
                    .iter()
                    .map(|var| {
                        let value = match &var.value {
                            EnvValue::Text(text) => text.clone(),
                            EnvValue::VenvDir => "<self>".to_string(),
                        };
                        (var.name.clone(), value)
                    })
                    .collect();
                let line = args.join(" ");
                self.log.push(format!("RunHelper {}", line));
                let fails = self.failing_helper_runs.iter().any(|part| line.contains(part.as_str()));
                if !fails && args.contains(&"venv".to_string()) {
                    self.venv = true;
                }
                self.commands.push((args, env));
                Event::Completed(!fails)
            }
            Action::WriteVenvMarker { version } => {
                self.log.push("WriteVenvMarker".into());
                self.venv_marker = Some(version);
                Event::Completed(true)
            }
            Action::WriteRequirements { content } => {
                self.log.push("WriteRequirements".into());
                self.requirements_file = Some(content);
                Event::Completed(true)
            }
            Action::DiscardRequirements => {
                self.log.push("DiscardRequirements".into());
                self.requirements_file = None;
                Event::Completed(true)
            }
            Action::ProbeShimDir => {
                self.log.push("ProbeShimDir".into());
                Event::Probed(self.shim_dir)
            }
            Action::CreateShimDir => {
                self.log.push("CreateShimDir".into());
                self.shim_dir = true;
                Event::Completed(true)
            }
            Action::ProbeInstalledTool => {
                self.log.push("ProbeInstalledTool".into());
                Event::Probed(self.tool_installed)
            }
            Action::RemoveShim { name } => {
                self.log.push(format!("RemoveShim {}", name));
                let before = self.shims.len();
                self.shims.retain(|shim| shim.0 != name);
                Event::Completed(self.shims.len() < before)
            }
            Action::LinkShim { name, strategy, target } => {
                self.log.push(format!("LinkShim {} {:?}", name, strategy));
                if self.failing_links.contains(&strategy) {
                    Event::Completed(false)
                } else {
                    self.shims.push((name, strategy, target));
                    Event::Completed(true)
                }
            }
            Action::StampToolVersion { content } => {
                self.log.push("StampToolVersion".into());
                self.marker = Some(content);
                Event::Completed(true)
            }
        }
    }

    fn print(&mut self, notice: &Notice) {
        let line = match notice {
            Notice::OutdatedInternals => "Detected outdated rye internals. Refreshing".to_string(),
            Notice::Bootstrapping => "Bootstrapping rye internals".to_string(),
            Notice::FoundCompatible(v) => format!("Found a compatible Python version: {}", show(v)),
            Notice::FetchingRequested(v) => {
                format!("Fetching requested internal toolchain '{}'", show(v))
            }
            Notice::AlreadyDownloaded => "Python version already downloaded. Skipping.".to_string(),
            Notice::TargetDir(v) => format!("target dir: py/{}", show(v)),
            Notice::DownloadUrl(url) => format!("download url: {}", url),
            Notice::Downloading(v) => format!("Downloading {}", show(v)),
            Notice::CheckingChecksum => "Checking checksum".to_string(),
            Notice::ChecksumSkipped => "Checksum check skipped (no hash available)".to_string(),
            Notice::Unpacking => "Unpacking".to_string(),
            Notice::Downloaded(v) => format!("Downloaded {}", show(v)),
            Notice::MissingLibraries(libs) => format!("missing: {}", libs.join(", ")),
        };
        self.printed.push(line);
    }

    /// Does what a run asks for until the run is over.
    fn drive(&mut self, started: (Bootstrap, Step)) -> (Bootstrap, Result<Provisioned, Failure>) {
        let (mut run, mut step) = started;
        for _ in 0..200 {
            for notice in &step.notices {
                self.print(notice);
            }
            match step.next {
                Next::Perform(action) => {
                    let event = self.perform(action);
                    step = run.advance(event);
                }
                Next::Finish(result) => {
                    assert_eq!(run.state, State::Finished);
                    return (run, result);
                }
            }
        }
        panic!("the run does not end");
    }
}

fn show(v: &PythonVersion) -> String {
    format!("{}@{}.{}.{}", v.name, v.major, v.minor, v.patch)
}

/// Reads `name-arch-os@major.minor.patch`, where `os` may hold a hyphen.
fn toolchain(text: &str) -> PythonVersionRequest {
    let (target, numbers) = text.split_once('@').unwrap();
    let mut parts = target.splitn(3, '-');
    let name = parts.next().unwrap().to_string();
    let arch = parts.next().map(|s| s.to_string());
    let os = parts.next().map(|s| s.to_string());
    let mut numbers = numbers.split('.').map(|n| n.parse::<u8>().unwrap());
    PythonVersionRequest {
        name,
        arch,
        os,
        major: numbers.next().unwrap(),
        minor: numbers.next(),
        patch: numbers.next(),
        suffix: None,
    }
}

/// What the tool does with its private environment for one command line:
/// every command but `config` needs the environment, and `sync` fetches
/// the project's toolchain after that.
fn run_command(
    world: &mut World,
    staleness: &mut Staleness,
    context: fn() -> Context,
    default_toolchain: &mut Option<PythonVersionRequest>,
    args: &[&str],
) -> Result<Option<PythonVersion>, Failure> {
    if args[0] == "config" {
        assert_eq!(args[1], "--set");
        let (key, value) = args[2].split_once('=').unwrap();
        assert_eq!(key, "default.toolchain");
        *default_toolchain = Some(toolchain(value));
        return Ok(None);
    }
    let (run, result) = world.drive(ensure_self_venv(CommandOutput::Normal, context(), *staleness));
    *staleness = run.staleness;
    result?;
    if args[0] == "sync" {
        let request = default_toolchain.clone().unwrap();
        let (_, fetched) = world.drive(fetch(&request, CommandOutput::Normal, context()));
        return match fetched? {
            Provisioned::Interpreter(v) => Ok(Some(v)),
            Provisioned::SelfVenv => panic!("a fetch gives an interpreter"),
        };
    }
    Ok(None)
}

fn gnu() -> Context {
    context_for(OsFamily::Linux, "x86_64", "linux-gnu")
}

fn musl() -> Context {
    context_for(OsFamily::Linux, "x86_64", "linux-musl")
}

/// A project is configured, synced and run on a machine where nothing is
/// provisioned yet. Gives the world and the process as they are after
/// `run hello`.
fn bootstrap_on_linux(
    context: fn() -> Context,
    toolchain_setting: &str,
) -> (World, Staleness, Option<PythonVersionRequest>) {
    let mut world = World::empty();
    let mut staleness = Staleness::new();
    let mut default_toolchain = None;
    let project = "my-project";

    let configured = run_command(
        &mut world,
        &mut staleness,
        context,
        &mut default_toolchain,
        &["config", "--set", toolchain_setting],
    );
    assert_eq!(configured, Ok(None));
    assert!(world.log.is_empty());

    let synced =
        run_command(&mut world, &mut staleness, context, &mut default_toolchain, &["sync"]);
    let python = synced.unwrap().unwrap();
    assert_eq!(format!("Python version: {}", show(&python)), "Python version: cpython@3.12.1");
    assert_eq!(python.arch, "x86_64");
    assert_eq!(python.os, context().host.os);
    assert!(world.venv);
    assert!(world.helper);
    assert_eq!(world.marker.as_deref().and_then(parse_tool_version), Some(SELF_VERSION));
    assert_eq!(world.venv_marker, Some(python.clone()));
    assert_eq!(
        world.shims,
        vec![
            ("python".to_string(), LinkStrategy::Hardlink, ShimTarget::CurrentExe),
            ("python3".to_string(), LinkStrategy::Hardlink, ShimTarget::CurrentExe),
        ]
    );
    assert!(staleness.provisioned);

    let after_sync = world.writes().len();
    for command in [&["run"][..], &["run", "hello"][..]] {
        let ran = run_command(&mut world, &mut staleness, context, &mut default_toolchain, command);
        assert_eq!(ran, Ok(None), "{} {}", project, command.join(" "));
    }
    assert_eq!(world.writes().len(), after_sync);
    assert_eq!(world.installed, vec![python]);
    (world, staleness, default_toolchain)
}

#[test]
fn test_bootstrap_linux_musl() {
    let (mut world, mut staleness, mut default_toolchain) =
        bootstrap_on_linux(musl, "default.toolchain=cpython-x86_64-linux-musl@3.12.1");
    assert_eq!(world.installed[0].os, "linux-musl");

    // the project's sources change; the private environment is no part of
    // the project, and the next run finds it as it was
    let rewritten = "src/my_project/__init__.py";
    assert!(!rewritten.starts_with("self/"));
    let steps = world.log.len();
    let ran =
        run_command(&mut world, &mut staleness, musl, &mut default_toolchain, &["run", "hello"]);
    assert_eq!(ran, Ok(None));
    assert_eq!(world.log[steps..], ["ProbeVenv"]);
}

#[test]
fn test_bootstrap_linux_gnu() {
    let (world, staleness, _) =
        bootstrap_on_linux(gnu, "default.toolchain=cpython-x86_64-linux-gnu@3.12.1");
    assert_eq!(world.installed[0].os, "linux-gnu");
    assert_eq!(staleness.is_up_to_date(), Some(true));
}

#[test]
fn empty_app_dir_is_bootstrapped() {
    let mut world = World::empty();
    let (run, result) =
        world.drive(ensure_self_venv(CommandOutput::Normal, linux(), Staleness::new()));
    assert_eq!(result, Ok(Provisioned::SelfVenv));
    assert!(run.staleness.provisioned);
    assert!(world.helper);
    assert_eq!(world.installed, vec![version("x86_64", "linux", 12, 1)]);
    assert!(world.venv);
    assert_eq!(world.marker, Some("14".to_string()));
    assert_eq!(
        world.printed,
        vec![
            "Bootstrapping rye internals",
            "Downloading cpython@3.12.1",
            "Checking checksum",
            "Unpacking",
            "Downloaded cpython@3.12.1",
        ]
    );
    assert_eq!(
        world.log,
        vec![
            "ProbeVenv",
            "ProbeHelper",
            "Download https://example.com/uv-0.1.9.tar.gz",
            "UnpackHelper",
            "ProbeHelper",
            "ListInstalled",
            "ProbeInterpreter",
            "CreateInterpreterDir",
            "Download https://example.com/cpython-x86_64-linux-3.12.1.tar.gz",
            "UnpackInterpreter",
            "InspectLibraries",
            "RunHelper venv --python <py 3.12.1> <self>",
            "WriteVenvMarker",
            "RunHelper pip install --upgrade pip==23.3.2",
            "WriteRequirements",
            "RunHelper pip install --upgrade -r <requirements>",
            "DiscardRequirements",
            "ProbeShimDir",
            "CreateShimDir",
            "ProbeInstalledTool",
            "RemoveShim python",
            "LinkShim python Hardlink",
            "RemoveShim python3",
            "LinkShim python3 Hardlink",
            "StampToolVersion",
        ]
    );
    assert_eq!(world.requirements_file, None);
}

#[test]
fn requirements_are_handed_over_as_they_stand() {
    let mut world = World::empty();
    let (mut run, mut step) = ensure_self_venv(CommandOutput::Normal, linux(), Staleness::new());
    let mut written = None;
    loop {
        match step.next {
            Next::Perform(Action::WriteRequirements { content }) => {
                written = Some(content.clone());
                step = run.advance(world.perform(Action::WriteRequirements { content }));
            }
            Next::Perform(action) => step = run.advance(world.perform(action)),
            Next::Finish(result) => {
                assert_eq!(result, Ok(Provisioned::SelfVenv));
                break;
            }
        }
    }
    let written = written.unwrap();
    assert_eq!(written, SELF_REQUIREMENTS);
    assert_eq!(written.lines().filter(|line| !line.is_empty()).count(), 18);
    assert!(written.lines().filter(|line| !line.is_empty()).all(|line| line.contains("==")));
    assert!(written.contains("\nuv==0.1.9\n"));
}

#[test]
fn current_environment_is_returned_quietly() {
    let mut world = World::empty();
    world.venv = true;
    world.marker = Some("14".to_string());
    let (run, result) =
        world.drive(ensure_self_venv(CommandOutput::Quiet, linux(), Staleness::new()));
    assert_eq!(result, Ok(Provisioned::SelfVenv));
    assert_eq!(run.staleness.verdict, Some(true));
    assert!(!run.staleness.provisioned);
    assert_eq!(world.log, vec!["ProbeVenv", "ReadToolVersion"]);
    assert!(world.printed.is_empty());
}

#[test]
fn outdated_environment_is_refreshed() {
    let mut world = World::empty();
    world.venv = true;
    world.marker = Some("13".to_string());
    world.helper = true;
    world.installed = vec![version("x86_64", "linux", 11, 7)];
    let (run, result) =
        world.drive(ensure_self_venv(CommandOutput::Normal, linux(), Staleness::new()));
    assert_eq!(result, Ok(Provisioned::SelfVenv));
    assert_eq!(run.staleness.verdict, Some(false));
    assert!(run.staleness.provisioned);
    assert_eq!(world.log[..4], ["ProbeVenv", "ReadToolVersion", "RemoveVenv", "ProbeHelper"]);
    assert_eq!(
        world.printed,
        vec![
            "Detected outdated rye internals. Refreshing",
            "Bootstrapping rye internals",
            "Found a compatible Python version: cpython@3.11.7",
        ]
    );
    assert!(world.venv);
    assert_eq!(world.marker.as_deref().and_then(parse_tool_version), Some(SELF_VERSION));
    assert_eq!(world.venv_marker, Some(version("x86_64", "linux", 11, 7)));
    assert!(world.log.iter().all(|name| !name.starts_with("Download")));
    assert!(world.log.iter().all(|name| !name.starts_with("Unpack")));
}

fn request(minor: u8) -> PythonVersionRequest {
    PythonVersionRequest {
        name: "cpython".to_string(),
        arch: None,
        os: None,
        major: 3,
        minor: Some(minor),
        patch: None,
        suffix: None,
    }
}

#[test]
fn toolchain_above_the_window_is_refused() {
    let mut world = World::empty();
    world.venv = true;
    world.marker = Some("13".to_string());
    world.helper = true;
    let refused = ensure_self_venv_with_toolchain(
        CommandOutput::Normal,
        Some(request(13)),
        linux(),
        Staleness { verdict: Some(false), provisioned: false },
    );
    let (_, result) = world.drive(refused);
    assert_eq!(
        result,
        Err(Failure {
            stage: Stage::Interpreter,
            kind: ErrorKind::UnsupportedToolchain { version: version("x86_64", "linux", 13, 0) },
            url: None,
        })
    );
    assert!(world.installed.is_empty());
    assert!(world.log.iter().all(|name| !name.starts_with("Download")));
}

#[test]
fn unsupported_toolchain_leaves_a_missing_environment_untouched() {
    let mut world = World::empty();
    world.helper = true;
    let refused = ensure_self_venv_with_toolchain(
        CommandOutput::Normal,
        Some(request(13)),
        linux(),
        Staleness::new(),
    );
    let (run, result) = world.drive(refused);
    assert!(matches!(
        result,
        Err(Failure { kind: ErrorKind::UnsupportedToolchain { .. }, .. })
    ));
    assert!(world.writes().is_empty());
    assert!(!world.venv);
    assert!(!run.staleness.provisioned);
}

#[test]
fn toolchain_below_the_window_is_refused() {
    let mut world = World::empty();
    world.helper = true;
    let refused = ensure_self_venv_with_toolchain(
        CommandOutput::Normal,
        Some(request(8)),
        linux(),
        Staleness::new(),
    );
    let (_, result) = world.drive(refused);
    assert_eq!(
        result,
        Err(Failure {
            stage: Stage::Interpreter,
            kind: ErrorKind::UnsupportedToolchain { version: version("x86_64", "linux", 8, 18) },
            url: None,
        })
    );
    assert!(world.writes().is_empty());
}

#[test]
fn unknown_toolchain_is_reported_with_the_request() {
    let mut world = World::empty();
    world.helper = true;
    let refused = ensure_self_venv_with_toolchain(
        CommandOutput::Normal,
        Some(request(10)),
        linux(),
        Staleness::new(),
    );
    let (_, result) = world.drive(refused);
    assert_eq!(
        result,
        Err(Failure {
            stage: Stage::Interpreter,
            kind: ErrorKind::UnknownVersion { request: request(10) },
            url: None,
        })
    );
}

#[test]
fn requested_toolchain_is_fetched_when_absent() {
    let mut world = World::empty();
    world.helper = true;
    world.installed = vec![version("x86_64", "linux", 12, 1)];
    let started = ensure_self_venv_with_toolchain(
        CommandOutput::Normal,
        Some(request(11)),
        linux(),
        Staleness::new(),
    );
    let (_, result) = world.drive(started);
    assert_eq!(result, Ok(Provisioned::SelfVenv));
    assert_eq!(world.venv_marker, Some(version("x86_64", "linux", 11, 7)));
    assert_eq!(
        world.printed,
        vec![
            "Bootstrapping rye internals",
            "Fetching requested internal toolchain 'cpython@3.11.7'",
            "Downloading cpython@3.11.7",
            "Checking checksum",
            "Unpacking",
            "Downloaded cpython@3.11.7",
        ]
    );
}

#[test]
fn requested_toolchain_is_used_when_installed() {
    let mut world = World::empty();
    world.helper = true;
    world.installed = vec![version("x86_64", "linux", 12, 1)];
    let started = ensure_self_venv_with_toolchain(
        CommandOutput::Normal,
        Some(request(12)),
        linux(),
        Staleness::new(),
    );
    let (_, result) = world.drive(started);
    assert_eq!(result, Ok(Provisioned::SelfVenv));
    assert_eq!(
        world.printed,
        vec!["Bootstrapping rye internals", "Found a compatible Python version: cpython@3.12.1"]
    );
    assert!(world.log.iter().all(|name| !name.starts_with("Download")));
}

#[test]
fn corrupted_digest_fails_and_unpacks_nothing() {
    let mut world = World::empty();
    world.helper = true;
    world.body = b"hello world!".to_vec();
    let (run, result) =
        world.drive(ensure_self_venv(CommandOutput::Normal, linux(), Staleness::new()));
    assert_eq!(
        result,
        Err(Failure {
            stage: Stage::Interpreter,
            kind: ErrorKind::ChecksumMismatch {
                expected: HELLO_DIGEST.to_string(),
                actual: "7509e5bda0c762d2bac7f90d758b5b2263fa01ccbc542ab5e3df163be08e6ca9"
                    .to_string(),
            },
            url: Some("https://example.com/cpython-x86_64-linux-3.12.1.tar.gz".to_string()),
        })
    );
    assert!(world.installed.is_empty());
    assert!(world.log.iter().all(|name| !name.starts_with("Unpack")));
    assert!(world.marker.is_none());
    assert!(!run.staleness.provisioned);
    assert_eq!(
        world.printed,
        vec!["Bootstrapping rye internals", "Downloading cpython@3.12.1", "Checking checksum"]
    );
}

#[test]
fn corrupted_helper_digest_fails() {
    let mut world = World::empty();
    world.body = vec![];
    let (_, result) =
        world.drive(ensure_self_venv(CommandOutput::Quiet, linux(), Staleness::new()));
    assert_eq!(
        result,
        Err(Failure {
            stage: Stage::Helper,
            kind: ErrorKind::ChecksumMismatch {
                expected: HELLO_DIGEST.to_uppercase(),
                actual: "e3b0c44298fc1c149afbf4c8996fb92427ae41e4649b934ca495991b7852b855"
                    .to_string(),
            },
            url: Some(HELPER_URL.to_string()),
        })
    );
    assert!(!world.helper);
    assert!(world.printed.is_empty());
}

#[test]
fn missing_library_fails_with_the_sorted_list() {
    let mut world = World::empty();
    world.inspection = Some(
        "\tlinux-vdso.so.1 (0x00007ffd)\n\
         \tlibssl.so.3 => not found\n\
         \tlibc.so.6 => /lib/libc.so.6 (0x00007f00)\n\
         \tlibcrypt.so.1 => not found\n\
         \tlibssl.so.3 => not found\n"
            .to_string(),
    );
    let (_, result) =
        world.drive(ensure_self_venv(CommandOutput::Quiet, linux(), Staleness::new()));
    let failure = result.unwrap_err();
    assert_eq!(failure.stage, Stage::Interpreter);
    assert_eq!(
        failure.kind,
        ErrorKind::MissingSharedLibraries {
            libs: vec!["libcrypt.so.1".to_string(), "libssl.so.3".to_string()],
        }
    );
    assert_eq!(
        failure.kind.help(),
        Some("https://rye-up.com/guide/faq/#missing-shared-libraries-on-linux")
    );
    assert_eq!(world.printed, vec!["missing: libcrypt.so.1, libssl.so.3"]);
    assert!(!world.venv);
    assert!(world.marker.is_none());
}

#[test]
fn inspection_that_cannot_run_fails() {
    let mut world = World::empty();
    world.inspection = None;
    let (_, result) =
        world.drive(ensure_self_venv(CommandOutput::Normal, linux(), Staleness::new()));
    assert_eq!(
        result,
        Err(Failure {
            stage: Stage::Interpreter,
            kind: ErrorKind::Io(IoOp::InspectLibraries),
            url: None,
        })
    );
}

#[test]
fn other_platforms_do_not_inspect() {
    let mut world = World::empty();
    world.inspection = None;
    let context = context_for(OsFamily::OtherUnix, "aarch64", "macos");
    let (_, result) = world.drive(ensure_self_venv(CommandOutput::Normal, context, Staleness::new()));
    assert_eq!(result, Ok(Provisioned::SelfVenv));
    assert!(world.log.iter().all(|name| name != "InspectLibraries"));
    assert_eq!(
        world.shims,
        vec![
            ("python".to_string(), LinkStrategy::Symlink, ShimTarget::CurrentExe),
            ("python3".to_string(), LinkStrategy::Symlink, ShimTarget::CurrentExe),
        ]
    );
}

#[test]
fn second_run_in_a_process_changes_nothing() {
    let mut world = World::empty();
    let (first, result) =
        world.drive(ensure_self_venv(CommandOutput::Normal, linux(), Staleness::new()));
    assert_eq!(result, Ok(Provisioned::SelfVenv));
    let writes = world.writes().len();
    let steps = world.log.len();
    let printed = world.printed.len();
    let (second, again) =
        world.drive(ensure_self_venv(CommandOutput::Normal, linux(), first.staleness));
    assert_eq!(again, Ok(Provisioned::SelfVenv));
    assert_eq!(world.writes().len(), writes);
    assert_eq!(world.log[steps..], ["ProbeVenv", "ReadToolVersion"]);
    assert_eq!(world.printed.len(), printed);
    let (_, third) =
        world.drive(ensure_self_venv(CommandOutput::Normal, linux(), second.staleness));
    assert_eq!(third, Ok(Provisioned::SelfVenv));
    assert_eq!(world.log[steps + 2..], ["ProbeVenv"]);
}

#[test]
fn deleted_marker_is_rebuilt_by_a_new_process() {
    let mut world = World::empty();
    let (_, result) =
        world.drive(ensure_self_venv(CommandOutput::Normal, linux(), Staleness::new()));
    assert_eq!(result, Ok(Provisioned::SelfVenv));
    world.marker = None;
    world.log.clear();
    let (_, again) =
        world.drive(ensure_self_venv(CommandOutput::Normal, linux(), Staleness::new()));
    assert_eq!(again, Ok(Provisioned::SelfVenv));
    assert_eq!(world.log[..3], ["ProbeVenv", "ReadToolVersion", "RemoveVenv"]);
    assert!(world.log.contains(&"RunHelper venv --python <py 3.12.1> <self>".to_string()));
    assert_eq!(world.marker, Some("14".to_string()));
    assert!(world.log.iter().all(|name| !name.starts_with("Unpack")));
}

#[test]
fn deleted_environment_is_rebuilt_by_a_new_process() {
    let mut world = World::empty();
    let (_, result) =
        world.drive(ensure_self_venv(CommandOutput::Normal, linux(), Staleness::new()));
    assert_eq!(result, Ok(Provisioned::SelfVenv));
    world.venv = false;
    world.marker = None;
    world.log.clear();
    let (_, again) =
        world.drive(ensure_self_venv(CommandOutput::Normal, linux(), Staleness::new()));
    assert_eq!(again, Ok(Provisioned::SelfVenv));
    assert_eq!(world.log[..2], ["ProbeVenv", "ProbeHelper"]);
    assert!(world.venv);
    assert_eq!(world.marker, Some("14".to_string()));
}

fn insecure() -> Context {
    let mut context = linux();
    for entry in context.catalog.iter_mut() {
        entry.url = entry.url.replace("https://", "http://");
    }
    context
}

#[test]
fn insecure_url_is_refused_before_any_transfer() {
    let mut world = World::empty();
    world.helper = true;
    let (started, step) = ensure_self_venv(CommandOutput::Verbose, insecure(), Staleness::new());
    let (_, result) = world.drive((started, step));
    assert_eq!(
        result,
        Err(Failure {
            stage: Stage::Interpreter,
            kind: ErrorKind::InsecureScheme,
            url: Some("http://example.com/cpython-x86_64-linux-3.12.1.tar.gz".to_string()),
        })
    );
    assert!(world.log.iter().all(|name| !name.starts_with("Download")));
    assert_eq!(
        world.printed,
        vec![
            "Bootstrapping rye internals",
            "target dir: py/cpython@3.12.1",
            "download url: http://example.com/cpython-x86_64-linux-3.12.1.tar.gz",
            "Downloading cpython@3.12.1",
        ]
    );
}

#[test]
fn server_errors_are_told_apart() {
    for (status, kind) in [
        (404, ErrorKind::NotFound),
        (500, ErrorKind::HttpStatus(500)),
        (302, ErrorKind::HttpStatus(302)),
        (199, ErrorKind::HttpStatus(199)),
    ] {
        let mut world = World::empty();
        world.status = status;
        let (_, result) =
            world.drive(ensure_self_venv(CommandOutput::Normal, linux(), Staleness::new()));
        assert_eq!(
            result,
            Err(Failure { stage: Stage::Helper, kind, url: Some(HELPER_URL.to_string()) })
        );
    }
}

#[test]
fn transport_failure_is_a_network_error() {
    let mut world = World::empty();
    world.helper = true;
    world.transport_fails = true;
    let (_, result) =
        world.drive(ensure_self_venv(CommandOutput::Normal, linux(), Staleness::new()));
    assert_eq!(
        result,
        Err(Failure {
            stage: Stage::Interpreter,
            kind: ErrorKind::Network,
            url: Some("https://example.com/cpython-x86_64-linux-3.12.1.tar.gz".to_string()),
        })
    );
}

#[test]
fn helper_that_is_absent_after_unpacking_fails() {
    let mut world = World::empty();
    let (mut run, mut step) = ensure_self_venv(CommandOutput::Normal, linux(), Staleness::new());
    let mut probes = 0;
    let result = loop {
        match step.next {
            Next::Perform(Action::ProbeHelper { .. }) => {
                probes += 1;
                step = run.advance(Event::Probed(false));
            }
            Next::Perform(Action::UnpackHelper { .. }) => step = run.advance(Event::Completed(true)),
            Next::Perform(action) => step = run.advance(world.perform(action)),
            Next::Finish(result) => break result,
        }
    };
    assert_eq!(probes, 2);
    assert_eq!(
        result,
        Err(Failure { stage: Stage::Helper, kind: ErrorKind::HelperInstallFailed, url: None })
    );
}

#[test]
fn unpack_failure_leaves_the_run_failed() {
    let mut world = World::empty();
    world.unpack_fails = true;
    let (_, result) =
        world.drive(ensure_self_venv(CommandOutput::Normal, linux(), Staleness::new()));
    assert_eq!(
        result,
        Err(Failure { stage: Stage::Helper, kind: ErrorKind::Unpack, url: Some(HELPER_URL.to_string()) })
    );
}

#[test]
fn installed_interpreters_that_cannot_be_listed_fail_the_run() {
    let mut world = World::empty();
    world.listing_fails = true;
    let (_, result) =
        world.drive(ensure_self_venv(CommandOutput::Normal, linux(), Staleness::new()));
    assert_eq!(
        result,
        Err(Failure { stage: Stage::Interpreter, kind: ErrorKind::Io(IoOp::ListInstalled), url: None })
    );
    assert!(world.installed.is_empty());
}

#[test]
fn missing_helper_release_fails() {
    let mut world = World::empty();
    let mut context = linux();
    context.helper = None;
    let (_, result) = world.drive(ensure_self_venv(CommandOutput::Normal, context, Staleness::new()));
    assert_eq!(
        result,
        Err(Failure { stage: Stage::Helper, kind: ErrorKind::HelperUnavailable, url: None })
    );
    assert_eq!(world.printed, vec!["Bootstrapping rye internals"]);
}

#[test]
fn failed_venv_creation_points_to_the_installation_guide() {
    let mut world = World::empty();
    world.failing_helper_runs = vec!["venv".to_string()];
    let (_, result) =
        world.drive(ensure_self_venv(CommandOutput::Normal, linux(), Staleness::new()));
    let failure = result.unwrap_err();
    assert_eq!(failure.stage, Stage::Environment);
    assert_eq!(failure.kind, ErrorKind::HelperFailed(HelperStep::CreateVenv));
    assert_eq!(failure.kind.help(), Some("https://rye-up.com/guide/installation/"));
    assert!(world.marker.is_none());
}

#[test]
fn failed_requirements_still_discard_the_temporary_file() {
    let mut world = World::empty();
    world.failing_helper_runs = vec!["-r".to_string()];
    let (run, result) =
        world.drive(ensure_self_venv(CommandOutput::Normal, linux(), Staleness::new()));
    assert_eq!(
        result,
        Err(Failure {
            stage: Stage::Environment,
            kind: ErrorKind::HelperFailed(HelperStep::InstallRequirements),
            url: None,
        })
    );
    assert_eq!(world.log.last().unwrap(), "DiscardRequirements");
    assert_eq!(world.requirements_file, None);
    assert!(world.marker.is_none());
    assert!(!run.staleness.provisioned);
}

#[test]
fn failed_installer_upgrade_fails() {
    let mut world = World::empty();
    world.failing_helper_runs = vec!["pip==".to_string()];
    let (_, result) =
        world.drive(ensure_self_venv(CommandOutput::Normal, linux(), Staleness::new()));
    assert_eq!(
        result,
        Err(Failure {
            stage: Stage::Environment,
            kind: ErrorKind::HelperFailed(HelperStep::UpgradeInstaller),
            url: None,
        })
    );
}

#[test]
fn linux_falls_back_to_copying_shims() {
    let mut world = World::empty();
    world.failing_links = vec![LinkStrategy::Hardlink];
    world.tool_installed = true;
    world.shim_dir = true;
    let (_, result) =
        world.drive(ensure_self_venv(CommandOutput::Normal, linux(), Staleness::new()));
    assert_eq!(result, Ok(Provisioned::SelfVenv));
    assert_eq!(
        world.shims,
        vec![
            ("python".to_string(), LinkStrategy::Copy, ShimTarget::InstalledTool),
            ("python3".to_string(), LinkStrategy::Copy, ShimTarget::InstalledTool),
        ]
    );
    assert!(world.log.iter().all(|name| name != "CreateShimDir"));
}

#[test]
fn shim_that_cannot_be_installed_fails_before_the_marker() {
    let mut world = World::empty();
    world.failing_links = vec![LinkStrategy::Hardlink, LinkStrategy::Copy];
    let (run, result) =
        world.drive(ensure_self_venv(CommandOutput::Normal, linux(), Staleness::new()));
    assert_eq!(
        result,
        Err(Failure {
            stage: Stage::Shims,
            kind: ErrorKind::ShimInstallFailed { shim: "python".to_string() },
            url: None,
        })
    );
    assert!(world.marker.is_none());
    assert!(!run.staleness.provisioned);
}

#[test]
fn windows_installs_three_shims() {
    let mut world = World::empty();
    world.failing_links = vec![LinkStrategy::Symlink];
    let context = context_for(OsFamily::Windows, "x86_64", "windows");
    let (mut run, step) = ensure_self_venv(CommandOutput::Normal, context, Staleness::new());
    let mut step = step;
    let result = loop {
        match step.next {
            Next::Perform(Action::Download { request }) => {
                assert!(request.skip_revocation_check);
                step = run.advance(world.perform(Action::Download { request }));
            }
            Next::Perform(action) => step = run.advance(world.perform(action)),
            Next::Finish(result) => break result,
        }
    };
    assert_eq!(result, Ok(Provisioned::SelfVenv));
    assert_eq!(
        world.shims,
        vec![
            ("python.exe".to_string(), LinkStrategy::Hardlink, ShimTarget::CurrentExe),
            ("python3.exe".to_string(), LinkStrategy::Hardlink, ShimTarget::CurrentExe),
            ("pythonw.exe".to_string(), LinkStrategy::Hardlink, ShimTarget::CurrentExe),
        ]
    );
}

#[test]
fn quiet_mode_quiets_the_helper_too() {
    let mut world = World::empty();
    let mut context = linux();
    context.proxy = Some("https://proxy.example.com:3128".to_string());
    let (_, result) = world.drive(ensure_self_venv(CommandOutput::Quiet, context, Staleness::new()));
    assert_eq!(result, Ok(Provisioned::SelfVenv));
    assert!(world.printed.is_empty());
    let proxy = ("https_proxy".to_string(), "https://proxy.example.com:3128".to_string());
    let quiet = ("PYTHONWARNINGS".to_string(), "ignore".to_string());
    let in_venv = ("VIRTUAL_ENV".to_string(), "<self>".to_string());
    assert_eq!(
        world.commands,
        vec![
            (
                vec!["--quiet", "venv", "--python", "<py 3.12.1>", "<self>"]
                    .into_iter()
                    .map(String::from)
                    .collect(),
                vec![quiet.clone(), proxy.clone()],
            ),
            (
                vec!["--quiet", "pip", "install", "--upgrade", "pip==23.3.2"]
                    .into_iter()
                    .map(String::from)
                    .collect(),
                vec![quiet.clone(), proxy.clone(), in_venv.clone()],
            ),
            (
                vec!["--quiet", "pip", "install", "--upgrade", "-r", "<requirements>"]
                    .into_iter()
                    .map(String::from)
                    .collect(),
                vec![quiet, proxy, in_venv],
            ),
        ]
    );
}

#[test]
fn verbose_mode_gives_the_details() {
    let mut world = World::empty();
    world.helper = true;
    let (_, result) =
        world.drive(ensure_self_venv(CommandOutput::Verbose, linux(), Staleness::new()));
    assert_eq!(result, Ok(Provisioned::SelfVenv));
    assert_eq!(
        world.printed,
        vec![
            "Bootstrapping rye internals",
            "target dir: py/cpython@3.12.1",
            "download url: https://example.com/cpython-x86_64-linux-3.12.1.tar.gz",
            "Downloading cpython@3.12.1",
            "Checking checksum",
            "Unpacking",
            "Downloaded cpython@3.12.1",
        ]
    );
    assert_eq!(world.commands[0].0[0], "--verbose");
    assert!(world.commands[0].1.is_empty());
}

#[test]
fn entry_without_digest_is_unpacked_with_a_notice() {
    let mut world = World::empty();
    world.helper = true;
    world.body = archive();
    let mut context = linux();
    for entry in context.catalog.iter_mut() {
        entry.sha256 = None;
    }
    let (_, result) = world.drive(ensure_self_venv(CommandOutput::Normal, context, Staleness::new()));
    assert_eq!(result, Ok(Provisioned::SelfVenv));
    assert_eq!(
        world.printed,
        vec![
            "Bootstrapping rye internals",
            "Downloading cpython@3.12.1",
            "Checksum check skipped (no hash available)",
            "Unpacking",
            "Downloaded cpython@3.12.1",
        ]
    );
}

#[test]
fn greatest_compatible_installed_interpreter_is_preferred() {
    let mut world = World::empty();
    world.helper = true;
    world.installed = vec![
        version("x86_64", "linux", 11, 7),
        version("x86_64", "linux", 13, 0),
        version("x86_64", "linux", 12, 0),
        version("x86_64", "linux", 8, 18),
    ];
    let (_, result) =
        world.drive(ensure_self_venv(CommandOutput::Normal, linux(), Staleness::new()));
    assert_eq!(result, Ok(Provisioned::SelfVenv));
    assert_eq!(world.venv_marker, Some(version("x86_64", "linux", 12, 0)));
    assert_eq!(world.installed.len(), 4);
}

#[test]
fn fetch_of_an_installed_version_returns_it() {
    let mut world = World::empty();
    world.installed = vec![version("x86_64", "linux", 12, 1)];
    let wanted = version("x86_64", "linux", 12, 1).to_request();
    let (_, result) = world.drive(fetch(&wanted, CommandOutput::Verbose, linux()));
    assert_eq!(result, Ok(Provisioned::Interpreter(version("x86_64", "linux", 12, 1))));
    assert_eq!(world.log, vec!["ProbeInterpreter"]);
    assert_eq!(world.printed, vec!["Python version already downloaded. Skipping."]);
}

#[test]
fn fetch_of_an_installed_version_does_not_need_the_catalog() {
    let mut world = World::empty();
    world.installed = vec![version("x86_64", "linux", 9, 1)];
    let wanted = version("x86_64", "linux", 9, 1).to_request();
    let (_, result) = world.drive(fetch(&wanted, CommandOutput::Normal, linux()));
    assert_eq!(result, Ok(Provisioned::Interpreter(version("x86_64", "linux", 9, 1))));
}

#[test]
fn fetch_resolves_an_open_request() {
    let mut world = World::empty();
    let (_, result) = world.drive(fetch(&request(12), CommandOutput::Normal, linux()));
    assert_eq!(result, Ok(Provisioned::Interpreter(version("x86_64", "linux", 12, 1))));
    assert_eq!(
        world.log,
        vec![
            "ProbeInterpreter",
            "CreateInterpreterDir",
            "Download https://example.com/cpython-x86_64-linux-3.12.1.tar.gz",
            "UnpackInterpreter",
            "InspectLibraries",
        ]
    );
}

#[test]
fn fetch_of_an_unknown_version_fails() {
    let mut world = World::empty();
    let wanted = version("x86_64", "linux", 12, 9).to_request();
    let (_, result) = world.drive(fetch(&wanted, CommandOutput::Normal, linux()));
    assert_eq!(
        result,
        Err(Failure {
            stage: Stage::Interpreter,
            kind: ErrorKind::UnknownVersion { request: version("x86_64", "linux", 12, 9).to_request() },
            url: None,
        })
    );
    assert_eq!(world.log, vec!["ProbeInterpreter"]);
}

#[test]
fn unknown_version_is_reported_as_it_was_asked_for() {
    let mut world = World::empty();
    let mut wanted = request(12);
    wanted.patch = Some(9);
    let (_, result) = world.drive(fetch(&wanted, CommandOutput::Normal, linux()));
    assert_eq!(
        result,
        Err(Failure {
            stage: Stage::Interpreter,
            kind: ErrorKind::UnknownVersion { request: wanted },
            url: None,
        })
    );
    assert_eq!(world.log, vec!["ProbeInterpreter"]);
}

#[test]
fn concrete_request_without_platform_is_fetched_for_the_host() {
    let mut world = World::empty();
    let mut wanted = request(12);
    wanted.patch = Some(0);
    let (_, result) = world.drive(fetch(&wanted, CommandOutput::Normal, linux()));
    assert_eq!(result, Ok(Provisioned::Interpreter(version("x86_64", "linux", 12, 0))));
    assert_eq!(world.installed, vec![version("x86_64", "linux", 12, 0)]);
}

#[test]
fn fetch_outside_the_window_is_allowed() {
    let mut world = World::empty();
    let (_, result) = world.drive(fetch(&request(13), CommandOutput::Quiet, linux()));
    assert_eq!(result, Ok(Provisioned::Interpreter(version("x86_64", "linux", 13, 0))));
    assert!(world.printed.is_empty());
}

#[test]
fn unexpected_event_ends_the_run() {
    let (mut run, step) = ensure_self_venv(CommandOutput::Normal, linux(), Staleness::new());
    assert_eq!(step.next, Next::Perform(Action::ProbeVenv));
    let step = run.advance(Event::Completed(true));
    assert_eq!(
        step.next,
        Next::Finish(Err(Failure {
            stage: Stage::Refresh,
            kind: ErrorKind::UnexpectedEvent,
            url: None,
        }))
    );
    let step = run.advance(Event::Probed(true));
    assert!(matches!(
        step.next,
        Next::Finish(Err(Failure { kind: ErrorKind::UnexpectedEvent, .. }))
    ));
}

#[test]
fn unreadable_marker_counts_as_stale() {
    for content in ["", "14\n", " 14", "fourteen", "15", "-14", "18446744073709551616"] {
        let mut world = World::empty();
        world.venv = true;
        world.marker = Some(content.to_string());
        world.helper = true;
        world.installed = vec![version("x86_64", "linux", 12, 1)];
        let (run, result) =
            world.drive(ensure_self_venv(CommandOutput::Quiet, linux(), Staleness::new()));
        assert_eq!(result, Ok(Provisioned::SelfVenv));
        assert_eq!(run.staleness.verdict, Some(false), "{:?}", content);
        assert!(world.log.contains(&"RemoveVenv".to_string()));
        assert_eq!(world.marker, Some("14".to_string()));
    }
}

/// Drives a run in a world where the first action that `fails` accepts is
/// answered with a failure, and gives how the run ended.
fn fail_at(world: &mut World, fails: fn(&Action) -> bool) -> Result<Provisioned, Failure> {
    let (mut run, mut step) = ensure_self_venv(CommandOutput::Quiet, linux(), Staleness::new());
    let mut failed = false;
    for _ in 0..51 {
        match step.next {
            Next::Perform(action) => {
                let event = if !failed && fails(&action) {
                    failed = true;
                    Event::Completed(false)
                } else {
                    world.perform(action)
                };
                step = run.advance(event);
            }
            Next::Finish(result) => {
                assert!(failed || result.is_ok());
                assert_eq!(run.staleness.provisioned, result.is_ok());
                return result;
            }
        }
    }
    panic!("the run does not end");
}

fn io_failure(stage: Stage, op: IoOp) -> Result<Provisioned, Failure> {
    Err(Failure { stage, kind: ErrorKind::Io(op), url: None })
}

#[test]
fn every_run_ends_within_its_bound() {
    let mut world = World::empty();
    world.venv = true;
    world.marker = Some("13".to_string());
    world.failing_links = vec![LinkStrategy::Hardlink];
    let result = fail_at(&mut world, |_| false);
    assert_eq!(result, Ok(Provisioned::SelfVenv));
    assert_eq!(world.log.len(), 29);
}

#[test]
fn environment_that_cannot_be_removed_fails_the_run() {
    let mut world = World::empty();
    world.venv = true;
    world.marker = Some("13".to_string());
    let result = fail_at(&mut world, |action| matches!(action, Action::RemoveVenv));
    assert_eq!(result, io_failure(Stage::Refresh, IoOp::RemoveVenv));
    assert_eq!(world.log, vec!["ProbeVenv", "ReadToolVersion"]);
}

#[test]
fn interpreter_directory_that_cannot_be_created_fails_the_run() {
    let mut world = World::empty();
    let result =
        fail_at(&mut world, |action| matches!(action, Action::CreateInterpreterDir { .. }));
    assert_eq!(result, io_failure(Stage::Interpreter, IoOp::CreateInterpreterDir));
    assert!(world.log.iter().all(|name| !name.contains("cpython")));
}

#[test]
fn venv_marker_that_cannot_be_written_fails_the_run() {
    let mut world = World::empty();
    let result = fail_at(&mut world, |action| matches!(action, Action::WriteVenvMarker { .. }));
    assert_eq!(result, io_failure(Stage::Environment, IoOp::WriteVenvMarker));
    assert!(world.marker.is_none());
}

#[test]
fn requirements_that_cannot_be_written_fail_the_run() {
    let mut world = World::empty();
    let result = fail_at(&mut world, |action| matches!(action, Action::WriteRequirements { .. }));
    assert_eq!(result, io_failure(Stage::Environment, IoOp::WriteRequirements));
    assert!(world.log.iter().all(|name| name != "DiscardRequirements"));
    assert!(world.marker.is_none());
}

#[test]
fn shim_directory_that_cannot_be_created_fails_the_run() {
    let mut world = World::empty();
    let result = fail_at(&mut world, |action| matches!(action, Action::CreateShimDir));
    assert_eq!(result, io_failure(Stage::Shims, IoOp::CreateShimDir));
    assert!(world.marker.is_none());
}

#[test]
fn marker_that_cannot_be_written_fails_the_run() {
    let mut world = World::empty();
    let result = fail_at(&mut world, |action| matches!(action, Action::StampToolVersion { .. }));
    assert_eq!(result, io_failure(Stage::Stamp, IoOp::StampToolVersion));
    assert!(world.marker.is_none());
    assert_eq!(world.shims.len(), 2);
}

#[test]
fn temporary_file_that_cannot_be_deleted_does_not_fail_the_run() {
    let mut world = World::empty();
    let result = fail_at(&mut world, |action| matches!(action, Action::DiscardRequirements));
    assert_eq!(result, Ok(Provisioned::SelfVenv));
    assert_eq!(world.marker, Some("14".to_string()));
}

#[test]
fn shim_in_the_way_that_cannot_be_removed_does_not_fail_the_run() {
    let mut world = World::empty();
    let result = fail_at(&mut world, |action| matches!(action, Action::RemoveShim { .. }));
    assert_eq!(result, Ok(Provisioned::SelfVenv));
    assert_eq!(world.shims.len(), 2);
}
