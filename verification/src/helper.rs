use vstd::prelude::*;
use crate::output::CommandOutput;
use crate::text::{copy_opt, opt_chars};
use crate::version::{PythonVersion, VersionModel};

verus! {

/// The file name of the helper's binary inside its versioned directory.
pub const HELPER_BIN: &'static str = "uv";

/// The variable that tells the helper which environment to work in.
pub const VIRTUAL_ENV_VAR: &'static str = "VIRTUAL_ENV";

/// The variable that silences the interpreter's warnings.
pub const WARNINGS_VAR: &'static str = "PYTHONWARNINGS";

/// The variable through which the configured HTTPS proxy is passed on.
pub const HTTPS_PROXY_VAR: &'static str = "https_proxy";

/// The requirements that the private environment is populated with, one
/// exact pin to the line. Handed to the helper as it stands.
pub const SELF_REQUIREMENTS: &'static str =
    "\nbuild==1.0.3\ncertifi==2023.11.17\ncharset-normalizer==3.3.2\nclick==8.1.7\ndistlib==0.3.8\nfilelock==3.12.2\nidna==3.4\npackaging==23.1\nplatformdirs==4.0.0\npyproject_hooks==1.0.0\nrequests==2.31.0\ntomli==2.0.1\ntwine==4.0.2\nunearth==0.14.0\nurllib3==2.0.7\nvirtualenv==20.25.0\nruff==0.2.2\nuv==0.1.9\n";

/// Where a helper release is to be had. The digest is not optional.
#[derive(Debug, PartialEq, Eq)]
pub struct HelperDownload {
    pub version: String,
    /// Where the archive is; an absolute HTTPS URL.
    pub url: String,
    /// The SHA-256 of the archive in hex.
    pub sha256: String,
}

/// What a [`HelperDownload`] stands for.
pub struct HelperDownloadModel {
    pub version: Seq<char>,
    pub url: Seq<char>,
    pub sha256: Seq<char>,
}

impl View for HelperDownload {
    type V = HelperDownloadModel;

    open spec fn view(&self) -> HelperDownloadModel {
        HelperDownloadModel { version: self.version@, url: self.url@, sha256: self.sha256@ }
    }
}

impl DeepView for HelperDownload {
    type V = HelperDownloadModel;

    open spec fn deep_view(&self) -> HelperDownloadModel {
        self@
    }
}

impl Clone for HelperDownload {
    fn clone(&self) -> (r: Self)
        ensures
            r@ == self@,
    {
        HelperDownload {
            version: self.version.clone(),
            url: self.url.clone(),
            sha256: self.sha256.clone(),
        }
    }
}

/// One argument of a helper invocation. Paths are named, not spelled: the
/// caller knows where things are.
#[derive(Debug, PartialEq, Eq)]
pub enum Arg {
    /// Passed as it is written.
    Text(String),
    /// The path of the binary of this interpreter.
    InterpreterBin(PythonVersion),
    /// The path of the private environment.
    VenvDir,
    /// The path of the temporary file that holds the requirements.
    RequirementsFile,
}

/// What an [`Arg`] stands for.
pub enum ArgModel {
    Text(Seq<char>),
    InterpreterBin(VersionModel),
    VenvDir,
    RequirementsFile,
}

impl View for Arg {
    type V = ArgModel;

    open spec fn view(&self) -> ArgModel {
        match self {
            Arg::Text(s) => ArgModel::Text(s@),
            Arg::InterpreterBin(v) => ArgModel::InterpreterBin(v@),
            Arg::VenvDir => ArgModel::VenvDir,
            Arg::RequirementsFile => ArgModel::RequirementsFile,
        }
    }
}

impl DeepView for Arg {
    type V = ArgModel;

    open spec fn deep_view(&self) -> ArgModel {
        self@
    }
}

/// The value of an environment variable of a helper invocation.
#[derive(Debug, PartialEq, Eq)]
pub enum EnvValue {
    /// Set as it is written.
    Text(String),
    /// The path of the private environment.
    VenvDir,
}

/// What an [`EnvValue`] stands for.
pub enum EnvValueModel {
    Text(Seq<char>),
    VenvDir,
}

/// One environment variable of a helper invocation.
#[derive(Debug, PartialEq, Eq)]
pub struct EnvVar {
    pub name: String,
    pub value: EnvValue,
}

/// What an [`EnvVar`] stands for.
pub struct EnvVarModel {
    pub name: Seq<char>,
    pub value: EnvValueModel,
}

impl View for EnvVar {
    type V = EnvVarModel;

    open spec fn view(&self) -> EnvVarModel {
        EnvVarModel {
            name: self.name@,
            value: match self.value {
                EnvValue::Text(s) => EnvValueModel::Text(s@),
                EnvValue::VenvDir => EnvValueModel::VenvDir,
            },
        }
    }
}

impl DeepView for EnvVar {
    type V = EnvVarModel;

    open spec fn deep_view(&self) -> EnvVarModel {
        self@
    }
}

/// One invocation of the helper: its arguments in order, and the variables
/// that are added to its environment.
#[derive(Debug, PartialEq, Eq)]
pub struct HelperCommand {
    pub args: Vec<Arg>,
    pub env: Vec<EnvVar>,
}

/// What a [`HelperCommand`] stands for.
pub struct CommandModel {
    pub args: Seq<ArgModel>,
    pub env: Seq<EnvVarModel>,
}

impl View for HelperCommand {
    type V = CommandModel;

    open spec fn view(&self) -> CommandModel {
        CommandModel { args: self.args.deep_view(), env: self.env.deep_view() }
    }
}

/// The variable that passes the proxy on, where one is configured.
pub open spec fn proxy_env(proxy: Option<Seq<char>>) -> Seq<EnvVarModel> {
    match proxy {
        Some(url) => seq![
            EnvVarModel { name: HTTPS_PROXY_VAR@, value: EnvValueModel::Text(url) },
        ],
        None => Seq::empty(),
    }
}

/// What every invocation of the helper begins with: the flag for the
/// output mode, the silencing of warnings in quiet mode, and the proxy.
pub open spec fn base_command(output: CommandOutput, proxy: Option<Seq<char>>) -> CommandModel {
    match output {
        CommandOutput::Verbose => CommandModel {
            args: seq![ArgModel::Text("--verbose"@)],
            env: proxy_env(proxy),
        },
        CommandOutput::Quiet => CommandModel {
            args: seq![ArgModel::Text("--quiet"@)],
            env: seq![
                EnvVarModel { name: WARNINGS_VAR@, value: EnvValueModel::Text("ignore"@) },
            ] + proxy_env(proxy),
        },
        CommandOutput::Normal => CommandModel { args: Seq::empty(), env: proxy_env(proxy) },
    }
}

/// The invocation that creates the private environment on `version`:
/// `venv --python <interpreter> <environment>`.
pub open spec fn venv_command(
    output: CommandOutput,
    proxy: Option<Seq<char>>,
    version: VersionModel,
) -> CommandModel {
    let base = base_command(output, proxy);
    CommandModel {
        args: base.args + seq![
            ArgModel::Text("venv"@),
            ArgModel::Text("--python"@),
            ArgModel::InterpreterBin(version),
            ArgModel::VenvDir,
        ],
        env: base.env,
    }
}

/// What every invocation inside the private environment begins with: the
/// base, and the variable that names the environment.
pub open spec fn venv_base_command(output: CommandOutput, proxy: Option<Seq<char>>)
    -> CommandModel {
    let base = base_command(output, proxy);
    CommandModel {
        args: base.args,
        env: base.env.push(EnvVarModel { name: VIRTUAL_ENV_VAR@, value: EnvValueModel::VenvDir }),
    }
}

/// The invocation that brings the installer inside the environment to the
/// pinned version: `pip install --upgrade <pin>`.
pub open spec fn upgrade_command(
    output: CommandOutput,
    proxy: Option<Seq<char>>,
    installer: Seq<char>,
) -> CommandModel {
    let base = venv_base_command(output, proxy);
    CommandModel {
        args: base.args + seq![
            ArgModel::Text("pip"@),
            ArgModel::Text("install"@),
            ArgModel::Text("--upgrade"@),
            ArgModel::Text(installer),
        ],
        env: base.env,
    }
}

/// The invocation that installs the pinned requirements:
/// `pip install --upgrade -r <file>`.
pub open spec fn requirements_command(output: CommandOutput, proxy: Option<Seq<char>>)
    -> CommandModel {
    let base = venv_base_command(output, proxy);
    CommandModel {
        args: base.args + seq![
            ArgModel::Text("pip"@),
            ArgModel::Text("install"@),
            ArgModel::Text("--upgrade"@),
            ArgModel::Text("-r"@),
            ArgModel::RequirementsFile,
        ],
        env: base.env,
    }
}

fn push_arg(args: &mut Vec<Arg>, arg: Arg)
    ensures
        final(args).deep_view() == old(args).deep_view().push(arg@),
{
    args.push(arg);
    assert(args.deep_view() =~= old(args).deep_view().push(arg@));
}

fn push_text(args: &mut Vec<Arg>, text: &str)
    ensures
        final(args).deep_view() == old(args).deep_view().push(ArgModel::Text(text@)),
{
    push_arg(args, Arg::Text(text.to_owned()));
}

fn push_env(env: &mut Vec<EnvVar>, var: EnvVar)
    ensures
        final(env).deep_view() == old(env).deep_view().push(var@),
{
    env.push(var);
    assert(env.deep_view() =~= old(env).deep_view().push(var@));
}

/// The helper, ready to be invoked in an output mode.
#[derive(Debug, PartialEq, Eq)]
pub struct Uv {
    pub output: CommandOutput,
    /// The configured HTTPS proxy, which every invocation passes on.
    pub proxy: Option<String>,
}

impl Uv {
    /// An invocation of the helper with nothing but what every invocation
    /// begins with.
    pub fn cmd(&self) -> (c: HelperCommand)
        ensures
            c@ == base_command(self.output, opt_chars(self.proxy)),
    {
        let mut args: Vec<Arg> = Vec::new();
        let mut env: Vec<EnvVar> = Vec::new();
        assert(args.deep_view() =~= Seq::<ArgModel>::empty());
        assert(env.deep_view() =~= Seq::<EnvVarModel>::empty());
        match self.output {
            CommandOutput::Verbose => {
                push_text(&mut args, "--verbose");
            },
            CommandOutput::Quiet => {
                push_text(&mut args, "--quiet");
                push_env(
                    &mut env,
                    EnvVar {
                        name: WARNINGS_VAR.to_owned(),
                        value: EnvValue::Text("ignore".to_owned()),
                    },
                );
            },
            CommandOutput::Normal => {},
        }
        match &self.proxy {
            Some(url) => {
                push_env(
                    &mut env,
                    EnvVar { name: HTTPS_PROXY_VAR.to_owned(), value: EnvValue::Text(url.clone()) },
                );
            },
            None => {},
        }
        let c = HelperCommand { args, env };
        assert(c@.args =~= base_command(self.output, opt_chars(self.proxy)).args);
        assert(c@.env =~= base_command(self.output, opt_chars(self.proxy)).env);
        c
    }

    /// The invocation that creates the private environment on `version`.
    pub fn venv(&self, version: &PythonVersion) -> (c: HelperCommand)
        ensures
            c@ == venv_command(self.output, opt_chars(self.proxy), version@),
    {
        let mut c = self.cmd();
        push_text(&mut c.args, "venv");
        push_text(&mut c.args, "--python");
        push_arg(&mut c.args, Arg::InterpreterBin(version.clone()));
        push_arg(&mut c.args, Arg::VenvDir);
        assert(c@.args =~= venv_command(self.output, opt_chars(self.proxy), version@).args);
        c
    }

    /// A copy of this handle.
    pub fn duplicate(&self) -> (r: Uv)
        ensures
            r.output == self.output,
            opt_chars(r.proxy) == opt_chars(self.proxy),
    {
        Uv { output: self.output, proxy: copy_opt(&self.proxy) }
    }
}

/// The helper together with the private environment that it has created.
#[derive(Debug, PartialEq, Eq)]
pub struct UvWithVenv {
    pub uv: Uv,
    pub py_version: PythonVersion,
}

impl UvWithVenv {
    pub fn new(uv: Uv, version: &PythonVersion) -> (r: UvWithVenv)
        ensures
            r.uv == uv,
            r.py_version@ == version@,
    {
        UvWithVenv { uv, py_version: version.clone() }
    }

    /// An invocation of the helper inside the environment.
    pub fn venv_cmd(&self) -> (c: HelperCommand)
        ensures
            c@ == venv_base_command(self.uv.output, opt_chars(self.uv.proxy)),
    {
        let mut c = self.uv.cmd();
        push_env(&mut c.env, EnvVar { name: VIRTUAL_ENV_VAR.to_owned(), value: EnvValue::VenvDir });
        c
    }

    /// The invocation that brings the installer inside the environment to
    /// the version pinned by `installer`.
    pub fn update_pip(&self, installer: &str) -> (c: HelperCommand)
        ensures
            c@ == upgrade_command(self.uv.output, opt_chars(self.uv.proxy), installer@),
    {
        let mut c = self.venv_cmd();
        push_text(&mut c.args, "pip");
        push_text(&mut c.args, "install");
        push_text(&mut c.args, "--upgrade");
        push_text(&mut c.args, installer);
        assert(c@.args =~= upgrade_command(
            self.uv.output,
            opt_chars(self.uv.proxy),
            installer@,
        ).args);
        c
    }

    /// The invocation that installs the requirements from the temporary
    /// file that holds them.
    pub fn update_requirements(&self) -> (c: HelperCommand)
        ensures
            c@ == requirements_command(self.uv.output, opt_chars(self.uv.proxy)),
    {
        let mut c = self.venv_cmd();
        push_text(&mut c.args, "pip");
        push_text(&mut c.args, "install");
        push_text(&mut c.args, "--upgrade");
        push_text(&mut c.args, "-r");
        push_arg(&mut c.args, Arg::RequirementsFile);
        assert(c@.args =~= requirements_command(
            self.uv.output,
            opt_chars(self.uv.proxy),
        ).args);
        c
    }
}

} // verus!
