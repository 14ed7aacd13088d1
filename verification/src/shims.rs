use vstd::prelude::*;
use crate::platform::OsFamily;

verus! {

/// The file name, without extension, under which the tool itself may be
/// installed in the shim directory.
pub const TOOL_NAME: &'static str = "rye";

/// A way of making a shim stand for the tool's executable.
#[derive(Clone, Copy, Debug, PartialEq, Eq, Structural)]
pub enum LinkStrategy {
    Symlink,
    Hardlink,
    Copy,
}

/// The executable that the shims stand for.
#[derive(Clone, Copy, Debug, PartialEq, Eq, Structural)]
pub enum ShimTarget {
    /// The tool as it is installed in the shim directory: a stable place.
    InstalledTool,
    /// The executable that is running now.
    CurrentExe,
}

/// The target to link the shims to: the installed tool where there is one.
pub open spec fn target_for(tool_installed: bool) -> ShimTarget {
    if tool_installed {
        ShimTarget::InstalledTool
    } else {
        ShimTarget::CurrentExe
    }
}

/// The strategies to try on `os`, in order.
///
/// Linux never symlinks: a symlinked shim reports the wrong executable to
/// some introspection interfaces, so a hard link is tried, and a copy where
/// that fails, as across volumes. Other Unixes symlink. Windows symlinks
/// where the privilege is there, and hard-links where it is not.
pub open spec fn strategies(os: OsFamily) -> Seq<LinkStrategy> {
    match os {
        OsFamily::Linux => seq![LinkStrategy::Hardlink, LinkStrategy::Copy],
        OsFamily::OtherUnix => seq![LinkStrategy::Symlink],
        OsFamily::Windows => seq![LinkStrategy::Symlink, LinkStrategy::Hardlink],
    }
}

/// The file names of the shims to install on `os`, in order.
pub open spec fn shim_names(os: OsFamily) -> Seq<Seq<char>> {
    match os {
        OsFamily::Windows => seq!["python.exe"@, "python3.exe"@, "pythonw.exe"@],
        _ => seq!["python"@, "python3"@],
    }
}

/// The strategy to try on `os` after `tried` others have failed.
pub fn strategy_at(os: OsFamily, tried: usize) -> (r: Option<LinkStrategy>)
    ensures
        r == if tried < strategies(os).len() {
            Some(strategies(os)[tried as int])
        } else {
            None
        },
{
    match os {
        OsFamily::Linux => if tried == 0 {
            Some(LinkStrategy::Hardlink)
        } else if tried == 1 {
            Some(LinkStrategy::Copy)
        } else {
            None
        },
        OsFamily::OtherUnix => if tried == 0 {
            Some(LinkStrategy::Symlink)
        } else {
            None
        },
        OsFamily::Windows => if tried == 0 {
            Some(LinkStrategy::Symlink)
        } else if tried == 1 {
            Some(LinkStrategy::Hardlink)
        } else {
            None
        },
    }
}

/// The file name of the shim to install on `os` after `installed` others.
pub fn shim_name_at(os: OsFamily, installed: usize) -> (r: Option<String>)
    ensures
        r.deep_view() == if installed < shim_names(os).len() {
            Some(shim_names(os)[installed as int])
        } else {
            None
        },
{
    let name = match os {
        OsFamily::Windows => if installed == 0 {
            Some("python.exe")
        } else if installed == 1 {
            Some("python3.exe")
        } else if installed == 2 {
            Some("pythonw.exe")
        } else {
            None
        },
        _ => if installed == 0 {
            Some("python")
        } else if installed == 1 {
            Some("python3")
        } else {
            None
        },
    };
    match name {
        Some(n) => Some(n.to_owned()),
        None => None,
    }
}

/// How far the installation of the shims has come.
#[derive(Clone, Copy, Debug, PartialEq, Eq, Structural)]
pub struct ShimInstall {
    pub os: OsFamily,
    pub target: ShimTarget,
    /// How many shims are installed.
    pub installed: usize,
    /// How many strategies have failed for the shim at hand.
    pub tried: usize,
    /// Whether the file in the way of the shim at hand is being removed;
    /// otherwise the shim is being linked.
    pub clearing: bool,
}

/// What the installation of the shims asks for next, or how it ended.
#[derive(Debug, PartialEq, Eq)]
pub enum ShimStep {
    /// Remove the file of this name from the shim directory, if there is
    /// one; whether that succeeds does not matter.
    Remove { name: String },
    /// Make the shim of this name stand for the target, in this way.
    Link { name: String, strategy: LinkStrategy, target: ShimTarget },
    /// Every shim is installed.
    Installed,
    /// No strategy worked for the shim of this name.
    Failed { name: String },
}

/// What a [`ShimStep`] stands for.
pub enum ShimStepModel {
    Remove { name: Seq<char> },
    Link { name: Seq<char>, strategy: LinkStrategy, target: ShimTarget },
    Installed,
    Failed { name: Seq<char> },
}

impl View for ShimStep {
    type V = ShimStepModel;

    open spec fn view(&self) -> ShimStepModel {
        match self {
            ShimStep::Remove { name } => ShimStepModel::Remove { name: name@ },
            ShimStep::Link { name, strategy, target } => ShimStepModel::Link {
                name: name@,
                strategy: *strategy,
                target: *target,
            },
            ShimStep::Installed => ShimStepModel::Installed,
            ShimStep::Failed { name } => ShimStepModel::Failed { name: name@ },
        }
    }
}

impl ShimInstall {
    /// The installation before anything is done.
    pub open spec fn fresh(os: OsFamily, target: ShimTarget) -> ShimInstall {
        ShimInstall { os, target, installed: 0, tried: 0, clearing: true }
    }

    /// What is asked for in this state: the file in the way of the next
    /// shim is removed, then the shim is linked by the next strategy; when
    /// no shim is left, the installation is complete, and when no strategy
    /// is left for a shim, it has failed.
    pub open spec fn request(self) -> ShimStepModel {
        if self.installed >= shim_names(self.os).len() {
            ShimStepModel::Installed
        } else {
            let name = shim_names(self.os)[self.installed as int];
            if self.clearing {
                ShimStepModel::Remove { name }
            } else if self.tried < strategies(self.os).len() {
                ShimStepModel::Link {
                    name,
                    strategy: strategies(self.os)[self.tried as int],
                    target: self.target,
                }
            } else {
                ShimStepModel::Failed { name }
            }
        }
    }

    /// Whether nothing more is asked for in this state.
    pub open spec fn is_over(self) -> bool {
        self.request() is Installed || self.request() is Failed
    }

    /// The state after the driver has done what was asked for, with
    /// success or without. A removal leads to the first strategy whatever
    /// came of it; a link that succeeded leads to the next shim, one that
    /// failed to the next strategy.
    pub open spec fn after(self, ok: bool) -> ShimInstall {
        if self.is_over() {
            self
        } else if self.clearing {
            ShimInstall { clearing: false, tried: 0, ..self }
        } else if ok {
            ShimInstall { installed: (self.installed + 1) as usize, tried: 0, clearing: true, ..self }
        } else {
            ShimInstall { tried: (self.tried + 1) as usize, ..self }
        }
    }

    /// What is asked for in this state.
    pub fn current(&self) -> (step: ShimStep)
        ensures
            step@ == self.request(),
    {
        match shim_name_at(self.os, self.installed) {
            None => ShimStep::Installed,
            Some(name) => {
                if self.clearing {
                    ShimStep::Remove { name }
                } else {
                    match strategy_at(self.os, self.tried) {
                        Some(strategy) => ShimStep::Link { name, strategy, target: self.target },
                        None => ShimStep::Failed { name },
                    }
                }
            },
        }
    }

    /// Takes the outcome of what was asked for, and asks for the next
    /// thing.
    pub fn advance(&mut self, ok: bool) -> (step: ShimStep)
        ensures
            *final(self) == old(self).after(ok),
            step@ == final(self).request(),
    {
        let over = match self.current() {
            ShimStep::Installed => true,
            ShimStep::Failed { .. } => true,
            _ => false,
        };
        if over {
        } else if self.clearing {
            self.clearing = false;
            self.tried = 0;
        } else if ok {
            self.installed = self.installed + 1;
            self.tried = 0;
            self.clearing = true;
        } else {
            self.tried = self.tried + 1;
        }
        self.current()
    }
}

/// Begins the installation of the shims for `os`, which are to stand for
/// `target`.
pub fn update_core_shims(os: OsFamily, target: ShimTarget) -> (r: (ShimInstall, ShimStep))
    ensures
        r.0 == ShimInstall::fresh(os, target),
        r.1@ == r.0.request(),
{
    let install = ShimInstall { os, target, installed: 0, tried: 0, clearing: true };
    let step = install.current();
    (install, step)
}

/// Every shim is linked only after the file in its way was removed, the
/// strategies are tried in the order of the platform, and on Linux no shim
/// is ever a symlink.
pub proof fn lemma_shim_requests(s: ShimInstall)
    ensures
        s.request() matches ShimStepModel::Link { strategy, .. } ==> !s.clearing && strategy
            == strategies(s.os)[s.tried as int] && (s.os == OsFamily::Linux ==> strategy
            != LinkStrategy::Symlink),
        s.request() is Failed ==> s.tried >= strategies(s.os).len(),
        s.request() is Installed ==> s.installed >= shim_names(s.os).len(),
{
}

} // verus!
