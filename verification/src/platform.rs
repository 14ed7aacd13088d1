use vstd::prelude::*;

verus! {

/// The directory of the private environment, below the app directory.
pub const SELF_VENV_DIR: &'static str = "self";

/// The marker file inside the private environment: one decimal number.
pub const TOOL_VERSION_FILE: &'static str = "tool-version.txt";

/// The directory of the shims, below the app directory.
pub const SHIMS_DIR: &'static str = "shims";

/// The directory below which every version of the helper has its own.
pub const HELPERS_DIR: &'static str = "uv";

/// The directory below which every interpreter has its own.
pub const INTERPRETERS_DIR: &'static str = "py";

/// The operating-system families whose provisioning differs.
#[derive(Clone, Copy, Debug, PartialEq, Eq, Structural)]
pub enum OsFamily {
    Linux,
    /// A Unix that is not Linux.
    OtherUnix,
    Windows,
}

impl OsFamily {
    /// Whether interpreters are inspected for missing shared libraries here.
    pub open spec fn inspects_libraries(self) -> bool {
        self == OsFamily::Linux
    }

    /// Whether the native TLS stack checks certificate revocation by
    /// default, which breaks behind inspecting proxies.
    pub open spec fn checks_revocation_by_default(self) -> bool {
        self == OsFamily::Windows
    }

    pub fn is_linux(self) -> (b: bool)
        ensures
            b == self.inspects_libraries(),
    {
        self == OsFamily::Linux
    }

    pub fn is_windows(self) -> (b: bool)
        ensures
            b == self.checks_revocation_by_default(),
    {
        self == OsFamily::Windows
    }
}

} // verus!
