use vstd::prelude::*;
use crate::text::{copy_opt, equal, less, same_opt, lex_less, opt_chars};
use crate::text::{lemma_lex_less_connected, lemma_lex_less_irreflexive, lemma_lex_less_transitive};

verus! {

/// The name of the reference implementation of the interpreter.
pub const REFERENCE_IMPLEMENTATION: &'static str = "cpython";

/// The oldest minor version of major version 3 that the private
/// environment can be built on.
pub const OLDEST_SUPPORTED_MINOR: u8 = 9;

/// The newest minor version of major version 3 that the private
/// environment can be built on. Revisited with every release.
pub const NEWEST_SUPPORTED_MINOR: u8 = 12;

/// The platform that interpreters are provisioned for.
#[derive(Debug, PartialEq, Eq)]
pub struct Host {
    pub arch: String,
    pub os: String,
}

/// What a [`Host`] stands for.
pub struct HostModel {
    pub arch: Seq<char>,
    pub os: Seq<char>,
}

impl View for Host {
    type V = HostModel;

    open spec fn view(&self) -> HostModel {
        HostModel { arch: self.arch@, os: self.os@ }
    }
}

impl Clone for Host {
    fn clone(&self) -> (r: Self)
        ensures
            r@ == self@,
    {
        Host { arch: self.arch.clone(), os: self.os.clone() }
    }
}

/// A concrete interpreter version. Two versions name the same directory on
/// disk exactly when all their fields are equal.
#[derive(Debug, PartialEq, Eq)]
pub struct PythonVersion {
    pub name: String,
    pub arch: String,
    pub os: String,
    pub major: u8,
    pub minor: u8,
    pub patch: u8,
    pub suffix: Option<String>,
}

/// What a [`PythonVersion`] stands for.
pub struct VersionModel {
    pub name: Seq<char>,
    pub arch: Seq<char>,
    pub os: Seq<char>,
    pub major: u8,
    pub minor: u8,
    pub patch: u8,
    pub suffix: Option<Seq<char>>,
}

impl View for PythonVersion {
    type V = VersionModel;

    open spec fn view(&self) -> VersionModel {
        VersionModel {
            name: self.name@,
            arch: self.arch@,
            os: self.os@,
            major: self.major,
            minor: self.minor,
            patch: self.patch,
            suffix: opt_chars(self.suffix),
        }
    }
}

impl DeepView for PythonVersion {
    type V = VersionModel;

    open spec fn deep_view(&self) -> VersionModel {
        self@
    }
}

impl Clone for PythonVersion {
    fn clone(&self) -> (r: Self)
        ensures
            r@ == self@,
    {
        PythonVersion {
            name: self.name.clone(),
            arch: self.arch.clone(),
            os: self.os.clone(),
            major: self.major,
            minor: self.minor,
            patch: self.patch,
            suffix: copy_opt(&self.suffix),
        }
    }
}

/// Whether an absent or present suffix comes before another: absent comes
/// first, and present suffixes are in dictionary order.
pub open spec fn suffix_before(a: Option<Seq<char>>, b: Option<Seq<char>>) -> bool {
    match (a, b) {
        (None, Some(_)) => true,
        (Some(x), Some(y)) => lex_less(x, y),
        _ => false,
    }
}

impl VersionModel {
    /// Whether the private environment can be built on this interpreter:
    /// the reference implementation, major version 3, and a minor version
    /// inside the supported window.
    pub open spec fn is_self_compatible(self) -> bool {
        &&& self.name == REFERENCE_IMPLEMENTATION@
        &&& self.major == 3
        &&& OLDEST_SUPPORTED_MINOR <= self.minor <= NEWEST_SUPPORTED_MINOR
    }

    /// Whether two versions have the same place in the canonical order:
    /// they agree on implementation, major, minor, patch and suffix.
    pub open spec fn same_rank(self, other: VersionModel) -> bool {
        &&& self.name == other.name
        &&& self.major == other.major
        &&& self.minor == other.minor
        &&& self.patch == other.patch
        &&& self.suffix == other.suffix
    }

    /// The canonical order: by implementation, then major, minor, patch,
    /// then suffix. Architecture and operating system play no part.
    pub open spec fn precedes(self, other: VersionModel) -> bool {
        if self.name != other.name {
            lex_less(self.name, other.name)
        } else if self.major != other.major {
            self.major < other.major
        } else if self.minor != other.minor {
            self.minor < other.minor
        } else if self.patch != other.patch {
            self.patch < other.patch
        } else {
            suffix_before(self.suffix, other.suffix)
        }
    }

    /// The request that names exactly this version.
    pub open spec fn as_request(self) -> RequestModel {
        RequestModel {
            name: self.name,
            arch: Some(self.arch),
            os: Some(self.os),
            major: self.major,
            minor: Some(self.minor),
            patch: Some(self.patch),
            suffix: self.suffix,
        }
    }
}

/// No version precedes one of its own rank.
pub proof fn lemma_precedes_irreflexive(a: VersionModel, b: VersionModel)
    requires
        a.same_rank(b),
    ensures
        !a.precedes(b),
{
    if let Some(s) = a.suffix {
        lemma_lex_less_irreflexive(s);
    }
}

/// The canonical order is transitive.
pub proof fn lemma_precedes_transitive(a: VersionModel, b: VersionModel, c: VersionModel)
    requires
        a.precedes(b),
        b.precedes(c),
    ensures
        a.precedes(c),
{
    if a.name != b.name {
        if b.name != c.name {
            lemma_lex_less_transitive(a.name, b.name, c.name);
        }
    } else if b.name != c.name {
    } else if a.major == b.major && b.major == c.major && a.minor == b.minor && b.minor
        == c.minor && a.patch == b.patch && b.patch == c.patch {
        match (a.suffix, b.suffix, c.suffix) {
            (Some(x), Some(y), Some(z)) => {
                lemma_lex_less_transitive(x, y, z);
            },
            _ => {},
        }
    }
    if a.name == c.name && a.name != b.name {
        lemma_lex_less_transitive(a.name, b.name, a.name);
        lemma_lex_less_irreflexive(a.name);
    }
}

/// The canonical order is total on ranks: of two versions of different
/// rank, one precedes the other.
pub proof fn lemma_precedes_connected(a: VersionModel, b: VersionModel)
    ensures
        a.same_rank(b) || a.precedes(b) || b.precedes(a),
{
    if a.name != b.name {
        lemma_lex_less_connected(a.name, b.name);
    } else if a.major == b.major && a.minor == b.minor && a.patch == b.patch {
        match (a.suffix, b.suffix) {
            (Some(x), Some(y)) => {
                lemma_lex_less_connected(x, y);
            },
            _ => {},
        }
    }
}

/// A version that precedes another is not of its rank, and is not preceded
/// by it.
pub proof fn lemma_precedes_asymmetric(a: VersionModel, b: VersionModel)
    requires
        a.precedes(b),
    ensures
        !b.precedes(a),
        !a.same_rank(b),
{
    if b.precedes(a) {
        lemma_precedes_transitive(a, b, a);
    }
    if a.same_rank(b) || b.precedes(a) {
        lemma_precedes_irreflexive(a, a);
        lemma_precedes_irreflexive(a, b);
    }
}

/// A query for interpreter versions. Absent fields leave the choice open,
/// except architecture and operating system, which then are the host's.
#[derive(Debug, PartialEq, Eq)]
pub struct PythonVersionRequest {
    pub name: String,
    pub arch: Option<String>,
    pub os: Option<String>,
    pub major: u8,
    pub minor: Option<u8>,
    pub patch: Option<u8>,
    pub suffix: Option<String>,
}

/// What a [`PythonVersionRequest`] stands for.
pub struct RequestModel {
    pub name: Seq<char>,
    pub arch: Option<Seq<char>>,
    pub os: Option<Seq<char>>,
    pub major: u8,
    pub minor: Option<u8>,
    pub patch: Option<u8>,
    pub suffix: Option<Seq<char>>,
}

impl View for PythonVersionRequest {
    type V = RequestModel;

    open spec fn view(&self) -> RequestModel {
        RequestModel {
            name: self.name@,
            arch: opt_chars(self.arch),
            os: opt_chars(self.os),
            major: self.major,
            minor: self.minor,
            patch: self.patch,
            suffix: opt_chars(self.suffix),
        }
    }
}

impl DeepView for PythonVersionRequest {
    type V = RequestModel;

    open spec fn deep_view(&self) -> RequestModel {
        self@
    }
}

impl Clone for PythonVersionRequest {
    fn clone(&self) -> (r: Self)
        ensures
            r@ == self@,
    {
        PythonVersionRequest {
            name: self.name.clone(),
            arch: copy_opt(&self.arch),
            os: copy_opt(&self.os),
            major: self.major,
            minor: self.minor,
            patch: self.patch,
            suffix: copy_opt(&self.suffix),
        }
    }
}

impl RequestModel {
    /// A request is concrete when major, minor and patch are all given.
    /// Only a concrete request names one directory on disk.
    pub open spec fn is_concrete(self) -> bool {
        self.minor is Some && self.patch is Some
    }

    /// The architecture asked for: the given one, else the host's.
    pub open spec fn arch_on(self, host: HostModel) -> Seq<char> {
        match self.arch {
            Some(a) => a,
            None => host.arch,
        }
    }

    /// The operating system asked for: the given one, else the host's.
    pub open spec fn os_on(self, host: HostModel) -> Seq<char> {
        match self.os {
            Some(o) => o,
            None => host.os,
        }
    }

    /// Whether `v` answers this request on `host`.
    pub open spec fn admits(self, v: VersionModel, host: HostModel) -> bool {
        &&& v.name == self.name
        &&& v.arch == self.arch_on(host)
        &&& v.os == self.os_on(host)
        &&& v.major == self.major
        &&& (self.minor matches Some(m) ==> v.minor == m)
        &&& (self.patch matches Some(p) ==> v.patch == p)
        &&& v.suffix == self.suffix
    }

    /// The one version that a concrete request names on `host`.
    pub open spec fn concretize(self, host: HostModel) -> Option<VersionModel> {
        if self.is_concrete() {
            Some(
                VersionModel {
                    name: self.name,
                    arch: self.arch_on(host),
                    os: self.os_on(host),
                    major: self.major,
                    minor: self.minor->0,
                    patch: self.patch->0,
                    suffix: self.suffix,
                },
            )
        } else {
            None
        }
    }
}

/// A concrete request admits the version that it names, and no other.
pub proof fn lemma_concrete_admits_one(r: RequestModel, v: VersionModel, host: HostModel)
    requires
        r.is_concrete(),
    ensures
        r.admits(v, host) <==> r.concretize(host) == Some(v),
{
}

/// Turning a version into a request and back gives the version again, on
/// every host.
pub proof fn lemma_request_round_trip(v: VersionModel, host: HostModel)
    ensures
        v.as_request().is_concrete(),
        v.as_request().concretize(host) == Some(v),
        v.as_request().admits(v, host),
{
}

/// The request that the private environment is built from when nothing
/// else is asked for and no suitable interpreter is installed: the newest
/// supported minor version of the reference implementation.
pub open spec fn self_target() -> RequestModel {
    RequestModel {
        name: REFERENCE_IMPLEMENTATION@,
        arch: None,
        os: None,
        major: 3,
        minor: Some(NEWEST_SUPPORTED_MINOR),
        patch: None,
        suffix: None,
    }
}

/// Every version that answers the default request is self-compatible.
pub proof fn lemma_self_target_is_compatible(v: VersionModel, host: HostModel)
    requires
        self_target().admits(v, host),
    ensures
        v.is_self_compatible(),
{
}

/// The request of [`self_target`].
pub fn self_python_target_version() -> (r: PythonVersionRequest)
    ensures
        r@ == self_target(),
{
    PythonVersionRequest {
        name: REFERENCE_IMPLEMENTATION.to_owned(),
        arch: None,
        os: None,
        major: 3,
        minor: Some(NEWEST_SUPPORTED_MINOR),
        patch: None,
        suffix: None,
    }
}

/// Whether the private environment can be built on `version`: only the
/// reference implementation from 3.9 to 3.12 is supported.
pub fn is_self_compatible_toolchain(version: &PythonVersion) -> (b: bool)
    ensures
        b == version@.is_self_compatible(),
        b <==> version.name@ == REFERENCE_IMPLEMENTATION@ && version.major == 3 && 9
            <= version.minor <= 12,
{
    equal(version.name.as_str(), REFERENCE_IMPLEMENTATION) && version.major == 3 && version.minor
        >= OLDEST_SUPPORTED_MINOR && version.minor <= NEWEST_SUPPORTED_MINOR
}

impl PythonVersion {
    /// Whether `self` comes before `other` in the canonical order.
    pub fn precedes(&self, other: &PythonVersion) -> (b: bool)
        ensures
            b == self@.precedes(other@),
    {
        if !equal(self.name.as_str(), other.name.as_str()) {
            less(self.name.as_str(), other.name.as_str())
        } else if self.major != other.major {
            self.major < other.major
        } else if self.minor != other.minor {
            self.minor < other.minor
        } else if self.patch != other.patch {
            self.patch < other.patch
        } else {
            match (&self.suffix, &other.suffix) {
                (None, Some(_)) => true,
                (Some(x), Some(y)) => less(x.as_str(), y.as_str()),
                _ => false,
            }
        }
    }

    /// Whether `self` and `other` are the same version in every field.
    pub fn same_as(&self, other: &PythonVersion) -> (b: bool)
        ensures
            b == (self@ == other@),
    {
        equal(self.name.as_str(), other.name.as_str()) && equal(
            self.arch.as_str(),
            other.arch.as_str(),
        ) && equal(self.os.as_str(), other.os.as_str()) && self.major == other.major
            && self.minor == other.minor && self.patch == other.patch && same_opt(
            &self.suffix,
            &other.suffix,
        )
    }

    /// The request that names exactly this version.
    pub fn to_request(&self) -> (r: PythonVersionRequest)
        ensures
            r@ == self@.as_request(),
    {
        PythonVersionRequest {
            name: self.name.clone(),
            arch: Some(self.arch.clone()),
            os: Some(self.os.clone()),
            major: self.major,
            minor: Some(self.minor),
            patch: Some(self.patch),
            suffix: copy_opt(&self.suffix),
        }
    }
}

impl PythonVersionRequest {
    /// Whether major, minor and patch are all given.
    pub fn is_concrete(&self) -> (b: bool)
        ensures
            b == self@.is_concrete(),
    {
        self.minor.is_some() && self.patch.is_some()
    }

    /// Whether `v` answers this request on `host`.
    pub fn admits(&self, v: &PythonVersion, host: &Host) -> (b: bool)
        ensures
            b == self@.admits(v@, host@),
    {
        let arch_fits = match &self.arch {
            Some(a) => equal(v.arch.as_str(), a.as_str()),
            None => equal(v.arch.as_str(), host.arch.as_str()),
        };
        let os_fits = match &self.os {
            Some(o) => equal(v.os.as_str(), o.as_str()),
            None => equal(v.os.as_str(), host.os.as_str()),
        };
        let minor_fits = match self.minor {
            Some(m) => v.minor == m,
            None => true,
        };
        let patch_fits = match self.patch {
            Some(p) => v.patch == p,
            None => true,
        };
        equal(v.name.as_str(), self.name.as_str()) && arch_fits && os_fits && v.major
            == self.major && minor_fits && patch_fits && same_opt(&v.suffix, &self.suffix)
    }

    /// The version that this request names on `host`, if it is concrete.
    pub fn concretize(&self, host: &Host) -> (r: Option<PythonVersion>)
        ensures
            r.deep_view() == self@.concretize(host@),
    {
        match (self.minor, self.patch) {
            (Some(minor), Some(patch)) => Some(
                PythonVersion {
                    name: self.name.clone(),
                    arch: match &self.arch {
                        Some(a) => a.clone(),
                        None => host.arch.clone(),
                    },
                    os: match &self.os {
                        Some(o) => o.clone(),
                        None => host.os.clone(),
                    },
                    major: self.major,
                    minor,
                    patch,
                    suffix: copy_opt(&self.suffix),
                },
            ),
            _ => None,
        }
    }
}

} // verus!
