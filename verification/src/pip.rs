use vstd::prelude::*;
use crate::error::ErrorKind;
use crate::platform::OsFamily;
use crate::text::{push_string, starts_with};

verus! {

/// The directory of an environment that holds its libraries.
pub const LIB_DIR: &'static str = "lib";

/// The directory below which an environment's packages are installed.
pub const SITE_PACKAGES_DIR: &'static str = "site-packages";

/// What the directories of interpreters below `lib` begin with.
pub const PYTHON_PREFIX: &'static str = "python";

/// The directory of the installer's package.
pub const PIP_DIR: &'static str = "pip";

/// The file that runs the installer.
pub const PIP_RUNNER: &'static str = "__pip-runner__.py";

/// What is known of one entry of an environment's `lib` directory.
#[derive(Debug, PartialEq, Eq)]
pub struct LibEntry {
    pub name: String,
    /// Whether the entry holds a directory named `site-packages`.
    pub has_site_packages: bool,
}

/// What a [`LibEntry`] stands for.
pub struct LibEntryModel {
    pub name: Seq<char>,
    pub has_site_packages: bool,
}

impl View for LibEntry {
    type V = LibEntryModel;

    open spec fn view(&self) -> LibEntryModel {
        LibEntryModel { name: self.name@, has_site_packages: self.has_site_packages }
    }
}

impl DeepView for LibEntry {
    type V = LibEntryModel;

    open spec fn deep_view(&self) -> LibEntryModel {
        self@
    }
}

/// Whether an entry is an interpreter's directory with packages in it.
pub open spec fn holds_packages(entry: LibEntryModel) -> bool {
    PYTHON_PREFIX@.is_prefix_of(entry.name) && entry.has_site_packages
}

/// The name of the first of `entries` that is an interpreter's directory
/// with packages in it.
pub open spec fn packages_home(entries: Seq<LibEntryModel>) -> Option<Seq<char>>
    decreases entries.len(),
{
    if entries.len() == 0 {
        None
    } else if holds_packages(entries[0]) {
        Some(entries[0].name)
    } else {
        packages_home(entries.drop_first())
    }
}

/// The path of the installer's package below an environment, segment by
/// segment. On Windows the packages lie right below `lib`; elsewhere they
/// lie in the first directory of an interpreter that holds any.
pub open spec fn pip_module_path(os: OsFamily, entries: Seq<LibEntryModel>) -> Option<
    Seq<Seq<char>>,
> {
    if os == OsFamily::Windows {
        Some(seq![LIB_DIR@, SITE_PACKAGES_DIR@, PIP_DIR@])
    } else {
        match packages_home(entries) {
            Some(name) => Some(seq![LIB_DIR@, name, SITE_PACKAGES_DIR@, PIP_DIR@]),
            None => None,
        }
    }
}

/// The path of the installer's package below the private environment,
/// given the entries of the environment's `lib` directory in the order in
/// which they were listed.
pub fn get_pip_module(os: OsFamily, entries: &Vec<LibEntry>) -> (r: Result<Vec<String>, ErrorKind>)
    ensures
        match pip_module_path(os, entries.deep_view()) {
            Some(path) => r matches Ok(p) && p.deep_view() == path,
            None => r matches Err(ErrorKind::NoSitePackages),
        },
{
    let mut path: Vec<String> = Vec::new();
    assert(path.deep_view() =~= Seq::<Seq<char>>::empty());
    push_string(&mut path, LIB_DIR.to_owned());
    if os.is_windows() {
        push_string(&mut path, SITE_PACKAGES_DIR.to_owned());
        push_string(&mut path, PIP_DIR.to_owned());
        assert(path.deep_view() =~= seq![LIB_DIR@, SITE_PACKAGES_DIR@, PIP_DIR@]);
        return Ok(path);
    }
    let ghost all = entries.deep_view();
    let mut i: usize = 0;
    assert(all.skip(0) =~= all);
    while i < entries.len()
        invariant
            i <= entries.len(),
            os != OsFamily::Windows,
            all == entries.deep_view(),
            packages_home(all) == packages_home(all.skip(i as int)),
            path.deep_view() =~= seq![LIB_DIR@],
        decreases entries.len() - i,
    {
        assert(all.skip(i as int)[0] == entries[i as int]@);
        if entries[i].has_site_packages && starts_with(entries[i].name.as_str(), PYTHON_PREFIX) {
            push_string(&mut path, entries[i].name.clone());
            push_string(&mut path, SITE_PACKAGES_DIR.to_owned());
            push_string(&mut path, PIP_DIR.to_owned());
            assert(path.deep_view() =~= seq![
                LIB_DIR@,
                entries[i as int].name@,
                SITE_PACKAGES_DIR@,
                PIP_DIR@,
            ]);
            return Ok(path);
        }
        assert(all.skip(i as int).drop_first() =~= all.skip(i + 1));
        i += 1;
    }
    Err(ErrorKind::NoSitePackages)
}

/// The path of the file that runs the installer, below the private
/// environment: the runner inside the installer's package.
pub fn get_pip_runner(os: OsFamily, entries: &Vec<LibEntry>) -> (r: Result<Vec<String>, ErrorKind>)
    ensures
        match pip_module_path(os, entries.deep_view()) {
            Some(path) => r matches Ok(p) && p.deep_view() == path.push(PIP_RUNNER@),
            None => r matches Err(ErrorKind::NoSitePackages),
        },
{
    match get_pip_module(os, entries) {
        Ok(mut path) => {
            push_string(&mut path, PIP_RUNNER.to_owned());
            Ok(path)
        },
        Err(e) => Err(e),
    }
}

} // verus!
