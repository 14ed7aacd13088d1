use vstd::prelude::*;
use crate::text::{copy_opt, opt_chars};
use crate::version::{
    is_self_compatible_toolchain, lemma_concrete_admits_one, lemma_precedes_asymmetric,
    lemma_precedes_connected, lemma_precedes_irreflexive, lemma_precedes_transitive, Host,
    HostModel, PythonVersion, PythonVersionRequest, RequestModel, VersionModel,
};

verus! {

/// One interpreter distribution that can be downloaded.
#[derive(Debug, PartialEq, Eq)]
pub struct CatalogEntry {
    pub version: PythonVersion,
    /// Where the archive is; an absolute HTTPS URL.
    pub url: String,
    /// The SHA-256 of the archive in hex, where the publisher gave one.
    pub sha256: Option<String>,
}

/// What a [`CatalogEntry`] stands for.
pub struct EntryModel {
    pub version: VersionModel,
    pub url: Seq<char>,
    pub sha256: Option<Seq<char>>,
}

impl View for CatalogEntry {
    type V = EntryModel;

    open spec fn view(&self) -> EntryModel {
        EntryModel { version: self.version@, url: self.url@, sha256: opt_chars(self.sha256) }
    }
}

impl DeepView for CatalogEntry {
    type V = EntryModel;

    open spec fn deep_view(&self) -> EntryModel {
        self@
    }
}

impl Clone for CatalogEntry {
    fn clone(&self) -> (r: Self)
        ensures
            r@ == self@,
    {
        CatalogEntry {
            version: self.version.clone(),
            url: self.url.clone(),
            sha256: copy_opt(&self.sha256),
        }
    }
}

/// The first entry of `entries` whose version answers `request` on `host`.
pub open spec fn resolve(entries: Seq<EntryModel>, request: RequestModel, host: HostModel)
    -> Option<EntryModel>
    decreases entries.len(),
{
    if entries.len() == 0 {
        None
    } else if request.admits(entries[0].version, host) {
        Some(entries[0])
    } else {
        resolve(entries.drop_first(), request, host)
    }
}

/// Whether some entry of `entries` answers `request` on `host`.
pub open spec fn offers(entries: Seq<EntryModel>, request: RequestModel, host: HostModel)
    -> bool {
    exists|i: int| 0 <= i < entries.len() && request.admits(#[trigger] entries[i].version, host)
}

/// Whether `v` is the greatest version in `entries` that answers `request`
/// on `host`: it is offered, and no offered version comes after it in the
/// canonical order.
pub open spec fn is_latest(
    entries: Seq<EntryModel>,
    request: RequestModel,
    host: HostModel,
    v: VersionModel,
) -> bool {
    &&& request.admits(v, host)
    &&& exists|i: int| 0 <= i < entries.len() && (#[trigger] entries[i]).version == v
    &&& forall|j: int|
        0 <= j < entries.len() && request.admits(#[trigger] entries[j].version, host)
            ==> !v.precedes(entries[j].version)
}

/// The greatest version in `entries` that answers `request` on `host`, if
/// any does.
pub open spec fn latest(entries: Seq<EntryModel>, request: RequestModel, host: HostModel)
    -> Option<VersionModel> {
    if exists|v: VersionModel| is_latest(entries, request, host, v) {
        Some(choose|v: VersionModel| is_latest(entries, request, host, v))
    } else {
        None
    }
}

/// What [`resolve`] finds is an entry of the catalog that answers the
/// request, and it finds one whenever one is offered.
pub proof fn lemma_resolve_finds(entries: Seq<EntryModel>, request: RequestModel, host: HostModel)
    ensures
        resolve(entries, request, host) is Some <==> offers(entries, request, host),
        resolve(entries, request, host) matches Some(e) ==> request.admits(e.version, host)
            && exists|i: int| 0 <= i < entries.len() && #[trigger] entries[i] == e,
    decreases entries.len(),
{
    if entries.len() > 0 {
        let rest = entries.drop_first();
        lemma_resolve_finds(rest, request, host);
        if request.admits(entries[0].version, host) {
        } else {
            if offers(rest, request, host) {
                let i = choose|i: int|
                    0 <= i < rest.len() && request.admits(#[trigger] rest[i].version, host);
                assert(entries[i + 1] == rest[i]);
            }
            if offers(entries, request, host) {
                let i = choose|i: int|
                    0 <= i < entries.len() && request.admits(
                        #[trigger] entries[i].version,
                        host,
                    );
                assert(rest[i - 1] == entries[i]);
            }
            if let Some(e) = resolve(rest, request, host) {
                let i = choose|i: int| 0 <= i < rest.len() && #[trigger] rest[i] == e;
                assert(entries[i + 1] == e);
            }
        }
    }
}

/// There is at most one greatest version: whatever answers a request has
/// the request's implementation, architecture and operating system, so two
/// answers of the same rank are the same version.
pub proof fn lemma_latest_is_unique(
    entries: Seq<EntryModel>,
    request: RequestModel,
    host: HostModel,
    v: VersionModel,
    w: VersionModel,
)
    requires
        is_latest(entries, request, host, v),
        is_latest(entries, request, host, w),
    ensures
        v == w,
{
    lemma_precedes_connected(v, w);
}

/// For a concrete request, resolving and asking for the latest match agree
/// on the version: the entry that is resolved holds the latest matching
/// version, and a latest matching version exists only if an entry is
/// resolved.
pub proof fn lemma_resolve_agrees_with_latest(
    entries: Seq<EntryModel>,
    request: RequestModel,
    host: HostModel,
)
    requires
        request.is_concrete(),
    ensures
        resolve(entries, request, host) matches Some(e) ==> is_latest(
            entries,
            request,
            host,
            e.version,
        ),
        forall|v: VersionModel| #[trigger]
            is_latest(entries, request, host, v) ==> resolve(entries, request, host) is Some
                && resolve(entries, request, host)->0.version == v,
{
    lemma_resolve_finds(entries, request, host);
    if let Some(e) = resolve(entries, request, host) {
        assert forall|j: int|
            0 <= j < entries.len() && request.admits(#[trigger] entries[j].version, host)
                implies !e.version.precedes(entries[j].version) by {
            lemma_concrete_admits_one(request, entries[j].version, host);
            lemma_concrete_admits_one(request, e.version, host);
            lemma_precedes_irreflexive(e.version, e.version);
        }
    }
    assert forall|v: VersionModel| #[trigger]
        is_latest(entries, request, host, v) implies resolve(entries, request, host) is Some
        && resolve(entries, request, host)->0.version == v by {
        let e = resolve(entries, request, host)->0;
        lemma_concrete_admits_one(request, v, host);
        lemma_concrete_admits_one(request, e.version, host);
    }
}

/// Maps a request to what is to be downloaded for it: the first entry of
/// the catalog that answers the request on `host`.
pub fn get_download_url<'a>(
    catalog: &'a Vec<CatalogEntry>,
    request: &PythonVersionRequest,
    host: &Host,
) -> (r: Option<&'a CatalogEntry>)
    ensures
        r.deep_view() == resolve(catalog.deep_view(), request@, host@),
{
    let ghost all = catalog.deep_view();
    let mut i: usize = 0;
    assert(all.skip(0) =~= all);
    while i < catalog.len()
        invariant
            i <= catalog.len(),
            all == catalog.deep_view(),
            resolve(all, request@, host@) == resolve(all.skip(i as int), request@, host@),
        decreases catalog.len() - i,
    {
        assert(all.skip(i as int)[0] == catalog[i as int]@);
        if request.admits(&catalog[i].version, host) {
            return Some(&catalog[i]);
        }
        assert(all.skip(i as int).drop_first() =~= all.skip(i + 1));
        i += 1;
    }
    None
}

/// The greatest version in the catalog that answers `request` on `host`,
/// under the canonical order; nothing where the catalog offers none.
pub fn latest_available_python_version(
    catalog: &Vec<CatalogEntry>,
    request: &PythonVersionRequest,
    host: &Host,
) -> (r: Option<PythonVersion>)
    ensures
        r.deep_view() == latest(catalog.deep_view(), request@, host@),
        r matches Some(v) ==> is_latest(catalog.deep_view(), request@, host@, v@),
        r is None ==> !offers(catalog.deep_view(), request@, host@),
{
    let ghost all = catalog.deep_view();
    let mut best: Option<usize> = None;
    let mut i: usize = 0;
    while i < catalog.len()
        invariant
            i <= catalog.len(),
            all == catalog.deep_view(),
            match best {
                Some(b) => b < i && request@.admits(all[b as int].version, host@) && forall|
                    j: int,
                |
                    0 <= j < i && request@.admits(#[trigger] all[j].version, host@)
                        ==> !all[b as int].version.precedes(all[j].version),
                None => forall|j: int|
                    0 <= j < i ==> !request@.admits(#[trigger] all[j].version, host@),
            },
        decreases catalog.len() - i,
    {
        assert(all[i as int] == catalog[i as int]@);
        if request.admits(&catalog[i].version, host) {
            match best {
                Some(b) => {
                    assert(all[b as int] == catalog[b as int]@);
                    if catalog[b].version.precedes(&catalog[i].version) {
                        proof {
                            let top = all[i as int].version;
                            lemma_precedes_irreflexive(top, top);
                            assert forall|j: int|
                                0 <= j < i + 1 && request@.admits(
                                    #[trigger] all[j].version,
                                    host@,
                                ) implies !top.precedes(all[j].version) by {
                                if top.precedes(all[j].version) {
                                    lemma_precedes_transitive(
                                        all[b as int].version,
                                        top,
                                        all[j].version,
                                    );
                                }
                            }
                        }
                        best = Some(i);
                    }
                },
                None => {
                    proof {
                        lemma_precedes_irreflexive(all[i as int].version, all[i as int].version);
                    }
                    best = Some(i);
                },
            }
        }
        i += 1;
    }
    match best {
        Some(b) => {
            assert(all[b as int] == catalog[b as int]@);
            let v = catalog[b].version.clone();
            proof {
                assert(is_latest(all, request@, host@, v@));
                let w = choose|w: VersionModel| is_latest(all, request@, host@, w);
                lemma_latest_is_unique(all, request@, host@, v@, w);
            }
            Some(v)
        },
        None => {
            assert forall|v: VersionModel| !is_latest(all, request@, host@, v) by {
                if is_latest(all, request@, host@, v) {
                    let i = choose|i: int| 0 <= i < all.len() && (#[trigger] all[i]).version == v;
                    assert(request@.admits(all[i].version, host@));
                }
            }
            None
        },
    }
}

/// Whether `v` is the installed version to build the private environment
/// on: the last of `installed` that is self-compatible and that no other
/// self-compatible installed version comes after in the canonical order.
pub open spec fn is_preferred(installed: Seq<VersionModel>, i: int) -> bool {
    &&& 0 <= i < installed.len()
    &&& installed[i].is_self_compatible()
    &&& forall|j: int|
        0 <= j < installed.len() && (#[trigger] installed[j]).is_self_compatible()
            ==> !installed[i].precedes(installed[j])
    &&& forall|j: int|
        i < j < installed.len() && (#[trigger] installed[j]).is_self_compatible()
            ==> installed[j].precedes(installed[i])
}

/// There is at most one preferred installed version.
pub proof fn lemma_preferred_is_unique(installed: Seq<VersionModel>, i: int, j: int)
    requires
        is_preferred(installed, i),
        is_preferred(installed, j),
    ensures
        i == j,
{
}

/// The installed version to build the private environment on, if a
/// self-compatible one is installed.
pub open spec fn preferred(installed: Seq<VersionModel>) -> Option<VersionModel> {
    if exists|i: int| is_preferred(installed, i) {
        Some(installed[choose|i: int| is_preferred(installed, i)])
    } else {
        None
    }
}

/// The installed version that the private environment is built on, if
/// there is a self-compatible one: the greatest under the canonical order,
/// and of several of the same rank the one listed last.
pub fn latest_compatible_installed(installed: &Vec<PythonVersion>) -> (r: Option<PythonVersion>)
    ensures
        r.deep_view() == preferred(installed.deep_view()),
        r matches Some(v) ==> v@.is_self_compatible(),
        r is None ==> forall|j: int|
            0 <= j < installed.len() ==> !(#[trigger] installed[j])@.is_self_compatible(),
{
    let ghost all = installed.deep_view();
    let mut best: Option<usize> = None;
    let mut i: usize = 0;
    while i < installed.len()
        invariant
            i <= installed.len(),
            all == installed.deep_view(),
            match best {
                Some(b) => b < i && all[b as int].is_self_compatible() && (forall|j: int|
                    0 <= j < i && (#[trigger] all[j]).is_self_compatible()
                        ==> !all[b as int].precedes(all[j])) && (forall|j: int|
                    b < j < i && (#[trigger] all[j]).is_self_compatible() ==> all[j].precedes(
                        all[b as int],
                    )),
                None => forall|j: int| 0 <= j < i ==> !(#[trigger] all[j]).is_self_compatible(),
            },
        decreases installed.len() - i,
    {
        assert(all[i as int] == installed[i as int]@);
        if is_self_compatible_toolchain(&installed[i]) {
            match best {
                Some(b) => {
                    assert(all[b as int] == installed[b as int]@);
                    if !installed[i].precedes(&installed[b]) {
                        proof {
                            let top = all[i as int];
                            let old_top = all[b as int];
                            lemma_precedes_connected(top, old_top);
                            assert forall|j: int|
                                0 <= j < i + 1 && (#[trigger] all[j]).is_self_compatible()
                                    implies !top.precedes(all[j]) by {
                                if top.precedes(all[j]) {
                                    if j == i {
                                        lemma_precedes_irreflexive(top, top);
                                    } else if top.same_rank(old_top) {
                                        assert(old_top.precedes(all[j]));
                                    } else {
                                        lemma_precedes_transitive(old_top, top, all[j]);
                                    }
                                }
                            }
                        }
                        best = Some(i);
                    } else {
                        proof {
                            lemma_precedes_asymmetric(all[i as int], all[b as int]);
                        }
                    }
                },
                None => {
                    proof {
                        lemma_precedes_irreflexive(all[i as int], all[i as int]);
                    }
                    best = Some(i);
                },
            }
        }
        i += 1;
    }
    match best {
        Some(b) => {
            assert(all[b as int] == installed[b as int]@);
            proof {
                assert(is_preferred(all, b as int));
                let c = choose|c: int| is_preferred(all, c);
                lemma_preferred_is_unique(all, b as int, c);
            }
            Some(installed[b].clone())
        },
        None => {
            assert forall|j: int| 0 <= j < installed.len() implies !(
            #[trigger] installed[j])@.is_self_compatible() by {
                assert(all[j] == installed[j]@);
            }
            None
        },
    }
}

} // verus!
