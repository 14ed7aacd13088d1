use rye_bootstrap::catalog::{
    get_download_url, latest_available_python_version, latest_compatible_installed, CatalogEntry,
};
use rye_bootstrap::version::{Host, PythonVersion, PythonVersionRequest};

fn version(arch: &str, minor: u8, patch: u8) -> PythonVersion {
    PythonVersion {
        name: "cpython".to_string(),
        arch: arch.to_string(),
        os: "linux".to_string(),
        major: 3,
        minor,
        patch,
        suffix: None,
    }
}

fn entry(arch: &str, minor: u8, patch: u8, tag: &str) -> CatalogEntry {
    CatalogEntry {
        version: version(arch, minor, patch),
        url: format!("https://example.com/{}/{}.{}/{}", arch, minor, patch, tag),
        sha256: if tag == "bare" { None } else { Some(format!("digest-{}", tag)) },
    }
}

fn catalog() -> Vec<CatalogEntry> {
    vec![
        entry("x86_64", 11, 3, "a"),
        entry("aarch64", 12, 5, "b"),
        entry("x86_64", 12, 0, "c"),
        entry("x86_64", 12, 1, "d"),
        entry("x86_64", 12, 1, "e"),
        entry("x86_64", 10, 9, "bare"),
        entry("x86_64", 13, 0, "f"),
    ]
}

fn host() -> Host {
    Host { arch: "x86_64".to_string(), os: "linux".to_string() }
}

fn request(minor: Option<u8>, patch: Option<u8>) -> PythonVersionRequest {
    PythonVersionRequest {
        name: "cpython".to_string(),
        arch: None,
        os: None,
        major: 3,
        minor,
        patch,
        suffix: None,
    }
}

#[test]
fn resolve_takes_the_first_match() {
    let catalog = catalog();
    assert_eq!(get_download_url(&catalog, &request(Some(12), None), &host()), Some(&catalog[2]));
    assert_eq!(get_download_url(&catalog, &request(None, None), &host()), Some(&catalog[0]));
    assert_eq!(get_download_url(&catalog, &request(Some(12), Some(1)), &host()), Some(&catalog[3]));
    assert_eq!(get_download_url(&catalog, &request(Some(10), None), &host()), Some(&catalog[5]));
    assert_eq!(catalog[5].sha256, None);
}

#[test]
fn resolve_knows_what_it_does_not_have() {
    let catalog = catalog();
    assert_eq!(get_download_url(&catalog, &request(Some(9), None), &host()), None);
    assert_eq!(get_download_url(&catalog, &request(Some(12), Some(5)), &host()), None);
    assert_eq!(get_download_url(&vec![], &request(None, None), &host()), None);
    let mut pypy = request(None, None);
    pypy.name = "pypy".to_string();
    assert_eq!(get_download_url(&catalog, &pypy, &host()), None);
}

#[test]
fn resolve_honours_an_explicit_platform() {
    let catalog = catalog();
    let mut wanted = request(Some(12), None);
    wanted.arch = Some("aarch64".to_string());
    assert_eq!(get_download_url(&catalog, &wanted, &host()), Some(&catalog[1]));
    wanted.os = Some("macos".to_string());
    assert_eq!(get_download_url(&catalog, &wanted, &host()), None);
}

#[test]
fn latest_takes_the_greatest_match() {
    let catalog = catalog();
    assert_eq!(
        latest_available_python_version(&catalog, &request(Some(12), None), &host()),
        Some(version("x86_64", 12, 1))
    );
    assert_eq!(
        latest_available_python_version(&catalog, &request(None, None), &host()),
        Some(version("x86_64", 13, 0))
    );
    assert_eq!(
        latest_available_python_version(&catalog, &request(Some(11), None), &host()),
        Some(version("x86_64", 11, 3))
    );
    assert_eq!(latest_available_python_version(&catalog, &request(Some(9), None), &host()), None);
    assert_eq!(latest_available_python_version(&vec![], &request(None, None), &host()), None);
}

#[test]
fn resolve_and_latest_agree_on_concrete_requests() {
    let catalog = catalog();
    for minor in 8..=14 {
        for patch in 0..=10 {
            for arch in [None, Some("x86_64"), Some("aarch64")] {
                let mut wanted = request(Some(minor), Some(patch));
                wanted.arch = arch.map(|a| a.to_string());
                let resolved = get_download_url(&catalog, &wanted, &host()).map(|e| e.version.clone());
                let latest = latest_available_python_version(&catalog, &wanted, &host());
                assert_eq!(resolved, latest, "{:?}", wanted);
            }
        }
    }
    let picked = get_download_url(&catalog, &request(Some(12), Some(1)), &host()).unwrap();
    assert_eq!(picked.url, "https://example.com/x86_64/12.1/d");
}

#[test]
fn resolve_and_latest_may_differ_on_open_requests() {
    let catalog = catalog();
    let open = request(Some(12), None);
    assert_eq!(get_download_url(&catalog, &open, &host()).unwrap().version, version("x86_64", 12, 0));
    assert_eq!(
        latest_available_python_version(&catalog, &open, &host()),
        Some(version("x86_64", 12, 1))
    );
}

#[test]
fn preferred_installed_is_the_greatest_compatible() {
    let installed = vec![
        version("x86_64", 13, 1),
        version("x86_64", 10, 2),
        version("x86_64", 12, 0),
        version("x86_64", 11, 9),
        version("x86_64", 8, 0),
    ];
    assert_eq!(latest_compatible_installed(&installed), Some(version("x86_64", 12, 0)));
}

#[test]
fn preferred_installed_of_equal_rank_is_the_last() {
    let installed =
        vec![version("x86_64", 12, 1), version("aarch64", 12, 1), version("riscv64", 12, 0)];
    assert_eq!(latest_compatible_installed(&installed), Some(version("aarch64", 12, 1)));
    let reversed: Vec<_> = installed.iter().rev().cloned().collect();
    assert_eq!(latest_compatible_installed(&reversed), Some(version("x86_64", 12, 1)));
}

#[test]
fn nothing_compatible_installed_gives_nothing() {
    assert_eq!(latest_compatible_installed(&vec![]), None);
    let mut pypy = version("x86_64", 10, 0);
    pypy.name = "pypy".to_string();
    let installed = vec![version("x86_64", 8, 18), version("x86_64", 13, 0), pypy];
    assert_eq!(latest_compatible_installed(&installed), None);
}
