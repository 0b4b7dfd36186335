//! Path derivation, identity, option decoding and lock naming.

use pyapp::app;
use pyapp::config::Config;
use pyapp::fs_utils::LockTable;
use pyapp::identity::{compute_identity, identity_label, IdentitySource};

fn cfg() -> Config {
    Config {
        project_name: "demo-app".to_string(),
        project_version: "1.2.3".to_string(),
        distribution_id: "12345".to_string(),
        distribution_source: "https://example.invalid/cpython.tar.zst".to_string(),
        distribution_format: "tar|zstd".to_string(),
        distribution_python_path: "python/bin/python3".to_string(),
        distribution_pip_available: true,
        installation_python_path: "bin/python3".to_string(),
        installation_site_packages_path: "lib/python3.12/site-packages".to_string(),
        embedded_distribution: Vec::new(),
        embedded_project: Vec::new(),
        exec_module: "demo".to_string(),
        exec_code: String::new(),
        exec_script: String::new(),
        exec_script_id: String::new(),
        exec_script_name: String::new(),
        exec_notebook: String::new(),
        exec_notebook_id: String::new(),
        exec_notebook_name: String::new(),
        pip_project_features: String::new(),
        pip_extra_args: String::new(),
        pip_allow_config: false,
        pip_version: "latest".to_string(),
        pip_external: false,
        uv_enabled: false,
        uv_only_bootstrap: false,
        uv_version: "any".to_string(),
        uv_artifact_name: "uv-x86_64-unknown-linux-gnu.tar.gz".to_string(),
        is_gui: false,
        full_isolation: false,
        upgrade_virtualenv: false,
        skip_install: false,
        allow_updates: false,
        pass_location: false,
        metadata_template: "{project} v{version}".to_string(),
        exposed_command: String::new(),
        python_isolation_flag: "-I".to_string(),
        project_dependency_file: String::new(),
        project_dependency_file_name: "requirements.txt".to_string(),
        project_embed_file_name: String::new(),
        windows: false,
        data_root: "/home/user/.local/share/pyapp".to_string(),
        cache_root: "/home/user/.cache/pyapp".to_string(),
        install_dir_override: String::new(),
    }
}

#[test]
fn install_dir_is_derived_from_identity() {
    let c = cfg();
    assert_eq!(
        app::install_dir(&c),
        "/home/user/.local/share/pyapp/demo-app/12345/1.2.3"
    );
}

#[test]
fn install_dir_override_wins() {
    let mut c = cfg();
    c.install_dir_override = "/opt/demo".to_string();
    assert_eq!(app::install_dir(&c), "/opt/demo");
}

#[test]
fn python_path_is_inside_installation() {
    let c = cfg();
    assert_eq!(
        app::python_path(&c),
        "/home/user/.local/share/pyapp/demo-app/12345/1.2.3/bin/python3"
    );
}

#[test]
fn pythonw_path_replaces_executable_name() {
    let mut c = cfg();
    c.installation_python_path = "python\\python.exe".to_string();
    c.windows = true;
    assert_eq!(
        app::pythonw_path(&c),
        "/home/user/.local/share/pyapp/demo-app/12345/1.2.3/python\\pythonw.exe"
    );
}

#[test]
fn site_packages_path_is_inside_installation() {
    let c = cfg();
    assert_eq!(
        app::site_packages_path(&c),
        "/home/user/.local/share/pyapp/demo-app/12345/1.2.3/lib/python3.12/site-packages"
    );
}

#[test]
fn cache_layout() {
    let c = cfg();
    assert_eq!(app::cache_dir(&c), "/home/user/.cache/pyapp");
    assert_eq!(app::distributions_cache(&c), "/home/user/.cache/pyapp/distributions");
    assert_eq!(
        app::distribution_file(&c),
        "/home/user/.cache/pyapp/distributions/12345"
    );
    assert_eq!(
        app::unpacked_distribution(&c),
        "/home/user/.cache/pyapp/distributions/_12345"
    );
    assert_eq!(app::external_pip_cache(&c), "/home/user/.cache/pyapp/pip");
    assert_eq!(app::managed_uv_cache(&c), "/home/user/.cache/pyapp/uv/any");
}

#[test]
fn pip_zipapp_name_latest_and_pinned() {
    let mut c = cfg();
    assert_eq!(app::pip_zipapp_name(&c), "pip.pyz");
    assert_eq!(app::external_pip_zipapp(&c), "/home/user/.cache/pyapp/pip/pip.pyz");
    c.pip_version = "23.1".to_string();
    assert_eq!(app::pip_zipapp_name(&c), "pip-23.1.pyz");
    assert_eq!(
        app::external_pip_zipapp(&c),
        "/home/user/.cache/pyapp/pip/pip-23.1.pyz"
    );
}

#[test]
fn uv_binary_name_depends_on_artifact_kind() {
    let mut c = cfg();
    assert_eq!(app::uv_binary_name(&c), "uv");
    assert_eq!(app::managed_uv(&c), "/home/user/.cache/pyapp/uv/any/uv");
    c.uv_artifact_name = "uv-pc-windows-msvc.zip".to_string();
    assert_eq!(app::uv_binary_name(&c), "uv.exe");
    assert_eq!(app::managed_uv(&c), "/home/user/.cache/pyapp/uv/any/uv.exe");
}

#[test]
fn uv_as_installer_requires_full_role() {
    let mut c = cfg();
    assert!(!app::uv_as_installer(&c));
    c.uv_enabled = true;
    assert!(app::uv_as_installer(&c));
    c.uv_only_bootstrap = true;
    assert!(!app::uv_as_installer(&c));
}

#[test]
fn lock_names_identify_resources() {
    let c = cfg();
    assert_eq!(
        app::installation_lock(&c),
        "/home/user/.cache/pyapp/locks/installation-demo-app-12345-1.2.3"
    );
    assert_eq!(
        app::installer_lock(&c, "pip", "pip.pyz"),
        "/home/user/.cache/pyapp/locks/installer-pip-pip.pyz"
    );
    assert_eq!(
        app::installer_lock(&c, "uv", "0.4.0"),
        "/home/user/.cache/pyapp/locks/installer-uv-0.4.0"
    );
}

#[test]
fn distinct_artifact_locks_do_not_block_each_other() {
    let c = cfg();
    let a = app::installer_lock(&c, "uv", "0.4.0");
    let b = app::installer_lock(&c, "uv", "0.5.1");
    assert_ne!(a, b);
    let mut table = LockTable::new();
    assert!(table.acquire(&a));
    // A different artifact key is granted at once while the first is held.
    assert!(table.acquire(&b));
    // The same key is refused until released.
    assert!(!table.acquire(&a));
    table.release(&a);
    assert!(table.acquire(&a));
    table.release(&a);
    table.release(&b);
}

#[test]
fn identity_is_deterministic() {
    let bytes = b"some archive bytes".to_vec();
    let a = compute_identity(&IdentitySource::Archive(bytes.clone()));
    let b = compute_identity(&IdentitySource::Archive(bytes));
    assert_eq!(a, b);
    let l1 = compute_identity(&IdentitySource::Locator("https://example.invalid/a".to_string()));
    let l2 = compute_identity(&IdentitySource::Locator("https://example.invalid/a".to_string()));
    assert_eq!(l1, l2);
}

#[test]
fn identity_distinguishes_distribution_locators() {
    // A sample of realistic runtime source locators: all fingerprints
    // must be pairwise distinct.
    let locators = [
        "https://github.com/astral-sh/python-build-standalone/releases/download/20240415/cpython-3.12.3%2B20240415-x86_64-unknown-linux-gnu-install_only.tar.gz",
        "https://github.com/astral-sh/python-build-standalone/releases/download/20240415/cpython-3.12.3%2B20240415-aarch64-apple-darwin-install_only.tar.gz",
        "https://github.com/astral-sh/python-build-standalone/releases/download/20240415/cpython-3.11.9%2B20240415-x86_64-unknown-linux-gnu-install_only.tar.gz",
        "https://github.com/astral-sh/python-build-standalone/releases/download/20240415/cpython-3.12.3%2B20240415-x86_64-pc-windows-msvc-install_only.tar.gz",
        "https://downloads.python.org/pypy/pypy3.10-v7.3.15-linux64.tar.bz2",
    ];
    let mut ids = Vec::new();
    for l in locators {
        ids.push(compute_identity(&IdentitySource::Locator(l.to_string())));
    }
    for i in 0..ids.len() {
        for j in 0..ids.len() {
            if i != j {
                assert_ne!(ids[i], ids[j]);
            }
        }
    }
}

#[test]
fn identity_distinguishes_archive_from_locator() {
    let text = "https://example.invalid/a";
    let a = compute_identity(&IdentitySource::Archive(text.as_bytes().to_vec()));
    let l = compute_identity(&IdentitySource::Locator(text.to_string()));
    assert_ne!(a, l);
}

#[test]
fn identity_label_is_decimal() {
    assert_eq!(identity_label(0), "0");
    assert_eq!(identity_label(9), "9");
    assert_eq!(identity_label(1234567890123456789), "1234567890123456789");
    assert_eq!(identity_label(u64::MAX), "18446744073709551615");
}

#[test]
fn decode_option_decodes_base64_text() {
    assert_eq!(app::decode_option("aGVsbG8").unwrap(), "hello");
    assert_eq!(
        app::decode_option("cmVxdWVzdHM9PTIuMzEuMA").unwrap(),
        "requests==2.31.0"
    );
}

#[test]
fn decode_option_rejects_invalid_base64() {
    assert_eq!(
        app::decode_option("!!!").unwrap_err(),
        app::DecodeError::InvalidBase64
    );
}

#[test]
fn decode_option_rejects_invalid_text() {
    // "/w" decodes to the single byte 0xff, which is not valid UTF-8.
    assert_eq!(
        app::decode_option("/w").unwrap_err(),
        app::DecodeError::InvalidUtf8
    );
}
