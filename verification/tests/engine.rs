//! The materialization engine: plans, idempotence, atomic caching,
//! racing processes, rollback, restore, and the launch scenario.

use pyapp::commands::self_cmd::restore;
use pyapp::commands::self_cmd::update;
use pyapp::config::Config;
use pyapp::distribution::{
    apply_plan_exec, check_setup_status, distribution_fetch_source, ensure_ready, materialize,
    DistributionFetch, SetupVerdict, Step, WorldView,
};
use pyapp::fs_utils::{apply_fetch_step, ensure_cached_steps, CacheEntry, FetchStep};
use pyapp::process::{exec, forwarded_exit_code, LaunchMode};

fn cfg() -> Config {
    Config {
        project_name: "demo-app".to_string(),
        project_version: "1.2.3".to_string(),
        distribution_id: "12345".to_string(),
        distribution_source: "https://example.invalid/cpython.tar.zst".to_string(),
        distribution_format: "tar|zstd".to_string(),
        distribution_python_path: "python/bin/python3".to_string(),
        distribution_pip_available: true,
        installation_python_path: "bin/python3".to_string(),
        installation_site_packages_path: "lib/site-packages".to_string(),
        embedded_distribution: Vec::new(),
        embedded_project: Vec::new(),
        exec_module: "demo".to_string(),
        exec_code: String::new(),
        exec_script: String::new(),
        exec_script_id: String::new(),
        exec_script_name: String::new(),
        exec_notebook: String::new(),
        exec_notebook_id: String::new(),
        exec_notebook_name: String::new(),
        pip_project_features: String::new(),
        pip_extra_args: String::new(),
        pip_allow_config: false,
        pip_version: "latest".to_string(),
        pip_external: false,
        uv_enabled: false,
        uv_only_bootstrap: false,
        uv_version: "any".to_string(),
        uv_artifact_name: "uv-x86_64-unknown-linux-gnu.tar.gz".to_string(),
        is_gui: false,
        full_isolation: false,
        upgrade_virtualenv: false,
        skip_install: false,
        allow_updates: false,
        pass_location: false,
        metadata_template: "{project} v{version}".to_string(),
        exposed_command: String::new(),
        python_isolation_flag: "-I".to_string(),
        project_dependency_file: String::new(),
        project_dependency_file_name: "requirements.txt".to_string(),
        project_embed_file_name: String::new(),
        windows: false,
        data_root: "/data".to_string(),
        cache_root: "/cache".to_string(),
        install_dir_override: String::new(),
    }
}

fn absent_world() -> WorldView {
    WorldView {
        install_dir_present: false,
        dist_archive_cached: false,
        shared_unpacked_present: false,
        uv_binary_present: false,
        pip_zipapp_present: false,
        payload_installed: false,
    }
}

#[test]
fn ready_installation_plans_no_work() {
    let c = cfg();
    let mut w = absent_world();
    w.install_dir_present = true;
    assert_eq!(ensure_ready(&c, &w), Vec::<Step>::new());
}

#[test]
fn fresh_lightweight_plan() {
    let c = cfg();
    let w = absent_world();
    assert_eq!(
        ensure_ready(&c, &w),
        vec![
            Step::FetchDistribution,
            Step::UnpackShared,
            Step::CreateEnv,
            Step::InstallProject,
        ]
    );
}

#[test]
fn fresh_full_isolation_plan_with_base_pip() {
    let mut c = cfg();
    c.full_isolation = true;
    c.distribution_pip_available = false;
    let w = absent_world();
    assert_eq!(
        ensure_ready(&c, &w),
        vec![
            Step::FetchDistribution,
            Step::UnpackInstallDir,
            Step::EnsureBasePipInstall,
            Step::InstallProject,
        ]
    );
}

#[test]
fn fresh_uv_plan_bootstraps_once() {
    let mut c = cfg();
    c.uv_enabled = true;
    let w = absent_world();
    // The environment creation fetches the fast installer; the
    // payload install finds it already present and does not fetch it
    // again.
    assert_eq!(
        ensure_ready(&c, &w),
        vec![
            Step::FetchDistribution,
            Step::UnpackShared,
            Step::EnsureUv,
            Step::CreateEnv,
            Step::InstallProject,
        ]
    );
}

#[test]
fn upgrade_virtualenv_plan() {
    let mut c = cfg();
    c.upgrade_virtualenv = true;
    c.distribution_pip_available = false;
    let w = absent_world();
    assert_eq!(
        ensure_ready(&c, &w),
        vec![
            Step::FetchDistribution,
            Step::UnpackShared,
            Step::EnsureBasePipShared,
            Step::UpgradeVirtualenv,
            Step::CreateEnv,
            Step::InstallProject,
        ]
    );
}

#[test]
fn skip_install_omits_payload() {
    let mut c = cfg();
    c.skip_install = true;
    let w = absent_world();
    assert_eq!(
        ensure_ready(&c, &w),
        vec![Step::FetchDistribution, Step::UnpackShared, Step::CreateEnv]
    );
}

#[test]
fn ensure_ready_is_idempotent() {
    // Run the full plan, then plan again: the second pass performs no
    // work at all — no re-fetch, no re-unpack, no re-install.
    for full in [false, true] {
        for uv in [false, true] {
            let mut c = cfg();
            c.full_isolation = full;
            c.uv_enabled = uv;
            let w = absent_world();
            let plan = ensure_ready(&c, &w);
            let after = apply_plan_exec(&w, &plan);
            assert!(after.install_dir_present);
            assert_eq!(ensure_ready(&c, &after), Vec::<Step>::new());
        }
    }
}

#[test]
fn cached_artifacts_are_not_refetched() {
    let c = cfg();
    let mut w = absent_world();
    w.dist_archive_cached = true;
    w.shared_unpacked_present = true;
    assert_eq!(
        materialize(&c, &w),
        vec![Step::CreateEnv]
    );
}

#[test]
fn cache_fetch_is_atomic() {
    // A process killed mid-fetch (temp file written or truncated, but
    // never published) leaves the final cache path absent.
    let absent = CacheEntry { published: false, temp_exists: false, temp_complete: false };
    let steps = ensure_cached_steps(false);
    assert_eq!(
        steps,
        vec![FetchStep::CreateTemp, FetchStep::WriteTemp, FetchStep::Publish]
    );
    // Stop after any proper prefix of the steps: the temp file may be
    // missing, truncated, or complete, but the final path stays absent.
    for stop in 0..steps.len() {
        let mut e = absent;
        for s in steps.iter().take(stop) {
            e = apply_fetch_step(&e, *s);
        }
        assert!(!e.published);
    }
    // Only the full sequence publishes, and a published entry plans
    // no further work.
    let mut e = absent;
    for s in steps.iter() {
        e = apply_fetch_step(&e, *s);
    }
    assert!(e.published);
    assert_eq!(ensure_cached_steps(true), Vec::<FetchStep>::new());
}

#[test]
fn racing_processes_materialize_exactly_once() {
    let c = cfg();
    let mut w = absent_world();
    let mut work_count = 0;
    let mut ready_observations = 0;
    for _process in 0..5 {
        // Each process, serialized by the installation lock, checks
        // the directory and materializes only when it is absent.
        let plan = ensure_ready(&c, &w);
        if !plan.is_empty() {
            work_count += 1;
            w = apply_plan_exec(&w, &plan);
        }
        assert!(w.install_dir_present);
        ready_observations += 1;
    }
    assert_eq!(work_count, 1);
    assert_eq!(ready_observations, 5);
}

#[test]
fn setup_failure_rolls_back_and_forwards_exit_code() {
    assert_eq!(check_setup_status(true, Some(0)), SetupVerdict::Proceed);
    assert_eq!(
        check_setup_status(false, Some(2)),
        SetupVerdict::Abort { remove_install: true, exit_code: 2 }
    );
    assert_eq!(
        check_setup_status(false, None),
        SetupVerdict::Abort { remove_install: true, exit_code: 1 }
    );
}

#[test]
fn update_failure_on_fresh_install_rolls_back() {
    let c = cfg();
    let w = absent_world();
    let plan = update::update_plan(&c, &w, false);
    // The attempt got all the way through before the upgrade failed.
    let got = apply_plan_exec(&w, &plan);
    assert!(got.install_dir_present);
    assert!(update::update_failure_removes(false));
    // Removing the fresh installation leaves nothing behind.
    let cleaned = apply_plan_exec(&got, &vec![Step::RemoveInstallDir]);
    assert!(!cleaned.install_dir_present);
}

#[test]
fn update_failure_on_preexisting_install_preserves_it() {
    let c = cfg();
    let mut w = absent_world();
    w.install_dir_present = true;
    w.dist_archive_cached = true;
    w.payload_installed = true;
    let plan = update::update_plan(&c, &w, false);
    assert_eq!(plan, vec![Step::UpdateProject]);
    assert!(!update::update_failure_removes(true));
    let after = apply_plan_exec(&w, &plan);
    assert!(after.install_dir_present);
}

#[test]
fn restore_removes_then_rematerializes() {
    let c = cfg();
    let mut w = absent_world();
    w.install_dir_present = true;
    w.dist_archive_cached = true;
    w.shared_unpacked_present = true;
    w.payload_installed = true;
    let plan = restore::Cli {}.exec(&c, &w);
    assert_eq!(plan[0], Step::RemoveInstallDir);
    let after = apply_plan_exec(&w, &plan);
    assert!(after.install_dir_present);
    assert!(after.payload_installed);
    // The result equals a fresh materialization from the removed
    // world.
    let mut wiped = w;
    wiped.install_dir_present = false;
    wiped.payload_installed = false;
    let fresh = apply_plan_exec(&wiped, &ensure_ready(&c, &wiped));
    assert_eq!(after, fresh);
}

#[test]
fn fresh_run_with_embedded_payload_and_remote_runtime() {
    // An embedded payload with a zero-length embedded runtime: the
    // engine downloads the runtime, unpacks it, installs from the
    // embedded bytes, and the launch forwards the application's own
    // exit code.
    let mut c = cfg();
    c.embedded_project = b"payload archive bytes".to_vec();
    c.project_embed_file_name = "demo_app-1.2.3-py3-none-any.whl".to_string();
    let w = absent_world();
    match distribution_fetch_source(&c) {
        DistributionFetch::Download { url } => {
            assert_eq!(url, "https://example.invalid/cpython.tar.zst");
        }
        DistributionFetch::Embedded => panic!("runtime must come over the network"),
    }
    let plan = ensure_ready(&c, &w);
    assert_eq!(
        plan,
        vec![
            Step::FetchDistribution,
            Step::UnpackShared,
            Step::CreateEnv,
            Step::InstallProject,
        ]
    );
    let after = apply_plan_exec(&w, &plan);
    assert!(after.install_dir_present);
    assert!(after.payload_installed);
    // Console launch without a process-replace primitive waits and
    // forwards the child's code.
    assert_eq!(exec(&c, false), LaunchMode::SpawnWait);
    assert_eq!(exec(&c, true), LaunchMode::ReplaceImage);
    assert_eq!(forwarded_exit_code(Some(7)), 7);
    assert_eq!(forwarded_exit_code(None), 1);
    c.is_gui = true;
    assert_eq!(exec(&c, true), LaunchMode::SpawnDetached);
}
