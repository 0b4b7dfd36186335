//! Command construction, the environment overlay, output parsing and
//! the management subcommands.

use pyapp::commands::cli as top_cli;
use pyapp::commands::self_cmd;
use pyapp::commands::self_cmd::cache;
use pyapp::commands::self_cmd::metadata;
use pyapp::commands::self_cmd::update;
use pyapp::compression::{unpack, unpack_message, unsupported_message, ArchiveFormat};
use pyapp::config::Config;
use pyapp::distribution::{
    apply_project_features, env_create_command, ensure_base_pip, install_project,
    pip_base_command, pip_install_command, pip_zipapp_url, run_project, uv_download_url,
    uv_staged_binary, WorldView,
};
use pyapp::process::RuntimeEnv;
use pyapp::strutil;

fn cfg() -> Config {
    Config {
        project_name: "demo-app".to_string(),
        project_version: "1.2.3".to_string(),
        distribution_id: "12345".to_string(),
        distribution_source: "https://example.invalid/cpython.tar.zst".to_string(),
        distribution_format: "tar|zstd".to_string(),
        distribution_python_path: "python/bin/python3".to_string(),
        distribution_pip_available: true,
        installation_python_path: "bin/python3".to_string(),
        installation_site_packages_path: "lib/site-packages".to_string(),
        embedded_distribution: Vec::new(),
        embedded_project: Vec::new(),
        exec_module: "demo".to_string(),
        exec_code: String::new(),
        exec_script: String::new(),
        exec_script_id: String::new(),
        exec_script_name: String::new(),
        exec_notebook: String::new(),
        exec_notebook_id: String::new(),
        exec_notebook_name: String::new(),
        pip_project_features: String::new(),
        pip_extra_args: String::new(),
        pip_allow_config: false,
        pip_version: "latest".to_string(),
        pip_external: false,
        uv_enabled: false,
        uv_only_bootstrap: false,
        uv_version: "any".to_string(),
        uv_artifact_name: "uv-x86_64-unknown-linux-gnu.tar.gz".to_string(),
        is_gui: false,
        full_isolation: false,
        upgrade_virtualenv: false,
        skip_install: false,
        allow_updates: false,
        pass_location: false,
        metadata_template: "{project} v{version}".to_string(),
        exposed_command: String::new(),
        python_isolation_flag: "-I".to_string(),
        project_dependency_file: String::new(),
        project_dependency_file_name: "requirements.txt".to_string(),
        project_embed_file_name: String::new(),
        windows: false,
        data_root: "/data".to_string(),
        cache_root: "/cache".to_string(),
        install_dir_override: String::new(),
    }
}

fn renv() -> RuntimeEnv {
    RuntimeEnv {
        path_var: Some("/usr/bin:/bin".to_string()),
        current_exe: Some("/usr/local/bin/demo-app".to_string()),
    }
}

fn env_value(cmd: &pyapp::process::CommandSpec, name: &str) -> Option<String> {
    for e in cmd.env.iter() {
        if e.name == name {
            return Some(e.value.clone());
        }
    }
    None
}

#[test]
fn environment_overlay_prepends_install_dirs() {
    let c = cfg();
    let cmd = pip_base_command(&c, &renv());
    assert_eq!(
        env_value(&cmd, "PATH").unwrap(),
        "/data/demo-app/12345/1.2.3/bin:/usr/bin:/bin"
    );
    // Lightweight isolation marks the environment root.
    assert_eq!(
        env_value(&cmd, "VIRTUAL_ENV").unwrap(),
        "/data/demo-app/12345/1.2.3"
    );
    // The marker carries the fixed sentinel unless the location
    // policy is set.
    assert_eq!(env_value(&cmd, "PYAPP").unwrap(), "1");
    assert_eq!(env_value(&cmd, "PYAPP_COMMAND_NAME"), None);
}

#[test]
fn environment_overlay_policies() {
    let mut c = cfg();
    c.pass_location = true;
    c.exposed_command = "demo".to_string();
    let cmd = pip_base_command(&c, &renv());
    assert_eq!(env_value(&cmd, "PYAPP").unwrap(), "/usr/local/bin/demo-app");
    assert_eq!(env_value(&cmd, "PYAPP_COMMAND_NAME").unwrap(), "demo");

    let mut c2 = cfg();
    c2.full_isolation = true;
    c2.uv_enabled = true;
    let cmd2 = pip_base_command(&c2, &renv());
    assert_eq!(env_value(&cmd2, "VIRTUAL_ENV"), None);
    assert_eq!(env_value(&cmd2, "UV_SYSTEM_PYTHON").unwrap(), "true");
}

#[test]
fn pip_base_command_variants() {
    let c = cfg();
    let cmd = pip_base_command(&c, &renv());
    assert_eq!(cmd.program, "/data/demo-app/12345/1.2.3/bin/python3");
    assert_eq!(cmd.args, vec!["-I", "-m", "pip"]);

    let mut ext = cfg();
    ext.pip_external = true;
    let cmd2 = pip_base_command(&ext, &renv());
    assert_eq!(cmd2.args, vec!["-I", "/cache/pip/pip.pyz"]);

    let mut uv = cfg();
    uv.uv_enabled = true;
    let cmd3 = pip_base_command(&uv, &renv());
    assert_eq!(cmd3.program, "/cache/uv/any/uv");
    assert_eq!(cmd3.args, vec!["pip"]);
}

#[test]
fn pip_install_command_flags_and_extra_args() {
    let mut c = cfg();
    c.pip_extra_args = " --no-cache-dir  --timeout 60 ".to_string();
    let cmd = pip_install_command(&c, &renv());
    assert_eq!(
        cmd.args,
        vec![
            "-I",
            "-m",
            "pip",
            "install",
            "--disable-pip-version-check",
            "--no-warn-script-location",
            "--isolated",
            "--no-cache-dir",
            "--timeout",
            "60",
        ]
    );
    c.pip_allow_config = true;
    let cmd2 = pip_install_command(&c, &renv());
    assert!(!cmd2.args.contains(&"--isolated".to_string()));
}

#[test]
fn env_create_command_variants() {
    let c = cfg();
    let cmd = env_create_command(&c, &renv());
    assert_eq!(cmd.program, "/cache/distributions/_12345/python/bin/python3");
    assert_eq!(cmd.args, vec!["-I", "-m", "venv", "/data/demo-app/12345/1.2.3"]);

    let mut vext = cfg();
    vext.pip_external = true;
    assert_eq!(
        env_create_command(&vext, &renv()).args,
        vec!["-I", "-m", "venv", "--without-pip", "/data/demo-app/12345/1.2.3"]
    );

    let mut vup = cfg();
    vup.upgrade_virtualenv = true;
    assert_eq!(
        env_create_command(&vup, &renv()).args,
        vec!["-I", "-m", "virtualenv", "/data/demo-app/12345/1.2.3"]
    );

    let mut vuv = cfg();
    vuv.uv_enabled = true;
    vuv.uv_only_bootstrap = true;
    let cmd2 = env_create_command(&vuv, &renv());
    assert_eq!(cmd2.program, "/cache/uv/any/uv");
    assert_eq!(
        cmd2.args,
        vec![
            "venv",
            "--python",
            "/cache/distributions/_12345/python/bin/python3",
            "--seed",
            "/data/demo-app/12345/1.2.3",
        ]
    );
}

#[test]
fn base_pip_bootstrap_only_when_needed() {
    let c = cfg();
    assert!(ensure_base_pip(&c, &renv(), "/dist").is_none());
    let mut c2 = cfg();
    c2.distribution_pip_available = false;
    let cmd = ensure_base_pip(&c2, &renv(), "/dist").unwrap();
    assert_eq!(cmd.program, "/dist/python/bin/python3");
    assert_eq!(cmd.args, vec!["-I", "-m", "ensurepip"]);
}

#[test]
fn run_project_targets() {
    let c = cfg();
    let r = run_project(&c, &renv(), false, false, &vec!["--verbose".to_string()]);
    assert_eq!(r.command.program, "/data/demo-app/12345/1.2.3/bin/python3");
    assert_eq!(r.command.args, vec!["-I", "-m", "demo", "--verbose"]);
    assert!(r.cache_write.is_none());

    let mut cc = cfg();
    cc.exec_module = String::new();
    cc.exec_code = "print('hi')".to_string();
    let r2 = run_project(&cc, &renv(), false, false, &Vec::new());
    assert_eq!(r2.command.args, vec!["-I", "-c", "print('hi')"]);

    let mut cs = cfg();
    cs.exec_module = String::new();
    cs.exec_script = "print('hi')".to_string();
    cs.exec_script_id = "abc".to_string();
    cs.exec_script_name = "run.py".to_string();
    let r3 = run_project(&cs, &renv(), false, false, &Vec::new());
    assert_eq!(r3.command.args, vec!["-I", "/cache/scripts/abc/run.py"]);
    let w = r3.cache_write.unwrap();
    assert_eq!(w.path, "/cache/scripts/abc/run.py");
    assert_eq!(w.contents, "print('hi')");
    // A cached script is not rewritten.
    assert!(run_project(&cs, &renv(), true, false, &Vec::new()).cache_write.is_none());
}

#[test]
fn install_project_registry_coordinate() {
    let mut c = cfg();
    c.pip_project_features = "cli,extra".to_string();
    let (cmd, label) = install_project(&c, &renv(), "");
    assert_eq!(cmd.args.last().unwrap(), "demo-app[cli,extra]==1.2.3");
    assert_eq!(label, "Installing demo-app 1.2.3");
}

#[test]
fn install_project_embedded_wheel_unpacks() {
    let mut c = cfg();
    c.embedded_project = b"bytes".to_vec();
    c.project_embed_file_name = "demo_app-1.2.3-py3-none-any.whl".to_string();
    c.pip_extra_args = "--only-binary :all:".to_string();
    let (cmd, label) = install_project(&c, &renv(), "/tmp/stage/demo.whl");
    assert_eq!(cmd.args.last().unwrap(), "/tmp/stage/demo.whl");
    assert_eq!(label, "Unpacking demo-app 1.2.3");
}

#[test]
fn install_project_dependency_file() {
    let mut c = cfg();
    c.project_dependency_file = "requests==2.31.0\n".to_string();
    let (cmd, label) = install_project(&c, &renv(), "/tmp/stage/requirements.txt");
    let n = cmd.args.len();
    assert_eq!(&cmd.args[n - 2..], &["-r", "/tmp/stage/requirements.txt"]);
    assert_eq!(label, "Installing demo-app 1.2.3");
}

#[test]
fn apply_project_features_wraps_extras() {
    let c = cfg();
    assert_eq!(apply_project_features(&c, "demo-app"), "demo-app");
    let mut c2 = cfg();
    c2.pip_project_features = "cli".to_string();
    assert_eq!(apply_project_features(&c2, "demo-app"), "demo-app[cli]");
}

#[test]
fn artifact_download_urls() {
    let mut c = cfg();
    assert_eq!(pip_zipapp_url(&c), "https://bootstrap.pypa.io/pip/pip.pyz");
    c.pip_version = "23.1".to_string();
    assert_eq!(
        pip_zipapp_url(&c),
        "https://bootstrap.pypa.io/pip/pip.pyz#/pip-23.1.pyz"
    );
    assert_eq!(
        uv_download_url(&cfg()),
        "https://github.com/astral-sh/uv/releases/latest/download/uv-x86_64-unknown-linux-gnu.tar.gz"
    );
    let mut c2 = cfg();
    c2.uv_version = "0.4.0".to_string();
    assert_eq!(
        uv_download_url(&c2),
        "https://github.com/astral-sh/uv/releases/download/0.4.0/uv-x86_64-unknown-linux-gnu.tar.gz"
    );
}

#[test]
fn uv_staged_binary_nests_under_artifact_stem() {
    let c = cfg();
    assert_eq!(uv_staged_binary(&c, "/tmp/x", true), "/tmp/x/uv");
    assert_eq!(
        uv_staged_binary(&c, "/tmp/x", false),
        "/tmp/x/uv-x86_64-unknown-linux-gnu/uv"
    );
}

#[test]
fn archive_format_dispatch() {
    assert_eq!(unpack("tar|bzip2"), Some(ArchiveFormat::TarBzip2));
    assert_eq!(unpack("tar|gzip"), Some(ArchiveFormat::TarGzip));
    assert_eq!(unpack("tar|zstd"), Some(ArchiveFormat::TarZstd));
    assert_eq!(unpack("zip"), Some(ArchiveFormat::Zip));
    assert_eq!(unpack("rar"), None);
    assert_eq!(unpack_message("tar|zstd"), "Unpacking distribution (tar|zstd)");
    assert_eq!(
        unsupported_message("rar"),
        "unsupported distribution format: rar"
    );
}

#[test]
fn update_refused_when_installs_disabled() {
    let mut c = cfg();
    c.skip_install = true;
    let (allowed, plan) = update::Cli { pre: false, restore: false }.exec(
        &c,
        &WorldView {
            install_dir_present: true,
            dist_archive_cached: true,
            shared_unpacked_present: true,
            uv_binary_present: false,
            pip_zipapp_present: false,
            payload_installed: true,
        },
    );
    assert!(!allowed);
    assert!(plan.is_empty());
    c.allow_updates = true;
    let (allowed2, _plan2) = update::Cli { pre: false, restore: false }.exec(
        &c,
        &WorldView {
            install_dir_present: true,
            dist_archive_cached: true,
            shared_unpacked_present: true,
            uv_binary_present: false,
            pip_zipapp_present: false,
            payload_installed: true,
        },
    );
    assert!(allowed2);
}

#[test]
fn update_command_arguments() {
    let c = cfg();
    let cmd = update::update_command(&c, &renv(), true, "");
    let n = cmd.args.len();
    assert_eq!(&cmd.args[n - 3..], &["--pre", "--upgrade", "demo-app"]);

    let mut cd = cfg();
    cd.project_dependency_file = "requests\n".to_string();
    let cmd2 = update::update_command(&cd, &renv(), false, "/tmp/stage/requirements.txt");
    let n2 = cmd2.args.len();
    assert_eq!(
        &cmd2.args[n2 - 3..],
        &["--upgrade", "-r", "/tmp/stage/requirements.txt"]
    );
}

#[test]
fn update_output_reports_installed_version() {
    let out = "Collecting demo-app\nInstalling collected packages: demo-app\nSuccessfully installed certifi-2024.2.2 demo-app-2.0.0 idna-3.6\n";
    let r = update::parse_update_output(out, "demo-app");
    assert_eq!(update::update_message(&r), "Updated to 2.0.0");
}

#[test]
fn update_output_reports_already_satisfied() {
    let out = "Requirement already satisfied: demo-app in /data/demo-app/12345/1.2.3/lib (1.2.3)\n";
    let r = update::parse_update_output(out, "demo-app");
    assert_eq!(
        update::update_message(&r),
        "The latest version (1.2.3) is already installed"
    );
}

#[test]
fn update_output_without_markers() {
    let r = update::parse_update_output("nothing to see\n", "demo-app");
    assert_eq!(update::update_message(&r), "Updated");
}

#[test]
fn cache_subcommands_decide() {
    let c = cfg();
    let absent = WorldView {
        install_dir_present: false,
        dist_archive_cached: false,
        shared_unpacked_present: false,
        uv_binary_present: false,
        pip_zipapp_present: false,
        payload_installed: false,
    };
    let mut present = absent;
    present.dist_archive_cached = true;
    match (cache::dist::Cli { remove: false }).exec(&c, &present) {
        cache::cli::CacheAction::ShowPath { path } => {
            assert_eq!(path, "/cache/distributions/12345");
        }
        _ => panic!("expected the path to be shown"),
    }
    match (cache::dist::Cli { remove: true }).exec(&c, &present) {
        cache::cli::CacheAction::RemoveFile { path } => {
            assert_eq!(path, "/cache/distributions/12345");
        }
        _ => panic!("expected removal"),
    }
    match (cache::dist::Cli { remove: true }).exec(&c, &absent) {
        cache::cli::CacheAction::Missing { report } => assert!(report),
        _ => panic!("expected a missing report"),
    }
    match (cache::pip::Cli { remove: false }).exec(&c, &absent) {
        cache::cli::CacheAction::NotEnabled { message } => {
            assert_eq!(message, "External pip not enabled");
        }
        _ => panic!("external pip is disabled"),
    }
    match (cache::uv::Cli { remove: false }).exec(&c, &absent) {
        cache::cli::CacheAction::NotEnabled { message } => {
            assert_eq!(message, "UV is not enabled");
        }
        _ => panic!("the fast installer is disabled"),
    }
}

#[test]
fn metadata_inspection() {
    let c = cfg();
    assert_eq!(metadata::dist_info_prefix(&c), "demo_app-");
    let entries = vec![
        "something-else-1.0.dist-info".to_string(),
        "demo_app".to_string(),
        "demo_app-1.2.3.dist-info".to_string(),
    ];
    let prefix = metadata::dist_info_prefix(&c);
    assert_eq!(
        metadata::find_dist_info(&prefix, &entries).unwrap(),
        "demo_app-1.2.3.dist-info"
    );
    let text = vec![
        "Name: demo-app".to_string(),
        "Version: 1.2.3".to_string(),
        "Summary: demo".to_string(),
    ];
    assert_eq!(metadata::extract_version(&text).unwrap(), "1.2.3");
    assert_eq!(metadata::render_metadata(&c, "1.2.3"), "demo-app v1.2.3");
}

#[test]
fn string_utilities() {
    assert_eq!(strutil::path_join("/a", "b"), "/a/b");
    assert_eq!(strutil::replace_all("a-b-c", "-", "_"), "a_b_c");
    assert_eq!(strutil::replace_all("python.exe", "python.exe", "pythonw.exe"), "pythonw.exe");
    assert_eq!(strutil::trim_end_all("uv.tar.gz", ".tar.gz"), "uv");
    assert_eq!(strutil::trim_end_all("uv.zip", ".tar.gz"), "uv.zip");
    assert_eq!(strutil::parent_dir("/a/b/c"), "/a/b");
    assert_eq!(strutil::parent_dir("plain"), "");
    assert_eq!(strutil::last_segment("a b c", ' '), "c");
    assert_eq!(strutil::last_segment("abc", ' '), "abc");
    assert_eq!(
        strutil::split_nonempty(" -q  --flag ", ' '),
        vec!["-q", "--flag"]
    );
    assert_eq!(strutil::lines("a\r\nb\nc"), vec!["a", "b", "c"]);
    assert_eq!(strutil::lines("a\n"), vec!["a"]);
    assert_eq!(strutil::lines(""), Vec::<String>::new());
    assert!(strutil::contains_sub("--only-binary=:all: -q", "--only-binary=:all:"));
    assert!(!strutil::contains_sub("-q", "--only-binary"));
    assert_eq!(strutil::find_sub("abcabc", "ca"), Some(2));
    assert_eq!(strutil::u64_to_dec(90210), "90210");
}

#[test]
fn windowed_programs_use_the_windowed_interpreter() {
    let mut c = cfg();
    c.windows = true;
    c.is_gui = true;
    c.installation_python_path = "python.exe".to_string();
    let r = run_project(&c, &renv(), false, false, &Vec::new());
    assert_eq!(r.command.program, "/data/demo-app/12345/1.2.3/pythonw.exe");
}

#[test]
fn pip_subcommand_prepares_and_forwards_arguments() {
    let c = cfg();
    let w = WorldView {
        install_dir_present: true,
        dist_archive_cached: true,
        shared_unpacked_present: true,
        uv_binary_present: false,
        pip_zipapp_present: false,
        payload_installed: true,
    };
    let (plan, command) = (self_cmd::pip::Cli { args: vec!["list".to_string()] }).exec(
        &c,
        &w,
        &renv(),
    );
    // A ready installation with the built-in installer needs no
    // preparation at all.
    assert!(plan.is_empty());
    assert_eq!(command.args, vec!["-I", "-m", "pip", "list"]);
}

#[test]
fn python_subcommand_prepares_and_forwards_arguments() {
    let c = cfg();
    let w = WorldView {
        install_dir_present: true,
        dist_archive_cached: true,
        shared_unpacked_present: true,
        uv_binary_present: false,
        pip_zipapp_present: false,
        payload_installed: true,
    };
    let (plan, command) = (self_cmd::python::Cli { args: vec!["-V".to_string()] }).exec(
        &c,
        &w,
        &renv(),
    );
    assert!(plan.is_empty());
    assert_eq!(command.program, "/data/demo-app/12345/1.2.3/bin/python3");
    assert_eq!(command.args, vec!["-I", "-V"]);
}

#[test]
fn top_level_dispatch_reaches_the_subcommand() {
    let c = cfg();
    let w = WorldView {
        install_dir_present: true,
        dist_archive_cached: true,
        shared_unpacked_present: false,
        uv_binary_present: false,
        pip_zipapp_present: false,
        payload_installed: true,
    };
    let parsed = top_cli::Cli {
        command: top_cli::Commands::SelfCmd(self_cmd::cli::Cli {
            command: self_cmd::cli::Commands::PythonPath(self_cmd::python_path::Cli {}),
        }),
    };
    match parsed.exec(&c, &w, &renv()) {
        self_cmd::cli::SelfAction::PythonPath { path } => {
            assert_eq!(path, "/data/demo-app/12345/1.2.3/bin/python3");
        }
        _ => panic!("expected the interpreter path"),
    }
    let parsed2 = top_cli::Cli {
        command: top_cli::Commands::SelfCmd(self_cmd::cli::Cli {
            command: self_cmd::cli::Commands::Remove(self_cmd::remove::Cli {}),
        }),
    };
    match parsed2.exec(&c, &w, &renv()) {
        self_cmd::cli::SelfAction::Remove { remove } => assert!(remove),
        _ => panic!("expected a removal decision"),
    }
    let parsed3 = top_cli::Cli {
        command: top_cli::Commands::SelfCmd(self_cmd::cli::Cli {
            command: self_cmd::cli::Commands::Metadata(self_cmd::metadata::Cli {}),
        }),
    };
    match parsed3.exec(&c, &w, &renv()) {
        self_cmd::cli::SelfAction::Metadata { inspect } => assert!(inspect),
        _ => panic!("expected a metadata decision"),
    }
}
