//! The immutable launcher configuration.
//!
//! Every build-time setting of the launcher is captured here as a plain
//! value, constructed once at process start and passed by reference to
//! every component, together with the platform roots (data and cache
//! directories) resolved by the surrounding shell.

use vstd::prelude::*;

verus! {

/// Build-time configuration plus resolved platform roots.
pub struct Config {
    /// Name of the application payload.
    pub project_name: String,
    /// Version of the application payload.
    pub project_version: String,
    /// Fingerprint of the runtime distribution, used as a cache key.
    pub distribution_id: String,
    /// Source locator of the runtime distribution.
    pub distribution_source: String,
    /// Archive format of the runtime distribution.
    pub distribution_format: String,
    /// Interpreter path relative to an unpacked distribution.
    pub distribution_python_path: String,
    /// Whether the distribution ships its own package installer.
    pub distribution_pip_available: bool,
    /// Interpreter path relative to the installation directory.
    pub installation_python_path: String,
    /// Site-packages path relative to the installation directory.
    pub installation_site_packages_path: String,
    /// Embedded runtime archive; empty means fetch over the network.
    pub embedded_distribution: Vec<u8>,
    /// Embedded payload archive; empty means fetch from a registry.
    pub embedded_project: Vec<u8>,
    /// Module to execute, when the target is a module.
    pub exec_module: String,
    /// Inline code to execute, when the target is inline code.
    pub exec_code: String,
    /// Script contents to execute, when the target is a script.
    pub exec_script: String,
    /// Cache key of the script target.
    pub exec_script_id: String,
    /// File name of the script target.
    pub exec_script_name: String,
    /// Notebook contents to execute, when the target is a notebook.
    pub exec_notebook: String,
    /// Cache key of the notebook target.
    pub exec_notebook_id: String,
    /// File name of the notebook target.
    pub exec_notebook_name: String,
    /// Optional extras appended to the payload requirement.
    pub pip_project_features: String,
    /// Extra arguments passed to the installer.
    pub pip_extra_args: String,
    /// Whether the installer may read user configuration.
    pub pip_allow_config: bool,
    /// Declared version of the external installer artifact.
    pub pip_version: String,
    /// Whether the external installer zipapp is used.
    pub pip_external: bool,
    /// Whether the fast installer is enabled at all.
    pub uv_enabled: bool,
    /// Whether the fast installer only bootstraps the environment.
    pub uv_only_bootstrap: bool,
    /// Declared version of the fast-installer artifact.
    pub uv_version: String,
    /// Release artifact name of the fast installer.
    pub uv_artifact_name: String,
    /// Whether the application is a windowed program.
    pub is_gui: bool,
    /// Whether the runtime is unpacked directly into the installation.
    pub full_isolation: bool,
    /// Whether to upgrade the environment-creation tool first.
    pub upgrade_virtualenv: bool,
    /// Whether payload installation is omitted entirely.
    pub skip_install: bool,
    /// Whether updates stay allowed when installation is omitted.
    pub allow_updates: bool,
    /// Whether the marker variable carries the launcher's own path.
    pub pass_location: bool,
    /// Template used when displaying metadata.
    pub metadata_template: String,
    /// Externally visible command name, when one is configured.
    pub exposed_command: String,
    /// Interpreter flag that isolates it from the user environment.
    pub python_isolation_flag: String,
    /// Decoded dependency file contents, when one is configured.
    pub project_dependency_file: String,
    /// File name under which the dependency file is materialized.
    pub project_dependency_file_name: String,
    /// File name under which the embedded payload is materialized.
    pub project_embed_file_name: String,
    /// Whether the launcher runs on a windows-style platform.
    pub windows: bool,
    /// Per-user data root resolved at process start.
    pub data_root: String,
    /// Per-user cache root resolved at process start.
    pub cache_root: String,
    /// Optional user override of the installation directory.
    pub install_dir_override: String,
}

} // verus!
