//! Derived values of a configuration: the installation directory, the
//! cache layout, and the lock-file names that serialize shared
//! resources across processes.

use vstd::prelude::*;

use crate::config::Config;
use crate::strutil::{ends_with, ends_with_seq, joined, path_join, replace_all, replace_all_seq, str_eq};

verus! {

/// The resolved installation directory: the user override when one is
/// set, otherwise a path determined by the application name, the
/// distribution identity and the application version.
pub open spec fn spec_install_dir(cfg: Config) -> Seq<char> {
    if cfg.install_dir_override@.len() > 0 {
        cfg.install_dir_override@
    } else {
        joined(
            joined(joined(cfg.data_root@, cfg.project_name@), cfg.distribution_id@),
            cfg.project_version@,
        )
    }
}

/// Resolves the installation directory.
pub fn install_dir(cfg: &Config) -> (r: String)
    ensures
        r@ == spec_install_dir(*cfg),
{
    if cfg.install_dir_override.as_str().unicode_len() > 0 {
        cfg.install_dir_override.clone()
    } else {
        let a = path_join(cfg.data_root.as_str(), cfg.project_name.as_str());
        let b = path_join(a.as_str(), cfg.distribution_id.as_str());
        path_join(b.as_str(), cfg.project_version.as_str())
    }
}

/// The embedded runtime archive; empty means the runtime is fetched
/// over the network instead.
pub fn embedded_distribution(cfg: &Config) -> (r: &Vec<u8>)
    ensures
        r@ == cfg.embedded_distribution@,
{
    &cfg.embedded_distribution
}

/// The embedded payload archive; empty means the payload is fetched
/// from a registry instead.
pub fn embedded_project(cfg: &Config) -> (r: &Vec<u8>)
    ensures
        r@ == cfg.embedded_project@,
{
    &cfg.embedded_project
}

/// Whether the fast installer also installs the payload, rather than
/// only bootstrapping the environment.
pub open spec fn spec_uv_as_installer(cfg: Config) -> bool {
    cfg.uv_enabled && !cfg.uv_only_bootstrap
}

/// Whether the fast installer also installs the payload.
pub fn uv_as_installer(cfg: &Config) -> (r: bool)
    ensures
        r == spec_uv_as_installer(*cfg),
{
    cfg.uv_enabled && !cfg.uv_only_bootstrap
}

/// The interpreter inside the installation directory.
pub open spec fn spec_python_path(cfg: Config) -> Seq<char> {
    joined(spec_install_dir(cfg), cfg.installation_python_path@)
}

/// Path of the interpreter inside the installation directory.
pub fn python_path(cfg: &Config) -> (r: String)
    ensures
        r@ == spec_python_path(*cfg),
{
    let base = install_dir(cfg);
    path_join(base.as_str(), cfg.installation_python_path.as_str())
}

/// The windowed interpreter inside the installation directory.
pub open spec fn spec_pythonw_path(cfg: Config) -> Seq<char> {
    joined(
        spec_install_dir(cfg),
        replace_all_seq(cfg.installation_python_path@, "python.exe"@, "pythonw.exe"@),
    )
}

/// Path of the windowed interpreter inside the installation directory.
pub fn pythonw_path(cfg: &Config) -> (r: String)
    ensures
        r@ == spec_pythonw_path(*cfg),
{
    let base = install_dir(cfg);
    let rel = replace_all(cfg.installation_python_path.as_str(), "python.exe", "pythonw.exe");
    path_join(base.as_str(), rel.as_str())
}

/// The site-packages directory inside the installation directory.
pub open spec fn spec_site_packages_path(cfg: Config) -> Seq<char> {
    joined(spec_install_dir(cfg), cfg.installation_site_packages_path@)
}

/// Path of the site-packages directory inside the installation.
pub fn site_packages_path(cfg: &Config) -> (r: String)
    ensures
        r@ == spec_site_packages_path(*cfg),
{
    let base = install_dir(cfg);
    path_join(base.as_str(), cfg.installation_site_packages_path.as_str())
}

/// The per-user cache root.
pub fn cache_dir(cfg: &Config) -> (r: String)
    ensures
        r@ == cfg.cache_root@,
{
    cfg.cache_root.clone()
}

/// The directory of cached runtime archives.
pub open spec fn spec_distributions_cache(cfg: Config) -> Seq<char> {
    joined(cfg.cache_root@, "distributions"@)
}

/// Directory of cached runtime archives.
pub fn distributions_cache(cfg: &Config) -> (r: String)
    ensures
        r@ == spec_distributions_cache(*cfg),
{
    path_join(cfg.cache_root.as_str(), "distributions")
}

/// The cached runtime archive for this distribution.
pub open spec fn spec_distribution_file(cfg: Config) -> Seq<char> {
    joined(spec_distributions_cache(cfg), cfg.distribution_id@)
}

/// Path of the cached runtime archive for this distribution.
pub fn distribution_file(cfg: &Config) -> (r: String)
    ensures
        r@ == spec_distribution_file(*cfg),
{
    let base = distributions_cache(cfg);
    path_join(base.as_str(), cfg.distribution_id.as_str())
}

/// The shared unpacked runtime for this distribution, used by the
/// lightweight isolation policy.
pub open spec fn spec_unpacked_distribution(cfg: Config) -> Seq<char> {
    joined(spec_distributions_cache(cfg), "_"@ + cfg.distribution_id@)
}

/// Path of the shared unpacked runtime for this distribution.
pub fn unpacked_distribution(cfg: &Config) -> (r: String)
    ensures
        r@ == spec_unpacked_distribution(*cfg),
{
    let base = distributions_cache(cfg);
    let mut name = String::new();
    name.append("_");
    name.append(cfg.distribution_id.as_str());
    path_join(base.as_str(), name.as_str())
}

/// The cache directory of the external installer artifact.
pub open spec fn spec_external_pip_cache(cfg: Config) -> Seq<char> {
    joined(cfg.cache_root@, "pip"@)
}

/// Directory of the external installer artifact cache.
pub fn external_pip_cache(cfg: &Config) -> (r: String)
    ensures
        r@ == spec_external_pip_cache(*cfg),
{
    path_join(cfg.cache_root.as_str(), "pip")
}

/// The cache directory of the fast-installer artifact, keyed by its
/// declared version.
pub open spec fn spec_managed_uv_cache(cfg: Config) -> Seq<char> {
    joined(joined(cfg.cache_root@, "uv"@), cfg.uv_version@)
}

/// Directory of the fast-installer artifact cache.
pub fn managed_uv_cache(cfg: &Config) -> (r: String)
    ensures
        r@ == spec_managed_uv_cache(*cfg),
{
    let base = path_join(cfg.cache_root.as_str(), "uv");
    path_join(base.as_str(), cfg.uv_version.as_str())
}

/// File name of the external installer zipapp: a bare name for the
/// floating version, a versioned name otherwise.
pub open spec fn spec_pip_zipapp_name(cfg: Config) -> Seq<char> {
    if cfg.pip_version@ == "latest"@ {
        "pip.pyz"@
    } else {
        "pip-"@ + cfg.pip_version@ + ".pyz"@
    }
}

/// File name of the external installer zipapp.
pub fn pip_zipapp_name(cfg: &Config) -> (r: String)
    ensures
        r@ == spec_pip_zipapp_name(*cfg),
{
    if str_eq(cfg.pip_version.as_str(), "latest") {
        let mut s = String::new();
        s.append("pip.pyz");
        s
    } else {
        let mut s = String::new();
        s.append("pip-");
        s.append(cfg.pip_version.as_str());
        s.append(".pyz");
        s
    }
}

/// The cached external installer zipapp.
pub open spec fn spec_external_pip_zipapp(cfg: Config) -> Seq<char> {
    joined(spec_external_pip_cache(cfg), spec_pip_zipapp_name(cfg))
}

/// Path of the cached external installer zipapp.
pub fn external_pip_zipapp(cfg: &Config) -> (r: String)
    ensures
        r@ == spec_external_pip_zipapp(*cfg),
{
    let base = external_pip_cache(cfg);
    let name = pip_zipapp_name(cfg);
    path_join(base.as_str(), name.as_str())
}

/// File name of the fast-installer binary, which depends on whether
/// its release artifact is a zip archive.
pub open spec fn spec_uv_binary_name(cfg: Config) -> Seq<char> {
    if ends_with_seq(cfg.uv_artifact_name@, ".zip"@) {
        "uv.exe"@
    } else {
        "uv"@
    }
}

/// File name of the fast-installer binary.
pub fn uv_binary_name(cfg: &Config) -> (r: String)
    ensures
        r@ == spec_uv_binary_name(*cfg),
{
    let mut s = String::new();
    if ends_with(cfg.uv_artifact_name.as_str(), ".zip") {
        s.append("uv.exe");
    } else {
        s.append("uv");
    }
    s
}

/// The cached fast-installer binary.
pub open spec fn spec_managed_uv(cfg: Config) -> Seq<char> {
    joined(spec_managed_uv_cache(cfg), spec_uv_binary_name(cfg))
}

/// Path of the cached fast-installer binary.
pub fn managed_uv(cfg: &Config) -> (r: String)
    ensures
        r@ == spec_managed_uv(*cfg),
{
    let base = managed_uv_cache(cfg);
    let name = uv_binary_name(cfg);
    path_join(base.as_str(), name.as_str())
}

/// The directory that holds every lock file.
pub open spec fn spec_locks_dir(cfg: Config) -> Seq<char> {
    joined(cfg.cache_root@, "locks"@)
}

/// The lock file that serializes materialization of this installation.
pub open spec fn spec_installation_lock(cfg: Config) -> Seq<char> {
    joined(
        spec_locks_dir(cfg),
        "installation-"@ + cfg.project_name@ + "-"@ + cfg.distribution_id@ + "-"@
            + cfg.project_version@,
    )
}

/// Path of the lock file that serializes materialization of this
/// installation.
pub fn installation_lock(cfg: &Config) -> (r: String)
    ensures
        r@ == spec_installation_lock(*cfg),
{
    let base = path_join(cfg.cache_root.as_str(), "locks");
    let mut name = String::new();
    name.append("installation-");
    name.append(cfg.project_name.as_str());
    name.append("-");
    name.append(cfg.distribution_id.as_str());
    name.append("-");
    name.append(cfg.project_version.as_str());
    path_join(base.as_str(), name.as_str())
}

/// The lock file that serializes bootstrap of one cache artifact,
/// independent of any particular installation.
pub open spec fn spec_installer_lock(cfg: Config, name: Seq<char>, id: Seq<char>) -> Seq<char> {
    joined(spec_locks_dir(cfg), "installer-"@ + name + "-"@ + id)
}

/// Path of the lock file that serializes bootstrap of one cache
/// artifact.
pub fn installer_lock(cfg: &Config, name: &str, id: &str) -> (r: String)
    ensures
        r@ == spec_installer_lock(*cfg, name@, id@),
{
    let base = path_join(cfg.cache_root.as_str(), "locks");
    let mut file = String::new();
    file.append("installer-");
    file.append(name);
    file.append("-");
    file.append(id);
    path_join(base.as_str(), file.as_str())
}

/// The cached copy of a script execution target.
pub open spec fn spec_exec_script_path(cfg: Config) -> Seq<char> {
    joined(joined(joined(cfg.cache_root@, "scripts"@), cfg.exec_script_id@), cfg.exec_script_name@)
}

/// Path of the cached copy of a script execution target.
pub fn exec_script_path(cfg: &Config) -> (r: String)
    ensures
        r@ == spec_exec_script_path(*cfg),
{
    let a = path_join(cfg.cache_root.as_str(), "scripts");
    let b = path_join(a.as_str(), cfg.exec_script_id.as_str());
    path_join(b.as_str(), cfg.exec_script_name.as_str())
}

/// The cached copy of a notebook execution target.
pub open spec fn spec_exec_notebook_path(cfg: Config) -> Seq<char> {
    joined(
        joined(joined(cfg.cache_root@, "notebooks"@), cfg.exec_notebook_id@),
        cfg.exec_notebook_name@,
    )
}

/// Path of the cached copy of a notebook execution target.
pub fn exec_notebook_path(cfg: &Config) -> (r: String)
    ensures
        r@ == spec_exec_notebook_path(*cfg),
{
    let a = path_join(cfg.cache_root.as_str(), "notebooks");
    let b = path_join(a.as_str(), cfg.exec_notebook_id.as_str());
    path_join(b.as_str(), cfg.exec_notebook_name.as_str())
}

/// The externally visible command name, when one is configured.
pub fn exposed_command(cfg: &Config) -> (r: String)
    ensures
        r@ == cfg.exposed_command@,
{
    cfg.exposed_command.clone()
}

/// The fingerprint of the runtime distribution.
pub fn distribution_id(cfg: &Config) -> (r: String)
    ensures
        r@ == cfg.distribution_id@,
{
    cfg.distribution_id.clone()
}

/// The interpreter flag that isolates it from the user environment.
pub fn python_isolation_flag(cfg: &Config) -> (r: String)
    ensures
        r@ == cfg.python_isolation_flag@,
{
    cfg.python_isolation_flag.clone()
}

/// The source locator of the runtime distribution.
pub fn distribution_source(cfg: &Config) -> (r: String)
    ensures
        r@ == cfg.distribution_source@,
{
    cfg.distribution_source.clone()
}

/// The declared archive format of the runtime distribution.
pub fn distribution_format(cfg: &Config) -> (r: String)
    ensures
        r@ == cfg.distribution_format@,
{
    cfg.distribution_format.clone()
}

/// The interpreter path relative to an unpacked distribution.
pub fn distribution_python_path(cfg: &Config) -> (r: String)
    ensures
        r@ == cfg.distribution_python_path@,
{
    cfg.distribution_python_path.clone()
}

/// The name of the application payload.
pub fn project_name(cfg: &Config) -> (r: String)
    ensures
        r@ == cfg.project_name@,
{
    cfg.project_name.clone()
}

/// The version of the application payload.
pub fn project_version(cfg: &Config) -> (r: String)
    ensures
        r@ == cfg.project_version@,
{
    cfg.project_version.clone()
}

/// The decoded dependency file contents, when one is configured.
pub fn project_dependency_file(cfg: &Config) -> (r: String)
    ensures
        r@ == cfg.project_dependency_file@,
{
    cfg.project_dependency_file.clone()
}

/// The file name under which the dependency file is materialized.
pub fn project_dependency_file_name(cfg: &Config) -> (r: String)
    ensures
        r@ == cfg.project_dependency_file_name@,
{
    cfg.project_dependency_file_name.clone()
}

/// The file name under which the embedded payload is materialized.
pub fn project_embed_file_name(cfg: &Config) -> (r: String)
    ensures
        r@ == cfg.project_embed_file_name@,
{
    cfg.project_embed_file_name.clone()
}

/// The module to execute, when the target is a module.
pub fn exec_module(cfg: &Config) -> (r: String)
    ensures
        r@ == cfg.exec_module@,
{
    cfg.exec_module.clone()
}

/// The inline code to execute, when the target is inline code.
pub fn exec_code(cfg: &Config) -> (r: String)
    ensures
        r@ == cfg.exec_code@,
{
    cfg.exec_code.clone()
}

/// The script contents to execute, when the target is a script.
pub fn exec_script(cfg: &Config) -> (r: String)
    ensures
        r@ == cfg.exec_script@,
{
    cfg.exec_script.clone()
}

/// The notebook contents to execute, when the target is a notebook.
pub fn exec_notebook(cfg: &Config) -> (r: String)
    ensures
        r@ == cfg.exec_notebook@,
{
    cfg.exec_notebook.clone()
}

/// The extras appended to the payload requirement.
pub fn pip_project_features(cfg: &Config) -> (r: String)
    ensures
        r@ == cfg.pip_project_features@,
{
    cfg.pip_project_features.clone()
}

/// The extra arguments passed to the installer.
pub fn pip_extra_args(cfg: &Config) -> (r: String)
    ensures
        r@ == cfg.pip_extra_args@,
{
    cfg.pip_extra_args.clone()
}

/// The declared version of the external installer artifact.
pub fn pip_version(cfg: &Config) -> (r: String)
    ensures
        r@ == cfg.pip_version@,
{
    cfg.pip_version.clone()
}

/// The declared version of the fast-installer artifact.
pub fn uv_version(cfg: &Config) -> (r: String)
    ensures
        r@ == cfg.uv_version@,
{
    cfg.uv_version.clone()
}

/// The release artifact name of the fast installer.
pub fn uv_artifact_name(cfg: &Config) -> (r: String)
    ensures
        r@ == cfg.uv_artifact_name@,
{
    cfg.uv_artifact_name.clone()
}

/// The template used when displaying metadata.
pub fn metadata_template(cfg: &Config) -> (r: String)
    ensures
        r@ == cfg.metadata_template@,
{
    cfg.metadata_template.clone()
}

/// Whether the distribution ships its own package installer.
pub fn distribution_pip_available(cfg: &Config) -> (r: bool)
    ensures
        r == cfg.distribution_pip_available,
{
    cfg.distribution_pip_available
}

/// Whether the installer may read user configuration.
pub fn pip_allow_config(cfg: &Config) -> (r: bool)
    ensures
        r == cfg.pip_allow_config,
{
    cfg.pip_allow_config
}

/// Whether the external installer zipapp is used.
pub fn pip_external(cfg: &Config) -> (r: bool)
    ensures
        r == cfg.pip_external,
{
    cfg.pip_external
}

/// Whether the fast installer is enabled at all.
pub fn uv_enabled(cfg: &Config) -> (r: bool)
    ensures
        r == cfg.uv_enabled,
{
    cfg.uv_enabled
}

/// Whether the fast installer only bootstraps the environment.
pub fn uv_only_bootstrap(cfg: &Config) -> (r: bool)
    ensures
        r == cfg.uv_only_bootstrap,
{
    cfg.uv_only_bootstrap
}

/// Whether the application is a windowed program.
pub fn is_gui(cfg: &Config) -> (r: bool)
    ensures
        r == cfg.is_gui,
{
    cfg.is_gui
}

/// Whether the runtime is unpacked directly into the installation.
pub fn full_isolation(cfg: &Config) -> (r: bool)
    ensures
        r == cfg.full_isolation,
{
    cfg.full_isolation
}

/// Whether the environment-creation tool is upgraded first.
pub fn upgrade_virtualenv(cfg: &Config) -> (r: bool)
    ensures
        r == cfg.upgrade_virtualenv,
{
    cfg.upgrade_virtualenv
}

/// Whether payload installation is omitted entirely.
pub fn skip_install(cfg: &Config) -> (r: bool)
    ensures
        r == cfg.skip_install,
{
    cfg.skip_install
}

/// Whether updates stay allowed when installation is omitted.
pub fn allow_updates(cfg: &Config) -> (r: bool)
    ensures
        r == cfg.allow_updates,
{
    cfg.allow_updates
}

/// Whether the marker variable carries the launcher's own path.
pub fn pass_location(cfg: &Config) -> (r: bool)
    ensures
        r == cfg.pass_location,
{
    cfg.pass_location
}

/// What decoding a baked-in option can yield besides text.
#[derive(Clone, Copy, PartialEq, Eq, Structural, Debug)]
pub enum DecodeError {
    /// The text is not valid base64.
    InvalidBase64,
    /// The decoded bytes are not valid character data.
    InvalidUtf8,
}

/// The decoded form of a base64-encoded option, named after the
/// outside decoder that computes it.
pub uninterp spec fn base64_decoded(s: Seq<char>) -> Option<Seq<u8>>;

/// Relies on the base64 crate's standard no-padding decoding: the
/// result is a function of the input text alone, and decoding either
/// yields the encoded bytes or fails.
#[verifier::external_body]
fn b64_decode(s: &str) -> (r: Option<Vec<u8>>)
    ensures
        match r {
            Some(v) => base64_decoded(s@) == Some(v@),
            None => base64_decoded(s@) is None,
        },
{
    base64::Engine::decode(&base64::engine::general_purpose::STANDARD_NO_PAD, s).ok()
}

/// Relies on std's String::from_utf8: it succeeds exactly on valid
/// UTF-8 and yields the decoded characters.
#[verifier::external_body]
fn utf8_string(bytes: Vec<u8>) -> (r: Option<String>)
    ensures
        r is Some <==> vstd::utf8::valid_utf8(bytes@),
        match r {
            Some(s) => s@ == vstd::utf8::decode_utf8(bytes@),
            None => true,
        },
{
    String::from_utf8(bytes).ok()
}

/// What decoding a baked-in option yields: the text the bytes encode,
/// or which of the two decoding stages failed.
pub open spec fn spec_decode_option(s: Seq<char>) -> Result<Seq<char>, DecodeError> {
    match base64_decoded(s) {
        None => Err(DecodeError::InvalidBase64),
        Some(b) => if vstd::utf8::valid_utf8(b) {
            Ok(vstd::utf8::decode_utf8(b))
        } else {
            Err(DecodeError::InvalidUtf8)
        },
    }
}

/// Decodes a base64-encoded build-time option into its text.
pub fn decode_option(encoded: &str) -> (r: Result<String, DecodeError>)
    ensures
        match r {
            Ok(s) => spec_decode_option(encoded@) == Ok::<Seq<char>, DecodeError>(s@),
            Err(e) => spec_decode_option(encoded@) == Err::<Seq<char>, DecodeError>(e),
        },
{
    match b64_decode(encoded) {
        None => Err(DecodeError::InvalidBase64),
        Some(b) => match utf8_string(b) {
            Some(s) => Ok(s),
            None => Err(DecodeError::InvalidUtf8),
        },
    }
}

} // verus!
