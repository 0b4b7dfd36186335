//! Displaying payload metadata from the installed distribution
//! information.

use vstd::prelude::*;

use crate::config::Config;
use crate::distribution::WorldView;
use crate::strutil::{ends_with, ends_with_seq, replace_all, replace_all_seq, starts_with, starts_with_seq};

verus! {

/// The metadata command.
pub struct Cli {}

impl Cli {
    /// Whether there is an installation whose metadata can be shown.
    pub fn exec(self, w: &WorldView) -> (r: bool)
        ensures
            r == w.install_dir_present,
    {
        w.install_dir_present
    }
}

/// The prefix that the payload's distribution-information directory
/// carries: the payload name, underscored, and a dash.
pub open spec fn spec_dist_info_prefix(cfg: Config) -> Seq<char> {
    replace_all_seq(cfg.project_name@, "-"@, "_"@) + "-"@
}

/// The prefix that the payload's distribution-information directory
/// carries.
pub fn dist_info_prefix(cfg: &Config) -> (r: String)
    ensures
        r@ == spec_dist_info_prefix(*cfg),
{
    let mut s = replace_all(cfg.project_name.as_str(), "-", "_");
    s.append("-");
    s
}

/// Whether a directory entry is the payload's distribution
/// information: the expected prefix, the expected suffix, and a name
/// long enough to carry a version after the prefix.
pub open spec fn spec_is_dist_info(name: Seq<char>, prefix: Seq<char>) -> bool {
    ends_with_seq(name, ".dist-info"@) && starts_with_seq(name, prefix) && name.len() > prefix.len()
        + 1
}

/// Finds the first directory entry holding the payload's distribution
/// information.
pub fn find_dist_info(prefix: &String, entries: &Vec<String>) -> (r: Option<String>)
    ensures
        match r {
            Some(name) => exists|i: int|
                0 <= i < entries.deep_view().len() && entries.deep_view()[i] == name@
                    && spec_is_dist_info(name@, prefix@) && forall|j: int|
                    0 <= j < i ==> !spec_is_dist_info(#[trigger] entries.deep_view()[j], prefix@),
            None => forall|j: int|
                0 <= j < entries.deep_view().len() ==> !spec_is_dist_info(
                    #[trigger] entries.deep_view()[j],
                    prefix@,
                ),
        },
{
    let n = entries.len();
    let mut i: usize = 0;
    while i < n
        invariant
            i <= n,
            n == entries@.len(),
            forall|j: int|
                0 <= j < i ==> !spec_is_dist_info(#[trigger] entries.deep_view()[j], prefix@),
        decreases n - i,
    {
        let name = &entries[i];
        proof {
            assert(entries.deep_view()[i as int] == entries@[i as int]@);
        }
        if ends_with(name.as_str(), ".dist-info") && starts_with(name.as_str(), prefix.as_str())
            && name.as_str().unicode_len() - prefix.as_str().unicode_len() > 1 {
            return Some(name.clone());
        }
        i += 1;
    }
    None
}

/// The version recorded in a metadata text: what follows the version
/// marker on the first line that carries it.
pub open spec fn spec_version_of_line(l: Seq<char>) -> Option<Seq<char>> {
    if starts_with_seq(l, "Version: "@) {
        Some(l.skip("Version: "@.len() as int))
    } else {
        None
    }
}

/// The first version line of the metadata lines.
pub open spec fn spec_extract_version(lines: Seq<Seq<char>>) -> Option<Seq<char>>
    decreases lines.len(),
{
    if lines.len() == 0 {
        None
    } else {
        match spec_version_of_line(lines[0]) {
            Some(v) => Some(v),
            None => spec_extract_version(lines.skip(1)),
        }
    }
}

/// Extracts the payload version from the metadata lines.
pub fn extract_version(lines: &Vec<String>) -> (r: Option<String>)
    ensures
        match r {
            Some(v) => spec_extract_version(lines.deep_view()) == Some(v@),
            None => spec_extract_version(lines.deep_view()) is None,
        },
{
    let n = lines.len();
    let mut i: usize = 0;
    proof {
        assert(lines.deep_view().skip(0) =~~= lines.deep_view());
    }
    while i < n
        invariant
            i <= n,
            n == lines@.len(),
            spec_extract_version(lines.deep_view().skip(i as int)) == spec_extract_version(
                lines.deep_view(),
            ),
        decreases n - i,
    {
        let l = &lines[i];
        proof {
            assert(lines.deep_view().skip(i as int)[0] == lines@[i as int]@);
            assert(lines.deep_view().skip(i as int).skip(1) =~~= lines.deep_view().skip(i + 1));
        }
        if starts_with(l.as_str(), "Version: ") {
            let plen = "Version: ".unicode_len();
            let v = l.as_str().substring_char(plen, l.as_str().unicode_len()).to_owned();
            proof {
                assert(v@ =~= lines@[i as int]@.skip("Version: "@.len() as int));
            }
            return Some(v);
        }
        i += 1;
    }
    proof {
        assert(lines.deep_view().skip(n as int) =~= Seq::<Seq<char>>::empty());
    }
    None
}

/// The metadata display text: the configured template with the
/// payload name and version substituted.
pub open spec fn spec_render_metadata(cfg: Config, version: Seq<char>) -> Seq<char> {
    replace_all_seq(
        replace_all_seq(cfg.metadata_template@, "{project}"@, cfg.project_name@),
        "{version}"@,
        version,
    )
}

/// Renders the metadata display text.
pub fn render_metadata(cfg: &Config, version: &str) -> (r: String)
    ensures
        r@ == spec_render_metadata(*cfg, version@),
{
    let a = replace_all(cfg.metadata_template.as_str(), "{project}", cfg.project_name.as_str());
    replace_all(a.as_str(), "{version}", version)
}

} // verus!
