//! Paths of one Flatpak bundling run, written as `/`-separated strings.

use vstd::prelude::*;
use vstd::string::StrSliceExecFns;
use vstd::string::StringExecFns;

verus! {

/// `base` joined with the relative path `rest`, as `Path::join` does for a
/// relative argument: no separator after an empty base or after one that
/// already ends with `/`.
pub open spec fn join_spec(base: Seq<char>, rest: Seq<char>) -> Seq<char> {
    if base.len() == 0 {
        rest
    } else if base.last() == '/' {
        base + rest
    } else {
        base + seq!['/'] + rest
    }
}

/// Joins the relative path `rest` onto `base`.
pub fn join(base: &str, rest: &str) -> (r: String)
    ensures
        r@ == join_spec(base@, rest@),
{
    let n = base.unicode_len();
    if n == 0 {
        rest.to_owned()
    } else if base.get_char(n - 1) == '/' {
        String::from_str(base).concat(rest)
    } else {
        let r = String::from_str(base).concat("/").concat(rest);
        proof {
            reveal_strlit("/");
            assert(r@ =~= base@ + seq!['/'] + rest@);
        }
        r
    }
}

} // verus!

verus! {

/// Where one run puts its files.
pub struct BundleLayout {
    /// Final artifacts: the manifest, the generated sources, the bundle.
    pub output_dir: String,
    /// Scratch area: the generator script, the repository, the build tree.
    pub build_dir: String,
    /// `<output_dir>/<bundle_identifier>.json`
    pub manifest_path: String,
    /// `<build_dir>/flatpak-cargo-generator.py`
    pub generator_path: String,
    /// `<output_dir>/generated-sources.json`
    pub sources_path: String,
    /// `<build_dir>/repo`
    pub repository_dir: String,
    /// `<bundle_identifier>.flatpak`
    pub bundle_name: String,
    /// `<output_dir>/<bundle_identifier>.flatpak`
    pub bundle_path: String,
}

pub open spec fn output_dir_spec(out: Seq<char>) -> Seq<char> {
    join_spec(out, "bundle/flatpak"@)
}

pub open spec fn build_dir_spec(out: Seq<char>) -> Seq<char> {
    join_spec(out, "bundle/flatpak_build"@)
}

pub open spec fn manifest_name_spec(id: Seq<char>) -> Seq<char> {
    id + ".json"@
}

pub open spec fn bundle_name_spec(id: Seq<char>) -> Seq<char> {
    id + ".flatpak"@
}

impl BundleLayout {
    /// The layout of a run over the project output directory `out` for the
    /// application `id`.
    pub open spec fn spec_for(self, out: Seq<char>, id: Seq<char>) -> bool {
        &&& self.output_dir@ == output_dir_spec(out)
        &&& self.build_dir@ == build_dir_spec(out)
        &&& self.manifest_path@ == join_spec(output_dir_spec(out), manifest_name_spec(id))
        &&& self.generator_path@ == join_spec(build_dir_spec(out), "flatpak-cargo-generator.py"@)
        &&& self.sources_path@ == join_spec(output_dir_spec(out), "generated-sources.json"@)
        &&& self.repository_dir@ == join_spec(build_dir_spec(out), "repo"@)
        &&& self.bundle_name@ == bundle_name_spec(id)
        &&& self.bundle_path@ == join_spec(output_dir_spec(out), bundle_name_spec(id))
    }

    /// Computes the layout under `project_out_directory` for `bundle_identifier`.
    pub fn new(project_out_directory: &str, bundle_identifier: &str) -> (r: BundleLayout)
        ensures
            r.spec_for(project_out_directory@, bundle_identifier@),
    {
        let output_dir = join(project_out_directory, "bundle/flatpak");
        let build_dir = join(project_out_directory, "bundle/flatpak_build");
        let manifest_name = String::from_str(bundle_identifier).concat(".json");
        let bundle_name = String::from_str(bundle_identifier).concat(".flatpak");
        let manifest_path = join(output_dir.as_str(), manifest_name.as_str());
        let generator_path = join(build_dir.as_str(), "flatpak-cargo-generator.py");
        let sources_path = join(output_dir.as_str(), "generated-sources.json");
        let repository_dir = join(build_dir.as_str(), "repo");
        let bundle_path = join(output_dir.as_str(), bundle_name.as_str());
        BundleLayout {
            output_dir,
            build_dir,
            manifest_path,
            generator_path,
            sources_path,
            repository_dir,
            bundle_name,
            bundle_path,
        }
    }
}

} // verus!
