//! The build configuration that a bundling run reads.

use vstd::prelude::*;

verus! {

/// One binary of the project that the bundle installs.
pub struct BundleBinary {
    pub name: String,
    pub path: String,
}

/// Read-only settings of one bundling run.
pub struct BundleSettings {
    /// Directory under which `bundle/flatpak` and `bundle/flatpak_build` live.
    pub project_out_directory: String,
    /// Reverse-DNS application id, such as `com.example.app`.
    pub bundle_identifier: String,
    pub product_name: String,
    pub main_binary_name: String,
    pub binaries: Vec<BundleBinary>,
    /// Sidecar binaries; the manifest does not list them.
    pub external_binaries: Vec<String>,
}

/// The names of `binaries`, in order.
pub open spec fn binary_names(binaries: Seq<BundleBinary>) -> Seq<Seq<char>> {
    binaries.map_values(|b: BundleBinary| b.name@)
}

} // verus!
