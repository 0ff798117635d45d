//! The data of a Flatpak manifest and its rendering from a template.

use vstd::prelude::*;

use crate::error::BundleError;
use crate::settings::{binary_names, BundleBinary, BundleSettings};

verus! {

/// The manifest template that a bundling run renders. It reads the keys
/// `app_id`, `app_name`, `main_binary` and the list `binary`.
pub const MANIFEST_TEMPLATE: &'static str = r#"{
  "app_id": "{{app_id}}",
  "runtime": "org.gnome.Platform",
  "runtime-version": "46",
  "sdk": "org.gnome.Sdk",
  "sdk-extensions": ["org.freedesktop.Sdk.Extension.rust-stable"],
  "command": "{{main_binary}}",
  "finish-args": [
    "--socket=wayland",
    "--socket=fallback-x11",
    "--share=ipc",
    "--device=dri"
  ],
  "build-options": {
    "append-path": "/usr/lib/sdk/rust-stable/bin",
    "env": { "CARGO_HOME": "/run/build/{{main_binary}}/cargo" }
  },
  "modules": [
    {
      "name": "{{app_name}}",
      "buildsystem": "simple",
      "build-commands": [
        "cargo --offline fetch --manifest-path Cargo.toml",
        "cargo --offline build --release"{{#each binary}},
        "install -Dm755 target/release/{{this}} /app/bin/{{this}}"{{/each}}
      ],
      "sources": [
        { "type": "dir", "path": "../../../.." },
        "generated-sources.json"
      ]
    }
  ]
}
"#;

/// The values that fill the manifest template.
pub struct ManifestMap {
    pub app_id: String,
    pub app_name: String,
    pub main_binary: String,
    /// The name of each binary that the bundle installs.
    pub binary: Vec<String>,
}

impl ManifestMap {
    /// The manifest data of `settings`: its identifier, product name, main
    /// binary and the names of its binaries, in order.
    pub open spec fn spec_of(self, settings: BundleSettings) -> bool {
        &&& self.app_id@ == settings.bundle_identifier@
        &&& self.app_name@ == settings.product_name@
        &&& self.main_binary@ == settings.main_binary_name@
        &&& self.binary@.map_values(|b: String| b@) == binary_names(settings.binaries@)
    }

    /// Collects the manifest data from `settings`.
    pub fn from_settings(settings: &BundleSettings) -> (r: ManifestMap)
        ensures
            r.spec_of(*settings),
    {
        let mut names: Vec<String> = Vec::new();
        let n = settings.binaries.len();
        for i in 0..n
            invariant
                n == settings.binaries@.len(),
                names@.len() == i,
                forall|k: int| 0 <= k < i ==> #[trigger] names@[k]@ == settings.binaries@[k].name@,
        {
            let b: &BundleBinary = &settings.binaries[i];
            names.push(b.name.clone());
        }
        let r = ManifestMap {
            app_id: settings.bundle_identifier.clone(),
            app_name: settings.product_name.clone(),
            main_binary: settings.main_binary_name.clone(),
            binary: names,
        };
        assert(r.binary@.map_values(|b: String| b@) =~= binary_names(settings.binaries@));
        r
    }
}

} // verus!

verus! {

#[verifier::external_type_specification]
#[verifier::external_body]
pub struct ExRenderError(handlebars::RenderError);

/// What handlebars renders from `template` in strict mode over an object with
/// the keys `app_id`, `app_name`, `main_binary` (strings) and `binary` (a list
/// of strings); `None` where it reports an error.
pub uninterp spec fn strict_render(
    template: Seq<char>,
    app_id: Seq<char>,
    app_name: Seq<char>,
    main_binary: Seq<char>,
    binary: Seq<Seq<char>>,
) -> Option<Seq<char>>;

impl ManifestMap {
    /// What [`MANIFEST_TEMPLATE`] renders to over this data, if anything.
    pub open spec fn rendered(self) -> Option<Seq<char>> {
        strict_render(
            MANIFEST_TEMPLATE@,
            self.app_id@,
            self.app_name@,
            self.main_binary@,
            self.binary@.map_values(|b: String| b@),
        )
    }
}

/// Relies on handlebars' `Registry::render_template` with strict mode on, on
/// the fixed [`MANIFEST_TEMPLATE`] (which has no partials, so rendering it
/// ends): a reference to a key that the data lacks is an error, and the
/// outcome depends on the template and the data alone.
#[verifier::external_body]
fn render_strict(data: &ManifestMap) -> (r: Result<String, handlebars::RenderError>)
    ensures
        r is Ok <==> strict_render(
            MANIFEST_TEMPLATE@,
            data.app_id@,
            data.app_name@,
            data.main_binary@,
            data.binary@.map_values(|b: String| b@),
        ) is Some,
        r is Ok ==> strict_render(
            MANIFEST_TEMPLATE@,
            data.app_id@,
            data.app_name@,
            data.main_binary@,
            data.binary@.map_values(|b: String| b@),
        ) == Some(r->Ok_0@),
{
    let mut object = serde_json::Map::new();
    object.insert("app_id".to_owned(), data.app_id.as_str().into());
    object.insert("app_name".to_owned(), data.app_name.as_str().into());
    object.insert("main_binary".to_owned(), data.main_binary.as_str().into());
    object.insert("binary".to_owned(), data.binary.clone().into());
    let mut registry = handlebars::Handlebars::new();
    registry.set_strict_mode(true);
    registry.render_template(MANIFEST_TEMPLATE, &serde_json::Value::Object(object))
}

/// Relies on the `Display` impl of handlebars' `RenderError` for a readable
/// description of the failure.
#[verifier::external_body]
fn describe_render_error(e: &handlebars::RenderError) -> String {
    e.to_string()
}

/// Renders [`MANIFEST_TEMPLATE`] over `data` in strict mode, failing where the
/// template refers to a key that `data` does not provide.
pub fn render_manifest(data: &ManifestMap) -> (r: Result<String, BundleError>)
    ensures
        match r {
            Ok(s) => data.rendered() == Some(s@),
            Err(e) => data.rendered() is None && e is Template,
        },
{
    match render_strict(data) {
        Ok(s) => Ok(s),
        Err(e) => Err(BundleError::Template { detail: describe_render_error(&e) }),
    }
}

} // verus!
