//! The ordered steps of a bundling run: staging, writing the manifest and the
//! generator script, and the three external tools.

use vstd::prelude::*;
use vstd::string::StringExecFns;

use crate::error::BundleError;
use crate::manifest::{render_manifest, strict_render, ManifestMap, MANIFEST_TEMPLATE};
use crate::paths::BundleLayout;
use crate::settings::{binary_names, BundleSettings};

verus! {

/// What a step asks of the file system or of the machine.
pub enum Action {
    /// Remove the directory and everything under it, if it exists.
    RemoveDirIfExists { path: String },
    /// Create the directory and any missing parents.
    CreateDirAll { path: String },
    /// Generate the application's desktop file and icon files into the
    /// directory.
    GenerateDesktopFiles { dir: String },
    /// Write `contents` to the file, replacing it.
    WriteFile { path: String, contents: String },
    /// Run `program` with `args` and wait for it to exit with success.
    Run { program: String, args: Vec<String> },
}

/// The mathematical value of an [`Action`].
pub enum ActionModel {
    RemoveDirIfExists(Seq<char>),
    CreateDirAll(Seq<char>),
    GenerateDesktopFiles(Seq<char>),
    WriteFile(Seq<char>, Seq<char>),
    Run(Seq<char>, Seq<Seq<char>>),
}

pub open spec fn strings_view(v: Seq<String>) -> Seq<Seq<char>> {
    v.map_values(|s: String| s@)
}

impl View for Action {
    type V = ActionModel;

    open spec fn view(&self) -> ActionModel {
        match self {
            Action::RemoveDirIfExists { path } => ActionModel::RemoveDirIfExists(path@),
            Action::CreateDirAll { path } => ActionModel::CreateDirAll(path@),
            Action::GenerateDesktopFiles { dir } => ActionModel::GenerateDesktopFiles(dir@),
            Action::WriteFile { path, contents } => ActionModel::WriteFile(path@, contents@),
            Action::Run { program, args } => ActionModel::Run(program@, strings_view(args@)),
        }
    }
}

/// One named step: an action, and the stage description that an error of
/// that action carries.
pub struct Step {
    pub action: Action,
    pub context: String,
}

pub struct StepModel {
    pub action: ActionModel,
    pub context: Seq<char>,
}

impl View for Step {
    type V = StepModel;

    open spec fn view(&self) -> StepModel {
        StepModel { action: self.action@, context: self.context@ }
    }
}

pub open spec fn steps_view(v: Seq<Step>) -> Seq<StepModel> {
    v.map_values(|s: Step| s@)
}

pub open spec fn remove_model(path: Seq<char>) -> StepModel {
    StepModel { action: ActionModel::RemoveDirIfExists(path), context: "failed to remove "@ + path }
}

pub open spec fn create_model(path: Seq<char>) -> StepModel {
    StepModel { action: ActionModel::CreateDirAll(path), context: "failed to create "@ + path }
}

pub open spec fn desktop_model(dir: Seq<char>) -> StepModel {
    StepModel {
        action: ActionModel::GenerateDesktopFiles(dir),
        context: "failed to generate the desktop file and icons in "@ + dir,
    }
}

pub open spec fn write_model(path: Seq<char>, contents: Seq<char>) -> StepModel {
    StepModel { action: ActionModel::WriteFile(path, contents), context: "failed to write "@ + path }
}

pub open spec fn sources_context() -> Seq<char> {
    "failed to generate Cargo sources file for Flatpak manifest"@
}

pub open spec fn build_context() -> Seq<char> {
    "failed to build Flatpak"@
}

pub open spec fn export_context() -> Seq<char> {
    "failed to export Flatpak bundle"@
}

/// The command that writes the Cargo sources file from `Cargo.lock`.
pub open spec fn sources_model(layout: BundleLayout) -> StepModel {
    StepModel {
        action: ActionModel::Run(
            "python3"@,
            seq![layout.generator_path@, "-o"@, layout.sources_path@, "Cargo.lock"@],
        ),
        context: sources_context(),
    }
}

/// The command that builds the application into the local repository.
pub open spec fn build_model(layout: BundleLayout) -> StepModel {
    StepModel {
        action: ActionModel::Run(
            "flatpak-builder"@,
            seq![
                "--state-dir="@ + layout.build_dir@ + "/.flatpak-builder"@,
                "--repo="@ + layout.repository_dir@,
                layout.build_dir@ + "/build"@,
                layout.manifest_path@,
            ],
        ),
        context: build_context(),
    }
}

/// The command that exports the single-file bundle from the repository.
pub open spec fn export_model(layout: BundleLayout, id: Seq<char>) -> StepModel {
    StepModel {
        action: ActionModel::Run(
            "flatpak"@,
            seq!["build-bundle"@, layout.repository_dir@, layout.bundle_path@, id],
        ),
        context: export_context(),
    }
}

/// The four staging steps: both directories wiped, then both created empty.
pub open spec fn staging_models(layout: BundleLayout) -> Seq<StepModel> {
    seq![
        remove_model(layout.output_dir@),
        remove_model(layout.build_dir@),
        create_model(layout.output_dir@),
        create_model(layout.build_dir@),
    ]
}

/// The steps of every run, whether or not the manifest renders: staging,
/// then the desktop file and icons in the output directory.
pub open spec fn prepare_models(layout: BundleLayout) -> Seq<StepModel> {
    staging_models(layout).push(desktop_model(layout.output_dir@))
}

/// Every step of a run, in order. Where the manifest did not render, the run
/// stops after the preparing steps.
pub open spec fn plan_models(
    layout: BundleLayout,
    id: Seq<char>,
    manifest: Option<Seq<char>>,
    script: Seq<char>,
) -> Seq<StepModel> {
    match manifest {
        Some(m) => prepare_models(layout) + seq![
            write_model(layout.manifest_path@, m),
            write_model(layout.generator_path@, script),
            sources_model(layout),
            build_model(layout),
            export_model(layout, id),
        ],
        None => prepare_models(layout),
    }
}

/// The manifest that `settings` renders to, if any.
pub open spec fn manifest_text(settings: BundleSettings) -> Option<Seq<char>> {
    strict_render(
        MANIFEST_TEMPLATE@,
        settings.bundle_identifier@,
        settings.product_name@,
        settings.main_binary_name@,
        binary_names(settings.binaries@),
    )
}

fn prefixed(prefix: &str, s: &str) -> (r: String)
    ensures
        r@ == prefix@ + s@,
{
    String::from_str(prefix).concat(s)
}

fn remove_step(path: &String) -> (r: Step)
    ensures
        r@ == remove_model(path@),
{
    Step {
        action: Action::RemoveDirIfExists { path: path.clone() },
        context: prefixed("failed to remove ", path.as_str()),
    }
}

fn create_step(path: &String) -> (r: Step)
    ensures
        r@ == create_model(path@),
{
    Step {
        action: Action::CreateDirAll { path: path.clone() },
        context: prefixed("failed to create ", path.as_str()),
    }
}

fn desktop_step(dir: &String) -> (r: Step)
    ensures
        r@ == desktop_model(dir@),
{
    Step {
        action: Action::GenerateDesktopFiles { dir: dir.clone() },
        context: prefixed("failed to generate the desktop file and icons in ", dir.as_str()),
    }
}

fn write_step(path: &String, contents: String) -> (r: Step)
    ensures
        r@ == write_model(path@, contents@),
{
    Step {
        action: Action::WriteFile { path: path.clone(), contents },
        context: prefixed("failed to write ", path.as_str()),
    }
}

fn sources_step(layout: &BundleLayout) -> (r: Step)
    ensures
        r@ == sources_model(*layout),
{
    let mut args: Vec<String> = Vec::new();
    args.push(layout.generator_path.clone());
    args.push(String::from_str("-o"));
    args.push(layout.sources_path.clone());
    args.push(String::from_str("Cargo.lock"));
    let r = Step {
        action: Action::Run { program: String::from_str("python3"), args },
        context: String::from_str("failed to generate Cargo sources file for Flatpak manifest"),
    };
    assert(strings_view(args@) =~= seq![
        layout.generator_path@, "-o"@, layout.sources_path@, "Cargo.lock"@]);
    r
}

fn build_step(layout: &BundleLayout) -> (r: Step)
    ensures
        r@ == build_model(*layout),
{
    let mut args: Vec<String> = Vec::new();
    args.push(prefixed("--state-dir=", layout.build_dir.as_str()).concat("/.flatpak-builder"));
    args.push(prefixed("--repo=", layout.repository_dir.as_str()));
    args.push(layout.build_dir.clone().concat("/build"));
    args.push(layout.manifest_path.clone());
    let r = Step {
        action: Action::Run { program: String::from_str("flatpak-builder"), args },
        context: String::from_str("failed to build Flatpak"),
    };
    assert(strings_view(args@) =~= seq![
        "--state-dir="@ + layout.build_dir@ + "/.flatpak-builder"@,
        "--repo="@ + layout.repository_dir@,
        layout.build_dir@ + "/build"@,
        layout.manifest_path@,
    ]);
    r
}

fn export_step(layout: &BundleLayout, id: &String) -> (r: Step)
    ensures
        r@ == export_model(*layout, id@),
{
    let mut args: Vec<String> = Vec::new();
    args.push(String::from_str("build-bundle"));
    args.push(layout.repository_dir.clone());
    args.push(layout.bundle_path.clone());
    args.push(id.clone());
    let r = Step {
        action: Action::Run { program: String::from_str("flatpak"), args },
        context: String::from_str("failed to export Flatpak bundle"),
    };
    assert(strings_view(args@) =~= seq![
        "build-bundle"@, layout.repository_dir@, layout.bundle_path@, id@]);
    r
}

} // verus!

verus! {

/// Everything a run will do, worked out before anything is touched.
pub struct BundlePlan {
    pub layout: BundleLayout,
    pub steps: Vec<Step>,
    /// The paths handed back once every step has succeeded.
    pub artifacts: Vec<String>,
    /// Why the manifest did not render, if it did not: the run then fails
    /// with this once its steps, which stage the directories, are done.
    pub template_failure: Option<String>,
}

impl BundlePlan {
    /// The plan of a run for `settings` with the generator `script`.
    pub open spec fn spec_for(self, settings: BundleSettings, script: Seq<char>) -> bool {
        &&& self.layout.spec_for(settings.project_out_directory@, settings.bundle_identifier@)
        &&& steps_view(self.steps@) == plan_models(
            self.layout,
            settings.bundle_identifier@,
            manifest_text(settings),
            script,
        )
        &&& strings_view(self.artifacts@) == seq![self.layout.bundle_path@]
        &&& (self.template_failure is Some <==> manifest_text(settings) is None)
    }
}

/// Works out the run for `settings`: renders the manifest template (strict: a
/// key that the manifest data lacks is an error) and lists the steps that
/// stage the directories, generate the desktop file and icons, write the
/// manifest and the generator `script`, and run the sources generator, the
/// builder and the exporter. Where the manifest does not render, the run
/// still stages the directories and generates the desktop files, then fails.
/// Nothing is touched on disk.
pub fn bundle_plan(settings: &BundleSettings, script: &str) -> (r: BundlePlan)
    ensures
        r.spec_for(*settings, script@),
{
    let layout = BundleLayout::new(
        settings.project_out_directory.as_str(),
        settings.bundle_identifier.as_str(),
    );
    let data = ManifestMap::from_settings(settings);
    let rendered = render_manifest(&data);
    let mut steps: Vec<Step> = Vec::new();
    steps.push(remove_step(&layout.output_dir));
    steps.push(remove_step(&layout.build_dir));
    steps.push(create_step(&layout.output_dir));
    steps.push(create_step(&layout.build_dir));
    steps.push(desktop_step(&layout.output_dir));
    let mut artifacts: Vec<String> = Vec::new();
    artifacts.push(layout.bundle_path.clone());
    assert(strings_view(artifacts@) =~= seq![layout.bundle_path@]);
    match rendered {
        Ok(manifest) => {
            let ghost text = manifest@;
            steps.push(write_step(&layout.manifest_path, manifest));
            steps.push(write_step(&layout.generator_path, String::from_str(script)));
            steps.push(sources_step(&layout));
            steps.push(build_step(&layout));
            steps.push(export_step(&layout, &settings.bundle_identifier));
            assert(steps_view(steps@) =~= plan_models(
                layout,
                settings.bundle_identifier@,
                Some(text),
                script@,
            ));
            BundlePlan { layout, steps, artifacts, template_failure: None }
        },
        Err(e) => {
            let detail = match e {
                BundleError::Template { detail } => detail,
                BundleError::Filesystem { detail, .. } => detail,
                BundleError::Subprocess { detail, .. } => detail,
            };
            assert(steps_view(steps@) =~= plan_models(
                layout,
                settings.bundle_identifier@,
                None,
                script@,
            ));
            BundlePlan { layout, steps, artifacts, template_failure: Some(detail) }
        },
    }
}

/// A plan that renders and succeeds to its end leaves
/// `<bundle_identifier>.json` and `<bundle_identifier>.flatpak` in the output
/// directory: the output directory is created, the manifest is written there,
/// no later step removes it, the builder runs just before the last step, which
/// exports the bundle there, and the bundle is the artifact handed back.
pub proof fn lemma_plan_outputs(plan: BundlePlan, settings: BundleSettings, script: Seq<char>)
    requires
        plan.spec_for(settings, script),
        manifest_text(settings) is Some,
    ensures
        ({
            let out = crate::paths::output_dir_spec(settings.project_out_directory@);
            let id = settings.bundle_identifier@;
            let steps = steps_view(plan.steps@);
            &&& plan.template_failure is None
            &&& plan.layout.manifest_path@ == crate::paths::join_spec(out, id + ".json"@)
            &&& plan.layout.bundle_path@ == crate::paths::join_spec(out, id + ".flatpak"@)
            &&& steps.len() == 10
            &&& steps[2].action == ActionModel::CreateDirAll(out)
            &&& steps[5].action == ActionModel::WriteFile(
                plan.layout.manifest_path@,
                manifest_text(settings)->0,
            )
            &&& steps[8] == build_model(plan.layout)
            &&& steps[9].action == ActionModel::Run(
                "flatpak"@,
                seq!["build-bundle"@, plan.layout.repository_dir@, plan.layout.bundle_path@, id],
            )
            &&& forall|i: int| 3 <= i < 10 ==> !(#[trigger] steps[i].action is RemoveDirIfExists)
            &&& strings_view(plan.artifacts@) == seq![plan.layout.bundle_path@]
        }),
{
    let steps = steps_view(plan.steps@);
    let models = plan_models(plan.layout, settings.bundle_identifier@, manifest_text(settings), script);
    assert forall|i: int| 3 <= i < 10 implies !(#[trigger] steps[i].action is RemoveDirIfExists) by {
        assert(steps[i] == models[i]);
    }
}

/// When the manifest does not render, the run still wipes and recreates the
/// output and build directories and generates the desktop files, writes no
/// manifest, runs no tool, and then fails: no manifest, old or new, is left
/// in the output directory.
pub proof fn lemma_render_failure_writes_no_manifest(plan: BundlePlan, settings: BundleSettings, script: Seq<char>)
    requires
        plan.spec_for(settings, script),
        manifest_text(settings) is None,
    ensures
        plan.template_failure is Some,
        steps_view(plan.steps@) == prepare_models(plan.layout),
        steps_view(plan.steps@)[0] == remove_model(plan.layout.output_dir@),
        forall|i: int| 0 <= i < plan.steps@.len() ==> !(#[trigger] steps_view(plan.steps@)[i].action is WriteFile)
            && !(steps_view(plan.steps@)[i].action is Run),
{
    let steps = steps_view(plan.steps@);
    let l = plan.layout;
    assert(prepare_models(l) =~= seq![
        remove_model(l.output_dir@),
        remove_model(l.build_dir@),
        create_model(l.output_dir@),
        create_model(l.build_dir@),
        desktop_model(l.output_dir@),
    ]);
    assert(steps[0] == prepare_models(plan.layout)[0]);
    assert forall|i: int| 0 <= i < plan.steps@.len() implies !(#[trigger] steps[i].action is WriteFile)
        && !(steps[i].action is Run) by {
        assert(steps[i] == prepare_models(plan.layout)[i]);
    }
}

/// Staging is the same on every run with the same configuration, whether or
/// not the manifest renders: two plans for the same settings and script are
/// step for step equal, and each begins by removing the output and build
/// directories and creating them again.
pub proof fn lemma_staging_repeatable(
    first: BundlePlan,
    second: BundlePlan,
    settings: BundleSettings,
    script: Seq<char>,
)
    requires
        first.spec_for(settings, script),
        second.spec_for(settings, script),
    ensures
        steps_view(first.steps@) == steps_view(second.steps@),
        steps_view(first.steps@).subrange(0, 4) == seq![
            remove_model(first.layout.output_dir@),
            remove_model(first.layout.build_dir@),
            create_model(first.layout.output_dir@),
            create_model(first.layout.build_dir@),
        ],
{
    assert(steps_view(first.steps@).subrange(0, 4) =~= staging_models(first.layout));
}

} // verus!
