use flatpak_bundle::driver::{advance, start, Decision, StepOutcome};
use flatpak_bundle::error::BundleError;
use flatpak_bundle::manifest::{render_manifest, ManifestMap, MANIFEST_TEMPLATE};
use flatpak_bundle::paths::{join, BundleLayout};
use flatpak_bundle::plan::{bundle_plan, Action, BundlePlan, Step};
use flatpak_bundle::settings::{BundleBinary, BundleSettings};

fn example_settings() -> BundleSettings {
    BundleSettings {
        project_out_directory: "target/release".to_string(),
        bundle_identifier: "com.example.app".to_string(),
        product_name: "Example".to_string(),
        main_binary_name: "example".to_string(),
        binaries: vec![BundleBinary {
            name: "example".to_string(),
            path: "target/release/example".to_string(),
        }],
        external_binaries: vec![],
    }
}

fn example_plan() -> BundlePlan {
    let p = bundle_plan(&example_settings(), "print('generator')\n");
    assert!(p.template_failure.is_none());
    p
}

fn run_args(action: &Action) -> (String, Vec<String>) {
    match action {
        Action::Run { program, args } => (program.clone(), args.clone()),
        _ => panic!("not a command"),
    }
}

#[test]
fn join_adds_one_separator() {
    assert_eq!(join("target/release", "bundle/flatpak"), "target/release/bundle/flatpak");
    assert_eq!(join("target/release/", "bundle/flatpak"), "target/release/bundle/flatpak");
    assert_eq!(join("", "bundle/flatpak"), "bundle/flatpak");
    assert_eq!(join("/", "repo"), "/repo");
}

#[test]
fn layout_of_example() {
    let l = BundleLayout::new("target/release", "com.example.app");
    assert_eq!(l.output_dir, "target/release/bundle/flatpak");
    assert_eq!(l.build_dir, "target/release/bundle/flatpak_build");
    assert_eq!(l.manifest_path, "target/release/bundle/flatpak/com.example.app.json");
    assert_eq!(l.generator_path, "target/release/bundle/flatpak_build/flatpak-cargo-generator.py");
    assert_eq!(l.sources_path, "target/release/bundle/flatpak/generated-sources.json");
    assert_eq!(l.repository_dir, "target/release/bundle/flatpak_build/repo");
    assert_eq!(l.bundle_name, "com.example.app.flatpak");
    assert_eq!(l.bundle_path, "target/release/bundle/flatpak/com.example.app.flatpak");
}

#[test]
fn manifest_data_lists_binaries_in_order() {
    let mut s = example_settings();
    s.binaries.push(BundleBinary { name: "helper".to_string(), path: "target/release/helper".to_string() });
    s.external_binaries.push("sidecar".to_string());
    let m = ManifestMap::from_settings(&s);
    assert_eq!(m.app_id, "com.example.app");
    assert_eq!(m.app_name, "Example");
    assert_eq!(m.main_binary, "example");
    assert_eq!(m.binary, vec!["example".to_string(), "helper".to_string()]);
}

#[test]
fn render_fills_the_keys() {
    let mut s = example_settings();
    s.binaries.push(BundleBinary { name: "helper".to_string(), path: "target/release/helper".to_string() });
    let m = ManifestMap::from_settings(&s);
    match render_manifest(&m) {
        Ok(out) => {
            assert!(out.contains("\"app_id\": \"com.example.app\""));
            assert!(out.contains("\"command\": \"example\""));
            assert!(out.contains("\"name\": \"Example\""));
            assert!(out.contains("\"cargo --offline build --release\",\n        \"install -Dm755 target/release/example /app/bin/example\",\n        \"install -Dm755 target/release/helper /app/bin/helper\"\n"));
            assert!(!out.contains("{{"));
        }
        Err(e) => panic!("{}", e.message()),
    }
}

#[test]
fn render_escapes_html() {
    let mut s = example_settings();
    s.product_name = "Tom & Jerry".to_string();
    let m = ManifestMap::from_settings(&s);
    match render_manifest(&m) {
        Ok(out) => assert!(out.contains("\"name\": \"Tom &amp; Jerry\"")),
        Err(e) => panic!("{}", e.message()),
    }
}

#[test]
fn template_lists_the_keys_it_reads() {
    for key in ["{{app_id}}", "{{app_name}}", "{{main_binary}}", "{{#each binary}}"] {
        assert!(MANIFEST_TEMPLATE.contains(key));
    }
}

#[test]
fn example_manifest_and_bundle() {
    let p = example_plan();
    assert_eq!(p.steps.len(), 10);
    match &p.steps[5].action {
        Action::WriteFile { path, contents } => {
            assert_eq!(path, "target/release/bundle/flatpak/com.example.app.json");
            assert!(contents.contains("\"app_id\": \"com.example.app\""));
            assert!(contents.contains("\"command\": \"example\""));
            assert!(contents.contains("\"name\": \"Example\""));
            assert!(contents.contains("install -Dm755 target/release/example /app/bin/example"));
        }
        _ => panic!("step 5 writes the manifest"),
    }
    assert_eq!(p.artifacts, vec!["target/release/bundle/flatpak/com.example.app.flatpak".to_string()]);
    let (program, args) = run_args(&p.steps[9].action);
    assert_eq!(program, "flatpak");
    assert_eq!(
        args,
        vec![
            "build-bundle".to_string(),
            "target/release/bundle/flatpak_build/repo".to_string(),
            "target/release/bundle/flatpak/com.example.app.flatpak".to_string(),
            "com.example.app".to_string(),
        ]
    );
}

#[test]
fn plan_commands() {
    let p = example_plan();
    match &p.steps[4].action {
        Action::GenerateDesktopFiles { dir } => assert_eq!(dir, "target/release/bundle/flatpak"),
        _ => panic!("step 4 generates the desktop files"),
    }
    assert_eq!(p.steps[4].context, "failed to generate the desktop file and icons in target/release/bundle/flatpak");
    match &p.steps[6].action {
        Action::WriteFile { path, contents } => {
            assert_eq!(path, "target/release/bundle/flatpak_build/flatpak-cargo-generator.py");
            assert_eq!(contents, "print('generator')\n");
        }
        _ => panic!("step 6 writes the generator script"),
    }
    let (program, args) = run_args(&p.steps[7].action);
    assert_eq!(program, "python3");
    assert_eq!(
        args,
        vec![
            "target/release/bundle/flatpak_build/flatpak-cargo-generator.py".to_string(),
            "-o".to_string(),
            "target/release/bundle/flatpak/generated-sources.json".to_string(),
            "Cargo.lock".to_string(),
        ]
    );
    assert_eq!(p.steps[7].context, "failed to generate Cargo sources file for Flatpak manifest");
    let (program, args) = run_args(&p.steps[8].action);
    assert_eq!(program, "flatpak-builder");
    assert_eq!(
        args,
        vec![
            "--state-dir=target/release/bundle/flatpak_build/.flatpak-builder".to_string(),
            "--repo=target/release/bundle/flatpak_build/repo".to_string(),
            "target/release/bundle/flatpak_build/build".to_string(),
            "target/release/bundle/flatpak/com.example.app.json".to_string(),
        ]
    );
    assert_eq!(p.steps[8].context, "failed to build Flatpak");
    assert_eq!(p.steps[9].context, "failed to export Flatpak bundle");
}

fn staging(p: &BundlePlan) -> Vec<String> {
    let mut out = Vec::new();
    for s in &p.steps[0..4] {
        match &s.action {
            Action::RemoveDirIfExists { path } => out.push(format!("remove {}", path)),
            Action::CreateDirAll { path } => out.push(format!("create {}", path)),
            _ => out.push("other".to_string()),
        }
    }
    out
}

#[test]
fn staging_is_the_same_on_every_run() {
    let a = example_plan();
    let b = example_plan();
    let expected = vec![
        "remove target/release/bundle/flatpak".to_string(),
        "remove target/release/bundle/flatpak_build".to_string(),
        "create target/release/bundle/flatpak".to_string(),
        "create target/release/bundle/flatpak_build".to_string(),
    ];
    assert_eq!(staging(&a), expected);
    assert_eq!(staging(&b), expected);
    assert_eq!(a.steps[0].context, "failed to remove target/release/bundle/flatpak");
    assert_eq!(a.steps[3].context, "failed to create target/release/bundle/flatpak_build");
}

#[test]
fn successful_run_returns_the_bundle() {
    let p = example_plan();
    let mut d = start(&p);
    let mut performed = 0usize;
    loop {
        match d {
            Decision::Perform { index } => {
                assert_eq!(index, performed);
                performed += 1;
                d = advance(&p, index, StepOutcome::Succeeded);
            }
            Decision::Finish { artifacts } => {
                assert_eq!(performed, 10);
                assert_eq!(artifacts, vec!["target/release/bundle/flatpak/com.example.app.flatpak".to_string()]);
                break;
            }
            Decision::Abort { .. } => panic!("nothing failed"),
        }
    }
}

#[test]
fn builder_failure_stops_before_export() {
    let p = example_plan();
    let mut d = start(&p);
    let mut performed = Vec::new();
    loop {
        match d {
            Decision::Perform { index } => {
                performed.push(index);
                let outcome = if index == 8 {
                    StepOutcome::Failed { detail: "exit status: 1".to_string() }
                } else {
                    StepOutcome::Succeeded
                };
                d = advance(&p, index, outcome);
            }
            Decision::Finish { .. } => panic!("the builder failed"),
            Decision::Abort { error } => {
                assert_eq!(performed, vec![0, 1, 2, 3, 4, 5, 6, 7, 8]);
                match &error {
                    BundleError::Subprocess { context, detail } => {
                        assert_eq!(context, "failed to build Flatpak");
                        assert_eq!(detail, "exit status: 1");
                    }
                    _ => panic!("a command failed"),
                }
                assert_eq!(error.message(), "failed to build Flatpak: exit status: 1");
                break;
            }
        }
    }
}

#[test]
fn filesystem_failure_is_tagged() {
    let p = example_plan();
    let d = advance(&p, 5, StepOutcome::Failed { detail: "permission denied".to_string() });
    match d {
        Decision::Abort { error: BundleError::Filesystem { context, detail } } => {
            assert_eq!(context, "failed to write target/release/bundle/flatpak/com.example.app.json");
            assert_eq!(detail, "permission denied");
        }
        _ => panic!("expected a file system error"),
    }
}

#[test]
fn empty_plan_finishes_at_once() {
    let p = BundlePlan {
        layout: BundleLayout::new("out", "a.b"),
        steps: vec![],
        artifacts: vec!["x".to_string()],
        template_failure: None,
    };
    match start(&p) {
        Decision::Finish { artifacts } => assert_eq!(artifacts, vec!["x".to_string()]),
        _ => panic!("no steps to perform"),
    }
}

fn staging_only_plan() -> BundlePlan {
    let full = example_plan();
    let mut steps: Vec<Step> = Vec::new();
    for s in full.steps.into_iter().take(5) {
        steps.push(s);
    }
    BundlePlan {
        layout: full.layout,
        steps,
        artifacts: full.artifacts,
        template_failure: Some("Variable \"version\" not found in strict mode".to_string()),
    }
}

#[test]
fn template_failure_ends_after_staging() {
    let p = staging_only_plan();
    let mut d = start(&p);
    let mut performed = Vec::new();
    loop {
        match d {
            Decision::Perform { index } => {
                performed.push(index);
                d = advance(&p, index, StepOutcome::Succeeded);
            }
            Decision::Finish { .. } => panic!("the manifest did not render"),
            Decision::Abort { error } => {
                assert_eq!(performed, vec![0, 1, 2, 3, 4]);
                match &error {
                    BundleError::Template { detail } => {
                        assert_eq!(detail, "Variable \"version\" not found in strict mode")
                    }
                    _ => panic!("a template error"),
                }
                assert!(error.message().starts_with("failed to render the Flatpak manifest: "));
                break;
            }
        }
    }
}

#[test]
fn empty_plan_with_template_failure_fails_at_once() {
    let p = BundlePlan {
        layout: BundleLayout::new("out", "a.b"),
        steps: vec![],
        artifacts: vec!["x".to_string()],
        template_failure: Some("bad".to_string()),
    };
    match start(&p) {
        Decision::Abort { error: BundleError::Template { detail } } => assert_eq!(detail, "bad"),
        _ => panic!("the manifest did not render"),
    }
}
