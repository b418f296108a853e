use distgen::Manager;

fn demo_manager() -> Manager {
    Manager {
        bin: None,
        channel: String::from("stable"),
        features: None,
        name: String::from("demo"),
        description: String::from("Demo tool"),
        homepage: String::from("https://demo.dev"),
        repository: String::from("https://github.com/x/demo.git"),
        license: String::from("MIT"),
        homebrew_tap_path: String::from("/tmp/tap"),
    }
}

#[test]
fn tap_workflow_is_verbatim_at_fixed_path() {
    let m = demo_manager();
    let template = "name: update\non: schedule\n";
    let a = m.write_homebrewtap_workflows_update_formula(template);
    assert_eq!(a.path, "/tmp/tap/.github/workflows/update-formula-cargodist.yml");
    assert_eq!(a.content, template);
}

#[test]
fn formula_renders_all_six_variables() {
    let m = demo_manager();
    let a = m.write_homebrewtap_templates_formula().unwrap();
    assert_eq!(a.path, "/tmp/tap/templates/demo.rb");
    let expected = "class Demo < Formula\n  desc \"Demo tool\"\n  homepage \"https://demo.dev\"\n  head \"https://github.com/x/demo.git\"\n  url \"https://github.com/x/demo/releases/latest/download/demo.tar.gz\"\n\n  def install\n    bin.install \"demo\"\n  end\nend\n";
    assert_eq!(a.content, expected);
}

#[test]
fn pascal_case_of_hyphenated_name() {
    let mut m = demo_manager();
    m.name = String::from("my-tool");
    let a = m.write_homebrewtap_templates_formula().unwrap();
    assert_eq!(a.path, "/tmp/tap/templates/my-tool.rb");
    assert!(a.content.contains("class MyTool < Formula"));
    assert!(a.content.contains("bin.install \"my-tool\""));
}

#[test]
fn repository_url_strips_trailing_git_suffix() {
    let mut m = demo_manager();
    m.repository = String::from("https://a/b.git");
    let a = m.write_homebrewtap_templates_formula().unwrap();
    assert!(a.content.contains("head \"https://a/b.git\""));
    assert!(a.content.contains("url \"https://a/b/releases/latest/download/demo.tar.gz\""));
}

#[test]
fn repository_url_without_suffix_is_unchanged() {
    let mut m = demo_manager();
    m.repository = String::from("https://a/b");
    let a = m.write_homebrewtap_templates_formula().unwrap();
    assert!(a.content.contains("url \"https://a/b/releases/latest/download/demo.tar.gz\""));
}

#[test]
fn repository_url_strips_repeated_git_suffixes() {
    let mut m = demo_manager();
    m.repository = String::from("https://a/b.git.git");
    let a = m.write_homebrewtap_templates_formula().unwrap();
    assert!(a.content.contains("url \"https://a/b/releases/latest/download/demo.tar.gz\""));
}

#[test]
fn formula_rendering_is_reproducible() {
    let m = demo_manager();
    let first = m.write_homebrewtap_templates_formula().unwrap();
    let second = m.write_homebrewtap_templates_formula().unwrap();
    assert_eq!(first.content, second.content);
}

#[test]
fn release_workflow_with_no_options_renders_empty_fragments() {
    let m = demo_manager();
    let template = "build: cargo dist {% bin_option %}|{% features_option %}|{% channel %}|{% name %}";
    let a = m.write_project_templates_formula(template);
    assert_eq!(a.path, ".github/workflows/release-demo-cargodist.yml");
    assert_eq!(a.content, "build: cargo dist ||stable|demo");
}

#[test]
fn release_workflow_embeds_bin_flag() {
    let mut m = demo_manager();
    m.bin = Some(String::from("x"));
    let a = m.write_project_templates_formula("run {% bin_option %} done");
    assert_eq!(a.content, "run --bin x done");
    assert!(a.content.contains("--bin x"));
}

#[test]
fn release_workflow_embeds_quoted_features_flag() {
    let mut m = demo_manager();
    m.features = Some(String::from("serde"));
    let a = m.write_project_templates_formula("run {% features_option %} done");
    assert_eq!(a.content, "run --features \"serde\" done");
}

#[test]
fn release_workflow_replaces_every_occurrence() {
    let m = demo_manager();
    let a = m.write_project_templates_formula("{% name %}-{% name %}");
    assert_eq!(a.content, "demo-demo");
}

#[test]
fn unknown_tokens_pass_through_verbatim() {
    let m = demo_manager();
    let a = m.write_project_templates_formula("a {% other %} b {% name %} c");
    assert_eq!(a.content, "a {% other %} b demo c");
}

#[test]
fn token_free_template_is_unchanged() {
    let m = demo_manager();
    let template = "name: release\non: push\n";
    let a = m.write_project_templates_formula(template);
    assert_eq!(a.content, template);
}

#[test]
fn scoop_bucket_document_is_exact() {
    let m = demo_manager();
    let a = m.write_scoop_bucket();
    assert_eq!(a.path, "/tmp/tap/bucket/demo.json");
    let expected = "{\n  \"version\": \"\",\n  \"description\": \"Demo tool\",\n  \"homepage\": \"https://demo.dev\",\n  \"license\": \"MIT\",\n  \"url\": \"https://github.com/x/demo/releases/latest\",\n  \"bin\": [\n    \"demo\"\n  ],\n  \"checkver\": \"github\",\n  \"autoupdate\": {\n    \"url\": \"https://github.com/x/demo/releases/latest\"\n  }\n}";
    assert_eq!(a.content, expected);
}

#[test]
fn scoop_bucket_parses_as_json_with_expected_fields() {
    let m = demo_manager();
    let a = m.write_scoop_bucket();
    let v: serde_json::Value = serde_json::from_str(&a.content).unwrap();
    assert_eq!(v["homepage"], serde_json::Value::String(String::from("https://demo.dev")));
    assert_eq!(v["description"], serde_json::Value::String(String::from("Demo tool")));
    assert_eq!(v["version"], serde_json::Value::String(String::new()));
    assert_eq!(v["checkver"], serde_json::Value::String(String::from("github")));
    assert_eq!(v["bin"][0], serde_json::Value::String(String::from("demo")));
    assert_eq!(
        v["autoupdate"]["url"],
        serde_json::Value::String(String::from("https://github.com/x/demo/releases/latest"))
    );
}

#[test]
fn scoop_bucket_uses_configured_binary_name() {
    let mut m = demo_manager();
    m.bin = Some(String::from("demo-cli"));
    let a = m.write_scoop_bucket();
    let v: serde_json::Value = serde_json::from_str(&a.content).unwrap();
    assert_eq!(v["bin"][0], serde_json::Value::String(String::from("demo-cli")));
}

#[test]
fn scoop_bucket_escapes_description() {
    let mut m = demo_manager();
    m.description = String::from("say \"hi\"\\now");
    let a = m.write_scoop_bucket();
    let v: serde_json::Value = serde_json::from_str(&a.content).unwrap();
    assert_eq!(v["description"], serde_json::Value::String(String::from("say \"hi\"\\now")));
}

#[test]
fn demo_scenario_produces_all_expected_artifacts() {
    let m = demo_manager();

    let formula = m.write_homebrewtap_templates_formula().unwrap();
    assert_eq!(formula.path, "/tmp/tap/templates/demo.rb");
    assert!(formula.content.contains("class Demo < Formula"));
    assert!(formula
        .content
        .contains("url \"https://github.com/x/demo/releases/latest/download/demo.tar.gz\""));

    let bucket = m.write_scoop_bucket();
    assert_eq!(bucket.path, "/tmp/tap/bucket/demo.json");
    assert!(bucket.content.contains("\"homepage\": \"https://demo.dev\""));
    let parsed: Result<serde_json::Value, serde_json::Error> = serde_json::from_str(&bucket.content);
    assert!(parsed.is_ok());

    let release = m.write_project_templates_formula(
        "channel: {% channel %}\nbin: [{% bin_option %}]\nfeatures: [{% features_option %}]\n",
    );
    assert_eq!(release.path, ".github/workflows/release-demo-cargodist.yml");
    assert_eq!(release.content, "channel: stable\nbin: []\nfeatures: []\n");
}
