use manatsu::commands;
use manatsu::error::Error;
use manatsu::pipeline::{self, BuildConfig, BuildPlan};

fn table() -> BuildConfig {
    BuildConfig {
        first: String::from("shared"),
        scope: String::from("@manatsu/"),
        allow: vec![
            String::from("shared"),
            String::from("components"),
            String::from("composables"),
            String::from("sass"),
        ],
        no_build: vec![String::from("sass")],
        standalone: vec![String::from("sass")],
    }
}

fn strings(items: &[&str]) -> Vec<String> {
    items.iter().map(|s| String::from(*s)).collect()
}

#[test]
fn normalize_trims_lowers_and_strips_scope() {
    let cfg = table();
    assert_eq!(
        pipeline::normalize_name(cfg.scope.as_str(), "  @Manatsu/Components\t"),
        "components"
    );
    assert_eq!(pipeline::normalize_name(cfg.scope.as_str(), "shared"), "shared");
    assert_eq!(pipeline::normalize_name(cfg.scope.as_str(), "SASS"), "sass");
    assert_eq!(pipeline::normalize_name(cfg.scope.as_str(), ""), "");
    assert_eq!(pipeline::normalize_name(cfg.scope.as_str(), "   "), "");
}

#[test]
fn should_build_follows_the_allow_list() {
    let cfg = table();
    assert!(pipeline::should_build(&cfg, "components"));
    assert!(pipeline::should_build(&cfg, "composables"));
    // The fixed first package was already built alone.
    assert!(!pipeline::should_build(&cfg, "shared"));
    // Exempt from building.
    assert!(!pipeline::should_build(&cfg, "sass"));
    // Not on the allow-list.
    assert!(!pipeline::should_build(&cfg, "docs"));
}

#[test]
fn build_filtering_keeps_exactly_the_eligible_package() {
    let cfg = table();
    let requested = strings(&["shared", "components", "docs", "sass"]);
    let plan = pipeline::build_plan(&cfg, &requested).unwrap();
    assert_eq!(plan.packages, vec!["components"]);
}

#[test]
fn build_filtering_normalizes_before_comparing() {
    let cfg = table();
    let requested = strings(&[" @manatsu/Components ", "@MANATSU/COMPOSABLES"]);
    let plan = pipeline::build_plan(&cfg, &requested).unwrap();
    assert_eq!(plan.packages, vec!["components", "composables"]);
}

#[test]
fn empty_request_is_refused() {
    let cfg = table();
    let requested: Vec<String> = Vec::new();
    let r = pipeline::build_plan(&cfg, &requested);
    assert_eq!(r.err().unwrap(), Error::EmptyRequest);
}

#[test]
fn unbuildable_request_is_refused_distinctly() {
    let cfg = table();
    let requested = strings(&["docs", "sass", "shared"]);
    let r = pipeline::build_plan(&cfg, &requested);
    assert_eq!(r.err().unwrap(), Error::NothingBuildable);
}

#[test]
fn copy_step_skips_standalone_packages() {
    let cfg = table();
    let plan = BuildPlan { packages: strings(&["components", "sass", "composables"]) };
    let copies = pipeline::copy_list(&cfg, &plan);
    assert_eq!(copies, vec!["components", "composables"]);
}

#[test]
fn dts_filename_derives_from_package_name() {
    assert_eq!(pipeline::dts_filename("components"), "components.d.ts");
}

#[test]
fn formatter_command_shape() {
    let args = commands::prettier_args("**/composables/src/useX/**/*.ts");
    assert_eq!(
        args,
        vec!["exec", "prettier", "**/composables/src/useX/**/*.ts", "--write"]
    );
}

#[test]
fn linter_command_shape() {
    let extra = strings(&["--rule", "x: off", "**/components/src/index.ts"]);
    let args = commands::eslint_args("glob", &extra);
    assert_eq!(
        args,
        vec!["exec", "eslint", "--fix", "--rule", "x: off", "**/components/src/index.ts", "glob"]
    );
}

#[test]
fn package_manager_command_shapes() {
    let args = commands::first_build_args("shared");
    assert_eq!(args, vec!["run", "--filter", "shared", "build"]);

    let pkgs = strings(&["components", "composables"]);
    let args = commands::parallel_build_args(&pkgs);
    assert_eq!(
        args,
        vec!["run", "--parallel", "--filter", "components", "--filter", "composables", "build"]
    );
}

#[test]
fn eq_str_compares_by_characters() {
    assert!(pipeline::eq_str("shared", "shared"));
    assert!(!pipeline::eq_str("shared", "share"));
    assert!(!pipeline::eq_str("shared", "sharEd"));
}
